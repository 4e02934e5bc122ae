use kvsync::config::{
    DbConfig, KeyValConfig, MySqlConfig, TableConfig, WhereClauseDataType,
};
use kvsync::errors::{ConfigValidationError, TemplateError};
use kvsync::projection::project_row;
use kvsync::query::{has_id_marker, materialize};
use kvsync::template::resolve;
use kvsync::text::{str_eq, str_lex_le, u64_to_string};

fn row(values: &[&str]) -> Vec<String> {
    values.iter().map(|v| v.to_string()).collect()
}

#[test]
fn resolve_concatenates_column_one_with_literal() {
    let r = resolve("{1}pan", &row(&["X", "Y"]));
    assert_eq!(r.unwrap(), "Xpan".to_string());
}

#[test]
fn resolve_picks_column_two() {
    let r = resolve("{2}", &row(&["X", "Y"]));
    assert_eq!(r.unwrap(), "Y".to_string());
}

#[test]
fn resolve_rejects_reference_past_the_row() {
    let r = resolve("{3}", &row(&["X", "Y"]));
    assert_eq!(r.unwrap_err(), TemplateError::ColumnIndexOutOfRange);
}

#[test]
fn resolve_rejects_zero_reference() {
    let r = resolve("{0}", &row(&["X", "Y"]));
    assert_eq!(r.unwrap_err(), TemplateError::MalformedTemplate);
}

#[test]
fn resolve_rejects_non_numeric_reference() {
    let r = resolve("{a}", &row(&["X", "Y"]));
    assert_eq!(r.unwrap_err(), TemplateError::MalformedTemplate);
}

#[test]
fn resolve_passes_plain_text_through() {
    let r = resolve("plain text, no markers", &row(&[]));
    assert_eq!(r.unwrap(), "plain text, no markers".to_string());
}

#[test]
fn resolve_passes_lone_closing_brace_through() {
    let r = resolve("a}b", &row(&[]));
    assert_eq!(r.unwrap(), "a}b".to_string());
}

#[test]
fn resolve_rejects_unclosed_marker() {
    assert_eq!(resolve("{", &row(&["X"])).unwrap_err(), TemplateError::MalformedTemplate);
    assert_eq!(resolve("{1", &row(&["X"])).unwrap_err(), TemplateError::MalformedTemplate);
    assert_eq!(resolve("{1x}", &row(&["X"])).unwrap_err(), TemplateError::MalformedTemplate);
}

#[test]
fn resolve_handles_many_references() {
    let r = resolve("{2}-{1}{2}", &row(&["a", "b"]));
    assert_eq!(r.unwrap(), "b-ab".to_string());
}

#[test]
fn resolve_rejects_huge_reference_as_out_of_range() {
    let r = resolve("{99999999999999999999999}", &row(&["X"]));
    assert_eq!(r.unwrap_err(), TemplateError::ColumnIndexOutOfRange);
}

#[test]
fn materialize_substitutes_the_cursor() {
    let r = materialize("select * from t where id > {id}", "42");
    assert_eq!(r.unwrap(), "select * from t where id > 42".to_string());
}

#[test]
fn materialize_rejects_template_without_marker() {
    let r = materialize("select * from t", "42");
    assert_eq!(r.unwrap_err(), ConfigValidationError::MissingIdPlaceholder);
}

#[test]
fn id_marker_is_detected() {
    assert!(has_id_marker("a {id} b"));
    assert!(!has_id_marker("a {idx} b"));
    assert!(!has_id_marker(""));
}

#[test]
fn default_config_passes_validation_while_enabled() {
    let c = MySqlConfig::default();
    assert!(c.enabled);
    assert!(c.validate().is_ok());
}

#[test]
fn default_rule_targets_path_t() {
    let r = KeyValConfig::default();
    assert_eq!(r.table_name, "path_t");
    assert_eq!(r.key_format, "{1}pan");
    assert_eq!(r.val_format, "{2}");
}

#[test]
fn default_config_has_the_vault_table() {
    let c = MySqlConfig::default();
    assert_eq!(c.fetch_limit, 5000);
    assert_eq!(c.periodic_fetch_duration, 10000);
    let t = c.get_table("turing_vault_pan").expect("the default table");
    assert_eq!(t.key_val_pairs.len(), 2);
    assert_eq!(t.key_val_pairs[0].table_name, "path_t");
    assert_eq!(t.key_val_pairs[0].key_format, "{1}pan");
    assert_eq!(t.key_val_pairs[0].val_format, "{2}");
    assert_eq!(t.offset, 0);
    assert_eq!(t.total_rows, 0);
    assert!(c.get_table("absent").is_none());
}

#[test]
fn validation_rejects_zero_fetch_limit_when_enabled() {
    let mut c = MySqlConfig::default();
    c.fetch_limit = 0;
    assert_eq!(c.validate().unwrap_err(), ConfigValidationError::InvalidFetchLimit);
    c.enabled = false;
    assert!(c.validate().is_ok());
}

#[test]
fn validation_rejects_empty_projection_rules() {
    let mut c = MySqlConfig::default();
    c.tables[0].1.key_val_pairs.clear();
    assert_eq!(c.validate().unwrap_err(), ConfigValidationError::EmptyProjectionRules);
}

#[test]
fn validation_rejects_empty_target_name() {
    let mut c = MySqlConfig::default();
    c.tables[0].1.key_val_pairs[1] = KeyValConfig::new("", "{1}", "{2}");
    assert_eq!(c.validate().unwrap_err(), ConfigValidationError::EmptyTargetName);
}

#[test]
fn validation_rejects_missing_id_placeholder() {
    let mut c = MySqlConfig::default();
    c.tables[0].1.select_query = "select * from t".to_string();
    assert_eq!(c.validate().unwrap_err(), ConfigValidationError::MissingIdPlaceholder);
}

#[test]
fn validation_rejects_duplicate_table_names() {
    let mut c = MySqlConfig::default();
    let t = c.tables[0].1.clone();
    c.tables.push(("turing_vault_pan".to_string(), t));
    assert_eq!(c.validate().unwrap_err(), ConfigValidationError::DuplicateTableName);
}

#[test]
fn cursor_value_renders_the_offset_under_row_id_policy() {
    let mut t = TableConfig::default();
    t.offset = 42;
    assert_eq!(t.cursor_value(), "42".to_string());
}

#[test]
fn cursor_value_uses_the_watermark_under_unix_time_policy() {
    let mut t = TableConfig::default();
    t.where_clause_type = WhereClauseDataType::UnixTime;
    t.last_updated = "2020-01-01 00:00:00".to_string();
    assert_eq!(t.cursor_value(), "2020-01-01 00:00:00".to_string());
}

#[test]
fn next_select_query_substitutes_the_cursor() {
    let mut t = TableConfig::default();
    t.offset = 7;
    let q = t.next_select_query().unwrap();
    assert_eq!(q, "select id, hash, token, enc_value from turing_vault_pan where id > 7 ");
    let cq = t.next_count_query().unwrap();
    assert_eq!(cq, "select COUNT(*) from turing_vault_pan where id > 7 ");
}

#[test]
fn next_select_query_reports_a_missing_marker() {
    let mut t = TableConfig::default();
    t.select_query = "select 1".to_string();
    assert_eq!(t.next_select_query().unwrap_err(), ConfigValidationError::MissingIdPlaceholder);
}

#[test]
fn commit_advances_the_row_id_cursor_monotonically() {
    let mut t = TableConfig::default();
    t.offset = 10;
    t.commit_poll(3, 25, "");
    assert_eq!(t.offset, 25);
    assert_eq!(t.total_rows, 3);
    // A poll whose greatest row identifier lies behind the cursor never
    // moves it backwards.
    t.commit_poll(2, 7, "");
    assert_eq!(t.offset, 25);
    assert_eq!(t.total_rows, 5);
}

#[test]
fn commit_advances_the_watermark_under_unix_time_policy() {
    let mut t = TableConfig::default();
    t.where_clause_type = WhereClauseDataType::UnixTime;
    t.last_updated = "2020-06-01".to_string();
    t.commit_poll(1, 0, "2021-01-01");
    assert_eq!(t.last_updated, "2021-01-01");
    t.commit_poll(1, 0, "2019-12-31");
    assert_eq!(t.last_updated, "2021-01-01");
    assert_eq!(t.offset, 0);
    assert_eq!(t.total_rows, 2);
}

#[test]
fn commit_through_the_root_touches_only_that_table() {
    let mut c = MySqlConfig::default();
    let before = c.clone();
    c.commit_poll_at(0, 4, 99, "");
    assert_eq!(c.tables[0].0, before.tables[0].0);
    assert_eq!(c.tables[0].1.offset, 99);
    assert_eq!(c.tables[0].1.total_rows, 4);
    assert_eq!(c.db_config, before.db_config);
    assert_eq!(c.enabled, before.enabled);
    assert_eq!(c.fetch_limit, before.fetch_limit);
}

#[test]
fn projection_yields_one_outcome_per_rule_in_rule_order() {
    let rules = vec![
        KeyValConfig::new("path_t", "{1}pan", "{2}"),
        KeyValConfig::new("pan_d", "{2}pan", "{3}"),
    ];
    let r = row(&["k1", "v1", "v2"]);
    let out = project_row(&rules, &r);
    assert_eq!(out.len(), 2);
    let first = out[0].as_ref().unwrap();
    assert_eq!(first.target_name, "path_t");
    assert_eq!(first.key, "k1pan");
    assert_eq!(first.value, "v1");
    let second = out[1].as_ref().unwrap();
    assert_eq!(second.target_name, "pan_d");
    assert_eq!(second.key, "v1pan");
    assert_eq!(second.value, "v2");
}

#[test]
fn projection_tolerates_one_failing_rule() {
    let rules = vec![
        KeyValConfig::new("path_t", "{9}", "{2}"),
        KeyValConfig::new("pan_d", "{1}", "{2}"),
    ];
    let r = row(&["a", "b"]);
    let out = project_row(&rules, &r);
    assert_eq!(out.len(), 2);
    assert_eq!(*out[0].as_ref().unwrap_err(), TemplateError::ColumnIndexOutOfRange);
    let ok = out[1].as_ref().unwrap();
    assert_eq!(ok.key, "a");
    assert_eq!(ok.value, "b");
}

#[test]
fn projection_is_deterministic_on_a_fixed_row() {
    let t = TableConfig::default();
    let r = row(&["one", "two", "three", "four"]);
    let first = t.project(&r);
    let second = t.project(&r);
    assert_eq!(first, second);
}

#[test]
fn decimal_rendering_is_exact() {
    assert_eq!(u64_to_string(0), "0");
    assert_eq!(u64_to_string(7), "7");
    assert_eq!(u64_to_string(12345), "12345");
    assert_eq!(u64_to_string(u64::MAX), "18446744073709551615");
}

#[test]
fn string_helpers_compare_correctly() {
    assert!(str_eq("abc", "abc"));
    assert!(!str_eq("abc", "abd"));
    assert!(!str_eq("abc", "ab"));
    assert!(str_lex_le("2020-01-01", "2020-01-02"));
    assert!(str_lex_le("abc", "abc"));
    assert!(!str_lex_le("b", "a"));
    assert!(str_lex_le("ab", "abc"));
}

#[test]
fn default_connection_matches_the_schema() {
    let d = DbConfig::default();
    assert_eq!(d.host, "localhost");
    assert_eq!(d.port, 3306);
    assert_eq!(d.user, "root");
    assert_eq!(d.db_name, "turing_db");
    assert_eq!(d.read_timeout, 60000);
    assert_eq!(d.write_timeout, 60000);
    assert_eq!(d.tcp_connect_timeout, 60000);
    assert_eq!(d.tcp_keepalive_time, 60000);
}

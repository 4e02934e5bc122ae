use kvsync::codec::{db_from_json, db_to_json, rule_from_json, rule_to_json, Json, JsonField};
use kvsync::config::{KeyValConfig, MySqlConfig, TableConfig, WhereClauseDataType};
use kvsync::errors::ConfigParseError;

#[test]
fn round_trip_preserves_the_default_config() {
    let c = MySqlConfig::default();
    let doc = c.to_document();
    let back = MySqlConfig::from_document(&doc).unwrap();
    assert_eq!(back, c);
}

#[test]
fn round_trip_preserves_a_populated_config() {
    let mut c = MySqlConfig::default();
    c.enabled = true;
    c.db_config.host = "db.example".to_string();
    c.db_config.port = 3307;
    c.fetch_limit = 17;
    let mut extra = TableConfig::default();
    extra.where_clause_type = WhereClauseDataType::UnixTime;
    extra.select_query = "select a, b from events where ts > {id}".to_string();
    extra.count_query = "select COUNT(*) from events where ts > {id}".to_string();
    extra.last_updated = "2021-05-05 00:00:00".to_string();
    extra.offset = 12;
    extra.total_rows = 99;
    extra.key_val_pairs = vec![KeyValConfig::new("events_t", "{1}", "{2}")];
    c.tables.push(("events".to_string(), extra));
    let back = MySqlConfig::from_document(&c.to_document()).unwrap();
    assert_eq!(back, c);
}

#[test]
fn rule_survives_its_document_form() {
    let r = KeyValConfig::new("path_t", "{1}pan", "{2}");
    let back = rule_from_json(&rule_to_json(&r)).unwrap();
    assert_eq!(back, r);
}

#[test]
fn connection_survives_its_document_form() {
    let d = kvsync::config::DbConfig::default();
    let back = db_from_json(&db_to_json(&d)).unwrap();
    assert_eq!(back, d);
}

#[test]
fn parsing_rejects_a_document_of_the_wrong_shape() {
    assert_eq!(
        MySqlConfig::from_document(&Json::Null).unwrap_err(),
        ConfigParseError::SchemaMismatch
    );
    assert_eq!(
        MySqlConfig::from_document(&Json::Obj(Vec::new())).unwrap_err(),
        ConfigParseError::SchemaMismatch
    );
}

#[test]
fn parsing_rejects_a_wrongly_typed_field() {
    let c = MySqlConfig::default();
    let doc = c.to_document();
    let mut fields = match doc {
        Json::Obj(f) => f,
        _ => unreachable!(),
    };
    fields[0] = JsonField { key: "enabled".to_string(), value: Json::UInt(1) };
    assert_eq!(
        MySqlConfig::from_document(&Json::Obj(fields)).unwrap_err(),
        ConfigParseError::SchemaMismatch
    );
}

#[test]
fn parsing_rejects_a_duplicated_table_name() {
    let mut c = MySqlConfig::default();
    let t = c.tables[0].1.clone();
    c.tables.push(("turing_vault_pan".to_string(), t));
    let doc = c.to_document();
    assert_eq!(
        MySqlConfig::from_document(&doc).unwrap_err(),
        ConfigParseError::DuplicateKey
    );
}

#[test]
fn parsing_rejects_an_out_of_range_port() {
    let c = MySqlConfig::default();
    let doc = c.to_document();
    let mut fields = match doc {
        Json::Obj(f) => f,
        _ => unreachable!(),
    };
    let db_fields = match &fields[1].value {
        Json::Obj(df) => {
            let mut copy: Vec<JsonField> = Vec::new();
            for fld in df {
                if fld.key == "port" {
                    copy.push(JsonField { key: "port".to_string(), value: Json::UInt(70000) });
                } else {
                    copy.push(JsonField {
                        key: fld.key.clone(),
                        value: match &fld.value {
                            Json::Str(s) => Json::Str(s.clone()),
                            Json::UInt(n) => Json::UInt(*n),
                            _ => unreachable!(),
                        },
                    });
                }
            }
            copy
        },
        _ => unreachable!(),
    };
    fields[1] = JsonField { key: "db_config".to_string(), value: Json::Obj(db_fields) };
    assert_eq!(
        MySqlConfig::from_document(&Json::Obj(fields)).unwrap_err(),
        ConfigParseError::SchemaMismatch
    );
}

#[test]
fn parsing_accepts_members_in_any_order() {
    let c = MySqlConfig::default();
    let doc = c.to_document();
    let mut fields = match doc {
        Json::Obj(f) => f,
        _ => unreachable!(),
    };
    fields.reverse();
    let back = MySqlConfig::from_document(&Json::Obj(fields)).unwrap();
    assert_eq!(back, c);
}

#[test]
fn document_carries_the_policy_as_its_schema_name() {
    let t = TableConfig::default();
    let doc = kvsync::codec::table_to_json(&t);
    let fields = match doc {
        Json::Obj(f) => f,
        _ => unreachable!(),
    };
    let wct = fields.iter().find(|f| f.key == "where_clause_type").unwrap();
    match &wct.value {
        Json::Str(s) => assert_eq!(s, "ID"),
        _ => panic!("policy must be a string"),
    }
}

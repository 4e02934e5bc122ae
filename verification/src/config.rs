//! The configuration model: projection rules, per-table sync state, the
//! database connection, and the root configuration, with their
//! well-formedness rules and the cursor update of a completed poll.

use vstd::prelude::*;

use crate::errors::ConfigValidationError;
use crate::query::{has_id_marker, materialize, spec_has_id_marker, spec_materialize};
use crate::text::{spec_dec_digits, spec_lex_le, str_eq, str_lex_le, u64_to_string};

verus! {

/// How the next poll's row-selection predicate is derived from prior
/// state: by monotonically increasing row identifier, or by a Unix
/// timestamp watermark.
#[derive(Debug, Clone, Copy, PartialEq, Eq, Structural)]
pub enum WhereClauseDataType {
    /// Use the `last_updated` watermark string.
    UnixTime,
    /// Use the `offset` row identifier.
    ID,
}

/// One key/value projection rule: a target store name, a key template and
/// a value template.
#[derive(Debug, Clone, PartialEq)]
pub struct KeyValConfig {
    pub table_name: String,
    pub key_format: String,
    pub val_format: String,
}

/// The mathematical content of a [`KeyValConfig`].
pub ghost struct KeyValModel {
    pub table_name: Seq<char>,
    pub key_format: Seq<char>,
    pub val_format: Seq<char>,
}

impl View for KeyValConfig {
    type V = KeyValModel;

    open spec fn view(&self) -> KeyValModel {
        KeyValModel {
            table_name: self.table_name@,
            key_format: self.key_format@,
            val_format: self.val_format@,
        }
    }
}

impl DeepView for KeyValConfig {
    type V = KeyValModel;

    open spec fn deep_view(&self) -> KeyValModel {
        self.view()
    }
}

/// A projection rule is valid when its target store name is non-empty.
pub open spec fn rule_valid(r: KeyValModel) -> bool {
    r.table_name.len() > 0
}

impl KeyValConfig {
    /// A rule that projects into the store `table_name`, deriving the key
    /// from `key_format` and the value from `val_format`.
    pub fn new(table_name: &str, key_format: &str, val_format: &str) -> (r: KeyValConfig)
        ensures
            r@ == (KeyValModel { table_name: table_name@, key_format: key_format@, val_format: val_format@ }),
    {
        KeyValConfig {
            table_name: table_name.to_owned(),
            key_format: key_format.to_owned(),
            val_format: val_format.to_owned(),
        }
    }
}

/// The default rule: target store `path_t`, column one concatenated with
/// the literal `pan` as the key, column two as the value.
pub open spec fn default_key_val_model() -> KeyValModel {
    KeyValModel { table_name: "path_t"@, key_format: "{1}pan"@, val_format: "{2}"@ }
}

impl Default for KeyValConfig {
    fn default() -> (r: KeyValConfig)
        ensures
            r@ == default_key_val_model(),
    {
        KeyValConfig {
            table_name: "path_t".to_owned(),
            key_format: "{1}pan".to_owned(),
            val_format: "{2}".to_owned(),
        }
    }
}

/// The synchronization configuration and mutable cursor state of one
/// source table.
#[derive(Debug, Clone, PartialEq)]
pub struct TableConfig {
    pub select_query: String,
    pub count_query: String,
    pub where_clause_type: WhereClauseDataType,
    pub id_index: usize,
    pub key_val_pairs: Vec<KeyValConfig>,
    pub offset: u64,
    pub last_updated: String,
    pub total_rows: u64,
}

/// The mathematical content of a [`TableConfig`].
pub ghost struct TableModel {
    pub select_query: Seq<char>,
    pub count_query: Seq<char>,
    pub where_clause_type: WhereClauseDataType,
    pub id_index: usize,
    pub key_val_pairs: Seq<KeyValModel>,
    pub offset: u64,
    pub last_updated: Seq<char>,
    pub total_rows: u64,
}

impl View for TableConfig {
    type V = TableModel;

    open spec fn view(&self) -> TableModel {
        TableModel {
            select_query: self.select_query@,
            count_query: self.count_query@,
            where_clause_type: self.where_clause_type,
            id_index: self.id_index,
            key_val_pairs: self.key_val_pairs.deep_view(),
            offset: self.offset,
            last_updated: self.last_updated@,
            total_rows: self.total_rows,
        }
    }
}

/// A table configuration is valid when it defines at least one projection
/// rule, every rule is valid, and both query templates carry the `{id}`
/// cursor placeholder.
pub open spec fn table_valid(t: TableModel) -> bool {
    &&& t.key_val_pairs.len() > 0
    &&& forall|i: int| 0 <= i < t.key_val_pairs.len() ==> rule_valid(#[trigger] t.key_val_pairs[i])
    &&& spec_has_id_marker(t.select_query)
    &&& spec_has_id_marker(t.count_query)
}

/// The substitution value the cursor policy chooses for the `{id}`
/// placeholder: the decimal row-identifier offset under `ID`, the
/// watermark string under `UnixTime`.
pub open spec fn spec_cursor_value(t: TableModel) -> Seq<char> {
    match t.where_clause_type {
        WhereClauseDataType::ID => spec_dec_digits(t.offset as nat),
        WhereClauseDataType::UnixTime => t.last_updated,
    }
}

/// The state of a table after a poll that fetched `rows_fetched` rows
/// whose greatest row identifier is `max_row_id` and greatest watermark
/// is `max_timestamp`: the cursor field the policy reads advances to the
/// maximum of its old value and the new one, and `total_rows` counts the
/// fetched rows. Everything else is unchanged.
pub open spec fn spec_commit(
    t: TableModel,
    rows_fetched: u64,
    max_row_id: u64,
    max_timestamp: Seq<char>,
) -> TableModel {
    TableModel {
        offset: match t.where_clause_type {
            WhereClauseDataType::ID => if max_row_id > t.offset {
                max_row_id
            } else {
                t.offset
            },
            WhereClauseDataType::UnixTime => t.offset,
        },
        last_updated: match t.where_clause_type {
            WhereClauseDataType::UnixTime => if spec_lex_le(t.last_updated, max_timestamp) {
                max_timestamp
            } else {
                t.last_updated
            },
            WhereClauseDataType::ID => t.last_updated,
        },
        total_rows: (t.total_rows + rows_fetched) as u64,
        ..t
    }
}

impl TableConfig {
    /// The substitution value for the `{id}` placeholder this cycle.
    pub fn cursor_value(&self) -> (r: String)
        ensures
            r@ == spec_cursor_value(self@),
    {
        match self.where_clause_type {
            WhereClauseDataType::ID => u64_to_string(self.offset),
            WhereClauseDataType::UnixTime => self.last_updated.clone(),
        }
    }

    /// The concrete selection query to execute this cycle.
    pub fn next_select_query(&self) -> (r: Result<String, ConfigValidationError>)
        ensures
            match r {
                Ok(s) => spec_materialize(self@.select_query, spec_cursor_value(self@)) == Ok::<
                    Seq<char>,
                    ConfigValidationError,
                >(s@),
                Err(e) => spec_materialize(self@.select_query, spec_cursor_value(self@)) == Err::<
                    Seq<char>,
                    ConfigValidationError,
                >(e),
            },
    {
        let cursor = self.cursor_value();
        materialize(self.select_query.as_str(), cursor.as_str())
    }

    /// The concrete row-count query to execute this cycle.
    pub fn next_count_query(&self) -> (r: Result<String, ConfigValidationError>)
        ensures
            match r {
                Ok(s) => spec_materialize(self@.count_query, spec_cursor_value(self@)) == Ok::<
                    Seq<char>,
                    ConfigValidationError,
                >(s@),
                Err(e) => spec_materialize(self@.count_query, spec_cursor_value(self@)) == Err::<
                    Seq<char>,
                    ConfigValidationError,
                >(e),
            },
    {
        let cursor = self.cursor_value();
        materialize(self.count_query.as_str(), cursor.as_str())
    }

    /// Commits a successfully completed poll: advances the cursor field
    /// the policy reads, never backwards, and counts the fetched rows.
    /// A poll that fails before this commit simply never calls it, which
    /// leaves the cursor unchanged.
    pub fn commit_poll(&mut self, rows_fetched: u64, max_row_id: u64, max_timestamp: &str)
        requires
            old(self).total_rows + rows_fetched <= u64::MAX,
        ensures
            final(self)@ == spec_commit(old(self)@, rows_fetched, max_row_id, max_timestamp@),
            final(self).offset >= old(self).offset,
            final(self).total_rows >= old(self).total_rows,
    {
        match self.where_clause_type {
            WhereClauseDataType::ID => {
                if max_row_id > self.offset {
                    self.offset = max_row_id;
                }
            },
            WhereClauseDataType::UnixTime => {
                if str_lex_le(self.last_updated.as_str(), max_timestamp) {
                    self.last_updated = max_timestamp.to_owned();
                }
            },
        }
        self.total_rows = self.total_rows + rows_fetched;
    }
}

/// The default table configuration: the vault table polled by row
/// identifier, with its two projection rules.
pub open spec fn default_table_model() -> TableModel {
    TableModel {
        select_query: "select id, hash, token, enc_value from turing_vault_pan where id > {id} "@,
        count_query: "select COUNT(*) from turing_vault_pan where id > {id} "@,
        where_clause_type: WhereClauseDataType::ID,
        id_index: 0,
        key_val_pairs: seq![
            KeyValModel { table_name: "path_t"@, key_format: "{1}pan"@, val_format: "{2}"@ },
            KeyValModel { table_name: "pan_d"@, key_format: "{2}pan"@, val_format: "{3}"@ },
        ],
        offset: 0,
        last_updated: Seq::empty(),
        total_rows: 0,
    }
}

impl Default for TableConfig {
    fn default() -> (r: TableConfig)
        ensures
            r@ == default_table_model(),
    {
        let mut key_val: Vec<KeyValConfig> = Vec::new();
        key_val.push(KeyValConfig::new("path_t", "{1}pan", "{2}"));
        key_val.push(KeyValConfig::new("pan_d", "{2}pan", "{3}"));
        let r = TableConfig {
            select_query:
                "select id, hash, token, enc_value from turing_vault_pan where id > {id} ".to_owned(),
            count_query: "select COUNT(*) from turing_vault_pan where id > {id} ".to_owned(),
            where_clause_type: WhereClauseDataType::ID,
            id_index: 0,
            key_val_pairs: key_val,
            offset: 0,
            last_updated: String::new(),
            total_rows: 0,
        };
        proof {
            assert(r@.key_val_pairs =~= default_table_model().key_val_pairs);
        }
        r
    }
}

/// Network and authentication parameters of the source database.
#[derive(Debug, Clone, PartialEq)]
pub struct DbConfig {
    pub host: String,
    pub port: u16,
    pub user: String,
    pub password: String,
    pub db_name: String,
    pub read_timeout: u64,
    pub write_timeout: u64,
    pub tcp_connect_timeout: u64,
    pub tcp_keepalive_time: u32,
}

/// The mathematical content of a [`DbConfig`].
pub ghost struct DbModel {
    pub host: Seq<char>,
    pub port: u16,
    pub user: Seq<char>,
    pub password: Seq<char>,
    pub db_name: Seq<char>,
    pub read_timeout: u64,
    pub write_timeout: u64,
    pub tcp_connect_timeout: u64,
    pub tcp_keepalive_time: u32,
}

impl View for DbConfig {
    type V = DbModel;

    open spec fn view(&self) -> DbModel {
        DbModel {
            host: self.host@,
            port: self.port,
            user: self.user@,
            password: self.password@,
            db_name: self.db_name@,
            read_timeout: self.read_timeout,
            write_timeout: self.write_timeout,
            tcp_connect_timeout: self.tcp_connect_timeout,
            tcp_keepalive_time: self.tcp_keepalive_time,
        }
    }
}

/// The default local connection.
pub open spec fn default_db_model() -> DbModel {
    DbModel {
        host: "localhost"@,
        port: 3306,
        user: "root"@,
        password: "root1234"@,
        db_name: "turing_db"@,
        read_timeout: 60000,
        write_timeout: 60000,
        tcp_connect_timeout: 60000,
        tcp_keepalive_time: 60000,
    }
}

impl Default for DbConfig {
    fn default() -> (r: DbConfig)
        ensures
            r@ == default_db_model(),
    {
        DbConfig {
            host: "localhost".to_owned(),
            port: 3306,
            user: "root".to_owned(),
            password: "root1234".to_owned(),
            db_name: "turing_db".to_owned(),
            read_timeout: 60000,
            write_timeout: 60000,
            tcp_connect_timeout: 60000,
            tcp_keepalive_time: 60000,
        }
    }
}

/// The root configuration: a master enable flag, the connection, the
/// synchronized tables under their unique names, the polling cadence and
/// the per-poll row limit.
#[derive(Debug, Clone, PartialEq)]
pub struct MySqlConfig {
    pub enabled: bool,
    pub db_config: DbConfig,
    pub tables: Vec<(String, TableConfig)>,
    pub periodic_fetch_duration: u32,
    pub fetch_limit: usize,
}

/// The entry-wise model of the table mapping.
pub open spec fn tables_entries_view(tables: Seq<(String, TableConfig)>) -> Seq<
    (Seq<char>, TableModel),
> {
    Seq::new(tables.len(), |i: int| (tables[i].0@, tables[i].1@))
}

/// The mathematical content of a [`MySqlConfig`].
pub ghost struct MySqlModel {
    pub enabled: bool,
    pub db_config: DbModel,
    pub tables: Seq<(Seq<char>, TableModel)>,
    pub periodic_fetch_duration: u32,
    pub fetch_limit: usize,
}

impl View for MySqlConfig {
    type V = MySqlModel;

    open spec fn view(&self) -> MySqlModel {
        MySqlModel {
            enabled: self.enabled,
            db_config: self.db_config@,
            tables: tables_entries_view(self.tables@),
            periodic_fetch_duration: self.periodic_fetch_duration,
            fetch_limit: self.fetch_limit,
        }
    }
}

/// No two tables stand under the same name.
pub open spec fn table_names_unique(tables: Seq<(Seq<char>, TableModel)>) -> bool {
    forall|i: int, j: int| 0 <= i < j < tables.len() ==> tables[i].0 != tables[j].0
}

/// The semantic validity of a root configuration: a positive fetch limit
/// whenever polling is enabled, unique table names, and every table valid
/// on its own. An empty table set is legal and simply does nothing.
pub open spec fn config_valid(m: MySqlModel) -> bool {
    &&& m.enabled ==> m.fetch_limit > 0
    &&& table_names_unique(m.tables)
    &&& forall|i: int| 0 <= i < m.tables.len() ==> table_valid(#[trigger] m.tables[i].1)
}

/// The verdict of validation, defect classes in a fixed order: the fetch
/// limit first, then duplicate names, then empty rule sets, then empty
/// rule targets, then missing `{id}` placeholders.
pub open spec fn spec_validate(m: MySqlModel) -> Result<(), ConfigValidationError> {
    if m.enabled && m.fetch_limit == 0 {
        Err(ConfigValidationError::InvalidFetchLimit)
    } else if !table_names_unique(m.tables) {
        Err(ConfigValidationError::DuplicateTableName)
    } else if exists|i: int|
        0 <= i < m.tables.len() && (#[trigger] m.tables[i].1).key_val_pairs.len() == 0 {
        Err(ConfigValidationError::EmptyProjectionRules)
    } else if exists|i: int, j: int|
        0 <= i < m.tables.len() && 0 <= j < m.tables[i].1.key_val_pairs.len() && !rule_valid(
            #[trigger] m.tables[i].1.key_val_pairs[j],
        ) {
        Err(ConfigValidationError::EmptyTargetName)
    } else if exists|i: int|
        0 <= i < m.tables.len() && (!spec_has_id_marker((#[trigger] m.tables[i].1).select_query)
            || !spec_has_id_marker(m.tables[i].1.count_query)) {
        Err(ConfigValidationError::MissingIdPlaceholder)
    } else {
        Ok(())
    }
}

impl MySqlConfig {
    /// The table configuration registered under `name`, if any.
    #[verifier::loop_isolation(false)]
    pub fn get_table(&self, name: &str) -> (r: Option<&TableConfig>)
        ensures
            match r {
                Some(t) => exists|i: int|
                    0 <= i < self@.tables.len() && self@.tables[i].0 == name@ && (
                    #[trigger] self@.tables[i].1) == t@,
                None => forall|i: int|
                    0 <= i < self@.tables.len() ==> (#[trigger] self@.tables[i].0) != name@,
            },
    {
        let n = self.tables.len();
        let mut i: usize = 0;
        while i < n
            invariant
                n == self.tables.len(),
                i <= n,
                self@.tables.len() == n,
                forall|k: int| 0 <= k < i ==> (#[trigger] self@.tables[k].0) != name@,
            decreases n - i,
        {
            if str_eq(self.tables[i].0.as_str(), name) {
                proof {
                    assert(self@.tables[i as int].0 == name@);
                    assert(self@.tables[i as int].1 == self.tables[i as int].1@);
                }
                return Some(&self.tables[i].1);
            }
            i += 1;
        }
        None
    }

    /// Commits a completed poll on the table at position `i`, as
    /// [`TableConfig::commit_poll`] does, leaving every other part of the
    /// configuration unchanged.
    pub fn commit_poll_at(
        &mut self,
        i: usize,
        rows_fetched: u64,
        max_row_id: u64,
        max_timestamp: &str,
    )
        requires
            i < old(self)@.tables.len(),
            old(self)@.tables[i as int].1.total_rows + rows_fetched <= u64::MAX,
        ensures
            final(self)@.tables =~= old(self)@.tables.update(
                i as int,
                (
                    old(self)@.tables[i as int].0,
                    spec_commit(
                        old(self)@.tables[i as int].1,
                        rows_fetched,
                        max_row_id,
                        max_timestamp@,
                    ),
                ),
            ),
            final(self)@.enabled == old(self)@.enabled,
            final(self)@.db_config == old(self)@.db_config,
            final(self)@.periodic_fetch_duration == old(self)@.periodic_fetch_duration,
            final(self)@.fetch_limit == old(self)@.fetch_limit,
    {
        let mut pair = self.tables.remove(i);
        pair.1.commit_poll(rows_fetched, max_row_id, max_timestamp);
        self.tables.insert(i, pair);
        proof {
            assert(self.tables@ =~= old(self).tables@.update(i as int, self.tables@[i as int]));
        }
    }

    /// Validates the configuration: `Ok` exactly on valid configurations,
    /// and otherwise the first defect in the order of [`spec_validate`].
    #[verifier::loop_isolation(false)]
    pub fn validate(&self) -> (r: Result<(), ConfigValidationError>)
        ensures
            r == spec_validate(self@),
            r is Ok <==> config_valid(self@),
    {
        if self.enabled && self.fetch_limit == 0 {
            return Err(ConfigValidationError::InvalidFetchLimit);
        }
        let n = self.tables.len();
        proof {
            assert(self@.tables.len() == n);
        }
        // Duplicate names.
        let mut i: usize = 0;
        while i < n
            invariant
                n == self.tables.len(),
                i <= n,
                forall|x: int, y: int| 0 <= x < y < i ==> self@.tables[x].0 != self@.tables[y].0,
                forall|x: int, y: int|
                    0 <= x < i && x < y < n ==> self@.tables[x].0 != self@.tables[y].0,
            decreases n - i,
        {
            let mut j = i + 1;
            while j < n
                invariant
                    n == self.tables.len(),
                    i < j || j == i + 1,
                    i < n,
                    j <= n,
                    forall|y: int| i < y < j ==> self@.tables[i as int].0 != self@.tables[y].0,
                decreases n - j,
            {
                if str_eq(self.tables[i].0.as_str(), self.tables[j].0.as_str()) {
                    proof {
                        assert(self@.tables[i as int].0 == self@.tables[j as int].0);
                        assert(!table_names_unique(self@.tables));
                    }
                    return Err(ConfigValidationError::DuplicateTableName);
                }
                j += 1;
            }
            i += 1;
        }
        proof {
            assert(table_names_unique(self@.tables));
        }
        // Empty rule sets.
        let mut i: usize = 0;
        while i < n
            invariant
                n == self.tables.len(),
                i <= n,
                forall|x: int| 0 <= x < i ==> (#[trigger] self@.tables[x].1).key_val_pairs.len() > 0,
            decreases n - i,
        {
            if self.tables[i].1.key_val_pairs.len() == 0 {
                proof {
                    assert((self@.tables[i as int].1).key_val_pairs.len() == 0);
                }
                return Err(ConfigValidationError::EmptyProjectionRules);
            }
            i += 1;
        }
        // Empty rule targets.
        let mut i: usize = 0;
        while i < n
            invariant
                n == self.tables.len(),
                i <= n,
                forall|x: int, y: int|
                    0 <= x < i && 0 <= y < self@.tables[x].1.key_val_pairs.len() ==> rule_valid(
                        #[trigger] self@.tables[x].1.key_val_pairs[y],
                    ),
            decreases n - i,
        {
            let rules = &self.tables[i].1.key_val_pairs;
            let m = rules.len();
            let mut j: usize = 0;
            while j < m
                invariant
                    m == rules.len(),
                    j <= m,
                    rules.deep_view() == self@.tables[i as int].1.key_val_pairs,
                    i < n,
                    n == self.tables.len(),
                    forall|y: int|
                        0 <= y < j ==> rule_valid(
                            #[trigger] self@.tables[i as int].1.key_val_pairs[y],
                        ),
                decreases m - j,
            {
                if rules[j].table_name.as_str().is_empty() {
                    proof {
                        assert(!rule_valid(self@.tables[i as int].1.key_val_pairs[j as int]));
                    }
                    return Err(ConfigValidationError::EmptyTargetName);
                }
                j += 1;
            }
            i += 1;
        }
        // Missing cursor placeholders.
        let mut i: usize = 0;
        while i < n
            invariant
                n == self.tables.len(),
                i <= n,
                forall|x: int|
                    0 <= x < i ==> spec_has_id_marker(
                        (#[trigger] self@.tables[x].1).select_query,
                    ) && spec_has_id_marker(self@.tables[x].1.count_query),
            decreases n - i,
        {
            let t = &self.tables[i].1;
            if !has_id_marker(t.select_query.as_str()) {
                proof {
                    assert(!spec_has_id_marker((self@.tables[i as int].1).select_query));
                }
                return Err(ConfigValidationError::MissingIdPlaceholder);
            }
            if !has_id_marker(t.count_query.as_str()) {
                proof {
                    assert(!spec_has_id_marker((self@.tables[i as int].1).count_query));
                }
                return Err(ConfigValidationError::MissingIdPlaceholder);
            }
            i += 1;
        }
        Ok(())
    }
}

/// The default root configuration: enabled, the default connection, the
/// single default vault table, a ten-second cadence and a five-thousand
/// row batch limit.
pub open spec fn default_config_model() -> MySqlModel {
    MySqlModel {
        enabled: true,
        db_config: default_db_model(),
        tables: seq![("turing_vault_pan"@, default_table_model())],
        periodic_fetch_duration: 10000,
        fetch_limit: 5000,
    }
}

/// What one completed poll cycle reports: how many rows it fetched, the
/// greatest row identifier among them and the greatest watermark among
/// them.
pub ghost struct PollOutcome {
    pub rows_fetched: u64,
    pub max_row_id: u64,
    pub max_timestamp: Seq<char>,
}

/// The table state after committing a sequence of poll outcomes in order.
pub open spec fn apply_polls(t: TableModel, polls: Seq<PollOutcome>) -> TableModel
    decreases polls.len(),
{
    if polls.len() == 0 {
        t
    } else {
        apply_polls(
            spec_commit(t, polls[0].rows_fetched, polls[0].max_row_id, polls[0].max_timestamp),
            polls.skip(1),
        )
    }
}

/// The number of rows fetched over a sequence of poll outcomes.
pub open spec fn total_fetched(polls: Seq<PollOutcome>) -> int
    decreases polls.len(),
{
    if polls.len() == 0 {
        0
    } else {
        polls[0].rows_fetched + total_fetched(polls.skip(1))
    }
}

proof fn lemma_total_fetched_nonneg(polls: Seq<PollOutcome>)
    ensures
        total_fetched(polls) >= 0,
    decreases polls.len(),
{
    if polls.len() > 0 {
        lemma_total_fetched_nonneg(polls.skip(1));
    }
}

/// Cursor monotonicity: across any sequence of successfully committed
/// poll cycles, the row-identifier offset and the total row count never
/// decrease. A cycle that fails before its commit performs no commit, so
/// it does not appear in the sequence and the cursor stays as it was.
pub proof fn lemma_cursor_monotonic(t: TableModel, polls: Seq<PollOutcome>)
    requires
        t.total_rows + total_fetched(polls) <= u64::MAX,
    ensures
        apply_polls(t, polls).offset >= t.offset,
        apply_polls(t, polls).total_rows >= t.total_rows,
    decreases polls.len(),
{
    if polls.len() > 0 {
        let t1 = spec_commit(t, polls[0].rows_fetched, polls[0].max_row_id, polls[0].max_timestamp);
        lemma_total_fetched_nonneg(polls.skip(1));
        assert(t1.total_rows == t.total_rows + polls[0].rows_fetched);
        lemma_cursor_monotonic(t1, polls.skip(1));
    }
}

impl Default for MySqlConfig {
    fn default() -> (r: MySqlConfig)
        ensures
            r@ == default_config_model(),
    {
        let mut tables: Vec<(String, TableConfig)> = Vec::new();
        tables.push(("turing_vault_pan".to_owned(), TableConfig::default()));
        let r = MySqlConfig {
            enabled: true,
            db_config: DbConfig::default(),
            tables,
            periodic_fetch_duration: 10000,
            fetch_limit: 5000,
        };
        proof {
            assert(r@.tables =~= default_config_model().tables);
        }
        r
    }
}

} // verus!

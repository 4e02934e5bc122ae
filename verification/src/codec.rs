//! The structured interchange document and the schema mapping.
//!
//! A configuration is exchanged as a JSON-like document tree. The codec
//! maps the configuration onto that tree and back; the surrounding
//! process only moves such trees in and out of their byte form.

use vstd::prelude::*;

use crate::config::{
    tables_entries_view, DbConfig, DbModel, KeyValConfig, KeyValModel, MySqlConfig, MySqlModel,
    TableConfig, TableModel, WhereClauseDataType,
};
use crate::errors::ConfigParseError;
use crate::text::str_eq;

verus! {

broadcast use {vstd::std_specs::vec::group_vec_axioms, vstd::seq::group_seq_axioms};

/// One key/value member of a document object.
pub struct JsonField {
    pub key: String,
    pub value: Json,
}

/// A structured document: the JSON data model restricted to what the
/// configuration schema uses (unsigned numbers only).
pub enum Json {
    Null,
    Bool(bool),
    UInt(u64),
    Str(String),
    Arr(Vec<Json>),
    Obj(Vec<JsonField>),
}

/// The mathematical content of one object member.
pub ghost struct JsonFieldV {
    pub key: Seq<char>,
    pub value: JsonV,
}

/// The mathematical content of a [`Json`] document.
pub ghost enum JsonV {
    Null,
    Bool(bool),
    UInt(u64),
    Str(Seq<char>),
    Arr(Seq<JsonV>),
    Obj(Seq<JsonFieldV>),
}

impl View for Json {
    type V = JsonV;

    open spec fn view(&self) -> JsonV
        decreases self,
    {
        match self {
            Json::Null => JsonV::Null,
            Json::Bool(b) => JsonV::Bool(*b),
            Json::UInt(n) => JsonV::UInt(*n),
            Json::Str(s) => JsonV::Str(s@),
            Json::Arr(v) => JsonV::Arr(arr_view(v@)),
            Json::Obj(v) => JsonV::Obj(obj_view(v@)),
        }
    }
}

/// The element-wise view of a document array.
pub open spec fn arr_view(v: Seq<Json>) -> Seq<JsonV>
    decreases v,
{
    if v.len() == 0 {
        Seq::empty()
    } else {
        seq![v[0]@] + arr_view(v.subrange(1, v.len() as int))
    }
}

/// The member-wise view of a document object.
pub open spec fn obj_view(v: Seq<JsonField>) -> Seq<JsonFieldV>
    decreases v,
{
    if v.len() == 0 {
        Seq::empty()
    } else {
        seq![JsonFieldV { key: v[0].key@, value: v[0].value@ }] + obj_view(
            v.subrange(1, v.len() as int),
        )
    }
}

/// An array's view holds, place by place, the views of its elements.
pub proof fn lemma_arr_view(v: Seq<Json>)
    ensures
        arr_view(v).len() == v.len(),
        forall|i: int| 0 <= i < v.len() ==> #[trigger] arr_view(v)[i] == v[i]@,
    decreases v,
{
    if v.len() > 0 {
        let tail = v.subrange(1, v.len() as int);
        lemma_arr_view(tail);
        assert(arr_view(v) == seq![v[0]@] + arr_view(tail));
        assert forall|i: int| 0 <= i < v.len() implies #[trigger] arr_view(v)[i] == v[i]@ by {
            if i > 0 {
                assert(tail[i - 1] == v[i]);
                assert(arr_view(v)[i] == arr_view(tail)[i - 1]);
            }
        }
    }
}

/// An object's view holds, place by place, the views of its members.
pub proof fn lemma_obj_view(v: Seq<JsonField>)
    ensures
        obj_view(v).len() == v.len(),
        forall|i: int|
            0 <= i < v.len() ==> #[trigger] obj_view(v)[i] == (JsonFieldV {
                key: v[i].key@,
                value: v[i].value@,
            }),
    decreases v,
{
    if v.len() > 0 {
        let tail = v.subrange(1, v.len() as int);
        lemma_obj_view(tail);
        assert(obj_view(v) == seq![JsonFieldV { key: v[0].key@, value: v[0].value@ }] + obj_view(
            tail,
        ));
        assert forall|i: int|
            0 <= i < v.len() implies #[trigger] obj_view(v)[i] == (JsonFieldV {
            key: v[i].key@,
            value: v[i].value@,
        }) by {
            if i > 0 {
                assert(tail[i - 1] == v[i]);
                assert(obj_view(v)[i] == obj_view(tail)[i - 1]);
            }
        }
    }
}

/// The schema name of a cursor policy.
pub open spec fn policy_name(w: WhereClauseDataType) -> Seq<char> {
    match w {
        WhereClauseDataType::UnixTime => "UnixTime"@,
        WhereClauseDataType::ID => "ID"@,
    }
}

/// The members of a projection rule object.
pub open spec fn rule_fields(r: KeyValModel) -> Seq<JsonFieldV> {
    seq![
        JsonFieldV { key: "table_name"@, value: JsonV::Str(r.table_name) },
        JsonFieldV { key: "key_format"@, value: JsonV::Str(r.key_format) },
        JsonFieldV { key: "val_format"@, value: JsonV::Str(r.val_format) },
    ]
}

/// A projection rule as a document.
pub open spec fn rule_to_jv(r: KeyValModel) -> JsonV {
    JsonV::Obj(rule_fields(r))
}

/// A rule set as a document array, in rule order.
pub open spec fn rules_to_jv(rules: Seq<KeyValModel>) -> Seq<JsonV> {
    Seq::new(rules.len(), |i: int| rule_to_jv(rules[i]))
}

/// The members of a table configuration object.
pub open spec fn table_fields(t: TableModel) -> Seq<JsonFieldV> {
    seq![
        JsonFieldV { key: "select_query"@, value: JsonV::Str(t.select_query) },
        JsonFieldV { key: "count_query"@, value: JsonV::Str(t.count_query) },
        JsonFieldV {
            key: "where_clause_type"@,
            value: JsonV::Str(policy_name(t.where_clause_type)),
        },
        JsonFieldV { key: "id_index"@, value: JsonV::UInt(t.id_index as u64) },
        JsonFieldV { key: "key_val_pairs"@, value: JsonV::Arr(rules_to_jv(t.key_val_pairs)) },
        JsonFieldV { key: "offset"@, value: JsonV::UInt(t.offset) },
        JsonFieldV { key: "last_updated"@, value: JsonV::Str(t.last_updated) },
        JsonFieldV { key: "total_rows"@, value: JsonV::UInt(t.total_rows) },
    ]
}

/// A table configuration as a document.
pub open spec fn table_to_jv(t: TableModel) -> JsonV {
    JsonV::Obj(table_fields(t))
}

/// The members of a connection configuration object.
pub open spec fn db_fields(d: DbModel) -> Seq<JsonFieldV> {
    seq![
        JsonFieldV { key: "host"@, value: JsonV::Str(d.host) },
        JsonFieldV { key: "port"@, value: JsonV::UInt(d.port as u64) },
        JsonFieldV { key: "user"@, value: JsonV::Str(d.user) },
        JsonFieldV { key: "password"@, value: JsonV::Str(d.password) },
        JsonFieldV { key: "db_name"@, value: JsonV::Str(d.db_name) },
        JsonFieldV { key: "read_timeout"@, value: JsonV::UInt(d.read_timeout) },
        JsonFieldV { key: "write_timeout"@, value: JsonV::UInt(d.write_timeout) },
        JsonFieldV { key: "tcp_connect_timeout"@, value: JsonV::UInt(d.tcp_connect_timeout) },
        JsonFieldV { key: "tcp_keepalive_time"@, value: JsonV::UInt(d.tcp_keepalive_time as u64) },
    ]
}

/// A connection configuration as a document.
pub open spec fn db_to_jv(d: DbModel) -> JsonV {
    JsonV::Obj(db_fields(d))
}

/// The table mapping as document members, one per table, in order.
pub open spec fn tables_fields(tables: Seq<(Seq<char>, TableModel)>) -> Seq<JsonFieldV> {
    Seq::new(
        tables.len(),
        |i: int| JsonFieldV { key: tables[i].0, value: table_to_jv(tables[i].1) },
    )
}

/// The members of a root configuration object.
pub open spec fn config_fields(m: MySqlModel) -> Seq<JsonFieldV> {
    seq![
        JsonFieldV { key: "enabled"@, value: JsonV::Bool(m.enabled) },
        JsonFieldV { key: "db_config"@, value: db_to_jv(m.db_config) },
        JsonFieldV { key: "tables"@, value: JsonV::Obj(tables_fields(m.tables)) },
        JsonFieldV {
            key: "periodic_fetch_duration"@,
            value: JsonV::UInt(m.periodic_fetch_duration as u64),
        },
        JsonFieldV { key: "fetch_limit"@, value: JsonV::UInt(m.fetch_limit as u64) },
    ]
}

/// A root configuration as a document.
pub open spec fn config_to_jv(m: MySqlModel) -> JsonV {
    JsonV::Obj(config_fields(m))
}

/// The value under the first member named `key`, if any.
pub open spec fn jv_get(fields: Seq<JsonFieldV>, key: Seq<char>) -> Option<JsonV>
    decreases fields.len(),
{
    if fields.len() == 0 {
        None
    } else if fields[0].key == key {
        Some(fields[0].value)
    } else {
        jv_get(fields.subrange(1, fields.len() as int), key)
    }
}

/// A member read as a boolean.
pub open spec fn jv_bool(o: Option<JsonV>) -> Result<bool, ConfigParseError> {
    match o {
        Some(JsonV::Bool(b)) => Ok(b),
        _ => Err(ConfigParseError::SchemaMismatch),
    }
}

/// A member read as a string.
pub open spec fn jv_str(o: Option<JsonV>) -> Result<Seq<char>, ConfigParseError> {
    match o {
        Some(JsonV::Str(s)) => Ok(s),
        _ => Err(ConfigParseError::SchemaMismatch),
    }
}

/// A member read as an unsigned number.
pub open spec fn jv_u64(o: Option<JsonV>) -> Result<u64, ConfigParseError> {
    match o {
        Some(JsonV::UInt(n)) => Ok(n),
        _ => Err(ConfigParseError::SchemaMismatch),
    }
}

/// A member read as an unsigned number that must fit in sixteen bits.
pub open spec fn jv_u16(o: Option<JsonV>) -> Result<u16, ConfigParseError> {
    match jv_u64(o) {
        Ok(n) => if n <= u16::MAX {
            Ok(n as u16)
        } else {
            Err(ConfigParseError::SchemaMismatch)
        },
        Err(e) => Err(e),
    }
}

/// A member read as an unsigned number that must fit in thirty-two bits.
pub open spec fn jv_u32(o: Option<JsonV>) -> Result<u32, ConfigParseError> {
    match jv_u64(o) {
        Ok(n) => if n <= u32::MAX {
            Ok(n as u32)
        } else {
            Err(ConfigParseError::SchemaMismatch)
        },
        Err(e) => Err(e),
    }
}

/// A member read as an unsigned number that must fit in a machine word.
pub open spec fn jv_usize(o: Option<JsonV>) -> Result<usize, ConfigParseError> {
    match jv_u64(o) {
        Ok(n) => if n <= usize::MAX {
            Ok(n as usize)
        } else {
            Err(ConfigParseError::SchemaMismatch)
        },
        Err(e) => Err(e),
    }
}

/// A member read as a cursor policy name.
pub open spec fn jv_policy(o: Option<JsonV>) -> Result<WhereClauseDataType, ConfigParseError> {
    match o {
        Some(JsonV::Str(s)) => if s == "UnixTime"@ {
            Ok(WhereClauseDataType::UnixTime)
        } else if s == "ID"@ {
            Ok(WhereClauseDataType::ID)
        } else {
            Err(ConfigParseError::SchemaMismatch)
        },
        _ => Err(ConfigParseError::SchemaMismatch),
    }
}

/// A projection rule read back from a document.
pub open spec fn rule_of_jv(j: JsonV) -> Result<KeyValModel, ConfigParseError> {
    match j {
        JsonV::Obj(f) => {
            let tn = jv_str(jv_get(f, "table_name"@));
            let kf = jv_str(jv_get(f, "key_format"@));
            let vf = jv_str(jv_get(f, "val_format"@));
            if tn is Err || kf is Err || vf is Err {
                Err(ConfigParseError::SchemaMismatch)
            } else {
                Ok(KeyValModel { table_name: tn->Ok_0, key_format: kf->Ok_0, val_format: vf->Ok_0 })
            }
        },
        _ => Err(ConfigParseError::SchemaMismatch),
    }
}

/// A rule set read back from a document array, in order.
pub open spec fn rules_of_jv(items: Seq<JsonV>) -> Result<Seq<KeyValModel>, ConfigParseError>
    decreases items.len(),
{
    if items.len() == 0 {
        Ok(Seq::empty())
    } else {
        match rule_of_jv(items[0]) {
            Err(e) => Err(e),
            Ok(r) => match rules_of_jv(items.subrange(1, items.len() as int)) {
                Err(e) => Err(e),
                Ok(rest) => Ok(seq![r] + rest),
            },
        }
    }
}

/// A table configuration read back from a document.
pub open spec fn table_of_jv(j: JsonV) -> Result<TableModel, ConfigParseError> {
    match j {
        JsonV::Obj(f) => {
            let sq = jv_str(jv_get(f, "select_query"@));
            let cq = jv_str(jv_get(f, "count_query"@));
            let wct = jv_policy(jv_get(f, "where_clause_type"@));
            let idx = jv_usize(jv_get(f, "id_index"@));
            let kvp = match jv_get(f, "key_val_pairs"@) {
                Some(JsonV::Arr(items)) => rules_of_jv(items),
                _ => Err(ConfigParseError::SchemaMismatch),
            };
            let off = jv_u64(jv_get(f, "offset"@));
            let lu = jv_str(jv_get(f, "last_updated"@));
            let tr = jv_u64(jv_get(f, "total_rows"@));
            if sq is Err || cq is Err || wct is Err || idx is Err || kvp is Err || off is Err
                || lu is Err || tr is Err {
                Err(ConfigParseError::SchemaMismatch)
            } else {
                Ok(
                    TableModel {
                        select_query: sq->Ok_0,
                        count_query: cq->Ok_0,
                        where_clause_type: wct->Ok_0,
                        id_index: idx->Ok_0,
                        key_val_pairs: kvp->Ok_0,
                        offset: off->Ok_0,
                        last_updated: lu->Ok_0,
                        total_rows: tr->Ok_0,
                    },
                )
            }
        },
        _ => Err(ConfigParseError::SchemaMismatch),
    }
}

/// The table mapping read back from document members, in order.
pub open spec fn tables_of_jv(fields: Seq<JsonFieldV>) -> Result<
    Seq<(Seq<char>, TableModel)>,
    ConfigParseError,
>
    decreases fields.len(),
{
    if fields.len() == 0 {
        Ok(Seq::empty())
    } else {
        match table_of_jv(fields[0].value) {
            Err(e) => Err(e),
            Ok(t) => match tables_of_jv(fields.subrange(1, fields.len() as int)) {
                Err(e) => Err(e),
                Ok(rest) => Ok(seq![(fields[0].key, t)] + rest),
            },
        }
    }
}

/// A connection configuration read back from a document.
pub open spec fn db_of_jv(j: JsonV) -> Result<DbModel, ConfigParseError> {
    match j {
        JsonV::Obj(f) => {
            let host = jv_str(jv_get(f, "host"@));
            let port = jv_u16(jv_get(f, "port"@));
            let user = jv_str(jv_get(f, "user"@));
            let password = jv_str(jv_get(f, "password"@));
            let db_name = jv_str(jv_get(f, "db_name"@));
            let rt = jv_u64(jv_get(f, "read_timeout"@));
            let wt = jv_u64(jv_get(f, "write_timeout"@));
            let ct = jv_u64(jv_get(f, "tcp_connect_timeout"@));
            let ka = jv_u32(jv_get(f, "tcp_keepalive_time"@));
            if host is Err || port is Err || user is Err || password is Err || db_name is Err
                || rt is Err || wt is Err || ct is Err || ka is Err {
                Err(ConfigParseError::SchemaMismatch)
            } else {
                Ok(
                    DbModel {
                        host: host->Ok_0,
                        port: port->Ok_0,
                        user: user->Ok_0,
                        password: password->Ok_0,
                        db_name: db_name->Ok_0,
                        read_timeout: rt->Ok_0,
                        write_timeout: wt->Ok_0,
                        tcp_connect_timeout: ct->Ok_0,
                        tcp_keepalive_time: ka->Ok_0,
                    },
                )
            }
        },
        _ => Err(ConfigParseError::SchemaMismatch),
    }
}

/// Whether the parsed table mapping carries a duplicated name.
pub open spec fn parsed_names_unique(tables: Seq<(Seq<char>, TableModel)>) -> bool {
    forall|i: int, j: int| 0 <= i < j < tables.len() ==> tables[i].0 != tables[j].0
}

/// A root configuration read back from a document: every field present
/// and of the right shape, numbers within their ranges, table names not
/// duplicated.
pub open spec fn config_of_jv(j: JsonV) -> Result<MySqlModel, ConfigParseError> {
    match j {
        JsonV::Obj(f) => {
            let en = jv_bool(jv_get(f, "enabled"@));
            let db = match jv_get(f, "db_config"@) {
                Some(x) => db_of_jv(x),
                _ => Err(ConfigParseError::SchemaMismatch),
            };
            let tbl = match jv_get(f, "tables"@) {
                Some(JsonV::Obj(tf)) => tables_of_jv(tf),
                _ => Err(ConfigParseError::SchemaMismatch),
            };
            let pfd = jv_u32(jv_get(f, "periodic_fetch_duration"@));
            let fl = jv_usize(jv_get(f, "fetch_limit"@));
            if en is Err || db is Err || tbl is Err || pfd is Err || fl is Err {
                Err(ConfigParseError::SchemaMismatch)
            } else if !parsed_names_unique(tbl->Ok_0) {
                Err(ConfigParseError::DuplicateKey)
            } else {
                Ok(
                    MySqlModel {
                        enabled: en->Ok_0,
                        db_config: db->Ok_0,
                        tables: tbl->Ok_0,
                        periodic_fetch_duration: pfd->Ok_0,
                        fetch_limit: fl->Ok_0,
                    },
                )
            }
        },
        _ => Err(ConfigParseError::SchemaMismatch),
    }
}

/// Builds one object member.
fn mk_field(key: &str, value: Json) -> (r: JsonField)
    ensures
        r.key@ == key@,
        r.value == value,
{
    JsonField { key: key.to_owned(), value }
}

/// Writes a projection rule as a document.
pub fn rule_to_json(r: &KeyValConfig) -> (j: Json)
    ensures
        j@ == rule_to_jv(r@),
{
    let mut f: Vec<JsonField> = Vec::new();
    f.push(mk_field("table_name", Json::Str(r.table_name.clone())));
    f.push(mk_field("key_format", Json::Str(r.key_format.clone())));
    f.push(mk_field("val_format", Json::Str(r.val_format.clone())));
    proof {
        lemma_obj_view(f@);
        assert(obj_view(f@) =~= rule_fields(r@));
    }
    Json::Obj(f)
}

/// Writes a table configuration as a document.
pub fn table_to_json(t: &TableConfig) -> (j: Json)
    ensures
        j@ == table_to_jv(t@),
{
    let n = t.key_val_pairs.len();
    let mut items: Vec<Json> = Vec::new();
    let mut i: usize = 0;
    while i < n
        invariant
            i <= n,
            n == t.key_val_pairs.len(),
            items@.len() == i,
            forall|k: int| 0 <= k < i ==> (#[trigger] items@[k])@ == rule_to_jv(t@.key_val_pairs[k]),
        decreases n - i,
    {
        proof {
            assert(t@.key_val_pairs[i as int] == t.key_val_pairs@[i as int]@);
        }
        items.push(rule_to_json(&t.key_val_pairs[i]));
        i += 1;
    }
    let ghost itemsv = items@;
    proof {
        lemma_arr_view(itemsv);
        assert(arr_view(itemsv) =~= rules_to_jv(t@.key_val_pairs));
    }
    let mut f: Vec<JsonField> = Vec::new();
    f.push(mk_field("select_query", Json::Str(t.select_query.clone())));
    f.push(mk_field("count_query", Json::Str(t.count_query.clone())));
    let wct = match t.where_clause_type {
        WhereClauseDataType::UnixTime => "UnixTime".to_owned(),
        WhereClauseDataType::ID => "ID".to_owned(),
    };
    f.push(mk_field("where_clause_type", Json::Str(wct)));
    f.push(mk_field("id_index", Json::UInt(t.id_index as u64)));
    f.push(mk_field("key_val_pairs", Json::Arr(items)));
    f.push(mk_field("offset", Json::UInt(t.offset)));
    f.push(mk_field("last_updated", Json::Str(t.last_updated.clone())));
    f.push(mk_field("total_rows", Json::UInt(t.total_rows)));
    proof {
        lemma_obj_view(f@);
        assert(obj_view(f@) =~= table_fields(t@));
    }
    Json::Obj(f)
}

/// Writes a connection configuration as a document.
pub fn db_to_json(d: &DbConfig) -> (j: Json)
    ensures
        j@ == db_to_jv(d@),
{
    let mut f: Vec<JsonField> = Vec::new();
    f.push(mk_field("host", Json::Str(d.host.clone())));
    f.push(mk_field("port", Json::UInt(d.port as u64)));
    f.push(mk_field("user", Json::Str(d.user.clone())));
    f.push(mk_field("password", Json::Str(d.password.clone())));
    f.push(mk_field("db_name", Json::Str(d.db_name.clone())));
    f.push(mk_field("read_timeout", Json::UInt(d.read_timeout)));
    f.push(mk_field("write_timeout", Json::UInt(d.write_timeout)));
    f.push(mk_field("tcp_connect_timeout", Json::UInt(d.tcp_connect_timeout)));
    f.push(mk_field("tcp_keepalive_time", Json::UInt(d.tcp_keepalive_time as u64)));
    proof {
        lemma_obj_view(f@);
        assert(obj_view(f@) =~= db_fields(d@));
    }
    Json::Obj(f)
}

impl MySqlConfig {
    /// Writes the whole configuration as a structured document, in schema
    /// order.
    pub fn to_document(&self) -> (j: Json)
        ensures
            j@ == config_to_jv(self@),
    {
        let n = self.tables.len();
        let mut tf: Vec<JsonField> = Vec::new();
        let mut i: usize = 0;
        while i < n
            invariant
                i <= n,
                n == self.tables.len(),
                tf@.len() == i,
                forall|k: int|
                    0 <= k < i ==> (#[trigger] tf@[k]).key@ == self@.tables[k].0 && tf@[k].value@
                        == table_to_jv(self@.tables[k].1),
            decreases n - i,
        {
            proof {
                assert(self@.tables[i as int].0 == self.tables@[i as int].0@);
                assert(self@.tables[i as int].1 == self.tables@[i as int].1@);
            }
            let name = self.tables[i].0.clone();
            let tj = table_to_json(&self.tables[i].1);
            tf.push(JsonField { key: name, value: tj });
            i += 1;
        }
        let ghost tfv = tf@;
        proof {
            lemma_obj_view(tfv);
            assert(obj_view(tfv) =~= tables_fields(self@.tables));
        }
        let mut f: Vec<JsonField> = Vec::new();
        f.push(mk_field("enabled", Json::Bool(self.enabled)));
        f.push(mk_field("db_config", db_to_json(&self.db_config)));
        f.push(mk_field("tables", Json::Obj(tf)));
        f.push(mk_field("periodic_fetch_duration", Json::UInt(self.periodic_fetch_duration as u64)));
        f.push(mk_field("fetch_limit", Json::UInt(self.fetch_limit as u64)));
        proof {
            lemma_obj_view(f@);
            assert(obj_view(f@) =~= config_fields(self@));
        }
        Json::Obj(f)
    }
}

/// Finds the first object member named `key`.
#[verifier::loop_isolation(false)]
fn obj_get<'a>(fields: &'a Vec<JsonField>, key: &str) -> (r: Option<&'a Json>)
    ensures
        match r {
            Some(v) => jv_get(obj_view(fields@), key@) == Some(v@),
            None => jv_get(obj_view(fields@), key@) is None,
        },
{
    let n = fields.len();
    let ghost s = obj_view(fields@);
    proof {
        lemma_obj_view(fields@);
        assert(s.subrange(0, s.len() as int) =~= s);
    }
    let mut i: usize = 0;
    while i < n
        invariant
            n == fields@.len(),
            s == obj_view(fields@),
            s.len() == n,
            i <= n,
            jv_get(s, key@) == jv_get(s.subrange(i as int, s.len() as int), key@),
        decreases n - i,
    {
        proof {
            assert(s.subrange(i as int, n as int)[0] == s[i as int]);
        }
        if str_eq(fields[i].key.as_str(), key) {
            proof {
                assert(s[i as int].key == key@);
                assert(s[i as int].value == fields@[i as int].value@);
            }
            return Some(&fields[i].value);
        }
        proof {
            assert(s[i as int].key != key@);
            assert(s.subrange(i as int, n as int).subrange(1, (n - i) as int) =~= s.subrange(
                i as int + 1,
                n as int,
            ));
        }
        i += 1;
    }
    proof {
        assert(s.subrange(n as int, n as int).len() == 0);
    }
    None
}

/// Reads the member `key` as a string.
fn get_str(fields: &Vec<JsonField>, key: &str) -> (r: Result<String, ConfigParseError>)
    ensures
        match r {
            Ok(s) => jv_str(jv_get(obj_view(fields@), key@)) == Ok::<Seq<char>, ConfigParseError>(
                s@,
            ),
            Err(e) => jv_str(jv_get(obj_view(fields@), key@)) == Err::<Seq<char>, ConfigParseError>(
                e,
            ),
        },
{
    match obj_get(fields, key) {
        Some(v) => match v {
            Json::Str(s) => Ok(s.clone()),
            _ => Err(ConfigParseError::SchemaMismatch),
        },
        None => Err(ConfigParseError::SchemaMismatch),
    }
}

/// Reads the member `key` as a boolean.
fn get_bool(fields: &Vec<JsonField>, key: &str) -> (r: Result<bool, ConfigParseError>)
    ensures
        r == jv_bool(jv_get(obj_view(fields@), key@)),
{
    match obj_get(fields, key) {
        Some(v) => match v {
            Json::Bool(b) => Ok(*b),
            _ => Err(ConfigParseError::SchemaMismatch),
        },
        None => Err(ConfigParseError::SchemaMismatch),
    }
}

/// Reads the member `key` as an unsigned number.
fn get_u64(fields: &Vec<JsonField>, key: &str) -> (r: Result<u64, ConfigParseError>)
    ensures
        r == jv_u64(jv_get(obj_view(fields@), key@)),
{
    match obj_get(fields, key) {
        Some(v) => match v {
            Json::UInt(n) => Ok(*n),
            _ => Err(ConfigParseError::SchemaMismatch),
        },
        None => Err(ConfigParseError::SchemaMismatch),
    }
}

/// Reads the member `key` as a sixteen-bit number.
fn get_u16(fields: &Vec<JsonField>, key: &str) -> (r: Result<u16, ConfigParseError>)
    ensures
        r == jv_u16(jv_get(obj_view(fields@), key@)),
{
    match get_u64(fields, key) {
        Ok(n) => if n <= u16::MAX as u64 {
            Ok(n as u16)
        } else {
            Err(ConfigParseError::SchemaMismatch)
        },
        Err(e) => Err(e),
    }
}

/// Reads the member `key` as a thirty-two-bit number.
fn get_u32(fields: &Vec<JsonField>, key: &str) -> (r: Result<u32, ConfigParseError>)
    ensures
        r == jv_u32(jv_get(obj_view(fields@), key@)),
{
    match get_u64(fields, key) {
        Ok(n) => if n <= u32::MAX as u64 {
            Ok(n as u32)
        } else {
            Err(ConfigParseError::SchemaMismatch)
        },
        Err(e) => Err(e),
    }
}

/// Reads the member `key` as a machine-word number.
fn get_usize(fields: &Vec<JsonField>, key: &str) -> (r: Result<usize, ConfigParseError>)
    ensures
        r == jv_usize(jv_get(obj_view(fields@), key@)),
{
    match get_u64(fields, key) {
        Ok(n) => if n <= usize::MAX as u64 {
            Ok(n as usize)
        } else {
            Err(ConfigParseError::SchemaMismatch)
        },
        Err(e) => Err(e),
    }
}

/// Reads the member `key` as a cursor policy name.
fn get_policy(fields: &Vec<JsonField>, key: &str) -> (r: Result<
    WhereClauseDataType,
    ConfigParseError,
>)
    ensures
        r == jv_policy(jv_get(obj_view(fields@), key@)),
{
    match obj_get(fields, key) {
        Some(v) => match v {
            Json::Str(s) => {
                if str_eq(s.as_str(), "UnixTime") {
                    Ok(WhereClauseDataType::UnixTime)
                } else if str_eq(s.as_str(), "ID") {
                    Ok(WhereClauseDataType::ID)
                } else {
                    Err(ConfigParseError::SchemaMismatch)
                }
            },
            _ => Err(ConfigParseError::SchemaMismatch),
        },
        None => Err(ConfigParseError::SchemaMismatch),
    }
}

/// Reads a projection rule back from a document.
pub fn rule_from_json(j: &Json) -> (r: Result<KeyValConfig, ConfigParseError>)
    ensures
        match r {
            Ok(c) => rule_of_jv(j@) == Ok::<KeyValModel, ConfigParseError>(c@),
            Err(e) => rule_of_jv(j@) == Err::<KeyValModel, ConfigParseError>(e),
        },
{
    match j {
        Json::Obj(f) => {
            let tn = match get_str(f, "table_name") {
                Ok(x) => x,
                Err(e) => {
                    return Err(e);
                },
            };
            let kf = match get_str(f, "key_format") {
                Ok(x) => x,
                Err(e) => {
                    return Err(e);
                },
            };
            let vf = match get_str(f, "val_format") {
                Ok(x) => x,
                Err(e) => {
                    return Err(e);
                },
            };
            Ok(KeyValConfig { table_name: tn, key_format: kf, val_format: vf })
        },
        _ => Err(ConfigParseError::SchemaMismatch),
    }
}

/// Reads a rule set back from a document array, in order.
#[verifier::loop_isolation(false)]
pub fn rules_from_json(items: &Vec<Json>) -> (r: Result<Vec<KeyValConfig>, ConfigParseError>)
    ensures
        match r {
            Ok(v) => rules_of_jv(arr_view(items@)) == Ok::<Seq<KeyValModel>, ConfigParseError>(
                v.deep_view(),
            ),
            Err(e) => rules_of_jv(arr_view(items@)) == Err::<Seq<KeyValModel>, ConfigParseError>(e),
        },
{
    let n = items.len();
    let ghost s = arr_view(items@);
    proof {
        lemma_arr_view(items@);
        assert(s.subrange(0, s.len() as int) =~= s);
    }
    let mut out: Vec<KeyValConfig> = Vec::new();
    let mut i: usize = 0;
    while i < n
        invariant
            n == items@.len(),
            s == arr_view(items@),
            s.len() == n,
            i <= n,
            out.deep_view().len() == i,
            match rules_of_jv(s.subrange(i as int, n as int)) {
                Ok(rest) => rules_of_jv(s) == Ok::<Seq<KeyValModel>, ConfigParseError>(
                    out.deep_view() + rest,
                ),
                Err(e) => rules_of_jv(s) == Err::<Seq<KeyValModel>, ConfigParseError>(e),
            },
        decreases n - i,
    {
        proof {
            assert(s.subrange(i as int, n as int)[0] == s[i as int]);
            assert(s[i as int] == items@[i as int]@);
        }
        let ghost out0 = out.deep_view();
        match rule_from_json(&items[i]) {
            Ok(c) => {
                out.push(c);
                proof {
                    assert(out.deep_view() =~= out0.push(c@));
                    assert(s.subrange(i as int, n as int).subrange(1, (n - i) as int) =~= s.subrange(
                        i as int + 1,
                        n as int,
                    ));
                    if rules_of_jv(s.subrange(i as int + 1, n as int)) is Ok {
                        let rest = rules_of_jv(s.subrange(i as int + 1, n as int))->Ok_0;
                        assert(out0 + (seq![c@] + rest) =~= out.deep_view() + rest);
                    }
                }
            },
            Err(e) => {
                return Err(e);
            },
        }
        i += 1;
    }
    proof {
        assert(s.subrange(n as int, n as int).len() == 0);
        assert(out.deep_view() + Seq::<KeyValModel>::empty() =~= out.deep_view());
    }
    Ok(out)
}

/// Reads a table configuration back from a document.
pub fn table_from_json(j: &Json) -> (r: Result<TableConfig, ConfigParseError>)
    ensures
        match r {
            Ok(c) => table_of_jv(j@) == Ok::<TableModel, ConfigParseError>(c@),
            Err(e) => table_of_jv(j@) == Err::<TableModel, ConfigParseError>(e),
        },
{
    match j {
        Json::Obj(f) => {
            let sq = match get_str(f, "select_query") {
                Ok(x) => x,
                Err(e) => {
                    return Err(e);
                },
            };
            let cq = match get_str(f, "count_query") {
                Ok(x) => x,
                Err(e) => {
                    return Err(e);
                },
            };
            let wct = match get_policy(f, "where_clause_type") {
                Ok(x) => x,
                Err(e) => {
                    return Err(e);
                },
            };
            let idx = match get_usize(f, "id_index") {
                Ok(x) => x,
                Err(e) => {
                    return Err(e);
                },
            };
            let kvp = match obj_get(f, "key_val_pairs") {
                Some(v) => match v {
                    Json::Arr(items) => match rules_from_json(items) {
                        Ok(x) => x,
                        Err(_e) => {
                            // Every rule-set defect is a schema mismatch.
                            return Err(ConfigParseError::SchemaMismatch);
                        },
                    },
                    _ => {
                        return Err(ConfigParseError::SchemaMismatch);
                    },
                },
                None => {
                    return Err(ConfigParseError::SchemaMismatch);
                },
            };
            let off = match get_u64(f, "offset") {
                Ok(x) => x,
                Err(e) => {
                    return Err(e);
                },
            };
            let lu = match get_str(f, "last_updated") {
                Ok(x) => x,
                Err(e) => {
                    return Err(e);
                },
            };
            let tr = match get_u64(f, "total_rows") {
                Ok(x) => x,
                Err(e) => {
                    return Err(e);
                },
            };
            Ok(
                TableConfig {
                    select_query: sq,
                    count_query: cq,
                    where_clause_type: wct,
                    id_index: idx,
                    key_val_pairs: kvp,
                    offset: off,
                    last_updated: lu,
                    total_rows: tr,
                },
            )
        },
        _ => Err(ConfigParseError::SchemaMismatch),
    }
}

/// Reads a connection configuration back from a document.
pub fn db_from_json(j: &Json) -> (r: Result<DbConfig, ConfigParseError>)
    ensures
        match r {
            Ok(c) => db_of_jv(j@) == Ok::<DbModel, ConfigParseError>(c@),
            Err(e) => db_of_jv(j@) == Err::<DbModel, ConfigParseError>(e),
        },
{
    match j {
        Json::Obj(f) => {
            let host = match get_str(f, "host") {
                Ok(x) => x,
                Err(e) => {
                    return Err(e);
                },
            };
            let port = match get_u16(f, "port") {
                Ok(x) => x,
                Err(e) => {
                    return Err(e);
                },
            };
            let user = match get_str(f, "user") {
                Ok(x) => x,
                Err(e) => {
                    return Err(e);
                },
            };
            let password = match get_str(f, "password") {
                Ok(x) => x,
                Err(e) => {
                    return Err(e);
                },
            };
            let db_name = match get_str(f, "db_name") {
                Ok(x) => x,
                Err(e) => {
                    return Err(e);
                },
            };
            let rt = match get_u64(f, "read_timeout") {
                Ok(x) => x,
                Err(e) => {
                    return Err(e);
                },
            };
            let wt = match get_u64(f, "write_timeout") {
                Ok(x) => x,
                Err(e) => {
                    return Err(e);
                },
            };
            let ct = match get_u64(f, "tcp_connect_timeout") {
                Ok(x) => x,
                Err(e) => {
                    return Err(e);
                },
            };
            let ka = match get_u32(f, "tcp_keepalive_time") {
                Ok(x) => x,
                Err(e) => {
                    return Err(e);
                },
            };
            Ok(
                DbConfig {
                    host,
                    port,
                    user,
                    password,
                    db_name,
                    read_timeout: rt,
                    write_timeout: wt,
                    tcp_connect_timeout: ct,
                    tcp_keepalive_time: ka,
                },
            )
        },
        _ => Err(ConfigParseError::SchemaMismatch),
    }
}

/// Reads the table mapping back from document members, in order.
#[verifier::loop_isolation(false)]
fn tables_from_json(fields: &Vec<JsonField>) -> (r: Result<
    Vec<(String, TableConfig)>,
    ConfigParseError,
>)
    ensures
        match r {
            Ok(v) => tables_of_jv(obj_view(fields@)) == Ok::<
                Seq<(Seq<char>, TableModel)>,
                ConfigParseError,
            >(tables_entries_view(v@)),
            Err(e) => tables_of_jv(obj_view(fields@)) == Err::<
                Seq<(Seq<char>, TableModel)>,
                ConfigParseError,
            >(e),
        },
{
    let n = fields.len();
    let ghost s = obj_view(fields@);
    proof {
        lemma_obj_view(fields@);
        assert(s.subrange(0, s.len() as int) =~= s);
    }
    let mut out: Vec<(String, TableConfig)> = Vec::new();
    let mut i: usize = 0;
    while i < n
        invariant
            n == fields@.len(),
            s == obj_view(fields@),
            s.len() == n,
            i <= n,
            tables_entries_view(out@).len() == i,
            match tables_of_jv(s.subrange(i as int, n as int)) {
                Ok(rest) => tables_of_jv(s) == Ok::<
                    Seq<(Seq<char>, TableModel)>,
                    ConfigParseError,
                >(tables_entries_view(out@) + rest),
                Err(e) => tables_of_jv(s) == Err::<Seq<(Seq<char>, TableModel)>, ConfigParseError>(
                    e,
                ),
            },
        decreases n - i,
    {
        proof {
            assert(s.subrange(i as int, n as int)[0] == s[i as int]);
        }
        let ghost out0 = tables_entries_view(out@);
        match table_from_json(&fields[i].value) {
            Ok(t) => {
                let name = fields[i].key.clone();
                out.push((name, t));
                proof {
                    assert(tables_entries_view(out@) =~= out0.push((s[i as int].key, t@)));
                    assert(s.subrange(i as int, n as int).subrange(1, (n - i) as int) =~= s.subrange(
                        i as int + 1,
                        n as int,
                    ));
                    if tables_of_jv(s.subrange(i as int + 1, n as int)) is Ok {
                        let rest = tables_of_jv(s.subrange(i as int + 1, n as int))->Ok_0;
                        assert(out0 + (seq![(s[i as int].key, t@)] + rest) =~= tables_entries_view(
                            out@,
                        ) + rest);
                    }
                }
            },
            Err(e) => {
                return Err(e);
            },
        }
        i += 1;
    }
    proof {
        assert(s.subrange(n as int, n as int).len() == 0);
        assert(tables_entries_view(out@) + Seq::<(Seq<char>, TableModel)>::empty()
            =~= tables_entries_view(out@));
    }
    Ok(out)
}

impl MySqlConfig {
    /// Reads a whole configuration back from a structured document.
    #[verifier::loop_isolation(false)]
    pub fn from_document(j: &Json) -> (r: Result<MySqlConfig, ConfigParseError>)
        ensures
            match r {
                Ok(c) => config_of_jv(j@) == Ok::<MySqlModel, ConfigParseError>(c@),
                Err(e) => config_of_jv(j@) == Err::<MySqlModel, ConfigParseError>(e),
            },
    {
        match j {
            Json::Obj(f) => {
                let en = match get_bool(f, "enabled") {
                    Ok(x) => x,
                    Err(e) => {
                        return Err(e);
                    },
                };
                let db = match obj_get(f, "db_config") {
                    Some(v) => match db_from_json(v) {
                        Ok(x) => x,
                        Err(e) => {
                            return Err(e);
                        },
                    },
                    None => {
                        return Err(ConfigParseError::SchemaMismatch);
                    },
                };
                let tbl = match obj_get(f, "tables") {
                    Some(v) => match v {
                        Json::Obj(tf) => match tables_from_json(tf) {
                            Ok(x) => x,
                            Err(_e) => {
                                // Every per-table defect is a schema mismatch.
                                return Err(ConfigParseError::SchemaMismatch);
                            },
                        },
                        _ => {
                            return Err(ConfigParseError::SchemaMismatch);
                        },
                    },
                    None => {
                        return Err(ConfigParseError::SchemaMismatch);
                    },
                };
                let pfd = match get_u32(f, "periodic_fetch_duration") {
                    Ok(x) => x,
                    Err(e) => {
                        return Err(e);
                    },
                };
                let fl = match get_usize(f, "fetch_limit") {
                    Ok(x) => x,
                    Err(e) => {
                        return Err(e);
                    },
                };
                // A document that names the same table twice is rejected.
                let tn = tbl.len();
                let mut a: usize = 0;
                while a < tn
                    invariant
                        tn == tbl.len(),
                        a <= tn,
                        forall|x: int, y: int|
                            0 <= x < y < tn && x < a ==> tables_entries_view(tbl@)[x].0
                                != tables_entries_view(tbl@)[y].0,
                    decreases tn - a,
                {
                    let mut b = a + 1;
                    while b < tn
                        invariant
                            tn == tbl.len(),
                            a < tn,
                            a < b,
                            b <= tn,
                            forall|y: int|
                                a < y < b ==> tables_entries_view(tbl@)[a as int].0
                                    != tables_entries_view(tbl@)[y].0,
                        decreases tn - b,
                    {
                        if str_eq(tbl[a].0.as_str(), tbl[b].0.as_str()) {
                            proof {
                                assert(tables_entries_view(tbl@)[a as int].0 == tables_entries_view(
                                    tbl@,
                                )[b as int].0);
                                assert(!parsed_names_unique(tables_entries_view(tbl@)));
                            }
                            return Err(ConfigParseError::DuplicateKey);
                        }
                        b += 1;
                    }
                    a += 1;
                }
                proof {
                    assert(parsed_names_unique(tables_entries_view(tbl@)));
                }
                Ok(
                    MySqlConfig {
                        enabled: en,
                        db_config: db,
                        tables: tbl,
                        periodic_fetch_duration: pfd,
                        fetch_limit: fl,
                    },
                )
            },
            _ => Err(ConfigParseError::SchemaMismatch),
        }
    }
}

proof fn lemma_jv_get_at(fields: Seq<JsonFieldV>, i: int)
    requires
        0 <= i < fields.len(),
        forall|j: int| 0 <= j < i ==> (#[trigger] fields[j]).key != fields[i].key,
    ensures
        jv_get(fields, fields[i].key) == Some(fields[i].value),
    decreases i,
{
    if i > 0 {
        let tail = fields.subrange(1, fields.len() as int);
        assert forall|j: int| 0 <= j < i - 1 implies (#[trigger] tail[j]).key != tail[i - 1].key by {
            assert(tail[j] == fields[j + 1]);
            assert(tail[i - 1] == fields[i]);
        }
        lemma_jv_get_at(tail, i - 1);
        assert(tail[i - 1] == fields[i]);
    }
}

proof fn lemma_rule_round_trip(r: KeyValModel)
    ensures
        rule_of_jv(rule_to_jv(r)) == Ok::<KeyValModel, ConfigParseError>(r),
{
    let f = rule_fields(r);
    reveal_strlit("table_name");
    reveal_strlit("key_format");
    reveal_strlit("val_format");
    assert(("table_name"@)[0] != ("key_format"@)[0]);
    assert(("table_name"@)[0] != ("val_format"@)[0]);
    assert(("key_format"@)[0] != ("val_format"@)[0]);
    assert("table_name"@ != "key_format"@);
    assert("table_name"@ != "val_format"@);
    assert("key_format"@ != "val_format"@);
    lemma_jv_get_at(f, 0);
    lemma_jv_get_at(f, 1);
    lemma_jv_get_at(f, 2);
}

proof fn lemma_rules_round_trip(rules: Seq<KeyValModel>)
    ensures
        rules_of_jv(rules_to_jv(rules)) == Ok::<Seq<KeyValModel>, ConfigParseError>(rules),
    decreases rules.len(),
{
    let s = rules_to_jv(rules);
    if rules.len() == 0 {
        assert(rules =~= Seq::<KeyValModel>::empty());
    } else {
        let rest = rules.subrange(1, rules.len() as int);
        lemma_rule_round_trip(rules[0]);
        lemma_rules_round_trip(rest);
        assert(s.subrange(1, s.len() as int) =~= rules_to_jv(rest));
        assert(seq![rules[0]] + rest =~= rules);
    }
}

proof fn lemma_db_round_trip(d: DbModel)
    ensures
        db_of_jv(db_to_jv(d)) == Ok::<DbModel, ConfigParseError>(d),
{
    let f = db_fields(d);
    reveal_strlit("host");
    reveal_strlit("port");
    reveal_strlit("user");
    reveal_strlit("password");
    reveal_strlit("db_name");
    reveal_strlit("read_timeout");
    reveal_strlit("write_timeout");
    reveal_strlit("tcp_connect_timeout");
    reveal_strlit("tcp_keepalive_time");
    assert(("host"@)[0] != ("port"@)[0]);
    assert(("host"@)[0] != ("user"@)[0]);
    assert(("port"@)[0] != ("user"@)[0]);
    assert("host"@.len() == 4 && "port"@.len() == 4 && "user"@.len() == 4);
    assert("password"@.len() == 8 && "db_name"@.len() == 7);
    assert("read_timeout"@.len() == 12 && "write_timeout"@.len() == 13);
    assert("tcp_connect_timeout"@.len() == 19 && "tcp_keepalive_time"@.len() == 18);
    assert("host"@ != "port"@);
    assert("host"@ != "user"@);
    assert("port"@ != "user"@);
    lemma_jv_get_at(f, 0);
    lemma_jv_get_at(f, 1);
    lemma_jv_get_at(f, 2);
    lemma_jv_get_at(f, 3);
    lemma_jv_get_at(f, 4);
    lemma_jv_get_at(f, 5);
    lemma_jv_get_at(f, 6);
    lemma_jv_get_at(f, 7);
    lemma_jv_get_at(f, 8);
}

proof fn lemma_table_round_trip(t: TableModel)
    ensures
        table_of_jv(table_to_jv(t)) == Ok::<TableModel, ConfigParseError>(t),
{
    let f = table_fields(t);
    reveal_strlit("select_query");
    reveal_strlit("count_query");
    reveal_strlit("where_clause_type");
    reveal_strlit("id_index");
    reveal_strlit("key_val_pairs");
    reveal_strlit("offset");
    reveal_strlit("last_updated");
    reveal_strlit("total_rows");
    reveal_strlit("UnixTime");
    reveal_strlit("ID");
    assert(("select_query"@)[0] != ("last_updated"@)[0]);
    assert("select_query"@.len() == 12 && "count_query"@.len() == 11);
    assert("where_clause_type"@.len() == 17 && "id_index"@.len() == 8);
    assert("key_val_pairs"@.len() == 13 && "offset"@.len() == 6);
    assert("last_updated"@.len() == 12 && "total_rows"@.len() == 10);
    assert("select_query"@ != "last_updated"@);
    lemma_jv_get_at(f, 0);
    lemma_jv_get_at(f, 1);
    lemma_jv_get_at(f, 2);
    lemma_jv_get_at(f, 3);
    lemma_jv_get_at(f, 4);
    lemma_jv_get_at(f, 5);
    lemma_jv_get_at(f, 6);
    lemma_jv_get_at(f, 7);
    lemma_rules_round_trip(t.key_val_pairs);
    assert("ID"@.len() == 2 && "UnixTime"@.len() == 8);
    assert("ID"@ != "UnixTime"@);
}

proof fn lemma_tables_round_trip(tables: Seq<(Seq<char>, TableModel)>)
    ensures
        tables_of_jv(tables_fields(tables)) == Ok::<Seq<(Seq<char>, TableModel)>, ConfigParseError>(
            tables,
        ),
    decreases tables.len(),
{
    let s = tables_fields(tables);
    if tables.len() == 0 {
        assert(tables =~= Seq::<(Seq<char>, TableModel)>::empty());
    } else {
        let rest = tables.subrange(1, tables.len() as int);
        lemma_table_round_trip(tables[0].1);
        lemma_tables_round_trip(rest);
        assert(s.subrange(1, s.len() as int) =~= tables_fields(rest));
        assert(seq![(tables[0].0, tables[0].1)] + rest =~= tables);
    }
}

/// Round trip: a document written from a valid configuration reads back
/// to exactly that configuration, field for field.
pub proof fn lemma_config_round_trip(m: MySqlModel)
    requires
        crate::config::config_valid(m),
    ensures
        config_of_jv(config_to_jv(m)) == Ok::<MySqlModel, ConfigParseError>(m),
{
    let f = config_fields(m);
    reveal_strlit("enabled");
    reveal_strlit("db_config");
    reveal_strlit("tables");
    reveal_strlit("periodic_fetch_duration");
    reveal_strlit("fetch_limit");
    assert("enabled"@.len() == 7 && "db_config"@.len() == 9 && "tables"@.len() == 6);
    assert("periodic_fetch_duration"@.len() == 23 && "fetch_limit"@.len() == 11);
    lemma_jv_get_at(f, 0);
    lemma_jv_get_at(f, 1);
    lemma_jv_get_at(f, 2);
    lemma_jv_get_at(f, 3);
    lemma_jv_get_at(f, 4);
    lemma_db_round_trip(m.db_config);
    lemma_tables_round_trip(m.tables);
    assert(parsed_names_unique(m.tables));
}

} // verus!

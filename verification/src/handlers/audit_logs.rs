//! Audit log listings: six append-only tables described by column
//! definitions. The definitions decide the SELECT list (timestamps as RFC 3339
//! text, JSON as text, bytes as base64), the camelCase keys of the output, and
//! which columns may be filtered.

use vstd::prelude::*;
use vstd::string::*;
use crate::text::{seq_lt, str_less, lemma_seq_lt_total, lemma_seq_lt_transitive, i64_decimal, int_decimal, join, join_strings, owned, str_eq, to_upper_char, upper_char, chars_of, push_char, views, cat, cat3};

verus! {

/// The type of a column's value.
#[derive(Debug, Clone, Copy, PartialEq, Eq, Structural)]
pub enum VT {
    /// Integer (JSON number).
    Num,
    Bool,
    Str,
    /// Timestamp, output as RFC 3339 text.
    Ts,
    /// jsonb, output as the object or array it holds.
    Json,
    /// bytea, output as base64 text.
    B64,
}

/// A column: its name and value type.
#[derive(Debug, Clone, Copy)]
pub struct ColDef {
    pub name: &'static str,
    pub ty: VT,
}

pub fn col(name: &'static str, ty: VT) -> (r: ColDef)
    ensures
        r.name == name,
        r.ty == ty,
{
    ColDef { name, ty }
}

/// The column table of the API audit logs.
pub open spec fn api_audit_table() -> Seq<ColDef> {
    seq![
        ColDef { name: "id", ty: VT::Num },
        ColDef { name: "created_at", ty: VT::Ts },
        ColDef { name: "tenant_id", ty: VT::Num },
        ColDef { name: "user_id", ty: VT::Num },
        ColDef { name: "username", ty: VT::Str },
        ColDef { name: "ip_address", ty: VT::Str },
        ColDef { name: "geo_location", ty: VT::Json },
        ColDef { name: "device_info", ty: VT::Json },
        ColDef { name: "referer", ty: VT::Str },
        ColDef { name: "app_version", ty: VT::Str },
        ColDef { name: "http_method", ty: VT::Str },
        ColDef { name: "path", ty: VT::Str },
        ColDef { name: "request_uri", ty: VT::Str },
        ColDef { name: "api_module", ty: VT::Str },
        ColDef { name: "api_operation", ty: VT::Str },
        ColDef { name: "api_description", ty: VT::Str },
        ColDef { name: "request_id", ty: VT::Str },
        ColDef { name: "trace_id", ty: VT::Str },
        ColDef { name: "span_id", ty: VT::Str },
        ColDef { name: "latency_ms", ty: VT::Num },
        ColDef { name: "success", ty: VT::Bool },
        ColDef { name: "status_code", ty: VT::Num },
        ColDef { name: "reason", ty: VT::Str },
        ColDef { name: "request_header", ty: VT::Str },
        ColDef { name: "request_body", ty: VT::Str },
        ColDef { name: "response", ty: VT::Str },
        ColDef { name: "log_hash", ty: VT::Str },
        ColDef { name: "signature", ty: VT::B64 },
    ]
}

/// The columns of the API audit logs.
pub fn api_audit_columns() -> (r: Vec<ColDef>)
    ensures
        r@ == api_audit_table(),
{
    vec![
        col("id", VT::Num),
        col("created_at", VT::Ts),
        col("tenant_id", VT::Num),
        col("user_id", VT::Num),
        col("username", VT::Str),
        col("ip_address", VT::Str),
        col("geo_location", VT::Json),
        col("device_info", VT::Json),
        col("referer", VT::Str),
        col("app_version", VT::Str),
        col("http_method", VT::Str),
        col("path", VT::Str),
        col("request_uri", VT::Str),
        col("api_module", VT::Str),
        col("api_operation", VT::Str),
        col("api_description", VT::Str),
        col("request_id", VT::Str),
        col("trace_id", VT::Str),
        col("span_id", VT::Str),
        col("latency_ms", VT::Num),
        col("success", VT::Bool),
        col("status_code", VT::Num),
        col("reason", VT::Str),
        col("request_header", VT::Str),
        col("request_body", VT::Str),
        col("response", VT::Str),
        col("log_hash", VT::Str),
        col("signature", VT::B64),
    ]
}

/// The column table of the login audit logs.
pub open spec fn login_audit_table() -> Seq<ColDef> {
    seq![
        ColDef { name: "id", ty: VT::Num },
        ColDef { name: "created_at", ty: VT::Ts },
        ColDef { name: "tenant_id", ty: VT::Num },
        ColDef { name: "user_id", ty: VT::Num },
        ColDef { name: "username", ty: VT::Str },
        ColDef { name: "ip_address", ty: VT::Str },
        ColDef { name: "geo_location", ty: VT::Json },
        ColDef { name: "session_id", ty: VT::Str },
        ColDef { name: "device_info", ty: VT::Json },
        ColDef { name: "request_id", ty: VT::Str },
        ColDef { name: "trace_id", ty: VT::Str },
        ColDef { name: "action_type", ty: VT::Str },
        ColDef { name: "status", ty: VT::Str },
        ColDef { name: "login_method", ty: VT::Str },
        ColDef { name: "failure_reason", ty: VT::Str },
        ColDef { name: "mfa_status", ty: VT::Str },
        ColDef { name: "risk_score", ty: VT::Num },
        ColDef { name: "risk_level", ty: VT::Str },
        ColDef { name: "risk_factors", ty: VT::Json },
        ColDef { name: "log_hash", ty: VT::Str },
        ColDef { name: "signature", ty: VT::B64 },
    ]
}

/// The columns of the login audit logs.
pub fn login_audit_columns() -> (r: Vec<ColDef>)
    ensures
        r@ == login_audit_table(),
{
    vec![
        col("id", VT::Num),
        col("created_at", VT::Ts),
        col("tenant_id", VT::Num),
        col("user_id", VT::Num),
        col("username", VT::Str),
        col("ip_address", VT::Str),
        col("geo_location", VT::Json),
        col("session_id", VT::Str),
        col("device_info", VT::Json),
        col("request_id", VT::Str),
        col("trace_id", VT::Str),
        col("action_type", VT::Str),
        col("status", VT::Str),
        col("login_method", VT::Str),
        col("failure_reason", VT::Str),
        col("mfa_status", VT::Str),
        col("risk_score", VT::Num),
        col("risk_level", VT::Str),
        col("risk_factors", VT::Json),
        col("log_hash", VT::Str),
        col("signature", VT::B64),
    ]
}

/// The column table of the operation audit logs.
pub open spec fn operation_audit_table() -> Seq<ColDef> {
    seq![
        ColDef { name: "id", ty: VT::Num },
        ColDef { name: "created_at", ty: VT::Ts },
        ColDef { name: "tenant_id", ty: VT::Num },
        ColDef { name: "user_id", ty: VT::Num },
        ColDef { name: "username", ty: VT::Str },
        ColDef { name: "resource_type", ty: VT::Str },
        ColDef { name: "resource_id", ty: VT::Str },
        ColDef { name: "action", ty: VT::Str },
        ColDef { name: "before_data", ty: VT::Json },
        ColDef { name: "after_data", ty: VT::Json },
        ColDef { name: "sensitive_level", ty: VT::Str },
        ColDef { name: "request_id", ty: VT::Str },
        ColDef { name: "trace_id", ty: VT::Str },
        ColDef { name: "success", ty: VT::Bool },
        ColDef { name: "failure_reason", ty: VT::Str },
        ColDef { name: "ip_address", ty: VT::Str },
        ColDef { name: "geo_location", ty: VT::Json },
        ColDef { name: "device_info", ty: VT::Json },
        ColDef { name: "log_hash", ty: VT::Str },
        ColDef { name: "signature", ty: VT::B64 },
    ]
}

/// The columns of the operation audit logs.
pub fn operation_audit_columns() -> (r: Vec<ColDef>)
    ensures
        r@ == operation_audit_table(),
{
    vec![
        col("id", VT::Num),
        col("created_at", VT::Ts),
        col("tenant_id", VT::Num),
        col("user_id", VT::Num),
        col("username", VT::Str),
        col("resource_type", VT::Str),
        col("resource_id", VT::Str),
        col("action", VT::Str),
        col("before_data", VT::Json),
        col("after_data", VT::Json),
        col("sensitive_level", VT::Str),
        col("request_id", VT::Str),
        col("trace_id", VT::Str),
        col("success", VT::Bool),
        col("failure_reason", VT::Str),
        col("ip_address", VT::Str),
        col("geo_location", VT::Json),
        col("device_info", VT::Json),
        col("log_hash", VT::Str),
        col("signature", VT::B64),
    ]
}

/// The column table of the permission audit logs.
pub open spec fn permission_audit_table() -> Seq<ColDef> {
    seq![
        ColDef { name: "id", ty: VT::Num },
        ColDef { name: "created_at", ty: VT::Ts },
        ColDef { name: "tenant_id", ty: VT::Num },
        ColDef { name: "operator_id", ty: VT::Num },
        ColDef { name: "operator_name", ty: VT::Str },
        ColDef { name: "target_type", ty: VT::Str },
        ColDef { name: "target_id", ty: VT::Str },
        ColDef { name: "target_name", ty: VT::Str },
        ColDef { name: "action", ty: VT::Str },
        ColDef { name: "old_value", ty: VT::Json },
        ColDef { name: "new_value", ty: VT::Json },
        ColDef { name: "ip_address", ty: VT::Str },
        ColDef { name: "request_id", ty: VT::Str },
        ColDef { name: "reason", ty: VT::Str },
        ColDef { name: "log_hash", ty: VT::Str },
        ColDef { name: "signature", ty: VT::B64 },
    ]
}

/// The columns of the permission audit logs.
pub fn permission_audit_columns() -> (r: Vec<ColDef>)
    ensures
        r@ == permission_audit_table(),
{
    vec![
        col("id", VT::Num),
        col("created_at", VT::Ts),
        col("tenant_id", VT::Num),
        col("operator_id", VT::Num),
        col("operator_name", VT::Str),
        col("target_type", VT::Str),
        col("target_id", VT::Str),
        col("target_name", VT::Str),
        col("action", VT::Str),
        col("old_value", VT::Json),
        col("new_value", VT::Json),
        col("ip_address", VT::Str),
        col("request_id", VT::Str),
        col("reason", VT::Str),
        col("log_hash", VT::Str),
        col("signature", VT::B64),
    ]
}

/// The column table of the data access audit logs.
pub open spec fn data_access_audit_table() -> Seq<ColDef> {
    seq![
        ColDef { name: "id", ty: VT::Num },
        ColDef { name: "created_at", ty: VT::Ts },
        ColDef { name: "tenant_id", ty: VT::Num },
        ColDef { name: "user_id", ty: VT::Num },
        ColDef { name: "username", ty: VT::Str },
        ColDef { name: "ip_address", ty: VT::Str },
        ColDef { name: "geo_location", ty: VT::Json },
        ColDef { name: "device_info", ty: VT::Json },
        ColDef { name: "request_id", ty: VT::Str },
        ColDef { name: "trace_id", ty: VT::Str },
        ColDef { name: "data_source", ty: VT::Str },
        ColDef { name: "table_name", ty: VT::Str },
        ColDef { name: "data_id", ty: VT::Str },
        ColDef { name: "access_type", ty: VT::Str },
        ColDef { name: "sql_digest", ty: VT::Str },
        ColDef { name: "sql_text", ty: VT::Str },
        ColDef { name: "affected_rows", ty: VT::Num },
        ColDef { name: "latency_ms", ty: VT::Num },
        ColDef { name: "success", ty: VT::Bool },
        ColDef { name: "sensitive_level", ty: VT::Str },
        ColDef { name: "data_masked", ty: VT::Bool },
        ColDef { name: "masking_rules", ty: VT::Str },
        ColDef { name: "business_purpose", ty: VT::Str },
        ColDef { name: "data_category", ty: VT::Str },
        ColDef { name: "db_user", ty: VT::Str },
        ColDef { name: "log_hash", ty: VT::Str },
        ColDef { name: "signature", ty: VT::B64 },
    ]
}

/// The columns of the data access audit logs.
pub fn data_access_audit_columns() -> (r: Vec<ColDef>)
    ensures
        r@ == data_access_audit_table(),
{
    vec![
        col("id", VT::Num),
        col("created_at", VT::Ts),
        col("tenant_id", VT::Num),
        col("user_id", VT::Num),
        col("username", VT::Str),
        col("ip_address", VT::Str),
        col("geo_location", VT::Json),
        col("device_info", VT::Json),
        col("request_id", VT::Str),
        col("trace_id", VT::Str),
        col("data_source", VT::Str),
        col("table_name", VT::Str),
        col("data_id", VT::Str),
        col("access_type", VT::Str),
        col("sql_digest", VT::Str),
        col("sql_text", VT::Str),
        col("affected_rows", VT::Num),
        col("latency_ms", VT::Num),
        col("success", VT::Bool),
        col("sensitive_level", VT::Str),
        col("data_masked", VT::Bool),
        col("masking_rules", VT::Str),
        col("business_purpose", VT::Str),
        col("data_category", VT::Str),
        col("db_user", VT::Str),
        col("log_hash", VT::Str),
        col("signature", VT::B64),
    ]
}

/// The column table of the policy evaluation logs.
pub open spec fn policy_evaluation_table() -> Seq<ColDef> {
    seq![
        ColDef { name: "id", ty: VT::Num },
        ColDef { name: "created_at", ty: VT::Ts },
        ColDef { name: "tenant_id", ty: VT::Num },
        ColDef { name: "user_id", ty: VT::Num },
        ColDef { name: "membership_id", ty: VT::Num },
        ColDef { name: "permission_id", ty: VT::Num },
        ColDef { name: "policy_id", ty: VT::Num },
        ColDef { name: "request_path", ty: VT::Str },
        ColDef { name: "request_method", ty: VT::Str },
        ColDef { name: "result", ty: VT::Bool },
        ColDef { name: "effect_details", ty: VT::Str },
        ColDef { name: "scope_sql", ty: VT::Str },
        ColDef { name: "ip_address", ty: VT::Str },
        ColDef { name: "trace_id", ty: VT::Str },
        ColDef { name: "evaluation_context", ty: VT::Str },
        ColDef { name: "log_hash", ty: VT::Str },
        ColDef { name: "signature", ty: VT::B64 },
    ]
}

/// The columns of the policy evaluation logs.
pub fn policy_evaluation_columns() -> (r: Vec<ColDef>)
    ensures
        r@ == policy_evaluation_table(),
{
    vec![
        col("id", VT::Num),
        col("created_at", VT::Ts),
        col("tenant_id", VT::Num),
        col("user_id", VT::Num),
        col("membership_id", VT::Num),
        col("permission_id", VT::Num),
        col("policy_id", VT::Num),
        col("request_path", VT::Str),
        col("request_method", VT::Str),
        col("result", VT::Bool),
        col("effect_details", VT::Str),
        col("scope_sql", VT::Str),
        col("ip_address", VT::Str),
        col("trace_id", VT::Str),
        col("evaluation_context", VT::Str),
        col("log_hash", VT::Str),
        col("signature", VT::B64),
    ]
}

/// snake_case to camelCase: each `_` is dropped and the character after it
/// upper-cased (ASCII).
pub open spec fn camel_from(s: Seq<char>, upper: bool) -> Seq<char>
    decreases s.len(),
{
    if s.len() == 0 {
        Seq::<char>::empty()
    } else if s[0] == '_' {
        camel_from(s.drop_first(), true)
    } else if upper {
        seq![upper_char(s[0])] + camel_from(s.drop_first(), false)
    } else {
        seq![s[0]] + camel_from(s.drop_first(), false)
    }
}

pub fn snake_to_camel(s: &str) -> (r: String)
    ensures
        r@ == camel_from(s@, false),
{
    let v = chars_of(s);
    let n = v.len();
    let mut out = String::new();
    let mut upper = false;
    let mut i: usize = 0;
    assert(s@.subrange(0, n as int) =~= s@);
    while i < n
        invariant
            n == v.len(),
            v@ == s@,
            i <= n,
            camel_from(s@, false) == out@ + camel_from(s@.subrange(i as int, n as int), upper),
        decreases n - i,
    {
        let ghost rest = s@.subrange(i as int, n as int);
        assert(rest[0] == v@[i as int]);
        assert(rest.drop_first() =~= s@.subrange(i + 1, n as int));
        let ch = v[i];
        if ch == '_' {
            upper = true;
        } else if upper {
            let ghost before = out@;
            push_char(&mut out, to_upper_char(ch));
            assert(before + camel_from(rest, true) =~= out@ + camel_from(s@.subrange(i + 1, n as int), false));
            upper = false;
        } else {
            let ghost before = out@;
            push_char(&mut out, ch);
            assert(before + camel_from(rest, false) =~= out@ + camel_from(s@.subrange(i + 1, n as int), false));
        }
        i += 1;
    }
    assert(s@.subrange(n as int, n as int) =~= Seq::<char>::empty());
    assert(out@ + Seq::<char>::empty() =~= out@);
    out
}

/// The SELECT expression of a column.
pub open spec fn select_expr(d: ColDef) -> Seq<char> {
    let n = d.name@;
    match d.ty {
        VT::Ts => "to_char("@ + n + ", 'YYYY-MM-DD\"T\"HH24:MI:SS.US\"Z\"') as "@ + n,
        VT::Json => n + "::text as "@ + n,
        VT::B64 => "replace(encode("@ + n + ", 'base64'), E'\\n', '') as "@ + n,
        _ => n,
    }
}

fn select_expr_of(d: ColDef) -> (r: String)
    ensures
        r@ == select_expr(d),
{
    match d.ty {
        VT::Ts => {
            let mut s = cat3("to_char(", d.name, ", 'YYYY-MM-DD\"T\"HH24:MI:SS.US\"Z\"') as ");
            s.append(d.name);
            s
        },
        VT::Json => cat3(d.name, "::text as ", d.name),
        VT::B64 => {
            let mut s = cat3("replace(encode(", d.name, ", 'base64'), E'\\n', '') as ");
            s.append(d.name);
            s
        },
        _ => owned(d.name),
    }
}

/// The SELECT list of the columns, comma separated.
pub fn select_list(defs: &Vec<ColDef>) -> (r: String)
    ensures
        r@ == join(defs@.map_values(|d: ColDef| select_expr(d)), ", "@),
{
    let mut parts: Vec<String> = Vec::new();
    let mut i: usize = 0;
    while i < defs.len()
        invariant
            i <= defs.len(),
            views(parts@) == defs@.subrange(0, i as int).map_values(|d: ColDef| select_expr(d)),
        decreases defs.len() - i,
    {
        let ghost before = parts@;
        let e = select_expr_of(defs[i]);
        parts.push(e);
        assert(views(parts@) =~= views(before).push(e@));
        assert(defs@.subrange(0, i + 1).map_values(|d: ColDef| select_expr(d)) =~= defs@.subrange(
            0,
            i as int,
        ).map_values(|d: ColDef| select_expr(d)).push(select_expr(defs@[i as int])));
        assert(views(parts@) =~= defs@.subrange(0, i + 1).map_values(|d: ColDef| select_expr(d)));
        i += 1;
    }
    assert(defs@.subrange(0, defs.len() as int) =~= defs@);
    join_strings(&parts, ", ")
}

/// Whether a JSON column holds a structure whose keys are output in
/// camelCase (geographic location and device information).
pub fn is_camelized_json(column: &str) -> (r: bool)
    ensures
        r == (column@ == "geo_location"@ || column@ == "device_info"@),
{
    str_eq(column, "geo_location") || str_eq(column, "device_info")
}

/// Numbers, strings and booleans may be filtered on.
pub open spec fn is_filterable(d: ColDef) -> bool {
    d.ty == VT::Num || d.ty == VT::Str || d.ty == VT::Bool
}

/// The names of the filterable columns, in order.
pub fn filterable_columns(defs: &Vec<ColDef>) -> (r: Vec<&'static str>)
    ensures
        r@ == defs@.filter(|d: ColDef| is_filterable(d)).map_values(|d: ColDef| d.name),
{
    let mut out: Vec<&'static str> = Vec::new();
    let mut i: usize = 0;
    while i < defs.len()
        invariant
            i <= defs.len(),
            out@ == defs@.subrange(0, i as int).filter(|d: ColDef| is_filterable(d)).map_values(
                |d: ColDef| d.name,
            ),
        decreases defs.len() - i,
    {
        proof {
            let pre = defs@.subrange(0, i as int);
            let nxt = defs@.subrange(0, i + 1);
            assert(nxt.drop_last() =~= pre);
            assert(nxt.last() == defs@[i as int]);
            reveal(Seq::filter);
        }
        let d = defs[i];
        if d.ty == VT::Num || d.ty == VT::Str || d.ty == VT::Bool {
            let ghost before = out@;
            out.push(d.name);
            assert(out@ =~= defs@.subrange(0, i + 1).filter(|d: ColDef| is_filterable(d)).map_values(
                |d: ColDef| d.name,
            ));
        } else {
            assert(out@ =~= defs@.subrange(0, i + 1).filter(|d: ColDef| is_filterable(d)).map_values(
                |d: ColDef| d.name,
            ));
        }
        i += 1;
    }
    assert(defs@.subrange(0, defs.len() as int) =~= defs@);
    out
}

/// The name of a stored device type code.
pub open spec fn device_type_spec(n: Option<i64>) -> Seq<char> {
    match n {
        Some(1) => "DESKTOP"@,
        Some(2) => "MOBILE"@,
        Some(3) => "TABLET"@,
        Some(4) => "BOT"@,
        Some(5) => "OTHER"@,
        _ => "DEVICE_TYPE_UNSPECIFIED"@,
    }
}

pub fn device_type_name(n: Option<i64>) -> (r: &'static str)
    ensures
        r@ == device_type_spec(n),
{
    match n {
        Some(1) => "DESKTOP",
        Some(2) => "MOBILE",
        Some(3) => "TABLET",
        Some(4) => "BOT",
        Some(5) => "OTHER",
        _ => "DEVICE_TYPE_UNSPECIFIED",
    }
}


/// A camelCase key holds no underscore.
pub proof fn lemma_camel_no_underscore(s: Seq<char>, upper: bool)
    ensures
        forall|i: int| 0 <= i < camel_from(s, upper).len() ==> #[trigger] camel_from(s, upper)[i] != '_',
    decreases s.len(),
{
    if s.len() > 0 {
        lemma_camel_no_underscore(s.drop_first(), true);
        lemma_camel_no_underscore(s.drop_first(), false);
        let rest_t = camel_from(s.drop_first(), true);
        let rest_f = camel_from(s.drop_first(), false);
        if s[0] != '_' {
            let c = if upper { upper_char(s[0]) } else { s[0] };
            assert(c != '_');
            assert forall|i: int| 0 <= i < camel_from(s, upper).len() implies #[trigger] camel_from(s, upper)[i] != '_' by {
                if i > 0 {
                    assert(camel_from(s, upper)[i] == rest_f[i - 1]);
                }
            }
        }
    }
}


// ===================== JSON values of the listing =====================

/// A JSON value as the listing reads and writes it.
pub enum JsonValue {
    Null,
    Bool(bool),
    /// A number: its text and, when it is an integer that fits, its `i64`.
    Number { text: String, integer: Option<i64> },
    Text(String),
    Array(Vec<JsonValue>),
    /// The members, in key order.
    Object(Vec<(String, JsonValue)>),
}

/// The mathematical value of a `JsonValue`.
pub enum JsonView {
    Null,
    Bool(bool),
    Number(Seq<char>, Option<i64>),
    Text(Seq<char>),
    Array(Seq<JsonView>),
    Object(Seq<(Seq<char>, JsonView)>),
}

pub open spec fn jview(v: JsonValue) -> JsonView
    decreases v, 0nat,
{
    match v {
        JsonValue::Null => JsonView::Null,
        JsonValue::Bool(b) => JsonView::Bool(b),
        JsonValue::Number { text, integer } => JsonView::Number(text@, integer),
        JsonValue::Text(t) => JsonView::Text(t@),
        JsonValue::Array(a) => JsonView::Array(jviews(a@)),
        JsonValue::Object(m) => JsonView::Object(member_views(m@)),
    }
}

pub open spec fn jviews(s: Seq<JsonValue>) -> Seq<JsonView>
    decreases s, 1nat,
{
    if s.len() == 0 {
        Seq::<JsonView>::empty()
    } else {
        jviews(s.drop_last()).push(jview(s.last()))
    }
}

pub open spec fn member_views(s: Seq<(String, JsonValue)>) -> Seq<(Seq<char>, JsonView)>
    decreases s, 1nat,
{
    if s.len() == 0 {
        Seq::<(Seq<char>, JsonView)>::empty()
    } else {
        member_views(s.drop_last()).push((s.last().0@, jview(s.last().1)))
    }
}

/// The views of a sequence of values are the views of its elements, in order.
pub proof fn lemma_jviews(s: Seq<JsonValue>)
    ensures
        jviews(s).len() == s.len(),
        forall|j: int| 0 <= j < s.len() ==> #[trigger] jviews(s)[j] == jview(s[j]),
    decreases s.len(),
{
    if s.len() > 0 {
        lemma_jviews(s.drop_last());
        assert forall|j: int| 0 <= j < s.len() implies #[trigger] jviews(s)[j] == jview(s[j]) by {
            if j < s.len() - 1 {
                assert(s.drop_last()[j] == s[j]);
            }
        }
    }
}

/// The views of object members are the members' keys and value views, in order.
pub proof fn lemma_member_views(s: Seq<(String, JsonValue)>)
    ensures
        member_views(s).len() == s.len(),
        forall|j: int| 0 <= j < s.len() ==> #[trigger] member_views(s)[j] == (s[j].0@, jview(s[j].1)),
    decreases s.len(),
{
    if s.len() > 0 {
        lemma_member_views(s.drop_last());
        assert forall|j: int| 0 <= j < s.len() implies #[trigger] member_views(s)[j] == (s[j].0@, jview(s[j].1)) by {
            if j < s.len() - 1 {
                assert(s.drop_last()[j] == s[j]);
            }
        }
    }
}

/// Where key `k` belongs in members sorted by key: after every key below it.
pub open spec fn insert_pos(m: Seq<(Seq<char>, JsonView)>, k: Seq<char>) -> int
    decreases m.len(),
{
    if m.len() == 0 {
        0
    } else if seq_lt(m[0].0, k) {
        1 + insert_pos(m.drop_first(), k)
    } else {
        0
    }
}

/// `BTreeMap::insert` on members sorted by key: a member with key `k` gets
/// the value `v`, else the member is added in key order.
pub open spec fn sorted_insert(m: Seq<(Seq<char>, JsonView)>, k: Seq<char>, v: JsonView) -> Seq<
    (Seq<char>, JsonView),
> {
    let i = insert_pos(m, k);
    if i < m.len() && m[i].0 == k {
        m.update(i, (k, v))
    } else {
        m.insert(i, (k, v))
    }
}

proof fn lemma_insert_pos(m: Seq<(Seq<char>, JsonView)>, k: Seq<char>, i: int)
    requires
        0 <= i <= m.len(),
        forall|j: int| 0 <= j < i ==> seq_lt(#[trigger] m[j].0, k),
        i == m.len() || !seq_lt(m[i].0, k),
    ensures
        insert_pos(m, k) == i,
    decreases i,
{
    if i > 0 {
        let d = m.drop_first();
        assert forall|j: int| 0 <= j < i - 1 implies seq_lt(#[trigger] d[j].0, k) by {
            assert(d[j] == m[j + 1]);
        }
        if i < m.len() {
            assert(d[i - 1] == m[i]);
        }
        assert(seq_lt(m[0].0, k));
        lemma_insert_pos(d, k, i - 1);
    }
}

/// Inserts a member into members sorted by key (see `sorted_insert`).
pub fn insert_member(out: &mut Vec<(String, JsonValue)>, key: String, val: JsonValue)
    ensures
        member_views(final(out)@) == sorted_insert(member_views(old(out)@), key@, jview(val)),
{
    let ghost before = out@;
    proof {
        lemma_member_views(before);
    }
    let mut i: usize = 0;
    while i < out.len() && str_less(out[i].0.as_str(), key.as_str())
        invariant
            i <= out.len(),
            out@ == before,
            member_views(before).len() == before.len(),
            forall|j: int| 0 <= j < before.len() ==> #[trigger] member_views(before)[j] == (before[j].0@, jview(before[j].1)),
            forall|j: int| 0 <= j < i ==> seq_lt(#[trigger] member_views(before)[j].0, key@),
        decreases out.len() - i,
    {
        assert(member_views(before)[i as int].0 == out@[i as int].0@);
        i += 1;
    }
    proof {
        if i < out.len() {
            assert(member_views(before)[i as int].0 == out@[i as int].0@);
        }
        lemma_insert_pos(member_views(before), key@, i as int);
    }
    let same = i < out.len() && str_eq(out[i].0.as_str(), key.as_str());
    let ghost kv = (key@, jview(val));
    if same {
        out.set(i, (key, val));
        proof {
            lemma_member_views(out@);
            assert(member_views(out@) =~= member_views(before).update(i as int, kv));
        }
    } else {
        out.insert(i, (key, val));
        proof {
            lemma_member_views(out@);
            assert(member_views(out@) =~= member_views(before).insert(i as int, kv));
        }
    }
}


/// The value of a renamed member: a numeric `deviceType` becomes the name of
/// the device type; any other value is camelized in turn.
pub open spec fn camel_member(key: Seq<char>, v: JsonView) -> JsonView
    decreases v, 2nat,
{
    if key == "deviceType"@ && v is Number {
        JsonView::Text(device_type_spec(v->Number_1))
    } else {
        camel_view(v)
    }
}

/// A JSON value with the keys of every object turned to camelCase (later
/// members replace earlier ones whose keys become equal; members stay in
/// key order).
pub open spec fn camel_view(v: JsonView) -> JsonView
    decreases v, 0nat,
{
    match v {
        JsonView::Array(a) => JsonView::Array(camel_views(a)),
        JsonView::Object(m) => JsonView::Object(camel_members(m)),
        _ => v,
    }
}

pub open spec fn camel_views(a: Seq<JsonView>) -> Seq<JsonView>
    decreases a, 1nat,
{
    if a.len() == 0 {
        Seq::<JsonView>::empty()
    } else {
        camel_views(a.drop_last()).push(camel_view(a.last()))
    }
}

pub open spec fn camel_members(m: Seq<(Seq<char>, JsonView)>) -> Seq<(Seq<char>, JsonView)>
    decreases m, 1nat,
{
    if m.len() == 0 {
        Seq::<(Seq<char>, JsonView)>::empty()
    } else {
        let key = camel_from(m.last().0, false);
        sorted_insert(camel_members(m.drop_last()), key, camel_member(key, m.last().1))
    }
}

/// Turns the keys of a stored geographic or device structure to camelCase
/// (see `camel_view`).
pub fn camelize_keys(v: JsonValue) -> (r: JsonValue)
    ensures
        jview(r) == camel_view(jview(v)),
    decreases v,
{
    let ghost v0 = v;
    match v {
        JsonValue::Object(m) => {
            let ghost m0 = m@;
            let ghost n = m0.len() as int;
            let mut rest = m;
            let mut out: Vec<(String, JsonValue)> = Vec::new();
            let ghost mut i: int = 0;
            assert(m0.subrange(0, 0) =~= Seq::<(String, JsonValue)>::empty());
            assert(m0.subrange(0, n) =~= m0);
            while rest.len() > 0
                invariant
                    0 <= i <= n,
                    n == m0.len(),
                    v0 == JsonValue::Object(m),
                    v0 == v,
                    m@ == m0,
                    rest@ == m0.subrange(i, n),
                    member_views(out@) == camel_members(member_views(m0.subrange(0, i))),
                decreases rest.len(),
            {
                let (k, val) = rest.remove(0);
                assert(m0[i] == (k, val));
                let ghost pre = m0.subrange(0, i);
                let ghost nxt = m0.subrange(0, i + 1);
                assert(nxt.drop_last() =~= pre);
                assert(nxt.last() == (k, val));
                let key = snake_to_camel(k.as_str());
                let device = str_eq(key.as_str(), "deviceType");
                proof {
                    reveal_strlit("deviceType");
                }
                let nv = match val {
                    JsonValue::Number { text, integer } if device => JsonValue::Text(
                        owned(device_type_name(integer)),
                    ),
                    other => {
                        proof {
                            assert(decreases_to!(v0 => v0->Object_0));
                            assert(decreases_to!(v0->Object_0 => v0->Object_0@));
                            assert(decreases_to!(v0->Object_0@ => v0->Object_0@[i]));
                            assert(decreases_to!(v0->Object_0@[i] => v0->Object_0@[i].1));
                            assert(other == v0->Object_0@[i].1);
                        }
                        camelize_keys(other)
                    },
                };
                let ghost kv = (key@, jview(nv));
                proof {
                    assert(member_views(nxt) == member_views(pre).push((k@, jview(val))));
                    assert(member_views(nxt).drop_last() =~= member_views(pre));
                    assert(jview(nv) == camel_member(key@, jview(val)));
                }
                insert_member(&mut out, key, nv);
                proof {
                    i = i + 1;
                    assert(rest@ =~= m0.subrange(i, n));
                }
            }
            JsonValue::Object(out)
        },
        JsonValue::Array(a) => {
            let ghost a0 = a@;
            let ghost n = a0.len() as int;
            let mut rest = a;
            let mut out: Vec<JsonValue> = Vec::new();
            let ghost mut i: int = 0;
            assert(a0.subrange(0, 0) =~= Seq::<JsonValue>::empty());
            assert(a0.subrange(0, n) =~= a0);
            while rest.len() > 0
                invariant
                    0 <= i <= n,
                    n == a0.len(),
                    v0 == JsonValue::Array(a),
                    v0 == v,
                    a@ == a0,
                    rest@ == a0.subrange(i, n),
                    jviews(out@) == camel_views(jviews(a0.subrange(0, i))),
                decreases rest.len(),
            {
                let x = rest.remove(0);
                assert(a0[i] == x);
                let ghost pre = a0.subrange(0, i);
                let ghost nxt = a0.subrange(0, i + 1);
                assert(nxt.drop_last() =~= pre);
                assert(nxt.last() == x);
                proof {
                    assert(decreases_to!(v0 => v0->Array_0));
                    assert(decreases_to!(v0->Array_0 => v0->Array_0@));
                    assert(decreases_to!(v0->Array_0@ => v0->Array_0@[i]));
                    assert(x == v0->Array_0@[i]);
                }
                let c = camelize_keys(x);
                let ghost before = out@;
                out.push(c);
                assert(out@.drop_last() =~= before);
                assert(jviews(nxt) == jviews(pre).push(jview(x)));
                assert(jviews(nxt).drop_last() =~= jviews(pre));
                proof {
                    i = i + 1;
                    assert(rest@ =~= a0.subrange(i, n));
                }
            }
            JsonValue::Array(out)
        },
        other => other,
    }
}


/// A column value as read from a row, by the column's type: NULL (or not
/// readable as that type), an integer, a boolean, text (strings, timestamps
/// and base64 bytes), or the parse of a JSON column (`None` when its text is
/// not JSON).
pub enum Cell {
    Null,
    Num(i64),
    Bool(bool),
    Text(String),
    Json(Option<JsonValue>),
}

/// The output value of a column, if it has one: NULLs and unparsable JSON
/// are left out; the geographic and device structures get camelCase keys.
pub open spec fn cell_json(name: Seq<char>, c: Cell) -> Option<JsonView> {
    match c {
        Cell::Null => None,
        Cell::Num(n) => Some(JsonView::Number(int_decimal(n as int), Some(n))),
        Cell::Bool(b) => Some(JsonView::Bool(b)),
        Cell::Text(t) => Some(JsonView::Text(t@)),
        Cell::Json(None) => None,
        Cell::Json(Some(j)) => Some(
            if name == "geo_location"@ || name == "device_info"@ {
                camel_view(jview(j))
            } else {
                jview(j)
            },
        ),
    }
}

/// The members of a record: each column with a value, under its camelCase
/// name, in key order.
pub open spec fn row_members(defs: Seq<ColDef>, cells: Seq<Cell>) -> Seq<(Seq<char>, JsonView)>
    decreases defs.len(),
{
    if defs.len() == 0 || cells.len() == 0 {
        Seq::<(Seq<char>, JsonView)>::empty()
    } else {
        let prev = row_members(defs.drop_last(), cells.drop_last());
        match cell_json(defs.last().name@, cells.last()) {
            Some(x) => sorted_insert(prev, camel_from(defs.last().name@, false), x),
            None => prev,
        }
    }
}

/// The JSON record of a row whose column values are `cells`, in the order of
/// `defs`.
pub fn row_to_json(defs: &Vec<ColDef>, cells: Vec<Cell>) -> (r: JsonValue)
    requires
        cells.len() == defs.len(),
    ensures
        jview(r) == JsonView::Object(row_members(defs@, cells@)),
{
    let ghost c0 = cells@;
    let n = defs.len();
    let mut rest = cells;
    let mut out: Vec<(String, JsonValue)> = Vec::new();
    let mut i: usize = 0;
    assert(c0.subrange(0, n as int) =~= c0);
    assert(defs@.subrange(0, n as int) =~= defs@);
    while i < n
        invariant
            n == defs.len(),
            c0.len() == n,
            i <= n,
            rest@ == c0.subrange(i as int, n as int),
            member_views(out@) == row_members(defs@.subrange(0, i as int), c0.subrange(0, i as int)),
        decreases n - i,
    {
        let cell = rest.remove(0);
        let d = defs[i];
        assert(c0[i as int] == cell);
        let ghost dp = defs@.subrange(0, i as int);
        let ghost dn = defs@.subrange(0, i + 1);
        let ghost cp = c0.subrange(0, i as int);
        let ghost cn = c0.subrange(0, i + 1);
        assert(dn.drop_last() =~= dp);
        assert(cn.drop_last() =~= cp);
        assert(dn.last() == d);
        assert(cn.last() == cell);
        let ghost expect = cell_json(d.name@, cell);
        let value: Option<JsonValue> = match cell {
            Cell::Null => None,
            Cell::Num(x) => Some(JsonValue::Number { text: i64_decimal(x), integer: Some(x) }),
            Cell::Bool(b) => Some(JsonValue::Bool(b)),
            Cell::Text(t) => Some(JsonValue::Text(t)),
            Cell::Json(None) => None,
            Cell::Json(Some(j)) => {
                if is_camelized_json(d.name) {
                    Some(camelize_keys(j))
                } else {
                    Some(j)
                }
            },
        };
        match value {
            Some(x) => {
                assert(expect == Some(jview(x)));
                insert_member(&mut out, snake_to_camel(d.name), x);
            },
            None => {
                assert(expect is None);
            },
        }
        i += 1;
        assert(rest@ =~= c0.subrange(i as int, n as int));
    }
    JsonValue::Object(out)
}


/// Members in strictly increasing key order (so each key once).
pub open spec fn keys_sorted(m: Seq<(Seq<char>, JsonView)>) -> bool {
    forall|a: int, b: int| 0 <= a < b < m.len() ==> seq_lt(#[trigger] m[a].0, #[trigger] m[b].0)
}

proof fn lemma_insert_pos_props(m: Seq<(Seq<char>, JsonView)>, k: Seq<char>)
    ensures
        0 <= insert_pos(m, k) <= m.len(),
        forall|j: int| 0 <= j < insert_pos(m, k) ==> seq_lt(#[trigger] m[j].0, k),
        insert_pos(m, k) < m.len() ==> !seq_lt(m[insert_pos(m, k)].0, k),
    decreases m.len(),
{
    if m.len() > 0 && seq_lt(m[0].0, k) {
        let d = m.drop_first();
        lemma_insert_pos_props(d, k);
        assert forall|j: int| 0 <= j < insert_pos(m, k) implies seq_lt(#[trigger] m[j].0, k) by {
            if j > 0 {
                assert(m[j] == d[j - 1]);
            }
        }
        if insert_pos(m, k) < m.len() {
            assert(m[insert_pos(m, k)] == d[insert_pos(d, k)]);
        }
    }
}

/// Inserting into members in key order keeps them in key order.
pub proof fn lemma_sorted_insert_sorted(m: Seq<(Seq<char>, JsonView)>, k: Seq<char>, v: JsonView)
    requires
        keys_sorted(m),
    ensures
        keys_sorted(sorted_insert(m, k, v)),
{
    lemma_insert_pos_props(m, k);
    let i = insert_pos(m, k);
    let r = sorted_insert(m, k, v);
    if i < m.len() && m[i].0 == k {
        assert forall|a: int, b: int| 0 <= a < b < r.len() implies seq_lt(#[trigger] r[a].0, #[trigger] r[b].0) by {
            assert(r[a].0 == m[a].0 && r[b].0 == m[b].0);
        }
    } else {
        if i < m.len() {
            lemma_seq_lt_total(m[i].0, k);
        }
        assert forall|j: int| i <= j < m.len() implies seq_lt(k, #[trigger] m[j].0) by {
            if j > i {
                lemma_seq_lt_transitive(k, m[i].0, m[j].0);
            }
        }
        assert forall|a: int, b: int| 0 <= a < b < r.len() implies seq_lt(#[trigger] r[a].0, #[trigger] r[b].0) by {
            if b < i {
                assert(r[a] == m[a] && r[b] == m[b]);
            } else if b == i {
                assert(r[a] == m[a] && r[b].0 == k);
            } else if a < i {
                assert(r[a] == m[a] && r[b] == m[b - 1]);
            } else if a == i {
                assert(r[a].0 == k && r[b] == m[b - 1]);
            } else {
                assert(r[a] == m[a - 1] && r[b] == m[b - 1]);
            }
        }
    }
}

/// Every object that camelizing yields has its members in key order, each
/// key once.
pub proof fn lemma_camel_members_sorted(m: Seq<(Seq<char>, JsonView)>)
    ensures
        keys_sorted(camel_members(m)),
    decreases m.len(),
{
    if m.len() > 0 {
        lemma_camel_members_sorted(m.drop_last());
        let key = camel_from(m.last().0, false);
        lemma_sorted_insert_sorted(camel_members(m.drop_last()), key, camel_member(key, m.last().1));
    }
}

/// A record's members are in key order, each key once.
pub proof fn lemma_row_members_sorted(defs: Seq<ColDef>, cells: Seq<Cell>)
    ensures
        keys_sorted(row_members(defs, cells)),
    decreases defs.len(),
{
    if defs.len() > 0 && cells.len() > 0 {
        lemma_row_members_sorted(defs.drop_last(), cells.drop_last());
        match cell_json(defs.last().name@, cells.last()) {
            Some(x) => lemma_sorted_insert_sorted(
                row_members(defs.drop_last(), cells.drop_last()),
                camel_from(defs.last().name@, false),
                x,
            ),
            None => {},
        }
    }
}

} // verus!

//! The operation audit of the service's own write requests: which requests
//! are recorded (writes outside the session endpoints, by an authenticated
//! operator), the resource and action that a request path names, the client
//! address, and the record with its `log_hash` (lowercase hex SHA-256 of the
//! canonical JSON payload).

use vstd::prelude::*;
use vstd::string::*;
use crate::auth::AccessClaims;
use crate::crypto::{hex_lower, sha256, sha256_hex};
use crate::handlers::plan::opt_view;
use crate::text::{
    contains, eq_pred, has_infix, i64_decimal, int_decimal, ltrim_by, nat_decimal, owned,
    parse_i64, parse_i64_spec, rtrim_by, segments, segments_str, split_char, split_char_str,
    str_eq, trim, trim_end_char_str, trim_start_char_str, trim_str, u64_decimal, views,
};
use crate::text::lemma_split_nonempty;
use crate::json::{json_quote, json_string_text};
use vstd::utf8::encode_utf8;

verus! {

/// Whether `path` names a session endpoint (login, logout, token refresh,
/// captcha, MFA, password reset, registration); those are left to the login
/// audit.
pub open spec fn session_only(path: Seq<char>) -> bool {
    ||| has_infix(path, "/login"@)
    ||| has_infix(path, "/logout"@)
    ||| has_infix(path, "/refresh-token"@)
    ||| has_infix(path, "/captcha"@)
    ||| has_infix(path, "/mfa"@)
    ||| has_infix(path, "/forgot-password"@)
    ||| has_infix(path, "/reset-password-by-code"@)
    ||| has_infix(path, "/register"@)
}

pub fn is_session_only(path: &str) -> (r: bool)
    ensures
        r == session_only(path@),
{
    contains(path, "/login") || contains(path, "/logout") || contains(path, "/refresh-token")
        || contains(path, "/captcha") || contains(path, "/mfa") || contains(path,
    "/forgot-password") || contains(path, "/reset-password-by-code") || contains(path, "/register")
}

/// The audit action of a request: assignment, export and import by the path,
/// else by the HTTP method.
pub open spec fn action_spec(method: Seq<char>, path: Seq<char>) -> Seq<char> {
    if has_infix(path, "/unassign"@) {
        "UNASSIGN"@
    } else if has_infix(path, "/assign"@) {
        "ASSIGN"@
    } else if has_infix(path, "/export"@) {
        "EXPORT"@
    } else if has_infix(path, "/import"@) {
        "IMPORT"@
    } else if method == "POST"@ {
        "CREATE"@
    } else if method == "PUT"@ || method == "PATCH"@ {
        "UPDATE"@
    } else if method == "DELETE"@ {
        "DELETE"@
    } else {
        "OTHER"@
    }
}

pub fn action_of(method: &str, path: &str) -> (r: &'static str)
    ensures
        r@ == action_spec(method@, path@),
{
    if contains(path, "/unassign") {
        "UNASSIGN"
    } else if contains(path, "/assign") {
        "ASSIGN"
    } else if contains(path, "/export") {
        "EXPORT"
    } else if contains(path, "/import") {
        "IMPORT"
    } else if str_eq(method, "POST") {
        "CREATE"
    } else if str_eq(method, "PUT") || str_eq(method, "PATCH") {
        "UPDATE"
    } else if str_eq(method, "DELETE") {
        "DELETE"
    } else {
        "OTHER"
    }
}

pub open spec fn is_write(method: Seq<char>) -> bool {
    method == "POST"@ || method == "PUT"@ || method == "PATCH"@ || method == "DELETE"@
}

/// The non-empty segments of a request path.
pub open spec fn path_segments(path: Seq<char>) -> Seq<Seq<char>> {
    segments(ltrim_by(path, eq_pred('/')), '/')
}

/// A segment that reads as an `i64` is a resource id.
pub open spec fn is_id_segment(s: Seq<char>) -> bool {
    parse_i64_spec(s) is Some
}

/// The last segment that is neither an id nor `batch`.
pub open spec fn last_resource(segs: Seq<Seq<char>>) -> Option<Seq<char>>
    decreases segs.len(),
{
    if segs.len() == 0 {
        None
    } else if !is_id_segment(segs.last()) && segs.last() != "batch"@ {
        Some(segs.last())
    } else {
        last_resource(segs.drop_last())
    }
}

/// The last id segment.
pub open spec fn last_id(segs: Seq<Seq<char>>) -> Option<Seq<char>>
    decreases segs.len(),
{
    if segs.len() == 0 {
        None
    } else if is_id_segment(segs.last()) {
        Some(segs.last())
    } else {
        last_id(segs.drop_last())
    }
}

/// The resource type: the resource segment without its trailing `s`
/// characters, or `other` when the path names none.
pub open spec fn resource_type_of(r: Option<Seq<char>>) -> Seq<char> {
    match r {
        Some(s) => rtrim_by(s, eq_pred('s')),
        None => "other"@,
    }
}

/// What the audit records of a request: `(resource type, action, resource
/// id)` for a write outside the session endpoints, else nothing.
pub open spec fn classification(method: Seq<char>, path: Seq<char>) -> Option<
    (Seq<char>, Seq<char>, Option<Seq<char>>),
> {
    if !is_write(method) || session_only(path) {
        None
    } else {
        let segs = path_segments(path);
        Some((resource_type_of(last_resource(segs)), action_spec(method, path), last_id(segs)))
    }
}

/// The resource and id segments of a request path.
fn resource_and_id(path: &str) -> (r: (Option<String>, Option<String>))
    ensures
        opt_view(r.0) == last_resource(path_segments(path@)),
        opt_view(r.1) == last_id(path_segments(path@)),
{
    let trimmed = trim_start_char_str(path, '/');
    let segs = segments_str(trimmed.as_str(), '/');
    let ghost all = path_segments(path@);
    let mut resource: Option<String> = None;
    let mut id: Option<String> = None;
    let mut i: usize = 0;
    assert(views(segs@).subrange(0, 0) =~= Seq::<Seq<char>>::empty());
    while i < segs.len()
        invariant
            i <= segs.len(),
            views(segs@) == all,
            opt_view(resource) == last_resource(all.subrange(0, i as int)),
            opt_view(id) == last_id(all.subrange(0, i as int)),
        decreases segs.len() - i,
    {
        let ghost pre = all.subrange(0, i as int);
        let ghost nxt = all.subrange(0, i + 1);
        assert(nxt.drop_last() =~= pre);
        assert(nxt.last() == segs@[i as int]@);
        let seg = segs[i].as_str();
        if parse_i64(seg).is_some() {
            id = Some(owned(seg));
        } else if !str_eq(seg, "batch") {
            resource = Some(owned(seg));
        }
        i += 1;
    }
    assert(all.subrange(0, segs.len() as int) =~= all);
    (resource, id)
}

/// Classifies a request for the operation audit.
pub fn classify(method: &str, path: &str) -> (r: Option<(String, &'static str, Option<String>)>)
    ensures
        match classification(method@, path@) {
            Some((t, a, id)) => r matches Some(x) && x.0@ == t && x.1@ == a && opt_view(x.2) == id,
            None => r is None,
        },
{
    if !(str_eq(method, "POST") || str_eq(method, "PUT") || str_eq(method, "PATCH") || str_eq(
        method,
        "DELETE",
    )) {
        return None;
    }
    if is_session_only(path) {
        return None;
    }
    let (resource, id) = resource_and_id(path);
    let resource_type = match resource {
        Some(s) => trim_end_char_str(s.as_str(), 's'),
        None => owned("other"),
    };
    Some((resource_type, action_of(method, path), id))
}

/// The client address: the connection's peer address when known, else the
/// first entry of `X-Forwarded-For`, trimmed; empty when neither is there.
pub open spec fn client_ip_spec(peer: Option<Seq<char>>, forwarded: Option<Seq<char>>) -> Seq<
    char,
> {
    match peer {
        Some(a) => a,
        None => match forwarded {
            Some(v) => trim(split_char(v, ',')[0]),
            None => Seq::<char>::empty(),
        },
    }
}

pub fn client_ip(peer: Option<&str>, forwarded: Option<&str>) -> (r: String)
    ensures
        r@ == client_ip_spec(
            match peer {
                Some(a) => Some(a@),
                None => None,
            },
            match forwarded {
                Some(v) => Some(v@),
                None => None,
            },
        ),
{
    match peer {
        Some(a) => owned(a),
        None => match forwarded {
            Some(v) => {
                let parts = split_char_str(v, ',');
                proof {
                    lemma_split_nonempty(v@, ',');
                }
                trim_str(parts[0].as_str())
            },
            None => String::new(),
        },
    }
}


/// One operation audit record.
pub struct OperationAuditEntry {
    /// RFC 3339 time of the request.
    pub created_at: String,
    pub tenant_id: i64,
    pub user_id: i64,
    pub username: String,
    pub resource_type: String,
    pub resource_id: Option<String>,
    pub action: String,
    pub request_id: String,
    /// Whether the response status was 2xx.
    pub success: bool,
    pub status_code: u16,
    pub ip_address: String,
    /// Lowercase hex SHA-256 of the canonical payload.
    pub log_hash: String,
}

/// The JSON text of each string field of an audit record, as the caller
/// rendered them.
pub struct QuotedAuditText {
    pub action: String,
    pub created_at: String,
    pub ip_address: String,
    pub request_id: String,
    /// `None` renders as `null`.
    pub resource_id: Option<String>,
    pub resource_type: String,
    pub username: String,
}

pub open spec fn bool_text(b: bool) -> Seq<char> {
    if b {
        "true"@
    } else {
        "false"@
    }
}

/// The canonical payload: a compact JSON object with its keys in sorted order,
/// string fields as `q` renders them.
pub open spec fn payload_layout(e: OperationAuditEntry, q: QuotedAuditText) -> Seq<char> {
    "{\"action\":"@ + q.action@ + ",\"created_at\":"@ + q.created_at@ + ",\"ip_address\":"@
        + q.ip_address@ + ",\"request_id\":"@ + q.request_id@ + ",\"resource_id\":"@ + (
    match q.resource_id {
        Some(x) => x@,
        None => "null"@,
    }) + ",\"resource_type\":"@ + q.resource_type@ + ",\"status_code\":"@ + nat_decimal(
        e.status_code as nat,
    ) + ",\"success\":"@ + bool_text(e.success) + ",\"tenant_id\":"@ + int_decimal(
        e.tenant_id as int,
    ) + ",\"user_id\":"@ + int_decimal(e.user_id as int) + ",\"username\":"@ + q.username@
        + "}"@
}

/// Assembles the canonical payload from the JSON text of its string fields.
pub fn assemble_payload(e: &OperationAuditEntry, q: &QuotedAuditText) -> (r: String)
    ensures
        r@ == payload_layout(*e, *q),
{
    let mut s = owned("{\"action\":");
    s.append(q.action.as_str());
    s.append(",\"created_at\":");
    s.append(q.created_at.as_str());
    s.append(",\"ip_address\":");
    s.append(q.ip_address.as_str());
    s.append(",\"request_id\":");
    s.append(q.request_id.as_str());
    s.append(",\"resource_id\":");
    match &q.resource_id {
        Some(x) => s.append(x.as_str()),
        None => s.append("null"),
    }
    s.append(",\"resource_type\":");
    s.append(q.resource_type.as_str());
    s.append(",\"status_code\":");
    let sc = u64_decimal(e.status_code as u64);
    s.append(sc.as_str());
    s.append(",\"success\":");
    if e.success {
        s.append("true");
    } else {
        s.append("false");
    }
    s.append(",\"tenant_id\":");
    let t = i64_decimal(e.tenant_id);
    s.append(t.as_str());
    s.append(",\"user_id\":");
    let u = i64_decimal(e.user_id);
    s.append(u.as_str());
    s.append(",\"username\":");
    s.append(q.username.as_str());
    s.append("}");
    s
}

/// Whether `q` holds the `serde_json` text of each string field of `e`.
pub open spec fn json_quoted(e: OperationAuditEntry, q: QuotedAuditText) -> bool {
    &&& q.action@ == json_string_text(e.action@)
    &&& q.created_at@ == json_string_text(e.created_at@)
    &&& q.ip_address@ == json_string_text(e.ip_address@)
    &&& q.request_id@ == json_string_text(e.request_id@)
    &&& opt_view(q.resource_id) == match e.resource_id {
        Some(x) => Some(json_string_text(x@)),
        None => None,
    }
    &&& q.resource_type@ == json_string_text(e.resource_type@)
    &&& q.username@ == json_string_text(e.username@)
}

/// The canonical payload of a record (its `log_hash` aside).
pub fn audit_payload(e: &OperationAuditEntry) -> (r: String)
    ensures
        exists|q: QuotedAuditText| json_quoted(*e, q) && r@ == payload_layout(*e, q),
{
    let q = QuotedAuditText {
        action: json_quote(e.action.as_str()),
        created_at: json_quote(e.created_at.as_str()),
        ip_address: json_quote(e.ip_address.as_str()),
        request_id: json_quote(e.request_id.as_str()),
        resource_id: match &e.resource_id {
            Some(x) => Some(json_quote(x.as_str())),
            None => None,
        },
        resource_type: json_quote(e.resource_type.as_str()),
        username: json_quote(e.username.as_str()),
    };
    let r = assemble_payload(e, &q);
    assert(json_quoted(*e, q));
    r
}

/// The audit record of a request, or none when the request is not audited:
/// reads, session endpoints, and requests without a verified operator. The
/// record takes the operator from the claims (`tid`, `uid`, `sub`), the
/// classification of the request, and `log_hash` over its canonical payload.
pub fn audit_entry(
    method: &str,
    path: &str,
    claims: Option<&AccessClaims>,
    ip: String,
    status: u16,
    created_at: String,
    request_id: String,
) -> (r: Option<OperationAuditEntry>)
    ensures
        match (classification(method@, path@), claims) {
            (Some((t, a, id)), Some(c)) => r matches Some(e) && e.resource_type@ == t && e.action@ == a
                && opt_view(e.resource_id) == id && e.tenant_id == c.tid && e.user_id == c.uid
                && e.username == c.sub && e.ip_address == ip && e.status_code == status
                && e.success == (200 <= status < 300) && e.created_at == created_at
                && e.request_id == request_id && (exists|q: QuotedAuditText|
                json_quoted(e, q) && e.log_hash@ == hex_lower(
                    sha256(encode_utf8(payload_layout(e, q))),
                )),
            _ => r is None,
        },
{
    let classified = classify(method, path);
    match (classified, claims) {
        (Some((resource_type, action, resource_id)), Some(c)) => {
            let mut e = OperationAuditEntry {
                created_at,
                tenant_id: c.tid,
                user_id: c.uid,
                username: c.sub.clone(),
                resource_type,
                resource_id,
                action: owned(action),
                request_id,
                success: 200 <= status && status < 300,
                status_code: status,
                ip_address: ip,
                log_hash: String::new(),
            };
            let payload = audit_payload(&e);
            let ghost q = choose|q: QuotedAuditText| json_quoted(e, q) && payload@ == payload_layout(e, q);
            e.log_hash = sha256_hex(payload.as_str());
            assert(json_quoted(e, q) && payload_layout(e, q) == payload@);
            Some(e)
        },
        _ => None,
    }
}


/// Reads and session endpoints are never audited: only writes elsewhere are.
pub proof fn lemma_audited_only_writes(method: Seq<char>, path: Seq<char>)
    ensures
        classification(method, path) is Some <==> (is_write(method) && !session_only(path)),
{
}

/// Session endpoints (login, logout, token refresh, captcha, MFA, password
/// reset, registration) are never audited as operations, whatever the
/// method: they are left to the login audit.
pub proof fn lemma_session_endpoints_unaudited(method: Seq<char>, path: Seq<char>)
    requires
        has_infix(path, "/login"@) || has_infix(path, "/logout"@) || has_infix(path, "/refresh-token"@)
            || has_infix(path, "/captcha"@) || has_infix(path, "/mfa"@) || has_infix(path, "/forgot-password"@)
            || has_infix(path, "/reset-password-by-code"@) || has_infix(path, "/register"@),
    ensures
        classification(method, path) is None,
{
}

/// A path that names its action: assignment, export or import.
pub open spec fn marked_action(path: Seq<char>) -> bool {
    has_infix(path, "/unassign"@) || has_infix(path, "/assign"@) || has_infix(path, "/export"@) || has_infix(
        path,
        "/import"@,
    )
}

/// Which requests are audited, and as what: only POST, PUT, PATCH and
/// DELETE outside the session endpoints; on a path without assignment,
/// export or import segments, POST is a create, PUT and PATCH an update,
/// DELETE a delete.
pub proof fn lemma_audit_actions(method: Seq<char>, path: Seq<char>)
    ensures
        classification(method, path) is Some ==> (method == "POST"@ || method == "PUT"@ || method == "PATCH"@
            || method == "DELETE"@),
        (method == "POST"@ || method == "PUT"@ || method == "PATCH"@ || method == "DELETE"@) && !(has_infix(
            path,
            "/login"@,
        ) || has_infix(path, "/logout"@) || has_infix(path, "/refresh-token"@) || has_infix(path, "/captcha"@)
            || has_infix(path, "/mfa"@) || has_infix(path, "/forgot-password"@) || has_infix(
            path,
            "/reset-password-by-code"@,
        ) || has_infix(path, "/register"@)) ==> classification(method, path) is Some,
        !marked_action(path) && method == "POST"@ && classification(method, path) is Some ==> classification(
            method,
            path,
        ).unwrap().1 == "CREATE"@,
        !marked_action(path) && (method == "PUT"@ || method == "PATCH"@) && classification(method, path) is Some
            ==> classification(method, path).unwrap().1 == "UPDATE"@,
        !marked_action(path) && method == "DELETE"@ && classification(method, path) is Some ==> classification(
            method,
            path,
        ).unwrap().1 == "DELETE"@,
{
    reveal_strlit("POST");
    reveal_strlit("PUT");
    reveal_strlit("PATCH");
    reveal_strlit("DELETE");
    assert("POST"@.len() == 4 && "PUT"@.len() == 3 && "PATCH"@.len() == 5 && "DELETE"@.len() == 6);
}

} // verus!

//! Token claims and sessions: the access/refresh claim sets (field names as in
//! Kratos `pkg/jwt`), bearer-token extraction, and the Redis key layout of
//! online sessions, session metadata and the token blacklist.

use vstd::prelude::*;
use vstd::string::*;
use crate::text::{lemma_trimmed_ends, is_ws, lemma_trim_unchanged, lemma_trim_idempotent, trim, has_prefix, trim_str, strip_prefix, int_decimal, i64_decimal, cat, cat3, owned, str_eq, views};

verus! {

/// Access token lifetime: two hours.
pub const ACCESS_TOKEN_TTL: i64 = 7200;

/// Refresh token lifetime: seven days.
pub const REFRESH_TOKEN_TTL: i64 = 604800;

/// Clock tolerance of token validation, in seconds.
pub const TOKEN_LEEWAY: u64 = 60;

pub struct AccessClaims {
    pub sub: String,
    pub uid: i64,
    pub tid: i64,
    pub cid: Option<String>,
    pub did: Option<String>,
    pub roc: Option<Vec<String>>,
    pub ipa: Option<bool>,
    pub ita: Option<bool>,
    pub iat: i64,
    pub exp: i64,
    pub jti: String,
}

pub struct RefreshClaims {
    pub uid: i64,
    pub iat: i64,
    pub exp: i64,
    pub jti: String,
}

/// The token pair issued on login.
pub struct TokenPair {
    pub access_token: String,
    pub refresh_token: String,
    pub access_jti: String,
    pub refresh_jti: String,
}

/// Metadata of one online session.
pub struct SessionMeta {
    pub jti: String,
    pub client_type: String,
    pub uid: i64,
    pub username: String,
    pub tenant_id: i64,
    pub ip: String,
    pub ua: String,
    pub dev: String,
    /// Login time (RFC 3339).
    pub login_at: String,
}

/// The claims of the access and refresh tokens issued together at `now`.
/// Both share the one `jti`; optional claims are left out when empty or false.
pub fn token_claims(
    now: i64,
    uid: i64,
    tid: i64,
    username: &str,
    client_id: Option<String>,
    device_id: Option<String>,
    role_codes: Vec<String>,
    ipa: bool,
    ita: bool,
    jti: &str,
) -> (r: (AccessClaims, RefreshClaims))
    requires
        now + REFRESH_TOKEN_TTL <= i64::MAX,
    ensures
        r.0.sub@ == username@,
        r.0.uid == uid,
        r.0.tid == tid,
        r.0.cid == client_id,
        r.0.did == device_id,
        r.0.roc == (if role_codes.len() == 0 {
            None
        } else {
            Some(role_codes)
        }),
        r.0.ipa == (if ipa {
            Some(true)
        } else {
            None
        }),
        r.0.ita == (if ita {
            Some(true)
        } else {
            None
        }),
        r.0.iat == now,
        r.0.exp == now + ACCESS_TOKEN_TTL,
        r.0.jti@ == jti@,
        r.1.uid == uid,
        r.1.iat == now,
        r.1.exp == now + REFRESH_TOKEN_TTL,
        r.1.jti@ == jti@,
{
    let roc = if role_codes.len() == 0 {
        None
    } else {
        Some(role_codes)
    };
    let access = AccessClaims {
        sub: String::from_str(username),
        uid,
        tid,
        cid: client_id,
        did: device_id,
        roc,
        ipa: if ipa {
            Some(true)
        } else {
            None
        },
        ita: if ita {
            Some(true)
        } else {
            None
        },
        iat: now,
        exp: now + ACCESS_TOKEN_TTL,
        jti: String::from_str(jti),
    };
    let refresh = RefreshClaims {
        uid,
        iat: now,
        exp: now + REFRESH_TOKEN_TTL,
        jti: String::from_str(jti),
    };
    (access, refresh)
}

/// The token of an `Authorization` header value: the trimmed text after the
/// `Bearer ` prefix of the trimmed header, when that is not empty.
pub open spec fn bearer_of(header: Option<Seq<char>>) -> Option<Seq<char>> {
    match header {
        None => None,
        Some(h) => {
            let t = trim(h);
            if has_prefix(t, "Bearer "@) {
                let tok = trim(t.subrange("Bearer "@.len() as int, t.len() as int));
                if tok.len() == 0 {
                    None
                } else {
                    Some(tok)
                }
            } else {
                None
            }
        },
    }
}

/// The bearer token of an `Authorization` header (`None` when there is none).
pub fn bearer_token(header: Option<&str>) -> (r: Option<String>)
    ensures
        match bearer_of(
            match header {
                Some(h) => Some(h@),
                None => None,
            },
        ) {
            Some(t) => r matches Some(x) && x@ == t,
            None => r is None,
        },
{
    let h = match header {
        Some(h) => trim_str(h),
        None => {
            return None;
        },
    };
    let rest = match strip_prefix(h.as_str(), "Bearer ") {
        Some(x) => x,
        None => {
            return None;
        },
    };
    let token = trim_str(rest.as_str());
    if token.unicode_len() == 0 {
        None
    } else {
        Some(token)
    }
}

/// The set of session jtis of one user on one client type.
pub fn session_key(client_type: &str, uid: i64) -> (r: String)
    ensures
        r@ == "gw:sessions:"@ + client_type@ + ":"@ + int_decimal(uid as int),
{
    let n = i64_decimal(uid);
    cat3(cat("gw:sessions:", client_type).as_str(), ":", n.as_str())
}

/// The metadata record of one session.
pub fn session_meta_key(client_type: &str, uid: i64, jti: &str) -> (r: String)
    ensures
        r@ == "gw:session:meta:"@ + client_type@ + ":"@ + int_decimal(uid as int) + ":"@ + jti@,
{
    let n = i64_decimal(uid);
    let a = cat3(cat("gw:session:meta:", client_type).as_str(), ":", n.as_str());
    cat3(a.as_str(), ":", jti)
}

/// The blacklist marker of a revoked token.
pub fn blacklist_key(jti: &str) -> (r: String)
    ensures
        r@ == "gw:bl:"@ + jti@,
{
    cat("gw:bl:", jti)
}


/// Whether `c` is a lowercase hexadecimal digit.
pub open spec fn is_lower_hex(c: char) -> bool {
    ('0' <= c && c <= '9') || ('a' <= c && c <= 'f')
}

/// A fresh session id: a random (version 4) UUID in its hyphenated lowercase
/// form.
pub open spec fn uuid_text(s: Seq<char>) -> bool {
    &&& s.len() == 36
    &&& forall|i: int| 0 <= i < 36 ==> if i == 8 || i == 13 || i == 18 || i == 23 {
        #[trigger] s[i] == '-'
    } else {
        is_lower_hex(s[i])
    }
}

/// Calls `uuid::Uuid::new_v4` and renders it with `to_string`: the
/// hyphenated form, 36 characters of lowercase hex with hyphens after the
/// 8th, 12th, 16th and 20th digits. Which UUID comes out is left open.
#[verifier::external_body]
pub fn new_jti() -> (r: String)
    ensures
        uuid_text(r@),
{
    uuid::Uuid::new_v4().to_string()
}

/// The expiry given to a blacklist marker: the token's remaining lifetime,
/// at least one second.
pub fn blacklist_ttl(ttl_secs: i64) -> (r: u64)
    ensures
        r == if ttl_secs < 1 { 1 } else { ttl_secs },
{
    if ttl_secs < 1 {
        1
    } else {
        ttl_secs as u64
    }
}

/// The session ids that revoking all sessions blacklists: every member of the
/// session set except `except_jti`, in order.
pub fn revoke_targets(members: &Vec<String>, except_jti: &str) -> (r: Vec<String>)
    ensures
        views(r@) == views(members@).filter(|m: Seq<char>| m != except_jti@),
{
    let mut out: Vec<String> = Vec::new();
    let mut i: usize = 0;
    while i < members.len()
        invariant
            i <= members.len(),
            views(out@) == views(members@).subrange(0, i as int).filter(|m: Seq<char>| m != except_jti@),
        decreases members.len() - i,
    {
        proof {
            let pre = views(members@).subrange(0, i as int);
            let nxt = views(members@).subrange(0, i + 1);
            assert(nxt.drop_last() =~= pre);
            assert(nxt.last() == members@[i as int]@);
            reveal(Seq::filter);
        }
        if !str_eq(members[i].as_str(), except_jti) {
            let ghost before = out@;
            out.push(members[i].clone());
            assert(views(out@) =~= views(before).push(members@[i as int]@));
        }
        i += 1;
    }
    assert(views(members@).subrange(0, members.len() as int) =~= views(members@));
    out
}

/// What revoking all of a user's sessions on one client writes: for each
/// revoked session id (see `revoke_targets`) a blacklist marker that lives as
/// long as a refresh token (the set mixes access and refresh ids) and the
/// deletion of its metadata record; then the deletion of the session set.
pub struct RevokeAllPlan {
    pub blacklist: Vec<(String, i64)>,
    pub delete_keys: Vec<String>,
}

pub fn revoke_all_plan(client_type: &str, uid: i64, members: &Vec<String>, except_jti: &str) -> (r: RevokeAllPlan)
    ensures
        ({
            let t = views(members@).filter(|m: Seq<char>| m != except_jti@);
            &&& r.blacklist.len() == t.len()
            &&& forall|i: int| 0 <= i < t.len() ==> (#[trigger] r.blacklist@[i]).0@ == "gw:bl:"@ + t[i]
                && r.blacklist@[i].1 == REFRESH_TOKEN_TTL
            &&& r.delete_keys.len() == t.len() + 1
            &&& forall|i: int| 0 <= i < t.len() ==> (#[trigger] r.delete_keys@[i])@ == "gw:session:meta:"@
                + client_type@ + ":"@ + int_decimal(uid as int) + ":"@ + t[i]
            &&& r.delete_keys@[t.len() as int]@ == "gw:sessions:"@ + client_type@ + ":"@ + int_decimal(uid as int)
        }),
{
    let targets = revoke_targets(members, except_jti);
    let ghost t = views(targets@);
    let mut blacklist: Vec<(String, i64)> = Vec::new();
    let mut delete_keys: Vec<String> = Vec::new();
    let mut i: usize = 0;
    while i < targets.len()
        invariant
            i <= targets.len(),
            t == views(targets@),
            blacklist.len() == i,
            delete_keys.len() == i,
            forall|j: int| 0 <= j < i ==> (#[trigger] blacklist@[j]).0@ == "gw:bl:"@ + t[j] && blacklist@[j].1
                == REFRESH_TOKEN_TTL,
            forall|j: int| 0 <= j < i ==> (#[trigger] delete_keys@[j])@ == "gw:session:meta:"@ + client_type@
                + ":"@ + int_decimal(uid as int) + ":"@ + t[j],
        decreases targets.len() - i,
    {
        assert(t[i as int] == targets@[i as int]@);
        blacklist.push((blacklist_key(targets[i].as_str()), REFRESH_TOKEN_TTL));
        delete_keys.push(session_meta_key(client_type, uid, targets[i].as_str()));
        i += 1;
    }
    delete_keys.push(session_key(client_type, uid));
    RevokeAllPlan { blacklist, delete_keys }
}

/// The tokens that forcing one session off blacklists, each with the
/// lifetime of its kind: the access token, then the refresh token if given.
pub fn session_revocations(access_jti: &str, refresh_jti: Option<&str>) -> (r: Vec<(String, i64)>)
    ensures
        match refresh_jti {
            Some(rj) => r.len() == 2 && r[1].0@ == rj@ && r[1].1 == REFRESH_TOKEN_TTL,
            None => r.len() == 1,
        },
        r.len() >= 1 && r[0].0@ == access_jti@ && r[0].1 == ACCESS_TOKEN_TTL,
{
    let mut out: Vec<(String, i64)> = Vec::new();
    out.push((owned(access_jti), ACCESS_TOKEN_TTL));
    match refresh_jti {
        Some(rj) => out.push((owned(rj), REFRESH_TOKEN_TTL)),
        None => {},
    }
    out
}


/// The token that a client sends as `Bearer <token>` is the token extracted,
/// for any token that is not empty and is its own trim.
pub proof fn lemma_bearer_roundtrip(t: Seq<char>)
    requires
        t.len() > 0,
        trim(t) == t,
    ensures
        bearer_of(Some("Bearer "@ + t)) == Some(t),
{
    lemma_trimmed_ends(t);
    reveal_strlit("Bearer ");
    let h = "Bearer "@ + t;
    assert(h[0] == 'B');
    assert(h.last() == t.last());
    lemma_trim_unchanged(h);
    assert(h.subrange(0, 7) =~= "Bearer "@);
    assert(h.subrange(7, h.len() as int) =~= t);
    lemma_trim_unchanged(t);
}

/// An extracted bearer token is never empty and has no surrounding
/// whitespace, and comes only from a header that starts with `Bearer `
/// once trimmed.
pub proof fn lemma_bearer_token_trimmed(h: Seq<char>)
    ensures
        bearer_of(Some(h)) matches Some(t) ==> t.len() > 0 && trim(t) == t && has_prefix(trim(h), "Bearer "@),
{
    let t = trim(h);
    if has_prefix(t, "Bearer "@) {
        lemma_trim_idempotent(t.subrange("Bearer "@.len() as int, t.len() as int));
    }
}

} // verus!

//! Access keys (OpenAPI credentials): AK `ak-` + 8 random bytes in hex, SK
//! `sk-` + 32 random bytes in hex; only the SHA-256 hex digest of the SK is
//! stored, and the plain SK is returned once, on create or reset. The token
//! exchange turns an AK/SK pair into a short-lived machine token.

use vstd::prelude::*;
use vstd::string::*;
use vstd::utf8::*;
use crate::auth::{AccessClaims, ACCESS_TOKEN_TTL};
use crate::crypto::{constant_time_eq, hex_encode, hex_lower, sha256, sha256_hex};
use crate::error::{AppError, is_validation};
use crate::handlers::{normalize_upper, upper_enum};
use crate::text::cat;
use crate::login_limit::{FailCounter, Policy, is_locked, failed_counts, failed_locks};

verus! {

pub struct AccessKeyDto {
    pub id: i64,
    pub name: Option<String>,
    pub access_key: Option<String>,
    /// ON | OFF
    pub status: Option<String>,
    pub expires_at: Option<String>,
    pub last_used_at: Option<String>,
    pub tenant_id: Option<i64>,
}

/// A stored access key.
pub struct AccessKeyRow {
    pub id: i64,
    pub name: Option<String>,
    pub access_key: String,
    pub secret_hash: Option<String>,
    pub status: String,
    pub expires_at: Option<String>,
    pub last_used_at: Option<String>,
    pub tenant_id: i64,
}

pub fn to_dto(r: &AccessKeyRow) -> (d: AccessKeyDto)
    ensures
        d.id == r.id,
        d.name == r.name,
        d.access_key == Some(r.access_key),
        d.status == Some(r.status),
        d.expires_at == r.expires_at,
        d.last_used_at == r.last_used_at,
        d.tenant_id == Some(r.tenant_id),
{
    AccessKeyDto {
        id: r.id,
        name: r.name.clone(),
        access_key: Some(r.access_key.clone()),
        status: Some(r.status.clone()),
        expires_at: r.expires_at.clone(),
        last_used_at: r.last_used_at.clone(),
        tenant_id: Some(r.tenant_id),
    }
}

pub struct CreateAccessKeyResponse {
    pub data: AccessKeyDto,
    pub secret: String,
}

pub struct AccessKeyData {
    pub name: Option<String>,
    pub status: Option<String>,
    pub expires_at: Option<String>,
}

pub struct CreateAccessKeyBody {
    pub data: Option<AccessKeyData>,
}

pub struct UpdateAccessKeyBody {
    pub id: Option<i64>,
    pub data: Option<AccessKeyData>,
    pub allow_missing: Option<bool>,
}

pub struct IssueTokenBody {
    pub access_key: Option<String>,
    pub secret: Option<String>,
}

pub struct IssueTokenResponse {
    pub access_token: String,
    pub expires_in: i64,
    pub token_type: String,
}

/// A present, non-empty value.
pub open spec fn filled(o: Option<String>) -> bool {
    o matches Some(x) && x@.len() > 0
}

pub open spec fn status_ok(s: Seq<char>) -> bool {
    s == "ON"@ || s == "OFF"@
}

/// Status normalisation (ON/OFF, proto enum names).
pub fn normalize_status(v: &str) -> (r: Result<String, AppError>)
    ensures
        upper_enum(r, v@, |s: Seq<char>| status_ok(s), "invalid access key status: "@),
{
    normalize_upper(v, &["ON", "OFF"], "invalid access key status: ")
}

/// `n` bytes from the thread-local random generator.
#[verifier::external_body]
fn random_bytes(n: usize) -> (r: Vec<u8>)
    ensures
        r@.len() == n,
{
    let mut buf = vec![0u8; n];
    rand::RngCore::fill_bytes(&mut rand::thread_rng(), &mut buf);
    buf
}

/// A random credential: `prefix` followed by the lowercase hex of `n_bytes`
/// random bytes.
pub fn random_token(prefix: &str, n_bytes: usize) -> (r: Result<String, AppError>)
    ensures
        r matches Ok(t) && exists|b: Seq<u8>| b.len() == n_bytes && t@ == prefix@ + hex_lower(b),
{
    let b = random_bytes(n_bytes);
    let h = hex_encode(b.as_slice());
    Ok(cat(prefix, h.as_str()))
}

/// The stored form of a secret: hex of its SHA-256 digest.
pub fn hash_secret(secret: &str) -> (r: String)
    ensures
        r@ == hex_lower(sha256(encode_utf8(secret@))),
{
    sha256_hex(secret)
}

/// The AK and SK of a token exchange, both required and non-empty.
pub fn issue_token_credentials(body: &IssueTokenBody) -> (r: Result<(String, String), AppError>)
    ensures
        match r {
            Ok((ak, sk)) => body.access_key == Some(ak) && ak@.len() > 0 && body.secret == Some(
                sk,
            ) && sk@.len() > 0,
            Err(e) => is_validation(e, "access key and secret are required"@) && !(filled(
                body.access_key,
            ) && filled(body.secret)),
        },
{
    let ak = match &body.access_key {
        Some(v) if v.unicode_len() > 0 => v.clone(),
        _ => {
            return Err(AppError::Validation(String::from_str("access key and secret are required")));
        },
    };
    let sk = match &body.secret {
        Some(v) if v.unicode_len() > 0 => v.clone(),
        _ => {
            return Err(AppError::Validation(String::from_str("access key and secret are required")));
        },
    };
    Ok((ak, sk))
}

/// The instant (seconds, nanoseconds) of an RFC 3339 timestamp.
pub uninterp spec fn rfc3339_instant(s: Seq<char>) -> Option<(i64, u32)>;

/// Calls `chrono::DateTime::parse_from_rfc3339`; the instant it denotes is
/// named `rfc3339_instant` of the text (`None` when it does not parse).
#[verifier::external_body]
fn parse_rfc3339(s: &str) -> (r: Option<(i64, u32)>)
    ensures
        r == rfc3339_instant(s@),
{
    match chrono::DateTime::parse_from_rfc3339(s) {
        Ok(t) => Some((t.timestamp(), t.timestamp_subsec_nanos())),
        Err(_) => None,
    }
}

/// Whether the instant `a` comes after the instant `b`.
pub open spec fn later(a: (i64, u32), b: (i64, u32)) -> bool {
    a.0 > b.0 || (a.0 == b.0 && a.1 > b.1)
}

/// The key has an expiry that parses and that `now` has passed.
pub open spec fn key_expired(row: AccessKeyRow, now: (i64, u32)) -> bool {
    row.expires_at matches Some(e) && rfc3339_instant(e@) matches Some(t) && later(now, t)
}

/// The secret hashes to the stored digest (an absent digest is empty).
pub open spec fn secret_matches(row: AccessKeyRow, secret: Seq<char>) -> bool {
    hex_lower(sha256(encode_utf8(secret))) == match row.secret_hash {
        Some(h) => h@,
        None => Seq::<char>::empty(),
    }
}

/// Checks a stored key against the given secret at the instant `now`:
/// disabled keys, then expired keys, then wrong secrets are refused.
pub fn check_access_key(row: &AccessKeyRow, secret: &str, now: (i64, u32)) -> (r: Result<
    (),
    AppError,
>)
    ensures
        row.status@ != "ON"@ ==> (r matches Err(e) && is_validation(e, "access key is disabled"@)),
        row.status@ == "ON"@ && key_expired(*row, now) ==> (r matches Err(e) && is_validation(
            e,
            "access key is expired"@,
        )),
        row.status@ == "ON"@ && !key_expired(*row, now) && !secret_matches(*row, secret@) ==> (
        r matches Err(e) && is_validation(e, "invalid access key or secret"@)),
        r is Ok <==> (row.status@ == "ON"@ && !key_expired(*row, now) && secret_matches(
            *row,
            secret@,
        )),
{
    if !crate::text::str_eq(row.status.as_str(), "ON") {
        return Err(AppError::Validation(String::from_str("access key is disabled")));
    }
    if let Some(exp) = &row.expires_at {
        if let Some(t) = parse_rfc3339(exp.as_str()) {
            if now.0 > t.0 || (now.0 == t.0 && now.1 > t.1) {
                return Err(AppError::Validation(String::from_str("access key is expired")));
            }
        }
    }
    let given = hash_secret(secret);
    let stored = match &row.secret_hash {
        Some(h) => h.clone(),
        None => String::new(),
    };
    let ok = constant_time_eq(given.as_str().as_bytes(), stored.as_str().as_bytes());
    proof {
        broadcast use encode_utf8_decode_utf8;

        if encode_utf8(given@) == encode_utf8(stored@) {
            assert(decode_utf8(encode_utf8(given@)) == given@);
            assert(decode_utf8(encode_utf8(stored@)) == stored@);
        }
    }
    if !ok {
        return Err(AppError::Validation(String::from_str("invalid access key or secret")));
    }
    Ok(())
}

/// The refusal of a token exchange for the key that the lookup found (none
/// for an unknown key), or none when the exchange succeeds. An unknown key
/// is answered exactly as a wrong secret.
pub open spec fn exchange_error(row: Option<AccessKeyRow>, secret: Seq<char>, now: (i64, u32)) -> Option<Seq<char>> {
    match row {
        None => Some("invalid access key or secret"@),
        Some(k) => if k.status@ != "ON"@ {
            Some("access key is disabled"@)
        } else if key_expired(k, now) {
            Some("access key is expired"@)
        } else if !secret_matches(k, secret) {
            Some("invalid access key or secret"@)
        } else {
            None
        },
    }
}

/// The answer of a token exchange to the key lookup's result.
pub fn exchange_decision(row: Option<&AccessKeyRow>, secret: &str, now: (i64, u32)) -> (r: Result<(), AppError>)
    ensures
        match exchange_error(
            match row {
                Some(k) => Some(*k),
                None => None,
            },
            secret@,
            now,
        ) {
            Some(m) => r matches Err(e) && is_validation(e, m),
            None => r is Ok,
        },
{
    match row {
        None => Err(AppError::Validation(String::from_str("invalid access key or secret"))),
        Some(k) => check_access_key(k, secret, now),
    }
}

/// An unknown key and a known, live key given the wrong secret get the same
/// answer.
pub proof fn lemma_unknown_key_like_wrong_secret(k: AccessKeyRow, secret: Seq<char>, now: (i64, u32))
    requires
        k.status@ == "ON"@,
        !key_expired(k, now),
        !secret_matches(k, secret),
    ensures
        exchange_error(None, secret, now) == exchange_error(Some(k), secret, now),
{
}

/// The limiter key of the exchange's client: the exchange has no client
/// address, so every exchange counts under `unknown`.
pub open spec fn exchange_ip() -> Seq<char> {
    "unknown"@
}

/// A token exchange against the login limiter, keyed by the access key: a
/// locked key is refused before the lookup's answer counts; an unknown key
/// or a wrong secret counts as a failure; a success clears the counters;
/// a disabled or expired key leaves them as they were.
pub fn exchange_step(
    counter: &mut FailCounter,
    ak: &str,
    row: Option<&AccessKeyRow>,
    secret: &str,
    now: (i64, u32),
    policy: &Policy,
) -> (r: Result<(), AppError>)
    ensures
        ({
            let err = exchange_error(
                match row {
                    Some(k) => Some(*k),
                    None => None,
                },
                secret@,
                now,
            );
            if is_locked(old(counter).locks@, exchange_ip(), ak@, now.0) {
                &&& r matches Err(e) && is_validation(e, "too many attempts, try again later"@)
                &&& final(counter).counts@ == old(counter).counts@
                &&& final(counter).locks@ == old(counter).locks@
            } else {
                match err {
                    Some(m) => {
                        &&& r matches Err(e) && is_validation(e, m)
                        &&& m == "invalid access key or secret"@ ==> final(counter).counts@ == failed_counts(
                            old(counter).counts@,
                            exchange_ip(),
                            ak@,
                        ) && final(counter).locks@ == failed_locks(
                            old(counter).counts@,
                            old(counter).locks@,
                            exchange_ip(),
                            ak@,
                            *policy,
                            now.0,
                        )
                        &&& m != "invalid access key or secret"@ ==> final(counter).counts@ == old(
                            counter,
                        ).counts@ && final(counter).locks@ == old(counter).locks@
                    },
                    None => {
                        &&& r is Ok
                        &&& final(counter).counts@ == old(counter).counts@.remove(
                            "gw:loginfail:ip:"@ + exchange_ip(),
                        ).remove("gw:loginfail:user:"@ + ak@)
                        &&& final(counter).locks@ == old(counter).locks@.remove(
                            "gw:lock:ip:"@ + exchange_ip(),
                        ).remove("gw:lock:user:"@ + ak@)
                    },
                }
            }
        }),
{
    proof {
        reveal_strlit("unknown");
        reveal_strlit("invalid access key or secret");
        reveal_strlit("access key is disabled");
        reveal_strlit("access key is expired");
    }
    let ip = "unknown";
    if counter.check_locked(ip, ak, now.0).is_some() {
        return Err(AppError::Validation(String::from_str("too many attempts, try again later")));
    }
    let d = exchange_decision(row, secret, now);
    match d {
        Ok(()) => {
            counter.reset(ip, ak);
            Ok(())
        },
        Err(e) => {
            let counts = match &e {
                AppError::Validation(m) => crate::text::str_eq(m.as_str(), "invalid access key or secret"),
                _ => false,
            };
            if counts {
                counter.record_failed(ip, ak, policy, now.0);
            }
            Err(e)
        },
    }
}

/// The claims of the machine token for a key: subject `ak:{AK}`, no user
/// (uid 0), the key's tenant, client `admin`, the single role `machine`.
pub fn machine_claims(ak: &str, tenant_id: i64, now: i64, jti: &str) -> (c: AccessClaims)
    requires
        now + ACCESS_TOKEN_TTL <= i64::MAX,
    ensures
        c.sub@ == "ak:"@ + ak@,
        c.uid == 0,
        c.tid == tenant_id,
        c.cid matches Some(x) && x@ == "admin"@,
        c.did is None,
        c.roc matches Some(v) && v@.len() == 1 && v@[0]@ == "machine"@,
        c.ipa == Some(false),
        c.ita == Some(false),
        c.iat == now,
        c.exp == now + ACCESS_TOKEN_TTL,
        c.jti@ == jti@,
{
    let mut roles: Vec<String> = Vec::new();
    roles.push(String::from_str("machine"));
    AccessClaims {
        sub: cat("ak:", ak),
        uid: 0,
        tid: tenant_id,
        cid: Some(String::from_str("admin")),
        did: None,
        roc: Some(roles),
        ipa: Some(false),
        ita: Some(false),
        iat: now,
        exp: now + ACCESS_TOKEN_TTL,
        jti: String::from_str(jti),
    }
}

/// The response of a successful token exchange.
pub fn issue_token_response(token: String) -> (r: IssueTokenResponse)
    ensures
        r.access_token == token,
        r.expires_in == ACCESS_TOKEN_TTL,
        r.token_type@ == "bearer"@,
{
    IssueTokenResponse { access_token: token, expires_in: ACCESS_TOKEN_TTL, token_type: String::from_str("bearer") }
}


/// The secret that a key was issued with is the one that checks out: its
/// stored digest is the SHA-256 hex that `hash_secret` gives for it.
pub proof fn lemma_issued_secret_matches(row: AccessKeyRow, secret: Seq<char>)
    requires
        row.secret_hash matches Some(h) && h@ == hex_lower(sha256(encode_utf8(secret))),
    ensures
        secret_matches(row, secret),
{
}

} // verus!

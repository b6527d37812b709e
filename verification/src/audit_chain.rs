//! Audit records of the request audit layer and their hash chain: each
//! record's hash is the SHA-256 of the previous hash followed by the record's
//! canonical payload.

use vstd::prelude::*;
use vstd::string::*;
use vstd::utf8::*;
use std::sync::Arc;
use std::sync::Mutex;
use crate::crypto::{hex_lower, sha256, sha256_hex};
use crate::text::cat;

verus! {

/// `std::sync::Mutex`, carried as an opaque value.
#[verifier::external_type_specification]
#[verifier::external_body]
#[verifier::reject_recursive_types(T)]
pub struct ExMutex<T: ?Sized>(Mutex<T>);

/// The tail of the hash chain, shared between requests.
pub struct AtomicMethodName(pub Mutex<String>);

/// One audit record of a request.
pub struct AuditRecord {
    pub action: String,
    pub module: String,
    pub uri: String,
    pub method: String,
    pub status: u16,
    pub operator_id: Option<i64>,
    pub tenant_id: Option<i64>,
    pub ip: String,
    pub user_agent: String,
    pub request_snippet: Option<String>,
    pub prev_hash: Arc<AtomicMethodName>,
    pub timestamp_ms: u64,
}

/// Geographic lookup of a client address; no lookup source is configured,
/// so nothing is resolved.
pub struct GeoResolver;

impl GeoResolver {
    pub fn resolve(_ip: &str) -> (r: Option<String>)
        ensures
            r is None,
    {
        None
    }
}

/// Device lookup of a user agent; no parser is configured, so nothing is
/// resolved.
pub struct DeviceResolver;

impl DeviceResolver {
    pub fn resolve(_ua: &str) -> (r: Option<String>)
        ensures
            r is None,
    {
        None
    }
}

/// The chained hash of a record: lowercase hex SHA-256 of the previous hash
/// followed by the canonical payload.
pub fn sign(prev_hash: &str, payload: &str) -> (r: String)
    ensures
        r@ == hex_lower(sha256(encode_utf8(prev_hash@ + payload@))),
        r@.len() == 64,
{
    let data = cat(prev_hash, payload);
    sha256_hex(data.as_str())
}

} // verus!

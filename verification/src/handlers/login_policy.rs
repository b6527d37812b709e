//! Login policies: a BLACKLIST/WHITELIST rule on one of IP (address or
//! CIDR), MAC, REGION, TIME (an HH:MM-HH:MM window) or DEVICE, with a value
//! checked against its method.

use vstd::prelude::*;
use vstd::string::*;
use vstd::utf8::*;
use crate::error::{AppError, is_validation};
use crate::handlers::{normalize_upper, upper_enum, words_contain};
use crate::text::{
    ascii_upper, trim, trim_str, split_char, split_char_str, views, parse_u32, parse_u8,
    parse_unsigned_spec, unsigned_decimal, all_digits, lemma_digits_value_nonneg, str_eq, cat, cat3, chars_of, slice_string, first_index, lemma_first_index,
};

verus! {

pub struct LoginPolicyDto {
    pub id: i64,
    pub target_id: Option<i64>,
    /// BLACKLIST | WHITELIST
    pub type_: Option<String>,
    /// IP | MAC | REGION | TIME | DEVICE
    pub method: Option<String>,
    pub value: Option<String>,
    pub reason: Option<String>,
    pub tenant_id: Option<i64>,
    pub tenant_name: Option<String>,
    pub created_by: Option<i64>,
    pub updated_by: Option<i64>,
    pub deleted_by: Option<i64>,
    pub created_at: Option<String>,
    pub updated_at: Option<String>,
    pub deleted_at: Option<String>,
}

pub struct LoginPolicyData {
    pub target_id: Option<i64>,
    pub type_: Option<String>,
    pub method: Option<String>,
    pub value: Option<String>,
    pub reason: Option<String>,
    pub tenant_id: Option<i64>,
}

pub struct CreateLoginPolicyBody {
    pub data: Option<LoginPolicyData>,
}

pub struct UpdateLoginPolicyBody {
    pub id: Option<i64>,
    pub data: Option<LoginPolicyData>,
    pub allow_missing: Option<bool>,
}

/// A stored login policy.
pub struct LoginPolicyRow {
    pub id: i64,
    pub target_id: Option<i64>,
    pub value: Option<String>,
    pub reason: Option<String>,
    pub type_: Option<String>,
    pub method: Option<String>,
    pub tenant_id: Option<i64>,
    pub tenant_name: Option<String>,
    pub created_by: Option<i64>,
    pub updated_by: Option<i64>,
    pub deleted_by: Option<i64>,
    pub created_at: Option<String>,
    pub updated_at: Option<String>,
    pub deleted_at: Option<String>,
}

pub fn to_dto(row: &LoginPolicyRow) -> (d: LoginPolicyDto)
    ensures
        d.id == row.id,
        d.target_id == row.target_id,
        d.value == row.value,
        d.reason == row.reason,
        d.type_ == row.type_,
        d.method == row.method,
        d.tenant_id == row.tenant_id,
        d.tenant_name == row.tenant_name,
        d.created_by == row.created_by,
        d.updated_by == row.updated_by,
        d.deleted_by == row.deleted_by,
        d.created_at == row.created_at,
        d.updated_at == row.updated_at,
        d.deleted_at == row.deleted_at,
{
    LoginPolicyDto {
        id: row.id,
        target_id: row.target_id,
        value: row.value.clone(),
        reason: row.reason.clone(),
        type_: row.type_.clone(),
        method: row.method.clone(),
        tenant_id: row.tenant_id,
        tenant_name: row.tenant_name.clone(),
        created_by: row.created_by,
        updated_by: row.updated_by,
        deleted_by: row.deleted_by,
        created_at: row.created_at.clone(),
        updated_at: row.updated_at.clone(),
        deleted_at: row.deleted_at.clone(),
    }
}


pub open spec fn type_ok(u: Seq<char>) -> bool {
    u == "BLACKLIST"@ || u == "WHITELIST"@
}

pub open spec fn method_ok(u: Seq<char>) -> bool {
    u == "IP"@ || u == "MAC"@ || u == "REGION"@ || u == "TIME"@ || u == "DEVICE"@
}

pub fn normalize_type(v: &str) -> (r: Result<String, AppError>)
    ensures
        upper_enum(r, v@, |u: Seq<char>| type_ok(u), "invalid login policy type: "@),
{
    normalize_upper(v, &["BLACKLIST", "WHITELIST"], "invalid login policy type: ")
}

pub fn normalize_method(v: &str) -> (r: Result<String, AppError>)
    ensures
        upper_enum(r, v@, |u: Seq<char>| method_ok(u), "invalid login policy method: "@),
{
    normalize_upper(v, &["IP", "MAC", "REGION", "TIME", "DEVICE"], "invalid login policy method: ")
}

/// `HH:MM` with each part trimmed: hours at most 23, minutes at most 59.
pub open spec fn hhmm(s: Seq<char>) -> Option<(u32, u32)> {
    let parts = split_char(s, ':');
    if parts.len() != 2 {
        None
    } else {
        match (
            parse_unsigned_spec(trim(parts[0]), u32::MAX as int),
            parse_unsigned_spec(trim(parts[1]), u32::MAX as int),
        ) {
            (Some(h), Some(m)) => if h <= 23 && m <= 59 {
                Some((h as u32, m as u32))
            } else {
                None
            },
            _ => None,
        }
    }
}

pub fn parse_hhmm(s: &str) -> (r: Option<(u32, u32)>)
    ensures
        r == hhmm(s@),
        r matches Some((h, m)) ==> h <= 23 && m <= 59,
{
    let parts = split_char_str(s, ':');
    proof {
        crate::text::lemma_split_nonempty(s@, ':');
    }
    if parts.len() != 2 {
        return None;
    }
    let h = parse_u32(trim_str(parts[0].as_str()).as_str());
    let m = parse_u32(trim_str(parts[1].as_str()).as_str());
    match (h, m) {
        (Some(hv), Some(mv)) => if hv <= 23 && mv <= 59 {
            Some((hv, mv))
        } else {
            None
        },
        _ => None,
    }
}

/// The IP version (4 or 6) of a textual IP address; `None` when it is none.
pub uninterp spec fn ip_version(s: Seq<char>) -> Option<u8>;

/// Calls `<core::net::IpAddr as FromStr>::from_str`; its outcome (4, 6 or not
/// an address) is named `ip_version` of the text (the address grammar is not
/// restated here).
#[verifier::external_body]
fn parse_ip(s: &str) -> (r: Option<u8>)
    ensures
        r == ip_version(s@),
{
    match s.parse::<core::net::IpAddr>() {
        Ok(core::net::IpAddr::V4(_)) => Some(4),
        Ok(core::net::IpAddr::V6(_)) => Some(6),
        Err(_) => None,
    }
}

/// Whether a CIDR `ip/prefix` is valid: the address parses and the prefix is
/// a number no larger than the address width (32 or 128).
pub open spec fn cidr_ok(v: Seq<char>) -> bool {
    let i = first_index(v, '/');
    let ip = trim(v.subrange(0, i));
    let prefix = trim(v.subrange(i + 1, v.len() as int));
    match ip_version(ip) {
        Some(k) => match parse_unsigned_spec(prefix, u8::MAX as int) {
            Some(n) => n <= if k == 4 {
                32int
            } else {
                128int
            },
            None => false,
        },
        None => false,
    }
}

/// The error message (if any) of checking the trimmed value `v` of a policy
/// with method `method`.
pub open spec fn value_error(method: Seq<char>, raw: Seq<char>) -> Option<Seq<char>> {
    let v = trim(raw);
    if v.len() == 0 {
        Some("policy value is empty"@)
    } else if method == "IP"@ {
        if v.contains('/') {
            if cidr_ok(v) {
                None
            } else {
                Some("invalid CIDR: "@ + v)
            }
        } else if ip_version(v) is None {
            Some("invalid IP: "@ + v)
        } else {
            None
        }
    } else if method == "TIME"@ {
        let parts = split_char(v, '-');
        if parts.len() != 2 {
            Some("time window must be HH:MM-HH:MM"@)
        } else {
            match (hhmm(parts[0]), hhmm(parts[1])) {
                (Some(a), Some(b)) => if a.0 * 60 + a.1 == b.0 * 60 + b.1 {
                    Some("time window start equals end: "@ + v)
                } else {
                    None
                },
                _ => Some("invalid time format: "@ + v),
            }
        }
    } else if method == "DEVICE"@ || method == "MAC"@ {
        if encode_utf8(v).len() > 128 {
            Some("value too long"@)
        } else {
            None
        }
    } else if method == "REGION"@ {
        if encode_utf8(v).len() > 32 {
            Some("region code too long"@)
        } else {
            None
        }
    } else {
        Some("unknown policy method: "@ + method)
    }
}

fn check_cidr(value: &str) -> (r: bool)
    requires
        value@.contains('/'),
    ensures
        r == cidr_ok(value@),
{
    let v = chars_of(value);
    let mut i: usize = 0;
    while i < v.len() && v[i] != '/'
        invariant
            v@ == value@,
            i <= v.len(),
            forall|j: int| 0 <= j < i ==> v@[j] != '/',
        decreases v.len() - i,
    {
        i += 1;
    }
    if i == v.len() {
        return false;
    }
    proof {
        lemma_first_index(value@, '/', i as int);
    }
    let ip = trim_str(slice_string(&v, 0, i).as_str());
    let prefix = trim_str(slice_string(&v, i + 1, v.len()).as_str());
    match parse_ip(ip.as_str()) {
        Some(k) => match parse_u8(prefix.as_str()) {
            Some(n) => {
                let max: u8 = if k == 4 {
                    32
                } else {
                    128
                };
                n <= max
            },
            None => false,
        },
        None => false,
    }
}

/// Checks the value of a policy against its (normalised) method.
pub fn validate_value(method: &str, raw: &str) -> (r: Result<(), AppError>)
    ensures
        match value_error(method@, raw@) {
            Some(m) => r matches Err(e) && is_validation(e, m),
            None => r is Ok,
        },
{
    let value = trim_str(raw);
    let vs = value.as_str();
    if value.unicode_len() == 0 {
        return Err(AppError::Validation(String::from_str("policy value is empty")));
    }
    if str_eq(method, "IP") {
        if crate::text::contains_char(vs, '/') {
            if check_cidr(vs) {
                return Ok(());
            }
            return Err(AppError::Validation(cat("invalid CIDR: ", vs)));
        }
        if parse_ip(vs).is_none() {
            return Err(AppError::Validation(cat("invalid IP: ", vs)));
        }
        Ok(())
    } else if str_eq(method, "TIME") {
        let parts = split_char_str(vs, '-');
        if parts.len() != 2 {
            return Err(AppError::Validation(String::from_str("time window must be HH:MM-HH:MM")));
        }
        let a = parse_hhmm(parts[0].as_str());
        let b = parse_hhmm(parts[1].as_str());
        match (a, b) {
            (Some((h1, m1)), Some((h2, m2))) => {
                if h1 * 60 + m1 == h2 * 60 + m2 {
                    return Err(AppError::Validation(cat("time window start equals end: ", vs)));
                }
                Ok(())
            },
            _ => Err(AppError::Validation(cat("invalid time format: ", vs))),
        }
    } else if str_eq(method, "DEVICE") || str_eq(method, "MAC") {
        if vs.as_bytes().len() > 128 {
            return Err(AppError::Validation(String::from_str("value too long")));
        }
        Ok(())
    } else if str_eq(method, "REGION") {
        if vs.as_bytes().len() > 32 {
            return Err(AppError::Validation(String::from_str("region code too long")));
        }
        Ok(())
    } else {
        Err(AppError::Validation(cat("unknown policy method: ", method)))
    }
}

/// The method a value is checked against: the normalised one, or the
/// unspecified method when absent.
pub open spec fn method_for_check(data: LoginPolicyData) -> Seq<char> {
    match data.method {
        Some(m) => ascii_upper(m@),
        None => "LOGIN_RESTRICTION_METHOD_UNSPECIFIED"@,
    }
}

pub open spec fn accepted(v: Option<String>, ok: spec_fn(Seq<char>) -> bool) -> bool {
    v matches Some(x) ==> ok(ascii_upper(x@))
}

pub open spec fn value_text(data: LoginPolicyData) -> Seq<char> {
    match data.value {
        Some(v) => v@,
        None => Seq::<char>::empty(),
    }
}

/// The error of validating policy data, if any: type and method must be known
/// when given, then the value must suit the method.
pub open spec fn validation_error(data: LoginPolicyData) -> Option<Seq<char>> {
    if !accepted(data.type_, |u: Seq<char>| type_ok(u)) {
        Some("invalid login policy type: "@ + data.type_.unwrap()@)
    } else if !accepted(data.method, |u: Seq<char>| method_ok(u)) {
        Some("invalid login policy method: "@ + data.method.unwrap()@)
    } else {
        value_error(method_for_check(data), value_text(data))
    }
}

/// `r` is the outcome of validating `data`.
pub open spec fn validated(data: LoginPolicyData, r: Result<(), AppError>) -> bool {
    match validation_error(data) {
        Some(m) => r matches Err(e) && is_validation(e, m),
        None => r is Ok,
    }
}

pub fn validate_data(data: &LoginPolicyData) -> (r: Result<(), AppError>)
    ensures
        validated(*data, r),
{
    if let Some(t) = &data.type_ {
        normalize_type(t.as_str())?;
    }
    let method = match &data.method {
        Some(m) => normalize_method(m.as_str())?,
        None => String::from_str("LOGIN_RESTRICTION_METHOD_UNSPECIFIED"),
    };
    let value = match &data.value {
        Some(v) => v.clone(),
        None => String::new(),
    };
    validate_value(method.as_str(), value.as_str())
}

/// The type and method of a create: type defaults to BLACKLIST; a method is
/// required.
pub fn resolve_create_fields(data: &LoginPolicyData) -> (r: Result<(String, String), AppError>)
    ensures
        match data.type_ {
            Some(t) if !type_ok(ascii_upper(t@)) => r matches Err(e) && is_validation(
                e,
                "invalid login policy type: "@ + t@,
            ),
            _ => match data.method {
                None => r matches Err(e) && is_validation(
                    e,
                    "unknown policy method: LOGIN_RESTRICTION_METHOD_UNSPECIFIED"@,
                ),
                Some(m) => if method_ok(ascii_upper(m@)) {
                    r matches Ok((ty, me)) && ty@ == match data.type_ {
                        Some(t) => ascii_upper(t@),
                        None => "BLACKLIST"@,
                    } && me@ == ascii_upper(m@)
                } else {
                    r matches Err(e) && is_validation(e, "invalid login policy method: "@ + m@)
                },
            },
        },
{
    let type_ = match &data.type_ {
        Some(t) => normalize_type(t.as_str())?,
        None => String::from_str("BLACKLIST"),
    };
    let method = match &data.method {
        Some(m) => normalize_method(m.as_str())?,
        None => {
            return Err(
                AppError::Validation(
                    String::from_str("unknown policy method: LOGIN_RESTRICTION_METHOD_UNSPECIFIED"),
                ),
            );
        },
    };
    Ok((type_, method))
}

/// The trimmed value of a create: required and not blank.
pub fn create_value(data: &LoginPolicyData) -> (r: Result<String, AppError>)
    ensures
        match data.value {
            Some(v) if trim(v@).len() > 0 => r matches Ok(t) && t@ == trim(v@),
            _ => r matches Err(e) && is_validation(e, "policy value is empty"@),
        },
{
    match &data.value {
        Some(v) => {
            let t = trim_str(v.as_str());
            if t.unicode_len() > 0 {
                Ok(t)
            } else {
                Err(AppError::Validation(String::from_str("policy value is empty")))
            }
        },
        None => Err(AppError::Validation(String::from_str("policy value is empty"))),
    }
}

/// The conflict error of a duplicate (tenant, target, type, method) policy.
pub fn policy_conflict(type_: &str, method: &str) -> (r: AppError)
    ensures
        r matches AppError::Conflict(m) && m@ == "login policy already exists: type="@ + type_@
            + " method="@ + method@,
{
    AppError::Conflict(cat3(cat("login policy already exists: type=", type_).as_str(), " method=", method))
}

/// The upper-cased view of an optional value.
pub open spec fn upper_opt(o: Option<String>) -> Option<Seq<char>> {
    match o {
        Some(x) => Some(ascii_upper(x@)),
        None => None,
    }
}

/// The view of an optional string.
pub open spec fn view_opt(o: Option<String>) -> Option<Seq<char>> {
    match o {
        Some(x) => Some(x@),
        None => None,
    }
}

/// The error of an update's checks, if any: the whole data is validated when
/// a method or a value is given; each given type and method must be known.
pub open spec fn update_error(data: LoginPolicyData) -> Option<Seq<char>> {
    if (data.method is Some || data.value is Some) && validation_error(data) is Some {
        validation_error(data)
    } else if !accepted(data.type_, |u: Seq<char>| type_ok(u)) {
        Some("invalid login policy type: "@ + data.type_.unwrap()@)
    } else if !accepted(data.method, |u: Seq<char>| method_ok(u)) {
        Some("invalid login policy method: "@ + data.method.unwrap()@)
    } else {
        None
    }
}

/// The type and method that an update writes, each normalised when given.
pub fn update_fields(data: &LoginPolicyData) -> (r: Result<(Option<String>, Option<String>), AppError>)
    ensures
        match update_error(*data) {
            Some(m) => r matches Err(e) && is_validation(e, m),
            None => r matches Ok((t, me)) && view_opt(t) == upper_opt(data.type_) && view_opt(me)
                == upper_opt(data.method),
        },
{
    if data.method.is_some() || data.value.is_some() {
        validate_data(data)?;
    }
    let type_ = match &data.type_ {
        Some(t) => Some(normalize_type(t.as_str())?),
        None => None,
    };
    let method = match &data.method {
        Some(m) => Some(normalize_method(m.as_str())?),
        None => None,
    };
    Ok((type_, method))
}

/// The type under which an updated policy is checked for duplicates: the new
/// type, else the stored one, else empty.
pub fn conflict_type_key(type_: &Option<String>, stored: &Option<String>) -> (r: String)
    ensures
        r@ == match type_ {
            Some(t) => t@,
            None => match stored {
                Some(s) => s@,
                None => Seq::<char>::empty(),
            },
        },
{
    match type_ {
        Some(t) => t.clone(),
        None => match stored {
            Some(s) => s.clone(),
            None => String::new(),
        },
    }
}

/// The target under which an updated policy is checked for duplicates: the
/// new target, else the stored one.
pub fn conflict_target(target_id: Option<i64>, stored: Option<i64>) -> (r: Option<i64>)
    ensures
        r == match target_id {
            Some(t) => Some(t),
            None => stored,
        },
{
    match target_id {
        Some(t) => Some(t),
        None => stored,
    }
}

proof fn lemma_unsigned_nonneg(s: Seq<char>)
    ensures
        unsigned_decimal(s) matches Some(v) ==> v >= 0,
{
    if s.len() > 0 && s[0] == '+' {
        let d = s.drop_first();
        if d.len() > 0 && all_digits(d) {
            lemma_digits_value_nonneg(d);
        }
    } else if s.len() > 0 && all_digits(s) {
        lemma_digits_value_nonneg(s);
    }
}

proof fn lemma_hhmm_bounds(s: Seq<char>)
    ensures
        hhmm(s) matches Some(a) ==> a.0 <= 23 && a.1 <= 59,
{
    let parts = split_char(s, ':');
    if parts.len() == 2 {
        lemma_unsigned_nonneg(trim(parts[0]));
        lemma_unsigned_nonneg(trim(parts[1]));
    }
}

/// A time window of two valid `HH:MM` times is refused only when its start
/// and end are the same time; a window whose start is later than its end
/// (one that runs past midnight) is accepted like any other.
pub proof fn lemma_time_window(raw: Seq<char>, a: (u32, u32), b: (u32, u32))
    requires
        trim(raw).len() > 0,
        split_char(trim(raw), '-').len() == 2,
        hhmm(split_char(trim(raw), '-')[0]) == Some(a),
        hhmm(split_char(trim(raw), '-')[1]) == Some(b),
    ensures
        value_error("TIME"@, raw) is None <==> a != b,
        a.0 * 60 + a.1 > b.0 * 60 + b.1 ==> value_error("TIME"@, raw) is None,
{
    reveal_strlit("TIME");
    reveal_strlit("IP");
    assert("TIME"@.len() == 4 && "IP"@.len() == 2);
    lemma_hhmm_bounds(split_char(trim(raw), '-')[0]);
    lemma_hhmm_bounds(split_char(trim(raw), '-')[1]);
    assert(a.0 <= 23 && a.1 <= 59 && b.0 <= 23 && b.1 <= 59);
    if a.0 * 60 + a.1 == b.0 * 60 + b.1 {
        assert(a.0 == b.0);
        assert(a == b);
    }
}

/// A TIME value that is not two `-`-separated valid `HH:MM` times is
/// refused; two valid, different times are accepted.
pub proof fn lemma_time_value_shape(raw: Seq<char>)
    requires
        trim(raw).len() > 0,
    ensures
        split_char(trim(raw), '-').len() != 2 ==> value_error("TIME"@, raw) is Some,
        split_char(trim(raw), '-').len() == 2 && (hhmm(split_char(trim(raw), '-')[0]) is None || hhmm(
            split_char(trim(raw), '-')[1],
        ) is None) ==> value_error("TIME"@, raw) is Some,
{
    reveal_strlit("TIME");
    reveal_strlit("IP");
    assert("TIME"@.len() == 4 && "IP"@.len() == 2);
}

} // verus!

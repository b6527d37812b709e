//! Organisational units: the checks of their name, code, type and status,
//! their uniqueness conflicts, and the order of a listing (by sort order,
//! roots only). Units carry coordinates as floating-point numbers, so their
//! full records stay outside the library; it reads the fields below.

use vstd::prelude::*;
use vstd::string::*;
use crate::error::{AppError, is_validation};
use crate::handlers::upsert::Upsert;
use crate::handlers::{blank, is_blank, normalize_upper, trimmed, trimmed_or_empty, upper_enum};
use crate::text::{ascii_upper, trim, trim_str, cat, to_ascii_upper};

verus! {

/// The fields of an org unit request that the checks read.
pub struct OrgUnitFields {
    pub name: Option<String>,
    pub code: Option<String>,
    pub type_: Option<String>,
    pub status: Option<String>,
    pub tenant_id: Option<i64>,
}

pub open spec fn status_ok(u: Seq<char>) -> bool {
    u == "ON"@ || u == "OFF"@
}

pub open spec fn type_ok(u: Seq<char>) -> bool {
    u == "COMPANY"@ || u == "DIVISION"@ || u == "DEPARTMENT"@ || u == "TEAM"@ || u == "PROJECT"@
        || u == "COMMITTEE"@ || u == "REGION"@ || u == "SUBSIDIARY"@ || u == "BRANCH"@ || u
        == "OTHER"@
}

pub fn normalize_status(v: &str) -> (r: Result<String, AppError>)
    ensures
        upper_enum(r, v@, |u: Seq<char>| status_ok(u), "invalid org unit status: "@),
{
    normalize_upper(v, &["ON", "OFF"], "invalid org unit status: ")
}

pub fn normalize_type(v: &str) -> (r: Result<String, AppError>)
    ensures
        upper_enum(r, v@, |u: Seq<char>| type_ok(u), "invalid org unit type: "@),
{
    normalize_upper(
        v,
        &["COMPANY", "DIVISION", "DEPARTMENT", "TEAM", "PROJECT", "COMMITTEE", "REGION", "SUBSIDIARY", "BRANCH", "OTHER"],
        "invalid org unit type: ",
    )
}

/// The error of validating org unit data, if any: a name that is not blank
/// is required, and a given status and type must be known.
pub open spec fn validation_error(f: OrgUnitFields) -> Option<Seq<char>> {
    if blank(f.name) {
        Some("org unit name is required"@)
    } else if f.status matches Some(s) && !status_ok(ascii_upper(s@)) {
        Some("invalid org unit status: "@ + f.status.unwrap()@)
    } else if f.type_ matches Some(t) && !type_ok(ascii_upper(t@)) {
        Some("invalid org unit type: "@ + f.type_.unwrap()@)
    } else {
        None
    }
}

pub fn validate_data(f: &OrgUnitFields) -> (r: Result<(), AppError>)
    ensures
        match validation_error(*f) {
            Some(m) => r matches Err(e) && is_validation(e, m),
            None => r is Ok,
        },
{
    if is_blank(&f.name) {
        return Err(AppError::Validation(String::from_str("org unit name is required")));
    }
    if let Some(s) = &f.status {
        normalize_status(s.as_str())?;
    }
    if let Some(t) = &f.type_ {
        normalize_type(t.as_str())?;
    }
    Ok(())
}

pub open spec fn view_opt(o: Option<String>) -> Option<Seq<char>> {
    match o {
        Some(x) => Some(x@),
        None => None,
    }
}

pub open spec fn upper_opt(o: Option<String>) -> Option<Seq<char>> {
    match o {
        Some(x) => Some(ascii_upper(x@)),
        None => None,
    }
}

pub open spec fn trim_opt(o: Option<String>) -> Option<Seq<char>> {
    match o {
        Some(x) => Some(trim(x@)),
        None => None,
    }
}

/// A code to check for uniqueness: one that is given and not blank, trimmed.
pub open spec fn code_to_check(o: Option<String>) -> Option<Seq<char>> {
    match o {
        Some(x) => if trim(x@).len() > 0 {
            Some(trim(x@))
        } else {
            None
        },
        None => None,
    }
}

/// What a create or an update writes and checks.
pub struct OrgUnitValues {
    /// The trimmed name (required on create; given on update).
    pub name: Option<String>,
    /// The trimmed code (given on update; stored as given on create).
    pub code: Option<String>,
    /// The code to check for uniqueness.
    pub code_check: Option<String>,
    pub status: Option<String>,
    pub type_: Option<String>,
    pub tenant_id: Option<i64>,
}

fn upper_of(o: &Option<String>) -> (r: Option<String>)
    ensures
        view_opt(r) == upper_opt(*o),
{
    match o {
        Some(x) => Some(to_ascii_upper(x.as_str())),
        None => None,
    }
}

fn trim_of(o: &Option<String>) -> (r: Option<String>)
    ensures
        view_opt(r) == trim_opt(*o),
{
    match o {
        Some(x) => Some(trim_str(x.as_str())),
        None => None,
    }
}

fn check_of(o: &Option<String>) -> (r: Option<String>)
    ensures
        view_opt(r) == code_to_check(*o),
{
    match o {
        Some(x) => {
            let t = trim_str(x.as_str());
            if t.unicode_len() > 0 {
                Some(t)
            } else {
                None
            }
        },
        None => None,
    }
}

/// The values of a new unit: the data is valid; the trimmed name; the code
/// as given and the trimmed code to check; the tenant given, else the
/// operator's when it is a real one; the normalised status and type.
pub fn create_values(f: &OrgUnitFields, operator_tenant: i64) -> (r: Result<OrgUnitValues, AppError>)
    ensures
        match validation_error(*f) {
            Some(m) => r matches Err(e) && is_validation(e, m),
            None => r matches Ok(v) && view_opt(v.name) == Some(trimmed_or_empty(f.name)) && view_opt(
                v.code,
            ) == view_opt(f.code) && view_opt(v.code_check) == code_to_check(f.code) && v.tenant_id
                == match f.tenant_id {
                Some(t) => Some(t),
                None => if operator_tenant > 0 {
                    Some(operator_tenant)
                } else {
                    None
                },
            } && view_opt(v.status) == upper_opt(f.status) && view_opt(v.type_) == upper_opt(f.type_),
        },
{
    validate_data(f)?;
    Ok(
        OrgUnitValues {
            name: Some(trimmed(&f.name)),
            code: match &f.code {
                Some(c) => Some(c.clone()),
                None => None,
            },
            code_check: check_of(&f.code),
            status: upper_of(&f.status),
            type_: upper_of(&f.type_),
            tenant_id: crate::handlers::tenant_or_operator(f.tenant_id, operator_tenant),
        },
    )
}

/// The values of an update: when a name or a code is given the data is
/// validated and both are trimmed; a given status and type must be known;
/// absent fields are kept (the tenant is never changed).
pub fn update_values(f: &OrgUnitFields) -> (r: Result<OrgUnitValues, AppError>)
    ensures
        ({
            let err = if (f.name is Some || f.code is Some) && validation_error(*f) is Some {
                validation_error(*f)
            } else if f.status matches Some(s) && !status_ok(ascii_upper(s@)) {
                Some("invalid org unit status: "@ + f.status.unwrap()@)
            } else if f.type_ matches Some(t) && !type_ok(ascii_upper(t@)) {
                Some("invalid org unit type: "@ + f.type_.unwrap()@)
            } else {
                None
            };
            match err {
                Some(m) => r matches Err(e) && is_validation(e, m),
                None => r matches Ok(v) && view_opt(v.name) == trim_opt(f.name) && view_opt(v.code)
                    == trim_opt(f.code) && view_opt(v.code_check) == code_to_check(f.code)
                    && v.tenant_id is None && view_opt(v.status) == upper_opt(f.status) && view_opt(
                    v.type_,
                ) == upper_opt(f.type_),
            }
        }),
{
    if f.name.is_some() || f.code.is_some() {
        validate_data(f)?;
    }
    if let Some(s) = &f.status {
        normalize_status(s.as_str())?;
    }
    if let Some(t) = &f.type_ {
        normalize_type(t.as_str())?;
    }
    Ok(
        OrgUnitValues {
            name: trim_of(&f.name),
            code: trim_of(&f.code),
            code_check: check_of(&f.code),
            status: upper_of(&f.status),
            type_: upper_of(&f.type_),
            tenant_id: None,
        },
    )
}

/// The conflict of a name that another unit has.
pub fn name_conflict(name: &str) -> (r: AppError)
    ensures
        r matches AppError::Conflict(m) && m@ == "org unit name already exists: "@ + name@,
{
    AppError::Conflict(cat("org unit name already exists: ", name))
}

/// The conflict of a code that another unit has.
pub fn code_conflict(code: &str) -> (r: AppError)
    ensures
        r matches AppError::Conflict(m) && m@ == "org unit code already exists: "@ + code@,
{
    AppError::Conflict(cat("org unit code already exists: ", code))
}

/// The conflict messages of the unique checks of a write, in the order they
/// are made: the name when one is written, then the code to check when there
/// is one.
pub open spec fn unique_check_messages(v: OrgUnitValues) -> Seq<Seq<char>> {
    let n = match v.name {
        Some(x) => seq!["org unit name already exists: "@ + x@],
        None => Seq::<Seq<char>>::empty(),
    };
    let c = match v.code_check {
        Some(x) => seq!["org unit code already exists: "@ + x@],
        None => Seq::<Seq<char>>::empty(),
    };
    n + c
}

/// The unique checks of a write (see `unique_check_messages`), as the
/// conflicts of an `Upsert`.
pub fn unique_checks(v: &OrgUnitValues) -> (r: Vec<String>)
    ensures
        r@.map_values(|m: String| m@) == unique_check_messages(*v),
{
    let mut r: Vec<String> = Vec::new();
    if let Some(n) = &v.name {
        let e = name_conflict(n.as_str());
        match e {
            AppError::Conflict(m) => r.push(m),
            _ => {},
        }
    }
    if let Some(c) = &v.code_check {
        let e = code_conflict(c.as_str());
        match e {
            AppError::Conflict(m) => r.push(m),
            _ => {},
        }
    }
    proof {
        assert(r@.map_values(|m: String| m@) =~= unique_check_messages(*v));
    }
    r
}

/// The conversation of an update request (see `Upsert`): on `Validate`
/// the caller computes the values of the chosen path and their checks with
/// `unique_checks`; an update of no row is answered `org unit not found`.
pub fn org_unit_conversation(allow_missing: bool) -> (r: Upsert)
    ensures
        r.allow_missing == allow_missing,
        r.not_found@ == "org unit not found"@,
{
    Upsert { allow_missing, not_found: String::from_str("org unit not found") }
}

/// The order of a listing: the page's units sorted by sort order (an absent
/// one counts as 0, ties in the page's order), then only the roots (units
/// without a parent above zero; a child is never nested under its parent in
/// the listing).
pub fn listing_order(sort_orders: &Vec<Option<i64>>, parents: &Vec<Option<i64>>) -> (r: Vec<usize>)
    requires
        sort_orders.len() == parents.len(),
    ensures
        exists|order: Seq<usize>|
            crate::handlers::stable_by_key(
                sort_orders@.map_values(|s: Option<i64>| match s {
                    Some(v) => v,
                    None => 0,
                }),
                order,
            ) && r@ == crate::handlers::root_positions(parents@, order),
{
    let mut keys: Vec<i64> = Vec::new();
    let mut i: usize = 0;
    while i < sort_orders.len()
        invariant
            i <= sort_orders.len(),
            keys@ == sort_orders@.subrange(0, i as int).map_values(|s: Option<i64>| match s {
                Some(v) => v,
                None => 0,
            }),
        decreases sort_orders.len() - i,
    {
        keys.push(
            match sort_orders[i] {
                Some(v) => v,
                None => 0,
            },
        );
        i += 1;
        proof {
            assert(keys@ =~= sort_orders@.subrange(0, i as int).map_values(|s: Option<i64>| match s {
                Some(v) => v,
                None => 0,
            }));
        }
    }
    assert(sort_orders@.subrange(0, sort_orders.len() as int) =~= sort_orders@);
    let order = crate::handlers::order_by_key(&keys);
    let r = crate::handlers::roots_in_order(parents, &order);
    r
}

} // verus!

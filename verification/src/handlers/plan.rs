//! Subscription plans: name, version (FREE/STANDARD/ENTERPRISE) and expiry
//! policy (READONLY/BLOCK_LOGIN/FREEZE); the proto zero values leave a field
//! unset. Plan names are unique.

use vstd::prelude::*;
use vstd::string::*;
use crate::handlers::upsert::{Upsert, check_of, string_opt, value_checks, borrow_opt};
use crate::error::{AppError, is_validation};
use crate::handlers::{
    blank, is_blank, normalize_upper_opt, trimmed, trimmed_or_empty, upper_enum_opt,
};
use crate::text::{ascii_upper, parse_i64, parse_i64_spec};

verus! {

pub struct PlanDto {
    pub id: i64,
    pub name: Option<String>,
    pub version: Option<String>,
    pub expiry_policy: Option<String>,
    pub data_retention_days: Option<i64>,
    pub description: Option<String>,
    pub remark: Option<String>,
    pub created_by: Option<i64>,
    pub updated_by: Option<i64>,
    pub deleted_by: Option<i64>,
    pub created_at: Option<String>,
    pub updated_at: Option<String>,
    pub deleted_at: Option<String>,
}

/// A stored plan.
pub struct PlanRow {
    pub id: i64,
    pub name: Option<String>,
    pub version: Option<String>,
    pub expiry_policy: Option<String>,
    pub data_retention_days: Option<i64>,
    pub description: Option<String>,
    pub remark: Option<String>,
    pub created_by: Option<i64>,
    pub updated_by: Option<i64>,
    pub deleted_by: Option<i64>,
    pub created_at: Option<String>,
    pub updated_at: Option<String>,
    pub deleted_at: Option<String>,
}

pub fn to_dto(row: &PlanRow) -> (d: PlanDto)
    ensures
        d.id == row.id,
        d.name == row.name,
        d.version == row.version,
        d.expiry_policy == row.expiry_policy,
        d.data_retention_days == row.data_retention_days,
        d.description == row.description,
        d.remark == row.remark,
        d.created_by == row.created_by,
        d.updated_by == row.updated_by,
        d.deleted_by == row.deleted_by,
        d.created_at == row.created_at,
        d.updated_at == row.updated_at,
        d.deleted_at == row.deleted_at,
{
    PlanDto {
        id: row.id,
        name: row.name.clone(),
        version: row.version.clone(),
        expiry_policy: row.expiry_policy.clone(),
        data_retention_days: row.data_retention_days,
        description: row.description.clone(),
        remark: row.remark.clone(),
        created_by: row.created_by,
        updated_by: row.updated_by,
        deleted_by: row.deleted_by,
        created_at: row.created_at.clone(),
        updated_at: row.updated_at.clone(),
        deleted_at: row.deleted_at.clone(),
    }
}

pub struct PlanData {
    pub name: Option<String>,
    pub version: Option<String>,
    pub expiry_policy: Option<String>,
    pub data_retention_days: Option<i64>,
    pub description: Option<String>,
    pub remark: Option<String>,
}

pub struct CreatePlanBody {
    pub data: Option<PlanData>,
}

pub struct UpdatePlanBody {
    pub id: Option<i64>,
    pub data: Option<PlanData>,
    pub allow_missing: Option<bool>,
}

pub open spec fn version_ok(u: Seq<char>) -> bool {
    u == "FREE"@ || u == "STANDARD"@ || u == "ENTERPRISE"@
}

pub open spec fn version_zero(u: Seq<char>) -> bool {
    u == "PLAN_VERSION_UNSPECIFIED"@ || u == ""@
}

pub open spec fn expiry_ok(u: Seq<char>) -> bool {
    u == "READONLY"@ || u == "BLOCK_LOGIN"@ || u == "FREEZE"@
}

pub open spec fn expiry_zero(u: Seq<char>) -> bool {
    u == "PLAN_EXPIRY_POLICY_UNSPECIFIED"@ || u == ""@
}

/// Version normalisation: proto enum names of any case; the zero value unsets.
pub fn normalize_version(v: &str) -> (r: Result<Option<String>, AppError>)
    ensures
        upper_enum_opt(
            r,
            v@,
            |u: Seq<char>| version_ok(u),
            |u: Seq<char>| version_zero(u),
            "invalid plan version: "@,
        ),
{
    normalize_upper_opt(
        v,
        &["FREE", "STANDARD", "ENTERPRISE"],
        &["PLAN_VERSION_UNSPECIFIED", ""],
        "invalid plan version: ",
    )
}

/// Expiry policy normalisation: proto enum names of any case; the zero value unsets.
pub fn normalize_expiry_policy(v: &str) -> (r: Result<Option<String>, AppError>)
    ensures
        upper_enum_opt(
            r,
            v@,
            |u: Seq<char>| expiry_ok(u),
            |u: Seq<char>| expiry_zero(u),
            "invalid plan expiry policy: "@,
        ),
{
    normalize_upper_opt(
        v,
        &["READONLY", "BLOCK_LOGIN", "FREEZE"],
        &["PLAN_EXPIRY_POLICY_UNSPECIFIED", ""],
        "invalid plan expiry policy: ",
    )
}

pub open spec fn version_accepted(v: Option<String>) -> bool {
    v matches Some(x) ==> (version_ok(ascii_upper(x@)) || version_zero(ascii_upper(x@)))
}

pub open spec fn expiry_accepted(v: Option<String>) -> bool {
    v matches Some(x) ==> (expiry_ok(ascii_upper(x@)) || expiry_zero(ascii_upper(x@)))
}

/// The outcome of validating plan data: the name is required, then the
/// version and the expiry policy must be known values when given.
pub open spec fn validated(data: PlanData, r: Result<(), AppError>) -> bool {
    if blank(data.name) {
        r matches Err(e) && is_validation(e, "plan name is required"@)
    } else if !version_accepted(data.version) {
        r matches Err(e) && is_validation(
            e,
            "invalid plan version: "@ + ascii_upper(data.version.unwrap()@),
        )
    } else if !expiry_accepted(data.expiry_policy) {
        r matches Err(e) && is_validation(
            e,
            "invalid plan expiry policy: "@ + ascii_upper(data.expiry_policy.unwrap()@),
        )
    } else {
        r is Ok
    }
}

pub fn validate_data(data: &PlanData) -> (r: Result<(), AppError>)
    ensures
        validated(*data, r),
{
    if is_blank(&data.name) {
        return Err(AppError::Validation(String::from_str("plan name is required")));
    }
    if let Some(v) = &data.version {
        normalize_version(v.as_str())?;
    }
    if let Some(v) = &data.expiry_policy {
        normalize_expiry_policy(v.as_str())?;
    }
    Ok(())
}

/// The normalised value of an optional version (`None` when absent or zero).
pub open spec fn version_value(v: Option<String>) -> Option<Seq<char>> {
    match v {
        Some(x) => if !version_zero(ascii_upper(x@)) && version_ok(ascii_upper(x@)) {
            Some(ascii_upper(x@))
        } else {
            None
        },
        None => None,
    }
}

/// The normalised value of an optional expiry policy (`None` when absent or zero).
pub open spec fn expiry_value(v: Option<String>) -> Option<Seq<char>> {
    match v {
        Some(x) => if !expiry_zero(ascii_upper(x@)) && expiry_ok(ascii_upper(x@)) {
            Some(ascii_upper(x@))
        } else {
            None
        },
        None => None,
    }
}

pub open spec fn opt_view(o: Option<String>) -> Option<Seq<char>> {
    match o {
        Some(x) => Some(x@),
        None => None,
    }
}

/// The stored values of a plan create or update.
pub struct PlanFields {
    /// Trimmed name; `None` on an update that leaves the name.
    pub name: Option<String>,
    pub version: Option<String>,
    pub expiry_policy: Option<String>,
}

fn opt_version(v: &Option<String>) -> (r: Result<Option<String>, AppError>)
    ensures
        match r {
            Ok(x) => version_accepted(*v) && opt_view(x) == version_value(*v),
            Err(e) => !version_accepted(*v) && is_validation(
                e,
                "invalid plan version: "@ + ascii_upper(v.unwrap()@),
            ),
        },
{
    match v {
        Some(x) => normalize_version(x.as_str()),
        None => Ok(None),
    }
}

fn opt_expiry(v: &Option<String>) -> (r: Result<Option<String>, AppError>)
    ensures
        match r {
            Ok(x) => expiry_accepted(*v) && opt_view(x) == expiry_value(*v),
            Err(e) => !expiry_accepted(*v) && is_validation(
                e,
                "invalid plan expiry policy: "@ + ascii_upper(v.unwrap()@),
            ),
        },
{
    match v {
        Some(x) => normalize_expiry_policy(x.as_str()),
        None => Ok(None),
    }
}

/// The values a create stores: validation first, then the trimmed name and
/// the normalised enums.
pub fn create_fields(data: &PlanData) -> (r: Result<PlanFields, AppError>)
    ensures
        match r {
            Ok(f) => validated(*data, Ok(())) && opt_view(f.name) == Some(trimmed_or_empty(data.name))
                && opt_view(f.version) == version_value(data.version) && opt_view(f.expiry_policy)
                == expiry_value(data.expiry_policy),
            Err(e) => validated(*data, Err(e)),
        },
{
    validate_data(data)?;
    let name = trimmed(&data.name);
    let version = opt_version(&data.version)?;
    let expiry_policy = opt_expiry(&data.expiry_policy)?;
    Ok(PlanFields { name: Some(name), version, expiry_policy })
}

/// The values an update stores: the name is validated and trimmed only when
/// given; the enums are normalised when given.
pub fn update_fields(data: &PlanData) -> (r: Result<PlanFields, AppError>)
    ensures
        data.name is Some ==> match r {
            Ok(f) => validated(*data, Ok(())) && opt_view(f.name) == Some(trimmed_or_empty(data.name))
                && opt_view(f.version) == version_value(data.version) && opt_view(f.expiry_policy)
                == expiry_value(data.expiry_policy),
            Err(e) => validated(*data, Err(e)),
        },
        data.name is None ==> match r {
            Ok(f) => f.name is None && version_accepted(data.version) && expiry_accepted(
                data.expiry_policy,
            ) && opt_view(f.version) == version_value(data.version) && opt_view(f.expiry_policy)
                == expiry_value(data.expiry_policy),
            Err(e) => if !version_accepted(data.version) {
                is_validation(e, "invalid plan version: "@ + ascii_upper(data.version.unwrap()@))
            } else {
                expiry_accepted(data.expiry_policy) == false && is_validation(
                    e,
                    "invalid plan expiry policy: "@ + ascii_upper(data.expiry_policy.unwrap()@),
                )
            },
        },
{
    let mut name: Option<String> = None;
    if data.name.is_some() {
        validate_data(data)?;
        name = Some(trimmed(&data.name));
    }
    let version = opt_version(&data.version)?;
    let expiry_policy = opt_expiry(&data.expiry_policy)?;
    Ok(PlanFields { name, version, expiry_policy })
}

/// The ids of a collection delete (`?id=`): the id when it parses, and the
/// validation error `ids is required` otherwise.
pub fn delete_ids(id_param: Option<&str>) -> (r: Result<Vec<i64>, AppError>)
    ensures
        match id_param {
            Some(p) => match parse_i64_spec(p@) {
                Some(id) => r matches Ok(v) && v@ == seq![id],
                None => r matches Err(e) && is_validation(e, "ids is required"@),
            },
            None => r matches Err(e) && is_validation(e, "ids is required"@),
        },
{
    let mut ids: Vec<i64> = Vec::new();
    if let Some(p) = id_param {
        if let Some(id) = parse_i64(p) {
            ids.push(id);
        }
    }
    if ids.len() == 0 {
        return Err(AppError::Validation(String::from_str("ids is required")));
    }
    assert(ids@ =~= seq![ids@[0]]);
    Ok(ids)
}


/// The unique check of a plan write: its name, when written.
pub fn plan_checks(f: &PlanFields) -> (r: Vec<String>)
    ensures
        r@.map_values(|m: String| m@) == check_of("plan name already exists: "@, string_opt(f.name)),
{
    let r = value_checks("plan name already exists: ", borrow_opt(&f.name), "", None);
    proof {
        assert(check_of("plan name already exists: "@, string_opt(f.name)) + Seq::<Seq<char>>::empty()
            =~= check_of("plan name already exists: "@, string_opt(f.name)));
    }
    r
}

/// The conversation of an update request (see `Upsert`); an update of no
/// row is answered `plan not found`.
pub fn plan_conversation(allow_missing: bool) -> (r: Upsert)
    ensures
        r.allow_missing == allow_missing,
        r.not_found@ == "plan not found"@,
{
    Upsert { allow_missing, not_found: String::from_str("plan not found") }
}

} // verus!

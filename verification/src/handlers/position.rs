//! Positions: a name and a code (both required and unique), a status
//! (ON/OFF) and a type (REGULAR/LEADER/MANAGER/INTERN/CONTRACT/OTHER).

use vstd::prelude::*;
use vstd::string::*;
use crate::handlers::upsert::{Upsert, check_of, string_opt, value_checks, borrow_opt};
use crate::error::{AppError, is_validation};
use crate::handlers::{
    blank, is_blank, trimmed, trimmed_or_empty, normalize_upper, upper_enum, opt_upper_enum,
    normalize_upper_option, words_contain,
};
use crate::text::{ascii_upper, trim, trim_str};

verus! {

pub struct PositionDto {
    pub id: i64,
    pub name: Option<String>,
    pub code: Option<String>,
    pub headcount: Option<i64>,
    pub sort_order: Option<i64>,
    pub status: Option<String>,
    pub type_: Option<String>,
    pub remark: Option<String>,
    pub description: Option<String>,
    pub job_family: Option<String>,
    pub job_grade: Option<String>,
    pub level: Option<i64>,
    pub is_key_position: Option<bool>,
    pub tenant_id: Option<i64>,
    pub tenant_name: Option<String>,
    pub org_unit_id: Option<i64>,
    pub org_unit_name: Option<String>,
    pub reports_to_position_id: Option<i64>,
    pub reports_to_position_name: Option<String>,
    pub start_at: Option<String>,
    pub end_at: Option<String>,
    pub created_by: Option<i64>,
    pub updated_by: Option<i64>,
    pub deleted_by: Option<i64>,
    pub created_at: Option<String>,
    pub updated_at: Option<String>,
    pub deleted_at: Option<String>,
}

pub struct PositionData {
    pub name: Option<String>,
    pub code: Option<String>,
    pub headcount: Option<i64>,
    pub sort_order: Option<i64>,
    pub status: Option<String>,
    pub type_: Option<String>,
    pub remark: Option<String>,
    pub description: Option<String>,
    pub job_family: Option<String>,
    pub job_grade: Option<String>,
    pub level: Option<i64>,
    pub is_key_position: Option<bool>,
    pub tenant_id: Option<i64>,
    pub org_unit_id: Option<i64>,
    pub reports_to_position_id: Option<i64>,
    pub start_at: Option<String>,
    pub end_at: Option<String>,
}

pub struct CreatePositionBody {
    pub data: Option<PositionData>,
}

pub struct UpdatePositionBody {
    pub id: Option<i64>,
    pub data: Option<PositionData>,
    pub allow_missing: Option<bool>,
}

/// A stored position.
pub struct PositionRow {
    pub id: i64,
    pub name: Option<String>,
    pub code: Option<String>,
    pub headcount: Option<i64>,
    pub sort_order: Option<i64>,
    pub status: Option<String>,
    pub type_: Option<String>,
    pub remark: Option<String>,
    pub description: Option<String>,
    pub job_family: Option<String>,
    pub job_grade: Option<String>,
    pub level: Option<i64>,
    pub is_key_position: Option<bool>,
    pub tenant_id: Option<i64>,
    pub tenant_name: Option<String>,
    pub org_unit_id: Option<i64>,
    pub org_unit_name: Option<String>,
    pub reports_to_position_id: Option<i64>,
    pub reports_to_position_name: Option<String>,
    pub start_at: Option<String>,
    pub end_at: Option<String>,
    pub created_by: Option<i64>,
    pub updated_by: Option<i64>,
    pub deleted_by: Option<i64>,
    pub created_at: Option<String>,
    pub updated_at: Option<String>,
    pub deleted_at: Option<String>,
}

pub fn to_dto(row: &PositionRow) -> (d: PositionDto)
    ensures
        d.id == row.id,
        d.name == row.name,
        d.code == row.code,
        d.headcount == row.headcount,
        d.sort_order == row.sort_order,
        d.status == row.status,
        d.type_ == row.type_,
        d.remark == row.remark,
        d.description == row.description,
        d.job_family == row.job_family,
        d.job_grade == row.job_grade,
        d.level == row.level,
        d.is_key_position == row.is_key_position,
        d.tenant_id == row.tenant_id,
        d.tenant_name == row.tenant_name,
        d.org_unit_id == row.org_unit_id,
        d.org_unit_name == row.org_unit_name,
        d.reports_to_position_id == row.reports_to_position_id,
        d.reports_to_position_name == row.reports_to_position_name,
        d.start_at == row.start_at,
        d.end_at == row.end_at,
        d.created_by == row.created_by,
        d.updated_by == row.updated_by,
        d.deleted_by == row.deleted_by,
        d.created_at == row.created_at,
        d.updated_at == row.updated_at,
        d.deleted_at == row.deleted_at,
{
    PositionDto {
        id: row.id,
        name: row.name.clone(),
        code: row.code.clone(),
        headcount: row.headcount,
        sort_order: row.sort_order,
        status: row.status.clone(),
        type_: row.type_.clone(),
        remark: row.remark.clone(),
        description: row.description.clone(),
        job_family: row.job_family.clone(),
        job_grade: row.job_grade.clone(),
        level: row.level,
        is_key_position: row.is_key_position,
        tenant_id: row.tenant_id,
        tenant_name: row.tenant_name.clone(),
        org_unit_id: row.org_unit_id,
        org_unit_name: row.org_unit_name.clone(),
        reports_to_position_id: row.reports_to_position_id,
        reports_to_position_name: row.reports_to_position_name.clone(),
        start_at: row.start_at.clone(),
        end_at: row.end_at.clone(),
        created_by: row.created_by,
        updated_by: row.updated_by,
        deleted_by: row.deleted_by,
        created_at: row.created_at.clone(),
        updated_at: row.updated_at.clone(),
        deleted_at: row.deleted_at.clone(),
    }
}


pub open spec fn status_ok(u: Seq<char>) -> bool {
    u == "ON"@ || u == "OFF"@
}

pub open spec fn type_ok(u: Seq<char>) -> bool {
    u == "REGULAR"@ || u == "LEADER"@ || u == "MANAGER"@ || u == "INTERN"@ || u == "CONTRACT"@
        || u == "OTHER"@
}

pub fn normalize_status(v: &str) -> (r: Result<String, AppError>)
    ensures
        upper_enum(r, v@, |u: Seq<char>| status_ok(u), "invalid position status: "@),
{
    normalize_upper(v, &["ON", "OFF"], "invalid position status: ")
}

pub fn normalize_type(v: &str) -> (r: Result<String, AppError>)
    ensures
        upper_enum(r, v@, |u: Seq<char>| type_ok(u), "invalid position type: "@),
{
    normalize_upper(
        v,
        &["REGULAR", "LEADER", "MANAGER", "INTERN", "CONTRACT", "OTHER"],
        "invalid position type: ",
    )
}

pub open spec fn enum_accepted(v: Option<String>, ok: spec_fn(Seq<char>) -> bool) -> bool {
    v matches Some(x) ==> ok(ascii_upper(x@))
}

/// The outcome of validating position data: name, then code required; then
/// status and type must be known values when given.
pub open spec fn validated(data: PositionData, r: Result<(), AppError>) -> bool {
    if blank(data.name) {
        r matches Err(e) && is_validation(e, "position name is required"@)
    } else if blank(data.code) {
        r matches Err(e) && is_validation(e, "position code is required"@)
    } else if !enum_accepted(data.status, |u: Seq<char>| status_ok(u)) {
        r matches Err(e) && is_validation(e, "invalid position status: "@ + data.status.unwrap()@)
    } else if !enum_accepted(data.type_, |u: Seq<char>| type_ok(u)) {
        r matches Err(e) && is_validation(e, "invalid position type: "@ + data.type_.unwrap()@)
    } else {
        r is Ok
    }
}

pub fn validate_data(data: &PositionData) -> (r: Result<(), AppError>)
    ensures
        validated(*data, r),
{
    if is_blank(&data.name) {
        return Err(AppError::Validation(String::from_str("position name is required")));
    }
    if is_blank(&data.code) {
        return Err(AppError::Validation(String::from_str("position code is required")));
    }
    if let Some(s) = &data.status {
        normalize_status(s.as_str())?;
    }
    if let Some(t) = &data.type_ {
        normalize_type(t.as_str())?;
    }
    Ok(())
}

/// The stored values of a position create or update that the request decides.
pub struct PositionValues {
    pub name: Option<String>,
    pub code: Option<String>,
    pub tenant_id: Option<i64>,
    pub status: Option<String>,
    pub type_: Option<String>,
}

fn opt_status(v: &Option<String>) -> (r: Result<Option<String>, AppError>)
    ensures
        opt_upper_enum(*v, |u: Seq<char>| status_ok(u), "invalid position status: "@, r),
{
    normalize_upper_option(v, &["ON", "OFF"], "invalid position status: ")
}

fn opt_type(v: &Option<String>) -> (r: Result<Option<String>, AppError>)
    ensures
        opt_upper_enum(*v, |u: Seq<char>| type_ok(u), "invalid position type: "@, r),
{
    normalize_upper_option(
        v,
        &["REGULAR", "LEADER", "MANAGER", "INTERN", "CONTRACT", "OTHER"],
        "invalid position type: ",
    )
}

/// The values of a create: validation, then the trimmed name and code, the
/// tenant (the data's, else the operator's real tenant) and the enums.
pub fn create_values(data: &PositionData, operator_tenant: i64) -> (r: Result<PositionValues, AppError>)
    ensures
        match r {
            Ok(v) => {
                &&& validated(*data, Ok(()))
                &&& view_opt(v.name) == Some(trimmed_or_empty(data.name))
                &&& view_opt(v.code) == Some(trimmed_or_empty(data.code))
                &&& v.tenant_id == match data.tenant_id {
                    Some(t) => Some(t),
                    None => if operator_tenant > 0 {
                        Some(operator_tenant)
                    } else {
                        None
                    },
                }
                &&& opt_upper_enum(data.status, |u: Seq<char>| status_ok(u), "invalid position status: "@, Ok(v.status))
                &&& opt_upper_enum(data.type_, |u: Seq<char>| type_ok(u), "invalid position type: "@, Ok(v.type_))
            },
            Err(e) => validated(*data, Err(e)),
        },
{
    validate_data(data)?;
    let status = opt_status(&data.status)?;
    let type_ = opt_type(&data.type_)?;
    Ok(PositionValues {
        name: Some(trimmed(&data.name)),
        code: Some(trimmed(&data.code)),
        tenant_id: crate::handlers::tenant_or_operator(data.tenant_id, operator_tenant),
        status,
        type_,
    })
}

pub open spec fn trim_opt(o: Option<String>) -> Option<Seq<char>> {
    match o {
        Some(x) => Some(trim(x@)),
        None => None,
    }
}

pub open spec fn view_opt(o: Option<String>) -> Option<Seq<char>> {
    match o {
        Some(x) => Some(x@),
        None => None,
    }
}

/// The values of an update: when a name or a code is given the data is
/// validated as on create and the given ones are trimmed; the enums are
/// normalised when given. The tenant is never changed.
pub fn update_values(data: &PositionData) -> (r: Result<PositionValues, AppError>)
    ensures
        (data.name is Some || data.code is Some) && !validated(*data, Ok(())) ==> (r matches Err(e)
            && validated(*data, Err(e))),
        r matches Ok(v) ==> {
            &&& (data.name is Some || data.code is Some) ==> validated(*data, Ok(()))
            &&& view_opt(v.name) == trim_opt(data.name)
            &&& view_opt(v.code) == trim_opt(data.code)
            &&& v.tenant_id is None
            &&& opt_upper_enum(data.status, |u: Seq<char>| status_ok(u), "invalid position status: "@, Ok(v.status))
            &&& opt_upper_enum(data.type_, |u: Seq<char>| type_ok(u), "invalid position type: "@, Ok(v.type_))
        },
        r matches Err(e) ==> ((data.name is Some || data.code is Some) && validated(*data, Err(e)))
            || opt_upper_enum(data.status, |u: Seq<char>| status_ok(u), "invalid position status: "@, Err(e))
            || opt_upper_enum(data.type_, |u: Seq<char>| type_ok(u), "invalid position type: "@, Err(e)),
{
    let mut name: Option<String> = None;
    let mut code: Option<String> = None;
    if data.name.is_some() || data.code.is_some() {
        validate_data(data)?;
        name = match &data.name {
            Some(v) => Some(trim_str(v.as_str())),
            None => None,
        };
        code = match &data.code {
            Some(v) => Some(trim_str(v.as_str())),
            None => None,
        };
    }
    let status = opt_status(&data.status)?;
    let type_ = opt_type(&data.type_)?;
    Ok(PositionValues { name, code, tenant_id: None, status, type_ })
}


/// The unique checks of a position write, in order: its name, then its
/// code, each when written.
pub fn position_checks(v: &PositionValues) -> (r: Vec<String>)
    ensures
        r@.map_values(|m: String| m@) == check_of("position name already exists: "@, string_opt(v.name))
            + check_of("position code already exists: "@, string_opt(v.code)),
{
    value_checks(
        "position name already exists: ",
        borrow_opt(&v.name),
        "position code already exists: ",
        borrow_opt(&v.code),
    )
}

/// The conversation of an update request (see `Upsert`); an update of no
/// row is answered `position not found`.
pub fn position_conversation(allow_missing: bool) -> (r: Upsert)
    ensures
        r.allow_missing == allow_missing,
        r.not_found@ == "position not found"@,
{
    Upsert { allow_missing, not_found: String::from_str("position not found") }
}

} // verus!

//! Roles: a name and a code (both required, code unique), a status (ON/OFF),
//! a type (SYSTEM/TEMPLATE/TENANT), a protection flag and the granted
//! permissions. Tenant operators only ever write TENANT roles; system roles
//! are off limits to them, and a protected role keeps its type, status,
//! code and protection flag.

use vstd::prelude::*;
use vstd::string::*;
use crate::handlers::upsert::{Upsert, check_of, string_opt, value_checks, borrow_opt};
use crate::error::{AppError, is_validation};
use crate::handlers::{
    blank, trimmed, trimmed_or_empty, normalize_upper, upper_enum, opt_upper_enum,
    normalize_upper_option, optional_nonblank, opt_nonblank, enum_rejected,
};
use crate::text::{ascii_upper, trim, trim_str, str_eq};

verus! {

pub struct RoleDto {
    pub id: i64,
    pub name: Option<String>,
    pub code: Option<String>,
    pub sort_order: Option<i64>,
    pub status: Option<String>,
    pub description: Option<String>,
    pub is_protected: Option<bool>,
    pub type_: Option<String>,
    pub permissions: Vec<i64>,
    pub tenant_id: Option<i64>,
    pub tenant_name: Option<String>,
    pub created_by: Option<i64>,
    pub updated_by: Option<i64>,
    pub deleted_by: Option<i64>,
    pub created_at: Option<String>,
    pub updated_at: Option<String>,
    pub deleted_at: Option<String>,
}

pub struct RoleData {
    pub name: Option<String>,
    pub code: Option<String>,
    pub sort_order: Option<i64>,
    pub status: Option<String>,
    pub description: Option<String>,
    pub is_protected: Option<bool>,
    pub type_: Option<String>,
    pub permissions: Option<Vec<i64>>,
    pub tenant_id: Option<i64>,
}

pub struct CreateRoleBody {
    pub data: Option<RoleData>,
}

pub struct UpdateRoleBody {
    pub id: Option<i64>,
    pub data: Option<RoleData>,
    pub allow_missing: Option<bool>,
}

/// A stored role.
pub struct RoleRow {
    pub id: i64,
    pub name: Option<String>,
    pub code: Option<String>,
    pub sort_order: Option<i64>,
    pub status: Option<String>,
    pub description: Option<String>,
    pub is_protected: Option<bool>,
    pub type_: Option<String>,
    pub tenant_id: Option<i64>,
    pub tenant_name: Option<String>,
    pub created_by: Option<i64>,
    pub updated_by: Option<i64>,
    pub deleted_by: Option<i64>,
    pub created_at: Option<String>,
    pub updated_at: Option<String>,
    pub deleted_at: Option<String>,
}

pub fn to_dto(row: &RoleRow, permissions: Vec<i64>) -> (d: RoleDto)
    ensures
        d.id == row.id,
        d.name == row.name,
        d.code == row.code,
        d.sort_order == row.sort_order,
        d.status == row.status,
        d.description == row.description,
        d.is_protected == row.is_protected,
        d.type_ == row.type_,
        d.permissions == permissions,
        d.tenant_id == row.tenant_id,
        d.tenant_name == row.tenant_name,
        d.created_by == row.created_by,
        d.updated_by == row.updated_by,
        d.deleted_by == row.deleted_by,
        d.created_at == row.created_at,
        d.updated_at == row.updated_at,
        d.deleted_at == row.deleted_at,
{
    RoleDto {
        id: row.id,
        name: row.name.clone(),
        code: row.code.clone(),
        sort_order: row.sort_order,
        status: row.status.clone(),
        description: row.description.clone(),
        is_protected: row.is_protected,
        type_: row.type_.clone(),
        permissions,
        tenant_id: row.tenant_id,
        tenant_name: row.tenant_name.clone(),
        created_by: row.created_by,
        updated_by: row.updated_by,
        deleted_by: row.deleted_by,
        created_at: row.created_at.clone(),
        updated_at: row.updated_at.clone(),
        deleted_at: row.deleted_at.clone(),
    }
}


pub open spec fn status_ok(u: Seq<char>) -> bool {
    u == "ON"@ || u == "OFF"@
}

pub open spec fn type_ok(u: Seq<char>) -> bool {
    u == "SYSTEM"@ || u == "TEMPLATE"@ || u == "TENANT"@
}

pub fn normalize_status(v: &str) -> (r: Result<String, AppError>)
    ensures
        upper_enum(r, v@, |u: Seq<char>| status_ok(u), "invalid role status: "@),
{
    normalize_upper(v, &["ON", "OFF"], "invalid role status: ")
}

pub fn normalize_type(v: &str) -> (r: Result<String, AppError>)
    ensures
        upper_enum(r, v@, |u: Seq<char>| type_ok(u), "invalid role type: "@),
{
    normalize_upper(v, &["SYSTEM", "TEMPLATE", "TENANT"], "invalid role type: ")
}

fn opt_status(v: &Option<String>) -> (r: Result<Option<String>, AppError>)
    ensures
        opt_upper_enum(*v, |u: Seq<char>| status_ok(u), "invalid role status: "@, r),
{
    normalize_upper_option(v, &["ON", "OFF"], "invalid role status: ")
}

fn opt_type(v: &Option<String>) -> (r: Result<Option<String>, AppError>)
    ensures
        opt_upper_enum(*v, |u: Seq<char>| type_ok(u), "invalid role type: "@, r),
{
    normalize_upper_option(v, &["SYSTEM", "TEMPLATE", "TENANT"], "invalid role type: ")
}

pub open spec fn view_opt(o: Option<String>) -> Option<Seq<char>> {
    match o {
        Some(x) => Some(x@),
        None => None,
    }
}

/// The values that a role create or update writes.
pub struct RoleValues {
    pub name: Option<String>,
    pub code: Option<String>,
    pub type_: Option<String>,
    pub status: Option<String>,
    pub is_protected: Option<bool>,
    pub tenant_id: Option<i64>,
    pub permissions: Vec<i64>,
}

/// The values of a create: name and code required (trimmed); the type is
/// normalised, and TENANT whenever the operator belongs to a tenant; the
/// status is normalised; the tenant defaults to the operator's real tenant;
/// the permissions default to none.
pub fn create_values(data: &RoleData, operator_tenant: i64) -> (r: Result<RoleValues, AppError>)
    ensures
        blank(data.name) || blank(data.code) ==> (r matches Err(e) && is_validation(
            e,
            "role name and code are required"@,
        )),
        r matches Ok(v) ==> {
            &&& !blank(data.name) && !blank(data.code)
            &&& view_opt(v.name) == Some(trimmed_or_empty(data.name))
            &&& view_opt(v.code) == Some(trimmed_or_empty(data.code))
            &&& operator_tenant > 0 ==> view_opt(v.type_) == Some("TENANT"@)
            &&& operator_tenant <= 0 ==> opt_upper_enum(data.type_, |u: Seq<char>| type_ok(u), "invalid role type: "@, Ok(v.type_))
            &&& opt_upper_enum(data.status, |u: Seq<char>| status_ok(u), "invalid role status: "@, Ok(v.status))
            &&& v.is_protected == data.is_protected
            &&& v.tenant_id == crate::handlers::tenant_default(data.tenant_id, operator_tenant)
            &&& v.permissions@ == match data.permissions {
                Some(p) => p@,
                None => Seq::<i64>::empty(),
            }
        },
        r matches Err(e) ==> blank(data.name) || blank(data.code) || opt_upper_enum(
            data.type_,
            |u: Seq<char>| type_ok(u),
            "invalid role type: "@,
            Err(e),
        ) || opt_upper_enum(data.status, |u: Seq<char>| status_ok(u), "invalid role status: "@, Err(e)),
{
    if crate::handlers::is_blank(&data.name) || crate::handlers::is_blank(&data.code) {
        return Err(AppError::Validation(String::from_str("role name and code are required")));
    }
    let mut type_ = opt_type(&data.type_)?;
    if operator_tenant > 0 {
        type_ = Some(String::from_str("TENANT"));
    }
    let status = opt_status(&data.status)?;
    let permissions = match &data.permissions {
        Some(p) => p.clone(),
        None => Vec::new(),
    };
    Ok(RoleValues {
        name: Some(trimmed(&data.name)),
        code: Some(trimmed(&data.code)),
        type_,
        status,
        is_protected: data.is_protected,
        tenant_id: crate::handlers::tenant_or_operator(data.tenant_id, operator_tenant),
        permissions,
    })
}

/// A tenant operator's update of a SYSTEM role.
pub open spec fn system_role_touched(existing: RoleRow, operator_tenant: i64) -> bool {
    (existing.type_ matches Some(t) && t@ == "SYSTEM"@) && operator_tenant > 0
}

/// A given value that is blank once trimmed.
pub open spec fn given_blank(v: Option<String>) -> bool {
    v matches Some(x) && trim(x@).len() == 0
}

/// The values of an update of the stored role `existing`:
/// tenant operators may not touch SYSTEM roles; a protected role keeps its
/// type, status, code and protection flag; a tenant operator always writes
/// the TENANT type; a given name or code must not be blank (trimmed).
pub fn update_values(existing: &RoleRow, data: &RoleData, operator_tenant: i64) -> (r: Result<
    RoleValues,
    AppError,
>)
    ensures
        system_role_touched(*existing, operator_tenant) ==> (
        r matches Err(AppError::Forbidden(m)) && m@ == "no permission to update system role"@),
        !system_role_touched(*existing, operator_tenant) && enum_rejected(data.type_, |u: Seq<char>| type_ok(u))
            ==> (r matches Err(e) && is_validation(e, "invalid role type: "@ + data.type_.unwrap()@)),
        !system_role_touched(*existing, operator_tenant) && !enum_rejected(data.type_, |u: Seq<char>| type_ok(u))
            && enum_rejected(data.status, |u: Seq<char>| status_ok(u)) ==> (r matches Err(e)
            && is_validation(e, "invalid role status: "@ + data.status.unwrap()@)),
        !system_role_touched(*existing, operator_tenant) && !enum_rejected(data.type_, |u: Seq<char>| type_ok(u))
            && !enum_rejected(data.status, |u: Seq<char>| status_ok(u)) && given_blank(data.name) ==> (
        r matches Err(e) && is_validation(e, "role name is required"@)),
        !system_role_touched(*existing, operator_tenant) && !enum_rejected(data.type_, |u: Seq<char>| type_ok(u))
            && !enum_rejected(data.status, |u: Seq<char>| status_ok(u)) && !given_blank(data.name)
            && existing.is_protected != Some(true) && given_blank(data.code) ==> (r matches Err(e)
            && is_validation(e, "role code is required"@)),
        r is Err ==> system_role_touched(*existing, operator_tenant) || enum_rejected(
            data.type_,
            |u: Seq<char>| type_ok(u),
        ) || enum_rejected(data.status, |u: Seq<char>| status_ok(u)) || given_blank(data.name) || (
        existing.is_protected != Some(true) && given_blank(data.code)),
        r matches Ok(v) ==> {
            &&& !system_role_touched(*existing, operator_tenant)
            &&& existing.is_protected == Some(true) ==> v.status is None && v.code is None
                && v.is_protected is None
            &&& existing.is_protected == Some(true) && operator_tenant <= 0 ==> v.type_ is None
            &&& operator_tenant > 0 ==> view_opt(v.type_) == Some("TENANT"@)
            &&& existing.is_protected != Some(true) ==> v.is_protected == data.is_protected
            &&& existing.is_protected != Some(true) && operator_tenant <= 0 ==> opt_upper_enum(
                data.type_,
                |u: Seq<char>| type_ok(u),
                "invalid role type: "@,
                Ok(v.type_),
            )
            &&& existing.is_protected != Some(true) ==> opt_upper_enum(
                data.status,
                |u: Seq<char>| status_ok(u),
                "invalid role status: "@,
                Ok(v.status),
            )
            &&& existing.is_protected != Some(true) ==> opt_nonblank(data.code, "role code is required"@, Ok(v.code))
            &&& opt_nonblank(data.name, "role name is required"@, Ok(v.name))
            &&& v.tenant_id is None
            &&& v.permissions@ == match data.permissions {
                Some(p) => p@,
                None => Seq::<i64>::empty(),
            }
        },
{
    let is_system = match &existing.type_ {
        Some(t) => str_eq(t.as_str(), "SYSTEM"),
        None => false,
    };
    if is_system && operator_tenant > 0 {
        return Err(AppError::Forbidden(String::from_str("no permission to update system role")));
    }
    let mut type_ = opt_type(&data.type_)?;
    let mut status = opt_status(&data.status)?;
    let mut code: Option<String> = match &data.code {
        Some(c) => Some(trim_str(c.as_str())),
        None => None,
    };
    let mut is_protected = data.is_protected;
    if existing.is_protected == Some(true) {
        type_ = None;
        status = None;
        code = None;
        is_protected = None;
    }
    if operator_tenant > 0 {
        let is_tenant = match &type_ {
            Some(t) => str_eq(t.as_str(), "TENANT"),
            None => false,
        };
        if !is_tenant {
            type_ = Some(String::from_str("TENANT"));
        }
    }
    let name = optional_nonblank(&data.name, "role name is required")?;
    if let Some(c) = &code {
        if c.unicode_len() == 0 {
            return Err(AppError::Validation(String::from_str("role code is required")));
        }
    }
    let permissions = match &data.permissions {
        Some(p) => p.clone(),
        None => Vec::new(),
    };
    Ok(RoleValues { name, code, type_, status, is_protected, tenant_id: None, permissions })
}


/// The unique check of a role write: its code, when written.
pub fn role_checks(v: &RoleValues) -> (r: Vec<String>)
    ensures
        r@.map_values(|m: String| m@) == check_of("role code already exists: "@, string_opt(v.code)),
{
    let r = value_checks("role code already exists: ", borrow_opt(&v.code), "", None);
    proof {
        assert(check_of(""@, None) =~= Seq::<Seq<char>>::empty());
        assert(check_of("role code already exists: "@, string_opt(v.code)) + Seq::<Seq<char>>::empty()
            =~= check_of("role code already exists: "@, string_opt(v.code)));
    }
    r
}

/// The conversation of an update request (see `Upsert`); an update of no
/// row is answered `role not found`.
pub fn role_conversation(allow_missing: bool) -> (r: Upsert)
    ensures
        r.allow_missing == allow_missing,
        r.not_found@ == "role not found"@,
{
    Upsert { allow_missing, not_found: String::from_str("role not found") }
}

} // verus!

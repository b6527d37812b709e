//! Dictionary types: a code (immutable after create, unique per tenant) and
//! a display name.

use vstd::prelude::*;
use vstd::string::*;
use crate::handlers::upsert::{Upsert, check_of, opt_view, value_checks};
use crate::error::{AppError, is_validation};
use crate::handlers::{blank, is_blank, trimmed, trimmed_or_empty};
use crate::text::{trim, trim_str};

verus! {

pub struct DictTypeDto {
    pub id: i64,
    pub type_code: Option<String>,
    pub typename: Option<String>,
    pub is_enabled: Option<bool>,
    pub sort_order: Option<i64>,
    pub tenant_id: Option<i64>,
    pub tenant_name: Option<String>,
    pub created_by: Option<i64>,
    pub updated_by: Option<i64>,
    pub deleted_by: Option<i64>,
    pub created_at: Option<String>,
    pub updated_at: Option<String>,
    pub deleted_at: Option<String>,
}

pub struct DictTypeData {
    pub type_code: Option<String>,
    pub typename: Option<String>,
    pub is_enabled: Option<bool>,
    pub sort_order: Option<i64>,
    pub tenant_id: Option<i64>,
}

pub struct CreateDictTypeBody {
    pub data: Option<DictTypeData>,
}

pub struct UpdateDictTypeBody {
    pub id: Option<i64>,
    pub data: Option<DictTypeData>,
    pub allow_missing: Option<bool>,
}

/// Ids of a batch delete (`?ids=1&ids=2`).
pub struct DeleteIdsQuery {
    pub ids: Vec<i64>,
}

/// A stored dictionary type.
pub struct DictTypeRow {
    pub id: i64,
    pub type_code: Option<String>,
    pub typename: Option<String>,
    pub is_enabled: Option<bool>,
    pub sort_order: Option<i64>,
    pub tenant_id: Option<i64>,
    pub tenant_name: Option<String>,
    pub created_by: Option<i64>,
    pub updated_by: Option<i64>,
    pub deleted_by: Option<i64>,
    pub created_at: Option<String>,
    pub updated_at: Option<String>,
    pub deleted_at: Option<String>,
}

pub fn to_dto(row: &DictTypeRow) -> (d: DictTypeDto)
    ensures
        d.id == row.id,
        d.type_code == row.type_code,
        d.typename == row.typename,
        d.is_enabled == row.is_enabled,
        d.sort_order == row.sort_order,
        d.tenant_id == row.tenant_id,
        d.tenant_name == row.tenant_name,
        d.created_by == row.created_by,
        d.updated_by == row.updated_by,
        d.deleted_by == row.deleted_by,
        d.created_at == row.created_at,
        d.updated_at == row.updated_at,
        d.deleted_at == row.deleted_at,
{
    DictTypeDto {
        id: row.id,
        type_code: row.type_code.clone(),
        typename: row.typename.clone(),
        is_enabled: row.is_enabled,
        sort_order: row.sort_order,
        tenant_id: row.tenant_id,
        tenant_name: row.tenant_name.clone(),
        created_by: row.created_by,
        updated_by: row.updated_by,
        deleted_by: row.deleted_by,
        created_at: row.created_at.clone(),
        updated_at: row.updated_at.clone(),
        deleted_at: row.deleted_at.clone(),
    }
}

/// Create data must carry a type code and a type name, neither blank.
pub fn validate_data(data: &DictTypeData) -> (r: Result<(), AppError>)
    ensures
        blank(data.type_code) ==> (r matches Err(e) && is_validation(e, "dict type code is required"@)),
        !blank(data.type_code) && blank(data.typename) ==> (r matches Err(e) && is_validation(
            e,
            "dict type name is required"@,
        )),
        r is Ok <==> !blank(data.type_code) && !blank(data.typename),
{
    if is_blank(&data.type_code) {
        return Err(AppError::Validation(String::from_str("dict type code is required")));
    }
    if is_blank(&data.typename) {
        return Err(AppError::Validation(String::from_str("dict type name is required")));
    }
    Ok(())
}

/// The trimmed code and name of a create, after validation.
pub fn create_names(data: &DictTypeData) -> (r: Result<(String, String), AppError>)
    ensures
        match r {
            Ok((c, n)) => !blank(data.type_code) && !blank(data.typename) && c@ == trimmed_or_empty(
                data.type_code,
            ) && n@ == trimmed_or_empty(data.typename),
            Err(e) => validate_data_err(*data, e),
        },
{
    validate_data(data)?;
    Ok((trimmed(&data.type_code), trimmed(&data.typename)))
}

pub open spec fn validate_data_err(data: DictTypeData, e: AppError) -> bool {
    if blank(data.type_code) {
        is_validation(e, "dict type code is required"@)
    } else {
        blank(data.typename) && is_validation(e, "dict type name is required"@)
    }
}

/// The new name of an update: unchanged when absent, refused when blank
/// (the code is immutable and never updated).
pub fn update_name(typename: &Option<String>) -> (r: Result<Option<String>, AppError>)
    ensures
        match *typename {
            None => r == Ok::<Option<String>, AppError>(None),
            Some(v) => if trim(v@).len() == 0 {
                r matches Err(e) && is_validation(e, "dict type name is required"@)
            } else {
                r matches Ok(Some(t)) && t@ == trim(v@)
            },
        },
{
    match typename {
        None => Ok(None),
        Some(v) => {
            let t = trim_str(v.as_str());
            if t.unicode_len() == 0 {
                Err(AppError::Validation(String::from_str("dict type name is required")))
            } else {
                Ok(Some(t))
            }
        },
    }
}

/// A lookup by code needs a tenant context (tenant id above zero): codes are
/// unique only within a tenant.
pub fn check_code_scope(operator_tenant: i64) -> (r: Result<(), AppError>)
    ensures
        r is Ok <==> operator_tenant > 0,
        r matches Err(e) ==> is_validation(e, "tenant scope required to query dict type by code"@),
{
    if operator_tenant <= 0 {
        return Err(
            AppError::Validation(String::from_str("tenant scope required to query dict type by code")),
        );
    }
    Ok(())
}

/// A batch delete needs at least one id.
pub fn check_delete_ids(q: &DeleteIdsQuery) -> (r: Result<(), AppError>)
    ensures
        r is Ok <==> q.ids@.len() > 0,
        r matches Err(e) ==> is_validation(e, "invalid parameter"@),
{
    if q.ids.len() == 0 {
        return Err(AppError::Validation(String::from_str("invalid parameter")));
    }
    Ok(())
}


/// The unique check of a dict type write: the type code of a create (an
/// update does not change it).
pub fn dict_type_checks(type_code: Option<&str>) -> (r: Vec<String>)
    ensures
        r@.map_values(|m: String| m@) == check_of("dict type code already exists: "@, opt_view(type_code)),
{
    let r = value_checks("dict type code already exists: ", type_code, "", None);
    proof {
        assert(check_of("dict type code already exists: "@, opt_view(type_code)) + Seq::<Seq<char>>::empty()
            =~= check_of("dict type code already exists: "@, opt_view(type_code)));
    }
    r
}

/// The conversation of an update request (see `Upsert`); an update of no
/// row is answered `dict type not found`.
pub fn dict_type_conversation(allow_missing: bool) -> (r: Upsert)
    ensures
        r.allow_missing == allow_missing,
        r.not_found@ == "dict type not found"@,
{
    Upsert { allow_missing, not_found: String::from_str("dict type not found") }
}

} // verus!

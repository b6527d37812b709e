//! Internal message categories: a name and a code, both required and
//! unique; enabled unless said otherwise.

use vstd::prelude::*;
use vstd::string::*;
use crate::handlers::upsert::{Upsert, check_of, opt_view, value_checks};
use crate::error::{AppError, is_validation};
use crate::handlers::{blank, is_blank, trimmed, trimmed_or_empty};

verus! {

pub struct InternalMessageCategoryDto {
    pub id: i64,
    pub name: Option<String>,
    pub code: Option<String>,
    pub icon_url: Option<String>,
    pub sort_order: Option<i64>,
    pub is_enabled: Option<bool>,
    pub tenant_id: Option<i64>,
    pub tenant_name: Option<String>,
    pub created_by: Option<i64>,
    pub updated_by: Option<i64>,
    pub deleted_by: Option<i64>,
    pub created_at: Option<String>,
    pub updated_at: Option<String>,
    pub deleted_at: Option<String>,
}

pub struct InternalMessageCategoryData {
    pub name: Option<String>,
    pub code: Option<String>,
    pub icon_url: Option<String>,
    pub sort_order: Option<i64>,
    pub is_enabled: Option<bool>,
    pub tenant_id: Option<i64>,
}

pub struct CreateInternalMessageCategoryBody {
    pub data: Option<InternalMessageCategoryData>,
}

pub struct UpdateInternalMessageCategoryBody {
    pub id: Option<i64>,
    pub data: Option<InternalMessageCategoryData>,
    pub allow_missing: Option<bool>,
}

/// A stored message category.
pub struct InternalMessageCategoryRow {
    pub id: i64,
    pub name: Option<String>,
    pub code: Option<String>,
    pub icon_url: Option<String>,
    pub sort_order: Option<i64>,
    pub is_enabled: Option<bool>,
    pub tenant_id: Option<i64>,
    pub tenant_name: Option<String>,
    pub created_by: Option<i64>,
    pub updated_by: Option<i64>,
    pub deleted_by: Option<i64>,
    pub created_at: Option<String>,
    pub updated_at: Option<String>,
    pub deleted_at: Option<String>,
}

pub fn to_dto(row: &InternalMessageCategoryRow) -> (d: InternalMessageCategoryDto)
    ensures
        d.id == row.id,
        d.name == row.name,
        d.code == row.code,
        d.icon_url == row.icon_url,
        d.sort_order == row.sort_order,
        d.is_enabled == row.is_enabled,
        d.tenant_id == row.tenant_id,
        d.tenant_name == row.tenant_name,
        d.created_by == row.created_by,
        d.updated_by == row.updated_by,
        d.deleted_by == row.deleted_by,
        d.created_at == row.created_at,
        d.updated_at == row.updated_at,
        d.deleted_at == row.deleted_at,
{
    InternalMessageCategoryDto {
        id: row.id,
        name: row.name.clone(),
        code: row.code.clone(),
        icon_url: row.icon_url.clone(),
        sort_order: row.sort_order,
        is_enabled: row.is_enabled,
        tenant_id: row.tenant_id,
        tenant_name: row.tenant_name.clone(),
        created_by: row.created_by,
        updated_by: row.updated_by,
        deleted_by: row.deleted_by,
        created_at: row.created_at.clone(),
        updated_at: row.updated_at.clone(),
        deleted_at: row.deleted_at.clone(),
    }
}


/// Create data must carry a name and a code, neither blank.
pub fn validate_data(data: &InternalMessageCategoryData) -> (r: Result<(), AppError>)
    ensures
        blank(data.name) ==> (r matches Err(e) && is_validation(e, "category name is required"@)),
        !blank(data.name) && blank(data.code) ==> (r matches Err(e) && is_validation(
            e,
            "category code is required"@,
        )),
        r is Ok <==> !blank(data.name) && !blank(data.code),
{
    if is_blank(&data.name) {
        return Err(AppError::Validation(String::from_str("category name is required")));
    }
    if is_blank(&data.code) {
        return Err(AppError::Validation(String::from_str("category code is required")));
    }
    Ok(())
}

/// The trimmed name and code of a create, and whether it is enabled
/// (enabled unless the data says otherwise).
pub fn create_values(data: &InternalMessageCategoryData) -> (r: Result<(String, String, bool), AppError>)
    ensures
        match r {
            Ok((n, c, en)) => !blank(data.name) && !blank(data.code) && n@ == trimmed_or_empty(
                data.name,
            ) && c@ == trimmed_or_empty(data.code) && en == (data.is_enabled != Some(false)),
            Err(e) => blank(data.name) || blank(data.code),
        },
{
    validate_data(data)?;
    let en = match data.is_enabled {
        Some(b) => b,
        None => true,
    };
    Ok((trimmed(&data.name), trimmed(&data.code), en))
}


/// The unique check of a category write: its trimmed code, when written.
pub fn category_checks(code: Option<&str>) -> (r: Vec<String>)
    ensures
        r@.map_values(|m: String| m@) == check_of(
            "internal message category code already exists: "@,
            opt_view(code),
        ),
{
    let r = value_checks("internal message category code already exists: ", code, "", None);
    proof {
        assert(check_of("internal message category code already exists: "@, opt_view(code)) + Seq::<
            Seq<char>,
        >::empty() =~= check_of("internal message category code already exists: "@, opt_view(code)));
    }
    r
}

/// The conversation of an update request (see `Upsert`); an update of no
/// row is answered `internal message category not found`.
pub fn category_conversation(allow_missing: bool) -> (r: Upsert)
    ensures
        r.allow_missing == allow_missing,
        r.not_found@ == "internal message category not found"@,
{
    Upsert { allow_missing, not_found: String::from_str("internal message category not found") }
}

} // verus!

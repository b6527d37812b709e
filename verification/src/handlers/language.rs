//! Languages: a code (immutable, unique), a name and a native name, all
//! required on create.

use vstd::prelude::*;
use vstd::string::*;
use crate::handlers::upsert::{Upsert, check_of, opt_view, value_checks};
use crate::error::{AppError, is_validation};
use crate::handlers::{blank, trimmed_or_empty, required_trimmed, optional_nonblank, opt_nonblank};
use crate::text::{trim, trim_str};

verus! {

pub struct LanguageDto {
    pub id: i64,
    pub language_code: Option<String>,
    pub language_name: Option<String>,
    pub native_name: Option<String>,
    pub is_default: Option<bool>,
    pub is_enabled: Option<bool>,
    pub sort_order: Option<i64>,
    pub created_by: Option<i64>,
    pub updated_by: Option<i64>,
    pub deleted_by: Option<i64>,
    pub created_at: Option<String>,
    pub updated_at: Option<String>,
    pub deleted_at: Option<String>,
}

pub struct LanguageData {
    pub language_code: Option<String>,
    pub language_name: Option<String>,
    pub native_name: Option<String>,
    pub is_default: Option<bool>,
    pub is_enabled: Option<bool>,
    pub sort_order: Option<i64>,
}

pub struct CreateLanguageBody {
    pub data: Option<LanguageData>,
}

pub struct FieldMask {
    pub paths: Vec<String>,
}

pub struct UpdateLanguageBody {
    pub id: Option<i64>,
    pub data: Option<LanguageData>,
    pub update_mask: Option<FieldMask>,
    pub allow_missing: Option<bool>,
}

pub struct DeleteQuery {
    pub id: Option<i64>,
}

pub struct BatchCreateLanguagesBody {
    pub items: Vec<LanguageData>,
}

/// A stored language.
pub struct LanguageRow {
    pub id: i64,
    pub language_code: Option<String>,
    pub language_name: Option<String>,
    pub native_name: Option<String>,
    pub is_default: Option<bool>,
    pub is_enabled: Option<bool>,
    pub sort_order: Option<i64>,
    pub created_by: Option<i64>,
    pub updated_by: Option<i64>,
    pub deleted_by: Option<i64>,
    pub created_at: Option<String>,
    pub updated_at: Option<String>,
    pub deleted_at: Option<String>,
}

pub fn to_dto(row: &LanguageRow) -> (d: LanguageDto)
    ensures
        d.id == row.id,
        d.language_code == row.language_code,
        d.language_name == row.language_name,
        d.native_name == row.native_name,
        d.is_default == row.is_default,
        d.is_enabled == row.is_enabled,
        d.sort_order == row.sort_order,
        d.created_by == row.created_by,
        d.updated_by == row.updated_by,
        d.deleted_by == row.deleted_by,
        d.created_at == row.created_at,
        d.updated_at == row.updated_at,
        d.deleted_at == row.deleted_at,
{
    LanguageDto {
        id: row.id,
        language_code: row.language_code.clone(),
        language_name: row.language_name.clone(),
        native_name: row.native_name.clone(),
        is_default: row.is_default,
        is_enabled: row.is_enabled,
        sort_order: row.sort_order,
        created_by: row.created_by,
        updated_by: row.updated_by,
        deleted_by: row.deleted_by,
        created_at: row.created_at.clone(),
        updated_at: row.updated_at.clone(),
        deleted_at: row.deleted_at.clone(),
    }
}


/// The trimmed code, name and native name of a create, each required.
pub fn validate_data(data: &LanguageData) -> (r: Result<(String, String, String), AppError>)
    ensures
        match r {
            Ok((c, n, nn)) => !blank(data.language_code) && !blank(data.language_name) && !blank(
                data.native_name,
            ) && c@ == trimmed_or_empty(data.language_code) && n@ == trimmed_or_empty(
                data.language_name,
            ) && nn@ == trimmed_or_empty(data.native_name),
            Err(e) => if blank(data.language_code) {
                is_validation(e, "language code is required"@)
            } else if blank(data.language_name) {
                is_validation(e, "language name is required"@)
            } else {
                blank(data.native_name) && is_validation(e, "native name is required"@)
            },
        },
{
    let code = required_trimmed(&data.language_code, "language code is required")?;
    let name = required_trimmed(&data.language_name, "language name is required")?;
    let native = required_trimmed(&data.native_name, "native name is required")?;
    Ok((code, name, native))
}

/// A batch create needs at least one item.
pub fn check_batch(body: &BatchCreateLanguagesBody) -> (r: Result<(), AppError>)
    ensures
        r is Ok <==> body.items@.len() > 0,
        r matches Err(e) ==> is_validation(e, "items is required"@),
{
    if body.items.len() == 0 {
        return Err(AppError::Validation(String::from_str("items is required")));
    }
    Ok(())
}

/// The new name and native name of an update (the code is immutable): each
/// unchanged when absent, refused when blank, trimmed otherwise.
pub fn update_names(data: &LanguageData) -> (r: Result<(Option<String>, Option<String>), AppError>)
    ensures
        match r {
            Ok((n, nn)) => opt_nonblank(data.language_name, "language name is required"@, Ok(n))
                && opt_nonblank(data.native_name, "native name is required"@, Ok(nn)),
            Err(e) => opt_nonblank(data.language_name, "language name is required"@, Err(e)) || (
            opt_nonblank(data.language_name, "language name is required"@, Ok(None))
                || data.language_name is Some) && opt_nonblank(
                data.native_name,
                "native name is required"@,
                Err(e),
            ),
        },
{
    let n = optional_nonblank(&data.language_name, "language name is required")?;
    let nn = optional_nonblank(&data.native_name, "native name is required")?;
    Ok((n, nn))
}

/// The code to look a language up by: the `code` parameter when it is not
/// blank (trimmed); otherwise the lookup goes by id.
pub fn lookup_code(param: Option<&str>) -> (r: Option<String>)
    ensures
        match param {
            Some(p) if trim(p@).len() > 0 => r matches Some(c) && c@ == trim(p@),
            _ => r is None,
        },
{
    match param {
        Some(p) => {
            let t = trim_str(p);
            if t.unicode_len() == 0 {
                None
            } else {
                Some(t)
            }
        },
        None => None,
    }
}

/// A delete needs an id.
pub fn delete_id(q: &DeleteQuery) -> (r: Result<i64, AppError>)
    ensures
        match q.id {
            Some(i) => r == Ok::<i64, AppError>(i),
            None => r matches Err(e) && is_validation(e, "invalid parameter"@),
        },
{
    match q.id {
        Some(i) => Ok(i),
        None => Err(AppError::Validation(String::from_str("invalid parameter"))),
    }
}


/// The unique check of a language write: the language code of a create
/// (an update does not change it).
pub fn language_checks(code: Option<&str>) -> (r: Vec<String>)
    ensures
        r@.map_values(|m: String| m@) == check_of("language code already exists: "@, opt_view(code)),
{
    let r = value_checks("language code already exists: ", code, "", None);
    proof {
        assert(check_of("language code already exists: "@, opt_view(code)) + Seq::<Seq<char>>::empty()
            =~= check_of("language code already exists: "@, opt_view(code)));
    }
    r
}

/// The conversation of an update request (see `Upsert`); an update of no
/// row is answered `language not found`.
pub fn language_conversation(allow_missing: bool) -> (r: Upsert)
    ensures
        r.allow_missing == allow_missing,
        r.not_found@ == "language not found"@,
{
    Upsert { allow_missing, not_found: String::from_str("language not found") }
}

} // verus!

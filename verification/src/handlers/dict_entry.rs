//! Dictionary entries: a value (required, trimmed), an optional numeric
//! value, and per-language labels keyed by language code.

use std::collections::HashMap;
use vstd::prelude::*;
use vstd::string::*;
use crate::error::{AppError, is_validation};
use crate::handlers::{blank, trimmed_or_empty};
use crate::text::{ascii_lower, trim, trim_str, eq_ignore_ascii_case};

verus! {

pub struct DictEntryDto {
    pub id: i64,
    pub type_id: Option<i64>,
    pub entry_value: Option<String>,
    pub numeric_value: Option<i64>,
    pub is_enabled: Option<bool>,
    pub sort_order: Option<i64>,
    pub tenant_id: Option<i64>,
    pub tenant_name: Option<String>,
    pub created_by: Option<i64>,
    pub updated_by: Option<i64>,
    pub created_at: Option<String>,
    pub updated_at: Option<String>,
    pub i18n: HashMap<String, DictEntryI18nDto>,
}

pub struct DictEntryI18nDto {
    /// Always present on the wire (empty when unset).
    pub entry_label: String,
    pub description: Option<String>,
    pub language_code: Option<String>,
    pub language_name: Option<String>,
}

pub struct DictEntryData {
    pub type_id: Option<i64>,
    pub entry_value: Option<String>,
    pub numeric_value: Option<i64>,
    pub is_enabled: Option<bool>,
    pub sort_order: Option<i64>,
    pub tenant_id: Option<i64>,
    pub i18n: HashMap<String, DictEntryI18nData>,
}

pub struct DictEntryI18nData {
    pub entry_label: Option<String>,
    pub description: Option<String>,
}

pub struct CreateDictEntryBody {
    pub data: Option<DictEntryData>,
}

pub struct FieldMask {
    pub paths: Vec<String>,
}

pub struct UpdateDictEntryBody {
    pub id: Option<i64>,
    pub data: Option<DictEntryData>,
    pub update_mask: Option<FieldMask>,
    pub allow_missing: Option<bool>,
}

/// Ids of a batch delete (`?ids=1&ids=2`).
pub struct DeleteIdsQuery {
    pub ids: Vec<i64>,
}

/// The by-type-code response: `items` only, no total.
pub struct ByTypeCodeResponse {
    pub items: Vec<DictEntryDto>,
}

/// A stored dictionary entry.
pub struct DictEntryRow {
    pub id: i64,
    pub type_id: Option<i64>,
    pub entry_value: Option<String>,
    pub numeric_value: Option<i64>,
    pub is_enabled: Option<bool>,
    pub sort_order: Option<i64>,
    pub tenant_id: Option<i64>,
    pub tenant_name: Option<String>,
    pub created_by: Option<i64>,
    pub updated_by: Option<i64>,
    pub created_at: Option<String>,
    pub updated_at: Option<String>,
}

pub fn to_dto(row: &DictEntryRow) -> (d: DictEntryDto)
    ensures
        d.id == row.id,
        d.type_id == row.type_id,
        d.entry_value == row.entry_value,
        d.numeric_value == row.numeric_value,
        d.is_enabled == row.is_enabled,
        d.sort_order == row.sort_order,
        d.tenant_id == row.tenant_id,
        d.tenant_name == row.tenant_name,
        d.created_by == row.created_by,
        d.updated_by == row.updated_by,
        d.created_at == row.created_at,
        d.updated_at == row.updated_at,
        d.i18n@ == Map::<String, DictEntryI18nDto>::empty(),
{
    DictEntryDto {
        id: row.id,
        type_id: row.type_id,
        entry_value: row.entry_value.clone(),
        numeric_value: row.numeric_value,
        is_enabled: row.is_enabled,
        sort_order: row.sort_order,
        tenant_id: row.tenant_id,
        tenant_name: row.tenant_name.clone(),
        created_by: row.created_by,
        updated_by: row.updated_by,
        created_at: row.created_at.clone(),
        updated_at: row.updated_at.clone(),
        i18n: HashMap::new(),
    }
}

/// A stored label of an entry in one language.
pub struct DictEntryI18nRow {
    pub entry_label: Option<String>,
    pub description: Option<String>,
    pub language_code: Option<String>,
}

pub fn to_i18n_dto(row: &DictEntryI18nRow) -> (d: DictEntryI18nDto)
    ensures
        d.entry_label@ == match row.entry_label {
            Some(l) => l@,
            None => Seq::<char>::empty(),
        },
        d.description == row.description,
        d.language_code == row.language_code,
        d.language_name is None,
{
    DictEntryI18nDto {
        entry_label: match &row.entry_label {
            Some(l) => l.clone(),
            None => String::new(),
        },
        description: row.description.clone(),
        language_code: row.language_code.clone(),
        language_name: None,
    }
}

/// The trimmed entry value of a create; a blank value is refused.
pub fn validate_data(data: &DictEntryData) -> (r: Result<String, AppError>)
    ensures
        match r {
            Ok(v) => !blank(data.entry_value) && v@ == trimmed_or_empty(data.entry_value),
            Err(e) => blank(data.entry_value) && is_validation(e, "dict entry value is required"@),
        },
{
    let value = crate::handlers::trimmed(&data.entry_value);
    if value.unicode_len() == 0 {
        return Err(AppError::Validation(String::from_str("dict entry value is required")));
    }
    Ok(value)
}

/// The new value of an update: unchanged when absent, refused when blank,
/// trimmed otherwise.
pub fn update_value(entry_value: &Option<String>) -> (r: Result<Option<String>, AppError>)
    ensures
        match *entry_value {
            None => r == Ok::<Option<String>, AppError>(None),
            Some(v) => if trim(v@).len() == 0 {
                r matches Err(e) && is_validation(e, "dict entry value is required"@)
            } else {
                r matches Ok(Some(t)) && t@ == trim(v@)
            },
        },
{
    match entry_value {
        None => Ok(None),
        Some(v) => {
            let t = trim_str(v.as_str());
            if t.unicode_len() == 0 {
                Err(AppError::Validation(String::from_str("dict entry value is required")))
            } else {
                Ok(Some(t))
            }
        },
    }
}

/// Whether an update mask names `i18n` (in any ASCII case).
pub open spec fn mask_names_i18n(mask: Option<FieldMask>) -> bool {
    mask matches Some(m) && exists|i: int|
        0 <= i < m.paths@.len() && ascii_lower((#[trigger] m.paths@[i])@) == ascii_lower("i18n"@)
}

/// Labels are replaced on update only when the mask names `i18n` and the
/// data carries at least one label.
pub fn replaces_i18n(mask: &Option<FieldMask>, data: &DictEntryData) -> (r: bool)
    ensures
        r == (mask_names_i18n(*mask) && !data.i18n@.is_empty()),
{
    let named = match mask {
        None => false,
        Some(m) => {
            let mut found = false;
            let mut i: usize = 0;
            while i < m.paths.len()
                invariant
                    i <= m.paths.len(),
                    found == exists|j: int|
                        0 <= j < i && ascii_lower((#[trigger] m.paths@[j])@) == ascii_lower("i18n"@),
                decreases m.paths.len() - i,
            {
                if eq_ignore_ascii_case(m.paths[i].as_str(), "i18n") {
                    found = true;
                }
                i += 1;
            }
            found
        },
    };
    named && !data.i18n.is_empty()
}

/// The type code of a by-type-code listing: required, trimmed, non-empty.
pub fn required_type_code(param: Option<&str>) -> (r: Result<String, AppError>)
    ensures
        match param {
            Some(p) => if trim(p@).len() > 0 {
                r matches Ok(c) && c@ == trim(p@)
            } else {
                r matches Err(e) && is_validation(e, "invalid parameter"@)
            },
            None => r matches Err(e) && is_validation(e, "invalid parameter"@),
        },
{
    match param {
        Some(p) => {
            let t = trim_str(p);
            if t.unicode_len() == 0 {
                Err(AppError::Validation(String::from_str("invalid parameter")))
            } else {
                Ok(t)
            }
        },
        None => Err(AppError::Validation(String::from_str("invalid parameter"))),
    }
}

/// A batch delete needs at least one id.
pub fn check_delete_ids(q: &DeleteIdsQuery) -> (r: Result<(), AppError>)
    ensures
        r is Ok <==> q.ids@.len() > 0,
        r matches Err(e) ==> is_validation(e, "invalid parameter"@),
{
    if q.ids.len() == 0 {
        return Err(AppError::Validation(String::from_str("invalid parameter")));
    }
    Ok(())
}

} // verus!

//! System parameters: key/value pairs with a value type (STRING/BOOL/INT).

use vstd::prelude::*;
use vstd::string::*;
use crate::error::{AppError, is_validation};
use crate::handlers::{normalize_upper, upper_enum};
use crate::text::ascii_upper;

verus! {

pub struct ConfigDto {
    pub id: i64,
    pub name: Option<String>,
    pub key: Option<String>,
    pub value: Option<String>,
    /// STRING | BOOL | INT
    pub value_type: Option<String>,
    pub is_built_in: Option<bool>,
}

pub struct ConfigData {
    pub name: Option<String>,
    pub key: Option<String>,
    pub value: Option<String>,
    pub value_type: Option<String>,
    pub is_built_in: Option<bool>,
}

pub struct CreateConfigBody {
    pub data: Option<ConfigData>,
}

pub struct UpdateConfigBody {
    pub id: Option<i64>,
    pub data: Option<ConfigData>,
    pub allow_missing: Option<bool>,
}

/// A stored system parameter.
pub struct ConfigRow {
    pub id: i64,
    pub name: Option<String>,
    pub key: Option<String>,
    pub value: Option<String>,
    pub value_type: Option<String>,
    pub is_built_in: Option<bool>,
}

pub fn to_dto(r: &ConfigRow) -> (d: ConfigDto)
    ensures
        d.id == r.id,
        d.name == r.name,
        d.key == r.key,
        d.value == r.value,
        d.value_type == r.value_type,
        d.is_built_in == r.is_built_in,
{
    ConfigDto {
        id: r.id,
        name: r.name.clone(),
        key: r.key.clone(),
        value: r.value.clone(),
        value_type: r.value_type.clone(),
        is_built_in: r.is_built_in,
    }
}

pub open spec fn value_type_ok(u: Seq<char>) -> bool {
    u == "STRING"@ || u == "BOOL"@ || u == "INT"@
}

pub fn normalize_value_type(v: &str) -> (r: Result<String, AppError>)
    ensures
        upper_enum(r, v@, |u: Seq<char>| value_type_ok(u), "invalid config value type: "@),
{
    normalize_upper(v, &["STRING", "BOOL", "INT"], "invalid config value type: ")
}

/// The values of a parameter create.
pub struct ConfigValues {
    pub key: String,
    /// Normalised value type, `STRING` when absent.
    pub value_type: String,
    pub is_built_in: bool,
}

/// A present, non-empty value.
pub open spec fn filled(o: Option<String>) -> bool {
    o matches Some(x) && x@.len() > 0
}

/// The values of a create: data and a non-empty key are required; the value
/// type is normalised and defaults to `STRING`; built-in defaults to false.
pub fn create_values(data: &Option<ConfigData>) -> (r: Result<ConfigValues, AppError>)
    ensures
        match *data {
            None => r matches Err(e) && is_validation(e, "invalid parameter"@),
            Some(d) => if !filled(d.key) {
                r matches Err(e) && is_validation(e, "key is required"@)
            } else {
                match d.value_type {
                    Some(t) => if value_type_ok(ascii_upper(t@)) {
                        r matches Ok(v) && v.key == d.key.unwrap() && v.value_type@ == ascii_upper(
                            t@,
                        ) && v.is_built_in == (d.is_built_in == Some(true))
                    } else {
                        r matches Err(e) && is_validation(
                            e,
                            "invalid config value type: "@ + t@,
                        )
                    },
                    None => r matches Ok(v) && v.key == d.key.unwrap() && v.value_type@ == "STRING"@
                        && v.is_built_in == (d.is_built_in == Some(true)),
                }
            },
        },
{
    let d = match data {
        Some(d) => d,
        None => {
            return Err(AppError::Validation(String::from_str("invalid parameter")));
        },
    };
    let key = match &d.key {
        Some(k) if k.unicode_len() > 0 => k.clone(),
        _ => {
            return Err(AppError::Validation(String::from_str("key is required")));
        },
    };
    let value_type = match &d.value_type {
        Some(t) => normalize_value_type(t.as_str())?,
        None => String::from_str("STRING"),
    };
    let is_built_in = match d.is_built_in {
        Some(b) => b,
        None => false,
    };
    Ok(ConfigValues { key, value_type, is_built_in })
}

} // verus!

//! Plan quotas: a quota type (USER_LIMIT/STORAGE/API_CALL) and a value
//! that clients send as a number or as a decimal string.

use vstd::prelude::*;
use vstd::string::*;
use crate::error::{AppError, is_validation};
use crate::handlers::{normalize_upper_opt, upper_enum_opt};
use crate::text::{lemma_i64_decimal_roundtrip, ascii_upper, int_decimal, i64_decimal, parse_i64, parse_i64_spec, trim, trim_str, cat};

verus! {

pub struct PlanQuotaDto {
    pub id: i64,
    pub plan_id: Option<i64>,
    pub quota_type: Option<String>,
    pub quota_value: Option<String>,
    pub created_by: Option<i64>,
    pub updated_by: Option<i64>,
    pub deleted_by: Option<i64>,
    pub created_at: Option<String>,
    pub updated_at: Option<String>,
    pub deleted_at: Option<String>,
}

pub enum QuotaValueInput {
    Num(i64),
    Str(String),
}

pub struct PlanQuotaData {
    pub plan_id: Option<i64>,
    pub quota_type: Option<String>,
    pub quota_value: Option<QuotaValueInput>,
}

pub struct CreatePlanQuotaBody {
    pub data: Option<PlanQuotaData>,
}

pub struct UpdatePlanQuotaBody {
    pub id: Option<i64>,
    pub data: Option<PlanQuotaData>,
    pub allow_missing: Option<bool>,
}

/// A stored plan quota.
pub struct PlanQuotaRow {
    pub id: i64,
    pub plan_id: Option<i64>,
    pub quota_type: Option<String>,
    pub quota_value: Option<i64>,
    pub created_by: Option<i64>,
    pub updated_by: Option<i64>,
    pub deleted_by: Option<i64>,
    pub created_at: Option<String>,
    pub updated_at: Option<String>,
    pub deleted_at: Option<String>,
}

pub fn to_dto(row: &PlanQuotaRow) -> (d: PlanQuotaDto)
    ensures
        d.id == row.id,
        d.plan_id == row.plan_id,
        d.quota_type == row.quota_type,
        row.quota_value is None ==> d.quota_value is None,
        row.quota_value matches Some(v) ==> (d.quota_value matches Some(t) && t@ == int_decimal(
            v as int,
        )),
        d.created_by == row.created_by,
        d.updated_by == row.updated_by,
        d.deleted_by == row.deleted_by,
        d.created_at == row.created_at,
        d.updated_at == row.updated_at,
        d.deleted_at == row.deleted_at,
{
    PlanQuotaDto {
        id: row.id,
        plan_id: row.plan_id,
        quota_type: row.quota_type.clone(),
        quota_value: match row.quota_value {
            Some(v) => Some(i64_decimal(v)),
            None => None,
        },
        created_by: row.created_by,
        updated_by: row.updated_by,
        deleted_by: row.deleted_by,
        created_at: row.created_at.clone(),
        updated_at: row.updated_at.clone(),
        deleted_at: row.deleted_at.clone(),
    }
}


pub open spec fn quota_type_ok(u: Seq<char>) -> bool {
    u == "USER_LIMIT"@ || u == "STORAGE"@ || u == "API_CALL"@
}

pub open spec fn quota_type_zero(u: Seq<char>) -> bool {
    u == "PLAN_QUOTA_TYPE_UNSPECIFIED"@ || u == ""@
}

pub fn normalize_quota_type(v: &str) -> (r: Result<Option<String>, AppError>)
    ensures
        upper_enum_opt(
            r,
            v@,
            |u: Seq<char>| quota_type_ok(u),
            |u: Seq<char>| quota_type_zero(u),
            "invalid plan quota type: "@,
        ),
{
    normalize_upper_opt(
        v,
        &["USER_LIMIT", "STORAGE", "API_CALL"],
        &["PLAN_QUOTA_TYPE_UNSPECIFIED", ""],
        "invalid plan quota type: ",
    )
}

/// The quota type of the data: absent or zero gives `None`.
pub fn normalized_quota_type(data: &PlanQuotaData) -> (r: Result<Option<String>, AppError>)
    ensures
        match data.quota_type {
            Some(v) => upper_enum_opt(
                r,
                v@,
                |u: Seq<char>| quota_type_ok(u),
                |u: Seq<char>| quota_type_zero(u),
                "invalid plan quota type: "@,
            ),
            None => r == Ok::<Option<String>, AppError>(None),
        },
{
    match &data.quota_type {
        Some(v) => normalize_quota_type(v.as_str()),
        None => Ok(None),
    }
}

/// The quota value of the data: a number as it is, a string as the integer it
/// spells once trimmed.
pub fn normalized_quota_value(data: &PlanQuotaData) -> (r: Result<Option<i64>, AppError>)
    ensures
        match data.quota_value {
            Some(QuotaValueInput::Num(n)) => r == Ok::<Option<i64>, AppError>(Some(n)),
            Some(QuotaValueInput::Str(s)) => match parse_i64_spec(trim(s@)) {
                Some(n) => r == Ok::<Option<i64>, AppError>(Some(n)),
                None => r matches Err(e) && is_validation(e, "invalid quota value: "@ + s@),
            },
            None => r == Ok::<Option<i64>, AppError>(None),
        },
{
    match &data.quota_value {
        Some(QuotaValueInput::Num(n)) => Ok(Some(*n)),
        Some(QuotaValueInput::Str(s)) => {
            let t = trim_str(s.as_str());
            match parse_i64(t.as_str()) {
                Some(n) => Ok(Some(n)),
                None => Err(AppError::Validation(cat("invalid quota value: ", s.as_str()))),
            }
        },
        None => Ok(None),
    }
}

/// A quota value shown as text (as `to_dto` renders it) reads back, when
/// given as the quota value of an update, as the same value.
pub proof fn lemma_quota_text_roundtrip(v: i64)
    ensures
        parse_i64_spec(trim(int_decimal(v as int))) == Some(v),
{
    lemma_i64_decimal_roundtrip(v);
}

} // verus!

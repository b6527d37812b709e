//! The business modules a plan includes (DASHBOARD, OPM, SYSTEM, DICT,
//! TENANT, PERMISSION, LOG, INTERNAL_MESSAGE, FILE, TASK).

use vstd::prelude::*;
use vstd::string::*;
use crate::error::{AppError, is_validation};
use crate::handlers::{normalize_upper_opt, upper_enum_opt};

verus! {

pub struct PlanModuleDto {
    pub id: i64,
    pub plan_id: Option<i64>,
    pub module: Option<String>,
    pub created_by: Option<i64>,
    pub updated_by: Option<i64>,
    pub deleted_by: Option<i64>,
    pub created_at: Option<String>,
    pub updated_at: Option<String>,
    pub deleted_at: Option<String>,
}

pub struct PlanModuleData {
    pub plan_id: Option<i64>,
    pub module: Option<String>,
}

pub struct CreatePlanModuleBody {
    pub data: Option<PlanModuleData>,
}

pub struct UpdatePlanModuleBody {
    pub id: Option<i64>,
    pub data: Option<PlanModuleData>,
    pub allow_missing: Option<bool>,
}

/// A stored plan module.
pub struct PlanModuleRow {
    pub id: i64,
    pub plan_id: Option<i64>,
    pub module: Option<String>,
    pub created_by: Option<i64>,
    pub updated_by: Option<i64>,
    pub deleted_by: Option<i64>,
    pub created_at: Option<String>,
    pub updated_at: Option<String>,
    pub deleted_at: Option<String>,
}

pub fn to_dto(row: &PlanModuleRow) -> (d: PlanModuleDto)
    ensures
        d.id == row.id,
        d.plan_id == row.plan_id,
        d.module == row.module,
        d.created_by == row.created_by,
        d.updated_by == row.updated_by,
        d.deleted_by == row.deleted_by,
        d.created_at == row.created_at,
        d.updated_at == row.updated_at,
        d.deleted_at == row.deleted_at,
{
    PlanModuleDto {
        id: row.id,
        plan_id: row.plan_id,
        module: row.module.clone(),
        created_by: row.created_by,
        updated_by: row.updated_by,
        deleted_by: row.deleted_by,
        created_at: row.created_at.clone(),
        updated_at: row.updated_at.clone(),
        deleted_at: row.deleted_at.clone(),
    }
}


/// The known business modules.
pub open spec fn module_ok(u: Seq<char>) -> bool {
    u == "DASHBOARD"@ || u == "OPM"@ || u == "SYSTEM"@ || u == "DICT"@ || u == "TENANT"@ || u
        == "PERMISSION"@ || u == "LOG"@ || u == "INTERNAL_MESSAGE"@ || u == "FILE"@ || u == "TASK"@
}

pub open spec fn module_zero(u: Seq<char>) -> bool {
    u == "MODULE_UNSPECIFIED"@ || u == ""@
}

pub fn normalize_module(v: &str) -> (r: Result<Option<String>, AppError>)
    ensures
        upper_enum_opt(
            r,
            v@,
            |u: Seq<char>| module_ok(u),
            |u: Seq<char>| module_zero(u),
            "invalid module: "@,
        ),
{
    normalize_upper_opt(
        v,
        &[
            "DASHBOARD",
            "OPM",
            "SYSTEM",
            "DICT",
            "TENANT",
            "PERMISSION",
            "LOG",
            "INTERNAL_MESSAGE",
            "FILE",
            "TASK",
        ],
        &["MODULE_UNSPECIFIED", ""],
        "invalid module: ",
    )
}

/// The module of the data: absent or zero gives `None`.
pub fn normalized_module(data: &PlanModuleData) -> (r: Result<Option<String>, AppError>)
    ensures
        match data.module {
            Some(v) => upper_enum_opt(
                r,
                v@,
                |u: Seq<char>| module_ok(u),
                |u: Seq<char>| module_zero(u),
                "invalid module: "@,
            ),
            None => r == Ok::<Option<String>, AppError>(None),
        },
{
    match &data.module {
        Some(v) => normalize_module(v.as_str()),
        None => Ok(None),
    }
}

} // verus!

//! Script execution logs: one record per run, purged in bulk by time.

use vstd::prelude::*;
use vstd::string::*;
use crate::error::{AppError, is_validation};
use crate::text::{trim, trim_str};

verus! {

pub struct ScriptLogDto {
    pub id: i64,
    pub script_id: i64,
    pub script_name: String,
    pub language: String,
    pub trigger_type: String,
    pub hook_point: String,
    pub version: i64,
    pub success: bool,
    pub duration_ms: i64,
    pub error: Option<String>,
    pub created_at: Option<String>,
}

pub struct PurgeBody {
    pub before: Option<String>,
}

/// A stored script execution record.
pub struct ScriptLogRow {
    pub id: i64,
    pub script_id: i64,
    pub script_name: String,
    pub language: String,
    pub trigger_type: String,
    pub hook_point: String,
    pub version: i64,
    pub success: bool,
    pub duration_ms: i64,
    pub error: Option<String>,
    pub created_at: Option<String>,
}

pub fn to_dto(r: &ScriptLogRow) -> (d: ScriptLogDto)
    ensures
        d.id == r.id,
        d.script_id == r.script_id,
        d.script_name == r.script_name,
        d.language == r.language,
        d.trigger_type == r.trigger_type,
        d.hook_point == r.hook_point,
        d.version == r.version,
        d.success == r.success,
        d.duration_ms == r.duration_ms,
        d.error == r.error,
        d.created_at == r.created_at,
{
    ScriptLogDto {
        id: r.id,
        script_id: r.script_id,
        script_name: r.script_name.clone(),
        language: r.language.clone(),
        trigger_type: r.trigger_type.clone(),
        hook_point: r.hook_point.clone(),
        version: r.version,
        success: r.success,
        duration_ms: r.duration_ms,
        error: r.error.clone(),
        created_at: r.created_at.clone(),
    }
}


/// The cut-off of a purge: the trimmed `before` time when given and not
/// blank; `None` purges with the default cut-off.
pub fn purge_before(body: &PurgeBody) -> (r: Option<String>)
    ensures
        match body.before {
            Some(s) if trim(s@).len() > 0 => r matches Some(t) && t@ == trim(s@),
            _ => r is None,
        },
{
    match &body.before {
        Some(s) => {
            let t = trim_str(s.as_str());
            if t.unicode_len() == 0 {
                None
            } else {
                Some(t)
            }
        },
        None => None,
    }
}

} // verus!

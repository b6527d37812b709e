//! Scheduled tasks: a registered type name (unique per tenant), a type
//! (PERIODIC/DELAY/WAIT_RESULT), a cron spec and a payload. No scheduler is
//! embedded, so the control endpoints answer that none is configured. This
//! module also decides the user/tenant existence lookups and the admin
//! password change request.

use vstd::prelude::*;
use vstd::string::*;
use crate::error::{AppError, is_validation};
use crate::handlers::{member, normalize_upper, upper_enum, words_contain};
use crate::text::{ascii_upper, trim, trim_str, cat, cat3, parse_i64, parse_i64_spec};

verus! {

/// The task type names registered with the system.
pub open spec fn registered(s: Seq<char>) -> bool {
    s == "broadcast_message"@ || s == "tenant_expiry_scan"@ || s == "backup"@ || s == "script_task"@
        || s == "audit_log_archive"@
}

/// The registered task type names, in registration order.
pub fn registered_type_names() -> (r: Vec<String>)
    ensures
        r@.len() == 5,
        r@[0]@ == "broadcast_message"@,
        r@[1]@ == "tenant_expiry_scan"@,
        r@[2]@ == "backup"@,
        r@[3]@ == "script_task"@,
        r@[4]@ == "audit_log_archive"@,
{
    let mut v: Vec<String> = Vec::new();
    v.push(String::from_str("broadcast_message"));
    v.push(String::from_str("tenant_expiry_scan"));
    v.push(String::from_str("backup"));
    v.push(String::from_str("script_task"));
    v.push(String::from_str("audit_log_archive"));
    v
}

pub open spec fn type_ok(u: Seq<char>) -> bool {
    u == "PERIODIC"@ || u == "DELAY"@ || u == "WAIT_RESULT"@
}

pub fn normalize_type(v: &str) -> (r: Result<String, AppError>)
    ensures
        upper_enum(r, v@, |u: Seq<char>| type_ok(u), "invalid task type: "@),
{
    normalize_upper(v, &["PERIODIC", "DELAY", "WAIT_RESULT"], "invalid task type: ")
}

/// The type of a new task: PERIODIC when absent.
pub fn type_or_default(v: &Option<String>) -> (r: Result<String, AppError>)
    ensures
        match *v {
            Some(x) => upper_enum(r, x@, |u: Seq<char>| type_ok(u), "invalid task type: "@),
            None => r matches Ok(t) && t@ == "PERIODIC"@,
        },
{
    match v {
        Some(x) => normalize_type(x.as_str()),
        None => Ok(String::from_str("PERIODIC")),
    }
}

/// A type name must be registered (compared once trimmed).
pub fn require_registered_type_name(typename: &str) -> (r: Result<(), AppError>)
    ensures
        r is Ok <==> (trim(typename@).len() > 0 && registered(trim(typename@))),
        r matches Err(e) ==> is_validation(e, "task type ["@ + typename@ + "] is not registered"@),
{
    let t = trim_str(typename);
    if t.unicode_len() == 0 || !member(
        t.as_str(),
        &["broadcast_message", "tenant_expiry_scan", "backup", "script_task", "audit_log_archive"],
    ) {
        return Err(AppError::Validation(cat3("task type [", typename, "] is not registered")));
    }
    Ok(())
}

/// The error for a type name that the tenant already uses.
pub fn type_name_taken(typename: &str) -> (r: AppError)
    ensures
        is_validation(
            r,
            "task type ["@ + typename@
                + "] already exists, please use a different type or update the existing task"@,
        ),
{
    AppError::Validation(
        cat3(
            "task type [",
            typename,
            "] already exists, please use a different type or update the existing task",
        ),
    )
}

/// The answer of every scheduler control endpoint.
pub fn scheduler_not_configured() -> (r: AppError)
    ensures
        r matches AppError::Internal { context } && context@ == "task scheduler is not configured"@,
{
    AppError::Internal { context: String::from_str("task scheduler is not configured") }
}

/// The type name of an update: the given one (trimmed) when not blank;
/// otherwise the stored one (`None` means the task was not found).
pub fn update_type_name(given: &Option<String>, stored: Option<Option<String>>) -> (r: Result<
    String,
    AppError,
>)
    ensures
        match *given {
            Some(g) if trim(g@).len() > 0 => r matches Ok(t) && t@ == trim(g@),
            _ => match stored {
                None => r matches Err(AppError::NotFound(m)) && m@ == "task not found"@,
                Some(None) => r matches Ok(t) && t@.len() == 0,
                Some(Some(s)) => r == Ok::<String, AppError>(s),
            },
        },
{
    if let Some(g) = given {
        let t = trim_str(g.as_str());
        if t.unicode_len() > 0 {
            return Ok(t);
        }
    }
    match stored {
        None => Err(AppError::NotFound(String::from_str("task not found"))),
        Some(None) => Ok(String::new()),
        Some(Some(s)) => Ok(s),
    }
}

pub struct EditUserPasswordBody {
    pub user_id: Option<i64>,
    pub password: Option<String>,
}

/// The user and the (transport-encrypted) password of an admin password
/// change: the body's non-zero user id, else the path's; both required.
pub fn edit_password_request(body: &EditUserPasswordBody, path_user_id: i64) -> (r: Result<
    (i64, String),
    AppError,
>)
    ensures
        ({
            let uid = match body.user_id {
                Some(u) if u != 0 => u,
                _ => path_user_id,
            };
            if uid == 0 {
                r matches Err(e) && is_validation(e, "userId is required"@)
            } else {
                match body.password {
                    Some(p) if trim(p@).len() > 0 => r == Ok::<(i64, String), AppError>((uid, p)),
                    _ => r matches Err(e) && is_validation(e, "password is required"@),
                }
            }
        }),
{
    let uid = match body.user_id {
        Some(u) if u != 0 => u,
        _ => path_user_id,
    };
    if uid == 0 {
        return Err(AppError::Validation(String::from_str("userId is required")));
    }
    match &body.password {
        Some(p) if trim_str(p.as_str()).unicode_len() > 0 => Ok((uid, p.clone())),
        _ => Err(AppError::Validation(String::from_str("password is required"))),
    }
}

/// How an existence check looks its record up.
pub enum ExistsBy {
    Id(i64),
    Name(String),
}

/// The user lookup of `users:exists`: by `id` when it parses, else by the
/// trimmed `username`; neither is an error.
pub fn user_exists_query(id: Option<&str>, username: Option<&str>) -> (r: Result<ExistsBy, AppError>)
    ensures
        match id {
            Some(s) if parse_i64_spec(s@) is Some => r matches Ok(ExistsBy::Id(x)) && Some(x)
                == parse_i64_spec(s@),
            _ => {
                let u = match username {
                    Some(n) => trim(n@),
                    None => Seq::<char>::empty(),
                };
                if u.len() == 0 {
                    r matches Err(e) && is_validation(e, "id or username is required"@)
                } else {
                    r matches Ok(ExistsBy::Name(n)) && n@ == u
                }
            },
        },
{
    if let Some(s) = id {
        if let Some(x) = parse_i64(s) {
            return Ok(ExistsBy::Id(x));
        }
    }
    let u = match username {
        Some(n) => trim_str(n),
        None => String::new(),
    };
    if u.unicode_len() == 0 {
        return Err(AppError::Validation(String::from_str("id or username is required")));
    }
    Ok(ExistsBy::Name(u))
}

/// The tenant lookup of `tenants:exists`: by the trimmed `code` when not
/// blank, else by the trimmed `name`; both blank is an error.
pub fn tenant_exists_query(code: Option<&str>, name: Option<&str>) -> (r: Result<(bool, String), AppError>)
    ensures
        ({
            let c = match code {
                Some(x) => trim(x@),
                None => Seq::<char>::empty(),
            };
            let n = match name {
                Some(x) => trim(x@),
                None => Seq::<char>::empty(),
            };
            if c.len() > 0 {
                r matches Ok((by_code, v)) && by_code && v@ == c
            } else if n.len() > 0 {
                r matches Ok((by_code, v)) && !by_code && v@ == n
            } else {
                r matches Err(e) && is_validation(e, "code or name is required"@)
            }
        }),
{
    let c = match code {
        Some(x) => trim_str(x),
        None => String::new(),
    };
    let n = match name {
        Some(x) => trim_str(x),
        None => String::new(),
    };
    if c.unicode_len() > 0 {
        Ok((true, c))
    } else if n.unicode_len() > 0 {
        Ok((false, n))
    } else {
        Err(AppError::Validation(String::from_str("code or name is required")))
    }
}

} // verus!

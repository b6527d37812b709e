//! A user's inbox: the recipient records of messages and their status
//! (SENT/RECEIVED/READ/REVOKED/DELETED, by name or by number 0-4).

use vstd::prelude::*;
use vstd::string::*;
use crate::error::{AppError, is_validation};
use crate::handlers::member;
use crate::text::{ascii_upper, to_ascii_upper, cat, trim};

verus! {

pub struct RecipientDto {
    pub id: i64,
    pub message_id: i64,
    pub recipient_user_id: i64,
    /// SENT | RECEIVED | READ | REVOKED | DELETED
    pub status: String,
    pub received_at: Option<String>,
    pub read_at: Option<String>,
    pub title: Option<String>,
    pub content: Option<String>,
    pub tenant_id: Option<i64>,
}

pub struct InboxOpBody {
    pub user_id: Option<i64>,
    pub recipient_ids: Option<Vec<i64>>,
}

pub struct MarkStatusBody {
    pub user_id: Option<i64>,
    pub recipient_ids: Option<Vec<i64>>,
    /// SENT | RECEIVED | READ | REVOKED | DELETED
    pub new_status: Option<String>,
}

/// A stored recipient record.
pub struct RecipientRow {
    pub id: i64,
    pub message_id: i64,
    pub recipient_user_id: i64,
    pub status: String,
    pub received_at: Option<String>,
    pub read_at: Option<String>,
    pub title: Option<String>,
    pub content: Option<String>,
    pub tenant_id: i64,
}

pub fn to_dto(r: &RecipientRow) -> (d: RecipientDto)
    ensures
        d.id == r.id,
        d.message_id == r.message_id,
        d.recipient_user_id == r.recipient_user_id,
        d.status == r.status,
        d.received_at == r.received_at,
        d.read_at == r.read_at,
        d.title == r.title,
        d.content == r.content,
        d.tenant_id == Some(r.tenant_id),
{
    RecipientDto {
        id: r.id,
        message_id: r.message_id,
        recipient_user_id: r.recipient_user_id,
        status: r.status.clone(),
        received_at: r.received_at.clone(),
        read_at: r.read_at.clone(),
        title: r.title.clone(),
        content: r.content.clone(),
        tenant_id: Some(r.tenant_id),
    }
}


/// The status that an upper-cased status name or number denotes.
pub open spec fn status_of(u: Seq<char>) -> Option<Seq<char>> {
    if u == "SENT"@ || u == "0"@ {
        Some("SENT"@)
    } else if u == "RECEIVED"@ || u == "1"@ {
        Some("RECEIVED"@)
    } else if u == "READ"@ || u == "2"@ {
        Some("READ"@)
    } else if u == "REVOKED"@ || u == "3"@ {
        Some("REVOKED"@)
    } else if u == "DELETED"@ || u == "4"@ {
        Some("DELETED"@)
    } else {
        None
    }
}

/// A recipient status by name (any case) or number.
pub fn normalize_status(raw: &str) -> (r: Result<String, AppError>)
    ensures
        match status_of(ascii_upper(raw@)) {
            Some(s) => r matches Ok(x) && x@ == s,
            None => r matches Err(e) && is_validation(e, "invalid newStatus: "@ + ascii_upper(raw@)),
        },
{
    let up = to_ascii_upper(raw);
    let u = up.as_str();
    if member(u, &["SENT", "0"]) {
        Ok(String::from_str("SENT"))
    } else if member(u, &["RECEIVED", "1"]) {
        Ok(String::from_str("RECEIVED"))
    } else if member(u, &["READ", "2"]) {
        Ok(String::from_str("READ"))
    } else if member(u, &["REVOKED", "3"]) {
        Ok(String::from_str("REVOKED"))
    } else if member(u, &["DELETED", "4"]) {
        Ok(String::from_str("DELETED"))
    } else {
        Err(AppError::Validation(cat("invalid newStatus: ", u)))
    }
}

/// The user and status of a status change: a non-zero user and a non-blank
/// status are required, then the status must be known.
pub fn mark_status_request(body: &MarkStatusBody) -> (r: Result<(i64, String), AppError>)
    ensures
        match body.user_id {
            Some(u) if u != 0 => match body.new_status {
                Some(s) if trim(s@).len() > 0 => match status_of(ascii_upper(s@)) {
                    Some(st) => r matches Ok((uid, x)) && uid == u && x@ == st,
                    None => r matches Err(e) && is_validation(e, "invalid newStatus: "@ + ascii_upper(s@)),
                },
                _ => r matches Err(e) && is_validation(e, "newStatus is required"@),
            },
            _ => r matches Err(e) && is_validation(e, "userId is required"@),
        },
{
    let uid = match body.user_id {
        Some(u) if u != 0 => u,
        _ => {
            return Err(AppError::Validation(String::from_str("userId is required")));
        },
    };
    let raw = match &body.new_status {
        Some(s) if crate::text::trim_str(s.as_str()).unicode_len() > 0 => s,
        _ => {
            return Err(AppError::Validation(String::from_str("newStatus is required")));
        },
    };
    let st = normalize_status(raw.as_str())?;
    Ok((uid, st))
}

/// The user of an inbox operation: required and non-zero.
pub fn inbox_user(user_id: Option<i64>) -> (r: Result<i64, AppError>)
    ensures
        match user_id {
            Some(u) if u != 0 => r == Ok::<i64, AppError>(u),
            _ => r matches Err(e) && is_validation(e, "userId is required"@),
        },
{
    match user_id {
        Some(u) if u != 0 => Ok(u),
        _ => Err(AppError::Validation(String::from_str("userId is required"))),
    }
}

} // verus!

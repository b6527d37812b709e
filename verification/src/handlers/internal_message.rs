//! Internal messages: title, content, status (DRAFT/PUBLISHED/SCHEDULED/
//! REVOKED/ARCHIVED/DELETED) and type (NOTIFICATION/PRIVATE/GROUP), sent to
//! every user or to chosen recipients.

use vstd::prelude::*;
use vstd::string::*;
use crate::error::{AppError, is_validation};
use crate::handlers::{normalize_upper, upper_enum, dedup_from, push_positive_unique};
use crate::text::ascii_upper;

verus! {

pub struct InternalMessageDto {
    pub id: i64,
    pub title: Option<String>,
    pub content: Option<String>,
    /// DRAFT | PUBLISHED | SCHEDULED | REVOKED | ARCHIVED | DELETED
    pub status: Option<String>,
    /// NOTIFICATION | PRIVATE | GROUP
    pub type_: Option<String>,
    pub sender_id: Option<i64>,
    pub sender_name: Option<String>,
    pub category_id: Option<i64>,
    pub category_name: Option<String>,
    pub tenant_id: Option<i64>,
    pub tenant_name: Option<String>,
    pub created_by: Option<i64>,
    pub updated_by: Option<i64>,
    pub deleted_by: Option<i64>,
    pub created_at: Option<String>,
    pub updated_at: Option<String>,
    pub deleted_at: Option<String>,
}

pub struct InternalMessageData {
    pub title: Option<String>,
    pub content: Option<String>,
    pub sender_id: Option<i64>,
    pub category_id: Option<i64>,
    pub status: Option<String>,
    pub type_: Option<String>,
}

pub struct UpdateInternalMessageBody {
    pub id: Option<i64>,
    pub data: Option<InternalMessageData>,
    pub allow_missing: Option<bool>,
}

pub struct SendMessageBody {
    /// NOTIFICATION | PRIVATE | GROUP
    pub type_: Option<String>,
    pub recipient_user_id: Option<i64>,
    pub conversation_id: Option<i64>,
    pub category_id: Option<i64>,
    pub target_user_ids: Option<Vec<i64>>,
    pub target_all: Option<bool>,
    pub title: Option<String>,
    pub content: Option<String>,
}

pub struct RevokeMessageBody {
    pub message_id: Option<i64>,
    pub user_id: Option<i64>,
}

pub struct SendMessageResponse {
    pub message_id: i64,
}

/// A stored internal message.
pub struct InternalMessageRow {
    pub id: i64,
    pub title: Option<String>,
    pub content: Option<String>,
    pub status: Option<String>,
    pub type_: Option<String>,
    pub sender_id: Option<i64>,
    pub sender_name: Option<String>,
    pub category_id: Option<i64>,
    pub category_name: Option<String>,
    pub tenant_id: Option<i64>,
    pub tenant_name: Option<String>,
    pub created_by: Option<i64>,
    pub updated_by: Option<i64>,
    pub deleted_by: Option<i64>,
    pub created_at: Option<String>,
    pub updated_at: Option<String>,
    pub deleted_at: Option<String>,
}

pub fn to_dto(row: &InternalMessageRow) -> (d: InternalMessageDto)
    ensures
        d.id == row.id,
        d.title == row.title,
        d.content == row.content,
        d.status == row.status,
        d.type_ == row.type_,
        d.sender_id == row.sender_id,
        d.sender_name == row.sender_name,
        d.category_id == row.category_id,
        d.category_name == row.category_name,
        d.tenant_id == row.tenant_id,
        d.tenant_name == row.tenant_name,
        d.created_by == row.created_by,
        d.updated_by == row.updated_by,
        d.deleted_by == row.deleted_by,
        d.created_at == row.created_at,
        d.updated_at == row.updated_at,
        d.deleted_at == row.deleted_at,
{
    InternalMessageDto {
        id: row.id,
        title: row.title.clone(),
        content: row.content.clone(),
        status: row.status.clone(),
        type_: row.type_.clone(),
        sender_id: row.sender_id,
        sender_name: row.sender_name.clone(),
        category_id: row.category_id,
        category_name: row.category_name.clone(),
        tenant_id: row.tenant_id,
        tenant_name: row.tenant_name.clone(),
        created_by: row.created_by,
        updated_by: row.updated_by,
        deleted_by: row.deleted_by,
        created_at: row.created_at.clone(),
        updated_at: row.updated_at.clone(),
        deleted_at: row.deleted_at.clone(),
    }
}


pub open spec fn status_ok(u: Seq<char>) -> bool {
    u == "DRAFT"@ || u == "PUBLISHED"@ || u == "SCHEDULED"@ || u == "REVOKED"@ || u == "ARCHIVED"@
        || u == "DELETED"@
}

pub open spec fn type_ok(u: Seq<char>) -> bool {
    u == "NOTIFICATION"@ || u == "PRIVATE"@ || u == "GROUP"@
}

pub fn normalize_status(v: &str) -> (r: Result<String, AppError>)
    ensures
        upper_enum(r, v@, |u: Seq<char>| status_ok(u), "invalid message status: "@),
{
    normalize_upper(
        v,
        &["DRAFT", "PUBLISHED", "SCHEDULED", "REVOKED", "ARCHIVED", "DELETED"],
        "invalid message status: ",
    )
}

pub fn normalize_type(v: &str) -> (r: Result<String, AppError>)
    ensures
        upper_enum(r, v@, |u: Seq<char>| type_ok(u), "invalid message type: "@),
{
    normalize_upper(v, &["NOTIFICATION", "PRIVATE", "GROUP"], "invalid message type: ")
}

/// A normalised enum value with a default for an absent one.
pub open spec fn enum_or_default(
    r: Result<String, AppError>,
    v: Option<String>,
    ok: spec_fn(Seq<char>) -> bool,
    prefix: Seq<char>,
    default: Seq<char>,
) -> bool {
    match v {
        Some(x) => if ok(ascii_upper(x@)) {
            r matches Ok(u) && u@ == ascii_upper(x@)
        } else {
            r matches Err(e) && is_validation(e, prefix + x@)
        },
        None => r matches Ok(u) && u@ == default,
    }
}

/// The type of a new message, NOTIFICATION when absent.
pub fn type_or_default(v: &Option<String>) -> (r: Result<String, AppError>)
    ensures
        enum_or_default(r, *v, |u: Seq<char>| type_ok(u), "invalid message type: "@, "NOTIFICATION"@),
{
    match v {
        Some(x) => normalize_type(x.as_str()),
        None => Ok(String::from_str("NOTIFICATION")),
    }
}

/// The status of a new message, DRAFT when absent.
pub fn status_or_default(v: &Option<String>) -> (r: Result<String, AppError>)
    ensures
        enum_or_default(r, *v, |u: Seq<char>| status_ok(u), "invalid message status: "@, "DRAFT"@),
{
    match v {
        Some(x) => normalize_status(x.as_str()),
        None => Ok(String::from_str("DRAFT")),
    }
}

/// Who receives a sent message.
pub enum Targets {
    /// Every user.
    All,
    /// These users.
    Users(Vec<i64>),
}

/// The recipients of a send: everyone when `targetAll` is set; else the
/// `recipientUserId` when it is positive; else the positive `targetUserIds`,
/// each once, in order.
pub fn message_targets(body: &SendMessageBody) -> (r: Targets)
    ensures
        body.target_all == Some(true) ==> r is All,
        body.target_all != Some(true) && (body.recipient_user_id matches Some(u) && u > 0) ==> (
        r matches Targets::Users(v) && v@ == seq![body.recipient_user_id.unwrap()]),
        body.target_all != Some(true) && !(body.recipient_user_id matches Some(u) && u > 0) ==> (
        r matches Targets::Users(v) && v@ == dedup_from(
            Seq::<i64>::empty(),
            match body.target_user_ids {
                Some(ids) => ids@,
                None => Seq::<i64>::empty(),
            },
        )),
{
    if body.target_all == Some(true) {
        return Targets::All;
    }
    if let Some(u) = body.recipient_user_id {
        if u > 0 {
            let mut v: Vec<i64> = Vec::new();
            v.push(u);
            assert(v@ =~= seq![u]);
            return Targets::Users(v);
        }
    }
    let mut seen: Vec<i64> = Vec::new();
    match &body.target_user_ids {
        Some(ids) => {
            push_positive_unique(&mut seen, ids);
        },
        None => {},
    }
    Targets::Users(seen)
}

} // verus!

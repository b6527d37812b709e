//! The error type shared by every handler, with the HTTP status, the Kratos
//! `reason` and the message that the error response carries.

use vstd::prelude::*;
use vstd::string::*;

verus! {

#[derive(Debug)]
pub enum AppError {
    /// A feature that is not implemented.
    NotImplemented,
    /// Parameter or validation failure; the message is the one shown to clients.
    Validation(String),
    /// No usable bearer token.
    Unauthorized,
    Forbidden(String),
    NotFound(String),
    /// Conflict with existing data (unique keys and the like).
    Conflict(String),
    /// Internal failure with a context message.
    Internal { context: String },
    /// A database failure, by its message.
    Db(String),
    /// A Redis failure, by its message.
    Redis(String),
}

/// The Kratos error body (`code`, `reason`, `message`; `metadata` is always `{}`).
pub struct KratosErrorBody {
    pub code: u16,
    pub reason: String,
    pub message: String,
}

pub open spec fn status_of(e: AppError) -> u16 {
    match e {
        AppError::NotImplemented => 501,
        AppError::Validation(_) => 400,
        AppError::Unauthorized => 401,
        AppError::Forbidden(_) => 403,
        AppError::NotFound(_) => 404,
        AppError::Conflict(_) => 409,
        AppError::Internal { .. } => 500,
        AppError::Db(_) => 500,
        AppError::Redis(_) => 500,
    }
}

pub open spec fn reason_of(e: AppError) -> Seq<char> {
    match e {
        AppError::NotImplemented => "NOT_IMPLEMENTED"@,
        AppError::Validation(_) => "BAD_REQUEST"@,
        AppError::Unauthorized => "UNAUTHORIZED"@,
        AppError::Forbidden(_) => "FORBIDDEN"@,
        AppError::NotFound(_) => "NOT_FOUND"@,
        AppError::Conflict(_) => "CONFLICT"@,
        AppError::Internal { .. } => "INTERNAL_SERVER_ERROR"@,
        AppError::Db(_) => "INTERNAL_SERVER_ERROR"@,
        AppError::Redis(_) => "INTERNAL_SERVER_ERROR"@,
    }
}

pub open spec fn message_of(e: AppError) -> Seq<char> {
    match e {
        AppError::NotImplemented => "接口未实现"@,
        AppError::Validation(m) => m@,
        AppError::Unauthorized => "missing bearer token"@,
        AppError::Forbidden(m) => m@,
        AppError::NotFound(m) => m@,
        AppError::Conflict(m) => m@,
        AppError::Internal { context } => context@,
        AppError::Db(m) => "数据库错误: "@ + m@,
        AppError::Redis(m) => "Redis 错误: "@ + m@,
    }
}

/// A validation error carrying the message `m`.
pub open spec fn is_validation(r: AppError, m: Seq<char>) -> bool {
    r matches AppError::Validation(x) && x@ == m
}

impl AppError {
    /// HTTP status code of the error response.
    pub fn status(&self) -> (r: u16)
        ensures
            r == status_of(*self),
    {
        match self {
            AppError::NotImplemented => 501,
            AppError::Validation(_) => 400,
            AppError::Unauthorized => 401,
            AppError::Forbidden(_) => 403,
            AppError::NotFound(_) => 404,
            AppError::Conflict(_) => 409,
            AppError::Internal { .. } => 500,
            AppError::Db(_) => 500,
            AppError::Redis(_) => 500,
        }
    }

    /// Kratos `reason` of the error response.
    pub fn reason(&self) -> (r: String)
        ensures
            r@ == reason_of(*self),
    {
        match self {
            AppError::NotImplemented => String::from_str("NOT_IMPLEMENTED"),
            AppError::Validation(_) => String::from_str("BAD_REQUEST"),
            AppError::Unauthorized => String::from_str("UNAUTHORIZED"),
            AppError::Forbidden(_) => String::from_str("FORBIDDEN"),
            AppError::NotFound(_) => String::from_str("NOT_FOUND"),
            AppError::Conflict(_) => String::from_str("CONFLICT"),
            AppError::Internal { .. } => String::from_str("INTERNAL_SERVER_ERROR"),
            AppError::Db(_) => String::from_str("INTERNAL_SERVER_ERROR"),
            AppError::Redis(_) => String::from_str("INTERNAL_SERVER_ERROR"),
        }
    }

    /// The message of the error response (the error's display text).
    pub fn message(&self) -> (r: String)
        ensures
            r@ == message_of(*self),
    {
        match self {
            AppError::NotImplemented => String::from_str("接口未实现"),
            AppError::Validation(m) => m.clone(),
            AppError::Unauthorized => String::from_str("missing bearer token"),
            AppError::Forbidden(m) => m.clone(),
            AppError::NotFound(m) => m.clone(),
            AppError::Conflict(m) => m.clone(),
            AppError::Internal { context } => context.clone(),
            AppError::Db(m) => String::from_str("数据库错误: ").concat(m.as_str()),
            AppError::Redis(m) => String::from_str("Redis 错误: ").concat(m.as_str()),
        }
    }

    /// The error response body.
    pub fn body(&self) -> (r: KratosErrorBody)
        ensures
            r.code == status_of(*self),
            r.reason@ == reason_of(*self),
            r.message@ == message_of(*self),
    {
        KratosErrorBody { code: self.status(), reason: self.reason(), message: self.message() }
    }
}

/// A validation error with the message `m`.
pub fn validation(m: &str) -> (r: AppError)
    ensures
        is_validation(r, m@),
{
    AppError::Validation(String::from_str(m))
}

/// An internal error with the context `m`.
pub fn internal(m: &str) -> (r: AppError)
    ensures
        r matches AppError::Internal { context } && context@ == m@,
{
    AppError::Internal { context: String::from_str(m) }
}

} // verus!

//! The signed-in user's own profile: its update checks, the avatar, binding
//! an e-mail address with a code, and changing the password.

use vstd::prelude::*;
use vstd::string::*;
use crate::error::{AppError, is_validation};
use crate::handlers::user::UserData;
use crate::crypto::{transport_secret, bcrypt_matches, is_internal, password_accepted};
use crate::text::{trim, trim_str, cat, str_eq, contains_char};

verus! {

pub struct UpdateMeBody {
    pub data: Option<UserData>,
}

pub struct UploadAvatarBody {
    pub image_base64: Option<String>,
    pub image_url: Option<String>,
}

pub struct BindContactBody {
    pub email: Option<BindEmailBody>,
}

pub struct BindEmailBody {
    pub email: Option<String>,
}

pub struct VerifyContactBody {
    pub email: Option<EmailVerificationBody>,
}

pub struct EmailVerificationBody {
    pub email: Option<String>,
    pub code: Option<String>,
}

pub struct ChangePasswordBody {
    pub old_password: Option<String>,
    pub new_password: Option<String>,
}

/// The user name cannot change: a given name that is not blank must be the
/// stored one (once trimmed).
pub fn check_username_unchanged(given: &Option<String>, stored: &Option<String>) -> (r: Result<(), AppError>)
    ensures
        match given {
            Some(u) if trim(u@).len() > 0 && !(stored matches Some(s) && s@ == trim(u@)) => r matches Err(e)
                && is_validation(e, "username is immutable"@),
            _ => r is Ok,
        },
{
    if let Some(u) = given {
        let t = trim_str(u.as_str());
        if t.unicode_len() > 0 {
            let same = match stored {
                Some(s) => str_eq(s.as_str(), t.as_str()),
                None => false,
            };
            if !same {
                return Err(AppError::Validation(String::from_str("username is immutable")));
            }
        }
    }
    Ok(())
}

/// The new avatar: an uploaded image is not supported; else the trimmed
/// image URL, required.
pub fn avatar_source(body: &UploadAvatarBody) -> (r: Result<String, AppError>)
    ensures
        match body.image_base64 {
            Some(b) if trim(b@).len() > 0 => r matches Err(AppError::NotImplemented),
            _ => match body.image_url {
                Some(u) if trim(u@).len() > 0 => r matches Ok(s) && s@ == trim(u@),
                _ => r matches Err(e) && is_validation(e, "invalid avatar source"@),
            },
        },
{
    if let Some(b) = &body.image_base64 {
        if trim_str(b.as_str()).unicode_len() > 0 {
            return Err(AppError::NotImplemented);
        }
    }
    if let Some(u) = &body.image_url {
        let t = trim_str(u.as_str());
        if t.unicode_len() > 0 {
            return Ok(t);
        }
    }
    Err(AppError::Validation(String::from_str("invalid avatar source")))
}

/// The e-mail address to bind: given and not blank (trimmed), and holding
/// an `@`.
pub fn bind_contact_email(body: &BindContactBody) -> (r: Result<String, AppError>)
    ensures
        match body.email {
            Some(BindEmailBody { email: Some(e) }) if trim(e@).len() > 0 => if trim(e@).contains('@') {
                r matches Ok(s) && s@ == trim(e@)
            } else {
                r matches Err(x) && is_validation(x, "invalid email address"@)
            },
            _ => r matches Err(x) && is_validation(x, "only email binding is supported"@),
        },
{
    let contact = match &body.email {
        Some(b) => match &b.email {
            Some(e) => trim_str(e.as_str()),
            None => String::new(),
        },
        None => String::new(),
    };
    if contact.unicode_len() == 0 {
        return Err(AppError::Validation(String::from_str("only email binding is supported")));
    }
    if !contains_char(contact.as_str(), '@') {
        return Err(AppError::Validation(String::from_str("invalid email address")));
    }
    Ok(contact)
}

/// The address and code of a verification, both required and not blank
/// (trimmed).
pub fn verify_contact_fields(body: &VerifyContactBody) -> (r: Result<(String, String), AppError>)
    ensures
        match body.email {
            None => r matches Err(x) && is_validation(x, "only email verification is supported"@),
            Some(f) => match (f.email, f.code) {
                (Some(e), Some(c)) if trim(e@).len() > 0 && trim(c@).len() > 0 => r matches Ok((a, b))
                    && a@ == trim(e@) && b@ == trim(c@),
                _ => r matches Err(x) && is_validation(x, "contact and code are required"@),
            },
        },
{
    let f = match &body.email {
        Some(f) => f,
        None => {
            return Err(AppError::Validation(String::from_str("only email verification is supported")));
        },
    };
    let contact = match &f.email {
        Some(e) => trim_str(e.as_str()),
        None => String::new(),
    };
    if contact.unicode_len() == 0 {
        return Err(AppError::Validation(String::from_str("contact and code are required")));
    }
    let code = match &f.code {
        Some(c) => trim_str(c.as_str()),
        None => String::new(),
    };
    if code.unicode_len() == 0 {
        return Err(AppError::Validation(String::from_str("contact and code are required")));
    }
    Ok((contact, code))
}

/// The conflict of an address that another user has bound.
pub fn email_conflict(contact: &str) -> (r: AppError)
    ensures
        r matches AppError::Conflict(m) && m@ == "email already bound: "@ + contact@,
{
    AppError::Conflict(cat("email already bound: ", contact))
}

/// The subject of the binding e-mail.
pub const BIND_EMAIL_SUBJECT: &'static str = "GoWind Admin 邮箱绑定验证码";

/// The text of the binding e-mail, with its code.
pub fn bind_email_text(code: &str) -> (r: String)
    ensures
        r@ == "您的邮箱绑定验证码是："@ + code@ + "\n\n10 分钟内有效。若非本人操作请忽略本邮件。\n"@,
{
    crate::text::cat3("您的邮箱绑定验证码是：", code, "\n\n10 分钟内有效。若非本人操作请忽略本邮件。\n")
}

/// The error of a failed binding e-mail: internal, with the failure's text.
pub fn bind_send_error(e: &AppError) -> (r: AppError)
    ensures
        is_internal(r, "send verification email failed: "@ + crate::error::message_of(*e)),
{
    AppError::Internal { context: cat("send verification email failed: ", e.message().as_str()) }
}

/// The encrypted old and new passwords, both required.
pub fn password_fields(body: &ChangePasswordBody) -> (r: Result<(String, String), AppError>)
    ensures
        match (body.old_password, body.new_password) {
            (None, _) => r matches Err(e) && is_validation(e, "old_password is required"@),
            (Some(_), None) => r matches Err(e) && is_validation(e, "new_password is required"@),
            (Some(o), Some(n)) => r matches Ok((a, b)) && a@ == o@ && b@ == n@,
        },
{
    let old = match &body.old_password {
        Some(o) => o.clone(),
        None => {
            return Err(AppError::Validation(String::from_str("old_password is required")));
        },
    };
    let new = match &body.new_password {
        Some(n) => n.clone(),
        None => {
            return Err(AppError::Validation(String::from_str("new_password is required")));
        },
    };
    Ok((old, new))
}

/// The check of the old password: it is decrypted and compared with the
/// stored credential (a failed decryption and a mismatch are validation
/// errors).
pub fn check_old_password(secret: &str, credential_type: &str, credential: &str) -> (r: Result<(), AppError>)
    ensures
        match transport_secret(secret@) {
            Err(m) => r matches Err(e) && is_validation(e, m),
            Ok(t) => if password_accepted(credential_type@, credential@, t) {
                r is Ok
            } else {
                r matches Err(e) && is_validation(e, "invalid old password"@)
            },
        },
{
    let plain = crate::crypto::decrypt_transport_secret(secret)?;
    if crate::crypto::check_password(credential_type, credential, plain.as_str()) {
        Ok(())
    } else {
        Err(AppError::Validation(String::from_str("invalid old password")))
    }
}

/// The hash of the new password: it is decrypted, must be at least 8 bytes
/// long, and is hashed; the hash accepts it afterwards.
pub fn new_password_hash(secret: &str) -> (r: Result<String, AppError>)
    ensures
        match transport_secret(secret@) {
            Err(m) => r matches Err(e) && is_validation(e, m),
            Ok(t) => if vstd::utf8::encode_utf8(t).len() < 8 {
                r matches Err(e) && is_validation(e, "password must be at least 8 characters"@)
            } else {
                match r {
                    Ok(h) => bcrypt_matches(t, h@) && password_accepted("PASSWORD_HASH"@, h@, t),
                    Err(e) => is_internal(e, "hash password failed"@),
                }
            },
        },
{
    let plain = crate::crypto::decrypt_transport_secret(secret)?;
    if plain.as_str().as_bytes().len() < 8 {
        return Err(AppError::Validation(String::from_str("password must be at least 8 characters")));
    }
    crate::crypto::hash_password(plain.as_str())
}

} // verus!

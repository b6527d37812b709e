//! Notification channels (e-mail over SMTP): the checks of their requests,
//! the SMTP password stored encrypted, and the test e-mail.

use vstd::prelude::*;
use vstd::string::*;
use crate::error::{AppError, is_validation};
use crate::crypto::{base64_fits, key_view, sealed_form, channel_secret, is_internal};
use crate::mailer::SmtpConfig;
use crate::text::{trim, trim_str, cat, str_eq, int_decimal, i64_decimal, has_prefix, strip_prefix};

verus! {

pub struct CreateChannelBody {
    pub data: Option<ChannelData>,
    pub password: Option<String>,
}

pub struct ChannelData {
    pub id: Option<i64>,
    pub name: Option<String>,
    pub type_: Option<String>,
    pub smtp_host: Option<String>,
    pub smtp_port: Option<i64>,
    pub smtp_username: Option<String>,
    pub smtp_from: Option<String>,
    pub smtp_tls: Option<String>,
    pub enabled: Option<bool>,
    pub remark: Option<String>,
}

pub struct UpdateChannelBody {
    pub id: Option<i64>,
    pub data: Option<ChannelData>,
    pub password: Option<String>,
}

pub struct SendTestEmailBody {
    pub id: Option<i64>,
    pub recipient: Option<String>,
}

/// A stored channel, as the test e-mail reads it.
pub struct ChannelRow {
    pub id: i64,
    pub type_: String,
    pub status: Option<String>,
    pub smtp_host: Option<String>,
    pub smtp_port: Option<i64>,
    pub smtp_username: Option<String>,
    pub smtp_password: Option<String>,
    pub smtp_from: Option<String>,
    pub smtp_tls: Option<String>,
}

/// A channel is addressed by a non-zero id.
pub fn require_id(id: i64) -> (r: Result<(), AppError>)
    ensures
        id == 0 ==> (r matches Err(e) && is_validation(e, "id is required"@)),
        id != 0 ==> r is Ok,
{
    if id == 0 {
        Err(AppError::Validation(String::from_str("id is required")))
    } else {
        Ok(())
    }
}

/// The fields of a new channel that have defaults: the trimmed name, type
/// EMAIL, TLS mode START_TLS, enabled.
pub fn create_defaults(data: &ChannelData) -> (r: (String, String, String, bool))
    ensures
        r.0@ == match data.name {
            Some(n) => trim(n@),
            None => Seq::<char>::empty(),
        },
        r.1@ == match data.type_ {
            Some(t) => t@,
            None => "EMAIL"@,
        },
        r.2@ == match data.smtp_tls {
            Some(t) => t@,
            None => "START_TLS"@,
        },
        r.3 == match data.enabled {
            Some(e) => e,
            None => true,
        },
{
    let name = match &data.name {
        Some(n) => trim_str(n.as_str()),
        None => String::new(),
    };
    let t = match &data.type_ {
        Some(t) => t.clone(),
        None => String::from_str("EMAIL"),
    };
    let tls = match &data.smtp_tls {
        Some(t) => t.clone(),
        None => String::from_str("START_TLS"),
    };
    let enabled = match data.enabled {
        Some(e) => e,
        None => true,
    };
    (name, t, tls, enabled)
}

/// The SMTP password to store: none when it is absent or empty (an update
/// then keeps the stored one), else encrypted as a channel secret.
pub fn password_to_store(password: &Option<String>, key: Option<&[u8]>) -> (r: Result<Option<String>, AppError>)
    requires
        key matches Some(k) ==> k.len() == 32,
        password matches Some(p) ==> base64_fits(vstd::utf8::encode_utf8(p@).len() + 28int),
    ensures
        match password {
            Some(p) if p@.len() > 0 => match key {
                None => r matches Ok(Some(s)) && s@ == p@,
                Some(k) => match r {
                    Ok(Some(s)) => exists|nonce: Seq<u8>|
                        nonce.len() == 12 && sealed_form(k@, nonce, p@) == Some(s@),
                    Ok(None) => false,
                    Err(e) => is_internal(e, "encrypt channel secret failed: aead::Error"@),
                },
            },
            _ => r matches Ok(x) && x is None,
        },
{
    match password {
        Some(p) => if p.unicode_len() > 0 {
            Ok(Some(crate::crypto::encrypt_channel_secret(p.as_str(), key)?))
        } else {
            Ok(None)
        },
        None => Ok(None),
    }
}

/// The recipient of a test e-mail: required, not blank (used trimmed).
pub fn test_recipient(body: &SendTestEmailBody) -> (r: Result<String, AppError>)
    ensures
        match body.recipient {
            Some(x) if trim(x@).len() > 0 => r matches Ok(s) && s@ == trim(x@),
            _ => r matches Err(e) && is_validation(e, "recipient is required"@),
        },
{
    match &body.recipient {
        Some(x) => {
            let t = trim_str(x.as_str());
            if t.unicode_len() > 0 {
                Ok(t)
            } else {
                Err(AppError::Validation(String::from_str("recipient is required")))
            }
        },
        None => Err(AppError::Validation(String::from_str("recipient is required"))),
    }
}

/// A test e-mail goes only through an EMAIL channel that is switched ON.
pub fn check_test_channel(row: &ChannelRow) -> (r: Result<(), AppError>)
    ensures
        row.type_@ != "EMAIL"@ ==> (r matches Err(e) && is_validation(
            e,
            "test email is only available for EMAIL channels"@,
        )),
        row.type_@ == "EMAIL"@ && !(row.status matches Some(s) && s@ == "ON"@) ==> (r matches Err(e)
            && is_validation(e, "notification channel is disabled"@)),
        row.type_@ == "EMAIL"@ && (row.status matches Some(s) && s@ == "ON"@) ==> r is Ok,
{
    if !str_eq(row.type_.as_str(), "EMAIL") {
        return Err(AppError::Validation(String::from_str("test email is only available for EMAIL channels")));
    }
    let on = match &row.status {
        Some(s) => str_eq(s.as_str(), "ON"),
        None => false,
    };
    if !on {
        return Err(AppError::Validation(String::from_str("notification channel is disabled")));
    }
    Ok(())
}

pub open spec fn text_or(o: Option<String>, d: Seq<char>) -> Seq<char> {
    match o {
        Some(x) => x@,
        None => d,
    }
}

/// The SMTP settings of a channel with its decrypted password: missing
/// texts are empty, a missing port is 0 (the stored port is cut to 16 bits),
/// the TLS mode is START_TLS by default.
pub fn smtp_config(row: &ChannelRow, password: String) -> (r: SmtpConfig)
    ensures
        r.host@ == text_or(row.smtp_host, Seq::<char>::empty()),
        r.port == match row.smtp_port {
            Some(p) => p as u16,
            None => 0u16,
        },
        r.username@ == text_or(row.smtp_username, Seq::<char>::empty()),
        r.password@ == password@,
        r.from@ == text_or(row.smtp_from, Seq::<char>::empty()),
        r.tls@ == text_or(row.smtp_tls, "START_TLS"@),
{
    let text = |o: &Option<String>| -> (s: String)
        ensures
            s@ == text_or(*o, Seq::<char>::empty()),
        {
            match o {
                Some(x) => x.clone(),
                None => String::new(),
            }
        };
    SmtpConfig {
        host: text(&row.smtp_host),
        port: match row.smtp_port {
            Some(p) => p as u16,
            None => 0,
        },
        username: text(&row.smtp_username),
        password,
        from: text(&row.smtp_from),
        tls: match &row.smtp_tls {
            Some(t) => t.clone(),
            None => String::from_str("START_TLS"),
        },
    }
}

/// The subject of a test e-mail.
pub const TEST_EMAIL_SUBJECT: &'static str = "GoWind Admin 通知渠道测试邮件";

/// The text of a test e-mail: it names the channel and the operator.
pub fn test_email_body(channel_id: i64, operator_id: i64) -> (r: String)
    ensures
        r@ == "这是一封来自 GoWind Admin 的测试邮件。\n如果您收到了它，说明渠道 ["@ + int_decimal(
            channel_id as int,
        ) + "] 配置可用。\n操作人用户 ID: "@ + int_decimal(operator_id as int) + "\n"@,
{
    let a = cat("这是一封来自 GoWind Admin 的测试邮件。\n如果您收到了它，说明渠道 [", i64_decimal(channel_id).as_str());
    let b = cat(a.as_str(), "] 配置可用。\n操作人用户 ID: ");
    let c = cat(b.as_str(), i64_decimal(operator_id).as_str());
    let r = cat(c.as_str(), "\n");
    proof {
        assert(r@ =~= "这是一封来自 GoWind Admin 的测试邮件。\n如果您收到了它，说明渠道 ["@ + int_decimal(
            channel_id as int,
        ) + "] 配置可用。\n操作人用户 ID: "@ + int_decimal(operator_id as int) + "\n"@);
    }
    r
}

/// The error of a failed test e-mail: a validation failure reads `send test
/// email failed: ` and its message without a leading `send mail failed: `;
/// other errors pass unchanged.
pub fn send_test_error(e: AppError) -> (r: AppError)
    ensures
        match e {
            AppError::Validation(m) => r matches AppError::Validation(x) && x@ == "send test email failed: "@
                + if has_prefix(m@, "send mail failed: "@) {
                m@.subrange(18, m@.len() as int)
            } else {
                m@
            },
            _ => r == e,
        },
{
    match e {
        AppError::Validation(m) => {
            proof {
                reveal_strlit("send mail failed: ");
            }
            let rest = match strip_prefix(m.as_str(), "send mail failed: ") {
                Some(x) => x,
                None => m,
            };
            AppError::Validation(cat("send test email failed: ", rest.as_str()))
        },
        other => other,
    }
}

} // verus!

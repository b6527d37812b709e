//! SMTP settings of a notification channel and how a mail is sent with
//! them: the sender (the `from` address, else the user name), the transport
//! security mode, and whether to log in.

use vstd::prelude::*;
use vstd::string::*;
use crate::text::{trim, trim_str, ascii_lower, eq_ignore_ascii_case};

verus! {

/// The SMTP settings of a channel row.
pub struct SmtpConfig {
    pub host: String,
    pub port: u16,
    pub username: String,
    pub password: String,
    pub from: String,
    /// NONE | START_TLS | SSL
    pub tls: String,
}

/// How the connection to the SMTP server is secured.
#[derive(PartialEq, Eq, Structural, Debug, Clone, Copy)]
pub enum TlsMode {
    /// Implicit TLS from the start (port 465 style).
    Implicit,
    /// A plaintext connection, upgraded with STARTTLS when the server offers
    /// it.
    Opportunistic,
}

/// The sender address: `from`, else the user name when `from` is blank.
pub open spec fn sender_spec(cfg: SmtpConfig) -> Seq<char> {
    if trim(cfg.from@).len() == 0 {
        cfg.username@
    } else {
        cfg.from@
    }
}

/// The security mode of a `tls` setting (any case): SSL is implicit TLS;
/// NONE, START_TLS, an empty setting and anything else start in plaintext
/// and upgrade with STARTTLS when the server offers it.
pub open spec fn tls_mode_spec(tls: Seq<char>) -> TlsMode {
    if ascii_lower(tls) == ascii_lower("SSL"@) {
        TlsMode::Implicit
    } else {
        TlsMode::Opportunistic
    }
}

impl SmtpConfig {
    pub fn from_or_username(&self) -> (r: String)
        ensures
            r@ == sender_spec(*self),
    {
        if trim_str(self.from.as_str()).unicode_len() == 0 {
            self.username.clone()
        } else {
            self.from.clone()
        }
    }

    pub fn tls_mode(&self) -> (r: TlsMode)
        ensures
            r == tls_mode_spec(self.tls@),
    {
        if eq_ignore_ascii_case(self.tls.as_str(), "SSL") {
            TlsMode::Implicit
        } else {
            TlsMode::Opportunistic
        }
    }

    /// The server is logged in to only with a user name.
    pub fn uses_credentials(&self) -> (r: bool)
        ensures
            r == (self.username@.len() > 0),
    {
        self.username.unicode_len() > 0
    }
}

} // verus!

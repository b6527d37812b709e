//! Multi-factor sign-in (TOTP): request and response bodies, the factor
//! overview, and the decisions of enrolment, verification and removal of
//! factors between their storage and cache calls.

use vstd::prelude::*;
use vstd::string::*;
use crate::error::{AppError, is_validation};
use crate::text::{
    trim, trim_str, unicode_uppercase, to_uppercase, str_eq, int_decimal, i64_decimal, parse_i64,
    parse_i64_spec,
};

verus! {

pub struct StartEnrollBody {
    pub method: Option<String>,
    pub phone: Option<String>,
    pub email: Option<String>,
}

pub struct ConfirmEnrollBody {
    pub method: Option<String>,
    pub operation_id: String,
    pub totp_code: Option<String>,
    pub display: Option<String>,
}

pub struct VerifyChallengeBody {
    pub operation_id: String,
    pub totp_code: Option<String>,
}

pub struct DisableMfaBody {
    pub credential_id: Option<String>,
    pub method: Option<String>,
    pub user_id: Option<i64>,
    pub reason: Option<String>,
}

pub struct StartEnrollResp {
    pub totp: TotpResult,
    pub operation_id: String,
    pub expires_at: String,
}

pub struct TotpResult {
    pub secret: String,
    pub otp_auth_url: String,
    pub qr_code_data_uri: String,
}

pub struct ConfirmEnrollResp {
    pub success: bool,
    pub credential_id: String,
}

pub struct MfaStatusResp {
    pub enabled: bool,
    pub enrolled: Vec<EnrolledMethodResp>,
    pub enforcement: String,
}

pub struct EnrolledMethodResp {
    pub id: String,
    pub method: String,
    pub display: String,
    pub enabled: bool,
    pub created_at: Option<String>,
    pub last_used_at: Option<String>,
}

/// The sign-in response after a passed challenge (the refresh token goes in
/// a cookie).
pub struct LoginResp {
    pub token_type: String,
    pub access_token: String,
    pub expires_in: Option<String>,
    pub refresh_token: Option<String>,
    pub scope: Option<String>,
    pub refresh_expires_in: Option<String>,
    pub id_token: Option<String>,
    pub mfa_operation_id: Option<String>,
}

/// A stored factor of a user, without its secret.
pub struct EnrolledFactorInfo {
    pub id: i64,
    pub method: String,
    pub display_name: String,
    pub enabled: bool,
    pub created_at: Option<String>,
    pub last_used_at: Option<String>,
}

/// The method of a factor by name (trimmed, upper-cased): SMS, EMAIL,
/// WEBAUTHN (also for U2F), and TOTP for anything else.
pub open spec fn method_spec(m: Seq<char>) -> Seq<char> {
    let u = unicode_uppercase(trim(m));
    if u == "SMS"@ {
        "SMS"@
    } else if u == "EMAIL"@ {
        "EMAIL"@
    } else if u == "WEBAUTHN"@ || u == "U2F"@ {
        "WEBAUTHN"@
    } else {
        "TOTP"@
    }
}

pub fn method_name(m: &str) -> (r: String)
    ensures
        r@ == method_spec(m@),
{
    let u = to_uppercase(trim_str(m).as_str());
    let us = u.as_str();
    if str_eq(us, "SMS") {
        String::from_str("SMS")
    } else if str_eq(us, "EMAIL") {
        String::from_str("EMAIL")
    } else if str_eq(us, "WEBAUTHN") || str_eq(us, "U2F") {
        String::from_str("WEBAUTHN")
    } else {
        String::from_str("TOTP")
    }
}

pub open spec fn enrolled_view(e: EnrolledMethodResp) -> (Seq<char>, Seq<char>, Seq<char>, bool, Option<String>, Option<String>) {
    (e.id@, e.method@, e.display@, e.enabled, e.created_at, e.last_used_at)
}

/// A factor as listed: its id in decimal, method, display name, state and
/// times.
pub open spec fn factor_listed(i: EnrolledFactorInfo) -> (Seq<char>, Seq<char>, Seq<char>, bool, Option<String>, Option<String>) {
    (int_decimal(i.id as int), i.method@, i.display_name@, i.enabled, i.created_at, i.last_used_at)
}

/// The listed form of each factor, in order.
pub fn to_enrolled_vec(infos: &Vec<EnrolledFactorInfo>) -> (r: Vec<EnrolledMethodResp>)
    ensures
        r.len() == infos.len(),
        forall|k: int| 0 <= k < r.len() ==> enrolled_view(#[trigger] r@[k]) == factor_listed(infos@[k]),
{
    let mut out: Vec<EnrolledMethodResp> = Vec::new();
    let mut i: usize = 0;
    while i < infos.len()
        invariant
            i <= infos.len(),
            out.len() == i,
            forall|k: int| 0 <= k < i ==> enrolled_view(#[trigger] out@[k]) == factor_listed(infos@[k]),
        decreases infos.len() - i,
    {
        let f = &infos[i];
        out.push(
            EnrolledMethodResp {
                id: i64_decimal(f.id),
                method: f.method.clone(),
                display: f.display_name.clone(),
                enabled: f.enabled,
                created_at: f.created_at.clone(),
                last_used_at: f.last_used_at.clone(),
            },
        );
        i += 1;
    }
    out
}

/// Whether some factor is an enabled TOTP factor.
pub open spec fn has_enabled_totp(infos: Seq<EnrolledFactorInfo>) -> bool {
    exists|k: int| 0 <= k < infos.len() && (#[trigger] infos[k]).method@ == "TOTP"@ && infos[k].enabled
}

/// The factor overview of a user: MFA counts as enabled only with an enabled
/// TOTP factor; then the factors are listed and MFA is required, else none
/// are listed and it is not required.
pub fn mfa_status(infos: &Vec<EnrolledFactorInfo>) -> (r: MfaStatusResp)
    ensures
        r.enabled == has_enabled_totp(infos@),
        r.enabled ==> r.enrolled.len() == infos.len() && (forall|k: int|
            0 <= k < r.enrolled.len() ==> enrolled_view(#[trigger] r.enrolled@[k]) == factor_listed(
                infos@[k],
            )) && r.enforcement@ == "MFA_REQUIRED"@,
        !r.enabled ==> r.enrolled.len() == 0 && r.enforcement@ == "MFA_NOT_REQUIRED"@,
{
    let mut has_totp = false;
    let mut i: usize = 0;
    while i < infos.len()
        invariant
            i <= infos.len(),
            has_totp == exists|k: int|
                0 <= k < i && (#[trigger] infos@[k]).method@ == "TOTP"@ && infos@[k].enabled,
        decreases infos.len() - i,
    {
        if str_eq(infos[i].method.as_str(), "TOTP") && infos[i].enabled {
            has_totp = true;
        }
        i += 1;
    }
    if has_totp {
        MfaStatusResp {
            enabled: true,
            enrolled: to_enrolled_vec(infos),
            enforcement: String::from_str("MFA_REQUIRED"),
        }
    } else {
        MfaStatusResp {
            enabled: false,
            enrolled: Vec::new(),
            enforcement: String::from_str("MFA_NOT_REQUIRED"),
        }
    }
}

pub open spec fn text_or(o: Option<String>, d: Seq<char>) -> Seq<char> {
    match o {
        Some(x) => x@,
        None => d,
    }
}

/// Only TOTP can be enrolled (the method defaults to TOTP).
pub fn check_enroll_method(method: &Option<String>) -> (r: Result<(), AppError>)
    ensures
        method_spec(text_or(*method, "TOTP"@)) == "TOTP"@ ==> r is Ok,
        method_spec(text_or(*method, "TOTP"@)) != "TOTP"@ ==> (r matches Err(e) && is_validation(
            e,
            "only TOTP is supported"@,
        )),
{
    let m = match method {
        Some(x) => method_name(x.as_str()),
        None => method_name("TOTP"),
    };
    if str_eq(m.as_str(), "TOTP") {
        Ok(())
    } else {
        Err(AppError::Validation(String::from_str("only TOTP is supported")))
    }
}

/// Whether an enrolment may start: the user's cool-down must be free and no
/// TOTP factor enabled yet.
pub fn start_enroll_gate(cooldown_acquired: bool, totp_enabled: bool) -> (r: Result<(), AppError>)
    ensures
        !cooldown_acquired ==> (r matches Err(e) && is_validation(
            e,
            "enroll request too frequent, retry later"@,
        )),
        cooldown_acquired && totp_enabled ==> (r matches Err(e) && is_validation(
            e,
            "totp already enrolled, disable it first"@,
        )),
        cooldown_acquired && !totp_enabled ==> r is Ok,
{
    if !cooldown_acquired {
        return Err(AppError::Validation(String::from_str("enroll request too frequent, retry later")));
    }
    if totp_enabled {
        return Err(AppError::Validation(String::from_str("totp already enrolled, disable it first")));
    }
    Ok(())
}

/// The check of a confirmed enrolment: the pending enrolment must exist and
/// belong to the operator (tenant and user).
pub fn check_enroll_context(
    found: Option<(i64, i64)>,
    operator_tenant: i64,
    operator_user: i64,
) -> (r: Result<(), AppError>)
    ensures
        match found {
            None => r matches Err(e) && is_validation(e, "invalid or expired enroll operation"@),
            Some((t, u)) => if t == operator_tenant && u == operator_user {
                r is Ok
            } else {
                r matches Err(AppError::Forbidden(m)) && m@ == "enroll operation user mismatch"@
            },
        },
{
    match found {
        None => Err(AppError::Validation(String::from_str("invalid or expired enroll operation"))),
        Some((t, u)) => if t == operator_tenant && u == operator_user {
            Ok(())
        } else {
            Err(AppError::Forbidden(String::from_str("enroll operation user mismatch")))
        },
    }
}

/// The answer of a confirmed enrolment: success with the new factor's id, or
/// failure with an empty id when the code was wrong.
pub fn confirm_response(factor_id: Option<i64>) -> (r: ConfirmEnrollResp)
    ensures
        match factor_id {
            Some(id) => r.success && r.credential_id@ == int_decimal(id as int),
            None => !r.success && r.credential_id@.len() == 0,
        },
{
    match factor_id {
        Some(id) => ConfirmEnrollResp { success: true, credential_id: i64_decimal(id) },
        None => ConfirmEnrollResp { success: false, credential_id: String::new() },
    }
}

/// The error of a sign-in challenge whose code was wrong: when the failures
/// reached their limit the challenge is gone and the user signs in again.
pub fn wrong_code_error(limit_reached: bool) -> (r: AppError)
    ensures
        limit_reached ==> (r matches AppError::Forbidden(m) && m@
            == "too many invalid mfa attempts, please login again"@),
        !limit_reached ==> (r matches AppError::Forbidden(m) && m@ == "invalid mfa code"@),
{
    if limit_reached {
        AppError::Forbidden(String::from_str("too many invalid mfa attempts, please login again"))
    } else {
        AppError::Forbidden(String::from_str("invalid mfa code"))
    }
}

/// The response of a passed challenge.
pub fn build_login_response(access_token: &str) -> (r: LoginResp)
    ensures
        r.token_type@ == "bearer"@,
        r.access_token@ == access_token@,
        r.expires_in matches Some(e) && e@ == int_decimal(crate::auth::ACCESS_TOKEN_TTL as int),
        r.refresh_token is None && r.scope is None && r.refresh_expires_in is None,
        r.id_token is None && r.mfa_operation_id is None,
{
    LoginResp {
        token_type: String::from_str("bearer"),
        access_token: String::from_str(access_token),
        expires_in: Some(i64_decimal(crate::auth::ACCESS_TOKEN_TTL)),
        refresh_token: None,
        scope: None,
        refresh_expires_in: None,
        id_token: None,
        mfa_operation_id: None,
    }
}

/// A credential id: an integer once trimmed.
pub fn parse_credential_id(cid: &str) -> (r: Result<i64, AppError>)
    ensures
        match parse_i64_spec(trim(cid@)) {
            Some(n) => r == Ok::<i64, AppError>(n),
            None => r matches Err(e) && is_validation(e, "invalid credential id"@),
        },
{
    match parse_i64(trim_str(cid).as_str()) {
        Some(n) => Ok(n),
        None => Err(AppError::Validation(String::from_str("invalid credential id"))),
    }
}

/// What a request to disable MFA removes.
pub enum DisablePlan {
    /// Another user's factor, by id (a platform administrator's rescue).
    AdminByCredential { target: i64, factor_id: i64 },
    /// All of another user's factors of a method.
    AdminByMethod { target: i64, method: String },
    /// All of the operator's own factors of a method.
    SelfByMethod { method: String },
    /// One of the operator's own factors, by id.
    SelfByCredential { factor_id: i64 },
}

pub open spec fn roles_contain(roles: Seq<String>, code: Seq<char>) -> bool {
    exists|k: int| 0 <= k < roles.len() && (#[trigger] roles[k])@ == code
}

pub open spec fn nonblank_text(o: Option<String>) -> bool {
    o matches Some(s) && trim(s@).len() > 0
}

/// What a request to disable MFA removes: for another user (only a platform
/// administrator may), one factor by a credential id that is not blank, else
/// the user's TOTP factors (the method must name TOTP); for the operator
/// (also when the target is the operator), the TOTP factors when no
/// credential id is given (the method must name TOTP), else that factor.
/// Whether one of the role codes is `code`.
pub fn has_role(roles: &Vec<String>, code: &str) -> (r: bool)
    ensures
        r == roles_contain(roles@, code@),
{
    let mut k: usize = 0;
    while k < roles.len()
        invariant
            k <= roles.len(),
            forall|j: int| 0 <= j < k ==> (#[trigger] roles@[j])@ != code@,
        decreases roles.len() - k,
    {
        if str_eq(roles[k].as_str(), code) {
            return true;
        }
        k += 1;
    }
    false
}

pub fn disable_plan(body: &DisableMfaBody, operator_user: i64, roles: &Vec<String>) -> (r: Result<
    DisablePlan,
    AppError,
>)
    ensures
        match body.user_id {
            Some(target) if target != operator_user => if !roles_contain(roles@, "platform_admin"@) {
                r matches Err(AppError::Forbidden(m)) && m@
                    == "only platform admin can reset mfa for others"@
            } else if nonblank_text(body.credential_id) {
                match parse_i64_spec(trim(body.credential_id.unwrap()@)) {
                    Some(f) => r matches Ok(DisablePlan::AdminByCredential { target: t, factor_id })
                        && t == target && factor_id == f,
                    None => r matches Err(e) && is_validation(e, "invalid credential id"@),
                }
            } else if method_spec(text_or(body.method, Seq::<char>::empty())) == "TOTP"@ {
                r matches Ok(DisablePlan::AdminByMethod { target: t, method }) && t == target
                    && method@ == "TOTP"@
            } else {
                r matches Err(e) && is_validation(e, "method required when resetting by user"@)
            },
            _ => if !nonblank_text(body.credential_id) {
                if method_spec(text_or(body.method, Seq::<char>::empty())) == "TOTP"@ {
                    r matches Ok(DisablePlan::SelfByMethod { method }) && method@ == "TOTP"@
                } else {
                    r matches Err(e) && is_validation(e, "credential_id or method required"@)
                }
            } else {
                match parse_i64_spec(trim(body.credential_id.unwrap()@)) {
                    Some(f) => r matches Ok(DisablePlan::SelfByCredential { factor_id }) && factor_id
                        == f,
                    None => r matches Err(e) && is_validation(e, "invalid credential id"@),
                }
            },
        },
{
    let cid_given = match &body.credential_id {
        Some(c) => trim_str(c.as_str()).unicode_len() > 0,
        None => false,
    };
    proof {
        reveal_strlit("");
    }
    let method = match &body.method {
        Some(m) => method_name(m.as_str()),
        None => {
            let e = String::new();
            method_name(e.as_str())
        },
    };
    if let Some(target) = body.user_id {
        if target != operator_user {
            if !has_role(roles, "platform_admin") {
                return Err(AppError::Forbidden(String::from_str("only platform admin can reset mfa for others")));
            }
            if cid_given {
                let cid = match &body.credential_id {
                    Some(c) => c.as_str(),
                    None => "",
                };
                let factor_id = parse_credential_id(cid)?;
                return Ok(DisablePlan::AdminByCredential { target, factor_id });
            }
            if !str_eq(method.as_str(), "TOTP") {
                return Err(AppError::Validation(String::from_str("method required when resetting by user")));
            }
            return Ok(DisablePlan::AdminByMethod { target, method });
        }
    }
    if !cid_given {
        if !str_eq(method.as_str(), "TOTP") {
            return Err(AppError::Validation(String::from_str("credential_id or method required")));
        }
        return Ok(DisablePlan::SelfByMethod { method });
    }
    let cid = match &body.credential_id {
        Some(c) => c.as_str(),
        None => "",
    };
    let factor_id = parse_credential_id(cid)?;
    Ok(DisablePlan::SelfByCredential { factor_id })
}

/// The owner of a factor that an administrator removes: it must exist and
/// belong to the target user.
pub fn check_factor_owner(found: Option<(i64, i64)>, target: i64) -> (r: Result<(i64, i64), AppError>)
    ensures
        match found {
            Some((t, u)) if u == target => r == Ok::<(i64, i64), AppError>((t, u)),
            _ => r matches Err(AppError::NotFound(m)) && m@ == "mfa credential not found"@,
        },
{
    match found {
        Some((t, u)) => if u == target {
            Ok((t, u))
        } else {
            Err(AppError::NotFound(String::from_str("mfa credential not found")))
        },
        None => Err(AppError::NotFound(String::from_str("mfa credential not found"))),
    }
}

/// The outcome of removing one's own factors: at least one must be gone.
pub fn removed_outcome(count: u64) -> (r: Result<(), AppError>)
    ensures
        count == 0 ==> (r matches Err(AppError::NotFound(m)) && m@ == "mfa credential not found"@),
        count > 0 ==> r is Ok,
{
    if count == 0 {
        Err(AppError::NotFound(String::from_str("mfa credential not found")))
    } else {
        Ok(())
    }
}

/// WebAuthn factors (named `WEBAUTHN` or `U2F`, in any case and with any
/// surrounding whitespace) are WebAuthn, never TOTP, so enrolling one is
/// refused.
pub proof fn lemma_webauthn_not_totp(m: Seq<char>)
    requires
        unicode_uppercase(trim(m)) == "WEBAUTHN"@ || unicode_uppercase(trim(m)) == "U2F"@,
    ensures
        method_spec(m) == "WEBAUTHN"@,
        method_spec(m) != "TOTP"@,
{
    reveal_strlit("WEBAUTHN");
    reveal_strlit("U2F");
    reveal_strlit("SMS");
    reveal_strlit("EMAIL");
    reveal_strlit("TOTP");
    let u = unicode_uppercase(trim(m));
    assert("SMS"@.len() == 3 && "EMAIL"@.len() == 5 && "WEBAUTHN"@.len() == 8 && "TOTP"@.len() == 4);
    assert("U2F"@[0] == 'U' && "SMS"@[0] == 'S');
    assert(u != "SMS"@);
    assert(u != "EMAIL"@);
}

/// The method of a factor: SMS and EMAIL by name, WebAuthn for WEBAUTHN and
/// U2F, and TOTP for any other name (names trimmed, in any case).
pub proof fn lemma_method_names(m: Seq<char>)
    ensures
        unicode_uppercase(trim(m)) == "SMS"@ ==> method_spec(m) == "SMS"@,
        unicode_uppercase(trim(m)) == "EMAIL"@ ==> method_spec(m) == "EMAIL"@,
        !(unicode_uppercase(trim(m)) == "SMS"@ || unicode_uppercase(trim(m)) == "EMAIL"@ || unicode_uppercase(
            trim(m),
        ) == "WEBAUTHN"@ || unicode_uppercase(trim(m)) == "U2F"@) ==> method_spec(m) == "TOTP"@,
        method_spec(m) == "SMS"@ || method_spec(m) == "EMAIL"@ || method_spec(m) == "WEBAUTHN"@ || method_spec(m)
            == "TOTP"@,
{
}

} // verus!

//! Sign-in: the request and response bodies, the checks of the password and
//! refresh grants, the refresh-token cookies, and reading the refresh token
//! back from a `Cookie` header.

use vstd::prelude::*;
use vstd::string::*;
use crate::error::{AppError, is_validation};
use crate::text::{
    trim, trim_str, split_char, split_char_str, first_index, find_char, chars_of, slice_string,
    str_eq, eq_ignore_ascii_case, ascii_lower, cat, int_decimal, i64_decimal,
};

verus! {

pub struct LoginBody {
    pub grant_type: Option<String>,
    pub client_id: Option<String>,
    pub client_secret: Option<String>,
    pub scope: Option<String>,
    pub redirect_uri: Option<String>,
    pub user_id: Option<i64>,
    pub username: Option<String>,
    pub email: Option<String>,
    pub mobile: Option<String>,
    pub password: Option<String>,
    pub refresh_token: Option<String>,
    pub code: Option<String>,
    pub client_type: Option<String>,
    pub device_id: Option<String>,
    pub jti: Option<String>,
    pub tenant_code: Option<String>,
}

pub struct VerifyCaptchaBody {
    pub captcha_id: String,
    pub user_input: String,
}

pub struct RegisterBody {
    pub username: String,
    pub password: String,
    pub tenant_code: String,
    pub email: Option<String>,
    pub client_type: Option<String>,
}

pub struct ForgotPasswordBody {
    pub identifier: String,
}

pub struct ResetPasswordByCodeBody {
    pub identifier: String,
    pub code: String,
    pub new_password: String,
}

/// The sign-in response; unset fields are left out on the wire.
pub struct LoginResp {
    pub token_type: String,
    pub access_token: String,
    pub expires_in: Option<String>,
    pub refresh_token: Option<String>,
    pub scope: Option<String>,
    pub refresh_expires_in: Option<String>,
    pub id_token: Option<String>,
    pub mfa_operation_id: Option<String>,
}

pub struct CaptchaResp {
    pub captcha_id: String,
    pub image_base64: String,
}

pub struct VerifyCaptchaResp {
    pub valid: bool,
}

pub struct RegisterResp {
    pub user_id: i64,
}

/// The name of the refresh-token cookie.
pub const REFRESH_TOKEN_COOKIE: &'static str = "refresh_token";

/// The name of the cookie that tells the client when the refresh token expires.
pub const REFRESH_EXP_COOKIE: &'static str = "refresh_exp";

/// The path that the refresh-token cookie is sent to.
pub const REFRESH_COOKIE_PATH: &'static str = "/admin/v1/refresh-token";

/// Cookies are marked `Secure` when the request came over HTTPS, as the
/// `X-Forwarded-Proto` header says (any case).
pub fn cookie_secure(forwarded_proto: Option<&str>) -> (r: bool)
    ensures
        r == (forwarded_proto matches Some(p) && ascii_lower(p@) == ascii_lower("https"@)),
{
    match forwarded_proto {
        Some(p) => eq_ignore_ascii_case(p, "https"),
        None => false,
    }
}

pub open spec fn secure_suffix(secure: bool) -> Seq<char> {
    if secure {
        "; Secure"@
    } else {
        Seq::<char>::empty()
    }
}

/// The `Set-Cookie` value of the refresh token.
pub open spec fn refresh_cookie_spec(token: Seq<char>, max_age: int, secure: bool) -> Seq<char> {
    "refresh_token="@ + token + "; Path=/admin/v1/refresh-token; Max-Age="@ + int_decimal(max_age)
        + "; HttpOnly; SameSite=Lax"@ + secure_suffix(secure)
}

/// The `Set-Cookie` value of the refresh token's expiry (a Unix time).
pub open spec fn refresh_exp_cookie_spec(exp_unix: int, max_age: int, secure: bool) -> Seq<char> {
    "refresh_exp="@ + int_decimal(exp_unix) + "; Path=/; Max-Age="@ + int_decimal(max_age)
        + "; SameSite=Lax"@ + secure_suffix(secure)
}

/// The two cookies that hand a refresh token to the client at time `now`
/// (Unix seconds), valid for `max_age` seconds.
pub fn refresh_cookies(token: &str, now: i64, max_age: i64, secure: bool) -> (r: (String, String))
    requires
        i64::MIN <= now + max_age <= i64::MAX,
    ensures
        r.0@ == refresh_cookie_spec(token@, max_age as int, secure),
        r.1@ == refresh_exp_cookie_spec(now + max_age, max_age as int, secure),
{
    let tail = if secure {
        "; Secure"
    } else {
        ""
    };
    proof {
        reveal_strlit("");
    }
    let age = i64_decimal(max_age);
    let rt = cat(
        cat(
            cat(cat("refresh_token=", token).as_str(), "; Path=/admin/v1/refresh-token; Max-Age=").as_str(),
            age.as_str(),
        ).as_str(),
        cat("; HttpOnly; SameSite=Lax", tail).as_str(),
    );
    let exp = cat(
        cat(
            cat(cat("refresh_exp=", i64_decimal(now + max_age).as_str()).as_str(), "; Path=/; Max-Age=").as_str(),
            age.as_str(),
        ).as_str(),
        cat("; SameSite=Lax", tail).as_str(),
    );
    proof {
        assert(rt@ =~= refresh_cookie_spec(token@, max_age as int, secure));
        assert(exp@ =~= refresh_exp_cookie_spec(now + max_age, max_age as int, secure));
    }
    (rt, exp)
}

/// The response of a sign-in that issued tokens: the access token and its
/// lifetime; the refresh token goes in a cookie, not in the body.
pub fn build_login_response(access_token: &str) -> (r: LoginResp)
    ensures
        r.token_type@ == "bearer"@,
        r.access_token@ == access_token@,
        r.expires_in matches Some(e) && e@ == int_decimal(crate::auth::ACCESS_TOKEN_TTL as int),
        r.refresh_token is None,
        r.scope is None,
        r.refresh_expires_in is None,
        r.id_token is None,
        r.mfa_operation_id is None,
{
    LoginResp {
        token_type: String::from_str("bearer"),
        access_token: String::from_str(access_token),
        expires_in: Some(i64_decimal(crate::auth::ACCESS_TOKEN_TTL)),
        refresh_token: None,
        scope: None,
        refresh_expires_in: None,
        id_token: None,
        mfa_operation_id: None,
    }
}

/// The response of a sign-in that needs a second factor: no token, only the
/// operation id of the challenge.
pub fn mfa_challenge_response(operation_id: &str) -> (r: LoginResp)
    ensures
        r.token_type@ == "bearer"@,
        r.access_token@.len() == 0,
        r.expires_in is None,
        r.refresh_token is None,
        r.scope is None,
        r.refresh_expires_in is None,
        r.id_token is None,
        r.mfa_operation_id matches Some(o) && o@ == operation_id@,
{
    LoginResp {
        token_type: String::from_str("bearer"),
        access_token: String::new(),
        expires_in: None,
        refresh_token: None,
        scope: None,
        refresh_expires_in: None,
        id_token: None,
        mfa_operation_id: Some(String::from_str(operation_id)),
    }
}

/// The outcome of the checks of a password sign-in: the grant (default
/// `password`) must be `password`, and a username and a password are
/// required; the username is trimmed.
pub open spec fn password_grant(body: LoginBody) -> Result<(Seq<char>, Seq<char>), Seq<char>> {
    let grant = match body.grant_type {
        Some(g) => g@,
        None => "password"@,
    };
    if grant != "password"@ {
        Err("invalid grant type"@)
    } else if body.username is None {
        Err("username is required"@)
    } else if body.password is None {
        Err("password is required"@)
    } else {
        Ok((trim(body.username.unwrap()@), body.password.unwrap()@))
    }
}

pub fn login_credentials(body: &LoginBody) -> (r: Result<(String, String), AppError>)
    ensures
        match password_grant(*body) {
            Ok((u, p)) => r matches Ok((x, y)) && x@ == u && y@ == p,
            Err(m) => r matches Err(e) && is_validation(e, m),
        },
{
    let ok = match &body.grant_type {
        Some(g) => str_eq(g.as_str(), "password"),
        None => true,
    };
    if !ok {
        return Err(AppError::Validation(String::from_str("invalid grant type")));
    }
    let username = match &body.username {
        Some(u) => trim_str(u.as_str()),
        None => {
            return Err(AppError::Validation(String::from_str("username is required")));
        },
    };
    let password = match &body.password {
        Some(p) => p.clone(),
        None => {
            return Err(AppError::Validation(String::from_str("password is required")));
        },
    };
    Ok((username, password))
}

/// A refresh must use the `refresh_token` grant.
pub fn check_refresh_grant(body: &LoginBody) -> (r: Result<(), AppError>)
    ensures
        match body.grant_type {
            Some(g) if g@ == "refresh_token"@ => r is Ok,
            _ => r matches Err(e) && is_validation(e, "invalid grant type"@),
        },
{
    let ok = match &body.grant_type {
        Some(g) => str_eq(g.as_str(), "refresh_token"),
        None => false,
    };
    if ok {
        Ok(())
    } else {
        proof {
            reveal_strlit("refresh_token");
        }
        Err(AppError::Validation(String::from_str("invalid grant type")))
    }
}

/// The value of the first `name=value` pair (trimmed) whose name is
/// `refresh_token`, among the `;`-separated parts of a `Cookie` header.
pub open spec fn refresh_cookie_value(parts: Seq<Seq<char>>) -> Option<Seq<char>>
    decreases parts.len(),
{
    if parts.len() == 0 {
        None
    } else {
        let kv = trim(parts[0]);
        let i = first_index(kv, '=');
        if i >= 0 && kv.subrange(0, i) == "refresh_token"@ {
            Some(kv.subrange(i + 1, kv.len() as int))
        } else {
            refresh_cookie_value(parts.drop_first())
        }
    }
}

/// The refresh token in a `Cookie` header, or empty.
pub fn extract_refresh_cookie(cookie_header: &str) -> (r: String)
    ensures
        r@ == match refresh_cookie_value(split_char(cookie_header@, ';')) {
            Some(v) => v,
            None => Seq::<char>::empty(),
        },
{
    let parts = split_char_str(cookie_header, ';');
    let ghost ps = split_char(cookie_header@, ';');
    let mut i: usize = 0;
    proof {
        assert(ps.subrange(0, ps.len() as int) =~= ps);
    }
    while i < parts.len()
        invariant
            i <= parts.len(),
            ps == split_char(cookie_header@, ';'),
            crate::text::views(parts@) == ps,
            refresh_cookie_value(ps.subrange(i as int, ps.len() as int)) == refresh_cookie_value(ps),
        decreases parts.len() - i,
    {
        let ghost rest = ps.subrange(i as int, ps.len() as int);
        proof {
            assert(rest[0] == parts@[i as int]@);
            assert(rest.drop_first() =~= ps.subrange(i + 1, ps.len() as int));
        }
        let kv = chars_of(trim_str(parts[i].as_str()).as_str());
        if let Some(k) = find_char(&kv, '=') {
            let name = slice_string(&kv, 0, k);
            if str_eq(name.as_str(), "refresh_token") {
                return slice_string(&kv, k + 1, kv.len());
            }
        }
        i += 1;
    }
    String::new()
}

} // verus!

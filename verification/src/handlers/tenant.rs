//! Tenants: name (required), code, status (ON/OFF/EXPIRED/FREEZE), type
//! (TRIAL/PAID/INTERNAL/PARTNER/CUSTOM), audit status (PENDING/APPROVED/
//! REJECTED) and subscription; a tenant can be created together with its
//! administrator account.

use vstd::prelude::*;
use vstd::string::*;
use vstd::utf8::*;
use crate::error::{AppError, is_validation};
use crate::handlers::{blank, is_blank, normalize_upper, upper_enum};
use crate::text::{ascii_upper, trim, trim_str};

verus! {

pub struct TenantDto {
    pub id: i64,
    pub name: Option<String>,
    pub code: Option<String>,
    pub domain: Option<String>,
    pub logo_url: Option<String>,
    pub industry: Option<String>,
    pub type_: Option<String>,
    pub admin_user_id: Option<i64>,
    pub admin_user_name: Option<String>,
    pub subscription_at: Option<String>,
    pub unsubscribe_at: Option<String>,
    pub expired_at: Option<String>,
    pub subscription_plan: Option<String>,
    pub plan_id: Option<i64>,
    pub member_count: Option<i64>,
    pub status: Option<String>,
    pub audit_status: Option<String>,
    pub created_by: Option<i64>,
    pub updated_by: Option<i64>,
    pub deleted_by: Option<i64>,
    pub created_at: Option<String>,
    pub updated_at: Option<String>,
    pub deleted_at: Option<String>,
}

pub struct TenantData {
    pub name: Option<String>,
    pub code: Option<String>,
    pub domain: Option<String>,
    pub logo_url: Option<String>,
    pub industry: Option<String>,
    pub type_: Option<String>,
    pub status: Option<String>,
    pub audit_status: Option<String>,
    pub subscription_plan: Option<String>,
    pub expired_at: Option<String>,
    pub subscription_at: Option<String>,
    pub unsubscribe_at: Option<String>,
    pub plan_id: Option<i64>,
}

pub struct CreateTenantBody {
    pub data: Option<TenantData>,
}

pub struct UpdateTenantBody {
    pub id: Option<i64>,
    pub data: Option<TenantData>,
    pub allow_missing: Option<bool>,
}

pub struct AdminUserData {
    pub username: Option<String>,
    pub nickname: Option<String>,
    pub realname: Option<String>,
    pub email: Option<String>,
    pub mobile: Option<String>,
}

pub struct CreateTenantWithAdminBody {
    pub tenant: Option<TenantData>,
    pub user: Option<AdminUserData>,
    pub password: Option<String>,
}

/// A stored tenant.
pub struct TenantRow {
    pub id: i64,
    pub name: Option<String>,
    pub code: Option<String>,
    pub domain: Option<String>,
    pub logo_url: Option<String>,
    pub industry: Option<String>,
    pub type_: Option<String>,
    pub admin_user_id: Option<i64>,
    pub admin_user_name: Option<String>,
    pub subscription_at: Option<String>,
    pub unsubscribe_at: Option<String>,
    pub expired_at: Option<String>,
    pub subscription_plan: Option<String>,
    pub plan_id: Option<i64>,
    pub status: Option<String>,
    pub audit_status: Option<String>,
    pub created_by: Option<i64>,
    pub updated_by: Option<i64>,
    pub deleted_by: Option<i64>,
    pub created_at: Option<String>,
    pub updated_at: Option<String>,
    pub deleted_at: Option<String>,
}

pub fn to_dto(row: &TenantRow, member_count: Option<i64>) -> (d: TenantDto)
    ensures
        d.member_count == match member_count {
            Some(c) => if c != 0 {
                Some(c)
            } else {
                None
            },
            None => None,
        },
        d.id == row.id,
        d.name == row.name,
        d.code == row.code,
        d.domain == row.domain,
        d.logo_url == row.logo_url,
        d.industry == row.industry,
        d.type_ == row.type_,
        d.admin_user_id == row.admin_user_id,
        d.admin_user_name == row.admin_user_name,
        d.subscription_at == row.subscription_at,
        d.unsubscribe_at == row.unsubscribe_at,
        d.expired_at == row.expired_at,
        d.subscription_plan == row.subscription_plan,
        d.plan_id == row.plan_id,
        d.status == row.status,
        d.audit_status == row.audit_status,
        d.created_by == row.created_by,
        d.updated_by == row.updated_by,
        d.deleted_by == row.deleted_by,
        d.created_at == row.created_at,
        d.updated_at == row.updated_at,
        d.deleted_at == row.deleted_at,
{
    TenantDto {
        id: row.id,
        name: row.name.clone(),
        code: row.code.clone(),
        domain: row.domain.clone(),
        logo_url: row.logo_url.clone(),
        industry: row.industry.clone(),
        type_: row.type_.clone(),
        admin_user_id: row.admin_user_id,
        admin_user_name: row.admin_user_name.clone(),
        subscription_at: row.subscription_at.clone(),
        unsubscribe_at: row.unsubscribe_at.clone(),
        expired_at: row.expired_at.clone(),
        subscription_plan: row.subscription_plan.clone(),
        plan_id: row.plan_id,
        member_count: match member_count {
            Some(c) => if c != 0 {
                Some(c)
            } else {
                None
            },
            None => None,
        },
        status: row.status.clone(),
        audit_status: row.audit_status.clone(),
        created_by: row.created_by,
        updated_by: row.updated_by,
        deleted_by: row.deleted_by,
        created_at: row.created_at.clone(),
        updated_at: row.updated_at.clone(),
        deleted_at: row.deleted_at.clone(),
    }
}


pub open spec fn status_ok(u: Seq<char>) -> bool {
    u == "ON"@ || u == "OFF"@ || u == "EXPIRED"@ || u == "FREEZE"@
}

pub open spec fn type_ok(u: Seq<char>) -> bool {
    u == "TRIAL"@ || u == "PAID"@ || u == "INTERNAL"@ || u == "PARTNER"@ || u == "CUSTOM"@
}

pub open spec fn audit_ok(u: Seq<char>) -> bool {
    u == "PENDING"@ || u == "APPROVED"@ || u == "REJECTED"@
}

pub fn normalize_status(v: &str) -> (r: Result<String, AppError>)
    ensures
        upper_enum(r, v@, |u: Seq<char>| status_ok(u), "invalid tenant status: "@),
{
    normalize_upper(v, &["ON", "OFF", "EXPIRED", "FREEZE"], "invalid tenant status: ")
}

pub fn normalize_type(v: &str) -> (r: Result<String, AppError>)
    ensures
        upper_enum(r, v@, |u: Seq<char>| type_ok(u), "invalid tenant type: "@),
{
    normalize_upper(v, &["TRIAL", "PAID", "INTERNAL", "PARTNER", "CUSTOM"], "invalid tenant type: ")
}

pub fn normalize_audit_status(v: &str) -> (r: Result<String, AppError>)
    ensures
        upper_enum(r, v@, |u: Seq<char>| audit_ok(u), "invalid tenant audit status: "@),
{
    normalize_upper(v, &["PENDING", "APPROVED", "REJECTED"], "invalid tenant audit status: ")
}

pub open spec fn accepted(v: Option<String>, ok: spec_fn(Seq<char>) -> bool) -> bool {
    v matches Some(x) ==> ok(ascii_upper(x@))
}

/// The outcome of checking the enums of tenant data: status, then type,
/// then audit status must be known values when given.
pub open spec fn enums_checked(d: TenantData, r: Result<(), AppError>) -> bool {
    if !accepted(d.status, |u: Seq<char>| status_ok(u)) {
        r matches Err(e) && is_validation(e, "invalid tenant status: "@ + d.status.unwrap()@)
    } else if !accepted(d.type_, |u: Seq<char>| type_ok(u)) {
        r matches Err(e) && is_validation(e, "invalid tenant type: "@ + d.type_.unwrap()@)
    } else if !accepted(d.audit_status, |u: Seq<char>| audit_ok(u)) {
        r matches Err(e) && is_validation(e, "invalid tenant audit status: "@ + d.audit_status.unwrap()@)
    } else {
        r is Ok
    }
}

impl TenantData {
    pub fn normalize_enums(&self) -> (r: Result<(), AppError>)
        ensures
            enums_checked(*self, r),
    {
        if let Some(s) = &self.status {
            normalize_status(s.as_str())?;
        }
        if let Some(t) = &self.type_ {
            normalize_type(t.as_str())?;
        }
        if let Some(a) = &self.audit_status {
            normalize_audit_status(a.as_str())?;
        }
        Ok(())
    }
}

/// Create data must have known enums and a name that is not blank.
pub fn validate_create_data(data: &TenantData) -> (r: Result<(), AppError>)
    ensures
        !enums_checked(*data, Ok(())) ==> enums_checked(*data, r),
        enums_checked(*data, Ok(())) && blank(data.name) ==> (r matches Err(e) && is_validation(
            e,
            "tenant name is required"@,
        )),
        r is Ok <==> enums_checked(*data, Ok(())) && !blank(data.name),
{
    data.normalize_enums()?;
    if is_blank(&data.name) {
        return Err(AppError::Validation(String::from_str("tenant name is required")));
    }
    Ok(())
}

/// The parts of a create-with-administrator request, checked in order:
/// tenant data and user data required, tenant data valid, a username that is
/// not blank, and a password of at least 8 bytes once trimmed. Gives the
/// trimmed username and password.
pub fn admin_request(body: &CreateTenantWithAdminBody) -> (r: Result<(String, String), AppError>)
    ensures
        body.tenant is None ==> (r matches Err(e) && is_validation(e, "tenant is required"@)),
        body.tenant is Some && body.user is None ==> (r matches Err(e) && is_validation(
            e,
            "user is required"@,
        )),
        r matches Ok((u, p)) ==> {
            &&& body.tenant matches Some(t) && validate_create_data_ok(t)
            &&& body.user matches Some(us) && !blank(us.username) && u@ == trim(us.username.unwrap()@)
            &&& p@ == match body.password {
                Some(x) => trim(x@),
                None => Seq::<char>::empty(),
            }
            &&& encode_utf8(p@).len() >= 8
        },
        (body.tenant matches Some(t) && validate_create_data_ok(t)) && (body.user matches Some(us)
            && !blank(us.username)) && encode_utf8(
            match body.password {
                Some(x) => trim(x@),
                None => Seq::<char>::empty(),
            },
        ).len() < 8 ==> (r matches Err(e) && is_validation(
            e,
            "password must be at least 8 characters"@,
        )),
        (body.tenant matches Some(t) && validate_create_data_ok(t)) && (body.user matches Some(us)
            && blank(us.username)) ==> (r matches Err(e) && is_validation(e, "username is required"@)),
        (body.tenant matches Some(t) && !validate_create_data_ok(t)) && body.user is Some ==> (
        r matches Err(e) && (!enums_checked(body.tenant.unwrap(), Ok(())) ==> enums_checked(
            body.tenant.unwrap(),
            Err(e),
        )) && (enums_checked(body.tenant.unwrap(), Ok(())) ==> is_validation(e, "tenant name is required"@))),
        (body.tenant matches Some(t) && validate_create_data_ok(t)) && (body.user matches Some(us)
            && !blank(us.username)) && encode_utf8(
            match body.password {
                Some(x) => trim(x@),
                None => Seq::<char>::empty(),
            },
        ).len() >= 8 ==> r is Ok,
{
    let tenant = match &body.tenant {
        Some(t) => t,
        None => {
            return Err(AppError::Validation(String::from_str("tenant is required")));
        },
    };
    let user = match &body.user {
        Some(u) => u,
        None => {
            return Err(AppError::Validation(String::from_str("user is required")));
        },
    };
    let password = match &body.password {
        Some(p) => trim_str(p.as_str()),
        None => String::new(),
    };
    if let Err(e) = validate_create_data(tenant) {
        return Err(e);
    }
    let username = crate::handlers::trimmed(&user.username);
    if username.unicode_len() == 0 {
        return Err(AppError::Validation(String::from_str("username is required")));
    }
    if password.as_str().as_bytes().len() < 8 {
        return Err(AppError::Validation(String::from_str("password must be at least 8 characters")));
    }
    Ok((username, password))
}

pub open spec fn validate_create_data_ok(d: TenantData) -> bool {
    enums_checked(d, Ok(())) && !blank(d.name)
}

} // verus!

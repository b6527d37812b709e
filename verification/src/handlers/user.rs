//! Users: username (required, immutable, unique per tenant), profile,
//! gender (SECRET/MALE/FEMALE), status (NORMAL/DISABLED/PENDING/LOCKED/
//! EXPIRED/CLOSED) and roles. A tenant operator always works inside its own
//! tenant; masked contact values are never written back.

use vstd::prelude::*;
use vstd::string::*;
use crate::handlers::upsert::{Upsert, check_of, opt_view, value_checks};
use crate::error::{AppError, is_validation};
use crate::handlers::{
    blank, trimmed, trimmed_or_empty, normalize_upper, upper_enum, opt_upper_enum,
    normalize_upper_option, dedup_from, push_positive_unique, enum_rejected,
};
use crate::text::{ascii_upper, trim, trim_str, str_eq, contains_char};

verus! {

pub struct UserDto {
    pub id: i64,
    pub tenant_id: Option<i64>,
    pub tenant_name: Option<String>,
    pub org_unit_ids: Vec<i64>,
    pub org_unit_names: Vec<String>,
    pub position_ids: Vec<i64>,
    pub position_names: Vec<String>,
    pub role_ids: Vec<i64>,
    pub roles: Vec<String>,
    pub role_names: Vec<String>,
    pub username: Option<String>,
    pub nickname: Option<String>,
    pub realname: Option<String>,
    pub avatar: Option<String>,
    pub email: Option<String>,
    pub mobile: Option<String>,
    pub telephone: Option<String>,
    pub gender: Option<String>,
    pub address: Option<String>,
    pub region: Option<String>,
    pub description: Option<String>,
    pub remark: Option<String>,
    pub last_login_at: Option<String>,
    pub last_login_ip: Option<String>,
    pub status: Option<String>,
    pub locked_until: Option<String>,
    pub created_by: Option<i64>,
    pub updated_by: Option<i64>,
    pub deleted_by: Option<i64>,
    pub created_at: Option<String>,
    pub updated_at: Option<String>,
    pub deleted_at: Option<String>,
}

pub struct UserData {
    pub username: Option<String>,
    pub nickname: Option<String>,
    pub realname: Option<String>,
    pub avatar: Option<String>,
    pub email: Option<String>,
    pub mobile: Option<String>,
    pub telephone: Option<String>,
    pub gender: Option<String>,
    pub address: Option<String>,
    pub region: Option<String>,
    pub description: Option<String>,
    pub remark: Option<String>,
    pub status: Option<String>,
    pub tenant_id: Option<i64>,
    pub role_id: Option<i64>,
    pub role_ids: Option<Vec<i64>>,
    pub org_unit_ids: Option<Vec<i64>>,
    pub position_ids: Option<Vec<i64>>,
}

pub struct CreateUserBody {
    pub data: Option<UserData>,
    pub password: Option<String>,
}

pub struct UpdateUserBody {
    pub id: Option<i64>,
    pub data: Option<UserData>,
    pub password: Option<String>,
    pub allow_missing: Option<bool>,
}

/// A stored user.
pub struct UserRow {
    pub id: i64,
    pub tenant_id: Option<i64>,
    pub tenant_name: Option<String>,
    pub username: Option<String>,
    pub nickname: Option<String>,
    pub realname: Option<String>,
    pub avatar: Option<String>,
    pub email: Option<String>,
    pub mobile: Option<String>,
    pub telephone: Option<String>,
    pub gender: Option<String>,
    pub address: Option<String>,
    pub region: Option<String>,
    pub description: Option<String>,
    pub remark: Option<String>,
    pub last_login_at: Option<String>,
    pub last_login_ip: Option<String>,
    pub status: Option<String>,
    pub locked_until: Option<String>,
    pub created_by: Option<i64>,
    pub updated_by: Option<i64>,
    pub deleted_by: Option<i64>,
    pub created_at: Option<String>,
    pub updated_at: Option<String>,
    pub deleted_at: Option<String>,
}

pub fn to_dto(
    row: &UserRow,
    role_ids: Vec<i64>,
    roles: Vec<String>,
    role_names: Vec<String>,
    org_unit_ids: Vec<i64>,
    org_unit_names: Vec<String>,
    position_ids: Vec<i64>,
    position_names: Vec<String>,
) -> (d: UserDto)
    ensures
        d.id == row.id,
        d.tenant_id == row.tenant_id,
        d.tenant_name == row.tenant_name,
        d.org_unit_ids == org_unit_ids,
        d.org_unit_names == org_unit_names,
        d.position_ids == position_ids,
        d.position_names == position_names,
        d.role_ids == role_ids,
        d.roles == roles,
        d.role_names == role_names,
        d.username == row.username,
        d.nickname == row.nickname,
        d.realname == row.realname,
        d.avatar == row.avatar,
        d.email == row.email,
        d.mobile == row.mobile,
        d.telephone == row.telephone,
        d.gender == row.gender,
        d.address == row.address,
        d.region == row.region,
        d.description == row.description,
        d.remark == row.remark,
        d.last_login_at == row.last_login_at,
        d.last_login_ip == row.last_login_ip,
        d.status == row.status,
        d.locked_until == row.locked_until,
        d.created_by == row.created_by,
        d.updated_by == row.updated_by,
        d.deleted_by == row.deleted_by,
        d.created_at == row.created_at,
        d.updated_at == row.updated_at,
        d.deleted_at == row.deleted_at,
{
    UserDto {
        id: row.id,
        tenant_id: row.tenant_id,
        tenant_name: row.tenant_name.clone(),
        org_unit_ids,
        org_unit_names,
        position_ids,
        position_names,
        role_ids,
        roles,
        role_names,
        username: row.username.clone(),
        nickname: row.nickname.clone(),
        realname: row.realname.clone(),
        avatar: row.avatar.clone(),
        email: row.email.clone(),
        mobile: row.mobile.clone(),
        telephone: row.telephone.clone(),
        gender: row.gender.clone(),
        address: row.address.clone(),
        region: row.region.clone(),
        description: row.description.clone(),
        remark: row.remark.clone(),
        last_login_at: row.last_login_at.clone(),
        last_login_ip: row.last_login_ip.clone(),
        status: row.status.clone(),
        locked_until: row.locked_until.clone(),
        created_by: row.created_by,
        updated_by: row.updated_by,
        deleted_by: row.deleted_by,
        created_at: row.created_at.clone(),
        updated_at: row.updated_at.clone(),
        deleted_at: row.deleted_at.clone(),
    }
}


pub open spec fn gender_ok(u: Seq<char>) -> bool {
    u == "SECRET"@ || u == "MALE"@ || u == "FEMALE"@
}

pub open spec fn status_ok(u: Seq<char>) -> bool {
    u == "NORMAL"@ || u == "DISABLED"@ || u == "PENDING"@ || u == "LOCKED"@ || u == "EXPIRED"@ || u
        == "CLOSED"@
}

pub fn normalize_gender(v: &str) -> (r: Result<String, AppError>)
    ensures
        upper_enum(r, v@, |u: Seq<char>| gender_ok(u), "invalid user gender: "@),
{
    normalize_upper(v, &["SECRET", "MALE", "FEMALE"], "invalid user gender: ")
}

pub fn normalize_status(v: &str) -> (r: Result<String, AppError>)
    ensures
        upper_enum(r, v@, |u: Seq<char>| status_ok(u), "invalid user status: "@),
{
    normalize_upper(
        v,
        &["NORMAL", "DISABLED", "PENDING", "LOCKED", "EXPIRED", "CLOSED"],
        "invalid user status: ",
    )
}

/// The role ids of the data: `roleId` when positive, then the positive
/// `roleIds` that are not there yet, in order.
pub open spec fn role_ids_of(data: UserData) -> Seq<i64> {
    dedup_from(
        match data.role_id {
            Some(v) if v > 0 => seq![v],
            _ => Seq::<i64>::empty(),
        },
        match data.role_ids {
            Some(ids) => ids@,
            None => Seq::<i64>::empty(),
        },
    )
}

pub fn collect_role_ids(data: &UserData) -> (r: Vec<i64>)
    ensures
        r@ == role_ids_of(*data),
{
    let mut ids: Vec<i64> = Vec::new();
    if let Some(v) = data.role_id {
        if v > 0 {
            ids.push(v);
        }
    }
    proof {
        let base = match data.role_id {
            Some(v) if v > 0 => seq![v],
            _ => Seq::<i64>::empty(),
        };
        assert(ids@ =~= base);
    }
    match &data.role_ids {
        Some(v) => {
            push_positive_unique(&mut ids, v);
        },
        None => {},
    }
    ids
}

/// The tenant a user belongs to: a tenant operator's own tenant, else the
/// given one (`fallback` when none is given), else 0.
pub open spec fn user_tenant(operator_tenant: i64, given: Option<i64>, fallback: Option<i64>) -> i64 {
    if operator_tenant > 0 {
        operator_tenant
    } else {
        match given {
            Some(t) => t,
            None => match fallback {
                Some(t) => t,
                None => 0,
            },
        }
    }
}

fn resolve_tenant(operator_tenant: i64, given: Option<i64>, fallback: Option<i64>) -> (r: i64)
    ensures
        r == user_tenant(operator_tenant, given, fallback),
{
    if operator_tenant > 0 {
        operator_tenant
    } else {
        match given {
            Some(t) => t,
            None => match fallback {
                Some(t) => t,
                None => 0,
            },
        }
    }
}

pub open spec fn view_opt(o: Option<String>) -> Option<Seq<char>> {
    match o {
        Some(x) => Some(x@),
        None => None,
    }
}

/// The values that a user create or update decides.
pub struct UserValues {
    pub username: Option<String>,
    pub tenant_id: i64,
    pub role_ids: Vec<i64>,
    pub email: Option<String>,
    pub mobile: Option<String>,
    pub gender: Option<String>,
    pub status: Option<String>,
}

fn opt_gender(v: &Option<String>) -> (r: Result<Option<String>, AppError>)
    ensures
        opt_upper_enum(*v, |u: Seq<char>| gender_ok(u), "invalid user gender: "@, r),
{
    normalize_upper_option(v, &["SECRET", "MALE", "FEMALE"], "invalid user gender: ")
}

fn opt_status(v: &Option<String>) -> (r: Result<Option<String>, AppError>)
    ensures
        opt_upper_enum(*v, |u: Seq<char>| status_ok(u), "invalid user status: "@, r),
{
    normalize_upper_option(
        v,
        &["NORMAL", "DISABLED", "PENDING", "LOCKED", "EXPIRED", "CLOSED"],
        "invalid user status: ",
    )
}

/// The values of a create: a username that is not blank (trimmed), the
/// tenant, the role ids, the contacts as given and the normalised enums.
pub fn create_values(data: &UserData, operator_tenant: i64) -> (r: Result<UserValues, AppError>)
    ensures
        blank(data.username) ==> (r matches Err(e) && is_validation(e, "username is required"@)),
        r matches Ok(v) ==> {
            &&& !blank(data.username)
            &&& view_opt(v.username) == Some(trimmed_or_empty(data.username))
            &&& v.tenant_id == user_tenant(operator_tenant, data.tenant_id, None)
            &&& v.role_ids@ == role_ids_of(*data)
            &&& v.email == data.email
            &&& v.mobile == data.mobile
            &&& opt_upper_enum(data.gender, |u: Seq<char>| gender_ok(u), "invalid user gender: "@, Ok(v.gender))
            &&& opt_upper_enum(data.status, |u: Seq<char>| status_ok(u), "invalid user status: "@, Ok(v.status))
        },
        r matches Err(e) ==> blank(data.username) || opt_upper_enum(
            data.gender,
            |u: Seq<char>| gender_ok(u),
            "invalid user gender: "@,
            Err(e),
        ) || opt_upper_enum(data.status, |u: Seq<char>| status_ok(u), "invalid user status: "@, Err(e)),
{
    let username = trimmed(&data.username);
    if username.unicode_len() == 0 {
        return Err(AppError::Validation(String::from_str("username is required")));
    }
    let tenant_id = resolve_tenant(operator_tenant, data.tenant_id, None);
    let role_ids = collect_role_ids(data);
    let gender = opt_gender(&data.gender)?;
    let status = opt_status(&data.status)?;
    Ok(UserValues {
        username: Some(username),
        tenant_id,
        role_ids,
        email: data.email.clone(),
        mobile: data.mobile.clone(),
        gender,
        status,
    })
}

/// A masked contact value (one holding `*`) is not written back.
pub open spec fn unmasked(v: Option<String>) -> Option<String> {
    match v {
        Some(x) => if x@.contains('*') {
            None
        } else {
            Some(x)
        },
        None => None,
    }
}

fn unmask(v: &Option<String>) -> (r: Option<String>)
    ensures
        r == unmasked(*v),
{
    match v {
        Some(x) => if contains_char(x.as_str(), '*') {
            None
        } else {
            Some(x.clone())
        },
        None => None,
    }
}

/// A given username that is not blank differs, once trimmed, from the stored
/// one.
pub open spec fn username_changed(existing: UserRow, data: UserData) -> bool {
    data.username matches Some(u) && trim(u@).len() > 0 && view_opt(existing.username) != Some(trim(u@))
}

/// The values of an update of the stored user `existing`: the username may
/// not change (a given one that is not blank must equal the stored one once
/// trimmed); masked contacts are dropped; the tenant falls back to the
/// stored one.
pub fn update_values(existing: &UserRow, data: &UserData, operator_tenant: i64) -> (r: Result<
    UserValues,
    AppError,
>)
    ensures
        username_changed(*existing, *data) ==> (r matches Err(e) && is_validation(e, "username is immutable"@)),
        !username_changed(*existing, *data) && enum_rejected(data.gender, |u: Seq<char>| gender_ok(u))
            ==> (r matches Err(e) && is_validation(e, "invalid user gender: "@ + data.gender.unwrap()@)),
        !username_changed(*existing, *data) && !enum_rejected(data.gender, |u: Seq<char>| gender_ok(u))
            && enum_rejected(data.status, |u: Seq<char>| status_ok(u)) ==> (r matches Err(e)
            && is_validation(e, "invalid user status: "@ + data.status.unwrap()@)),
        r is Err ==> username_changed(*existing, *data) || enum_rejected(data.gender, |u: Seq<char>| gender_ok(u))
            || enum_rejected(data.status, |u: Seq<char>| status_ok(u)),
        r matches Ok(v) ==> {
            &&& !username_changed(*existing, *data)
            &&& v.username is None
            &&& v.tenant_id == user_tenant(operator_tenant, data.tenant_id, existing.tenant_id)
            &&& v.role_ids@ == role_ids_of(*data)
            &&& v.email == unmasked(data.email)
            &&& v.mobile == unmasked(data.mobile)
            &&& opt_upper_enum(data.gender, |u: Seq<char>| gender_ok(u), "invalid user gender: "@, Ok(v.gender))
            &&& opt_upper_enum(data.status, |u: Seq<char>| status_ok(u), "invalid user status: "@, Ok(v.status))
        },
{
    let tenant_id = resolve_tenant(operator_tenant, data.tenant_id, existing.tenant_id);
    if let Some(u) = &data.username {
        let t = trim_str(u.as_str());
        if t.unicode_len() > 0 {
            let same = match &existing.username {
                Some(s) => str_eq(s.as_str(), t.as_str()),
                None => false,
            };
            if !same {
                return Err(AppError::Validation(String::from_str("username is immutable")));
            }
        }
    }
    let role_ids = collect_role_ids(data);
    let email = unmask(&data.email);
    let mobile = unmask(&data.mobile);
    let gender = opt_gender(&data.gender)?;
    let status = opt_status(&data.status)?;
    Ok(UserValues { username: None, tenant_id, role_ids, email, mobile, gender, status })
}

/// The transport-encrypted password of a create or update: the given one
/// when it is not blank; `None` means none was given.
pub fn given_password(p: &Option<String>) -> (r: Option<String>)
    ensures
        match *p {
            Some(x) if trim(x@).len() > 0 => r == Some(x),
            _ => r is None,
        },
{
    match p {
        Some(x) => if trim_str(x.as_str()).unicode_len() > 0 {
            Some(x.clone())
        } else {
            None
        },
        None => None,
    }
}

/// The password a new user gets when none is given.
pub fn default_password() -> (r: String)
    ensures
        r@ == "Abcd@1234"@,
{
    String::from_str("Abcd@1234")
}


/// The plaintext password of a new user: the given one (sent encrypted) when
/// it is not blank, else the default password.
pub open spec fn create_plain(p: Option<String>) -> Result<Seq<char>, Seq<char>> {
    match p {
        Some(x) if trim(x@).len() > 0 => crate::crypto::transport_secret(x@),
        _ => Ok("Abcd@1234"@),
    }
}

/// The password hash of a new user (see `create_plain`).
pub fn create_password_hash(p: &Option<String>) -> (r: Result<String, AppError>)
    ensures
        match create_plain(*p) {
            Err(m) => r matches Err(e) && is_validation(e, m),
            Ok(t) => match r {
                Ok(h) => crate::crypto::bcrypt_matches(t, h@),
                Err(e) => crate::crypto::is_internal(e, "hash password failed"@),
            },
        },
{
    match given_password(p) {
        Some(x) => crate::crypto::transport_password_hash(x.as_str()),
        None => crate::crypto::hash_password(default_password().as_str()),
    }
}


/// The unique check of a user write: the username of a create, within its
/// tenant (an update does not change it).
pub fn username_checks(username: Option<&str>) -> (r: Vec<String>)
    ensures
        r@.map_values(|m: String| m@) == check_of("username already exists: "@, opt_view(username)),
{
    let r = value_checks("username already exists: ", username, "", None);
    proof {
        assert(check_of("username already exists: "@, opt_view(username)) + Seq::<Seq<char>>::empty()
            =~= check_of("username already exists: "@, opt_view(username)));
    }
    r
}

/// The conversation of an update request (see `Upsert`); an update of no
/// row is answered `user not found`.
pub fn user_conversation(allow_missing: bool) -> (r: Upsert)
    ensures
        r.allow_missing == allow_missing,
        r.not_found@ == "user not found"@,
{
    Upsert { allow_missing, not_found: String::from_str("user not found") }
}

} // verus!

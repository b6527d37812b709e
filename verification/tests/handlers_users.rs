use backendr::crypto::{check_password, TRANSPORT_AES_KEY};
use backendr::error::AppError;
use backendr::handlers::tenant::{
    admin_request, normalize_audit_status, validate_create_data, AdminUserData,
    CreateTenantWithAdminBody, TenantData,
};
use backendr::handlers::user::{
    collect_role_ids, create_password_hash, create_values, default_password, given_password,
    normalize_gender, update_values, UserData, UserRow,
};
use backendr::handlers::user_profile::{
    avatar_source, bind_contact_email, bind_email_text, bind_send_error, check_old_password,
    check_username_unchanged, email_conflict, new_password_hash, password_fields,
    verify_contact_fields, BindContactBody, BindEmailBody, ChangePasswordBody,
    EmailVerificationBody, UploadAvatarBody, VerifyContactBody,
};

use base64::Engine;
use cipher::{BlockEncryptMut, KeyIvInit};

fn s(x: &str) -> String {
    x.to_string()
}

fn verr<T>(r: Result<T, AppError>) -> String {
    match r {
        Err(AppError::Validation(m)) => m,
        Err(e) => panic!("expected a validation error, got {:?}", e),
        Ok(_) => panic!("expected a validation error, got Ok"),
    }
}

fn transport_encrypt(plain: &str) -> String {
    let enc = cbc::Encryptor::<aes::Aes128>::new(&TRANSPORT_AES_KEY.into(), &TRANSPORT_AES_KEY.into());
    let ct = enc.encrypt_padded_vec_mut::<cipher::block_padding::Pkcs7>(plain.as_bytes());
    base64::engine::general_purpose::STANDARD.encode(ct)
}

fn tenant(name: Option<&str>, status: Option<&str>, ty: Option<&str>) -> TenantData {
    TenantData {
        name: name.map(s),
        code: None,
        domain: None,
        logo_url: None,
        industry: None,
        type_: ty.map(s),
        status: status.map(s),
        audit_status: None,
        subscription_plan: None,
        expired_at: None,
        subscription_at: None,
        unsubscribe_at: None,
        plan_id: None,
    }
}

#[test]
fn tenants() {
    assert!(validate_create_data(&tenant(Some("T"), Some("freeze"), Some("paid"))).is_ok());
    assert_eq!(verr(validate_create_data(&tenant(None, None, None))), "tenant name is required");
    assert_eq!(verr(validate_create_data(&tenant(Some("T"), Some("gone"), None))), "invalid tenant status: gone");
    assert_eq!(verr(validate_create_data(&tenant(None, None, Some("vip")))), "invalid tenant type: vip");
    assert_eq!(normalize_audit_status("approved").unwrap(), "APPROVED");
    let admin = |u: Option<&str>| AdminUserData { username: u.map(s), nickname: None, realname: None, email: None, mobile: None };
    let body = |t: Option<TenantData>, u: Option<AdminUserData>, p: Option<&str>| CreateTenantWithAdminBody { tenant: t, user: u, password: p.map(s) };
    assert_eq!(admin_request(&body(Some(tenant(Some("T"), None, None)), Some(admin(Some(" root "))), Some(" secret12 "))).unwrap(), (s("root"), s("secret12")));
    assert_eq!(verr(admin_request(&body(None, None, None))), "tenant is required");
    assert_eq!(verr(admin_request(&body(Some(tenant(Some("T"), None, None)), None, None))), "user is required");
    assert_eq!(verr(admin_request(&body(Some(tenant(Some("T"), None, None)), Some(admin(Some(" "))), Some("longenough")))), "username is required");
    assert_eq!(verr(admin_request(&body(Some(tenant(Some("T"), None, None)), Some(admin(Some("a"))), Some("short")))), "password must be at least 8 characters");
}

fn user(name: Option<&str>, role: Option<i64>, roles: Option<Vec<i64>>) -> UserData {
    UserData {
        username: name.map(s),
        nickname: None,
        realname: None,
        avatar: None,
        email: Some(s("a***@x.com")),
        mobile: Some(s("123")),
        telephone: None,
        gender: Some(s("male")),
        address: None,
        region: None,
        description: None,
        remark: None,
        status: None,
        tenant_id: Some(8),
        role_id: role,
        role_ids: roles,
        org_unit_ids: None,
        position_ids: None,
    }
}

fn row(username: Option<&str>, tenant: Option<i64>) -> UserRow {
    UserRow {
        id: 1,
        tenant_id: tenant,
        tenant_name: None,
        username: username.map(s),
        nickname: None,
        realname: None,
        avatar: None,
        email: None,
        mobile: None,
        telephone: None,
        gender: None,
        address: None,
        region: None,
        description: None,
        remark: None,
        last_login_at: None,
        last_login_ip: None,
        status: None,
        locked_until: None,
        created_by: None,
        updated_by: None,
        deleted_by: None,
        created_at: None,
        updated_at: None,
        deleted_at: None,
    }
}

#[test]
fn users_create_update() {
    assert_eq!(normalize_gender("female").unwrap(), "FEMALE");
    assert_eq!(verr(normalize_gender("x")), "invalid user gender: x");
    assert_eq!(collect_role_ids(&user(None, Some(3), Some(vec![4, 3, -1, 4]))), vec![3, 4]);
    assert_eq!(collect_role_ids(&user(None, Some(0), None)), Vec::<i64>::new());
    let v = create_values(&user(Some(" bob "), Some(2), None), 0).unwrap();
    assert_eq!(v.username, Some(s("bob")));
    assert_eq!(v.tenant_id, 8);
    assert_eq!(v.role_ids, vec![2]);
    assert_eq!(v.gender, Some(s("MALE")));
    assert_eq!(v.email, Some(s("a***@x.com")));
    assert_eq!(create_values(&user(Some("bob"), None, None), 5).unwrap().tenant_id, 5);
    assert_eq!(verr(create_values(&user(Some(" "), None, None), 0)), "username is required");
    let u = update_values(&row(Some("bob"), Some(2)), &user(Some("bob"), None, None), 0).unwrap();
    assert_eq!(u.username, None);
    assert_eq!(u.email, None);
    assert_eq!(u.mobile, Some(s("123")));
    assert_eq!(u.tenant_id, 8);
    let mut keep = user(None, None, None);
    keep.tenant_id = None;
    assert_eq!(update_values(&row(Some("bob"), Some(2)), &keep, 0).unwrap().tenant_id, 2);
    assert_eq!(verr(update_values(&row(Some("bob"), None), &user(Some("alice"), None, None), 0)), "username is immutable");
}

#[test]
fn user_passwords() {
    assert_eq!(given_password(&Some(s(" x "))), Some(s(" x ")));
    assert_eq!(given_password(&Some(s(" "))), None);
    assert_eq!(default_password(), "Abcd@1234");
    let h = create_password_hash(&None).unwrap();
    assert!(check_password("PASSWORD_HASH", &h, "Abcd@1234"));
    let h2 = create_password_hash(&Some(transport_encrypt("Secret#99"))).unwrap();
    assert!(check_password("PASSWORD_HASH", &h2, "Secret#99"));
    assert!(matches!(create_password_hash(&Some(s("@@"))), Err(AppError::Validation(_))));
}

#[test]
fn profiles() {
    assert!(check_username_unchanged(&Some(s(" bob ")), &Some(s("bob"))).is_ok());
    assert!(check_username_unchanged(&None, &Some(s("bob"))).is_ok());
    assert_eq!(verr(check_username_unchanged(&Some(s("al")), &Some(s("bob")))), "username is immutable");
    assert!(matches!(avatar_source(&UploadAvatarBody { image_base64: Some(s("aGk=")), image_url: None }), Err(AppError::NotImplemented)));
    assert_eq!(avatar_source(&UploadAvatarBody { image_base64: None, image_url: Some(s(" http://a/b.png ")) }).unwrap(), "http://a/b.png");
    assert_eq!(verr(avatar_source(&UploadAvatarBody { image_base64: Some(s(" ")), image_url: None })), "invalid avatar source");
    assert_eq!(bind_contact_email(&BindContactBody { email: Some(BindEmailBody { email: Some(s(" a@b.c ")) }) }).unwrap(), "a@b.c");
    assert_eq!(verr(bind_contact_email(&BindContactBody { email: Some(BindEmailBody { email: Some(s("ab.c")) }) })), "invalid email address");
    assert_eq!(verr(bind_contact_email(&BindContactBody { email: None })), "only email binding is supported");
    assert_eq!(verify_contact_fields(&VerifyContactBody { email: Some(EmailVerificationBody { email: Some(s(" a@b ")), code: Some(s(" 123 ")) }) }).unwrap(), (s("a@b"), s("123")));
    assert_eq!(verr(verify_contact_fields(&VerifyContactBody { email: None })), "only email verification is supported");
    assert_eq!(verr(verify_contact_fields(&VerifyContactBody { email: Some(EmailVerificationBody { email: Some(s("a@b")), code: None }) })), "contact and code are required");
    assert!(matches!(email_conflict("a@b"), AppError::Conflict(ref m) if m == "email already bound: a@b"));
    assert_eq!(bind_email_text("654321"), "您的邮箱绑定验证码是：654321\n\n10 分钟内有效。若非本人操作请忽略本邮件。\n");
    assert!(matches!(bind_send_error(&AppError::Validation(s("smtp down"))), AppError::Internal { ref context } if context == "send verification email failed: smtp down"));
}

#[test]
fn profile_passwords() {
    assert_eq!(password_fields(&ChangePasswordBody { old_password: Some(s("o")), new_password: Some(s("n")) }).unwrap(), (s("o"), s("n")));
    assert_eq!(verr(password_fields(&ChangePasswordBody { old_password: None, new_password: Some(s("n")) })), "old_password is required");
    assert_eq!(verr(password_fields(&ChangePasswordBody { old_password: Some(s("o")), new_password: None })), "new_password is required");
    assert!(check_old_password(&transport_encrypt("plain"), "PLAIN", "plain").is_ok());
    assert_eq!(verr(check_old_password(&transport_encrypt("wrong"), "PLAIN", "plain")), "invalid old password");
    assert_eq!(verr(new_password_hash(&transport_encrypt("short"))), "password must be at least 8 characters");
    let h = new_password_hash(&transport_encrypt("long enough")).unwrap();
    assert!(check_password("PASSWORD_HASH", &h, "long enough"));
}

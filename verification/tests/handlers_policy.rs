use backendr::error::AppError;
use backendr::handlers::login_policy::{
    conflict_target, conflict_type_key, create_value, normalize_method, normalize_type,
    parse_hhmm, policy_conflict, resolve_create_fields, update_fields, validate_data,
    validate_value, LoginPolicyData,
};

fn s(x: &str) -> String {
    x.to_string()
}

fn verr<T>(r: Result<T, AppError>) -> String {
    match r {
        Err(AppError::Validation(m)) => m,
        Err(e) => panic!("expected a validation error, got {:?}", e),
        Ok(_) => panic!("expected a validation error, got Ok"),
    }
}

fn data(ty: Option<&str>, method: Option<&str>, value: Option<&str>) -> LoginPolicyData {
    LoginPolicyData {
        target_id: None,
        type_: ty.map(s),
        method: method.map(s),
        value: value.map(s),
        reason: None,
        tenant_id: None,
    }
}

#[test]
fn policy_enums() {
    assert_eq!(normalize_type("whitelist").unwrap(), "WHITELIST");
    assert_eq!(verr(normalize_type("greylist")), "invalid login policy type: greylist");
    assert_eq!(normalize_method("ip").unwrap(), "IP");
    assert_eq!(verr(normalize_method("os")), "invalid login policy method: os");
}

#[test]
fn clock_times() {
    assert_eq!(parse_hhmm("09:30"), Some((9, 30)));
    assert_eq!(parse_hhmm(" 23 : 59 "), Some((23, 59)));
    assert_eq!(parse_hhmm("24:00"), None);
    assert_eq!(parse_hhmm("12:60"), None);
    assert_eq!(parse_hhmm("12"), None);
    assert_eq!(parse_hhmm("1:2:3"), None);
    assert_eq!(parse_hhmm("a:b"), None);
}

#[test]
fn policy_values_ip() {
    assert!(validate_value("IP", "10.0.0.1").is_ok());
    assert!(validate_value("IP", " ::1 ").is_ok());
    assert!(validate_value("IP", "10.0.0.0/8").is_ok());
    assert!(validate_value("IP", "fe80::/64").is_ok());
    assert_eq!(verr(validate_value("IP", "10.0.0.0/33")), "invalid CIDR: 10.0.0.0/33");
    assert_eq!(verr(validate_value("IP", "fe80::/129")), "invalid CIDR: fe80::/129");
    assert_eq!(verr(validate_value("IP", "300.1.1.1")), "invalid IP: 300.1.1.1");
    assert_eq!(verr(validate_value("IP", "  ")), "policy value is empty");
}

#[test]
fn policy_values_other_methods() {
    assert!(validate_value("TIME", "09:00-18:00").is_ok());
    assert_eq!(verr(validate_value("TIME", "09:00")), "time window must be HH:MM-HH:MM");
    assert_eq!(verr(validate_value("TIME", "09:00-09:00")), "time window start equals end: 09:00-09:00");
    assert_eq!(verr(validate_value("TIME", "9-10")), "invalid time format: 9-10");
    assert!(validate_value("DEVICE", &"d".repeat(128)).is_ok());
    assert_eq!(verr(validate_value("MAC", &"m".repeat(129))), "value too long");
    assert!(validate_value("REGION", "CN-BJ").is_ok());
    assert_eq!(verr(validate_value("REGION", &"r".repeat(33))), "region code too long");
    assert_eq!(verr(validate_value("GEO", "x")), "unknown policy method: GEO");
}

#[test]
fn policy_data_validation() {
    assert!(validate_data(&data(Some("blacklist"), Some("ip"), Some("1.1.1.1"))).is_ok());
    assert_eq!(verr(validate_data(&data(Some("x"), Some("ip"), Some("1.1.1.1")))), "invalid login policy type: x");
    assert_eq!(verr(validate_data(&data(None, Some("y"), Some("1")))), "invalid login policy method: y");
    assert_eq!(
        verr(validate_data(&data(None, None, Some("1")))),
        "unknown policy method: LOGIN_RESTRICTION_METHOD_UNSPECIFIED"
    );
}

#[test]
fn policy_create_and_update() {
    assert_eq!(resolve_create_fields(&data(None, Some("time"), None)).unwrap(), (s("BLACKLIST"), s("TIME")));
    assert_eq!(resolve_create_fields(&data(Some("whitelist"), Some("ip"), None)).unwrap(), (s("WHITELIST"), s("IP")));
    assert_eq!(
        verr(resolve_create_fields(&data(None, None, None))),
        "unknown policy method: LOGIN_RESTRICTION_METHOD_UNSPECIFIED"
    );
    assert_eq!(create_value(&data(None, None, Some(" 1.2.3.4 "))).unwrap(), "1.2.3.4");
    assert_eq!(verr(create_value(&data(None, None, None))), "policy value is empty");
    assert_eq!(update_fields(&data(Some("whitelist"), None, None)).unwrap(), (Some(s("WHITELIST")), None));
    assert_eq!(update_fields(&data(None, None, None)).unwrap(), (None, None));
    assert_eq!(verr(update_fields(&data(None, Some("ip"), Some("bad")))), "invalid IP: bad");
    match policy_conflict("BLACKLIST", "IP") {
        AppError::Conflict(m) => assert_eq!(m, "login policy already exists: type=BLACKLIST method=IP"),
        _ => panic!(),
    }
    assert_eq!(conflict_type_key(&Some(s("A")), &Some(s("B"))), "A");
    assert_eq!(conflict_type_key(&None, &Some(s("B"))), "B");
    assert_eq!(conflict_type_key(&None, &None), "");
    assert_eq!(conflict_target(Some(1), Some(2)), Some(1));
    assert_eq!(conflict_target(None, Some(2)), Some(2));
}

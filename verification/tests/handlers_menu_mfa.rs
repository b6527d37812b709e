use backendr::error::AppError;
use backendr::handlers::menu::{
    component_to_module, create_fields, module_to_db, normalize_type, sync_fields, update_fields,
    validate_data, MenuData,
};
use backendr::handlers::mfa::{
    build_login_response, check_enroll_context, check_enroll_method, check_factor_owner,
    confirm_response, disable_plan, has_role, method_name, mfa_status, parse_credential_id,
    removed_outcome, start_enroll_gate, to_enrolled_vec, wrong_code_error, DisableMfaBody,
    DisablePlan, EnrolledFactorInfo,
};

fn s(x: &str) -> String {
    x.to_string()
}

fn verr<T>(r: Result<T, AppError>) -> String {
    match r {
        Err(AppError::Validation(m)) => m,
        Err(e) => panic!("expected a validation error, got {:?}", e),
        Ok(_) => panic!("expected a validation error, got Ok"),
    }
}

fn menu(ty: Option<&str>, status: Option<&str>, module: Option<&str>, parent: Option<i64>) -> MenuData {
    MenuData {
        status: status.map(s),
        type_: ty.map(s),
        path: Some(s("/x")),
        redirect: None,
        alias: None,
        name: Some(s("X")),
        component: Some(s("app/log/index")),
        meta: None,
        module: module.map(s),
        parent_id: parent,
        children: None,
    }
}

#[test]
fn menu_enums_and_modules() {
    assert_eq!(normalize_type("catalog").unwrap(), "CATALOG");
    assert_eq!(verr(normalize_type("page")), "invalid menu type: page");
    assert_eq!(module_to_db("MODULE_FILE").unwrap(), Some(s("FILE")));
    assert_eq!(verr(module_to_db("misc")), "invalid menu module: misc");
    assert_eq!(component_to_module(Some("app/opm/users/index")), Some(s("OPM")));
    assert_eq!(component_to_module(Some("dashboard/analytics")), Some(s("DASHBOARD")));
    assert_eq!(component_to_module(Some("BasicLayout")), None);
    assert_eq!(component_to_module(Some("other/x")), None);
    assert_eq!(component_to_module(None), None);
}

#[test]
fn menu_fields() {
    let c = create_fields(&menu(None, None, Some("log"), Some(0))).unwrap();
    assert_eq!(c.type_, Some(s("MENU")));
    assert_eq!(c.status, Some(s("ON")));
    assert_eq!(c.module, Some(s("LOG")));
    assert_eq!(c.parent_id, None);
    let u = update_fields(&menu(Some("button"), None, None, Some(5))).unwrap();
    assert_eq!(u.type_, Some(s("BUTTON")));
    assert_eq!(u.status, None);
    assert_eq!(u.parent_id, Some(5));
    assert_eq!(verr(validate_data(&menu(None, Some("maybe"), None, None))), "invalid menu status: maybe");
    let sy = sync_fields(&menu(None, None, None, None), Some(9)).unwrap();
    assert_eq!(sy.module, Some(s("LOG")));
    assert_eq!(sy.parent_id, Some(9));
}

fn factor(id: i64, method: &str, enabled: bool) -> EnrolledFactorInfo {
    EnrolledFactorInfo { id, method: s(method), display_name: s("phone"), enabled, created_at: None, last_used_at: None }
}

#[test]
fn mfa_methods_and_status() {
    assert_eq!(method_name(" sms "), "SMS");
    assert_eq!(method_name("u2f"), "WEBAUTHN");
    assert_eq!(method_name("email"), "EMAIL");
    assert_eq!(method_name("anything"), "TOTP");
    let v = to_enrolled_vec(&vec![factor(12, "TOTP", true)]);
    assert_eq!(v[0].id, "12");
    assert_eq!(v[0].display, "phone");
    let on = mfa_status(&vec![factor(1, "SMS", true), factor(2, "TOTP", true)]);
    assert!(on.enabled);
    assert_eq!(on.enrolled.len(), 2);
    assert_eq!(on.enforcement, "MFA_REQUIRED");
    let off = mfa_status(&vec![factor(2, "TOTP", false)]);
    assert!(!off.enabled);
    assert!(off.enrolled.is_empty());
    assert_eq!(off.enforcement, "MFA_NOT_REQUIRED");
}

#[test]
fn mfa_enrolment() {
    assert!(check_enroll_method(&None).is_ok());
    assert!(check_enroll_method(&Some(s("totp"))).is_ok());
    assert_eq!(verr(check_enroll_method(&Some(s("sms")))), "only TOTP is supported");
    assert_eq!(verr(start_enroll_gate(false, false)), "enroll request too frequent, retry later");
    assert_eq!(verr(start_enroll_gate(true, true)), "totp already enrolled, disable it first");
    assert!(start_enroll_gate(true, false).is_ok());
    assert_eq!(verr(check_enroll_context(None, 1, 2)), "invalid or expired enroll operation");
    assert!(check_enroll_context(Some((1, 2)), 1, 2).is_ok());
    assert!(matches!(check_enroll_context(Some((1, 3)), 1, 2), Err(AppError::Forbidden(ref m)) if m == "enroll operation user mismatch"));
    let c = confirm_response(Some(77));
    assert!(c.success);
    assert_eq!(c.credential_id, "77");
    let n = confirm_response(None);
    assert!(!n.success);
    assert_eq!(n.credential_id, "");
    assert!(matches!(wrong_code_error(true), AppError::Forbidden(ref m) if m == "too many invalid mfa attempts, please login again"));
    assert!(matches!(wrong_code_error(false), AppError::Forbidden(ref m) if m == "invalid mfa code"));
    assert_eq!(build_login_response("t").expires_in, Some(s("7200")));
}

fn disable(cid: Option<&str>, method: Option<&str>, user: Option<i64>) -> DisableMfaBody {
    DisableMfaBody { credential_id: cid.map(s), method: method.map(s), user_id: user, reason: None }
}

#[test]
fn mfa_disable_plans() {
    let admin = vec![s("platform_admin")];
    let none: Vec<String> = vec![];
    assert!(has_role(&admin, "platform_admin"));
    assert!(!has_role(&none, "platform_admin"));
    assert!(matches!(disable_plan(&disable(Some(" 5 "), None, Some(9)), 1, &admin), Ok(DisablePlan::AdminByCredential { target: 9, factor_id: 5 })));
    assert!(matches!(disable_plan(&disable(None, Some("totp"), Some(9)), 1, &admin), Ok(DisablePlan::AdminByMethod { target: 9, ref method }) if method == "TOTP"));
    assert_eq!(verr(disable_plan(&disable(None, Some("sms"), Some(9)), 1, &admin)), "method required when resetting by user");
    assert!(matches!(disable_plan(&disable(None, None, Some(9)), 1, &none), Err(AppError::Forbidden(ref m)) if m == "only platform admin can reset mfa for others"));
    assert!(matches!(disable_plan(&disable(None, None, None), 1, &none), Ok(DisablePlan::SelfByMethod { ref method }) if method == "TOTP"));
    assert!(matches!(disable_plan(&disable(Some("8"), None, Some(1)), 1, &none), Ok(DisablePlan::SelfByCredential { factor_id: 8 })));
    assert_eq!(verr(disable_plan(&disable(Some("x"), None, None), 1, &none)), "invalid credential id");
    assert_eq!(verr(disable_plan(&disable(None, Some("email"), None), 1, &none)), "credential_id or method required");
}

#[test]
fn mfa_credentials() {
    assert_eq!(parse_credential_id(" 42 ").unwrap(), 42);
    assert_eq!(verr(parse_credential_id("4x")), "invalid credential id");
    assert_eq!(check_factor_owner(Some((1, 5)), 5).unwrap(), (1, 5));
    assert!(matches!(check_factor_owner(Some((1, 6)), 5), Err(AppError::NotFound(ref m)) if m == "mfa credential not found"));
    assert!(matches!(check_factor_owner(None, 5), Err(AppError::NotFound(_))));
    assert!(removed_outcome(1).is_ok());
    assert!(matches!(removed_outcome(0), Err(AppError::NotFound(ref m)) if m == "mfa credential not found"));
}

fn node(name: &str, status: Option<&str>, children: Vec<MenuData>) -> MenuData {
    let mut m = menu(None, status, None, None);
    m.name = Some(s(name));
    m.children = if children.is_empty() { None } else { Some(children) };
    m
}

fn step_list(items: &Vec<MenuData>) -> (Vec<(Vec<usize>, Option<usize>)>, Result<(), AppError>) {
    let (steps, r) = backendr::handlers::menu::sync_plan(items);
    (steps.into_iter().map(|x| (x.node, x.parent)).collect(), r)
}

#[test]
fn menu_tree_sync_plans() {
    let ok = vec![node("A", None, vec![node("B", None, vec![])]), node("F", Some("on"), vec![])];
    let (steps, r) = step_list(&ok);
    assert!(r.is_ok());
    assert_eq!(steps, vec![(vec![0], None), (vec![0, 0], Some(0)), (vec![1], None)]);
    let bad = vec![
        node("A", None, vec![node("B", None, vec![]), node("C", None, vec![node("D", None, vec![])])]),
        node("E", Some("x"), vec![]),
        node("F", None, vec![]),
    ];
    let (steps, r) = step_list(&bad);
    assert_eq!(verr(r), "invalid menu status: x");
    assert_eq!(
        steps,
        vec![(vec![0], None), (vec![0, 0], Some(0)), (vec![0, 1], Some(0)), (vec![0, 1, 0], Some(2))]
    );
    let (none, r) = step_list(&vec![]);
    assert!(none.is_empty() && r.is_ok());
}

use backendr::auth::{token_claims, AccessClaims};
use backendr::crypto::sha256_hex;
use backendr::error::AppError;
use backendr::middleware::audit::{
    action_of, audit_entry, audit_payload, classify, client_ip, is_session_only,
    OperationAuditEntry,
};
use backendr::middleware::tenant_access::{
    check_applies, denial_message, find_api_module, is_known_module, module_check, plan_check,
    template_matches, tenant_state_check, whitelist_check, ApiMatch, ApiRow, TenantAccessRow,
};
use backendr::middleware::{authenticate, Operator};

fn s(x: &str) -> String {
    x.to_string()
}

fn claims(uid: i64, tid: i64, roles: Vec<String>) -> AccessClaims {
    token_claims(100, uid, tid, "alice", None, None, roles, false, false, "j").0
}

#[test]
fn operator_from_claims() {
    let o = Operator::from_claims(claims(3, 9, vec![s("admin")]));
    assert_eq!(o.user_id, 3);
    assert_eq!(o.tenant_id, 9);
    assert_eq!(o.username, "alice");
    assert_eq!(o.roles, vec![s("admin")]);
    assert_eq!(o.client_type, "admin");
    let p = Operator::from_claims(claims(1, 0, vec![]));
    assert!(p.roles.is_empty());
}

#[test]
fn authenticate_requires_claims() {
    assert!(matches!(authenticate(None, false), Err(AppError::Unauthorized)));
    assert!(matches!(authenticate(Some(claims(4, 1, vec![])), true), Err(AppError::Unauthorized)));
    let o = authenticate(Some(claims(4, 1, vec![])), false).unwrap();
    assert_eq!(o.user_id, 4);
}

#[test]
fn session_endpoints() {
    assert!(is_session_only("/admin/v1/login"));
    assert!(is_session_only("/admin/v1/refresh-token"));
    assert!(is_session_only("/admin/v1/mfa/verify"));
    assert!(is_session_only("/admin/v1/register"));
    assert!(!is_session_only("/admin/v1/users"));
}

#[test]
fn audit_actions() {
    assert_eq!(action_of("POST", "/roles/1/unassign"), "UNASSIGN");
    assert_eq!(action_of("POST", "/roles/1/assign"), "ASSIGN");
    assert_eq!(action_of("GET", "/users/export"), "EXPORT");
    assert_eq!(action_of("POST", "/users/import"), "IMPORT");
    assert_eq!(action_of("POST", "/users"), "CREATE");
    assert_eq!(action_of("PUT", "/users/1"), "UPDATE");
    assert_eq!(action_of("PATCH", "/users/1"), "UPDATE");
    assert_eq!(action_of("DELETE", "/users/1"), "DELETE");
    assert_eq!(action_of("GET", "/users"), "OTHER");
}

#[test]
fn audit_classification() {
    assert_eq!(classify("GET", "/admin/v1/users"), None);
    assert_eq!(classify("POST", "/admin/v1/login"), None);
    assert_eq!(
        classify("PUT", "/admin/v1/users/42"),
        Some((s("user"), "UPDATE", Some(s("42"))))
    );
    assert_eq!(
        classify("DELETE", "/admin/v1/roles/batch"),
        Some((s("role"), "DELETE", None))
    );
    assert_eq!(classify("POST", "/"), Some((s("other"), "CREATE", None)));
    assert_eq!(
        classify("POST", "/admin/v1/roles/7/permissions/assign"),
        Some((s("assign"), "ASSIGN", Some(s("7"))))
    );
    assert_eq!(classify("POST", "/12/-3"), Some((s("other"), "CREATE", Some(s("-3")))));
}

#[test]
fn client_addresses() {
    assert_eq!(client_ip(Some("10.0.0.1"), Some("1.1.1.1")), "10.0.0.1");
    assert_eq!(client_ip(None, Some(" 1.1.1.1 , 2.2.2.2")), "1.1.1.1");
    assert_eq!(client_ip(None, Some("3.3.3.3")), "3.3.3.3");
    assert_eq!(client_ip(None, None), "");
}

fn entry() -> OperationAuditEntry {
    OperationAuditEntry {
        created_at: s("2024-01-02T03:04:05.000000006Z"),
        tenant_id: 2,
        user_id: -1,
        username: s("a\"b"),
        resource_type: s("user"),
        resource_id: None,
        action: s("CREATE"),
        request_id: s("r"),
        success: true,
        status_code: 201,
        ip_address: s("1.2.3.4"),
        log_hash: String::new(),
    }
}

#[test]
fn canonical_payload_matches_serde() {
    let e = entry();
    let mut m = serde_json::Map::new();
    m.insert(s("created_at"), serde_json::Value::from(e.created_at.clone()));
    m.insert(s("tenant_id"), serde_json::Value::from(e.tenant_id));
    m.insert(s("user_id"), serde_json::Value::from(e.user_id));
    m.insert(s("username"), serde_json::Value::from(e.username.clone()));
    m.insert(s("resource_type"), serde_json::Value::from(e.resource_type.clone()));
    m.insert(s("resource_id"), serde_json::Value::Null);
    m.insert(s("action"), serde_json::Value::from(e.action.clone()));
    m.insert(s("request_id"), serde_json::Value::from(e.request_id.clone()));
    m.insert(s("success"), serde_json::Value::from(e.success));
    m.insert(s("status_code"), serde_json::Value::from(e.status_code));
    m.insert(s("ip_address"), serde_json::Value::from(e.ip_address.clone()));
    let expected = serde_json::Value::Object(m).to_string();
    assert_eq!(audit_payload(&e), expected);
    let mut f = entry();
    f.resource_id = Some(s("9"));
    f.success = false;
    assert!(audit_payload(&f).contains("\"resource_id\":\"9\",\"resource_type\":\"user\""));
    assert!(audit_payload(&f).contains("\"success\":false"));
}

#[test]
fn audit_entries() {
    let c = claims(5, 3, vec![]);
    let e = audit_entry("DELETE", "/admin/v1/users/8", Some(&c), s("9.9.9.9"), 204, s("t"), s("rq"))
        .unwrap();
    assert_eq!(e.resource_type, "user");
    assert_eq!(e.action, "DELETE");
    assert_eq!(e.resource_id, Some(s("8")));
    assert_eq!(e.user_id, 5);
    assert_eq!(e.tenant_id, 3);
    assert_eq!(e.username, "alice");
    assert!(e.success);
    assert_eq!(e.status_code, 204);
    assert_eq!(e.log_hash, sha256_hex(&audit_payload(&e)));
    let f = audit_entry("POST", "/admin/v1/users", Some(&c), s(""), 400, s("t"), s("rq")).unwrap();
    assert!(!f.success);
    assert!(audit_entry("GET", "/admin/v1/users", Some(&c), s(""), 200, s("t"), s("r")).is_none());
    assert!(audit_entry("POST", "/admin/v1/users", None, s(""), 200, s("t"), s("r")).is_none());
}

#[test]
fn templates() {
    assert!(template_matches("/users/{id}", "/users/42"));
    assert!(template_matches("users/{id}/", "/users/abc"));
    assert!(!template_matches("/users/{id}", "/users/42/roles"));
    assert!(!template_matches("/users/{id}", "/roles/42"));
    assert!(template_matches("/users:exists", "/users:exists"));
    assert!(template_matches("/", ""));
    for t in ["/a/{b}/c", "/x", "", "/p/{q"] {
        assert!(template_matches(t, t));
    }
}

fn api(path: Option<&str>, method: Option<&str>, module: Option<&str>) -> ApiRow {
    ApiRow { path: path.map(s), method: method.map(s), business_module: module.map(s) }
}

#[test]
fn api_module_lookup() {
    let rows = vec![
        api(None, Some("GET"), Some("OPM")),
        api(Some("/users/{id}"), Some("get"), Some("OPM")),
        api(Some("/users/{id}"), Some("GET"), Some("SYSTEM")),
        api(Some("/scripts"), Some("POST"), Some("  ")),
        api(Some("/scripts"), Some("GET"), None),
    ];
    assert!(matches!(find_api_module(&rows, "/users/5", "GET"), ApiMatch::Found(ref m) if m == "OPM"));
    assert!(matches!(find_api_module(&rows, "/scripts", "post"), ApiMatch::FoundNoModule));
    assert!(matches!(find_api_module(&rows, "/scripts", "GET"), ApiMatch::FoundNoModule));
    assert!(matches!(find_api_module(&rows, "/users", "GET"), ApiMatch::NotFound));
    assert!(matches!(find_api_module(&vec![], "/users", "GET"), ApiMatch::NotFound));
}

fn forbidden<T: std::fmt::Debug>(r: Result<T, AppError>) -> String {
    match r {
        Err(AppError::Forbidden(m)) => m,
        other => panic!("expected a 403, got {:?}", other),
    }
}

fn tenant(status: Option<&str>, plan: Option<i64>, policy: Option<&str>, expired: bool) -> TenantAccessRow {
    TenantAccessRow { status: status.map(s), plan_id: plan, expiry_policy: policy.map(s), expired }
}

#[test]
fn tenant_state_checks() {
    assert_eq!(forbidden(tenant_state_check(None, "GET")), "access denied");
    assert_eq!(
        forbidden(tenant_state_check(Some(&tenant(Some("OFF"), Some(1), None, false)), "GET")),
        "tenant is not active"
    );
    assert_eq!(
        forbidden(tenant_state_check(Some(&tenant(None, Some(1), None, false)), "GET")),
        "tenant is not active"
    );
    let ro = tenant(Some("ON"), Some(1), Some("READONLY"), true);
    assert_eq!(forbidden(tenant_state_check(Some(&ro), "POST")), "tenant is read-only due to expiry");
    assert_eq!(tenant_state_check(Some(&ro), "GET").unwrap(), Some(1));
    assert_eq!(tenant_state_check(Some(&ro), "OPTIONS").unwrap(), Some(1));
    let ok = tenant(Some("ON"), None, Some("READONLY"), false);
    assert_eq!(tenant_state_check(Some(&ok), "DELETE").unwrap(), None);
}

#[test]
fn module_plan_whitelist_checks() {
    assert_eq!(module_check(ApiMatch::Found(s("TASK"))).unwrap(), "TASK");
    assert_eq!(forbidden(module_check(ApiMatch::Found(s("SCRIPT")))), "module not allowed");
    assert_eq!(forbidden(module_check(ApiMatch::FoundNoModule)), "module not allowed");
    assert_eq!(forbidden(module_check(ApiMatch::NotFound)), "access denied");
    assert_eq!(plan_check(Some(4)).unwrap(), 4);
    assert_eq!(forbidden(plan_check(None)), "no subscription plan");
    assert!(whitelist_check(2).is_ok());
    assert_eq!(forbidden(whitelist_check(0)), "module not allowed");
    assert!(is_known_module("INTERNAL_MESSAGE"));
    assert!(!is_known_module("dashboard"));
}

#[test]
fn access_check_scope_and_denials() {
    assert!(check_applies(Some(3), true));
    assert!(!check_applies(Some(0), true));
    assert!(!check_applies(Some(3), false));
    assert!(!check_applies(None, true));
    assert_eq!(denial_message(&AppError::Forbidden(s("module not allowed"))), "module not allowed");
    assert_eq!(denial_message(&AppError::Db(s("down"))), "access denied");
}

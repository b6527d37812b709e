use backendr::crypto::sha256_hex;
use backendr::error::AppError;
use backendr::handlers::access_key::{
    check_access_key, hash_secret, issue_token_credentials, issue_token_response, machine_claims,
    normalize_status, random_token, to_dto, AccessKeyRow, IssueTokenBody,
};
use backendr::handlers::admin_portal::{
    build_tree, filter_roots_by_plan, in_placeholders, navigation_items, root_positions, MenuNode,
};
use backendr::handlers::api::{
    create_fields, endpoint_conflict, module_from_db, module_to_db, normalize_scope,
    update_fields, validate_data, ApiData,
};
use backendr::handlers::authentication::{
    build_login_response, check_refresh_grant, cookie_secure, extract_refresh_cookie,
    login_credentials, mfa_challenge_response, refresh_cookies, LoginBody,
};

fn s(x: &str) -> String {
    x.to_string()
}

fn verr<T>(r: Result<T, AppError>) -> String {
    match r {
        Err(AppError::Validation(m)) => m,
        Err(e) => panic!("expected a validation error, got {:?}", e),
        Ok(_) => panic!("expected a validation error, got Ok"),
    }
}

fn key_row(status: &str, expires: Option<&str>, secret: &str) -> AccessKeyRow {
    AccessKeyRow {
        id: 1,
        name: Some(s("ci")),
        access_key: s("ak-01"),
        secret_hash: Some(hash_secret(secret)),
        status: s(status),
        expires_at: expires.map(s),
        last_used_at: None,
        tenant_id: 4,
    }
}

#[test]
fn access_key_dto_hides_secret() {
    let d = to_dto(&key_row("ON", None, "sk"));
    assert_eq!(d.id, 1);
    assert_eq!(d.access_key, Some(s("ak-01")));
    assert_eq!(d.status, Some(s("ON")));
    assert_eq!(d.tenant_id, Some(4));
}

#[test]
fn access_key_status() {
    assert_eq!(normalize_status("on").unwrap(), "ON");
    assert_eq!(verr(normalize_status("maybe")), "invalid access key status: maybe");
}

#[test]
fn random_credentials() {
    let t = random_token("sk-", 32).unwrap();
    assert!(t.starts_with("sk-"));
    assert_eq!(t.len(), 3 + 64);
    assert!(t[3..].chars().all(|c| c.is_ascii_hexdigit() && !c.is_ascii_uppercase()));
    assert_ne!(t, random_token("sk-", 32).unwrap());
    assert_eq!(hash_secret("abc"), sha256_hex("abc"));
}

#[test]
fn token_exchange_credentials() {
    let ok = IssueTokenBody { access_key: Some(s("ak")), secret: Some(s("sk")) };
    assert_eq!(issue_token_credentials(&ok).unwrap(), (s("ak"), s("sk")));
    for b in [
        IssueTokenBody { access_key: None, secret: Some(s("sk")) },
        IssueTokenBody { access_key: Some(s("ak")), secret: Some(s("")) },
    ] {
        assert_eq!(verr(issue_token_credentials(&b)), "access key and secret are required");
    }
}

#[test]
fn access_key_checks() {
    let now = (1_700_000_000i64, 0u32);
    assert!(check_access_key(&key_row("ON", None, "sk"), "sk", now).is_ok());
    assert_eq!(verr(check_access_key(&key_row("OFF", None, "sk"), "sk", now)), "access key is disabled");
    assert_eq!(
        verr(check_access_key(&key_row("ON", Some("2020-01-01T00:00:00Z"), "sk"), "sk", now)),
        "access key is expired"
    );
    assert!(check_access_key(&key_row("ON", Some("2099-01-01T00:00:00+08:00"), "sk"), "sk", now).is_ok());
    assert!(check_access_key(&key_row("ON", Some("not a time"), "sk"), "sk", now).is_ok());
    assert_eq!(
        verr(check_access_key(&key_row("ON", None, "sk"), "other", now)),
        "invalid access key or secret"
    );
    let mut no_hash = key_row("ON", None, "sk");
    no_hash.secret_hash = None;
    assert_eq!(verr(check_access_key(&no_hash, "sk", now)), "invalid access key or secret");
}

#[test]
fn machine_tokens() {
    let c = machine_claims("ak-9", 3, 50, "j");
    assert_eq!(c.sub, "ak:ak-9");
    assert_eq!(c.uid, 0);
    assert_eq!(c.tid, 3);
    assert_eq!(c.cid, Some(s("admin")));
    assert_eq!(c.roc, Some(vec![s("machine")]));
    assert_eq!(c.ipa, Some(false));
    assert_eq!(c.exp, 50 + 7200);
    let r = issue_token_response(s("tok"));
    assert_eq!(r.access_token, "tok");
    assert_eq!(r.expires_in, 7200);
    assert_eq!(r.token_type, "bearer");
}

fn api_data() -> ApiData {
    ApiData {
        operation: None,
        path: Some(s(" /users ")),
        method: Some(s("GET")),
        module: None,
        module_description: None,
        business_module: None,
        description: None,
        scope: None,
        status: None,
    }
}

#[test]
fn api_business_modules() {
    assert_eq!(module_from_db("OPM"), "MODULE_OPM");
    assert_eq!(module_to_db("MODULE_opm").unwrap(), Some(s("OPM")));
    assert_eq!(module_to_db("task").unwrap(), Some(s("TASK")));
    assert_eq!(module_to_db("").unwrap(), None);
    assert_eq!(module_to_db("MODULE_UNSPECIFIED").unwrap(), None);
    assert_eq!(verr(module_to_db("MODULE_X")), "invalid api business module: MODULE_X");
    assert_eq!(normalize_scope("app").unwrap(), "APP");
    assert_eq!(verr(normalize_scope("web")), "invalid api scope: web");
}

#[test]
fn api_fields() {
    let f = create_fields(&api_data()).unwrap();
    assert_eq!(f.path, Some(s("/users")));
    assert_eq!(f.method, Some(s("GET")));
    assert_eq!(f.business_module, None);
    assert_eq!(f.scope, Some(s("ADMIN")));
    assert_eq!(f.status, Some(s("ON")));
    let mut d = api_data();
    d.path = Some(s("  "));
    assert_eq!(verr(create_fields(&d)), "path and method are required");
    assert_eq!(verr(update_fields(&d)), "path is required");
    let mut e = api_data();
    e.status = Some(s("off"));
    e.business_module = Some(s("MODULE_LOG"));
    let u = update_fields(&e).unwrap();
    assert_eq!(u.status, Some(s("OFF")));
    assert_eq!(u.business_module, Some(s("LOG")));
    assert_eq!(u.scope, None);
    let mut bad = api_data();
    bad.status = Some(s("x"));
    assert_eq!(verr(validate_data(&bad)), "invalid api status: x");
    match endpoint_conflict("GET", "/users") {
        AppError::Conflict(m) => assert_eq!(m, "api endpoint already exists: GET /users"),
        _ => panic!(),
    }
}

fn node(id: i64, parent: i64, path: &str, module: Option<&str>) -> MenuNode {
    MenuNode {
        id,
        parent_id: parent,
        path: Some(s(path)),
        redirect: None,
        alias: None,
        name: Some(s(path)),
        component: None,
        meta: None,
        module: module.map(s),
    }
}

#[test]
fn sql_placeholders() {
    assert_eq!(in_placeholders(3), "$1, $2, $3");
    assert_eq!(in_placeholders(1), "$1");
    assert_eq!(in_placeholders(0), "");
}

#[test]
fn route_tree() {
    let nodes = vec![
        node(1, 0, "/system", Some("SYSTEM")),
        node(2, 1, "users", None),
        node(3, 0, "/log", Some("LOG")),
        node(4, 2, "detail", None),
        node(5, 1, "roles", None),
    ];
    let roots = root_positions(&nodes);
    assert_eq!(roots, vec![0, 2]);
    let tree = build_tree(&nodes, &roots);
    assert_eq!(tree.len(), 2);
    assert_eq!(tree[0].path, Some(s("/system")));
    assert_eq!(tree[0].children.len(), 2);
    assert_eq!(tree[0].children[0].path, Some(s("users")));
    assert_eq!(tree[0].children[0].children[0].path, Some(s("detail")));
    assert_eq!(tree[0].children[1].path, Some(s("roles")));
    assert!(tree[1].children.is_empty());
    let allowed = vec![s("LOG")];
    assert_eq!(filter_roots_by_plan(&nodes, &roots, Some(2), &allowed), vec![2]);
    assert!(filter_roots_by_plan(&nodes, &roots, None, &allowed).is_empty());
    assert!(filter_roots_by_plan(&nodes, &roots, Some(0), &allowed).is_empty());
    assert!(filter_roots_by_plan(&nodes, &roots, Some(2), &vec![]).is_empty());
    assert!(navigation_items(vec![]).is_none());
    assert_eq!(navigation_items(tree).unwrap().len(), 2);
}

#[test]
fn route_tree_cycle_is_cut() {
    let nodes = vec![node(1, 2, "a", None), node(2, 1, "b", None)];
    let tree = build_tree(&nodes, &vec![0]);
    assert_eq!(tree.len(), 1);
    assert_eq!(tree[0].children.len(), 1);
    assert!(tree[0].children[0].children.is_empty());
}

fn login(grant: Option<&str>, user: Option<&str>, pw: Option<&str>) -> LoginBody {
    LoginBody {
        grant_type: grant.map(s),
        client_id: None,
        client_secret: None,
        scope: None,
        redirect_uri: None,
        user_id: None,
        username: user.map(s),
        email: None,
        mobile: None,
        password: pw.map(s),
        refresh_token: None,
        code: None,
        client_type: None,
        device_id: None,
        jti: None,
        tenant_code: None,
    }
}

#[test]
fn login_grants() {
    assert_eq!(login_credentials(&login(None, Some(" bob "), Some("pw"))).unwrap(), (s("bob"), s("pw")));
    assert_eq!(verr(login_credentials(&login(Some("client"), Some("b"), Some("p")))), "invalid grant type");
    assert_eq!(verr(login_credentials(&login(None, None, Some("p")))), "username is required");
    assert_eq!(verr(login_credentials(&login(Some("password"), Some("b"), None))), "password is required");
    assert!(check_refresh_grant(&login(Some("refresh_token"), None, None)).is_ok());
    assert_eq!(verr(check_refresh_grant(&login(None, None, None))), "invalid grant type");
}

#[test]
fn login_responses_and_cookies() {
    let r = build_login_response("tok");
    assert_eq!(r.token_type, "bearer");
    assert_eq!(r.access_token, "tok");
    assert_eq!(r.expires_in, Some(s("7200")));
    let m = mfa_challenge_response("op-1");
    assert_eq!(m.access_token, "");
    assert_eq!(m.mfa_operation_id, Some(s("op-1")));
    assert!(cookie_secure(Some("HTTPS")));
    assert!(!cookie_secure(Some("http")));
    assert!(!cookie_secure(None));
    let (a, b) = refresh_cookies("rt", 1000, 60, true);
    assert_eq!(a, "refresh_token=rt; Path=/admin/v1/refresh-token; Max-Age=60; HttpOnly; SameSite=Lax; Secure");
    assert_eq!(b, "refresh_exp=1060; Path=/; Max-Age=60; SameSite=Lax; Secure");
    let (c, _) = refresh_cookies("rt", 0, 0, false);
    assert_eq!(c, "refresh_token=rt; Path=/admin/v1/refresh-token; Max-Age=0; HttpOnly; SameSite=Lax");
    assert_eq!(extract_refresh_cookie("a=1; refresh_token=xyz; b=2"), "xyz");
    assert_eq!(extract_refresh_cookie("refresh_token=; x=1"), "");
    assert_eq!(extract_refresh_cookie("a=1"), "");
    assert_eq!(extract_refresh_cookie(" refresh_token=a=b "), "a=b");
}

#[test]
fn module_names_round_trip() {
    for m in ["DASHBOARD", "OPM", "SYSTEM", "DICT", "TENANT", "PERMISSION", "LOG", "INTERNAL_MESSAGE", "FILE", "TASK"] {
        let p = module_from_db(m);
        assert_eq!(module_to_db(&p).unwrap(), Some(s(m)));
        assert_eq!(module_to_db(&p.to_lowercase()).unwrap(), Some(s(m)));
        assert_eq!(module_to_db(m).unwrap(), Some(s(m)));
    }
}

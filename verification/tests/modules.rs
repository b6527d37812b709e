use backendr::api_manifest::endpoints;
use backendr::audit_chain::{DeviceResolver, GeoResolver};
use backendr::handlers::audit_logs::{
    api_audit_columns, data_access_audit_columns, device_type_name, filterable_columns,
    is_camelized_json, login_audit_columns, operation_audit_columns, permission_audit_columns,
    policy_evaluation_columns, select_list, snake_to_camel, ColDef, VT,
};
use backendr::login_limit::{
    fallback_policy, ip_fail_key, ip_lock_key, lock_after_failure, user_fail_key, user_lock_key,
    Attempt, FailCounter, KvStore, Policy,
};
use backendr::rule_cache::{ApiRule, RuleCache};
use backendr::scheduler::{control_outcome, parse_cron, start_outcome, Scheduler, SchedulerError};
use backendr::script_hooks::{hook_points, hook_supports_language, outbound_hosts};

fn s(x: &str) -> String {
    x.to_string()
}

#[test]
fn hooks_and_languages() {
    assert!(hook_supports_language("user.after_login", "lua"));
    assert!(hook_supports_language("user.after_login", "javascript"));
    assert!(!hook_supports_language("user.after_create", "javascript"));
    assert!(hook_supports_language("order.after_created", "lua"));
    assert!(!hook_supports_language("user.unknown", "lua"));
    assert!(!hook_supports_language("user.after_login", "Lua"));
    let points = hook_points();
    assert_eq!(points.len(), 4);
    assert_eq!(points[2].name, "tenant.before_expiry_scan");
    assert_eq!(points[2].languages, vec!["lua", "javascript"]);
}

fn rule(method: &str, path: &str, auth: bool) -> ApiRule {
    ApiRule { path: s(path), method: s(method), auth_required: auth, tenant_scoped: false }
}

#[test]
fn rule_cache_keeps_last_rule() {
    let c = RuleCache::build(vec![
        rule("GET", "/users", true),
        rule("POST", "/users", true),
        rule("GET", "/users", false),
    ]);
    assert!(!c.get("GET", "/users").unwrap().auth_required);
    assert!(c.get("POST", "/users").unwrap().auth_required);
    assert!(c.get("DELETE", "/users").is_none());
    assert!(c.get("get", "/users").is_none());
    assert!(RuleCache::new().get("GET", "/users").is_none());
    let d: RuleCache = Default::default();
    assert!(d.get("GET", "/").is_none());
}

#[test]
fn rule_cache_templates_cover_concrete_paths() {
    let c = RuleCache::build(vec![
        rule("GET", "/admin/v1/users/{id}", true),
        rule("GET", "/admin/v1/users/me", false),
    ]);
    let r = c.get("GET", "/admin/v1/users/42").unwrap();
    assert_eq!(r.path, "/admin/v1/users/{id}");
    assert!(!c.get("GET", "/admin/v1/users/me").unwrap().auth_required);
    assert!(c.get("DELETE", "/admin/v1/users/42").is_none());
    assert!(c.get("GET", "/admin/v1/users/42/roles").is_none());
}

#[test]
fn cron_field_counts() {
    assert!(parse_cron("0 */5 * * * *").is_ok());
    assert!(parse_cron("  */5 * * * *  ").is_ok());
    assert_eq!(parse_cron("* * * *"), Err(s("cron must have 5 or 6 fields")));
    assert!(parse_cron("").is_err());
    assert!(parse_cron("1 2 3 4 5 6 7").is_err());
    assert!(parse_cron("1\t2\n3 4 5").is_ok());
}

#[test]
fn scheduler_outcomes() {
    assert!(matches!(start_outcome(false, "backup", "* * * * *"), Err(SchedulerError::Unregistered(ref t)) if t == "backup"));
    assert!(matches!(start_outcome(true, "backup", "* *"), Err(SchedulerError::BadCron(ref c)) if c == "* *"));
    assert!(matches!(start_outcome(true, "backup", "* * * * *"), Err(SchedulerError::NotWired)));
    assert!(matches!(control_outcome("Start", false, "* * * * *"), Err(SchedulerError::Unregistered(ref t)) if t.is_empty()));
    assert!(matches!(control_outcome("Start", true, "* * * * *"), Err(SchedulerError::NotWired)));
    assert!(matches!(control_outcome("Stop", true, ""), Err(SchedulerError::NotWired)));
    assert!(matches!(control_outcome("Restart", false, ""), Err(SchedulerError::NotWired)));
    assert!(matches!(control_outcome("Pause", true, ""), Err(SchedulerError::UnknownControl(ref c)) if c == "Pause"));
}

#[test]
fn login_limits() {
    let p = fallback_policy();
    assert_eq!((p.max_failed_attempts, p.lock_seconds, p.lock_enabled, p.notify_failed), (5, 300, true, false));
    let d: Policy = Default::default();
    assert_eq!((d.max_failed_attempts, d.lock_seconds, d.lock_enabled), (0, 0, false));
    assert_eq!(lock_after_failure(4, &p), None);
    assert_eq!(lock_after_failure(5, &p), Some(300));
    assert_eq!(lock_after_failure(6, &p), Some(300));
    assert_eq!(lock_after_failure(9, &d), None);
    let zero = Policy { max_failed_attempts: 1, lock_seconds: 0, lock_enabled: true, notify_failed: false };
    assert_eq!(lock_after_failure(9, &zero), None);
    assert_eq!(ip_fail_key("1.2.3.4"), "gw:loginfail:ip:1.2.3.4");
    assert_eq!(user_fail_key("bob"), "gw:loginfail:user:bob");
    assert_eq!(ip_lock_key("1.2.3.4"), "gw:lock:ip:1.2.3.4");
    assert_eq!(user_lock_key("bob"), "gw:lock:user:bob");
    let a = Attempt::Denied { reason: s("locked") };
    assert!(matches!(a, Attempt::Denied { .. }));
    assert!(matches!(Attempt::Allowed, Attempt::Allowed));
}

#[test]
fn resolvers_resolve_nothing() {
    assert_eq!(GeoResolver::resolve("8.8.8.8"), None);
    assert_eq!(DeviceResolver::resolve("Mozilla/5.0"), None);
}

#[test]
fn endpoint_manifest() {
    let e = endpoints();
    assert_eq!(e.len(), 213);
    assert_eq!(e[0].path, "/initial-context");
    assert_eq!(e[0].method, "GET");
    assert_eq!(e[0].business_module, Some("DASHBOARD"));
    assert!(e.iter().any(|m| m.path == "/scripts" && m.business_module.is_none()));
    assert!(e.iter().all(|m| m.path.starts_with('/')));
}

#[test]
fn camel_case_keys() {
    assert_eq!(snake_to_camel("created_at"), "createdAt");
    assert_eq!(snake_to_camel("a__b"), "aB");
    assert_eq!(snake_to_camel("_x"), "X");
    assert_eq!(snake_to_camel("x_"), "x");
    assert_eq!(snake_to_camel("ip_address_v4"), "ipAddressV4");
    assert_eq!(snake_to_camel(""), "");
    for k in ["a_b_c", "__", "device_type"] {
        assert!(!snake_to_camel(k).contains('_'));
    }
}

#[test]
fn select_lists() {
    let defs = vec![
        ColDef { name: "id", ty: VT::Num },
        ColDef { name: "created_at", ty: VT::Ts },
        ColDef { name: "geo", ty: VT::Json },
        ColDef { name: "signature", ty: VT::B64 },
    ];
    assert_eq!(
        select_list(&defs),
        "id, to_char(created_at, 'YYYY-MM-DD\"T\"HH24:MI:SS.US\"Z\"') as created_at, geo::text as geo, replace(encode(signature, 'base64'), E'\\n', '') as signature"
    );
    assert_eq!(select_list(&vec![]), "");
}

#[test]
fn audit_tables() {
    let a = api_audit_columns();
    assert_eq!(a.len(), 28);
    assert_eq!(a[0].name, "id");
    assert_eq!(a[27].name, "signature");
    assert_eq!(a[27].ty, VT::B64);
    assert_eq!(login_audit_columns().len(), 21);
    assert_eq!(operation_audit_columns().len(), 20);
    assert_eq!(permission_audit_columns().len(), 16);
    assert_eq!(data_access_audit_columns().len(), 27);
    assert_eq!(policy_evaluation_columns().len(), 17);
    let f = filterable_columns(&permission_audit_columns());
    assert_eq!(
        f,
        vec!["id", "tenant_id", "operator_id", "operator_name", "target_type", "target_id", "target_name", "action", "ip_address", "request_id", "reason", "log_hash"]
    );
}

#[test]
fn json_column_rules() {
    assert!(is_camelized_json("geo_location"));
    assert!(is_camelized_json("device_info"));
    assert!(!is_camelized_json("before_data"));
    assert_eq!(device_type_name(Some(1)), "DESKTOP");
    assert_eq!(device_type_name(Some(2)), "MOBILE");
    assert_eq!(device_type_name(Some(3)), "TABLET");
    assert_eq!(device_type_name(Some(4)), "BOT");
    assert_eq!(device_type_name(Some(5)), "OTHER");
    assert_eq!(device_type_name(Some(0)), "DEVICE_TYPE_UNSPECIFIED");
    assert_eq!(device_type_name(None), "DEVICE_TYPE_UNSPECIFIED");
}

#[test]
fn outbound_host_lists() {
    assert_eq!(outbound_hosts(Some(" Api.Example.com, ,api.example.com,x.io ")), vec![s("api.example.com"), s("x.io")]);
    assert!(outbound_hosts(None).is_empty());
    assert!(outbound_hosts(Some("")).is_empty());
}

#[test]
fn scheduler_registry() {
    let mut sch = Scheduler::new();
    assert!(!sch.is_registered("backup"));
    assert!(matches!(sch.start(1, "backup", "0 * * * * *"), Err(SchedulerError::Unregistered(t)) if t == "backup"));
    sch.register("backup");
    assert!(sch.is_registered("backup"));
    assert!(!sch.is_registered("script_task"));
    assert!(matches!(sch.start(1, "backup", "0 * * * * *"), Err(SchedulerError::NotWired)));
    assert!(matches!(sch.start(1, "backup", "bad"), Err(SchedulerError::BadCron(c)) if c == "bad"));
    assert!(matches!(sch.stop(1), Err(SchedulerError::NotWired)));
    assert!(matches!(sch.control(1, "Start", "0 * * * *"), Err(SchedulerError::Unregistered(t)) if t.is_empty()));
    assert!(matches!(sch.control(1, "Pause", ""), Err(SchedulerError::UnknownControl(c)) if c == "Pause"));
}

#[test]
fn fail_counter_locks_at_threshold_and_resets() {
    let p = fallback_policy();
    let mut c = FailCounter::new();
    for _ in 0..4 {
        c.record_failed("1.2.3.4", "alice", &p, 100);
    }
    assert_eq!(c.counts.get("gw:loginfail:ip:1.2.3.4"), Some(4));
    assert!(c.check_locked("1.2.3.4", "alice", 100).is_none());
    c.record_failed("1.2.3.4", "alice", &p, 100);
    assert_eq!(c.locks.get("gw:lock:user:alice"), Some(400));
    assert_eq!(c.check_locked("9.9.9.9", "alice", 399).unwrap(), "尝试过多，请稍后再试");
    assert!(c.check_locked("1.2.3.4", "bob", 250).is_some());
    assert!(c.check_locked("1.2.3.4", "alice", 400).is_none());
    c.reset("1.2.3.4", "alice");
    assert!(c.check_locked("1.2.3.4", "alice", 100).is_none());
    assert_eq!(c.counts.get("gw:loginfail:user:alice"), None);
    let off = Policy { max_failed_attempts: 1, lock_seconds: 300, lock_enabled: false, notify_failed: false };
    c.record_failed("1.2.3.4", "alice", &off, 100);
    assert!(c.check_locked("1.2.3.4", "alice", 100).is_none());
    let mut k = KvStore::new();
    k.put("a", 1);
    k.put("a", 2);
    k.delete("b");
    assert_eq!(k.get("a"), Some(2));
    k.delete("a");
    assert_eq!(k.get("a"), None);
}

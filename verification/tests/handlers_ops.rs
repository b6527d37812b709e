use backendr::error::AppError;
use backendr::handlers::script::{delete_ids, hook_languages, normalize_language, validate_draft, ScriptData};
use backendr::handlers::script_log::{purge_before, PurgeBody};
use backendr::handlers::server_monitor::{
    database_info, runtime_info, threads_from_status, uptime_seconds, PoolReading,
};
use backendr::handlers::task::{
    edit_password_request, registered_type_names, require_registered_type_name,
    scheduler_not_configured, tenant_exists_query, type_name_taken, type_or_default,
    update_type_name, user_exists_query, EditUserPasswordBody, ExistsBy,
};

fn s(x: &str) -> String {
    x.to_string()
}

fn verr<T>(r: Result<T, AppError>) -> String {
    match r {
        Err(AppError::Validation(m)) => m,
        Err(e) => panic!("expected a validation error, got {:?}", e),
        Ok(_) => panic!("expected a validation error, got Ok"),
    }
}

fn draft(name: Option<&str>, lang: Option<&str>, source: Option<&str>) -> ScriptData {
    ScriptData {
        name: name.map(s),
        language: lang.map(s),
        hook_point: None,
        source: source.map(s),
        priority: None,
        description: None,
        critical: None,
        is_enabled: None,
    }
}

#[test]
fn scripts() {
    assert_eq!(normalize_language("js").unwrap(), "JAVASCRIPT");
    assert_eq!(normalize_language("Lua").unwrap(), "LUA");
    assert_eq!(verr(normalize_language("python")), "unsupported script language: PYTHON");
    assert!(validate_draft(&draft(Some("s"), None, Some("return 1"))).is_ok());
    assert_eq!(verr(validate_draft(&draft(None, None, Some("x")))), "script name is required");
    assert_eq!(verr(validate_draft(&draft(Some("s"), None, Some(" ")))), "script source is required");
    assert_eq!(verr(validate_draft(&draft(Some("s"), Some("ruby"), Some("x")))), "unsupported script language: RUBY");
    assert_eq!(hook_languages(), vec![s("lua"), s("javascript")]);
}

#[test]
fn script_deletes_and_logs() {
    assert_eq!(delete_ids(Some("1, 2,x,,3")).unwrap(), vec![1, 2, 3]);
    assert_eq!(verr(delete_ids(Some("a,b"))), "ids is required");
    assert_eq!(verr(delete_ids(None)), "ids is required");
    assert_eq!(purge_before(&PurgeBody { before: Some(s(" 2024-01-01 ")) }), Some(s("2024-01-01")));
    assert_eq!(purge_before(&PurgeBody { before: Some(s("  ")) }), None);
    assert_eq!(purge_before(&PurgeBody { before: None }), None);
}

#[test]
fn server_figures() {
    let d = database_info(Some(PoolReading { ping_error: None, size: 0, idle: 2 }));
    assert_eq!(d.driver, "postgres");
    assert!(d.ping_ok);
    assert_eq!(d.ping_error, None);
    assert_eq!(d.max_open_connections, 1);
    assert_eq!(d.open_connections, 0);
    assert_eq!(d.in_use_connections, 2);
    assert_eq!(d.idle_connections, 2);
    let e = database_info(Some(PoolReading { ping_error: Some(s("refused")), size: 5, idle: 1 }));
    assert!(!e.ping_ok);
    assert_eq!(e.ping_error, Some(s("database ping failed: refused")));
    assert_eq!(e.max_open_connections, 5);
    let n = database_info(None);
    assert_eq!(n.driver, "");
    assert_eq!(n.ping_error, Some(s("database client is not configured")));
    let lines = vec![s("Name:\tx"), s("Threads:\t 12 "), s("Threads:\t3")];
    assert_eq!(threads_from_status(&lines), 12);
    assert_eq!(threads_from_status(&vec![s("Threads: many")]), 0);
    assert_eq!(threads_from_status(&vec![]), 0);
    assert_eq!(uptime_seconds(100, 40), 60);
    assert_eq!(uptime_seconds(10, 40), 0);
    let r = runtime_info(None, 4, 1024, 2048, 9, s("t0"));
    assert_eq!(r.version, "rust (backendr)");
    assert_eq!(r.num_goroutine, 4);
    assert_eq!(r.mem_alloc_bytes, "1024");
    assert_eq!(r.mem_sys_bytes, "2048");
    assert_eq!(r.gc_cycles, 0);
    assert_eq!(r.uptime_seconds, "9");
    assert_eq!(runtime_info(Some("1.80"), 1, 0, 0, 0, s("")).version, "1.80");
}

#[test]
fn task_types() {
    assert_eq!(registered_type_names(), vec![s("broadcast_message"), s("tenant_expiry_scan"), s("backup"), s("script_task"), s("audit_log_archive")]);
    assert!(require_registered_type_name(" backup ").is_ok());
    assert_eq!(verr(require_registered_type_name("mine")), "task type [mine] is not registered");
    assert_eq!(verr(require_registered_type_name(" ")), "task type [ ] is not registered");
    assert_eq!(type_or_default(&None).unwrap(), "PERIODIC");
    assert_eq!(type_or_default(&Some(s("delay"))).unwrap(), "DELAY");
    assert_eq!(verr(type_or_default(&Some(s("cron")))), "invalid task type: cron");
    assert_eq!(verr(Err::<(), _>(type_name_taken("backup"))), "task type [backup] already exists, please use a different type or update the existing task");
    assert!(matches!(scheduler_not_configured(), AppError::Internal { ref context } if context == "task scheduler is not configured"));
    assert_eq!(update_type_name(&Some(s(" b ")), None).unwrap(), "b");
    assert!(matches!(update_type_name(&None, None), Err(AppError::NotFound(ref m)) if m == "task not found"));
    assert_eq!(update_type_name(&Some(s(" ")), Some(None)).unwrap(), "");
    assert_eq!(update_type_name(&None, Some(Some(s("x")))).unwrap(), "x");
}

#[test]
fn user_and_tenant_queries() {
    assert_eq!(edit_password_request(&EditUserPasswordBody { user_id: Some(3), password: Some(s("p")) }, 9).unwrap(), (3, s("p")));
    assert_eq!(edit_password_request(&EditUserPasswordBody { user_id: Some(0), password: Some(s("p")) }, 9).unwrap(), (9, s("p")));
    assert_eq!(verr(edit_password_request(&EditUserPasswordBody { user_id: None, password: Some(s("p")) }, 0)), "userId is required");
    assert_eq!(verr(edit_password_request(&EditUserPasswordBody { user_id: Some(1), password: Some(s(" ")) }, 0)), "password is required");
    assert!(matches!(user_exists_query(Some("12"), Some("bob")), Ok(ExistsBy::Id(12))));
    assert!(matches!(user_exists_query(Some("x"), Some(" bob ")), Ok(ExistsBy::Name(ref n)) if n == "bob"));
    assert_eq!(verr(user_exists_query(None, Some(" "))), "id or username is required");
    assert_eq!(tenant_exists_query(Some(" c1 "), Some("n")).unwrap(), (true, s("c1")));
    assert_eq!(tenant_exists_query(Some(" "), Some(" n ")).unwrap(), (false, s("n")));
    assert_eq!(verr(tenant_exists_query(None, None)), "code or name is required");
}

use backendr::auth::SessionMeta;
use backendr::crypto::{channel_key, decrypt_channel_secret};
use backendr::error::AppError;
use backendr::handlers::notification_channel::{
    check_test_channel, create_defaults, password_to_store, require_id, send_test_error,
    smtp_config, test_email_body, test_recipient, ChannelData, ChannelRow, SendTestEmailBody,
};
use backendr::handlers::online_session::{
    check_own_session, force_logout_targets, matches_keyword, my_sessions, newest_first_order,
    owns_session, page_param, required_jti, revoke_client_type, sessions_page, to_dto,
    ForceLogoutBody, RevokeMyBody,
};

fn s(x: &str) -> String {
    x.to_string()
}

fn verr<T>(r: Result<T, AppError>) -> String {
    match r {
        Err(AppError::Validation(m)) => m,
        Err(e) => panic!("expected a validation error, got {:?}", e),
        Ok(_) => panic!("expected a validation error, got Ok"),
    }
}

fn channel_data() -> ChannelData {
    ChannelData {
        id: None,
        name: Some(s(" Mail ")),
        type_: None,
        smtp_host: None,
        smtp_port: None,
        smtp_username: None,
        smtp_from: None,
        smtp_tls: None,
        enabled: None,
        remark: None,
    }
}

fn channel_row(ty: &str, status: Option<&str>) -> ChannelRow {
    ChannelRow {
        id: 1,
        type_: s(ty),
        status: status.map(s),
        smtp_host: Some(s("smtp.x")),
        smtp_port: Some(587),
        smtp_username: Some(s("u")),
        smtp_password: None,
        smtp_from: None,
        smtp_tls: None,
    }
}

#[test]
fn channel_defaults_and_checks() {
    assert_eq!(create_defaults(&channel_data()), (s("Mail"), s("EMAIL"), s("START_TLS"), true));
    assert!(require_id(3).is_ok());
    assert_eq!(verr(require_id(0)), "id is required");
    assert_eq!(test_recipient(&SendTestEmailBody { id: Some(1), recipient: Some(s(" a@b.c "))}).unwrap(), "a@b.c");
    assert_eq!(verr(test_recipient(&SendTestEmailBody { id: Some(1), recipient: None })), "recipient is required");
    assert!(check_test_channel(&channel_row("EMAIL", Some("ON"))).is_ok());
    assert_eq!(verr(check_test_channel(&channel_row("SMS", Some("ON")))), "test email is only available for EMAIL channels");
    assert_eq!(verr(check_test_channel(&channel_row("EMAIL", Some("OFF")))), "notification channel is disabled");
}

#[test]
fn channel_smtp_settings() {
    let c = smtp_config(&channel_row("EMAIL", Some("ON")), s("pw"));
    assert_eq!(c.host, "smtp.x");
    assert_eq!(c.port, 587);
    assert_eq!(c.username, "u");
    assert_eq!(c.password, "pw");
    assert_eq!(c.from, "");
    assert_eq!(c.tls, "START_TLS");
    assert_eq!(
        test_email_body(3, 7),
        "这是一封来自 GoWind Admin 的测试邮件。\n如果您收到了它，说明渠道 [3] 配置可用。\n操作人用户 ID: 7\n"
    );
    assert_eq!(verr(Err::<(), _>(send_test_error(AppError::Validation(s("send mail failed: timeout"))))), "send test email failed: timeout");
    assert_eq!(verr(Err::<(), _>(send_test_error(AppError::Validation(s("invalid from address: x"))))), "send test email failed: invalid from address: x");
    assert!(matches!(send_test_error(AppError::Internal { context: s("c") }), AppError::Internal { ref context } if context == "c"));
}

#[test]
fn channel_passwords() {
    let key = channel_key(Some("k")).unwrap();
    assert_eq!(password_to_store(&None, Some(&key)).unwrap(), None);
    assert_eq!(password_to_store(&Some(s("")), Some(&key)).unwrap(), None);
    assert_eq!(password_to_store(&Some(s("pw")), None).unwrap(), Some(s("pw")));
    let stored = password_to_store(&Some(s("pw")), Some(&key)).unwrap().unwrap();
    assert_eq!(decrypt_channel_secret(&stored, Some(&key)).unwrap(), "pw");
}

fn meta(jti: &str, uid: i64, user: &str, ip: &str, at: &str) -> SessionMeta {
    SessionMeta {
        jti: s(jti),
        client_type: s("admin"),
        uid,
        username: s(user),
        tenant_id: 1,
        ip: s(ip),
        ua: s("ua"),
        dev: s("d"),
        login_at: s(at),
    }
}

fn metas() -> Vec<SessionMeta> {
    vec![
        meta("a", 1, "Alice", "10.0.0.1", "2024-01-01T00:00:00Z"),
        meta("b", 2, "bob", "10.0.0.2", "2024-01-03T00:00:00Z"),
        meta("c", 1, "alice", "192.168.1.1", "2024-01-02T00:00:00Z"),
        meta("d", 3, "carol", "10.0.0.9", "2024-01-03T00:00:00Z"),
    ]
}

#[test]
fn session_dtos_and_keywords() {
    let d = to_dto(&metas()[0], Some("a"));
    assert_eq!(d.current, Some(true));
    assert_eq!(d.user_id, 1);
    assert_eq!(d.ip_address, "10.0.0.1");
    assert_eq!(to_dto(&metas()[0], Some("b")).current, Some(false));
    assert_eq!(to_dto(&metas()[0], None).current, None);
    assert!(matches_keyword(&metas()[0], "ALI"));
    assert!(matches_keyword(&metas()[2], "192.168"));
    assert!(matches_keyword(&metas()[1], ""));
    assert!(!matches_keyword(&metas()[1], "alice"));
}

#[test]
fn session_ordering_and_pages() {
    let dtos: Vec<_> = metas().iter().map(|m| to_dto(m, None)).collect();
    assert_eq!(newest_first_order(&dtos), vec![1, 3, 2, 0]);
    let (page, total) = sessions_page(&metas(), "", 1, 2);
    assert_eq!(total, 4);
    assert_eq!(page.iter().map(|d| d.jti.as_str()).collect::<Vec<_>>(), vec!["b", "d"]);
    let (page2, _) = sessions_page(&metas(), "", 2, 3);
    assert_eq!(page2.iter().map(|d| d.jti.as_str()).collect::<Vec<_>>(), vec!["a"]);
    let (page3, t3) = sessions_page(&metas(), "alice", 1, 10);
    assert_eq!(t3, 2);
    assert_eq!(page3.iter().map(|d| d.jti.as_str()).collect::<Vec<_>>(), vec!["c", "a"]);
    let (empty, _) = sessions_page(&metas(), "", 5, 10);
    assert!(empty.is_empty());
    assert_eq!(page_param(Some("3"), 1), 3);
    assert_eq!(page_param(Some("0"), 1), 1);
    assert_eq!(page_param(Some("x"), 20), 20);
    assert_eq!(page_param(None, 0), 1);
}

#[test]
fn own_sessions() {
    let mine = my_sessions(&metas(), 1, "a");
    assert_eq!(mine.iter().map(|d| d.jti.as_str()).collect::<Vec<_>>(), vec!["c", "a"]);
    assert_eq!(mine[1].current, Some(true));
    assert_eq!(mine[0].current, Some(false));
    assert!(owns_session(&metas(), 1, "c"));
    assert!(!owns_session(&metas(), 2, "c"));
    assert!(check_own_session(true).is_ok());
    assert!(matches!(check_own_session(false), Err(AppError::NotFound(ref m)) if m == "session not found or already offline"));
}

#[test]
fn force_logout_requests() {
    let ok = force_logout_targets(&ForceLogoutBody { client_type: None, user_id: Some(4), jti: Some(s(" j "))}).unwrap();
    assert_eq!(ok, (4, s("j"), vec![s("admin"), s("app")]));
    let one = force_logout_targets(&ForceLogoutBody { client_type: Some(s("app")), user_id: Some(4), jti: Some(s("j"))}).unwrap();
    assert_eq!(one.2, vec![s("app")]);
    assert_eq!(verr(force_logout_targets(&ForceLogoutBody { client_type: None, user_id: None, jti: Some(s("j"))})), "userId is required");
    assert_eq!(verr(force_logout_targets(&ForceLogoutBody { client_type: None, user_id: Some(1), jti: Some(s(" "))})), "jti is required");
    assert_eq!(required_jti(&Some(s(" x "))).unwrap(), "x");
    assert_eq!(verr(required_jti(&None)), "jti is required");
    assert_eq!(revoke_client_type(&RevokeMyBody { client_type: Some(s("app")), jti: None }, "admin"), "app");
    assert_eq!(revoke_client_type(&RevokeMyBody { client_type: Some(s(" ")), jti: None }, "admin"), "admin");
}

use backendr::auth::{
    revoke_all_plan,
    blacklist_key, blacklist_ttl, bearer_token, new_jti, revoke_targets, session_key,
    session_meta_key, session_revocations, token_claims, ACCESS_TOKEN_TTL, REFRESH_TOKEN_TTL,
};
use backendr::config::{AppConfig, Env, EnvVars};
use backendr::error::{internal, validation, AppError};
use backendr::mailer::{SmtpConfig, TlsMode};
use backendr::text::{
    contains, ends_with, eq_ignore_ascii_case, i64_decimal, join_strings, parse_i64, parse_u32,
    parse_u8, parse_unsigned, segments_str, split_char_str, starts_with, str_less, strip_prefix,
    strip_suffix, to_ascii_lower, to_ascii_upper, trim_char_str, trim_end_char_str,
    trim_start_char_str, trim_str, u64_decimal,
};

fn s(x: &str) -> String {
    x.to_string()
}

#[test]
fn error_status_reason_message() {
    let e = AppError::Validation(s("bad name"));
    assert_eq!(e.status(), 400);
    assert_eq!(e.reason(), "BAD_REQUEST");
    assert_eq!(e.message(), "bad name");
    assert_eq!(AppError::NotImplemented.status(), 501);
    assert_eq!(AppError::NotImplemented.reason(), "NOT_IMPLEMENTED");
    assert_eq!(AppError::NotImplemented.message(), "接口未实现");
    assert_eq!(AppError::Unauthorized.status(), 401);
    assert_eq!(AppError::Unauthorized.message(), "missing bearer token");
    assert_eq!(AppError::Forbidden(s("no")).status(), 403);
    assert_eq!(AppError::Forbidden(s("no")).reason(), "FORBIDDEN");
    assert_eq!(AppError::NotFound(s("gone")).status(), 404);
    assert_eq!(AppError::Conflict(s("dup")).status(), 409);
    assert_eq!(AppError::Conflict(s("dup")).reason(), "CONFLICT");
    let i = AppError::Internal { context: s("boom") };
    assert_eq!(i.status(), 500);
    assert_eq!(i.reason(), "INTERNAL_SERVER_ERROR");
    assert_eq!(i.message(), "boom");
    assert_eq!(AppError::Db(s("x")).message(), "数据库错误: x");
    assert_eq!(AppError::Redis(s("y")).message(), "Redis 错误: y");
    assert_eq!(AppError::Redis(s("y")).status(), 500);
}

#[test]
fn error_body_and_builders() {
    let b = AppError::NotFound(s("record not found")).body();
    assert_eq!(b.code, 404);
    assert_eq!(b.reason, "NOT_FOUND");
    assert_eq!(b.message, "record not found");
    assert!(matches!(validation("m"), AppError::Validation(ref x) if x == "m"));
    assert!(matches!(internal("c"), AppError::Internal { ref context } if context == "c"));
}

fn no_vars() -> EnvVars {
    EnvVars {
        env: None,
        http_addr: None,
        database_url: None,
        redis_url: None,
        jwt_secret: None,
        default_tenant_id: None,
        max_body_bytes: None,
    }
}

#[test]
fn config_defaults() {
    let c = AppConfig::from_env(&no_vars());
    assert_eq!(c.env, Env::Dev);
    assert_eq!(c.http_addr, "0.0.0.0:7666");
    assert_eq!(c.database_url, None);
    assert_eq!(c.redis_url, None);
    assert_eq!(c.jwt_secret, "dev-secret-change-me");
    assert_eq!(c.default_tenant_id, 1);
    assert_eq!(c.max_body_bytes, 10 * 1024 * 1024);
}

#[test]
fn config_from_values() {
    let mut v = no_vars();
    v.env = Some(s("Production"));
    v.http_addr = Some(s("127.0.0.1:9000"));
    v.database_url = Some(s("postgres://db"));
    v.redis_url = Some(s(""));
    v.jwt_secret = Some(s("k"));
    v.default_tenant_id = Some(s("42"));
    v.max_body_bytes = Some(s("2048"));
    let c = AppConfig::from_env(&v);
    assert_eq!(c.env, Env::Prod);
    assert_eq!(c.http_addr, "127.0.0.1:9000");
    assert_eq!(c.database_url, Some(s("postgres://db")));
    assert_eq!(c.redis_url, None);
    assert_eq!(c.jwt_secret, "k");
    assert_eq!(c.default_tenant_id, 42);
    assert_eq!(c.max_body_bytes, 2048);
    let mut w = no_vars();
    w.default_tenant_id = Some(s("x"));
    w.max_body_bytes = Some(s("-1"));
    let d = AppConfig::from_env(&w);
    assert_eq!(d.default_tenant_id, 1);
    assert_eq!(d.max_body_bytes, 10 * 1024 * 1024);
}

#[test]
fn env_names() {
    assert_eq!(Env::from_str("prod"), Env::Prod);
    assert_eq!(Env::from_str("TESTING"), Env::Test);
    assert_eq!(Env::from_str("test"), Env::Test);
    assert_eq!(Env::from_str("staging"), Env::Dev);
}

fn smtp(from: &str, user: &str, tls: &str) -> SmtpConfig {
    SmtpConfig {
        host: s("smtp.example.com"),
        port: 465,
        username: s(user),
        password: s("pw"),
        from: s(from),
        tls: s(tls),
    }
}

#[test]
fn mailer_sender_and_tls() {
    assert_eq!(smtp("  ", "u@x.com", "SSL").from_or_username(), "u@x.com");
    assert_eq!(smtp("f@x.com", "u@x.com", "SSL").from_or_username(), "f@x.com");
    assert_eq!(smtp("", "", "ssl").tls_mode(), TlsMode::Implicit);
    assert_eq!(smtp("", "", "SSL").tls_mode(), TlsMode::Implicit);
    assert_eq!(smtp("", "", "start_tls").tls_mode(), TlsMode::Opportunistic);
    assert_eq!(smtp("", "", "NONE").tls_mode(), TlsMode::Opportunistic);
    assert_eq!(smtp("", "", "").tls_mode(), TlsMode::Opportunistic);
    assert!(smtp("", "u", "").uses_credentials());
    assert!(!smtp("", "", "").uses_credentials());
}

#[test]
fn text_trimming() {
    assert_eq!(trim_str("  a b \t\n"), "a b");
    assert_eq!(trim_str("\u{3000}x\u{a0}"), "x");
    assert_eq!(trim_char_str("//a/b//", '/'), "a/b");
    assert_eq!(trim_start_char_str("//a/b//", '/'), "a/b//");
    assert_eq!(trim_end_char_str("users", 's'), "user");
    assert_eq!(trim_end_char_str("class", 's'), "cla");
    assert_eq!(strip_prefix("Bearer x", "Bearer "), Some(s("x")));
    assert_eq!(strip_prefix("bearer x", "Bearer "), None);
    assert_eq!(strip_suffix("file.png", ".png"), Some(s("file")));
}

#[test]
fn text_search_and_split() {
    assert!(starts_with("/users/1", "/users"));
    assert!(!starts_with("/u", "/users"));
    assert!(ends_with("a.txt", ".txt"));
    assert!(contains("/admin/v1/login", "/login"));
    assert!(!contains("/admin/v1/logi", "/login"));
    assert_eq!(split_char_str("a,,b", ','), vec![s("a"), s(""), s("b")]);
    assert_eq!(split_char_str("", ','), vec![s("")]);
    assert_eq!(segments_str("/a//b/", '/'), vec![s("a"), s("b")]);
    assert_eq!(join_strings(&vec![s("x"), s("y"), s("z")], ", "), "x, y, z");
    assert_eq!(join_strings(&vec![], ", "), "");
}

#[test]
fn text_case() {
    assert_eq!(to_ascii_upper("aBc-é"), "ABC-é");
    assert_eq!(to_ascii_lower("AbC"), "abc");
    assert!(eq_ignore_ascii_case("Ssl", "SSL"));
    assert!(!eq_ignore_ascii_case("SSL", "TLS"));
}

#[test]
fn text_numbers() {
    assert_eq!(parse_i64("42"), Some(42));
    assert_eq!(parse_i64("-7"), Some(-7));
    assert_eq!(parse_i64("+7"), Some(7));
    assert_eq!(parse_i64("9223372036854775807"), Some(i64::MAX));
    assert_eq!(parse_i64("9223372036854775808"), None);
    assert_eq!(parse_i64("-9223372036854775808"), Some(i64::MIN));
    assert_eq!(parse_i64(""), None);
    assert_eq!(parse_i64("-"), None);
    assert_eq!(parse_i64("1a"), None);
    assert_eq!(parse_i64(" 1"), None);
    assert_eq!(parse_u32("4294967295"), Some(u32::MAX));
    assert_eq!(parse_u32("4294967296"), None);
    assert_eq!(parse_u32("-1"), None);
    assert_eq!(parse_u8("255"), Some(255));
    assert_eq!(parse_u8("256"), None);
    assert_eq!(parse_unsigned("+10", 100), Some(10));
    assert_eq!(i64_decimal(-1234), "-1234");
    assert_eq!(i64_decimal(i64::MIN), "-9223372036854775808");
    assert_eq!(i64_decimal(0), "0");
    assert_eq!(u64_decimal(u64::MAX), "18446744073709551615");
}

#[test]
fn text_order() {
    assert!(str_less("abc", "abd"));
    assert!(str_less("ab", "abc"));
    assert!(!str_less("abc", "abc"));
    assert!(!str_less("b", "a"));
}

#[test]
fn bearer_extraction() {
    assert_eq!(bearer_token(Some("Bearer abc")), Some(s("abc")));
    assert_eq!(bearer_token(Some("  Bearer   abc  ")), Some(s("abc")));
    assert_eq!(bearer_token(Some("Bearer ")), None);
    assert_eq!(bearer_token(Some("Basic abc")), None);
    assert_eq!(bearer_token(Some("bearer abc")), None);
    assert_eq!(bearer_token(None), None);
}

#[test]
fn bearer_roundtrip_law_on_values() {
    for t in ["tok", "a.b.c", "x y"] {
        let header = format!("Bearer {t}");
        assert_eq!(bearer_token(Some(&header)), Some(t.to_string()));
    }
}

#[test]
fn redis_key_layout() {
    assert_eq!(session_key("admin", 7), "gw:sessions:admin:7");
    assert_eq!(session_meta_key("admin", -3, "j1"), "gw:session:meta:admin:-3:j1");
    assert_eq!(blacklist_key("j2"), "gw:bl:j2");
}

#[test]
fn claims_share_jti() {
    let (a, r) = token_claims(1000, 5, 2, "alice", None, Some(s("dev")), vec![], true, false, "j");
    assert_eq!(a.sub, "alice");
    assert_eq!(a.uid, 5);
    assert_eq!(a.tid, 2);
    assert_eq!(a.cid, None);
    assert_eq!(a.did, Some(s("dev")));
    assert_eq!(a.roc, None);
    assert_eq!(a.ipa, Some(true));
    assert_eq!(a.ita, None);
    assert_eq!(a.iat, 1000);
    assert_eq!(a.exp, 1000 + ACCESS_TOKEN_TTL);
    assert_eq!(r.exp, 1000 + REFRESH_TOKEN_TTL);
    assert_eq!(a.jti, r.jti);
    assert_eq!(r.uid, 5);
    let (b, _) = token_claims(0, 1, 0, "b", None, None, vec![s("admin")], false, true, "k");
    assert_eq!(b.roc, Some(vec![s("admin")]));
    assert_eq!(b.ita, Some(true));
}

#[test]
fn jti_is_hyphenated_uuid() {
    let a = new_jti();
    let b = new_jti();
    assert_eq!(a.len(), 36);
    assert_ne!(a, b);
    for (i, c) in a.chars().enumerate() {
        if [8, 13, 18, 23].contains(&i) {
            assert_eq!(c, '-');
        } else {
            assert!(c.is_ascii_hexdigit() && !c.is_ascii_uppercase());
        }
    }
}

#[test]
fn revocation_helpers() {
    assert_eq!(blacklist_ttl(0), 1);
    assert_eq!(blacklist_ttl(-5), 1);
    assert_eq!(blacklist_ttl(300), 300);
    let m = vec![s("a"), s("keep"), s("b"), s("keep")];
    assert_eq!(revoke_targets(&m, "keep"), vec![s("a"), s("b")]);
    let r = session_revocations("acc", Some("ref"));
    assert_eq!(r, vec![(s("acc"), ACCESS_TOKEN_TTL), (s("ref"), REFRESH_TOKEN_TTL)]);
    assert_eq!(session_revocations("acc", None), vec![(s("acc"), ACCESS_TOKEN_TTL)]);
}

#[test]
fn revoke_all_writes_markers_and_deletions() {
    let members = vec!["a".to_string(), "keep".to_string(), "b".to_string()];
    let p = revoke_all_plan("admin", 7, &members, "keep");
    assert_eq!(p.blacklist, vec![("gw:bl:a".to_string(), 604800), ("gw:bl:b".to_string(), 604800)]);
    assert_eq!(
        p.delete_keys,
        vec![
            "gw:session:meta:admin:7:a".to_string(),
            "gw:session:meta:admin:7:b".to_string(),
            "gw:sessions:admin:7".to_string(),
        ]
    );
}

use backendr::error::AppError;
use backendr::handlers::access_key::{exchange_decision, exchange_step, hash_secret, AccessKeyRow};
use backendr::jwt::{claims_live, sign_token, verify_token};
use backendr::login_limit::{fallback_policy, FailCounter};

#[test]
fn signed_token_verifies_and_matches_jsonwebtoken() {
    let json = r#"{"exp":100,"sub":"a"}"#;
    let t = sign_token("k", json);
    assert_eq!(verify_token("k", &t), Some(json.to_string()));
    let value: serde_json::Value = serde_json::from_str(json).unwrap();
    let expected = jsonwebtoken::encode(
        &jsonwebtoken::Header::new(jsonwebtoken::Algorithm::HS256),
        &value,
        &jsonwebtoken::EncodingKey::from_secret(b"k"),
    )
    .unwrap();
    assert_eq!(t, expected);
}

#[test]
fn tampered_or_foreign_tokens_are_refused() {
    let t = sign_token("k", r#"{"uid":1}"#);
    assert_eq!(verify_token("other", &t), None);
    let forged = sign_token("k", r#"{"uid":2}"#);
    let parts: Vec<&str> = t.split('.').collect();
    let forged_parts: Vec<&str> = forged.split('.').collect();
    let mixed = format!("{}.{}.{}", parts[0], forged_parts[1], parts[2]);
    assert_eq!(verify_token("k", &mixed), None);
    assert_eq!(verify_token("k", "a.b"), None);
    assert_eq!(verify_token("k", &format!("{t}.x")), None);
}

#[test]
fn claims_live_with_leeway() {
    assert!(claims_live(1000, 1000));
    assert!(claims_live(1000, 1060));
    assert!(!claims_live(1000, 1061));
    assert!(claims_live(i64::MIN, i64::MIN));
}

fn key(status: &str, secret: &str) -> AccessKeyRow {
    AccessKeyRow {
        id: 1,
        name: None,
        access_key: "ak-1".to_string(),
        secret_hash: Some(hash_secret(secret)),
        status: status.to_string(),
        expires_at: None,
        last_used_at: None,
        tenant_id: 9,
    }
}

fn verr(r: Result<(), AppError>) -> String {
    match r {
        Err(AppError::Validation(m)) => m,
        _ => panic!("expected a validation error"),
    }
}

#[test]
fn unknown_key_is_answered_like_a_wrong_secret() {
    let k = key("ON", "sk-good");
    let unknown = verr(exchange_decision(None, "sk-good", (0, 0)));
    let wrong = verr(exchange_decision(Some(&k), "sk-bad", (0, 0)));
    assert_eq!(unknown, "invalid access key or secret");
    assert_eq!(unknown, wrong);
    assert!(exchange_decision(Some(&k), "sk-good", (0, 0)).is_ok());
    assert_eq!(verr(exchange_decision(Some(&key("OFF", "sk-good")), "sk-good", (0, 0))), "access key is disabled");
}

#[test]
fn exchange_failures_lock_and_success_resets() {
    let k = key("ON", "sk-good");
    let p = fallback_policy();
    let mut c = FailCounter::new();
    for _ in 0..5 {
        assert_eq!(verr(exchange_step(&mut c, "ak-1", None, "x", (10, 0), &p)), "invalid access key or secret");
    }
    assert_eq!(
        verr(exchange_step(&mut c, "ak-1", Some(&k), "sk-good", (20, 0), &p)),
        "too many attempts, try again later"
    );
    assert!(exchange_step(&mut c, "ak-1", Some(&k), "sk-good", (400, 0), &p).is_ok());
    assert_eq!(c.counts.get("gw:loginfail:user:ak-1"), None);
    assert_eq!(c.counts.get("gw:loginfail:ip:unknown"), None);
}

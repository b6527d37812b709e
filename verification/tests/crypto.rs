use backendr::audit_chain::sign;
use backendr::crypto::{
    channel_key, check_password, constant_time_eq, decrypt_channel_secret,
    decrypt_transport_secret, encrypt_channel_secret, hash_password, hex_decode_str, hex_encode,
    sha256_hex, sign_data, transport_password_hash, verify_signature, TRANSPORT_AES_KEY,
};
use backendr::error::AppError;

use base64::Engine;
use cipher::{BlockEncryptMut, KeyIvInit};

fn transport_encrypt(plain: &str) -> String {
    let enc = cbc::Encryptor::<aes::Aes128>::new(&TRANSPORT_AES_KEY.into(), &TRANSPORT_AES_KEY.into());
    let ct = enc.encrypt_padded_vec_mut::<cipher::block_padding::Pkcs7>(plain.as_bytes());
    base64::engine::general_purpose::STANDARD.encode(ct)
}

#[test]
fn hex_roundtrip_on_values() {
    let bytes = vec![0u8, 1, 0xab, 0xff, 0x10];
    let h = hex_encode(&bytes);
    assert_eq!(h, "0001abff10");
    assert_eq!(hex_decode_str(&h), Some(bytes));
    assert_eq!(hex_decode_str("ABff"), Some(vec![0xab, 0xff]));
    assert_eq!(hex_decode_str("abc"), None);
    assert_eq!(hex_decode_str("zz"), None);
    assert_eq!(hex_decode_str(""), Some(vec![]));
}

#[test]
fn constant_time_comparison() {
    assert!(constant_time_eq(b"abc", b"abc"));
    assert!(!constant_time_eq(b"abc", b"abd"));
    assert!(!constant_time_eq(b"abc", b"ab"));
    assert!(constant_time_eq(b"", b""));
}

#[test]
fn sha256_of_text() {
    assert_eq!(
        sha256_hex("abc"),
        "ba7816bf8f01cfea414140de5dae2223b00361a396177a9cb410ff61f20015ad"
    );
    assert_eq!(
        sha256_hex(""),
        "e3b0c44298fc1c149afbf4c8996fb92427ae41e4649b934ca495991b7852b855"
    );
}

#[test]
fn chained_audit_hash() {
    assert_eq!(sign("", "abc"), sha256_hex("abc"));
    assert_eq!(sign("ab", "c"), sha256_hex("abc"));
    assert_ne!(sign("x", "abc"), sha256_hex("abc"));
    assert_eq!(sign("p", "q").len(), 64);
}

#[test]
fn transport_secret_decrypts() {
    let secret = transport_encrypt("P@ssw0rd!");
    assert_eq!(decrypt_transport_secret(&secret).unwrap(), "P@ssw0rd!");
}

#[test]
fn transport_secret_errors() {
    match decrypt_transport_secret("not base64!!") {
        Err(AppError::Validation(m)) => assert!(m.starts_with("invalid base64 credential: ")),
        _ => panic!("expected a validation error"),
    }
    let wrong = base64::engine::general_purpose::STANDARD.encode([1u8; 16]);
    match decrypt_transport_secret(&wrong) {
        Err(AppError::Validation(m)) => assert_eq!(m, "decrypt credential failed: Unpad Error"),
        _ => panic!("expected a validation error"),
    }
}

#[test]
fn channel_key_derivation() {
    assert_eq!(channel_key(None), None);
    assert_eq!(channel_key(Some("")), None);
    let k = channel_key(Some("secret")).unwrap();
    assert_eq!(k.len(), 32);
    assert_eq!(hex_encode(&k), sha256_hex("secret"));
}

#[test]
fn channel_secret_roundtrip() {
    let key = channel_key(Some("k")).unwrap();
    let stored = encrypt_channel_secret("smtp-pass", Some(&key)).unwrap();
    assert!(stored.starts_with("enc:"));
    assert_ne!(stored, encrypt_channel_secret("smtp-pass", Some(&key)).unwrap());
    assert_eq!(decrypt_channel_secret(&stored, Some(&key)).unwrap(), "smtp-pass");
}

#[test]
fn channel_secret_plain_cases() {
    let key = channel_key(Some("k")).unwrap();
    assert_eq!(encrypt_channel_secret("", Some(&key)).unwrap(), "");
    assert_eq!(encrypt_channel_secret("plain", None).unwrap(), "plain");
    assert_eq!(decrypt_channel_secret("plain", None).unwrap(), "plain");
    assert_eq!(decrypt_channel_secret("plain", Some(&key)).unwrap(), "plain");
}

fn internal_context(r: Result<String, AppError>) -> String {
    match r {
        Err(AppError::Internal { context }) => context,
        _ => panic!("expected an internal error"),
    }
}

#[test]
fn channel_secret_errors() {
    let key = channel_key(Some("k")).unwrap();
    let other = channel_key(Some("other")).unwrap();
    let stored = encrypt_channel_secret("x", Some(&key)).unwrap();
    assert_eq!(
        internal_context(decrypt_channel_secret(&stored, None)),
        "GOWIND_CRYPTO_KEY not set but payload is encrypted"
    );
    assert_eq!(
        internal_context(decrypt_channel_secret(&stored, Some(&other))),
        "decrypt channel secret failed: aead::Error"
    );
    assert_eq!(
        internal_context(decrypt_channel_secret("enc:%%%", Some(&key))),
        "decode channel secret failed"
    );
    let short = format!("enc:{}", base64::engine::general_purpose::STANDARD.encode([0u8; 5]));
    assert_eq!(internal_context(decrypt_channel_secret(&short, Some(&key))), "channel secret too short");
}

#[test]
fn signatures_verify() {
    let key = channel_key(Some("media")).unwrap();
    let sig = sign_data("path=/a&exp=1", Some(&key)).unwrap();
    assert_eq!(sig.len(), 64);
    assert!(verify_signature("path=/a&exp=1", &sig, Some(&key)));
    assert!(verify_signature("path=/a&exp=1", &format!("  {}  ", sig.to_uppercase()), Some(&key)));
    assert!(!verify_signature("path=/a&exp=2", &sig, Some(&key)));
    assert!(!verify_signature("path=/a&exp=1", &sig, None));
    assert!(!verify_signature("path=/a&exp=1", "nothex", Some(&key)));
    assert_eq!(sign_data("x", None), None);
}

#[test]
fn passwords() {
    let h = hash_password("secret1").unwrap();
    assert!(h.starts_with("$2"));
    assert!(check_password("PASSWORD_HASH", &h, "secret1"));
    assert!(!check_password("PASSWORD_HASH", &h, "secret2"));
    assert!(!check_password("PASSWORD_HASH", "not a hash", "secret1"));
    assert!(check_password("PLAIN", "same", "same"));
    assert!(!check_password("PLAIN", "same", "other"));
}

#[test]
fn transport_password_hashes() {
    let h = transport_password_hash(&transport_encrypt("pw123")).unwrap();
    assert!(check_password("PASSWORD_HASH", &h, "pw123"));
    assert!(matches!(transport_password_hash("@@"), Err(AppError::Validation(_))));
}

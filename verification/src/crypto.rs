//! Transport and channel secrets, digests and signatures: AES-128-CBC
//! transport decryption, AES-256-GCM channel secrets with the `enc:` prefix,
//! HMAC-SHA256 media signatures, lowercase hex and constant-time comparison.

use vstd::prelude::*;
use vstd::string::*;
use vstd::utf8::*;
use crate::error::{AppError, is_validation};
use crate::text::{push_char, cat, strip_prefix, has_prefix, trim, is_ws};

verus! {

// ===================== hex =====================

pub open spec fn hex_digit(d: int) -> char {
    if d < 10 {
        (d + ('0' as int)) as char
    } else {
        (d - 10 + ('a' as int)) as char
    }
}

/// `hex::encode`: two lowercase hex digits per byte, high nibble first.
pub open spec fn hex_lower(b: Seq<u8>) -> Seq<char>
    decreases b.len(),
{
    if b.len() == 0 {
        Seq::<char>::empty()
    } else {
        hex_lower(b.drop_last()).push(hex_digit((b.last() / 16) as int)).push(
            hex_digit((b.last() % 16) as int),
        )
    }
}

/// The value of one hex digit of either case.
pub open spec fn hex_value(c: char) -> Option<u8> {
    if '0' <= c && c <= '9' {
        Some(((c as int) - ('0' as int)) as u8)
    } else if 'a' <= c && c <= 'f' {
        Some(((c as int) - ('a' as int) + 10) as u8)
    } else if 'A' <= c && c <= 'F' {
        Some(((c as int) - ('A' as int) + 10) as u8)
    } else {
        None
    }
}

/// `hex::decode`: an even number of hex digits of either case, two per byte.
pub open spec fn hex_decode(s: Seq<char>) -> Option<Seq<u8>>
    decreases s.len(),
{
    if s.len() == 0 {
        Some(Seq::<u8>::empty())
    } else if s.len() == 1 {
        None
    } else {
        match (hex_decode(s.subrange(0, s.len() - 2)), hex_value(s[s.len() - 2]), hex_value(s[s.len() - 1])) {
            (Some(p), Some(h), Some(l)) => Some(p.push((h * 16 + l) as u8)),
            _ => None,
        }
    }
}

fn hex_char(d: u8) -> (r: char)
    requires
        d < 16,
    ensures
        r == hex_digit(d as int),
{
    if d < 10 {
        (d + 48u8) as char
    } else {
        (d - 10 + 97u8) as char
    }
}


/// `hex::encode`.
pub fn hex_encode(b: &[u8]) -> (r: String)
    ensures
        r@ == hex_lower(b@),
{
    let mut out = String::new();
    let mut i: usize = 0;
    assert(b@.subrange(0, 0) =~= Seq::<u8>::empty());
    while i < b.len()
        invariant
            i <= b.len(),
            out@ == hex_lower(b@.subrange(0, i as int)),
        decreases b.len() - i,
    {
        let x: u8 = b[i];
        push_char(&mut out, hex_char(x / 16));
        push_char(&mut out, hex_char(x % 16));
        proof {
            let nxt = b@.subrange(0, i + 1);
            assert(nxt.drop_last() =~= b@.subrange(0, i as int));
        }
        i += 1;
    }
    assert(b@.subrange(0, b.len() as int) =~= b@);
    out
}

fn hex_val(c: char) -> (r: Option<u8>)
    ensures
        r == hex_value(c),
{
    if '0' <= c && c <= '9' {
        Some(((c as u32) - 48) as u8)
    } else if 'a' <= c && c <= 'f' {
        Some(((c as u32) - 97 + 10) as u8)
    } else if 'A' <= c && c <= 'F' {
        Some(((c as u32) - 65 + 10) as u8)
    } else {
        None
    }
}

/// `hex::decode`.
pub fn hex_decode_str(s: &str) -> (r: Option<Vec<u8>>)
    ensures
        match hex_decode(s@) {
            Some(b) => r matches Some(v) && v@ == b,
            None => r is None,
        },
{
    let v = crate::text::chars_of(s);
    if v.len() % 2 == 1 {
        proof {
            lemma_hex_decode_odd(s@);
        }
        return None;
    }
    let mut out: Vec<u8> = Vec::new();
    let mut i: usize = 0;
    assert(s@.subrange(0, 0) =~= Seq::<char>::empty());
    while i < v.len()
        invariant
            v@ == s@,
            v.len() % 2 == 0,
            i % 2 == 0,
            i <= v.len(),
            hex_decode(s@.subrange(0, i as int)) == Some(out@),
        decreases v.len() - i,
    {
        let nxt = Ghost(s@.subrange(0, i + 2));
        assert(nxt@.subrange(0, nxt@.len() - 2) =~= s@.subrange(0, i as int));
        assert(nxt@[nxt@.len() - 2] == v@[i as int]);
        assert(nxt@[nxt@.len() - 1] == v@[i + 1]);
        let h = hex_val(v[i]);
        let l = hex_val(v[i + 1]);
        match (h, l) {
            (Some(hv), Some(lv)) => {
                out.push(hv * 16 + lv);
            },
            _ => {
                proof {
                    lemma_hex_decode_prefix_none(s@, (i + 2) as int);
                }
                return None;
            },
        }
        i += 2;
    }
    assert(s@.subrange(0, v.len() as int) =~= s@);
    Some(out)
}

proof fn lemma_hex_decode_odd(s: Seq<char>)
    requires
        s.len() % 2 == 1,
    ensures
        hex_decode(s) is None,
    decreases s.len(),
{
    if s.len() > 1 {
        lemma_hex_decode_odd(s.subrange(0, s.len() - 2));
    }
}

proof fn lemma_hex_decode_prefix_none(s: Seq<char>, k: int)
    requires
        0 <= k <= s.len(),
        k % 2 == 0,
        s.len() % 2 == 0,
        hex_decode(s.subrange(0, k)) is None,
    ensures
        hex_decode(s) is None,
    decreases s.len() - k,
{
    if k < s.len() {
        let t = s.subrange(0, k + 2);
        assert(t.subrange(0, t.len() - 2) =~= s.subrange(0, k));
        lemma_hex_decode_prefix_none(s, k + 2);
    } else {
        assert(s.subrange(0, k) =~= s);
    }
}

/// Decoding the lowercase hex encoding of bytes gives the bytes back.
pub proof fn lemma_hex_roundtrip(b: Seq<u8>)
    ensures
        hex_decode(hex_lower(b)) == Some(b),
    decreases b.len(),
{
    if b.len() > 0 {
        lemma_hex_roundtrip(b.drop_last());
        let s = hex_lower(b);
        let p = hex_lower(b.drop_last());
        lemma_hex_len(b.drop_last());
        assert(s.subrange(0, s.len() - 2) =~= p);
        let x = b.last();
        assert(hex_value(hex_digit((x / 16) as int)) == Some(x / 16));
        assert(hex_value(hex_digit((x % 16) as int)) == Some(x % 16));
        assert((x / 16) * 16 + x % 16 == x);
        assert(b.drop_last().push(x) =~= b);
    }
}

/// Hex takes two characters a byte.
pub proof fn lemma_hex_len(b: Seq<u8>)
    ensures
        hex_lower(b).len() == 2 * b.len(),
    decreases b.len(),
{
    if b.len() > 0 {
        lemma_hex_len(b.drop_last());
    }
}

// ===================== comparisons and digests =====================

/// Byte-wise comparison in time that depends only on the lengths.
pub fn constant_time_eq(a: &[u8], b: &[u8]) -> (r: bool)
    ensures
        r == (a@ == b@),
{
    if a.len() != b.len() {
        return false;
    }
    let mut diff: u8 = 0;
    let mut i: usize = 0;
    while i < a.len()
        invariant
            a.len() == b.len(),
            i <= a.len(),
            (diff == 0) == (forall|j: int| 0 <= j < i ==> a@[j] == b@[j]),
        decreases a.len() - i,
    {
        let x: u8 = a[i];
        let y: u8 = b[i];
        let d: u8 = x ^ y;
        assert((d == 0) == (x == y)) by (bit_vector)
            requires
                d == x ^ y,
        ;
        let nd: u8 = diff | d;
        assert((nd == 0) == (diff == 0 && d == 0)) by (bit_vector)
            requires
                nd == diff | d,
        ;
        diff = nd;
        i += 1;
    }
    if diff == 0 {
        assert(a@ =~= b@);
        true
    } else {
        false
    }
}

/// The SHA-256 digest of a byte sequence.
pub uninterp spec fn sha256(data: Seq<u8>) -> Seq<u8>;

/// Calls `sha2::Sha256::digest`; the digest is named `sha256` of the input
/// and is 32 bytes long (the algorithm itself is not restated).
#[verifier::external_body]
pub(crate) fn sha256_digest(data: &[u8]) -> (r: Vec<u8>)
    ensures
        r@ == sha256(data@),
        r@.len() == 32,
{
    <sha2::Sha256 as sha2::Digest>::digest(data).to_vec()
}

/// Lowercase hex of the SHA-256 digest of the UTF-8 bytes of `s`.
pub fn sha256_hex(s: &str) -> (r: String)
    ensures
        r@ == hex_lower(sha256(s.spec_bytes())),
        r@.len() == 64,
{
    let d = sha256_digest(s.as_bytes());
    proof {
        lemma_hex_len(d@);
    }
    hex_encode(d.as_slice())
}

// ===================== base64 =====================

/// The standard (padded) base64 text of bytes.
pub uninterp spec fn base64_encoding(b: Seq<u8>) -> Seq<char>;

/// The bytes that a standard base64 text decodes to, or the decoder's error
/// message.
pub uninterp spec fn base64_decoding(s: Seq<char>) -> Result<Seq<u8>, Seq<char>>;

/// Whether the base64 text of `n` bytes has a length that fits in `usize`.
pub open spec fn base64_fits(n: int) -> bool {
    (n / 3) * 4 + 4 <= usize::MAX
}

/// Whether `n` bytes can be encoded in base64 (see `base64_fits`).
pub fn base64_fits_exec(n: usize) -> (r: bool)
    ensures
        r == base64_fits(n as int),
{
    let q = n / 3;
    q <= (usize::MAX - 4) / 4
}

/// Calls `base64::Engine::encode` on the `STANDARD` engine; the text is named
/// `base64_encoding` of the bytes. The length bound is the one under which the
/// crate computes the output size without overflow.
#[verifier::external_body]
pub(crate) fn base64_encode(b: &[u8]) -> (r: String)
    requires
        base64_fits(b.len() as int),
    ensures
        r@ == base64_encoding(b@),
{
    base64::Engine::encode(&base64::engine::general_purpose::STANDARD, b)
}

/// Calls `base64::Engine::decode` on the `STANDARD` engine; the bytes, or the
/// `Display` text of the `DecodeError`, are named `base64_decoding` of the
/// text. Claimed besides: the text that `encode` gives for some bytes decodes
/// to those bytes (the engine encodes canonically and decodes what it
/// encodes).
#[verifier::external_body]
pub(crate) fn base64_decode(s: &str) -> (r: Result<Vec<u8>, String>)
    ensures
        match r {
            Ok(v) => base64_decoding(s@) == Ok::<Seq<u8>, Seq<char>>(v@),
            Err(m) => base64_decoding(s@) == Err::<Seq<u8>, Seq<char>>(m@),
        },
        r is Err ==> forall|b: Seq<u8>| #[trigger] base64_encoding(b) != s@,
        r matches Ok(v) ==> forall|b: Seq<u8>| #[trigger] base64_encoding(b) == s@ ==> v@ == b,
{
    match base64::Engine::decode(&base64::engine::general_purpose::STANDARD, s) {
        Ok(v) => Ok(v),
        Err(e) => Err(e.to_string()),
    }
}

// ===================== UTF-8 =====================

/// The text of bytes read as UTF-8, invalid sequences replaced.
pub uninterp spec fn utf8_lossy_text(b: Seq<u8>) -> Seq<char>;

/// Calls `String::from_utf8_lossy`; its text is named `utf8_lossy_text` of the
/// bytes, and is their decoding when they are valid UTF-8 (which the
/// documentation promises: valid input is returned as is).
#[verifier::external_body]
fn utf8_lossy(b: &[u8]) -> (r: String)
    ensures
        r@ == utf8_lossy_text(b@),
        valid_utf8(b@) ==> r@ == decode_utf8(b@),
{
    String::from_utf8_lossy(b).into_owned()
}

/// Calls `String::from_utf8`: the text when the bytes are valid UTF-8.
#[verifier::external_body]
pub(crate) fn utf8_string(b: Vec<u8>) -> (r: Option<String>)
    ensures
        r is Some <==> valid_utf8(b@),
        r matches Some(s) ==> s@ == decode_utf8(b@),
{
    String::from_utf8(b).ok()
}

// ===================== transport secrets (AES-128-CBC) =====================

/// The AES key (and IV) that clients encrypt secrets with for transport.
pub const TRANSPORT_AES_KEY: [u8; 16] = [
    0x66u8, 0x35u8, 0x31u8, 0x64u8, 0x36u8, 0x36u8, 0x61u8, 0x37u8, 0x33u8, 0x64u8, 0x38u8, 0x61u8,
    0x30u8, 0x39u8, 0x32u8, 0x37u8,
];

/// The plaintext of AES-128-CBC ciphertext with PKCS#7 padding, or none when
/// the length or the padding is wrong.
pub uninterp spec fn aes128_cbc_decryption(key: Seq<u8>, iv: Seq<u8>, ct: Seq<u8>) -> Option<Seq<u8>>;

/// Calls `cbc::Decryptor::<aes::Aes128>::decrypt_padded_mut::<Pkcs7>`; the
/// plaintext (none on an `UnpadError`) is named `aes128_cbc_decryption` of
/// key, IV and ciphertext. Key and IV must be 16 bytes (the constructor
/// panics otherwise).
#[verifier::external_body]
fn aes128_cbc_decrypt(key: &[u8], iv: &[u8], ct: &[u8]) -> (r: Option<Vec<u8>>)
    requires
        key.len() == 16,
        iv.len() == 16,
    ensures
        match r {
            Some(v) => aes128_cbc_decryption(key@, iv@, ct@) == Some(v@),
            None => aes128_cbc_decryption(key@, iv@, ct@) is None,
        },
{
    let mut buf = ct.to_vec();
    let dec = <cbc::Decryptor<aes::Aes128> as cipher::KeyIvInit>::new(
        cipher::generic_array::GenericArray::from_slice(key),
        cipher::generic_array::GenericArray::from_slice(iv),
    );
    match cipher::BlockDecryptMut::decrypt_padded_mut::<cipher::block_padding::Pkcs7>(dec, &mut buf) {
        Ok(p) => Some(p.to_vec()),
        Err(_) => None,
    }
}

/// The outcome of decrypting a transport secret: the base64 decoding of the
/// text, then AES-128-CBC with the transport key as key and IV, then the
/// plaintext read as UTF-8 (invalid sequences replaced).
pub open spec fn transport_secret(secret: Seq<char>) -> Result<Seq<char>, Seq<char>> {
    match base64_decoding(secret) {
        Err(m) => Err("invalid base64 credential: "@ + m),
        Ok(ct) => match aes128_cbc_decryption(TRANSPORT_AES_KEY@, TRANSPORT_AES_KEY@, ct) {
            None => Err("decrypt credential failed: Unpad Error"@),
            Some(p) => Ok(utf8_lossy_text(p)),
        },
    }
}

/// Decrypts a secret that a client sent encrypted (base64 of AES-128-CBC);
/// each failure is a validation error.
pub fn decrypt_transport_secret(secret: &str) -> (r: Result<String, AppError>)
    ensures
        match transport_secret(secret@) {
            Ok(t) => r matches Ok(s) && s@ == t,
            Err(m) => r matches Err(e) && is_validation(e, m),
        },
{
    let ct = match base64_decode(secret) {
        Ok(v) => v,
        Err(m) => {
            return Err(AppError::Validation(cat("invalid base64 credential: ", m.as_str())));
        },
    };
    let key = TRANSPORT_AES_KEY;
    match aes128_cbc_decrypt(&key, &key, ct.as_slice()) {
        Some(p) => Ok(utf8_lossy(p.as_slice())),
        None => Err(AppError::Validation(String::from_str("decrypt credential failed: Unpad Error"))),
    }
}

// ===================== channel secrets (AES-256-GCM) =====================

/// The key of channel secrets and signatures: the SHA-256 of the configured
/// raw key, none when it is unset or empty.
pub open spec fn channel_key_spec(raw: Option<Seq<char>>) -> Option<Seq<u8>> {
    match raw {
        Some(r) => if r.len() == 0 {
            None
        } else {
            Some(sha256(encode_utf8(r)))
        },
        None => None,
    }
}

/// Derives the channel key from the raw configured key.
pub fn channel_key(raw: Option<&str>) -> (r: Option<Vec<u8>>)
    ensures
        match channel_key_spec(
            match raw {
                Some(s) => Some(s@),
                None => None,
            },
        ) {
            Some(k) => r matches Some(v) && v@ == k && v.len() == 32,
            None => r is None,
        },
{
    match raw {
        Some(s) => if s.unicode_len() == 0 {
            None
        } else {
            Some(sha256_digest(s.as_bytes()))
        },
        None => None,
    }
}

/// The AES-256-GCM ciphertext (with its tag) of a plaintext, or none when the
/// plaintext is too long for the cipher.
pub uninterp spec fn aes256_gcm_sealing(key: Seq<u8>, nonce: Seq<u8>, pt: Seq<u8>) -> Option<Seq<u8>>;

/// The plaintext of AES-256-GCM ciphertext, or none when it does not
/// authenticate.
pub uninterp spec fn aes256_gcm_opening(key: Seq<u8>, nonce: Seq<u8>, ct: Seq<u8>) -> Option<Seq<u8>>;

/// Calls `aead::Aead::encrypt` of `aes_gcm::Aes256Gcm`; the outcome (none on
/// `aead::Error`) is named `aes256_gcm_sealing`, and is the plaintext's length
/// plus the 16-byte tag. It fails exactly when the plaintext is longer than
/// the crate's `P_MAX` (2^36 bytes). Key 32 bytes, nonce 12 (the slice
/// conversions panic otherwise).
#[verifier::external_body]
fn gcm_seal(key: &[u8], nonce: &[u8], pt: &[u8]) -> (r: Option<Vec<u8>>)
    requires
        key.len() == 32,
        nonce.len() == 12,
    ensures
        match r {
            Some(v) => aes256_gcm_sealing(key@, nonce@, pt@) == Some(v@),
            None => aes256_gcm_sealing(key@, nonce@, pt@) is None,
        },
        r matches Some(v) ==> v.len() == pt.len() + 16,
        r is Some <==> pt.len() <= 68719476736,
{
    let c = <aes_gcm::Aes256Gcm as aes_gcm::aead::KeyInit>::new(aes_gcm::Key::<aes_gcm::Aes256Gcm>::from_slice(key));
    aes_gcm::aead::Aead::encrypt(&c, aes_gcm::Nonce::from_slice(nonce), pt).ok()
}

/// Calls `aead::Aead::decrypt` of `aes_gcm::Aes256Gcm`; the outcome (none on
/// `aead::Error`) is named `aes256_gcm_opening`. Claimed besides: what
/// `encrypt` gave for a plaintext under the same key and nonce decrypts to
/// that plaintext. Key 32 bytes, nonce 12.
#[verifier::external_body]
fn gcm_open(key: &[u8], nonce: &[u8], ct: &[u8]) -> (r: Option<Vec<u8>>)
    requires
        key.len() == 32,
        nonce.len() == 12,
    ensures
        match r {
            Some(v) => aes256_gcm_opening(key@, nonce@, ct@) == Some(v@),
            None => aes256_gcm_opening(key@, nonce@, ct@) is None,
        },
        r is None ==> forall|pt: Seq<u8>| #[trigger] aes256_gcm_sealing(key@, nonce@, pt) != Some(ct@),
        r matches Some(v) ==> forall|pt: Seq<u8>|
            #[trigger] aes256_gcm_sealing(key@, nonce@, pt) == Some(ct@) ==> v@ == pt,
{
    let c = <aes_gcm::Aes256Gcm as aes_gcm::aead::KeyInit>::new(aes_gcm::Key::<aes_gcm::Aes256Gcm>::from_slice(key));
    aes_gcm::aead::Aead::decrypt(&c, aes_gcm::Nonce::from_slice(nonce), ct).ok()
}

/// Calls `aead::AeadCore::generate_nonce` of `Aes256Gcm` with `OsRng`: a
/// random nonce of 12 bytes (nothing is claimed of its value).
#[verifier::external_body]
fn gcm_nonce() -> (r: Vec<u8>)
    ensures
        r.len() == 12,
{
    <aes_gcm::Aes256Gcm as aes_gcm::aead::AeadCore>::generate_nonce(&mut aes_gcm::aead::OsRng).to_vec()
}

/// The prefix of an encrypted channel secret.
pub const ENCRYPTED_PREFIX: &'static str = "enc:";

/// What decrypting a stored channel secret gives: the text itself when it
/// lacks the `enc:` prefix; else the base64 after the prefix, whose first 12
/// bytes are the nonce and the rest the AES-256-GCM ciphertext, opened with
/// the key and read as UTF-8. Errors are internal, by context.
pub open spec fn channel_secret(stored: Seq<char>, key: Option<Seq<u8>>) -> Result<Seq<char>, Seq<char>> {
    if !has_prefix(stored, "enc:"@) {
        Ok(stored)
    } else if key is None {
        Err("GOWIND_CRYPTO_KEY not set but payload is encrypted"@)
    } else {
        match base64_decoding(stored.subrange(4, stored.len() as int)) {
            Err(_) => Err("decode channel secret failed"@),
            Ok(data) => if data.len() < 12 {
                Err("channel secret too short"@)
            } else {
                match aes256_gcm_opening(key.unwrap(), data.subrange(0, 12), data.subrange(12, data.len() as int)) {
                    None => Err("decrypt channel secret failed: aead::Error"@),
                    Some(p) => if valid_utf8(p) {
                        Ok(decode_utf8(p))
                    } else {
                        Err("channel secret not utf8"@)
                    },
                }
            },
        }
    }
}

pub open spec fn is_internal(e: AppError, m: Seq<char>) -> bool {
    e matches AppError::Internal { context } && context@ == m
}

proof fn lemma_sealed_parts(key: Seq<u8>, nonce: Seq<u8>, pt: Seq<char>, stored: Seq<char>)
    requires
        nonce.len() == 12,
        sealed_form(key, nonce, pt) == Some(stored),
    ensures
        has_prefix(stored, "enc:"@),
        ({
            let ct = aes256_gcm_sealing(key, nonce, encode_utf8(pt)).unwrap();
            &&& stored.subrange(4, stored.len() as int) == base64_encoding(nonce + ct)
            &&& (nonce + ct).len() >= 12
            &&& (nonce + ct).subrange(0, 12) == nonce
            &&& (nonce + ct).subrange(12, (nonce + ct).len() as int) == ct
        }),
{
    reveal_strlit("enc:");
    let ct = aes256_gcm_sealing(key, nonce, encode_utf8(pt)).unwrap();
    assert(stored == "enc:"@ + base64_encoding(nonce + ct));
    assert(stored.subrange(0, 4) =~= "enc:"@);
    assert(stored.subrange(4, stored.len() as int) =~= base64_encoding(nonce + ct));
    assert((nonce + ct).subrange(0, 12) =~= nonce);
    assert((nonce + ct).subrange(12, (nonce + ct).len() as int) =~= ct);
}

/// Decrypts a stored channel secret (see `channel_secret`); what
/// `encrypt_channel_secret` stored under the same key comes back.
pub fn decrypt_channel_secret(stored: &str, key: Option<&[u8]>) -> (r: Result<String, AppError>)
    requires
        key matches Some(k) ==> k.len() == 32,
    ensures
        match channel_secret(
            stored@,
            match key {
                Some(k) => Some(k@),
                None => None,
            },
        ) {
            Ok(t) => r matches Ok(s) && s@ == t,
            Err(m) => r matches Err(e) && is_internal(e, m),
        },
        forall|nonce: Seq<u8>, pt: Seq<char>|
            #![trigger sealed_form(key.unwrap()@, nonce, pt)]
            key is Some && nonce.len() == 12 && sealed_form(key.unwrap()@, nonce, pt) == Some(stored@)
                ==> (r matches Ok(s) && s@ == pt),
{
    proof {
        reveal_strlit("enc:");
        broadcast use encode_utf8_valid_utf8, encode_utf8_decode_utf8;
        assert forall|nonce: Seq<u8>, pt: Seq<char>|
            key is Some && nonce.len() == 12 && #[trigger] sealed_form(key.unwrap()@, nonce, pt) == Some(
                stored@,
            ) implies ({
            let ct = aes256_gcm_sealing(key.unwrap()@, nonce, encode_utf8(pt)).unwrap();
            &&& has_prefix(stored@, "enc:"@)
            &&& stored@.subrange(4, stored@.len() as int) == base64_encoding(nonce + ct)
            &&& (nonce + ct).len() >= 12
            &&& (nonce + ct).subrange(0, 12) == nonce
            &&& (nonce + ct).subrange(12, (nonce + ct).len() as int) == ct
            &&& aes256_gcm_sealing(key.unwrap()@, nonce, encode_utf8(pt)) == Some(ct)
        }) by {
            lemma_sealed_parts(key.unwrap()@, nonce, pt, stored@);
        }
    }
    let b64 = match strip_prefix(stored, ENCRYPTED_PREFIX) {
        Some(b) => b,
        None => {
            return Ok(String::from_str(stored));
        },
    };
    let k = match key {
        Some(k) => k,
        None => {
            return Err(
                AppError::Internal {
                    context: String::from_str("GOWIND_CRYPTO_KEY not set but payload is encrypted"),
                },
            );
        },
    };
    let data = match base64_decode(b64.as_str()) {
        Ok(d) => d,
        Err(_) => {
            return Err(AppError::Internal { context: String::from_str("decode channel secret failed") });
        },
    };
    if data.len() < 12 {
        return Err(AppError::Internal { context: String::from_str("channel secret too short") });
    }
    let nonce = slice_bytes(&data, 0, 12);
    let payload = slice_bytes(&data, 12, data.len());
    let plain = match gcm_open(k, nonce.as_slice(), payload.as_slice()) {
        Some(p) => p,
        None => {
            return Err(
                AppError::Internal {
                    context: String::from_str("decrypt channel secret failed: aead::Error"),
                },
            );
        },
    };
    match utf8_string(plain) {
        Some(s) => Ok(s),
        None => Err(AppError::Internal { context: String::from_str("channel secret not utf8") }),
    }
}

/// The bytes `from..to` of `v`.
pub fn slice_bytes(v: &Vec<u8>, from: usize, to: usize) -> (r: Vec<u8>)
    requires
        from <= to <= v.len(),
    ensures
        r@ == v@.subrange(from as int, to as int),
{
    let mut out: Vec<u8> = Vec::new();
    let mut i: usize = from;
    while i < to
        invariant
            from <= i <= to <= v.len(),
            out@ == v@.subrange(from as int, i as int),
        decreases to - i,
    {
        out.push(v[i]);
        i += 1;
        proof {
            assert(out@ =~= v@.subrange(from as int, i as int));
        }
    }
    out
}

/// The stored form of a channel secret sealed under `nonce`: `enc:` and the
/// base64 of the nonce followed by the ciphertext.
pub open spec fn sealed_form(key: Seq<u8>, nonce: Seq<u8>, pt: Seq<char>) -> Option<Seq<char>> {
    match aes256_gcm_sealing(key, nonce, encode_utf8(pt)) {
        Some(ct) => Some("enc:"@ + base64_encoding(nonce + ct)),
        None => None,
    }
}

/// Encrypts a channel secret for storage: empty stays empty; without a key
/// the text is stored as is; else it is sealed under a fresh random nonce,
/// which fails (with an internal error) only for a plaintext over 2^36 bytes.
pub fn encrypt_channel_secret(plaintext: &str, key: Option<&[u8]>) -> (r: Result<String, AppError>)
    requires
        key matches Some(k) ==> k.len() == 32,
        base64_fits(encode_utf8(plaintext@).len() + 28int),
    ensures
        plaintext@.len() == 0 ==> (r matches Ok(s) && s@.len() == 0),
        plaintext@.len() > 0 && key is None ==> (r matches Ok(s) && s@ == plaintext@),
        plaintext@.len() > 0 && key is Some ==> match r {
            Ok(s) => exists|nonce: Seq<u8>|
                nonce.len() == 12 && sealed_form(key.unwrap()@, nonce, plaintext@) == Some(s@),
            Err(e) => is_internal(e, "encrypt channel secret failed: aead::Error"@),
        },
        r is Err <==> (plaintext@.len() > 0 && key is Some && encode_utf8(plaintext@).len() > 68719476736),
{
    if plaintext.unicode_len() == 0 {
        return Ok(String::new());
    }
    let k = match key {
        Some(k) => k,
        None => {
            return Ok(String::from_str(plaintext));
        },
    };
    let nonce = gcm_nonce();
    let sealed = match gcm_seal(k, nonce.as_slice(), plaintext.as_bytes()) {
        Some(s) => s,
        None => {
            return Err(
                AppError::Internal {
                    context: String::from_str("encrypt channel secret failed: aead::Error"),
                },
            );
        },
    };
    let mut data = nonce.clone();
    let mut i: usize = 0;
    let ghost n0 = nonce@;
    while i < sealed.len()
        invariant
            i <= sealed.len(),
            data@ == n0 + sealed@.subrange(0, i as int),
        decreases sealed.len() - i,
    {
        data.push(sealed[i]);
        i += 1;
        proof {
            assert(data@ =~= n0 + sealed@.subrange(0, i as int));
        }
    }
    proof {
        assert(sealed@.subrange(0, sealed@.len() as int) =~= sealed@);
    }
    let r = cat(ENCRYPTED_PREFIX, base64_encode(data.as_slice()).as_str());
    proof {
        reveal_strlit("enc:");
        assert(sealed_form(k@, n0, plaintext@) == Some(r@));
    }
    Ok(r)
}

// ===================== media signatures (HMAC-SHA256) =====================

/// The HMAC-SHA256 tag of data under a key.
pub uninterp spec fn hmac_sha256(key: Seq<u8>, data: Seq<u8>) -> Seq<u8>;

/// Calls `hmac::Mac::new_from_slice`, `update` and `finalize` of
/// `Hmac<Sha256>`; the tag is named `hmac_sha256` of key and data and is 32
/// bytes. (`new_from_slice` accepts a key of any length: the crate's HMAC
/// never returns its `InvalidLength` error.)
#[verifier::external_body]
fn hmac_tag(key: &[u8], data: &[u8]) -> (r: Vec<u8>)
    ensures
        r@ == hmac_sha256(key@, data@),
        r@.len() == 32,
{
    let mut mac = <hmac::Hmac<sha2::Sha256> as hmac::Mac>::new_from_slice(key).unwrap();
    hmac::Mac::update(&mut mac, data);
    hmac::Mac::finalize(mac).into_bytes().to_vec()
}

/// The signature of `data`: lowercase hex of its HMAC-SHA256 under the key;
/// none without a key.
pub open spec fn signature_of(key: Option<Seq<u8>>, data: Seq<char>) -> Option<Seq<char>> {
    match key {
        Some(k) => Some(hex_lower(hmac_sha256(k, encode_utf8(data)))),
        None => None,
    }
}

pub open spec fn key_view(key: Option<&[u8]>) -> Option<Seq<u8>> {
    match key {
        Some(k) => Some(k@),
        None => None,
    }
}

/// Signs `data` (a media access URL's parameters).
pub fn sign_data(data: &str, key: Option<&[u8]>) -> (r: Option<String>)
    ensures
        match signature_of(key_view(key), data@) {
            Some(s) => r matches Some(x) && x@ == s,
            None => r is None,
        },
        r matches Some(x) ==> x@.len() == 64,
{
    match key {
        Some(k) => {
            let tag = hmac_tag(k, data.as_bytes());
            proof {
                lemma_hex_len(tag@);
            }
            Some(hex_encode(tag.as_slice()))
        },
        None => None,
    }
}

/// Whether `sig` is the signature of `data`: with a key, the trimmed `sig`
/// must be hex of exactly the expected tag.
pub open spec fn signature_accepted(key: Option<Seq<u8>>, data: Seq<char>, sig: Seq<char>) -> bool {
    match key {
        Some(k) => hex_decode(trim(sig)) == Some(hmac_sha256(k, encode_utf8(data))),
        None => false,
    }
}

/// Checks a signature in time that depends only on the lengths.
pub fn verify_signature(data: &str, signature: &str, key: Option<&[u8]>) -> (r: bool)
    ensures
        r == signature_accepted(key_view(key), data@, signature@),
{
    let expect = match sign_data(data, key) {
        Some(e) => e,
        None => {
            return false;
        },
    };
    let ghost tag = hmac_sha256(key.unwrap()@, encode_utf8(data@));
    proof {
        lemma_hex_roundtrip(tag);
        lemma_hex_len(tag);
    }
    let expect_bytes = match hex_decode_str(expect.as_str()) {
        Some(b) => b,
        None => Vec::new(),
    };
    let sig_bytes = match hex_decode_str(crate::text::trim_str(signature).as_str()) {
        Some(b) => b,
        None => Vec::new(),
    };
    constant_time_eq(expect_bytes.as_slice(), sig_bytes.as_slice())
}

proof fn lemma_hex_not_ws(b: Seq<u8>)
    ensures
        forall|i: int| 0 <= i < hex_lower(b).len() ==> !is_ws(#[trigger] hex_lower(b)[i]),
    decreases b.len(),
{
    if b.len() > 0 {
        lemma_hex_not_ws(b.drop_last());
        let p = hex_lower(b.drop_last());
        let x = b.last();
        assert forall|i: int| 0 <= i < hex_lower(b).len() implies !is_ws(#[trigger] hex_lower(b)[i]) by {
            if i < p.len() {
                assert(hex_lower(b)[i] == p[i]);
            }
        }
    }
}

/// What `sign_data` gives for some data, `verify_signature` accepts for that
/// data.
pub proof fn lemma_signature_verifies(key: Option<Seq<u8>>, data: Seq<char>)
    requires
        key is Some,
    ensures
        signature_of(key, data) matches Some(s) && signature_accepted(key, data, s),
{
    let tag = hmac_sha256(key.unwrap(), encode_utf8(data));
    let s = hex_lower(tag);
    lemma_hex_roundtrip(tag);
    lemma_hex_not_ws(tag);
    assert(trim(s) == s) by {
        if s.len() > 0 {
            assert(!is_ws(s[0]));
            assert(crate::text::ltrim_by(s, crate::text::ws_pred()) == s);
            assert(!is_ws(s.last()));
        }
    }
}


// ===================== password hashes (bcrypt) =====================

/// Whether a password matches a bcrypt hash (false also for a malformed
/// hash).
pub uninterp spec fn bcrypt_matches(password: Seq<char>, hash: Seq<char>) -> bool;

/// Calls `bcrypt::verify`, an error read as no match; the outcome is named
/// `bcrypt_matches` of password and hash.
#[verifier::external_body]
fn bcrypt_verify(password: &str, hash: &str) -> (r: bool)
    ensures
        r == bcrypt_matches(password@, hash@),
{
    bcrypt::verify(password, hash).unwrap_or(false)
}

/// Calls `bcrypt::hash` with `DEFAULT_COST` (a random salt, so nothing is
/// claimed of the text itself); none on a `BcryptError`. Claimed besides, as
/// the crate documents: the hash matches the password it was made from.
#[verifier::external_body]
fn bcrypt_hash(password: &str) -> (r: Option<String>)
    ensures
        r matches Some(h) ==> bcrypt_matches(password@, h@),
{
    bcrypt::hash(password, bcrypt::DEFAULT_COST).ok()
}

/// Hashes a password for storage; the error is internal.
pub fn hash_password(plain: &str) -> (r: Result<String, AppError>)
    ensures
        r matches Ok(h) ==> bcrypt_matches(plain@, h@),
        r matches Err(e) ==> is_internal(e, "hash password failed"@),
{
    match bcrypt_hash(plain) {
        Some(h) => Ok(h),
        None => Err(AppError::Internal { context: String::from_str("hash password failed") }),
    }
}

/// Whether a plaintext password is the stored credential: a bcrypt match for
/// a `PASSWORD_HASH` credential, else equality.
pub open spec fn password_accepted(credential_type: Seq<char>, credential: Seq<char>, plain: Seq<char>) -> bool {
    if credential_type == "PASSWORD_HASH"@ {
        bcrypt_matches(plain, credential)
    } else {
        plain == credential
    }
}

pub fn check_password(credential_type: &str, credential: &str, plain: &str) -> (r: bool)
    ensures
        r == password_accepted(credential_type@, credential@, plain@),
{
    if crate::text::str_eq(credential_type, "PASSWORD_HASH") {
        bcrypt_verify(plain, credential)
    } else {
        crate::text::str_eq(plain, credential)
    }
}

/// A password that was stored hashed is accepted afterwards.
pub proof fn lemma_stored_password_accepted(plain: Seq<char>, hash: Seq<char>)
    requires
        bcrypt_matches(plain, hash),
    ensures
        password_accepted("PASSWORD_HASH"@, hash, plain),
{
}


/// Decrypts a password that a client sent encrypted and hashes it for
/// storage: a failed decryption is a validation error, a failed hash an
/// internal one; the hash matches the decrypted password.
pub fn transport_password_hash(secret: &str) -> (r: Result<String, AppError>)
    ensures
        match transport_secret(secret@) {
            Err(m) => r matches Err(e) && is_validation(e, m),
            Ok(t) => match r {
                Ok(h) => bcrypt_matches(t, h@),
                Err(e) => is_internal(e, "hash password failed"@),
            },
        },
{
    let plain = decrypt_transport_secret(secret)?;
    hash_password(plain.as_str())
}

} // verus!

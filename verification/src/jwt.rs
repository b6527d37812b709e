//! HS256 JSON Web Tokens as the service issues them: the fixed header
//! `{"typ":"JWT","alg":"HS256"}`, the claims JSON, both in unpadded URL-safe
//! base64, and the HS256 signature of `header.claims` under the service
//! secret. Checking a token gives back its claims JSON only when the header is
//! the service's own and the signature matches; whether the claims are still
//! live is `claims_live`.

use vstd::prelude::*;
use vstd::string::*;
use vstd::utf8::*;
use crate::auth::TOKEN_LEEWAY;
use crate::crypto::{base64_fits, constant_time_eq, hmac_sha256, utf8_string};
use crate::text::{cat3, join, split_char, split_char_str, str_eq, lemma_split_join, lemma_split_after, lemma_split_none, views};

verus! {

/// The header of every token the service signs.
pub const JWT_HEADER: &'static str = "{\"typ\":\"JWT\",\"alg\":\"HS256\"}";

/// The unpadded URL-safe base64 text of bytes.
pub uninterp spec fn base64url_encoding(b: Seq<u8>) -> Seq<char>;

/// The bytes of unpadded URL-safe base64 text, or none when it is not such
/// text.
pub uninterp spec fn base64url_decoding(s: Seq<char>) -> Option<Seq<u8>>;

/// A character of the URL-safe base64 alphabet.
pub open spec fn url_safe_char(c: char) -> bool {
    ('A' <= c && c <= 'Z') || ('a' <= c && c <= 'z') || ('0' <= c && c <= '9') || c == '-' || c == '_'
}

/// Text in the URL-safe base64 alphabet (so without `.`).
pub open spec fn url_safe(s: Seq<char>) -> bool {
    forall|i: int| 0 <= i < s.len() ==> url_safe_char(#[trigger] s[i])
}

/// The HS256 signature of a message under a key: its HMAC-SHA256 tag in
/// unpadded URL-safe base64.
pub open spec fn hs256_signature(key: Seq<u8>, message: Seq<u8>) -> Seq<char> {
    base64url_encoding(hmac_sha256(key, message))
}

/// Calls `base64::Engine::encode` on the `URL_SAFE_NO_PAD` engine (the one
/// `jsonwebtoken` encodes token parts with); the text is named
/// `base64url_encoding` of the bytes. The length bound is the one under which
/// the engine's output length does not overflow (it panics otherwise).
/// Claimed besides: the text uses only the URL-safe alphabet, and the same
/// engine decodes it back to the bytes.
#[verifier::external_body]
fn base64url_encode(b: &[u8]) -> (r: String)
    requires
        base64_fits(b.len() as int),
    ensures
        r@ == base64url_encoding(b@),
        url_safe(r@),
        base64url_decoding(r@) == Some(b@),
{
    base64::Engine::encode(&base64::engine::general_purpose::URL_SAFE_NO_PAD, b)
}

/// Calls `base64::Engine::decode` on the `URL_SAFE_NO_PAD` engine; the bytes,
/// or none on a `DecodeError`, are named `base64url_decoding` of the text.
/// Claimed besides: the engine decodes only canonical text (no padding, no
/// trailing bits), so decoded bytes encode back to the text, and text that
/// the engine encoded from some bytes decodes.
#[verifier::external_body]
fn base64url_decode(s: &str) -> (r: Option<Vec<u8>>)
    ensures
        match r {
            Some(v) => base64url_decoding(s@) == Some(v@),
            None => base64url_decoding(s@) is None,
        },
        r matches Some(v) ==> base64url_encoding(v@) == s@,
        r is None ==> forall|b: Seq<u8>| #[trigger] base64url_encoding(b) != s@,
{
    base64::Engine::decode(&base64::engine::general_purpose::URL_SAFE_NO_PAD, s).ok()
}

/// Calls `jsonwebtoken::crypto::sign` with `Algorithm::HS256` and an
/// `EncodingKey::from_secret` of the key: the HMAC-SHA256 tag of the
/// message (`ring::hmac` with `HMAC_SHA256`, the same function as
/// `hmac_sha256`) in unpadded URL-safe base64 (`URL_SAFE_NO_PAD`, whose text
/// uses only the URL-safe alphabet). For HS256 the crate's `sign` always
/// returns `Ok`.
#[verifier::external_body]
fn hs256_sign(key: &[u8], message: &[u8]) -> (r: String)
    ensures
        r@ == hs256_signature(key@, message@),
        url_safe(r@),
{
    jsonwebtoken::crypto::sign(
        message,
        &jsonwebtoken::EncodingKey::from_secret(key),
        jsonwebtoken::Algorithm::HS256,
    ).unwrap_or_default()
}

/// The header part of every token.
pub open spec fn header_part() -> Seq<char> {
    base64url_encoding(encode_utf8(JWT_HEADER@))
}

/// `header.claims` of a token with these claims.
pub open spec fn signing_input(claims_json: Seq<char>) -> Seq<char> {
    header_part() + "."@ + base64url_encoding(encode_utf8(claims_json))
}

/// The token of claims signed under a secret.
pub open spec fn jwt_text(secret: Seq<char>, claims_json: Seq<char>) -> Seq<char> {
    let m = signing_input(claims_json);
    m + "."@ + hs256_signature(encode_utf8(secret), encode_utf8(m))
}

/// The claims JSON of a token checked under a secret: the token has three
/// `.`-separated parts, the first is the service's header, the third is the
/// signature of the first two, and the second decodes to UTF-8 text.
pub open spec fn checked_claims(secret: Seq<char>, token: Seq<char>) -> Option<Seq<char>> {
    let p = split_char(token, '.');
    if p.len() == 3 && p[0] == header_part() && p[2] == hs256_signature(
        encode_utf8(secret),
        encode_utf8(p[0] + "."@ + p[1]),
    ) {
        match base64url_decoding(p[1]) {
            Some(b) => if valid_utf8(b) {
                Some(decode_utf8(b))
            } else {
                None
            },
            None => None,
        }
    } else {
        None
    }
}

fn header_text() -> (r: String)
    ensures
        r@ == header_part(),
        url_safe(r@),
{
    proof {
        reveal_strlit("{\"typ\":\"JWT\",\"alg\":\"HS256\"}");
        broadcast use vstd::string::is_ascii_spec_bytes;
        assert(is_ascii(JWT_HEADER));
        assert(JWT_HEADER.spec_bytes().len() == 27);
    }
    base64url_encode(JWT_HEADER.as_bytes())
}

/// The three parts of `a.b.c` when none holds a `.`.
proof fn lemma_three_parts(a: Seq<char>, b: Seq<char>, c: Seq<char>)
    requires
        url_safe(a),
        url_safe(b),
        url_safe(c),
    ensures
        split_char(a + "."@ + b + "."@ + c, '.') == seq![a, b, c],
{
    reveal_strlit(".");
    assert("."@ =~= seq!['.']);
    assert forall|i: int| 0 <= i < a.len() implies a[i] != '.' by {
        assert(url_safe_char(a[i]));
    }
    assert forall|i: int| 0 <= i < b.len() implies b[i] != '.' by {
        assert(url_safe_char(b[i]));
    }
    assert forall|i: int| 0 <= i < c.len() implies c[i] != '.' by {
        assert(url_safe_char(c[i]));
    }
    lemma_split_none(a, '.');
    lemma_split_after(a, '.', b);
    lemma_split_after(a + seq!['.'] + b, '.', c);
    assert(seq![a].push(b) =~= seq![a, b]);
    assert(seq![a, b].push(c) =~= seq![a, b, c]);
}

/// Signs claims (their JSON text) under the secret. The token checks out
/// under the same secret and gives back exactly these claims.
pub fn sign_token(secret: &str, claims_json: &str) -> (r: String)
    requires
        base64_fits(encode_utf8(claims_json@).len() as int),
    ensures
        r@ == jwt_text(secret@, claims_json@),
        checked_claims(secret@, r@) == Some(claims_json@),
{
    let h = header_text();
    let c = base64url_encode(claims_json.as_bytes());
    let m = cat3(h.as_str(), ".", c.as_str());
    let sig = hs256_sign(secret.as_bytes(), m.as_str().as_bytes());
    proof {
        reveal_strlit(".");
        lemma_three_parts(h@, c@, sig@);
        encode_utf8_valid_utf8(claims_json@);
        encode_utf8_decode_utf8(claims_json@);
    }
    cat3(m.as_str(), ".", sig.as_str())
}

/// The claims JSON of a token that checks out under the secret (see
/// `checked_claims`); none otherwise. A token it accepts is exactly the
/// token that `sign_token` gives for those claims under that secret.
pub fn verify_token(secret: &str, token: &str) -> (r: Option<String>)
    ensures
        match r {
            Some(j) => checked_claims(secret@, token@) == Some(j@),
            None => checked_claims(secret@, token@) is None,
        },
        r matches Some(j) ==> token@ == jwt_text(secret@, j@),
{
    proof {
        reveal_strlit(".");
    }
    let parts = split_char_str(token, '.');
    let ghost p = split_char(token@, '.');
    if parts.len() != 3 {
        return None;
    }
    assert(views(parts@) == p);
    assert(p[0] == parts@[0]@ && p[1] == parts@[1]@ && p[2] == parts@[2]@);
    let h = header_text();
    if !str_eq(parts[0].as_str(), h.as_str()) {
        return None;
    }
    let m = cat3(parts[0].as_str(), ".", parts[1].as_str());
    let sig = hs256_sign(secret.as_bytes(), m.as_str().as_bytes());
    if !constant_time_eq(sig.as_str().as_bytes(), parts[2].as_str().as_bytes()) {
        proof {
            encode_utf8_decode_utf8(sig@);
            encode_utf8_decode_utf8(parts@[2]@);
        }
        return None;
    }
    proof {
        encode_utf8_decode_utf8(sig@);
        encode_utf8_decode_utf8(parts@[2]@);
        assert(sig@ == p[2]);
    }
    let bytes = match base64url_decode(parts[1].as_str()) {
        Some(b) => b,
        None => {
            return None;
        },
    };
    let ghost b = bytes@;
    let text = utf8_string(bytes);
    match text {
        Some(j) => {
            proof {
                decode_utf8_encode_utf8(b);
                lemma_split_join(token@, '.');
                let q = p.drop_last();
                assert(q.drop_last() =~= seq![p[0]]);
                assert(q.last() == p[1]);
                assert(join(q.drop_last(), seq!['.']) == p[0]);
                assert(join(q, seq!['.']) == p[0] + seq!['.'] + p[1]);
                assert(join(p, seq!['.']) == p[0] + seq!['.'] + p[1] + seq!['.'] + p[2]);
                assert("."@ =~= seq!['.']);
                assert(encode_utf8(j@) == b);
            }
            Some(j)
        },
        None => None,
    }
}

/// Whether claims that expire at `exp` are still accepted at `now`: the
/// expiry may have passed by at most the leeway.
pub fn claims_live(exp: i64, now: i64) -> (r: bool)
    ensures
        r == (now - TOKEN_LEEWAY <= exp),
{
    if now < i64::MIN + 60 {
        true
    } else {
        now - 60 <= exp
    }
}

} // verus!

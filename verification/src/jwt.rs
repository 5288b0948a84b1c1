//! RS256 access tokens: issuing them for a user, publishing the signing key
//! as a JWKS document, and checking a presented token against a JWKS
//! document.
//!
//! Keys are held as PEM text: the signer keeps its key as PKCS#1 PEM, and the
//! key taken from a JWK for checking a token is kept as SubjectPublicKeyInfo
//! PEM. The JWT work itself is done by the `jsonwebtoken` crate behind the
//! trusted items below; the key material by the items of `keys`.

use vstd::prelude::*;
use crate::ids::{uuid_text, uuid_to_text};
use crate::keys::{
    b64url, b64url_decode, b64url_decoded, b64url_encode, lemma_b64url_decodes,
    pkcs1_private_reencoding,
    pkcs1_public_key_parts, pkcs1_public_parts, pkcs1_reencode, pkcs8_private_reencoding,
    pkcs8_public_key_parts, pkcs8_public_parts, pkcs8_reencode, rsa_public_key_check,
    rsa_public_key_pem, rsa_public_ok, spki_public_pem,
};
use crate::json::{
    json_escaped, json_string, lemma_escaped_keeps_open, lemma_str_run_concat,
    lemma_string_close_unique, push_json_string, str_run, string_close, string_close_at, StrScan,
};
use crate::text::{
    all_digits, copy_str, decimal_text, digits_value, is_digit, lemma_decimal_text_digits,
    parse_unsigned, push_signed_decimal, push_str, signed_decimal_text, str_equal,
    string_from_chars, chars_of,
};

verus! {

broadcast use vstd::string::group_string_axioms;

/// The error type of the `jsonwebtoken` crate (opaque here).
#[verifier::external_type_specification]
#[verifier::external_body]
pub struct ExJwtLibError(jsonwebtoken::errors::Error);

#[derive(Debug)]
pub enum JwtError {
    /// invalid PEM
    Pem(String),
    /// token error
    Token(jsonwebtoken::errors::Error),
    /// RSA key rejected
    Rsa(rsa::Error),
    /// invalid JWK
    InvalidJwk,
    /// kid not found
    KidNotFound(String),
}

/// The key id under which the signing key is published.
pub open spec fn key_id() -> Seq<char> {
    "f69-key-1"@
}

fn new_key_id() -> (r: String)
    ensures
        r@ == key_id(),
{
    copy_str("f69-key-1")
}

// ----------------------------------------------------------------------------
// Claims and their JSON text
// ----------------------------------------------------------------------------

/// The claims of an access token.
#[derive(Debug)]
pub struct AccessClaims {
    pub sub: String,
    pub exp: i64,
    pub iat: i64,
    pub iss: String,
    pub aud: String,
}

/// The compact JSON object of access claims, fields in declaration order.
pub open spec fn access_claims_json(
    sub: Seq<char>,
    exp: int,
    iat: int,
    iss: Seq<char>,
    aud: Seq<char>,
) -> Seq<char> {
    "{\"sub\":"@ + json_string(sub) + ",\"exp\":"@ + signed_decimal_text(exp) + ",\"iat\":"@
        + signed_decimal_text(iat) + ",\"iss\":"@ + json_string(iss) + ",\"aud\":"@
        + json_string(aud) + "}"@
}

/// Claims JSON starts with `{` and ends with `}`.
proof fn lemma_claims_json_no_outer_ws(
    sub: Seq<char>,
    exp: int,
    iat: int,
    iss: Seq<char>,
    aud: Seq<char>,
)
    ensures
        no_outer_json_ws(access_claims_json(sub, exp, iat, iss, aud)),
{
    reveal_strlit("{\"sub\":");
    reveal_strlit("}");
    let j = access_claims_json(sub, exp, iat, iss, aud);
    let head = "{\"sub\":"@;
    let tail = "}"@;
    let middle = json_string(sub) + ",\"exp\":"@ + signed_decimal_text(exp) + ",\"iat\":"@
        + signed_decimal_text(iat) + ",\"iss\":"@ + json_string(iss) + ",\"aud\":"@
        + json_string(aud);
    assert(j == head + middle + tail);
    assert((head + middle + tail)[0] == head[0]);
    assert((head + middle + tail).last() == tail[0]);
}

impl AccessClaims {
    /// The JSON text of these claims, as `serde_json` writes the struct.
    pub fn to_json(&self) -> (r: String)
        ensures
            r@ == access_claims_json(
                self.sub@,
                self.exp as int,
                self.iat as int,
                self.iss@,
                self.aud@,
            ),
    {
        let mut r = String::new();
        push_str(&mut r, "{\"sub\":");
        push_json_string(&mut r, self.sub.as_str());
        push_str(&mut r, ",\"exp\":");
        push_signed_decimal(&mut r, self.exp);
        push_str(&mut r, ",\"iat\":");
        push_signed_decimal(&mut r, self.iat);
        push_str(&mut r, ",\"iss\":");
        push_json_string(&mut r, self.iss.as_str());
        push_str(&mut r, ",\"aud\":");
        push_json_string(&mut r, self.aud.as_str());
        push_str(&mut r, "}");
        r
    }
}

/// `d` starts with `k` (one or more) decimal digits, followed by `,` or `}`.
pub open spec fn digits_end(d: Seq<char>, k: int) -> bool {
    &&& 0 < k < d.len()
    &&& all_digits(d.take(k))
    &&& (d[k] == ',' || d[k] == '}')
}

/// The `exp` claim of a claims payload laid out as access claims are: the
/// object opens with the `sub` member (a JSON string), followed by the `exp`
/// member written as the decimal digits of a `u64`, ended by `,` or `}`.
/// `None` for a payload laid out otherwise.
pub open spec fn leading_exp(p: Seq<char>) -> Option<u64> {
    if p.len() >= 8 && p.take(8) == "{\"sub\":\""@ && exists|j: int| string_close_at(p, 8, j) {
        let j = choose|j: int| string_close_at(p, 8, j);
        let rest = p.skip(j + 1);
        if rest.len() >= 7 && rest.take(7) == ",\"exp\":"@ && exists|k: int|
            digits_end(rest.skip(7), k) {
            let d = rest.skip(7);
            let k = choose|k: int| digits_end(d, k);
            if digits_value(d.take(k)) <= u64::MAX {
                Some(digits_value(d.take(k)) as u64)
            } else {
                None
            }
        } else {
            None
        }
    } else {
        None
    }
}

proof fn lemma_digits_end_unique(d: Seq<char>, k: int, m: int)
    requires
        digits_end(d, k),
        digits_end(d, m),
    ensures
        k == m,
{
    if k < m {
        assert(is_digit(d.take(m)[k]));
    } else if m < k {
        assert(is_digit(d.take(k)[m]));
    }
}

/// The `exp` claim of a payload laid out as access claims are (see
/// `leading_exp`).
pub fn claims_exp(payload: &str) -> (r: Option<u64>)
    ensures
        r == leading_exp(payload@),
{
    let v = chars_of(payload);
    let ghost p = payload@;
    if v.len() < 8 {
        return None;
    }
    let head = string_from_chars(&v, 0, 8);
    if !str_equal(head.as_str(), "{\"sub\":\"") {
        assert(p.take(8) == head@);
        return None;
    }
    assert(p.take(8) == head@);
    let j = match string_close(&v, 8) {
        Some(j) => j,
        None => return None,
    };
    proof {
        assert forall|k: int| string_close_at(p, 8, k) implies k == j by {
            lemma_string_close_unique(p, 8, j as int, k);
        }
    }
    let ghost rest = p.skip(j + 1);
    if v.len() - (j + 1) < 7 {
        return None;
    }
    let key = string_from_chars(&v, j + 1, j + 8);
    assert(rest.take(7) =~= key@);
    if !str_equal(key.as_str(), ",\"exp\":") {
        return None;
    }
    let ghost d = rest.skip(7);
    let start = j + 8;
    assert(d =~= p.subrange(start as int, p.len() as int));
    let mut k: usize = start;
    while k < v.len() && (v[k] as u32) >= 48 && (v[k] as u32) <= 57
        invariant
            start <= k <= v@.len(),
            v@ == p,
            d =~= p.subrange(start as int, p.len() as int),
            all_digits(d.take(k - start)),
        decreases v@.len() - k,
    {
        assert(d.take(k + 1 - start) =~= d.take(k - start).push(v@[k as int]));
        k = k + 1;
    }
    let ghost n = k - start;
    if k == start || k == v.len() || !(v[k] == ',' || v[k] == '}') {
        proof {
            assert forall|m: int| !digits_end(d, m) by {
                if digits_end(d, m) {
                    if m < n {
                        assert(d[m] == d.take(n)[m]);
                    } else if m > n {
                        assert(is_digit(d.take(m)[n]));
                        assert(d[n] == v@[k as int]);
                    }
                }
            }
        }
        return None;
    }
    assert(digits_end(d, n));
    proof {
        assert forall|m: int| digits_end(d, m) implies m == n by {
            lemma_digits_end_unique(d, n, m);
        }
    }
    let digits = string_from_chars(&v, start, k);
    assert(digits@ =~= d.take(n));
    assert(digits@.len() > 0 && digits@[0] != '+') by {
        assert(is_digit(d.take(n)[0]));
    }
    parse_unsigned(digits.as_str(), u64::MAX)
}

/// Access claims with an `exp` that is not negative are read back with that
/// `exp` by `claims_exp`.
pub proof fn lemma_access_claims_exp(
    sub: Seq<char>,
    exp: int,
    iat: int,
    iss: Seq<char>,
    aud: Seq<char>,
)
    requires
        0 <= exp <= i64::MAX,
    ensures
        leading_exp(access_claims_json(sub, exp, iat, iss, aud)) == Some(exp as u64),
{
    reveal_strlit("{\"sub\":");
    reveal_strlit(",\"exp\":");
    reveal_strlit(",\"iat\":");
    reveal_strlit("{\"sub\":\"");
    let p = access_claims_json(sub, exp, iat, iss, aud);
    let e = json_escaped(sub);
    let dt = decimal_text(exp as nat);
    let tail = ",\"iat\":"@ + signed_decimal_text(iat) + ",\"iss\":"@ + json_string(iss)
        + ",\"aud\":"@ + json_string(aud) + "}"@;
    assert(signed_decimal_text(exp) == dt);
    assert(p =~= "{\"sub\":\""@ + e + seq!['"'] + ",\"exp\":"@ + dt + tail);
    assert(p.take(8) =~= "{\"sub\":\""@);
    let j: int = 8 + e.len() as int;
    assert(p.subrange(8, j) =~= e);
    assert(p.subrange(8, j + 1) =~= e + seq!['"']);
    lemma_escaped_keeps_open(sub);
    lemma_str_run_concat(StrScan::Open, e, seq!['"']);
    reveal_with_fuel(str_run, 2);
    assert(str_run(StrScan::Open, seq!['"']) == StrScan::Closed) by {
        assert(seq!['"'].drop_last() =~= Seq::<char>::empty());
    }
    assert(string_close_at(p, 8, j));
    assert forall|k: int| string_close_at(p, 8, k) implies k == j by {
        lemma_string_close_unique(p, 8, j, k);
    }
    let rest = p.skip(j + 1);
    assert(rest =~= ",\"exp\":"@ + dt + tail);
    assert(rest.take(7) =~= ",\"exp\":"@);
    let d = rest.skip(7);
    assert(d =~= dt + tail);
    lemma_decimal_text_digits(exp as nat);
    let n = dt.len() as int;
    assert(d.take(n) =~= dt);
    assert(tail[0] == ',');
    assert(d[n] == tail[0]);
    assert(digits_end(d, n));
    assert forall|m: int| digits_end(d, m) implies m == n by {
        lemma_digits_end_unique(d, n, m);
    }
}

// ----------------------------------------------------------------------------
// JWK documents
// ----------------------------------------------------------------------------

/// One JSON Web Key.
#[derive(Debug)]
pub struct Jwk {
    pub kty: String,
    pub kid: String,
    pub n: String,
    pub e: String,
    pub alg: String,
    /// The `use` member.
    pub use_: String,
}

/// A JWKS document: a list of keys.
#[derive(Debug)]
pub struct JwksDoc {
    pub keys: Vec<Jwk>,
}

/// The compact JSON object of one JWK, members in declaration order.
pub open spec fn jwk_json(
    kty: Seq<char>,
    kid: Seq<char>,
    n: Seq<char>,
    e: Seq<char>,
    alg: Seq<char>,
    use_: Seq<char>,
) -> Seq<char> {
    "{\"kty\":"@ + json_string(kty) + ",\"kid\":"@ + json_string(kid) + ",\"n\":"@ + json_string(
        n,
    ) + ",\"e\":"@ + json_string(e) + ",\"alg\":"@ + json_string(alg) + ",\"use\":"@
        + json_string(use_) + "}"@
}

/// The JWKS document that publishes the RSA public key with modulus `n` and
/// exponent `e` (big-endian bytes) under key id `kid`.
pub open spec fn signer_jwks_json(kid: Seq<char>, n: Seq<u8>, e: Seq<u8>) -> Seq<char> {
    "{\"keys\":["@ + jwk_json("RSA"@, kid, b64url(n), b64url(e), "RS256"@, "sig"@) + "]}"@
}

/// The JSON text of an RSA signature key for RS256 with id `kid` and the
/// base64 members `n` and `e`.
fn rsa_jwk_json(kid: &str, n: &str, e: &str) -> (r: String)
    ensures
        r@ == jwk_json("RSA"@, kid@, n@, e@, "RS256"@, "sig"@),
{
    let mut r = String::new();
    push_str(&mut r, "{\"kty\":");
    push_json_string(&mut r, "RSA");
    push_str(&mut r, ",\"kid\":");
    push_json_string(&mut r, kid);
    push_str(&mut r, ",\"n\":");
    push_json_string(&mut r, n);
    push_str(&mut r, ",\"e\":");
    push_json_string(&mut r, e);
    push_str(&mut r, ",\"alg\":");
    push_json_string(&mut r, "RS256");
    push_str(&mut r, ",\"use\":");
    push_json_string(&mut r, "sig");
    push_str(&mut r, "}");
    r
}

/// The first position in `keys` of a key with id `kid`.
pub open spec fn first_kid_match(keys: Seq<Jwk>, kid: Seq<char>, i: int) -> bool {
    &&& 0 <= i < keys.len()
    &&& keys[i].kid@ == kid
    &&& forall|j: int| 0 <= j < i ==> #[trigger] keys[j].kid@ != kid
}

pub open spec fn first_kid_index(keys: Seq<Jwk>, kid: Seq<char>) -> Option<int> {
    if exists|i: int| first_kid_match(keys, kid, i) {
        Some(choose|i: int| first_kid_match(keys, kid, i))
    } else {
        None
    }
}

/// Position of the first key with id `kid`, if any.
pub fn find_jwk(keys: &Vec<Jwk>, kid: &str) -> (r: Option<usize>)
    ensures
        match first_kid_index(keys@, kid@) {
            Some(i) => r == Some(i as usize),
            None => r is None,
        },
{
    let mut i: usize = 0;
    while i < keys.len()
        invariant
            i <= keys@.len(),
            forall|j: int| 0 <= j < i ==> #[trigger] keys@[j].kid@ != kid@,
        decreases keys@.len() - i,
    {
        if str_equal(keys[i].kid.as_str(), kid) {
            assert(first_kid_match(keys@, kid@, i as int));
            assert forall|j: int| first_kid_match(keys@, kid@, j) implies j == i by {
                if j < i {
                    assert(keys@[j].kid@ != kid@);
                } else if j > i {
                    assert(keys@[i as int].kid@ != kid@);
                }
            }
            return Some(i);
        }
        i = i + 1;
    }
    assert forall|j: int| !first_kid_match(keys@, kid@, j) by {
        if 0 <= j < keys@.len() {
            assert(keys@[j].kid@ != kid@);
        }
    }
    None
}

// ----------------------------------------------------------------------------
// JWT encoding and decoding (the `jsonwebtoken` crate)
// ----------------------------------------------------------------------------

/// `EncodingKey::from_rsa_pem` on PEM text: `None` when it accepts the key,
/// else the message of its error.
pub uninterp spec fn jwt_rsa_key_error(pem: Seq<char>) -> Option<Seq<char>>;

/// The RS256 token that `jsonwebtoken::encode` makes from the header
/// `{alg: RS256, typ: JWT, kid}`, the claims JSON text and the RSA key given
/// as PEM, or `None` when encoding fails.
pub uninterp spec fn jwt_rs256_token(key_pem: Seq<char>, kid: Seq<char>, claims: Seq<char>) -> Option<
    Seq<char>,
>;

/// What `jsonwebtoken::decode_header` gives for a token: `None` when the
/// header does not decode, else its `kid`.
pub uninterp spec fn jwt_header_kid(token: Seq<char>) -> Option<Option<Seq<char>>>;

/// The JSON text of a token's payload: the second of its three dot-separated
/// parts, base64-decoded, without surrounding white space.
pub uninterp spec fn jwt_payload_json(token: Seq<char>) -> Option<Seq<char>>;

/// Whether `token` passes every check of `jsonwebtoken::decode` that does not
/// depend on the clock, with the RSA key given as SubjectPublicKeyInfo PEM
/// (which must load) and `Validation::new(RS256)` restricted to `issuer` and
/// `audience`: three parts, an RS256 header, a signature that verifies under
/// the key, claims that are JSON with an `exp`, the issuer and the audience.
pub uninterp spec fn jwt_rs256_accepts(
    token: Seq<char>,
    key_pem: Seq<char>,
    issuer: Seq<char>,
    audience: Seq<char>,
) -> bool;

/// Calls `EncodingKey::from_rsa_pem`; its outcome is named `jwt_rsa_key_error`.
#[verifier::external_body]
fn jwt_encoding_key_check(pem: &str) -> (r: Option<String>)
    ensures
        match r {
            None => jwt_rsa_key_error(pem@) is None,
            Some(m) => jwt_rsa_key_error(pem@) == Some(m@),
        },
{
    match jsonwebtoken::EncodingKey::from_rsa_pem(pem.as_bytes()) {
        Ok(_) => None,
        Err(e) => Some(e.to_string()),
    }
}

/// JSON white space (space, tab, line feed, carriage return).
pub open spec fn is_json_ws(c: char) -> bool {
    c == ' ' || c == '\t' || c == '\n' || c == '\r'
}

/// Text that neither starts nor ends with JSON white space.
pub open spec fn no_outer_json_ws(s: Seq<char>) -> bool {
    s.len() > 0 && !is_json_ws(s[0]) && !is_json_ws(s.last())
}

/// Whether `token` passes, under the public half of the PKCS#1 PEM private
/// key `key_pem`, every check of `jsonwebtoken::decode` with RS256, issuer
/// `iss` and audience `aud` that does not depend on the clock; that public
/// half being an acceptable RSA public key whose SubjectPublicKeyInfo PEM can
/// be written. Nothing is said of a PEM whose public half is not read.
pub open spec fn verifies_under_public_half(
    key_pem: Seq<char>,
    token: Seq<char>,
    iss: Seq<char>,
    aud: Seq<char>,
) -> bool {
    match pkcs1_public_parts(key_pem) {
        Some((n, e)) => {
            &&& rsa_public_ok(n, e)
            &&& spki_public_pem(n, e) is Ok
            &&& jwt_rs256_accepts(token, spki_public_pem(n, e)->Ok_0, iss, aud)
        },
        None => true,
    }
}

/// Calls `jsonwebtoken::encode` with `Header::new(RS256)` carrying `kid`,
/// the claims given as JSON text (a `serde_json` raw value, written as is)
/// and the key made by `EncodingKey::from_rsa_pem`; the token is named
/// `jwt_rs256_token`. The crate's source shows that the header and payload
/// parts are the base64 of the serialized header and claims, which
/// `decode_header` and `decode` read back: the token names `kid`, and its
/// payload is the claims text (a raw value keeps its text, outer white
/// space aside). Last clause: the signature is an RSASSA-PKCS1-v1_5 SHA-256
/// signature made by `ring` with the key, which verifies under the key's
/// public half; `ring` signs only with keys of 2048 to 4096 bits and an
/// exponent of at least 65537, and the `rsa` crate reads that public half
/// only from a key that passes its public-key checks, so it is an acceptable
/// RSA public key and its SubjectPublicKeyInfo PEM is written. Claims of the
/// access-token form, with an `exp` that is not negative, then pass the
/// issuer, audience and required-`exp` checks of `decode`.
#[verifier::external_body]
fn jwt_encode_rs256(key_pem: &str, kid: &str, claims: &str) -> (r: Result<
    String,
    jsonwebtoken::errors::Error,
>)
    ensures
        match r {
            Ok(t) => jwt_rs256_token(key_pem@, kid@, claims@) == Some(t@),
            Err(_) => jwt_rs256_token(key_pem@, kid@, claims@) is None,
        },
        r matches Ok(t) ==> jwt_header_kid(t@) == Some(Some(kid@)),
        no_outer_json_ws(claims@) ==> (r matches Ok(t) ==> jwt_payload_json(t@) == Some(claims@)),
        r matches Ok(t) ==> forall|sub: Seq<char>, exp: int, iat: int, iss: Seq<char>, aud: Seq<char>|
            #[trigger] access_claims_json(sub, exp, iat, iss, aud) == claims@ && 0 <= exp
                <= i64::MAX && i64::MIN <= iat <= i64::MAX ==> verifies_under_public_half(
                key_pem@,
                t@,
                iss,
                aud,
            ),
{
    let key = jsonwebtoken::EncodingKey::from_rsa_pem(key_pem.as_bytes())?;
    let claims = serde_json::value::RawValue::from_string(claims.to_string())?;
    let mut header = jsonwebtoken::Header::new(jsonwebtoken::Algorithm::RS256);
    header.kid = Some(kid.to_string());
    jsonwebtoken::encode(&header, &claims, &key)
}

/// Calls `jsonwebtoken::decode_header` and keeps the header's `kid`; the
/// outcome is named `jwt_header_kid`.
#[verifier::external_body]
fn jwt_decode_header_kid(token: &str) -> (r: Result<Option<String>, jsonwebtoken::errors::Error>)
    ensures
        match r {
            Ok(Some(k)) => jwt_header_kid(token@) == Some(Some(k@)),
            Ok(None) => jwt_header_kid(token@) == Some(None::<Seq<char>>),
            Err(_) => jwt_header_kid(token@) is None,
        },
{
    match jsonwebtoken::decode_header(token) {
        Ok(h) => Ok(h.kid),
        Err(e) => Err(e),
    }
}

/// Calls `jsonwebtoken::decode` with the key made by
/// `DecodingKey::from_rsa_pem`, `Validation::new(RS256)` restricted to the
/// given issuer and audience, its expiry check on or off as `check_exp`
/// says, and the claims read as a raw JSON value. Without the expiry check
/// the decode reads no clock (`validate_nbf` is off by default): it succeeds
/// exactly when the clock-free checks named `jwt_rs256_accepts` pass. With
/// it the outcome also depends on the current time, so only what a success
/// implies is stated. The text returned is the token's payload JSON.
#[verifier::external_body]
fn jwt_decode_rs256(
    token: &str,
    key_pem: &str,
    issuer: &str,
    audience: &str,
    check_exp: bool,
) -> (r: Result<String, jsonwebtoken::errors::Error>)
    ensures
        r is Ok ==> jwt_rs256_accepts(token@, key_pem@, issuer@, audience@),
        !check_exp ==> (r is Ok <==> jwt_rs256_accepts(token@, key_pem@, issuer@, audience@)),
        r matches Ok(c) ==> jwt_payload_json(token@) == Some(c@),
{
    let key = jsonwebtoken::DecodingKey::from_rsa_pem(key_pem.as_bytes())?;
    let mut validation = jsonwebtoken::Validation::new(jsonwebtoken::Algorithm::RS256);
    validation.set_issuer(&[issuer]);
    validation.set_audience(&[audience]);
    validation.validate_exp = check_exp;
    let data = jsonwebtoken::decode::<Box<serde_json::value::RawValue>>(token, &key, &validation)?;
    Ok(data.claims.get().to_string())
}

/// Calls `chrono::Utc::now().timestamp()`: the current time in seconds since
/// the Unix epoch (read from the clock: nothing is promised of it).
#[verifier::external_body]
pub(crate) fn now_timestamp() -> (r: i64) {
    chrono::Utc::now().timestamp()
}

// ----------------------------------------------------------------------------
// Signer
// ----------------------------------------------------------------------------

/// The PKCS#1 PEM that a PEM private key is normalised to, or the error
/// message: a PKCS#1 key is tried first, a PKCS#8 key second, and the result
/// must be accepted as an RSA signing key.
pub open spec fn signing_key_outcome(pem: Seq<char>) -> Result<Seq<char>, Seq<char>> {
    let reencoded = match pkcs1_private_reencoding(pem) {
        Some(x) => x,
        None => match pkcs8_private_reencoding(pem) {
            Ok(x) => x,
            Err(m) => Err(m),
        },
    };
    match reencoded {
        Err(m) => Err(m),
        Ok(p) => match jwt_rsa_key_error(p) {
            Some(m) => Err(m),
            None => Ok(p),
        },
    }
}

/// The public modulus and exponent of a PEM private key (PKCS#1 tried first,
/// then PKCS#8), or the error message.
pub open spec fn public_parts_outcome(pem: Seq<char>) -> Result<(Seq<u8>, Seq<u8>), Seq<char>> {
    match pkcs1_public_parts(pem) {
        Some(p) => Ok(p),
        None => pkcs8_public_parts(pem),
    }
}

/// Issues RS256 access tokens.
pub struct JwtSigner {
    signing_key_pem: String,
    kid: String,
    issuer: String,
    audience: String,
    ttl_secs: u64,
}

impl JwtSigner {
    /// The signing key, as PKCS#1 PEM.
    pub closed spec fn signing_key(&self) -> Seq<char> {
        self.signing_key_pem@
    }

    pub closed spec fn kid(&self) -> Seq<char> {
        self.kid@
    }

    pub closed spec fn issuer(&self) -> Seq<char> {
        self.issuer@
    }

    pub closed spec fn audience(&self) -> Seq<char> {
        self.audience@
    }

    pub closed spec fn ttl_secs(&self) -> u64 {
        self.ttl_secs
    }

    /// The expiry of a token issued at time `now`: `now` plus the lifetime
    /// (wrapping on overflow, as in a release build).
    pub open spec fn expiry_at(&self, now: i64) -> i64 {
        now.wrapping_add(self.ttl_secs() as i64)
    }

    /// The claims JSON of the token issued for `user_id` at time `now`.
    pub open spec fn claims_json_at(&self, user_id: u128, now: i64) -> Seq<char> {
        access_claims_json(
            uuid_text(user_id),
            self.expiry_at(now) as int,
            now as int,
            self.issuer(),
            self.audience(),
        )
    }

    /// This signer's key is the private key of `pem`: the public half of the
    /// signing key is read, and is the public half read from `pem`.
    pub open spec fn key_of(&self, pem: Seq<char>) -> bool {
        &&& pkcs1_public_parts(self.signing_key()) is Some
        &&& public_parts_outcome(pem) == Ok::<(Seq<u8>, Seq<u8>), Seq<char>>(
            pkcs1_public_parts(self.signing_key())->Some_0,
        )
    }

    /// A token issued by this signer for `user_id` at time `now`: it names
    /// this signer's key id, its payload is the claims JSON written for the
    /// user at that time, and (when the expiry is not negative) it passes the
    /// clock-free checks under the public half of the signing key, for this
    /// signer's issuer and audience.
    pub open spec fn issued_at(&self, user_id: u128, token: Seq<char>, now: i64) -> bool {
        &&& jwt_header_kid(token) == Some(Some(self.kid()))
        &&& jwt_payload_json(token) == Some(self.claims_json_at(user_id, now))
        &&& 0 <= self.expiry_at(now) ==> verifies_under_public_half(
            self.signing_key(),
            token,
            self.issuer(),
            self.audience(),
        )
    }

    /// A token issued by this signer for `user_id` at some issue time.
    pub open spec fn issued_token(&self, user_id: u128, token: Seq<char>) -> bool {
        exists|now: i64| #[trigger] self.issued_at(user_id, token, now)
    }

    /// Loads the RSA private key from PEM (PKCS#1, else PKCS#8) and keeps it,
    /// normalised to PKCS#1 PEM, with the issuer, audience and token
    /// lifetime.
    pub fn from_pem(pem: &str, issuer: &str, audience: &str, ttl_secs: u64) -> (r: Result<
        JwtSigner,
        JwtError,
    >)
        ensures
            match signing_key_outcome(pem@) {
                Ok(k) => r matches Ok(s) && s.signing_key() == k && s.kid() == key_id()
                    && s.issuer() == issuer@ && s.audience() == audience@ && s.ttl_secs()
                    == ttl_secs,
                Err(m) => r matches Err(JwtError::Pem(q)) && q@ == m,
            },
            r matches Ok(s) ==> s.key_of(pem@),
    {
        let reencoded = match pkcs1_reencode(pem) {
            Some(x) => x,
            None => match pkcs8_reencode(pem) {
                Ok(x) => x,
                Err(m) => Err(m),
            },
        };
        let pem_out = match reencoded {
            Ok(p) => p,
            Err(m) => return Err(JwtError::Pem(m)),
        };
        match jwt_encoding_key_check(pem_out.as_str()) {
            Some(m) => return Err(JwtError::Pem(m)),
            None => {},
        }
        Ok(
            JwtSigner {
                signing_key_pem: pem_out,
                kid: new_key_id(),
                issuer: copy_str(issuer),
                audience: copy_str(audience),
                ttl_secs,
            },
        )
    }

    /// Issues an access token for `user_id` at the clock reading `now`:
    /// subject = the user id's text, issued at `now`, expiring at `now` plus
    /// the lifetime, with this signer's issuer and audience, signed with RS256
    /// under this signer's key id. The token is exactly the one `jsonwebtoken`
    /// makes for these claims; its issue and expiry times are `now` and
    /// `now + ttl` whoever the user is.
    pub fn sign_user_at(&self, user_id: u128, now: i64) -> (r: Result<String, JwtError>)
        ensures
            match jwt_rs256_token(self.signing_key(), self.kid(), self.claims_json_at(user_id, now)) {
                Some(t) => r matches Ok(s) && s@ == t,
                None => r matches Err(e) && e is Token,
            },
            r matches Ok(t) ==> jwt_payload_json(t@) == Some(
                access_claims_json(
                    uuid_text(user_id),
                    now.wrapping_add(self.ttl_secs() as i64) as int,
                    now as int,
                    self.issuer(),
                    self.audience(),
                ),
            ),
            r matches Ok(t) ==> self.issued_at(user_id, t@, now),
    {
        let exp = now.wrapping_add(self.ttl_secs as i64);
        let claims = AccessClaims {
            sub: uuid_to_text(user_id),
            exp,
            iat: now,
            iss: copy_str(self.issuer.as_str()),
            aud: copy_str(self.audience.as_str()),
        };
        let json = claims.to_json();
        assert(json@ == self.claims_json_at(user_id, now));
        assert(json@ == access_claims_json(
            uuid_text(user_id),
            exp as int,
            now as int,
            self.issuer(),
            self.audience(),
        ));
        proof {
            lemma_claims_json_no_outer_ws(
                claims.sub@,
                claims.exp as int,
                claims.iat as int,
                claims.iss@,
                claims.aud@,
            );
        }
        match jwt_encode_rs256(self.signing_key_pem.as_str(), self.kid.as_str(), json.as_str()) {
            Ok(t) => {
                assert(jwt_payload_json(t@) == Some(self.claims_json_at(user_id, now)));
                assert(self.issued_at(user_id, t@, now));
                Ok(t)
            },
            Err(e) => Err(JwtError::Token(e)),
        }
    }

    /// Issues an access token for `user_id`: subject = the user id's text,
    /// issued now (the clock's reading, which nothing here can predict),
    /// expiring after the lifetime, with this signer's issuer and audience,
    /// signed with RS256 under this signer's key id (`sign_user_at` with the
    /// clock's reading).
    pub fn sign_user(&self, user_id: u128) -> (r: Result<String, JwtError>)
        ensures
            r matches Ok(t) ==> exists|now: i64| #[trigger]
                jwt_rs256_token(self.signing_key(), self.kid(), self.claims_json_at(user_id, now))
                    == Some(t@),
            r matches Err(e) ==> e is Token && exists|now: i64| #[trigger]
                jwt_rs256_token(
                    self.signing_key(),
                    self.kid(),
                    self.claims_json_at(user_id, now),
                ) is None,
            r matches Ok(t) ==> self.issued_token(user_id, t@),
    {
        let now = now_timestamp();
        self.sign_user_at(user_id, now)
    }

    /// Builds the JWKS document for this signer (single key): the public half
    /// of the PEM private key `pem` (PKCS#1, else PKCS#8), published under this
    /// signer's key id for RS256 signatures. For the PEM the signer was built
    /// from, this is the public half of the signing key.
    pub fn jwks_json(&self, pem: &str) -> (r: Result<String, JwtError>)
        ensures
            match public_parts_outcome(pem@) {
                Ok((n, e)) => r matches Ok(j) && j@ == signer_jwks_json(self.kid(), n, e),
                Err(m) => r matches Err(JwtError::Pem(q)) && q@ == m,
            },
            self.key_of(pem@) ==> (r matches Ok(j) && j@ == signer_jwks_json(
                self.kid(),
                pkcs1_public_parts(self.signing_key())->Some_0.0,
                pkcs1_public_parts(self.signing_key())->Some_0.1,
            )),
    {
        let parts = match pkcs1_public_key_parts(pem) {
            Some(p) => Ok(p),
            None => pkcs8_public_key_parts(pem),
        };
        let (n, e) = match parts {
            Ok(p) => p,
            Err(m) => return Err(JwtError::Pem(m)),
        };
        let n64 = b64url_encode(n.as_slice());
        let e64 = b64url_encode(e.as_slice());
        let jwk = rsa_jwk_json(self.kid.as_str(), n64.as_str(), e64.as_str());
        let mut r = String::new();
        push_str(&mut r, "{\"keys\":[");
        push_str(&mut r, jwk.as_str());
        push_str(&mut r, "]}");
        assert(r@ =~= signer_jwks_json(self.kid(), n@, e@));
        Ok(r)
    }
}

// ----------------------------------------------------------------------------
// Validator
// ----------------------------------------------------------------------------

/// Some key of `keys` has id `kid`, so a first one exists.
proof fn lemma_first_kid_exists(keys: Seq<Jwk>, kid: Seq<char>, i: int)
    requires
        0 <= i < keys.len(),
        keys[i].kid@ == kid,
    ensures
        first_kid_index(keys, kid) is Some,
    decreases i,
{
    if exists|j: int| 0 <= j < i && #[trigger] keys[j].kid@ == kid {
        let j = choose|j: int| 0 <= j < i && #[trigger] keys[j].kid@ == kid;
        lemma_first_kid_exists(keys, kid, j);
    } else {
        assert(first_kid_match(keys, kid, i));
    }
}

/// The SubjectPublicKeyInfo PEM of the key described by a JWK's `n` and `e`
/// members, when they decode and form an acceptable RSA public key.
pub open spec fn jwk_decoding_pem(n_b64: Seq<char>, e_b64: Seq<char>) -> Option<Seq<char>> {
    match (b64url_decoded(n_b64), b64url_decoded(e_b64)) {
        (Some(n), Some(e)) => if rsa_public_ok(n, e) {
            match spki_public_pem(n, e) {
                Ok(p) => Some(p),
                Err(_) => None,
            }
        } else {
            None
        },
        _ => None,
    }
}

/// The error reported when a JWK's `n` and `e` do not give a key.
pub open spec fn jwk_key_error(n_b64: Seq<char>, e_b64: Seq<char>, err: JwtError) -> bool {
    match (b64url_decoded(n_b64), b64url_decoded(e_b64)) {
        (Some(n), Some(e)) => if rsa_public_ok(n, e) {
            match spki_public_pem(n, e) {
                Ok(_) => false,
                Err(m) => err matches JwtError::Pem(q) && q@ == m,
            }
        } else {
            err is Rsa
        },
        _ => err is InvalidJwk,
    }
}

/// The key that checks tokens signed with the key a JWK describes, as
/// SubjectPublicKeyInfo PEM.
pub fn jwk_to_decoding_key(jwk: &Jwk) -> (r: Result<String, JwtError>)
    ensures
        match r {
            Ok(p) => jwk_decoding_pem(jwk.n@, jwk.e@) == Some(p@),
            Err(e) => jwk_decoding_pem(jwk.n@, jwk.e@) is None && jwk_key_error(jwk.n@, jwk.e@, e),
        },
{
    let n = match b64url_decode(jwk.n.as_str()) {
        Some(n) => n,
        None => return Err(JwtError::InvalidJwk),
    };
    let e = match b64url_decode(jwk.e.as_str()) {
        Some(e) => e,
        None => return Err(JwtError::InvalidJwk),
    };
    match rsa_public_key_check(n.as_slice(), e.as_slice()) {
        Ok(()) => {},
        Err(err) => return Err(JwtError::Rsa(err)),
    }
    match rsa_public_key_pem(n.as_slice(), e.as_slice()) {
        Ok(p) => Ok(p),
        Err(m) => Err(JwtError::Pem(m)),
    }
}

/// The key (SubjectPublicKeyInfo PEM) a token is checked with against `keys`:
/// the token's header names a key id, a key of `keys` has it, and the first
/// such key's `n` and `e` form an acceptable RSA public key. `None` when any
/// of these fails.
pub open spec fn token_decoding_key(token: Seq<char>, keys: Seq<Jwk>) -> Option<Seq<char>> {
    match jwt_header_kid(token) {
        Some(Some(kid)) => match first_kid_index(keys, kid) {
            Some(i) => jwk_decoding_pem(keys[i].n@, keys[i].e@),
            None => None,
        },
        _ => None,
    }
}

/// Whether the key a token names is found in `keys` and gives an RSA public
/// key.
pub open spec fn token_key_found(token: Seq<char>, keys: Seq<Jwk>) -> bool {
    token_decoding_key(token, keys) is Some
}

/// Checks RS256 access tokens for one issuer and audience.
pub struct JwtValidator {
    issuer: String,
    audience: String,
}

impl JwtValidator {
    pub closed spec fn issuer(&self) -> Seq<char> {
        self.issuer@
    }

    pub closed spec fn audience(&self) -> Seq<char> {
        self.audience@
    }

    pub fn new(issuer: &str, audience: &str) -> (r: Self)
        ensures
            r.issuer() == issuer@,
            r.audience() == audience@,
    {
        JwtValidator { issuer: copy_str(issuer), audience: copy_str(audience) }
    }

    /// Checks `token` against the keys of `jwks` at the clock reading `now`
    /// and returns the JSON text of its claims. The token's header must name a
    /// key id (else `InvalidJwk`) that some key of `jwks` has (else
    /// `KidNotFound`); the first such key must give an RSA public key; the
    /// token must then pass `jsonwebtoken::decode` with RS256 and this
    /// validator's issuer and audience (else `Token`), and must not have
    /// expired: its `exp` may be at most 60 seconds (`jsonwebtoken`'s leeway)
    /// before `now`. The expiry is decided here from the `exp` of claims laid
    /// out as access claims are; for claims laid out otherwise, and to obtain
    /// the error of an expired token, `jsonwebtoken`'s own expiry check (on its
    /// own reading of the clock) decides.
    pub fn validate_at(&self, token: &str, jwks: &JwksDoc, now: i64) -> (r: Result<String, JwtError>)
        ensures
            match jwt_header_kid(token@) {
                None => r matches Err(JwtError::Token(_)),
                Some(None) => r matches Err(JwtError::InvalidJwk),
                Some(Some(kid)) => match first_kid_index(jwks.keys@, kid) {
                    None => r matches Err(JwtError::KidNotFound(k)) && k@ == kid,
                    Some(i) => {
                        let jwk = jwks.keys@[i];
                        match jwk_decoding_pem(jwk.n@, jwk.e@) {
                            None => r matches Err(e) && jwk_key_error(jwk.n@, jwk.e@, e),
                            Some(key) => match r {
                                Ok(c) => {
                                    &&& jwt_rs256_accepts(
                                        token@,
                                        key,
                                        self.issuer(),
                                        self.audience(),
                                    )
                                    &&& jwt_payload_json(token@) == Some(c@)
                                },
                                Err(e) => e is Token,
                            },
                        }
                    },
                },
            },
            r is Ok ==> token_key_found(token@, jwks.keys@),
            validation_succeeds_at(token@, jwks.keys@, self.issuer(), self.audience(), now) ==> (
            r matches Ok(c) && jwt_payload_json(token@) == Some(c@)),
    {
        let kid = match jwt_decode_header_kid(token) {
            Ok(k) => k,
            Err(e) => return Err(JwtError::Token(e)),
        };
        let kid = match kid {
            Some(k) => k,
            None => return Err(JwtError::InvalidJwk),
        };
        let i = match find_jwk(&jwks.keys, kid.as_str()) {
            Some(i) => i,
            None => return Err(JwtError::KidNotFound(kid)),
        };
        proof {
            let j = first_kid_index(jwks.keys@, kid@)->Some_0;
            assert(first_kid_match(jwks.keys@, kid@, j));
            assert(0 <= j < jwks.keys@.len());
            assert(jwks.keys@.len() == jwks.keys.len());
            assert(i == j as usize);
            assert(j == i as int);
        }
        let key_pem = match jwk_to_decoding_key(&jwks.keys[i]) {
            Ok(p) => p,
            Err(e) => return Err(e),
        };
        let claims = match jwt_decode_rs256(
            token,
            key_pem.as_str(),
            self.issuer.as_str(),
            self.audience.as_str(),
            false,
        ) {
            Ok(c) => c,
            Err(e) => return Err(JwtError::Token(e)),
        };
        match claims_exp(claims.as_str()) {
            Some(exp) => {
                if (now as i128) - 60 <= exp as i128 {
                    return Ok(claims);
                }
            },
            None => {},
        }
        match jwt_decode_rs256(
            token,
            key_pem.as_str(),
            self.issuer.as_str(),
            self.audience.as_str(),
            true,
        ) {
            Ok(c) => Ok(c),
            Err(e) => Err(JwtError::Token(e)),
        }
    }

    /// Checks `token` against the keys of `jwks` now (`validate_at` with the
    /// clock's reading) and returns the JSON text of its claims. The token's
    /// header must name a key id (else `InvalidJwk`) that some key of `jwks`
    /// has (else `KidNotFound`); the first such key must give an RSA public
    /// key; the token must then pass `jsonwebtoken::decode` with RS256 and
    /// this validator's issuer and audience, and not be expired (else
    /// `Token`).
    pub fn validate(&self, token: &str, jwks: &JwksDoc) -> (r: Result<String, JwtError>)
        ensures
            match jwt_header_kid(token@) {
                None => r matches Err(JwtError::Token(_)),
                Some(None) => r matches Err(JwtError::InvalidJwk),
                Some(Some(kid)) => match first_kid_index(jwks.keys@, kid) {
                    None => r matches Err(JwtError::KidNotFound(k)) && k@ == kid,
                    Some(i) => {
                        let jwk = jwks.keys@[i];
                        match jwk_decoding_pem(jwk.n@, jwk.e@) {
                            None => r matches Err(e) && jwk_key_error(jwk.n@, jwk.e@, e),
                            Some(key) => match r {
                                Ok(c) => {
                                    &&& jwt_rs256_accepts(
                                        token@,
                                        key,
                                        self.issuer(),
                                        self.audience(),
                                    )
                                    &&& jwt_payload_json(token@) == Some(c@)
                                },
                                Err(e) => e is Token,
                            },
                        }
                    },
                },
            },
            r is Ok ==> token_key_found(token@, jwks.keys@),
    {
        let now = now_timestamp();
        self.validate_at(token, jwks, now)
    }
}

/// Whether a check of `token` against `keys` at the clock reading `now`, for
/// `issuer` and `audience`, succeeds: the token's key is found, the token
/// passes the clock-free checks under it, and its claims (laid out as access
/// claims are) carry an `exp` no more than 60 seconds before `now`.
pub open spec fn validation_succeeds_at(
    token: Seq<char>,
    keys: Seq<Jwk>,
    issuer: Seq<char>,
    audience: Seq<char>,
    now: i64,
) -> bool {
    match (token_decoding_key(token, keys), jwt_payload_json(token)) {
        (Some(key), Some(c)) => {
            &&& jwt_rs256_accepts(token, key, issuer, audience)
            &&& leading_exp(c) matches Some(exp) && now - 60 <= exp
        },
        _ => false,
    }
}

/// A token issued by a signer names the signer's key id, so a key set that
/// holds a key under that id resolves the token's key (the first key with
/// that id is used).
pub proof fn law_issued_token_names_signer_key(
    signer: JwtSigner,
    user_id: u128,
    token: Seq<char>,
    keys: Seq<Jwk>,
    i: int,
)
    requires
        signer.issued_token(user_id, token),
        0 <= i < keys.len(),
        keys[i].kid@ == signer.kid(),
    ensures
        jwt_header_kid(token) == Some(Some(signer.kid())),
        first_kid_index(keys, signer.kid()) is Some,
{
    lemma_first_kid_exists(keys, signer.kid(), i);
}

/// What validation gives back for a token issued by a signer is the claims
/// the signer wrote: the user's id as subject, the signer's issuer and
/// audience, and an expiry of issue time plus lifetime.
pub proof fn law_validation_gives_back_issued_claims(
    signer: JwtSigner,
    user_id: u128,
    token: Seq<char>,
    claims: Seq<char>,
)
    requires
        signer.issued_token(user_id, token),
        jwt_payload_json(token) == Some(claims),
    ensures
        exists|now: i64| #[trigger] signer.claims_json_at(user_id, now) == claims,
{
    let now = choose|now: i64| #[trigger] signer.issued_at(user_id, token, now);
    assert(signer.claims_json_at(user_id, now) == claims);
}

/// A token a signer issued is accepted when checked against the JWKS the
/// signer publishes for the PEM it was built from: the token's header names
/// the published key, whose members give back the RSA public key of the PEM,
/// and under that key the token passes every check of decoding that does not
/// depend on the clock, for the signer's issuer and audience. (The `exp`
/// claim is read only when it is not negative.)
pub proof fn law_issued_token_accepted_by_published_key(
    signer: JwtSigner,
    pem: Seq<char>,
    user_id: u128,
    now: i64,
    token: Seq<char>,
    n: Seq<u8>,
    e: Seq<u8>,
    keys: Seq<Jwk>,
)
    requires
        signer.key_of(pem),
        signer.issued_at(user_id, token, now),
        0 <= signer.expiry_at(now),
        public_parts_outcome(pem) == Ok::<(Seq<u8>, Seq<u8>), Seq<char>>((n, e)),
        keys.len() > 0,
        keys[0].kid@ == signer.kid(),
        keys[0].n@ == b64url(n),
        keys[0].e@ == b64url(e),
    ensures
        spki_public_pem(n, e) is Ok,
        token_decoding_key(token, keys) == Some(spki_public_pem(n, e)->Ok_0),
        jwt_rs256_accepts(token, spki_public_pem(n, e)->Ok_0, signer.issuer(), signer.audience()),
{
    let kid = signer.kid();
    assert(pkcs1_public_parts(signer.signing_key()) == Some((n, e)));
    assert(first_kid_match(keys, kid, 0));
    assert forall|i: int| first_kid_match(keys, kid, i) implies i == 0 by {
        if i > 0 {
            assert(keys[0].kid@ != kid);
        }
    }
    assert(first_kid_index(keys, kid) == Some(0int));
    lemma_b64url_decodes(n);
    lemma_b64url_decodes(e);
}

/// A token a signer issued at time `issued` is accepted, at any clock reading
/// `now` up to 60 seconds past its expiry, when checked against the JWKS the
/// signer publishes for the PEM it was built from, with the signer's issuer
/// and audience: its lifetime decides, not its age.
pub proof fn law_issued_token_valid_until_expiry(
    signer: JwtSigner,
    pem: Seq<char>,
    user_id: u128,
    issued: i64,
    token: Seq<char>,
    n: Seq<u8>,
    e: Seq<u8>,
    keys: Seq<Jwk>,
    now: i64,
)
    requires
        signer.key_of(pem),
        signer.issued_at(user_id, token, issued),
        0 <= signer.expiry_at(issued),
        now - 60 <= signer.expiry_at(issued),
        public_parts_outcome(pem) == Ok::<(Seq<u8>, Seq<u8>), Seq<char>>((n, e)),
        keys.len() > 0,
        keys[0].kid@ == signer.kid(),
        keys[0].n@ == b64url(n),
        keys[0].e@ == b64url(e),
    ensures
        validation_succeeds_at(token, keys, signer.issuer(), signer.audience(), now),
        jwt_payload_json(token) == Some(signer.claims_json_at(user_id, issued)),
{
    law_issued_token_accepted_by_published_key(signer, pem, user_id, issued, token, n, e, keys);
    lemma_access_claims_exp(
        uuid_text(user_id),
        signer.expiry_at(issued) as int,
        issued as int,
        signer.issuer(),
        signer.audience(),
    );
}

} // verus!

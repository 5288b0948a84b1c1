use f69::jwt::{jwk_to_decoding_key, AccessClaims, Jwk, JwksDoc, JwtError, JwtSigner, JwtValidator};
use f69::auth_gate::{auth_user_from_claims, check_token, AuthRejection};
use base64::Engine;
use rsa::pkcs1::EncodeRsaPrivateKey;
use rsa::pkcs8::EncodePrivateKey;
use rsa::traits::PublicKeyParts;

// Test keys, given by their primes: a 2048-bit key and a second, unrelated
// 2048-bit key.
const MAIN_P: [u32; 32] = [
    432621377, 3249729634, 4163217733, 1894852434, 176340111, 680702613,
    289731955, 1589138242, 312680773, 3989362376, 2686834706, 3671702246,
    1794408521, 1402327989, 867407901, 3646610061, 3490536835, 1600019729,
    1869787700, 913321203, 4232806967, 3713557710, 3299934426, 1245193996,
    677019196, 3806320757, 4040748656, 1924333243, 2371052855, 3003674744,
    1442032919, 3255062931,
];
const MAIN_Q: [u32; 32] = [
    3358157441, 150797312, 568727283, 3446974676, 3084172049, 2066249668,
    1533696161, 1814890110, 1959573639, 1181024851, 917870586, 1886671270,
    1002531332, 2919429588, 2699362075, 3334863394, 408292114, 1139218703,
    1060530839, 2879911366, 4028868008, 912436720, 3841949027, 383888541,
    2342758433, 1930469456, 1414059832, 3699907520, 1752511783, 3736050676,
    3754295767, 3221316474,
];
const OTHER_P: [u32; 32] = [
    4123786321, 546589536, 3734307171, 1687735517, 2211437348, 2005717266,
    1498074218, 4116207440, 375623089, 3913616965, 2600900815, 885105863,
    3906635380, 1865153036, 2143175970, 3748554389, 662399210, 4193399662,
    4143097834, 1214039777, 3523899570, 3576428436, 25467699, 1418124699,
    1628469313, 1018036616, 2725825012, 3168659512, 2044125420, 802705451,
    2330658225, 4060327299,
];
const OTHER_Q: [u32; 32] = [
    3404381953, 2533180946, 3340550881, 2868849502, 3390744381, 4293066874,
    3789460000, 1826167271, 604041002, 608933046, 3533849307, 1085495284,
    349532817, 2791970311, 3114445964, 3461265709, 1683006336, 2028527425,
    2525753832, 818598510, 1841786239, 712550731, 566840831, 388618862,
    3099548758, 2869671133, 1449066803, 1561210961, 1151175815, 2008787953,
    228166091, 3066014493,
];

/// An RSA private key with public exponent 65537 built from its two primes
/// (little-endian 32-bit limbs).
fn key_from_primes(p: &[u32], q: &[u32]) -> rsa::RsaPrivateKey {
    rsa::RsaPrivateKey::from_p_q(
        rsa::BigUint::from_slice(p),
        rsa::BigUint::from_slice(q),
        rsa::BigUint::from(65537u32),
    )
    .unwrap()
}

fn pkcs1_pem_of(key: &rsa::RsaPrivateKey) -> String {
    key.to_pkcs1_pem(rsa::pkcs1::LineEnding::LF).unwrap().to_string()
}

fn main_key() -> rsa::RsaPrivateKey {
    key_from_primes(&MAIN_P, &MAIN_Q)
}

/// The main test key as PKCS#1 PEM.
fn main_pkcs1() -> String {
    pkcs1_pem_of(&main_key())
}

/// The main test key as PKCS#8 PEM.
fn main_pkcs8() -> String {
    main_key().to_pkcs8_pem(rsa::pkcs8::LineEnding::LF).unwrap().to_string()
}

/// The other test key as PKCS#1 PEM.
fn other_pkcs1() -> String {
    pkcs1_pem_of(&key_from_primes(&OTHER_P, &OTHER_Q))
}

fn jwks_from_json(text: &str) -> JwksDoc {
    let v: serde_json::Value = serde_json::from_str(text).unwrap();
    let keys = v.get("keys").unwrap().as_array().unwrap();
    let mut out = Vec::new();
    for k in keys {
        let field = |name: &str| k.get(name).unwrap().as_str().unwrap().to_string();
        out.push(Jwk {
            kty: field("kty"),
            kid: field("kid"),
            n: field("n"),
            e: field("e"),
            alg: field("alg"),
            use_: field("use"),
        });
    }
    JwksDoc { keys: out }
}

fn payload_json(token: &str) -> serde_json::Value {
    let parts: Vec<&str> = token.split('.').collect();
    assert_eq!(parts.len(), 3);
    let bytes = base64::engine::general_purpose::URL_SAFE_NO_PAD.decode(parts[1]).unwrap();
    serde_json::from_slice(&bytes).unwrap()
}

fn header_json(token: &str) -> serde_json::Value {
    let parts: Vec<&str> = token.split('.').collect();
    let bytes = base64::engine::general_purpose::URL_SAFE_NO_PAD.decode(parts[0]).unwrap();
    serde_json::from_slice(&bytes).unwrap()
}

#[test]
fn claims_json_is_compact_and_escaped() {
    let c = AccessClaims {
        sub: "a\"b\\c".to_string(),
        exp: -5,
        iat: 0,
        iss: "line\nbreak\u{1}".to_string(),
        aud: "é/x".to_string(),
    };
    assert_eq!(
        c.to_json(),
        "{\"sub\":\"a\\\"b\\\\c\",\"exp\":-5,\"iat\":0,\"iss\":\"line\\nbreak\\u0001\",\"aud\":\"é/x\"}"
    );
}

#[test]
fn claims_json_matches_serde_json() {
    let c = AccessClaims {
        sub: "user\t\u{1f}\u{7f}".to_string(),
        exp: i64::MIN,
        iat: i64::MAX,
        iss: "f69-auth".to_string(),
        aud: "f69-api".to_string(),
    };
    let expected = format!(
        "{{\"sub\":{},\"exp\":{},\"iat\":{},\"iss\":{},\"aud\":{}}}",
        serde_json::to_string(&c.sub).unwrap(),
        i64::MIN,
        i64::MAX,
        serde_json::to_string(&c.iss).unwrap(),
        serde_json::to_string(&c.aud).unwrap()
    );
    assert_eq!(c.to_json(), expected);
}

#[test]
fn signer_loads_pkcs1_and_pkcs8_keys() {
    assert!(JwtSigner::from_pem(&main_pkcs1(), "iss", "aud", 60).is_ok());
    assert!(JwtSigner::from_pem(&main_pkcs8(), "iss", "aud", 60).is_ok());
}

#[test]
fn signer_rejects_text_that_is_not_a_key() {
    match JwtSigner::from_pem("not a key", "iss", "aud", 60) {
        Err(JwtError::Pem(m)) => assert!(!m.is_empty()),
        _ => panic!("expected a PEM error"),
    }
}

#[test]
fn jwks_publishes_the_public_key_under_the_key_id() {
    let signer = JwtSigner::from_pem(&main_pkcs1(), "iss", "aud", 60).unwrap();
    let jwks = signer.jwks_json(&main_pkcs1()).unwrap();
    let v: serde_json::Value = serde_json::from_str(&jwks).unwrap();
    let key = &v["keys"][0];
    assert_eq!(key["kty"], "RSA");
    assert_eq!(key["kid"], "f69-key-1");
    assert_eq!(key["e"], "AQAB");
    assert_eq!(key["alg"], "RS256");
    assert_eq!(key["use"], "sig");
    assert_eq!(v["keys"].as_array().unwrap().len(), 1);
    assert!(jwks.starts_with("{\"keys\":[{\"kty\":\"RSA\",\"kid\":\"f69-key-1\",\"n\":\""));
    // The same key given as PKCS#8 publishes the same document.
    assert_eq!(signer.jwks_json(&main_pkcs8()).unwrap(), jwks);
}

#[test]
fn jwks_modulus_is_base64url_of_the_key_modulus() {
    let signer = JwtSigner::from_pem(&main_pkcs1(), "iss", "aud", 60).unwrap();
    let jwks = signer.jwks_json(&main_pkcs1()).unwrap();
    let v: serde_json::Value = serde_json::from_str(&jwks).unwrap();
    let key = main_key();
    let n = base64::engine::general_purpose::URL_SAFE_NO_PAD.encode(key.n().to_bytes_be());
    assert_eq!(v["keys"][0]["n"], n.as_str());
    assert!(!n.contains('=') && !n.contains('+') && !n.contains('/'));
}

#[test]
fn jwks_of_text_that_is_not_a_key_fails() {
    let signer = JwtSigner::from_pem(&main_pkcs1(), "iss", "aud", 60).unwrap();
    assert!(matches!(signer.jwks_json("garbage"), Err(JwtError::Pem(_))));
}

#[test]
fn signed_token_carries_the_claims_and_key_id() {
    let signer = JwtSigner::from_pem(&main_pkcs1(), "f69-auth", "f69-api", 3600).unwrap();
    let id: u128 = 0x550e8400_e29b_41d4_a716_446655440000;
    let before = chrono::Utc::now().timestamp();
    let token = signer.sign_user(id).unwrap();
    let after = chrono::Utc::now().timestamp();
    let header = header_json(&token);
    assert_eq!(header["alg"], "RS256");
    assert_eq!(header["kid"], "f69-key-1");
    assert_eq!(header["typ"], "JWT");
    let claims = payload_json(&token);
    assert_eq!(claims["sub"], "550e8400-e29b-41d4-a716-446655440000");
    assert_eq!(claims["iss"], "f69-auth");
    assert_eq!(claims["aud"], "f69-api");
    let iat = claims["iat"].as_i64().unwrap();
    assert!(before <= iat && iat <= after);
    assert_eq!(claims["exp"].as_i64().unwrap(), iat + 3600);
}

#[test]
fn issued_token_validates_against_published_jwks() {
    let signer = JwtSigner::from_pem(&main_pkcs8(), "f69-auth", "f69-api", 3600).unwrap();
    let jwks = jwks_from_json(&signer.jwks_json(&main_pkcs8()).unwrap());
    let id: u128 = 0x0123_4567_89ab_cdef_0123_4567_89ab_cdef;
    let token = signer.sign_user(id).unwrap();
    let validator = JwtValidator::new("f69-auth", "f69-api");
    let claims_json = validator.validate(&token, &jwks).unwrap();
    let v: serde_json::Value = serde_json::from_str(&claims_json).unwrap();
    let claims = AccessClaims {
        sub: v["sub"].as_str().unwrap().to_string(),
        exp: v["exp"].as_i64().unwrap(),
        iat: v["iat"].as_i64().unwrap(),
        iss: v["iss"].as_str().unwrap().to_string(),
        aud: v["aud"].as_str().unwrap().to_string(),
    };
    assert_eq!(claims.sub, "01234567-89ab-cdef-0123-456789abcdef");
    assert_eq!(auth_user_from_claims(&claims).unwrap().user_id, id);
}

#[test]
fn token_for_another_audience_or_issuer_is_refused() {
    let signer = JwtSigner::from_pem(&main_pkcs1(), "f69-auth", "other-api", 3600).unwrap();
    let jwks = jwks_from_json(&signer.jwks_json(&main_pkcs1()).unwrap());
    let token = signer.sign_user(7).unwrap();
    assert!(matches!(
        JwtValidator::new("f69-auth", "f69-api").validate(&token, &jwks),
        Err(JwtError::Token(_))
    ));
    assert!(matches!(
        JwtValidator::new("someone-else", "other-api").validate(&token, &jwks),
        Err(JwtError::Token(_))
    ));
    assert!(JwtValidator::new("f69-auth", "other-api").validate(&token, &jwks).is_ok());
}

#[test]
fn expired_token_is_refused() {
    // A lifetime of 2^63 wraps the expiry far into the past.
    let signer = JwtSigner::from_pem(&main_pkcs1(), "i", "a", 1u64 << 63).unwrap();
    let jwks = jwks_from_json(&signer.jwks_json(&main_pkcs1()).unwrap());
    let token = signer.sign_user(1).unwrap();
    assert!(payload_json(&token)["exp"].as_i64().unwrap() < 0);
    assert!(matches!(
        JwtValidator::new("i", "a").validate(&token, &jwks),
        Err(JwtError::Token(_))
    ));
}

#[test]
fn token_signed_by_another_key_is_refused() {
    let signer = JwtSigner::from_pem(&main_pkcs1(), "i", "a", 60).unwrap();
    let other = JwtSigner::from_pem(&other_pkcs1(), "i", "a", 60).unwrap();
    let jwks = jwks_from_json(&other.jwks_json(&other_pkcs1()).unwrap());
    let token = signer.sign_user(1).unwrap();
    assert!(matches!(
        JwtValidator::new("i", "a").validate(&token, &jwks),
        Err(JwtError::Token(_))
    ));
}

#[test]
fn unknown_key_id_is_reported() {
    let signer = JwtSigner::from_pem(&main_pkcs1(), "i", "a", 60).unwrap();
    let mut jwks = jwks_from_json(&signer.jwks_json(&main_pkcs1()).unwrap());
    jwks.keys[0].kid = "another-key".to_string();
    let token = signer.sign_user(1).unwrap();
    match JwtValidator::new("i", "a").validate(&token, &jwks) {
        Err(JwtError::KidNotFound(k)) => assert_eq!(k, "f69-key-1"),
        other => panic!("unexpected {:?}", other.map(|_| ())),
    }
}

#[test]
fn first_key_with_the_id_is_used() {
    let signer = JwtSigner::from_pem(&main_pkcs1(), "i", "a", 60).unwrap();
    let other = JwtSigner::from_pem(&other_pkcs1(), "i", "a", 60).unwrap();
    let good = jwks_from_json(&signer.jwks_json(&main_pkcs1()).unwrap());
    let bad = jwks_from_json(&other.jwks_json(&other_pkcs1()).unwrap());
    let token = signer.sign_user(1).unwrap();
    let mut first_good = JwksDoc { keys: Vec::new() };
    first_good.keys.push(good.keys[0].clone_fields());
    first_good.keys.push(bad.keys[0].clone_fields());
    assert!(JwtValidator::new("i", "a").validate(&token, &first_good).is_ok());
    let mut first_bad = JwksDoc { keys: Vec::new() };
    first_bad.keys.push(bad.keys[0].clone_fields());
    first_bad.keys.push(good.keys[0].clone_fields());
    assert!(JwtValidator::new("i", "a").validate(&token, &first_bad).is_err());
}

trait CloneFields {
    fn clone_fields(&self) -> Jwk;
}

impl CloneFields for Jwk {
    fn clone_fields(&self) -> Jwk {
        Jwk {
            kty: self.kty.clone(),
            kid: self.kid.clone(),
            n: self.n.clone(),
            e: self.e.clone(),
            alg: self.alg.clone(),
            use_: self.use_.clone(),
        }
    }
}

#[test]
fn token_without_key_id_is_refused() {
    let b64 = base64::engine::general_purpose::URL_SAFE_NO_PAD;
    let token = format!(
        "{}.{}.{}",
        b64.encode("{\"alg\":\"RS256\",\"typ\":\"JWT\"}"),
        b64.encode("{}"),
        b64.encode("sig")
    );
    let jwks = JwksDoc { keys: Vec::new() };
    assert!(matches!(
        JwtValidator::new("i", "a").validate(&token, &jwks),
        Err(JwtError::InvalidJwk)
    ));
    assert!(matches!(
        JwtValidator::new("i", "a").validate("not-a-token", &jwks),
        Err(JwtError::Token(_))
    ));
}

#[test]
fn jwk_members_must_decode_and_form_a_key() {
    let base = Jwk {
        kty: "RSA".to_string(),
        kid: "k".to_string(),
        n: "!!".to_string(),
        e: "AQAB".to_string(),
        alg: "RS256".to_string(),
        use_: "sig".to_string(),
    };
    assert!(matches!(jwk_to_decoding_key(&base), Err(JwtError::InvalidJwk)));
    // Modulus 15 (odd), exponent 1: the exponent is too small.
    let small_e = Jwk { n: "Dw".to_string(), e: "AQ".to_string(), ..base.clone_fields() };
    assert!(matches!(jwk_to_decoding_key(&small_e), Err(JwtError::Rsa(_))));
    // Modulus 15, exponent 3: accepted by the checks; a public key PEM comes out.
    let ok = Jwk { n: "Dw".to_string(), e: "Aw".to_string(), ..base.clone_fields() };
    let pem = jwk_to_decoding_key(&ok).unwrap();
    assert!(pem.starts_with("-----BEGIN PUBLIC KEY-----"));
}

#[test]
fn validation_gives_back_exactly_the_issued_claims() {
    let signer = JwtSigner::from_pem(&main_pkcs1(), "f69-auth", "f69-api", 120).unwrap();
    let jwks = jwks_from_json(&signer.jwks_json(&main_pkcs1()).unwrap());
    let id: u128 = 42;
    let token = signer.sign_user(id).unwrap();
    let iat = payload_json(&token)["iat"].as_i64().unwrap();
    let expected = AccessClaims {
        sub: "00000000-0000-0000-0000-00000000002a".to_string(),
        exp: iat + 120,
        iat,
        iss: "f69-auth".to_string(),
        aud: "f69-api".to_string(),
    }
    .to_json();
    let claims = JwtValidator::new("f69-auth", "f69-api").validate(&token, &jwks).unwrap();
    assert_eq!(claims, expected);
}

#[test]
fn gate_checks_tokens_with_its_validators_issuer_and_audience() {
    let signer = JwtSigner::from_pem(&main_pkcs1(), "f69-auth", "f69-api", 600).unwrap();
    let jwks = jwks_from_json(&signer.jwks_json(&main_pkcs1()).unwrap());
    let token = signer.sign_user(7).unwrap();
    let good = JwtValidator::new("f69-auth", "f69-api");
    let expected = good.validate(&token, &jwks).unwrap();
    assert_eq!(check_token(&good, &token, Some(&jwks)), Ok(expected));
    let other_issuer = JwtValidator::new("someone-else", "f69-api");
    assert_eq!(check_token(&other_issuer, &token, Some(&jwks)), Err(AuthRejection::InvalidToken));
    let other_audience = JwtValidator::new("f69-auth", "other-api");
    assert_eq!(check_token(&other_audience, &token, Some(&jwks)), Err(AuthRejection::InvalidToken));
    assert_eq!(check_token(&good, &token, None), Err(AuthRejection::JwksUnavailable));
}

#[test]
fn jwk_members_of_the_published_key_decode_to_its_public_key() {
    let signer = JwtSigner::from_pem(&main_pkcs8(), "i", "a", 60).unwrap();
    let jwks = jwks_from_json(&signer.jwks_json(&main_pkcs8()).unwrap());
    let pem = jwk_to_decoding_key(&jwks.keys[0]).unwrap();
    let expected = rsa::pkcs8::EncodePublicKey::to_public_key_pem(
        &main_key().to_public_key(),
        rsa::pkcs8::LineEnding::LF,
    )
    .unwrap();
    assert_eq!(pem, expected);
}

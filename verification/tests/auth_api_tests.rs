use f69::auth_api::{
    login, login_email, register_email, register_response, register_user, ApiError, LoginRequest,
    RegisterRequest, UserRecord,
};
use f69::jwt::JwtSigner;
use f69::password::{hash_password, verify_password};
use rsa::pkcs1::EncodeRsaPrivateKey;

// Test keys, given by their primes: a 2048-bit key, and a 1024-bit key that
// is too short to sign RS256 tokens with.
const MAIN_P: [u32; 32] = [
    432621377, 3249729634, 4163217733, 1894852434, 176340111, 680702613,
    289731955, 1589138242, 312680773, 3989362376, 2686834706, 3671702246,
    1794408521, 1402327989, 867407901, 3646610061, 3490536835, 1600019729,
    1869787700, 913321203, 4232806967, 3713557710, 3299934426, 1245193996,
    677019196, 3806320757, 4040748656, 1924333243, 2371052855, 3003674744,
    1442032919, 3255062931,
];
const MAIN_Q: [u32; 32] = [
    3358157441, 150797312, 568727283, 3446974676, 3084172049, 2066249668,
    1533696161, 1814890110, 1959573639, 1181024851, 917870586, 1886671270,
    1002531332, 2919429588, 2699362075, 3334863394, 408292114, 1139218703,
    1060530839, 2879911366, 4028868008, 912436720, 3841949027, 383888541,
    2342758433, 1930469456, 1414059832, 3699907520, 1752511783, 3736050676,
    3754295767, 3221316474,
];
const SMALL_P: [u32; 16] = [
    1710473801, 1575004245, 821696821, 2814703355, 3262991792, 1081485052,
    3700090556, 2644365138, 4055451042, 3761841896, 3274322766, 523355603,
    737997315, 3408199251, 1936661656, 4002886469,
];
const SMALL_Q: [u32; 16] = [
    2378575795, 396064563, 2069926395, 2480770073, 1149154827, 1884079726,
    1824227147, 3303122528, 421845547, 2085210792, 2091561982, 526479586,
    2176726974, 797267048, 3340899211, 3274714460,
];

/// An RSA private key with public exponent 65537 built from its two primes
/// (little-endian 32-bit limbs).
fn key_from_primes(p: &[u32], q: &[u32]) -> rsa::RsaPrivateKey {
    rsa::RsaPrivateKey::from_p_q(
        rsa::BigUint::from_slice(p),
        rsa::BigUint::from_slice(q),
        rsa::BigUint::from(65537u32),
    )
    .unwrap()
}

fn pkcs1_pem_of(key: &rsa::RsaPrivateKey) -> String {
    key.to_pkcs1_pem(rsa::pkcs1::LineEnding::LF).unwrap().to_string()
}

fn main_pkcs1() -> String {
    pkcs1_pem_of(&key_from_primes(&MAIN_P, &MAIN_Q))
}

fn small_pkcs1() -> String {
    pkcs1_pem_of(&key_from_primes(&SMALL_P, &SMALL_Q))
}

fn register(email: &str, password: &str) -> RegisterRequest {
    RegisterRequest { email: email.to_string(), password: password.to_string() }
}

#[test]
fn error_responses() {
    let (s, b) = ApiError::BadRequest("validation failed").response();
    assert_eq!((s, b.error.as_str(), b.code), (400, "validation failed", Some("bad_request")));
    let (s, b) = ApiError::Conflict("email already registered").response();
    assert_eq!((s, b.error.as_str(), b.code), (409, "email already registered", Some("conflict")));
    let (s, b) = ApiError::Unauthorized.response();
    assert_eq!((s, b.error.as_str(), b.code), (401, "unauthorized", Some("unauthorized")));
    let (s, b) = ApiError::Internal.response();
    assert_eq!((s, b.error.as_str(), b.code), (500, "internal error", None));
}

#[test]
fn registration_rules() {
    assert!(register("alice@example.com", "12345678").validate());
    assert!(!register("alice@example.com", "1234567").validate());
    assert!(register("alice@example.com", "pässwörd").validate());
    assert!(!register("alice.example.com", "12345678").validate());
    assert!(!register("alice@", "12345678").validate());
    assert!(!register("", "12345678").validate());
}

#[test]
fn registration_lowercases_the_email() {
    match register_email(&register("Alice@Example.COM", "long enough")) {
        Ok(e) => assert_eq!(e, "alice@example.com"),
        Err(_) => panic!("expected a valid request"),
    }
    match register_email(&register("bob@example.com", "short")) {
        Err(ApiError::BadRequest(m)) => assert_eq!(m, "validation failed"),
        _ => panic!("expected a validation failure"),
    }
}

#[test]
fn registration_refuses_a_known_email() {
    let body = register("a@b.co", "password1");
    match register_user(&body, "a@b.co".to_string(), true) {
        Err(ApiError::Conflict(m)) => assert_eq!(m, "email already registered"),
        _ => panic!("expected a conflict"),
    }
}

#[test]
fn registration_stores_a_hash_of_the_password() {
    let body = register("a@b.co", "password1");
    let user = match register_user(&body, "a@b.co".to_string(), false) {
        Ok(u) => u,
        Err(_) => panic!("expected a new user"),
    };
    assert_eq!(user.email, "a@b.co");
    assert!(user.password_hash.starts_with("$argon2id$"));
    assert!(verify_password(&user.password_hash, "password1"));
    assert!(!verify_password(&user.password_hash, "password2"));
    let again = match register_user(&body, "a@b.co".to_string(), false) {
        Ok(u) => u,
        Err(_) => panic!("expected a new user"),
    };
    assert_ne!(again.id, user.id);
    assert_ne!(again.password_hash, user.password_hash);
    let response = register_response(&user);
    assert_eq!((response.id, response.email.as_str()), (user.id, "a@b.co"));
}

#[test]
fn hashes_verify_their_password_only() {
    let h = match hash_password("s3cret!") {
        Ok(h) => h,
        Err(_) => panic!("hashing failed"),
    };
    assert!(verify_password(&h, "s3cret!"));
    assert!(!verify_password(&h, "s3cret"));
    assert!(!verify_password("not a phc string", "s3cret!"));
    assert!(!verify_password("", ""));
}

#[test]
fn hash_is_an_argon2id_phc_string_with_default_parameters() {
    let h = match hash_password("") {
        Ok(h) => h,
        Err(_) => panic!("hashing failed"),
    };
    let prefix = "$argon2id$v=19$m=19456,t=2,p=1$";
    assert!(h.starts_with(prefix));
    let rest = &h[prefix.len()..];
    let parts: Vec<&str> = rest.split('$').collect();
    assert_eq!(parts.len(), 2);
    // 16 salt bytes and 32 output bytes, in unpadded standard base64.
    assert_eq!(parts[0].len(), 22);
    assert_eq!(parts[1].len(), 43);
    let b64 = |s: &str| s.chars().all(|c| c.is_ascii_alphanumeric() || c == '+' || c == '/');
    assert!(b64(parts[0]) && b64(parts[1]));
    assert!(verify_password(&h, ""));
}

#[test]
fn login_lookup_email_is_lowercased() {
    let body = LoginRequest { email: "MiXeD@Case.Org".to_string(), password: "x".to_string() };
    assert_eq!(login_email(&body), "mixed@case.org");
}

#[test]
fn login_decisions() {
    let signer = JwtSigner::from_pem(&main_pkcs1(), "f69-auth", "f69-api", 900).unwrap();
    let hash = match hash_password("correct horse") {
        Ok(h) => h,
        Err(_) => panic!("hashing failed"),
    };
    let body = LoginRequest { email: "u@x.io".to_string(), password: "correct horse".to_string() };
    assert!(matches!(login(&signer, 900, &body, None), Err(ApiError::Unauthorized)));
    let wrong = LoginRequest { email: "u@x.io".to_string(), password: "battery".to_string() };
    let user = || UserRecord { id: 42, password_hash: hash.clone() };
    assert!(matches!(login(&signer, 900, &wrong, Some(user())), Err(ApiError::Unauthorized)));
    match login(&signer, 900, &body, Some(user())) {
        Ok(resp) => {
            assert_eq!(resp.token_type, "Bearer");
            assert_eq!(resp.expires_in, 900);
            assert_eq!(resp.access_token.split('.').count(), 3);
        }
        Err(_) => panic!("expected a token"),
    }
}

#[test]
fn login_with_an_unusable_signing_key_is_an_internal_error() {
    // A 1024-bit key loads, but RS256 signing refuses keys this small.
    let signer = JwtSigner::from_pem(&small_pkcs1(), "f69-auth", "f69-api", 900).unwrap();
    let hash = match hash_password("correct horse") {
        Ok(h) => h,
        Err(_) => panic!("hashing failed"),
    };
    let body = LoginRequest { email: "u@x.io".to_string(), password: "correct horse".to_string() };
    let user = UserRecord { id: 1, password_hash: hash };
    assert!(matches!(login(&signer, 900, &body, Some(user)), Err(ApiError::Internal)));
}

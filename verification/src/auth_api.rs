//! The auth service's API: its error responses and the decisions taken when
//! registering a user and when logging in. Storage is the caller's: the
//! functions here take what the database returned and say what to store or
//! answer next.

use vstd::prelude::*;
use validator::ValidateEmail;
use crate::ids::{is_v4_id, new_random_id};
use crate::jwt::{jwt_rs256_token, JwtSigner};
use crate::password::{
    argon2_phc, argon2id_default_phc, generated_salt, hash_password, password_matches,
    verify_password,
};
use crate::text::{chars_of, copy_str, lowercase, to_lowercase};

verus! {

broadcast use vstd::string::group_string_axioms;

// ----------------------------------------------------------------------------
// Errors
// ----------------------------------------------------------------------------

/// Stable error envelope for HTTP JSON responses.
#[derive(Debug)]
pub struct ErrorBody {
    pub error: String,
    /// Omitted from the JSON when absent.
    pub code: Option<&'static str>,
}

/// Application-level HTTP errors for auth routes.
#[derive(Debug)]
pub enum ApiError {
    BadRequest(&'static str),
    Conflict(&'static str),
    Unauthorized,
    Internal,
}

impl ApiError {
    /// The HTTP status code and JSON body this error is answered with
    /// (no internal detail is ever included).
    pub fn response(&self) -> (r: (u16, ErrorBody))
        ensures
            match self {
                ApiError::BadRequest(m) => {
                    &&& r.0 == 400
                    &&& r.1.error@ == m@
                    &&& r.1.code matches Some(c) && c@ == "bad_request"@
                },
                ApiError::Conflict(m) => {
                    &&& r.0 == 409
                    &&& r.1.error@ == m@
                    &&& r.1.code matches Some(c) && c@ == "conflict"@
                },
                ApiError::Unauthorized => {
                    &&& r.0 == 401
                    &&& r.1.error@ == "unauthorized"@
                    &&& r.1.code matches Some(c) && c@ == "unauthorized"@
                },
                ApiError::Internal => {
                    &&& r.0 == 500
                    &&& r.1.error@ == "internal error"@
                    &&& r.1.code is None
                },
            },
    {
        match self {
            ApiError::BadRequest(m) => (
                400,
                ErrorBody { error: copy_str(m), code: Some("bad_request") },
            ),
            ApiError::Conflict(m) => (409, ErrorBody { error: copy_str(m), code: Some("conflict") }),
            ApiError::Unauthorized => (
                401,
                ErrorBody { error: copy_str("unauthorized"), code: Some("unauthorized") },
            ),
            ApiError::Internal => (500, ErrorBody { error: copy_str("internal error"), code: None }),
        }
    }
}

// ----------------------------------------------------------------------------
// Requests and responses
// ----------------------------------------------------------------------------

#[derive(Debug)]
pub struct RegisterRequest {
    pub email: String,
    pub password: String,
}

#[derive(Debug)]
pub struct RegisterResponse {
    pub id: u128,
    pub email: String,
}

#[derive(Debug)]
pub struct LoginRequest {
    pub email: String,
    pub password: String,
}

#[derive(Debug)]
pub struct LoginResponse {
    pub access_token: String,
    pub token_type: &'static str,
    pub expires_in: u64,
}

/// Whether `validator`'s e-mail check (the HTML5 form rule, with length
/// limits and IDN domains) accepts `s`.
pub uninterp spec fn html5_email_valid(s: Seq<char>) -> bool;

/// Calls `ValidateEmail::validate_email` of the `validator` crate; the
/// outcome is named `html5_email_valid`.
#[verifier::external_body]
fn email_is_valid(s: &str) -> (r: bool)
    ensures
        r == html5_email_valid(s@),
{
    s.validate_email()
}

/// A registration is valid when the email passes the e-mail check and the
/// password has at least 8 characters.
pub open spec fn register_request_valid(email: Seq<char>, password: Seq<char>) -> bool {
    html5_email_valid(email) && password.len() >= 8
}

impl RegisterRequest {
    /// The request's field rules: a valid e-mail and a password of at least
    /// 8 characters.
    pub fn validate(&self) -> (r: bool)
        ensures
            r == register_request_valid(self.email@, self.password@),
    {
        let email_ok = email_is_valid(self.email.as_str());
        let password = chars_of(self.password.as_str());
        email_ok && password.len() >= 8
    }
}

// ----------------------------------------------------------------------------
// Registration
// ----------------------------------------------------------------------------

/// A user record to insert.
#[derive(Debug)]
pub struct NewUser {
    pub id: u128,
    pub email: String,
    pub password_hash: String,
}

/// First step of registration: a request that breaks the field rules is
/// refused; otherwise the lower-cased e-mail, under which the user is
/// looked up and stored, is returned.
pub fn register_email(body: &RegisterRequest) -> (r: Result<String, ApiError>)
    ensures
        if register_request_valid(body.email@, body.password@) {
            r matches Ok(e) && e@ == lowercase(body.email@)
        } else {
            r matches Err(ApiError::BadRequest(m)) && m@ == "validation failed"@
        },
{
    if !body.validate() {
        return Err(ApiError::BadRequest("validation failed"));
    }
    Ok(to_lowercase(body.email.as_str()))
}

/// Second step of registration, once it is known whether a user with that
/// e-mail is already stored: such an e-mail is refused; otherwise the record
/// to store is made, with a fresh id and an Argon2id hash of the password
/// (a failure to hash, which only a password over `u32::MAX` bytes can
/// cause, is an internal error).
pub fn register_user(body: &RegisterRequest, email: String, already_registered: bool) -> (r: Result<
    NewUser,
    ApiError,
>)
    ensures
        already_registered ==> (r matches Err(ApiError::Conflict(m)) && m@
            == "email already registered"@),
        !already_registered && 4 * body.password@.len() <= u32::MAX ==> r is Ok,
        !already_registered ==> match r {
            Ok(u) => {
                &&& is_v4_id(u.id)
                &&& u.email@ == email@
                &&& password_matches(u.password_hash@, body.password@)
                &&& argon2id_default_phc(u.password_hash@)
                &&& exists|salt: Seq<char>|
                    generated_salt(salt) && #[trigger] argon2_phc(body.password@, salt) == Some(
                        u.password_hash@,
                    )
                &&& !argon2id_default_phc(body.password@) ==> u.password_hash@ != body.password@
            },
            Err(e) => e is Internal && 4 * body.password@.len() > u32::MAX,
        },
{
    if already_registered {
        return Err(ApiError::Conflict("email already registered"));
    }
    let hash = match hash_password(body.password.as_str()) {
        Ok(h) => h,
        Err(_) => return Err(ApiError::Internal),
    };
    let id = new_random_id();
    Ok(NewUser { id, email, password_hash: hash })
}

/// The answer to a completed registration: the new user's id and e-mail.
pub fn register_response(user: &NewUser) -> (r: RegisterResponse)
    ensures
        r.id == user.id,
        r.email@ == user.email@,
{
    RegisterResponse { id: user.id, email: copy_str(user.email.as_str()) }
}

// ----------------------------------------------------------------------------
// Login
// ----------------------------------------------------------------------------

/// The stored user found for a login.
#[derive(Debug)]
pub struct UserRecord {
    pub id: u128,
    pub password_hash: String,
}

/// The lower-cased e-mail under which a login looks the user up.
pub fn login_email(body: &LoginRequest) -> (r: String)
    ensures
        r@ == lowercase(body.email@),
{
    to_lowercase(body.email.as_str())
}

/// Whether a login with `password` is refused for the stored user (none
/// found, or the password does not match the stored hash).
pub open spec fn login_refused(user: Option<UserRecord>, password: Seq<char>) -> bool {
    match user {
        None => true,
        Some(u) => !password_matches(u.password_hash@, password),
    }
}

/// Login, once the user stored under the e-mail has been looked up: no user
/// or a wrong password is `Unauthorized`; otherwise an access token is issued
/// for the user (a failure to sign is an internal error) and answered as a
/// bearer token valid for `ttl_secs` seconds.
pub fn login(signer: &JwtSigner, ttl_secs: u64, body: &LoginRequest, user: Option<UserRecord>) -> (r:
    Result<LoginResponse, ApiError>)
    ensures
        login_refused(user, body.password@) ==> r matches Err(ApiError::Unauthorized),
        !login_refused(user, body.password@) ==> match r {
            Ok(resp) => {
                &&& resp.token_type@ == "Bearer"@
                &&& resp.expires_in == ttl_secs
                &&& exists|now: i64| #[trigger]
                    jwt_rs256_token(
                        signer.signing_key(),
                        signer.kid(),
                        signer.claims_json_at(user->Some_0.id, now),
                    ) == Some(resp.access_token@)
            },
            Err(e) => e is Internal && exists|now: i64| #[trigger]
                jwt_rs256_token(
                    signer.signing_key(),
                    signer.kid(),
                    signer.claims_json_at(user->Some_0.id, now),
                ) is None,
        },
{
    let user = match user {
        Some(u) => u,
        None => return Err(ApiError::Unauthorized),
    };
    if !verify_password(user.password_hash.as_str(), body.password.as_str()) {
        return Err(ApiError::Unauthorized);
    }
    let token = match signer.sign_user(user.id) {
        Ok(t) => t,
        Err(_) => return Err(ApiError::Internal),
    };
    Ok(LoginResponse { access_token: token, token_type: "Bearer", expires_in: ttl_secs })
}

/// A user stored by registration can log in with the password registered:
/// the login is not refused.
pub proof fn law_registered_password_logs_in(user: UserRecord, password: Seq<char>)
    requires
        password_matches(user.password_hash@, password),
    ensures
        !login_refused(Some(user), password),
{
}

} // verus!

//! Authentication of flag-service requests: the `Authorization: Bearer`
//! header, the token check against the auth service's JWKS, and the user id
//! taken from the token's subject.

use vstd::prelude::*;
use crate::ids::{parse_uuid, uuid_parse_result, uuid_text};
use crate::jwt::{
    jwt_payload_json, jwt_rs256_accepts, now_timestamp, token_decoding_key, validation_succeeds_at,
    AccessClaims, JwksDoc, JwtValidator,
};
use crate::text::{chars_of, string_from_chars};

verus! {

broadcast use vstd::string::group_string_axioms;

/// Authenticated subject resolved from a valid JWT (`sub` claim = user id).
#[derive(Debug, Clone, Copy, PartialEq, Eq, Structural)]
pub struct AuthUser {
    pub user_id: u128,
}

/// Why a request was not authenticated.
#[derive(Debug, Clone, Copy, PartialEq, Eq, Structural)]
pub enum AuthRejection {
    /// No `Authorization` header (or one that is not visible ASCII text).
    MissingAuthorization,
    /// The header does not start with `Bearer `.
    InvalidScheme,
    /// The auth service's JWKS could not be fetched.
    JwksUnavailable,
    /// The token did not pass validation.
    InvalidToken,
    /// The token's subject is not a user id.
    InvalidSubject,
}

impl AuthRejection {
    /// HTTP status, error message and error code of the JSON answer.
    pub fn response(&self) -> (r: (u16, &'static str, &'static str))
        ensures
            match self {
                AuthRejection::MissingAuthorization => r.0 == 401 && r.1@
                    == "missing authorization"@ && r.2@ == "unauthorized"@,
                AuthRejection::InvalidScheme => r.0 == 401 && r.1@
                    == "invalid authorization scheme"@ && r.2@ == "unauthorized"@,
                AuthRejection::JwksUnavailable => r.0 == 503 && r.1@
                    == "auth service unavailable"@ && r.2@ == "jwks_unavailable"@,
                AuthRejection::InvalidToken => r.0 == 401 && r.1@ == "invalid token"@ && r.2@
                    == "unauthorized"@,
                AuthRejection::InvalidSubject => r.0 == 401 && r.1@ == "invalid subject"@ && r.2@
                    == "unauthorized"@,
            },
    {
        match self {
            AuthRejection::MissingAuthorization => (401, "missing authorization", "unauthorized"),
            AuthRejection::InvalidScheme => (401, "invalid authorization scheme", "unauthorized"),
            AuthRejection::JwksUnavailable => (503, "auth service unavailable", "jwks_unavailable"),
            AuthRejection::InvalidToken => (401, "invalid token", "unauthorized"),
            AuthRejection::InvalidSubject => (401, "invalid subject", "unauthorized"),
        }
    }
}

/// The `Bearer ` scheme prefix.
pub open spec fn bearer_prefix() -> Seq<char> {
    "Bearer "@
}

/// The token of an `Authorization` header value: missing header refused,
/// a value not starting with `Bearer ` refused, else the rest of the value.
pub fn bearer_token(authorization: Option<&str>) -> (r: Result<String, AuthRejection>)
    ensures
        match authorization {
            None => r == Err::<String, AuthRejection>(AuthRejection::MissingAuthorization),
            Some(h) => if h@.len() >= 7 && h@.take(7) == bearer_prefix() {
                r matches Ok(t) && t@ == h@.skip(7)
            } else {
                r == Err::<String, AuthRejection>(AuthRejection::InvalidScheme)
            },
        },
{
    let h = match authorization {
        None => return Err(AuthRejection::MissingAuthorization),
        Some(h) => h,
    };
    let v = chars_of(h);
    let p = chars_of("Bearer ");
    proof {
        reveal_strlit("Bearer ");
    }
    assert(p@ == bearer_prefix());
    assert(p@.len() == 7);
    if v.len() < 7 {
        assert(!(h@.len() >= 7));
        return Err(AuthRejection::InvalidScheme);
    }
    let mut i: usize = 0;
    while i < 7
        invariant
            i <= 7 <= v@.len(),
            authorization == Some(h),
            v@ == h@,
            p@ == bearer_prefix(),
            p@.len() == 7,
            forall|j: int| 0 <= j < i ==> v@[j] == p@[j],
        decreases 7 - i,
    {
        if v[i] != p[i] {
            assert(v@.take(7)[i as int] != bearer_prefix()[i as int]);
            return Err(AuthRejection::InvalidScheme);
        }
        i = i + 1;
    }
    assert(v@.take(7) =~= bearer_prefix());
    let t = string_from_chars(&v, 7, v.len());
    assert(v@.subrange(7, v@.len() as int) == h@.skip(7));
    Ok(t)
}

/// Checks a bearer token at the clock reading `now`, once the JWKS has been
/// fetched (`None` when the fetch failed): no JWKS is `JwksUnavailable`.
/// Otherwise the answer is the validator's (`validate_at`): its claims JSON
/// when the token passes, `InvalidToken` when it does not. In particular a
/// token whose key is not found is `InvalidToken`, and a token that passes
/// the checks under its key and has not expired at `now` is accepted.
pub fn check_token_at(
    validator: &JwtValidator,
    token: &str,
    jwks: Option<&JwksDoc>,
    now: i64,
) -> (r: Result<String, AuthRejection>)
    ensures
        match jwks {
            None => r == Err::<String, AuthRejection>(AuthRejection::JwksUnavailable),
            Some(d) => match token_decoding_key(token@, d.keys@) {
                None => r == Err::<String, AuthRejection>(AuthRejection::InvalidToken),
                Some(key) => match r {
                    Ok(c) => {
                        &&& jwt_rs256_accepts(
                            token@,
                            key,
                            validator.issuer(),
                            validator.audience(),
                        )
                        &&& jwt_payload_json(token@) == Some(c@)
                    },
                    Err(e) => e == AuthRejection::InvalidToken,
                },
            },
        },
        jwks matches Some(d) && validation_succeeds_at(
            token@,
            d.keys@,
            validator.issuer(),
            validator.audience(),
            now,
        ) ==> (r matches Ok(c) && jwt_payload_json(token@) == Some(c@)),
{
    let jwks = match jwks {
        None => return Err(AuthRejection::JwksUnavailable),
        Some(j) => j,
    };
    match validator.validate_at(token, jwks, now) {
        Ok(c) => Ok(c),
        Err(_) => Err(AuthRejection::InvalidToken),
    }
}

/// Checks a bearer token now (`check_token_at` with the clock's reading),
/// once the JWKS has been fetched (`None` when the fetch failed): no JWKS is
/// `JwksUnavailable`. Otherwise the token is checked by `validator` against
/// the JWKS's keys: a token whose key is not found (no key id in its header,
/// no key with that id, or a first such key that is not an acceptable RSA
/// public key) is `InvalidToken`; a token whose key is found is decoded with
/// that key and the validator's issuer and audience, and either passes (its
/// claims JSON is returned) or is `InvalidToken`.
pub fn check_token(validator: &JwtValidator, token: &str, jwks: Option<&JwksDoc>) -> (r: Result<
    String,
    AuthRejection,
>)
    ensures
        match jwks {
            None => r == Err::<String, AuthRejection>(AuthRejection::JwksUnavailable),
            Some(d) => match token_decoding_key(token@, d.keys@) {
                None => r == Err::<String, AuthRejection>(AuthRejection::InvalidToken),
                Some(key) => match r {
                    Ok(c) => {
                        &&& jwt_rs256_accepts(
                            token@,
                            key,
                            validator.issuer(),
                            validator.audience(),
                        )
                        &&& jwt_payload_json(token@) == Some(c@)
                    },
                    Err(e) => e == AuthRejection::InvalidToken,
                },
            },
        },
{
    let now = now_timestamp();
    check_token_at(validator, token, jwks, now)
}

/// The user a validated token's claims name: the subject read as a UUID
/// (`InvalidSubject` when it is not one). The canonical text of a user id
/// (as written into tokens) always reads back as that id.
pub fn auth_user_from_claims(claims: &AccessClaims) -> (r: Result<AuthUser, AuthRejection>)
    ensures
        match uuid_parse_result(claims.sub@) {
            Some(id) => r == Ok::<AuthUser, AuthRejection>(AuthUser { user_id: id }),
            None => r == Err::<AuthUser, AuthRejection>(AuthRejection::InvalidSubject),
        },
        forall|id: u128| #[trigger] uuid_text(id) == claims.sub@ ==> r == Ok::<AuthUser, AuthRejection>(
            AuthUser { user_id: id },
        ),
{
    match parse_uuid(claims.sub.as_str()) {
        Some(id) => Ok(AuthUser { user_id: id }),
        None => Err(AuthRejection::InvalidSubject),
    }
}

} // verus!

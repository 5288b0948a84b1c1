//! Decisions of the flag service's JWKS cache: where the auth service
//! publishes its keys, when a cached copy may be reused, and which fetch
//! answers are accepted. The fetching and the clock are the caller's.

use vstd::prelude::*;
use crate::jwt::JwksDoc;
use crate::text::{chars_of, push_str, string_from_chars};

verus! {

broadcast use vstd::string::group_string_axioms;

/// The error type of the `reqwest` HTTP client (opaque here).
#[verifier::external_type_specification]
#[verifier::external_body]
pub struct ExReqwestError(reqwest::Error);

/// Network or HTTP failures while loading JWKS.
#[derive(Debug)]
pub enum JwksFetchError {
    Http(reqwest::Error),
    /// A non-success HTTP status.
    Status(u16),
}

/// `s` without its trailing `/` characters (`trim_end_matches('/')`).
pub open spec fn trim_trailing_slashes(s: Seq<char>) -> Seq<char>
    decreases s.len(),
{
    if s.len() > 0 && s.last() == '/' {
        trim_trailing_slashes(s.drop_last())
    } else {
        s
    }
}

/// The JWKS address of the auth service at `base`.
pub open spec fn jwks_url_text(base: Seq<char>) -> Seq<char> {
    trim_trailing_slashes(base) + "/.well-known/jwks.json"@
}

/// `GET {auth}/.well-known/jwks.json`, without doubling the `/` when the
/// base URL ends with one.
pub fn jwks_url(auth_base_url: &str) -> (r: String)
    ensures
        r@ == jwks_url_text(auth_base_url@),
{
    let v = chars_of(auth_base_url);
    let mut j = v.len();
    assert(v@.subrange(0, j as int) == v@);
    while j > 0 && v[j - 1] == '/'
        invariant
            j <= v@.len(),
            trim_trailing_slashes(v@) == trim_trailing_slashes(v@.subrange(0, j as int)),
        decreases j,
    {
        assert(v@.subrange(0, j as int).drop_last() == v@.subrange(0, j - 1));
        j = j - 1;
    }
    let mut r = string_from_chars(&v, 0, j);
    push_str(&mut r, "/.well-known/jwks.json");
    r
}

/// The cached document, if it is younger than the lifetime: `cached` holds
/// the age of the copy (nanoseconds since it was fetched) and the copy.
pub fn fresh_cached_jwks<'a>(cached: &'a Option<(u128, JwksDoc)>, ttl_nanos: u128) -> (r: Option<
    &'a JwksDoc,
>)
    ensures
        match cached {
            Some((age, doc)) => if *age < ttl_nanos {
                r == Some(doc)
            } else {
                r is None
            },
            None => r is None,
        },
{
    match cached {
        Some((age, doc)) => {
            if *age < ttl_nanos {
                Some(doc)
            } else {
                None
            }
        },
        None => None,
    }
}

/// A JWKS answer is used only with a success (2xx) status.
pub fn check_status(status: u16) -> (r: Result<(), JwksFetchError>)
    ensures
        200 <= status <= 299 ==> r is Ok,
        !(200 <= status <= 299) ==> (r matches Err(JwksFetchError::Status(s)) && s == status),
{
    if 200 <= status && status <= 299 {
        Ok(())
    } else {
        Err(JwksFetchError::Status(status))
    }
}

} // verus!

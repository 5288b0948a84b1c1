//! Cross-origin policy of the services: an explicit list of allowed origins
//! when configured, any origin in development when none is configured.

use vstd::prelude::*;
use crate::config::Environment;
use crate::text::{chars_of, split, split_spec, trim, trim_spec};

verus! {

broadcast use vstd::string::group_string_axioms;

/// Which origins may make cross-origin requests.
#[derive(Debug)]
pub enum AllowedOrigins {
    /// Exactly these origins.
    List(Vec<String>),
    /// Any origin.
    Any,
    /// No origin is set on the policy.
    Unset,
}

/// Whether text is a valid HTTP header value (`HeaderValue::from_str`):
/// every character is a tab or at least U+0020, and none is DEL.
pub open spec fn header_value_ok(s: Seq<char>) -> bool {
    forall|i: int|
        0 <= i < s.len() ==> ((#[trigger] s[i] as u32) >= 32 && (s[i] as u32) != 127) || (
        s[i] as u32) == 9
}

/// The trimmed pieces that are valid header values, in order.
pub open spec fn valid_trimmed(pieces: Seq<Seq<char>>) -> Seq<Seq<char>>
    decreases pieces.len(),
{
    if pieces.len() == 0 {
        Seq::<Seq<char>>::empty()
    } else {
        let rest = valid_trimmed(pieces.drop_last());
        let t = trim_spec(pieces.last());
        if header_value_ok(t) {
            rest.push(t)
        } else {
            rest
        }
    }
}

/// The allowed origins listed in a comma-separated setting.
pub open spec fn origin_list(origins: Seq<char>) -> Seq<Seq<char>> {
    valid_trimmed(split_spec(origins, ','))
}

fn is_header_value(s: &String) -> (r: bool)
    ensures
        r == header_value_ok(s@),
{
    let v = chars_of(s.as_str());
    let mut i: usize = 0;
    while i < v.len()
        invariant
            i <= v@.len(),
            v@ == s@,
            forall|j: int|
                0 <= j < i ==> ((#[trigger] v@[j] as u32) >= 32 && (v@[j] as u32) != 127) || (
                v@[j] as u32) == 9,
        decreases v@.len() - i,
    {
        let u = v[i] as u32;
        if !((u >= 32 && u != 127) || u == 9) {
            return false;
        }
        i = i + 1;
    }
    true
}

/// The origins of a comma-separated setting: each piece trimmed, pieces that
/// are not valid header values dropped.
pub fn parse_origins(origins: &str) -> (r: Vec<String>)
    ensures
        r@.len() == origin_list(origins@).len(),
        forall|k: int| 0 <= k < r@.len() ==> #[trigger] r@[k]@ == origin_list(origins@)[k],
{
    let pieces = split(origins, ',');
    let ghost ps = split_spec(origins@, ',');
    let mut r: Vec<String> = Vec::new();
    let mut i: usize = 0;
    while i < pieces.len()
        invariant
            i <= pieces@.len() == ps.len(),
            ps == split_spec(origins@, ','),
            forall|k: int| 0 <= k < pieces@.len() ==> #[trigger] pieces@[k]@ == ps[k],
            r@.len() == valid_trimmed(ps.take(i as int)).len(),
            forall|k: int|
                0 <= k < r@.len() ==> #[trigger] r@[k]@ == valid_trimmed(ps.take(i as int))[k],
        decreases pieces@.len() - i,
    {
        assert(ps.take(i + 1).drop_last() == ps.take(i as int));
        assert(ps.take(i + 1).last() == ps[i as int]);
        let t = trim(pieces[i].as_str());
        if is_header_value(&t) {
            r.push(t);
        }
        i = i + 1;
    }
    assert(ps.take(pieces@.len() as int) == ps);
    r
}

/// The cross-origin policy: with a configured list, its valid origins (no
/// origin is set when none is valid); without one, any origin outside
/// production and none in production.
pub fn allowed_origins(origins: &Option<String>, environment: Environment) -> (r: AllowedOrigins)
    ensures
        match origins {
            Some(o) => if origin_list(o@).len() > 0 {
                r matches AllowedOrigins::List(v) && v@.len() == origin_list(o@).len() && forall|
                    k: int,
                | 0 <= k < v@.len() ==> #[trigger] v@[k]@ == origin_list(o@)[k]
            } else {
                r is Unset
            },
            None => if environment == Environment::Production {
                r is Unset
            } else {
                r is Any
            },
        },
{
    match origins {
        Some(o) => {
            let list = parse_origins(o.as_str());
            if list.len() > 0 {
                AllowedOrigins::List(list)
            } else {
                AllowedOrigins::Unset
            }
        },
        None => {
            if !environment.is_production() {
                AllowedOrigins::Any
            } else {
                AllowedOrigins::Unset
            }
        },
    }
}

} // verus!

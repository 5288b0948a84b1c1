//! Identifiers of users, projects and flags: 128-bit UUID values, their
//! canonical text, and fresh random identifiers.

use vstd::prelude::*;
use crate::text::hex_text;

verus! {

/// The canonical (hyphenated, lower-case) text of a UUID: its 32 hexadecimal
/// digits, most significant first, grouped 8-4-4-4-12.
pub open spec fn uuid_text(id: u128) -> Seq<char> {
    let h = hex_text(id as nat, 32);
    h.subrange(0, 8) + seq!['-'] + h.subrange(8, 12) + seq!['-'] + h.subrange(12, 16) + seq!['-']
        + h.subrange(16, 20) + seq!['-'] + h.subrange(20, 32)
}

/// What `uuid::Uuid::parse_str` accepts and the value it reads, for text `s`
/// (simple, hyphenated, braced and URN forms are accepted).
pub uninterp spec fn uuid_parse_result(s: Seq<char>) -> Option<u128>;

/// Calls `uuid::Uuid::to_string`, which the `uuid` crate documents as the
/// hyphenated lower-case form of the 16 bytes in order (= `uuid_text`).
#[verifier::external_body]
pub(crate) fn uuid_to_text(id: u128) -> (r: String)
    ensures
        r@ == uuid_text(id),
{
    uuid::Uuid::from_u128(id).to_string()
}

/// Calls `uuid::Uuid::parse_str`; its outcome is named `uuid_parse_result`.
/// The crate documents that every format it generates, the hyphenated one
/// included, is read back by this function, which gives the second clause.
#[verifier::external_body]
pub(crate) fn parse_uuid(s: &str) -> (r: Option<u128>)
    ensures
        r == uuid_parse_result(s@),
        forall|id: u128| #[trigger] uuid_text(id) == s@ ==> r == Some(id),
{
    match uuid::Uuid::parse_str(s) {
        Ok(u) => Some(u.as_u128()),
        Err(_) => None,
    }
}

/// A version-4 (random) RFC 4122 UUID: version field (bits 76 to 79) 4 and
/// variant field (bits 62 and 63) `10`.
pub open spec fn is_v4_id(id: u128) -> bool {
    (id >> 76u128) & 0xfu128 == 4u128 && (id >> 62u128) & 0x3u128 == 2u128
}

/// A version-4 id is never the nil UUID, nor the all-ones one.
pub proof fn law_v4_id_is_not_nil(id: u128)
    requires
        is_v4_id(id),
    ensures
        id != 0,
        id != u128::MAX,
{
    assert(is_v4_id(id) ==> id != 0 && id != 0xffff_ffff_ffff_ffff_ffff_ffff_ffff_ffffu128)
        by (bit_vector);
}

/// Calls `uuid::Uuid::new_v4`: a random identifier. Which value is left
/// open; the crate's source masks the random bits so that the version field
/// is 4 and the variant field is RFC 4122's, so the id is a version-4 id.
#[verifier::external_body]
pub(crate) fn new_random_id() -> (r: u128)
    ensures
        is_v4_id(r),
{
    uuid::Uuid::new_v4().as_u128()
}

} // verus!

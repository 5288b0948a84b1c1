//! Key material for RS256 tokens, handled by outside crates: URL-safe
//! base64 (the `base64` crate) and RSA keys (the `rsa` crate). Keys cross
//! into verified code as plain values: PEM text, or the big-endian bytes of
//! a public key's modulus and exponent.

use vstd::prelude::*;
use base64::Engine;
use rsa::pkcs1::{DecodeRsaPrivateKey, EncodeRsaPrivateKey};
use rsa::pkcs8::{DecodePrivateKey, EncodePublicKey};
use rsa::traits::PublicKeyParts;

verus! {

/// The error type of the `rsa` crate (opaque here).
#[verifier::external_type_specification]
#[verifier::external_body]
pub struct ExRsaError(rsa::Error);

// ----------------------------------------------------------------------------
// Base64 (URL-safe alphabet, no padding)
// ----------------------------------------------------------------------------

/// The URL-safe base64 digit for a 6-bit value.
pub open spec fn b64url_digit(v: nat) -> char {
    if v < 26 {
        ((v + 65) as u8) as char
    } else if v < 52 {
        ((v + 71) as u8) as char
    } else if v < 62 {
        ((v - 4) as u8) as char
    } else if v == 62 {
        '-'
    } else {
        '_'
    }
}

/// URL-safe base64 of `b` without padding: each group of three bytes becomes
/// four digits; a final group of one or two bytes becomes two or three.
pub open spec fn b64url(b: Seq<u8>) -> Seq<char>
    decreases b.len(),
{
    if b.len() == 0 {
        Seq::<char>::empty()
    } else {
        let x0 = b[0] as nat;
        if b.len() == 1 {
            seq![b64url_digit(x0 / 4), b64url_digit((x0 % 4) * 16)]
        } else {
            let x1 = b[1] as nat;
            if b.len() == 2 {
                seq![
                    b64url_digit(x0 / 4),
                    b64url_digit((x0 % 4) * 16 + x1 / 16),
                    b64url_digit((x1 % 16) * 4),
                ]
            } else {
                let x2 = b[2] as nat;
                seq![
                    b64url_digit(x0 / 4),
                    b64url_digit((x0 % 4) * 16 + x1 / 16),
                    b64url_digit((x1 % 16) * 4 + x2 / 64),
                    b64url_digit(x2 % 64),
                ] + b64url(b.subrange(3, b.len() as int))
            }
        }
    }
}

/// The bytes whose URL-safe base64 (unpadded) is `s`, if any. There is at
/// most one such byte sequence (`lemma_b64url_injective`).
pub open spec fn b64url_decoded(s: Seq<char>) -> Option<Seq<u8>> {
    if exists|b: Seq<u8>| #[trigger] b64url(b) == s {
        Some(choose|b: Seq<u8>| #[trigger] b64url(b) == s)
    } else {
        None
    }
}

/// Distinct 6-bit values have distinct digits.
proof fn lemma_b64url_digit_injective(v: nat, w: nat)
    requires
        v < 64,
        w < 64,
        b64url_digit(v) == b64url_digit(w),
    ensures
        v == w,
{
    let cv = b64url_digit(v) as u32;
    let cw = b64url_digit(w) as u32;
    assert(cv == cw);
    if v < 26 {
        assert(cv == v + 65);
    } else if v < 52 {
        assert(cv == v + 71);
    } else if v < 62 {
        assert(cv == v - 4);
    } else if v == 62 {
        assert(cv == 45);
    } else {
        assert(cv == 95);
    }
    if w < 26 {
        assert(cw == w + 65);
    } else if w < 52 {
        assert(cw == w + 71);
    } else if w < 62 {
        assert(cw == w - 4);
    } else if w == 62 {
        assert(cw == 45);
    } else {
        assert(cw == 95);
    }
}

/// The length of the URL-safe base64 (unpadded) of `n` bytes.
pub open spec fn b64url_len(n: nat) -> nat {
    4 * (n / 3) + if n % 3 == 0 {
        0nat
    } else if n % 3 == 1 {
        2nat
    } else {
        3nat
    }
}

proof fn lemma_b64url_len(b: Seq<u8>)
    ensures
        b64url(b).len() == b64url_len(b.len()),
    decreases b.len(),
{
    if b.len() >= 3 {
        lemma_b64url_len(b.subrange(3, b.len() as int));
    }
}

proof fn lemma_b64url_len_injective(n: nat, m: nat)
    requires
        b64url_len(n) == b64url_len(m),
    ensures
        n == m,
{
    assert(b64url_len(n) / 4 == n / 3);
    assert(b64url_len(m) / 4 == m / 3);
    assert(b64url_len(n) % 4 == b64url_len(m) % 4);
}

/// Two byte sequences with the same URL-safe base64 are equal.
pub proof fn lemma_b64url_injective(b1: Seq<u8>, b2: Seq<u8>)
    requires
        b64url(b1) == b64url(b2),
    ensures
        b1 == b2,
    decreases b1.len(),
{
    lemma_b64url_len(b1);
    lemma_b64url_len(b2);
    lemma_b64url_len_injective(b1.len(), b2.len());
    let s = b64url(b1);
    if b1.len() == 0 {
        assert(b1 =~= b2);
    } else {
        let x0 = b1[0] as nat;
        let y0 = b2[0] as nat;
        assert(s[0] == b64url(b2)[0]);
        assert(s[0] == b64url_digit(x0 / 4));
        assert(b64url(b2)[0] == b64url_digit(y0 / 4));
        lemma_b64url_digit_injective(x0 / 4, y0 / 4);
        if b1.len() == 1 {
            assert(s[1] == b64url(b2)[1]);
            lemma_b64url_digit_injective((x0 % 4) * 16, (y0 % 4) * 16);
            assert(b1 =~= b2);
        } else {
            let x1 = b1[1] as nat;
            let y1 = b2[1] as nat;
            assert(s[1] == b64url(b2)[1]);
            assert(s[2] == b64url(b2)[2]);
            lemma_b64url_digit_injective((x0 % 4) * 16 + x1 / 16, (y0 % 4) * 16 + y1 / 16);
            if b1.len() == 2 {
                lemma_b64url_digit_injective((x1 % 16) * 4, (y1 % 16) * 4);
                assert(b1 =~= b2);
            } else {
                let x2 = b1[2] as nat;
                let y2 = b2[2] as nat;
                assert(s[3] == b64url(b2)[3]);
                lemma_b64url_digit_injective((x1 % 16) * 4 + x2 / 64, (y1 % 16) * 4 + y2 / 64);
                lemma_b64url_digit_injective(x2 % 64, y2 % 64);
                let r1 = b1.subrange(3, b1.len() as int);
                let r2 = b2.subrange(3, b2.len() as int);
                assert(b64url(r1) =~= s.subrange(4, s.len() as int));
                assert(b64url(r2) =~= b64url(b2).subrange(4, s.len() as int));
                lemma_b64url_injective(r1, r2);
                assert(b1 =~= b2) by {
                    assert forall|i: int| 0 <= i < b1.len() implies b1[i] == b2[i] by {
                        if i >= 3 {
                            assert(r1[i - 3] == r2[i - 3]);
                        }
                    }
                }
            }
        }
    }
}

/// Bytes are given back by decoding their URL-safe base64.
pub proof fn lemma_b64url_decodes(b: Seq<u8>)
    ensures
        b64url_decoded(b64url(b)) == Some(b),
{
    let s = b64url(b);
    assert(exists|c: Seq<u8>| #[trigger] b64url(c) == s);
    let c = choose|c: Seq<u8>| #[trigger] b64url(c) == s;
    lemma_b64url_injective(c, b);
}

/// Calls `URL_SAFE_NO_PAD.encode` of the `base64` crate (the standard
/// base64 encoding with the URL-safe alphabet and no padding).
#[verifier::external_body]
pub(crate) fn b64url_encode(bytes: &[u8]) -> (r: String)
    ensures
        r@ == b64url(bytes@),
{
    base64::engine::general_purpose::URL_SAFE_NO_PAD.encode(bytes)
}

/// Calls `URL_SAFE_NO_PAD.decode` of the `base64` crate. With this engine's
/// configuration (no padding allowed, trailing bits must be zero) decoding
/// succeeds exactly on the texts that are the encoding of some bytes, and
/// gives those bytes: the outcome is `b64url_decoded`.
#[verifier::external_body]
pub(crate) fn b64url_decode(s: &str) -> (r: Option<Vec<u8>>)
    ensures
        match r {
            Some(v) => b64url_decoded(s@) == Some(v@),
            None => b64url_decoded(s@) is None,
        },
{
    match base64::engine::general_purpose::URL_SAFE_NO_PAD.decode(s.as_bytes()) {
        Ok(v) => Some(v),
        Err(_) => None,
    }
}

// ----------------------------------------------------------------------------
// RSA keys (the `rsa` crate)
// ----------------------------------------------------------------------------

/// The number written by big-endian bytes `b`.
pub open spec fn be_value(b: Seq<u8>) -> nat
    decreases b.len(),
{
    if b.len() == 0 {
        0
    } else {
        be_value(b.drop_last()) * 256 + b.last() as nat
    }
}

/// The checks of `RsaPublicKey::new` on modulus `n` and exponent `e`
/// (big-endian bytes): the modulus has at most 4096 bits and is odd, the
/// exponent is odd, below the modulus and between 2 and 2^33 - 1.
pub open spec fn rsa_public_ok(n: Seq<u8>, e: Seq<u8>) -> bool {
    let nv = be_value(n);
    let ev = be_value(e);
    &&& nv < vstd::arithmetic::power2::pow2(4096)
    &&& ev < nv
    &&& nv % 2 == 1
    &&& ev % 2 == 1
    &&& 2 <= ev <= 0x1_ffff_ffff
}

/// Parsing PEM text as a PKCS#1 RSA private key and writing it back as PKCS#1
/// PEM (LF line endings): `None` when it does not parse, else the PEM or the
/// message of the encoding error.
pub uninterp spec fn pkcs1_private_reencoding(pem: Seq<char>) -> Option<Result<Seq<char>, Seq<char>>>;

/// Parsing PEM text as a PKCS#8 RSA private key and writing it back as PKCS#1
/// PEM: the parse error's message, or the PEM or the encoding error's message.
pub uninterp spec fn pkcs8_private_reencoding(pem: Seq<char>) -> Result<
    Result<Seq<char>, Seq<char>>,
    Seq<char>,
>;

/// The public modulus and exponent (big-endian bytes) of a PKCS#1 PEM RSA
/// private key, or `None` when the text does not parse.
pub uninterp spec fn pkcs1_public_parts(pem: Seq<char>) -> Option<(Seq<u8>, Seq<u8>)>;

/// The public modulus and exponent of a PKCS#8 PEM RSA private key, or the
/// parse error's message.
pub uninterp spec fn pkcs8_public_parts(pem: Seq<char>) -> Result<(Seq<u8>, Seq<u8>), Seq<char>>;

/// The SubjectPublicKeyInfo PEM (LF line endings) of the RSA public key with
/// modulus `n` and exponent `e`, or the encoding error's message.
pub uninterp spec fn spki_public_pem(n: Seq<u8>, e: Seq<u8>) -> Result<Seq<char>, Seq<char>>;

/// Calls `RsaPrivateKey::from_pkcs1_pem`, then `to_pkcs1_pem(LF)` on the key.
/// The parse is the one `pkcs1_public_parts` reads the public half of, so
/// one succeeds exactly when the other does; and the PEM written holds the
/// same key, so its public half is the same.
#[verifier::external_body]
pub(crate) fn pkcs1_reencode(pem: &str) -> (r: Option<Result<String, String>>)
    ensures
        match r {
            None => pkcs1_private_reencoding(pem@) is None,
            Some(Ok(p)) => pkcs1_private_reencoding(pem@) == Some(Ok::<Seq<char>, Seq<char>>(p@)),
            Some(Err(m)) => pkcs1_private_reencoding(pem@) == Some(Err::<Seq<char>, Seq<char>>(m@)),
        },
        r is None <==> pkcs1_public_parts(pem@) is None,
        r matches Some(Ok(p)) ==> pkcs1_public_parts(p@) == pkcs1_public_parts(pem@),
{
    match rsa::RsaPrivateKey::from_pkcs1_pem(pem) {
        Err(_) => None,
        Ok(k) => match k.to_pkcs1_pem(rsa::pkcs1::LineEnding::LF) {
            Ok(p) => Some(Ok(p.as_str().to_string())),
            Err(e) => Some(Err(e.to_string())),
        },
    }
}

/// Calls `RsaPrivateKey::from_pkcs8_pem`, then `to_pkcs1_pem(LF)` on the key.
/// The parse is the one `pkcs8_public_parts` reads the public half of (same
/// error message when it fails); the PKCS#1 PEM written holds the same key,
/// so its public half is that one.
#[verifier::external_body]
pub(crate) fn pkcs8_reencode(pem: &str) -> (r: Result<Result<String, String>, String>)
    ensures
        match r {
            Err(m) => pkcs8_private_reencoding(pem@) == Err::<Result<Seq<char>, Seq<char>>, Seq<char>>(m@),
            Ok(Ok(p)) => pkcs8_private_reencoding(pem@) == Ok::<Result<Seq<char>, Seq<char>>, Seq<char>>(Ok(p@)),
            Ok(Err(m)) => pkcs8_private_reencoding(pem@) == Ok::<Result<Seq<char>, Seq<char>>, Seq<char>>(Err(m@)),
        },
        match r {
            Err(m) => pkcs8_public_parts(pem@) == Err::<(Seq<u8>, Seq<u8>), Seq<char>>(m@),
            Ok(Ok(p)) => pkcs8_public_parts(pem@) is Ok && pkcs1_public_parts(p@) == Some(
                pkcs8_public_parts(pem@)->Ok_0,
            ),
            Ok(Err(_)) => pkcs8_public_parts(pem@) is Ok,
        },
{
    match rsa::RsaPrivateKey::from_pkcs8_pem(pem) {
        Err(e) => Err(e.to_string()),
        Ok(k) => match k.to_pkcs1_pem(rsa::pkcs1::LineEnding::LF) {
            Ok(p) => Ok(Ok(p.as_str().to_string())),
            Err(e) => Ok(Err(e.to_string())),
        },
    }
}

/// Calls `RsaPrivateKey::from_pkcs1_pem`, then reads `n` and `e` of the
/// key's public half as big-endian bytes.
#[verifier::external_body]
pub(crate) fn pkcs1_public_key_parts(pem: &str) -> (r: Option<(Vec<u8>, Vec<u8>)>)
    ensures
        match r {
            None => pkcs1_public_parts(pem@) is None,
            Some((n, e)) => pkcs1_public_parts(pem@) == Some((n@, e@)),
        },
{
    match rsa::RsaPrivateKey::from_pkcs1_pem(pem) {
        Err(_) => None,
        Ok(k) => {
            let p = k.to_public_key();
            Some((p.n().to_bytes_be(), p.e().to_bytes_be()))
        },
    }
}

/// Calls `RsaPrivateKey::from_pkcs8_pem`, then reads `n` and `e` of the
/// key's public half as big-endian bytes.
#[verifier::external_body]
pub(crate) fn pkcs8_public_key_parts(pem: &str) -> (r: Result<(Vec<u8>, Vec<u8>), String>)
    ensures
        match r {
            Err(m) => pkcs8_public_parts(pem@) == Err::<(Seq<u8>, Seq<u8>), Seq<char>>(m@),
            Ok((n, e)) => pkcs8_public_parts(pem@) == Ok::<(Seq<u8>, Seq<u8>), Seq<char>>((n@, e@)),
        },
{
    match rsa::RsaPrivateKey::from_pkcs8_pem(pem) {
        Err(e) => Err(e.to_string()),
        Ok(k) => {
            let p = k.to_public_key();
            Ok((p.n().to_bytes_be(), p.e().to_bytes_be()))
        },
    }
}

/// Calls `RsaPublicKey::new` on the big-endian modulus and exponent; whether
/// it succeeds is stated by `rsa_public_ok`, read off the crate's checks.
#[verifier::external_body]
pub(crate) fn rsa_public_key_check(n: &[u8], e: &[u8]) -> (r: Result<(), rsa::Error>)
    ensures
        r is Ok <==> rsa_public_ok(n@, e@),
{
    match rsa::RsaPublicKey::new(rsa::BigUint::from_bytes_be(n), rsa::BigUint::from_bytes_be(e)) {
        Ok(_) => Ok(()),
        Err(err) => Err(err),
    }
}

/// Calls `EncodePublicKey::to_public_key_pem(LF)` on the public key with
/// modulus `n` and exponent `e` (built with `RsaPublicKey::new_unchecked`,
/// the same key that `RsaPublicKey::new` returns once its checks passed).
#[verifier::external_body]
pub(crate) fn rsa_public_key_pem(n: &[u8], e: &[u8]) -> (r: Result<String, String>)
    ensures
        match r {
            Ok(p) => spki_public_pem(n@, e@) == Ok::<Seq<char>, Seq<char>>(p@),
            Err(m) => spki_public_pem(n@, e@) == Err::<Seq<char>, Seq<char>>(m@),
        },
{
    let key = rsa::RsaPublicKey::new_unchecked(
        rsa::BigUint::from_bytes_be(n),
        rsa::BigUint::from_bytes_be(e),
    );
    match key.to_public_key_pem(rsa::pkcs8::LineEnding::LF) {
        Ok(p) => Ok(p),
        Err(err) => Err(err.to_string()),
    }
}

} // verus!

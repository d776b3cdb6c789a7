//! ES512 signatures: the curve check, SHA-512 and ECDSA over P-521, and the
//! fixed-width `R || S` form that JOSE asks for (RFC 7518, section 3.4).
use crate::base64url::{base64_encode, encode, encoded_len, lemma_encode_shape};
use crate::error::JwsError;
use openssl::ec::EcKey;
use openssl::ecdsa::EcdsaSig;
use openssl::error::ErrorStack;
use openssl::hash::MessageDigest;
use openssl::pkey::Private;
use vstd::prelude::*;

verus! {

/// The width of each of the two scalars of a P-521 signature, in bytes.
pub const SCALAR_LEN: usize = 66;

/// The width of an ES512 signature, in bytes.
pub const SIGNATURE_LEN: usize = 132;

/// OpenSSL's numeric identifier of the curve secp521r1 (P-521).
pub const SECP521R1_NID: i32 = 716;

/// `n` zero bytes.
pub open spec fn zeros(n: nat) -> Seq<u8> {
    Seq::new(n, |i: int| 0u8)
}

/// The big-endian magnitude `x`, left-padded with zeros to 66 bytes.
pub open spec fn padded(x: Seq<u8>) -> Seq<u8> {
    zeros((SCALAR_LEN - x.len()) as nat) + x
}

/// The 132-byte signature made of the scalars `r` and `s`.
pub open spec fn fixed_width(r: Seq<u8>, s: Seq<u8>) -> Seq<u8> {
    padded(r) + padded(s)
}

/// Both scalars fit in 66 bytes.
pub open spec fn scalars_fit(r: Seq<u8>, s: Seq<u8>) -> bool {
    r.len() <= SCALAR_LEN && s.len() <= SCALAR_LEN
}

/// The curve named `curve` is P-521, or the call fails with `CurveMismatch`.
pub fn check_curve(curve: Option<i32>) -> (r: Result<(), JwsError>)
    ensures
        r is Ok <==> curve == Some(SECP521R1_NID),
        r is Err ==> r == Err::<(), JwsError>(JwsError::CurveMismatch),
{
    match curve {
        Some(nid) if nid == SECP521R1_NID => Ok(()),
        _ => Err(JwsError::CurveMismatch),
    }
}

/// Appends `x` to `out`, left-padded with zeros to 66 bytes.
fn push_padded(out: &mut Vec<u8>, x: &[u8])
    requires
        x@.len() <= SCALAR_LEN,
    ensures
        final(out)@ == old(out)@ + padded(x@),
{
    let pad: usize = SCALAR_LEN - x.len();
    let ghost start = out@;
    let mut i: usize = 0;
    while i < pad
        invariant
            i <= pad,
            pad == SCALAR_LEN - x@.len(),
            out@ == start + zeros(i as nat),
        decreases pad - i,
    {
        out.push(0u8);
        i = i + 1;
        assert(out@ =~= start + zeros(i as nat));
    }
    let mut j: usize = 0;
    while j < x.len()
        invariant
            j <= x@.len(),
            out@ == start + zeros(pad as nat) + x@.subrange(0, j as int),
        decreases x@.len() - j,
    {
        out.push(x[j]);
        j = j + 1;
        assert(out@ =~= start + zeros(pad as nat) + x@.subrange(0, j as int));
    }
    assert(x@.subrange(0, x@.len() as int) =~= x@);
    assert(out@ =~= start + padded(x@));
}

/// Joins the scalars `r` and `s` of a P-521 signature, each a big-endian
/// magnitude, into the fixed 132-byte form; fails with `OversizedScalar` where
/// one of them is longer than 66 bytes.
pub fn fixed_width_signature(r: &[u8], s: &[u8]) -> (res: Result<Vec<u8>, JwsError>)
    ensures
        res is Ok <==> scalars_fit(r@, s@),
        res is Ok ==> res->Ok_0@ == fixed_width(r@, s@),
        res is Ok ==> res->Ok_0@.len() == SIGNATURE_LEN,
        res is Err ==> res->Err_0 == JwsError::OversizedScalar,
{
    if r.len() > SCALAR_LEN || s.len() > SCALAR_LEN {
        return Err(JwsError::OversizedScalar);
    }
    let mut out: Vec<u8> = Vec::new();
    push_padded(&mut out, r);
    push_padded(&mut out, s);
    assert(out@ =~= fixed_width(r@, s@));
    Ok(out)
}

/// The base64url text of the fixed-width signature made of `r` and `s`.
pub fn encode_signature(r: &[u8], s: &[u8]) -> (res: Result<String, JwsError>)
    ensures
        res is Ok <==> scalars_fit(r@, s@),
        res is Ok ==> res->Ok_0@ == encode(fixed_width(r@, s@)),
        res is Ok ==> res->Ok_0@.len() == encoded_len(SIGNATURE_LEN as nat),
        res is Err ==> res->Err_0 == JwsError::OversizedScalar,
{
    match fixed_width_signature(r, s) {
        Ok(bytes) => {
            let text = base64_encode(bytes.as_slice());
            proof {
                lemma_encode_shape(bytes@);
            }
            Ok(text)
        },
        Err(e) => Err(e),
    }
}

/// `t` is the base64url text of a fixed-width signature whose scalars fit.
pub open spec fn is_signature_text(t: Seq<char>) -> bool {
    exists|r: Seq<u8>, s: Seq<u8>| scalars_fit(r, s) && t == encode(fixed_width(r, s))
}

/// Before its base64url encoding, every signature text is exactly 132 bytes.
pub proof fn law_signature_is_132_bytes(t: Seq<char>)
    requires
        is_signature_text(t),
    ensures
        exists|raw: Seq<u8>| raw.len() == SIGNATURE_LEN && t == encode(raw),
{
    let (r, s) = choose|r: Seq<u8>, s: Seq<u8>| scalars_fit(r, s) && t == encode(fixed_width(r, s));
    assert(fixed_width(r, s).len() == SIGNATURE_LEN);
}

/// The SHA-512 digest of `data`.
pub uninterp spec fn sha512_of(data: Seq<u8>) -> Seq<u8>;

/// Relies on EcKeyRef::group and EcGroupRef::curve_name: OpenSSL's numeric
/// identifier of the key's curve, where the curve has a name.
#[verifier::external_body]
fn curve_of(key: &EcKey<Private>) -> (r: Option<i32>) {
    key.group().curve_name().map(|nid| nid.as_raw())
}

/// Relies on openssl::hash::hash with MessageDigest::sha512: the SHA-512
/// digest of `data`, 64 bytes long.
#[verifier::external_body]
fn sha512(data: &[u8]) -> (r: Result<Vec<u8>, ErrorStack>)
    ensures
        r is Ok ==> r->Ok_0@ == sha512_of(data@),
        r is Ok ==> r->Ok_0@.len() == 64,
{
    openssl::hash::hash(MessageDigest::sha512(), data).map(|d| d.to_vec())
}

/// Relies on EcdsaSig::sign, which signs an already hashed `digest` with a
/// fresh nonce (it asserts that the digest fits in a C `int`), and on
/// BigNumRef::to_vec, which gives each scalar as a big-endian magnitude.
#[verifier::external_body]
fn ecdsa_sign(digest: &[u8], key: &EcKey<Private>) -> (r: Result<(Vec<u8>, Vec<u8>), ErrorStack>)
    requires
        digest@.len() <= i32::MAX,
{
    EcdsaSig::sign(digest, key).map(|sig| (sig.r().to_vec(), sig.s().to_vec()))
}

/// Signs `payload` with ES512 and returns the base64url text of the 132-byte
/// signature. A key on a curve other than P-521 is refused with
/// `CurveMismatch` before any cryptographic work.
pub fn sign_es512(payload: &[u8], pkey: EcKey<Private>) -> (r: Result<String, JwsError>)
    ensures
        r is Ok ==> is_signature_text(r->Ok_0@),
        r is Ok ==> r->Ok_0@.len() == encoded_len(SIGNATURE_LEN as nat),
        r is Err ==> r->Err_0 == JwsError::CurveMismatch || r->Err_0 == JwsError::SigningFailure
            || r->Err_0 == JwsError::OversizedScalar,
{
    if let Err(e) = check_curve(curve_of(&pkey)) {
        return Err(e);
    }
    let digest = match sha512(payload) {
        Ok(d) => d,
        Err(_) => return Err(JwsError::SigningFailure),
    };
    let (r, s) = match ecdsa_sign(digest.as_slice(), &pkey) {
        Ok(scalars) => scalars,
        Err(_) => return Err(JwsError::SigningFailure),
    };
    let res = encode_signature(r.as_slice(), s.as_slice());
    assert(res is Ok ==> is_signature_text(res->Ok_0@));
    res
}

} // verus!

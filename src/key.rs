//! Elliptic-curve private keys, loaded from PEM text through OpenSSL.
use crate::error::JwsError;
use openssl::ec::EcKey;
use openssl::error::ErrorStack;
use openssl::pkey::{PKey, Private};
use vstd::prelude::*;

verus! {

#[verifier::external_type_specification]
#[verifier::external_body]
#[verifier::reject_recursive_types(T)]
pub struct ExEcKey<T>(EcKey<T>);

#[verifier::external_type_specification]
#[verifier::external_body]
#[verifier::reject_recursive_types(T)]
pub struct ExPKey<T>(PKey<T>);

#[verifier::external_type_specification]
#[verifier::external_body]
pub struct ExPrivate(Private);

#[verifier::external_type_specification]
#[verifier::external_body]
pub struct ExErrorStack(ErrorStack);

/// Relies on PKey::private_key_from_pem, which decodes a PEM private key of any
/// type; it asserts that the text fits in a C `int`.
#[verifier::external_body]
fn pem_private_key(pem: &[u8]) -> (r: Result<PKey<Private>, ErrorStack>)
    requires
        pem@.len() <= i32::MAX,
{
    PKey::private_key_from_pem(pem)
}

/// Relies on PKeyRef::ec_key, which hands out the elliptic-curve key inside a
/// private key, and fails where it holds a key of another type.
#[verifier::external_body]
fn ec_key_of(key: &PKey<Private>) -> (r: Result<EcKey<Private>, ErrorStack>) {
    key.ec_key()
}

/// Relies on EcKeyRef::check_key, OpenSSL's consistency check of a key: the
/// public point lies on the curve and matches the private scalar.
#[verifier::external_body]
fn check_ec_key(key: &EcKey<Private>) -> (r: Result<(), ErrorStack>) {
    key.check_key()
}

/// The outcome of loading a key, from the outcomes of its three steps: the
/// first step that failed gives its own error.
pub open spec fn key_outcome(parsed: bool, is_ec: bool, checked: bool) -> Result<(), JwsError> {
    if !parsed {
        Err(JwsError::KeyFormatError)
    } else if !is_ec {
        Err(JwsError::NotEllipticCurveKey)
    } else if !checked {
        Err(JwsError::KeyVerificationError)
    } else {
        Ok(())
    }
}

/// Whether the PEM text parsed, whether it held an elliptic-curve key, and
/// whether that key passed its check decide the result of loading it.
pub fn key_error(parsed: bool, is_ec: bool, checked: bool) -> (r: Result<(), JwsError>)
    ensures
        r == key_outcome(parsed, is_ec, checked),
{
    if !parsed {
        Err(JwsError::KeyFormatError)
    } else if !is_ec {
        Err(JwsError::NotEllipticCurveKey)
    } else if !checked {
        Err(JwsError::KeyVerificationError)
    } else {
        Ok(())
    }
}

/// Decodes a PEM private key, which must be an elliptic-curve key that passes
/// its consistency check. The first step that fails gives its own error.
pub fn parse_private_key(pem: &[u8]) -> (r: Result<EcKey<Private>, JwsError>)
    requires
        pem@.len() <= i32::MAX,
    ensures
        r is Err ==> exists|parsed: bool, is_ec: bool, checked: bool|
            key_outcome(parsed, is_ec, checked) == Err::<(), JwsError>(r->Err_0),
{
    let key = match pem_private_key(pem) {
        Ok(k) => k,
        Err(_) => return Err(key_error(false, false, false).unwrap_err()),
    };
    let ec_key = match ec_key_of(&key) {
        Ok(k) => k,
        Err(_) => return Err(key_error(true, false, false).unwrap_err()),
    };
    let checked = check_ec_key(&ec_key).is_ok();
    match key_error(true, true, checked) {
        Ok(()) => Ok(ec_key),
        Err(e) => Err(e),
    }
}

} // verus!

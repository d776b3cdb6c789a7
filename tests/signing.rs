use detached_jws::signature::{SCALAR_LEN, SECP521R1_NID, SIGNATURE_LEN};
use detached_jws::JwsError;
use detached_jws::JwsHeader;
use detached_jws::{check_curve, encode_signature, fixed_width_signature};
use detached_jws::key::key_error;
use detached_jws::{get_jws, parse_private_key, sign_detached, sign_es512};
use openssl::bn::BigNum;
use openssl::ec::{EcGroup, EcKey};
use openssl::ecdsa::EcdsaSig;
use openssl::hash::MessageDigest;
use openssl::nid::Nid;
use openssl::pkey::{PKey, Private};
use openssl::rsa::Rsa;

const KID: &str = "11111111-1111-1111-1111-111111111111";
const HEADER_SEGMENT: &str =
    "eyJhbGciOiJFUzUxMiIsImtpZCI6IjExMTExMTExLTExMTEtMTExMS0xMTExLTExMTExMTExMTExMSJ9";

fn key_on(nid: Nid) -> EcKey<Private> {
    let group = EcGroup::from_curve_name(nid).unwrap();
    EcKey::generate(&group).unwrap()
}

fn decode(text: &str) -> Vec<u8> {
    base64::decode_config(text, base64::URL_SAFE_NO_PAD).unwrap()
}

/// Standard ES512 verification of `signature` over `input`.
fn verifies(key: &EcKey<Private>, input: &[u8], signature: &str) -> bool {
    let raw = decode(signature);
    assert_eq!(raw.len(), 132);
    let r = BigNum::from_slice(&raw[..66]).unwrap();
    let s = BigNum::from_slice(&raw[66..]).unwrap();
    let sig = EcdsaSig::from_private_components(r, s).unwrap();
    let digest = openssl::hash::hash(MessageDigest::sha512(), input).unwrap();
    let public = EcKey::from_public_key(key.group(), key.public_key()).unwrap();
    sig.verify(&digest, &public).unwrap()
}

fn example_header() -> JwsHeader {
    JwsHeader { kid: KID.to_string() }
}

#[test]
fn curve_identifier_is_openssl_secp521r1() {
    assert_eq!(Nid::SECP521R1.as_raw(), SECP521R1_NID);
}

#[test]
fn check_curve_accepts_only_p521() {
    assert_eq!(check_curve(Some(SECP521R1_NID)), Ok(()));
    assert_eq!(check_curve(Some(Nid::X9_62_PRIME256V1.as_raw())), Err(JwsError::CurveMismatch));
    assert_eq!(check_curve(None), Err(JwsError::CurveMismatch));
}

#[test]
fn fixed_width_at_boundary_lengths() {
    for len in [0usize, 1, 65, 66] {
        let r = vec![0xabu8; len];
        let s = vec![0x01u8; len];
        let out = fixed_width_signature(&r, &s).unwrap();
        assert_eq!(out.len(), SIGNATURE_LEN);
        assert!(out[..SCALAR_LEN - len].iter().all(|b| *b == 0));
        assert_eq!(&out[SCALAR_LEN - len..SCALAR_LEN], &r[..]);
        assert!(out[SCALAR_LEN..2 * SCALAR_LEN - len].iter().all(|b| *b == 0));
        assert_eq!(&out[2 * SCALAR_LEN - len..], &s[..]);
    }
}

#[test]
fn fixed_width_pads_each_scalar_on_its_own() {
    let out = fixed_width_signature(&[7], &[1, 2]).unwrap();
    let mut expected = vec![0u8; 132];
    expected[65] = 7;
    expected[130] = 1;
    expected[131] = 2;
    assert_eq!(out, expected);
}

#[test]
fn oversized_scalar_is_refused() {
    assert_eq!(fixed_width_signature(&[1u8; 67], &[1u8; 66]), Err(JwsError::OversizedScalar));
    assert_eq!(fixed_width_signature(&[1u8; 66], &[1u8; 67]), Err(JwsError::OversizedScalar));
    assert_eq!(encode_signature(&[1u8; 67], &[]), Err(JwsError::OversizedScalar));
}

#[test]
fn encoded_signature_is_176_characters() {
    let text = encode_signature(&[1u8; 66], &[2u8; 3]).unwrap();
    assert_eq!(text.len(), 176);
    let raw = decode(&text);
    assert_eq!(raw.len(), 132);
    assert_eq!(&raw[..66], &[1u8; 66][..]);
    assert_eq!(&raw[129..], &[2u8; 3][..]);
}

#[test]
fn es512_signature_verifies() {
    let key = key_on(Nid::SECP521R1);
    for payload in [&b""[..], b"hello", b"{\"amount\":100}"] {
        let sig = sign_es512(payload, key.clone()).unwrap();
        assert_eq!(decode(&sig).len(), 132);
        assert!(verifies(&key, payload, &sig));
    }
}

#[test]
fn signing_twice_gives_two_valid_signatures() {
    let key = key_on(Nid::SECP521R1);
    let first = sign_es512(b"same input", key.clone()).unwrap();
    let second = sign_es512(b"same input", key.clone()).unwrap();
    assert!(verifies(&key, b"same input", &first));
    assert!(verifies(&key, b"same input", &second));
}

#[test]
fn other_curve_is_refused() {
    let key = key_on(Nid::X9_62_PRIME256V1);
    assert_eq!(sign_es512(b"hello", key.clone()), Err(JwsError::CurveMismatch));
    assert_eq!(sign_detached(&example_header(), b"hello", key), Err(JwsError::CurveMismatch));
}

#[test]
fn compact_jws_of_the_example() {
    let key = key_on(Nid::SECP521R1);
    let jws = get_jws(&example_header(), b"hello", key.clone()).unwrap();
    let parts: Vec<&str> = jws.split('.').collect();
    assert_eq!(parts.len(), 3);
    assert_eq!(parts[0], HEADER_SEGMENT);
    assert_eq!(parts[1], "aGVsbG8");
    let input = format!("{}.{}", parts[0], parts[1]);
    assert!(verifies(&key, input.as_bytes(), parts[2]));
}

#[test]
fn detached_jws_of_the_example() {
    let key = key_on(Nid::SECP521R1);
    let detached = sign_detached(&example_header(), b"hello", key.clone()).unwrap();
    let (header, signature) = detached.split_once("..").unwrap();
    assert_eq!(header, HEADER_SEGMENT);
    assert!(!signature.is_empty() && !signature.contains('.'));
    let input = format!("{}.{}", HEADER_SEGMENT, "aGVsbG8");
    assert!(verifies(&key, input.as_bytes(), signature));
}

#[test]
fn detached_jws_with_empty_payload() {
    let key = key_on(Nid::SECP521R1);
    let detached = sign_detached(&example_header(), b"", key.clone()).unwrap();
    let (header, signature) = detached.split_once("..").unwrap();
    assert_eq!(header, HEADER_SEGMENT);
    assert_eq!(signature.len(), 176);
    let input = format!("{}.", HEADER_SEGMENT);
    assert!(verifies(&key, input.as_bytes(), signature));
}

#[test]
fn parse_accepts_an_ec_pem_key() {
    let key = key_on(Nid::SECP521R1);
    let pem = key.private_key_to_pem().unwrap();
    let parsed = parse_private_key(&pem).unwrap();
    assert_eq!(parsed.private_key_to_pem().unwrap(), pem);
}

#[test]
fn parse_refuses_text_that_is_not_pem() {
    assert_eq!(parse_private_key(b"not a key").err(), Some(JwsError::KeyFormatError));
}

#[test]
fn parse_refuses_a_key_that_is_not_ec() {
    let rsa = PKey::from_rsa(Rsa::generate(2048).unwrap()).unwrap();
    let pem = rsa.private_key_to_pem_pkcs8().unwrap();
    assert_eq!(parse_private_key(&pem).err(), Some(JwsError::NotEllipticCurveKey));
}

#[test]
fn error_messages_are_distinct() {
    let all = [
        JwsError::KeyFormatError,
        JwsError::NotEllipticCurveKey,
        JwsError::KeyVerificationError,
        JwsError::CurveMismatch,
        JwsError::OversizedScalar,
        JwsError::SerializationError,
        JwsError::SigningFailure,
    ];
    for (i, a) in all.iter().enumerate() {
        for b in &all[i + 1..] {
            assert_ne!(a.message(), b.message());
        }
    }
}

#[test]
fn key_error_names_the_first_failing_step() {
    assert_eq!(key_error(false, true, true), Err(JwsError::KeyFormatError));
    assert_eq!(key_error(false, false, false), Err(JwsError::KeyFormatError));
    assert_eq!(key_error(true, false, true), Err(JwsError::NotEllipticCurveKey));
    assert_eq!(key_error(true, true, false), Err(JwsError::KeyVerificationError));
    assert_eq!(key_error(true, true, true), Ok(()));
}

//! Detached JSON Web Signatures (RFC 7515) with the ES512 algorithm:
//! ECDSA over curve P-521 with SHA-512.
pub mod base64url;
pub mod error;
pub mod jws;
pub mod key;
pub mod signature;

pub use base64url::base64_encode;
pub use error::JwsError;
pub use jws::{detach_payload, get_jws, sign_detached, signing_input, JwsHeader};
pub use key::parse_private_key;
pub use signature::{check_curve, encode_signature, fixed_width_signature, sign_es512};

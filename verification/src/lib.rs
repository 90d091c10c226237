//! Verified decision logic for signing with RSA keys held by legacy CryptoAPI
//! cryptographic service providers (CSPs).
//!
//! The library never talks to the provider itself: it chooses the hash
//! algorithm for a digest, checks that a key is an RSA key of the expected
//! kind, encodes PINs, orders the CryptoAPI calls of a signing operation and
//! turns the provider's output into a conventional big-endian signature.
//! The caller performs each CryptoAPI call that the library asks for and
//! hands back what it returned.

pub mod algorithm;
pub mod error;
pub mod ids;
pub mod key;
pub mod pin;
pub mod sign;

pub use algorithm::{hash_algorithm, is_rsa_algorithm, pin_parameter};
pub use error::CngError;
pub use key::{check_key_algorithm, LegacyCspKey, PinRequest};
pub use pin::{is_encodable_pin, pin_bytes, wipe};
pub use sign::{signature_from_provider, SignCall, SignReply, SignSession, SignStage, SignStep};

//! Which CryptoAPI algorithms and parameters belong to which inputs.

use vstd::prelude::*;

use crate::ids::{
    AT_KEYEXCHANGE, AT_SIGNATURE, CALG_RSA_KEYX, CALG_RSA_SIGN, CALG_SHA_256, CALG_SHA_384,
    CALG_SHA_512, PP_KEYEXCHANGE_PIN, PP_SIGNATURE_PIN,
};

verus! {

/// The hash algorithm whose digests are `digest_len` bytes long: SHA-256,
/// SHA-384 or SHA-512, and no other.
pub open spec fn hash_algorithm_for(digest_len: int) -> Option<u32> {
    if digest_len == 32 {
        Some(CALG_SHA_256)
    } else if digest_len == 48 {
        Some(CALG_SHA_384)
    } else if digest_len == 64 {
        Some(CALG_SHA_512)
    } else {
        None
    }
}

/// The RSA algorithm that a key of the given key specification must have,
/// for the two key specifications that hold RSA keys.
pub open spec fn rsa_algorithm_for(key_spec: u32) -> Option<u32> {
    if key_spec == AT_SIGNATURE {
        Some(CALG_RSA_SIGN)
    } else if key_spec == AT_KEYEXCHANGE {
        Some(CALG_RSA_KEYX)
    } else {
        None
    }
}

/// Whether `algorithm` is the RSA algorithm of a key with this key specification.
pub open spec fn is_rsa_key(key_spec: u32, algorithm: u32) -> bool {
    rsa_algorithm_for(key_spec) == Some(algorithm)
}

/// The provider parameter that sets the PIN of keys with this key specification.
pub open spec fn pin_parameter_for(key_spec: u32) -> Option<u32> {
    if key_spec == AT_SIGNATURE {
        Some(PP_SIGNATURE_PIN)
    } else if key_spec == AT_KEYEXCHANGE {
        Some(PP_KEYEXCHANGE_PIN)
    } else {
        None
    }
}

/// Selects the CryptoAPI hash algorithm for a digest of `digest_len` bytes.
/// Only SHA-256, SHA-384 and SHA-512 digests are supported.
pub fn hash_algorithm(digest_len: usize) -> (algorithm: Option<u32>)
    ensures
        algorithm == hash_algorithm_for(digest_len as int),
        digest_len == 32 ==> algorithm == Some(CALG_SHA_256),
        digest_len == 48 ==> algorithm == Some(CALG_SHA_384),
        digest_len == 64 ==> algorithm == Some(CALG_SHA_512),
        algorithm is None <==> !(digest_len == 32 || digest_len == 48 || digest_len == 64),
{
    match digest_len {
        32 => Some(CALG_SHA_256),
        48 => Some(CALG_SHA_384),
        64 => Some(CALG_SHA_512),
        _ => None,
    }
}

/// Whether a key with key specification `key_spec` and algorithm identifier
/// `algorithm` is an RSA key of that specification: a signature key must be
/// `CALG_RSA_SIGN`, a key-exchange key `CALG_RSA_KEYX`; any other key
/// specification is refused.
pub fn is_rsa_algorithm(key_spec: u32, algorithm: u32) -> (accepted: bool)
    ensures
        accepted == is_rsa_key(key_spec, algorithm),
        accepted <==> (key_spec == AT_SIGNATURE && algorithm == CALG_RSA_SIGN) || (key_spec
            == AT_KEYEXCHANGE && algorithm == CALG_RSA_KEYX),
{
    match key_spec {
        AT_SIGNATURE => algorithm == CALG_RSA_SIGN,
        AT_KEYEXCHANGE => algorithm == CALG_RSA_KEYX,
        _ => false,
    }
}

/// The provider parameter through which the PIN of keys with this key
/// specification is set, or `None` for a key specification without one.
pub fn pin_parameter(key_spec: u32) -> (parameter: Option<u32>)
    ensures
        parameter == pin_parameter_for(key_spec),
        key_spec == AT_SIGNATURE ==> parameter == Some(PP_SIGNATURE_PIN),
        key_spec == AT_KEYEXCHANGE ==> parameter == Some(PP_KEYEXCHANGE_PIN),
        parameter is None <==> !(key_spec == AT_SIGNATURE || key_spec == AT_KEYEXCHANGE),
{
    match key_spec {
        AT_SIGNATURE => Some(PP_SIGNATURE_PIN),
        AT_KEYEXCHANGE => Some(PP_KEYEXCHANGE_PIN),
        _ => None,
    }
}

/// Different supported digest lengths select different hash algorithms, and
/// every selected algorithm is one of the three SHA-2 algorithms.
pub proof fn lemma_hash_algorithm_injective(len1: int, len2: int)
    requires
        hash_algorithm_for(len1) is Some,
        hash_algorithm_for(len1) == hash_algorithm_for(len2),
    ensures
        len1 == len2,
{
}

/// A key specification admits exactly one RSA algorithm, and only the two
/// key specifications with a PIN parameter admit any.
pub proof fn lemma_rsa_algorithm_unique(key_spec: u32, a1: u32, a2: u32)
    requires
        is_rsa_key(key_spec, a1),
        is_rsa_key(key_spec, a2),
    ensures
        a1 == a2,
        pin_parameter_for(key_spec) is Some,
{
}

/// Exactly the digests of SHA-256, SHA-384 and SHA-512 have a hash
/// algorithm, and each gets its own: 32 bytes SHA-256, 48 bytes SHA-384,
/// 64 bytes SHA-512.
pub proof fn lemma_hash_algorithm_by_length(digest_len: int)
    ensures
        digest_len == 32 <==> hash_algorithm_for(digest_len) == Some(CALG_SHA_256),
        digest_len == 48 <==> hash_algorithm_for(digest_len) == Some(CALG_SHA_384),
        digest_len == 64 <==> hash_algorithm_for(digest_len) == Some(CALG_SHA_512),
        hash_algorithm_for(digest_len) is None <==> !(digest_len == 32 || digest_len == 48
            || digest_len == 64),
{
}

/// Only RSA keys are accepted: a signature key must be `CALG_RSA_SIGN` and a
/// key-exchange key `CALG_RSA_KEYX`; any other algorithm (DSS, ECDSA, ...)
/// and any other key specification is refused.
pub proof fn lemma_only_rsa_keys_accepted(key_spec: u32, algorithm: u32)
    ensures
        is_rsa_key(key_spec, algorithm) <==> (key_spec == AT_SIGNATURE && algorithm
            == CALG_RSA_SIGN) || (key_spec == AT_KEYEXCHANGE && algorithm == CALG_RSA_KEYX),
{
}

/// A signature key's PIN is set through `PP_SIGNATURE_PIN`, a key-exchange
/// key's through `PP_KEYEXCHANGE_PIN`, and no other key specification has one.
pub proof fn lemma_pin_parameter_by_key_spec(key_spec: u32)
    ensures
        key_spec == AT_SIGNATURE <==> pin_parameter_for(key_spec) == Some(PP_SIGNATURE_PIN),
        key_spec == AT_KEYEXCHANGE <==> pin_parameter_for(key_spec) == Some(PP_KEYEXCHANGE_PIN),
        pin_parameter_for(key_spec) is None <==> !(key_spec == AT_SIGNATURE || key_spec
            == AT_KEYEXCHANGE),
{
}

} // verus!

//! CryptoAPI identifiers used by legacy CSP signing, with the values that
//! `wincrypt.h` (and the `windows-sys` bindings of it) give them.

use vstd::prelude::*;

verus! {

/// Key specification of a key-exchange key pair (`AT_KEYEXCHANGE`).
pub const AT_KEYEXCHANGE: u32 = 1;

/// Key specification of a signature key pair (`AT_SIGNATURE`).
pub const AT_SIGNATURE: u32 = 2;

/// Algorithm identifier of SHA-256 (`CALG_SHA_256`).
pub const CALG_SHA_256: u32 = 0x800c;

/// Algorithm identifier of SHA-384 (`CALG_SHA_384`).
pub const CALG_SHA_384: u32 = 0x800d;

/// Algorithm identifier of SHA-512 (`CALG_SHA_512`).
pub const CALG_SHA_512: u32 = 0x800e;

/// Algorithm identifier of an RSA signature key (`CALG_RSA_SIGN`).
pub const CALG_RSA_SIGN: u32 = 0x2400;

/// Algorithm identifier of an RSA key-exchange key (`CALG_RSA_KEYX`).
pub const CALG_RSA_KEYX: u32 = 0xa400;

/// Algorithm identifier of a DSS signature key (`CALG_DSS_SIGN`).
pub const CALG_DSS_SIGN: u32 = 0x2200;

/// Provider parameter that sets the PIN of the key-exchange key (`PP_KEYEXCHANGE_PIN`).
pub const PP_KEYEXCHANGE_PIN: u32 = 32;

/// Provider parameter that sets the PIN of the signature key (`PP_SIGNATURE_PIN`).
pub const PP_SIGNATURE_PIN: u32 = 33;

/// Hash parameter that sets the hash value directly (`HP_HASHVAL`).
pub const HP_HASHVAL: u32 = 2;

/// Key parameter that reads the key's algorithm identifier (`KP_ALGID`).
pub const KP_ALGID: u32 = 7;

} // verus!

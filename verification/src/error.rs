//! Errors of legacy CSP operations.

use vstd::prelude::*;

verus! {

/// Why a legacy CSP operation failed.
#[derive(Debug, Clone, Copy, PartialEq, Eq, Structural)]
pub enum CngError {
    /// The digest is not a SHA-256, SHA-384 or SHA-512 digest.
    InvalidHashLength,
    /// The PIN is not ASCII text, or holds a NUL character.
    InvalidPinEncoding,
    /// The provider's key is not an RSA key of a supported key specification.
    UnsupportedKeyProvider,
    /// A CryptoAPI call failed with this Win32 error code.
    WindowsError(u32),
}

} // verus!

//! The legacy CSP key handle and the decisions made about it.

use vstd::prelude::*;
use vstd::string::*;

use crate::algorithm::{is_rsa_algorithm, is_rsa_key, pin_parameter, pin_parameter_for};
use crate::error::CngError;
use crate::ids::{AT_KEYEXCHANGE, AT_SIGNATURE, CALG_RSA_KEYX, CALG_RSA_SIGN, PP_KEYEXCHANGE_PIN, PP_SIGNATURE_PIN};
use crate::pin::{is_encodable_pin, nul_terminated, pin_bytes, pin_encodable, wipe};

verus! {

/// A legacy CryptoAPI provider handle (`HCRYPTPROV`) together with the key
/// specification of the key it signs with.
#[derive(Debug, Clone, Copy)]
pub struct LegacyCspKey {
    handle: usize,
    key_spec: u32,
    caller_free: bool,
}

/// What a key-validation call sequence reports: the algorithm identifier read
/// from the provider's key, or the Win32 error code of the call that failed.
pub open spec fn key_check_result(key_spec: u32, key_algorithm: Result<u32, u32>) -> Result<(), CngError> {
    match key_algorithm {
        Err(code) => Err(CngError::WindowsError(code)),
        Ok(algorithm) => if is_rsa_key(key_spec, algorithm) {
            Ok(())
        } else {
            Err(CngError::UnsupportedKeyProvider)
        },
    }
}

/// Decides the outcome of validating a key of specification `key_spec` from
/// the result of reading the key's algorithm identifier.
pub fn check_key_algorithm(key_spec: u32, key_algorithm: Result<u32, u32>) -> (r: Result<(), CngError>)
    ensures
        r == key_check_result(key_spec, key_algorithm),
        key_algorithm matches Err(code) ==> r == Err::<(), CngError>(CngError::WindowsError(code)),
        key_algorithm matches Ok(algorithm) ==> (r is Ok <==> (key_spec == AT_SIGNATURE && algorithm
            == CALG_RSA_SIGN) || (key_spec == AT_KEYEXCHANGE && algorithm == CALG_RSA_KEYX)),
        key_algorithm is Ok && r is Err ==> r == Err::<(), CngError>(CngError::UnsupportedKeyProvider),
{
    match key_algorithm {
        Err(code) => Err(CngError::WindowsError(code)),
        Ok(algorithm) => if is_rsa_algorithm(key_spec, algorithm) {
            Ok(())
        } else {
            Err(CngError::UnsupportedKeyProvider)
        },
    }
}

impl LegacyCspKey {
    /// The provider handle.
    pub closed spec fn handle_of(&self) -> usize {
        self.handle
    }

    /// The CryptoAPI key specification (`AT_SIGNATURE` or `AT_KEYEXCHANGE`).
    pub closed spec fn key_spec_of(&self) -> u32 {
        self.key_spec
    }

    /// Whether the holder of the handle must release it.
    pub closed spec fn caller_free_of(&self) -> bool {
        self.caller_free
    }

    /// Describes a provider handle that signs with the key of specification
    /// `key_spec`; `caller_free` says whether the handle must be released
    /// when the key is dropped.
    pub fn new(handle: usize, key_spec: u32, caller_free: bool) -> (key: Self)
        ensures
            key.handle_of() == handle,
            key.key_spec_of() == key_spec,
            key.caller_free_of() == caller_free,
    {
        LegacyCspKey { handle, key_spec, caller_free }
    }

    /// The provider handle.
    pub fn handle(&self) -> (handle: usize)
        ensures
            handle == self.handle_of(),
    {
        self.handle
    }

    /// Returns the CryptoAPI key specification for this provider handle.
    pub fn key_spec(&self) -> (key_spec: u32)
        ensures
            key_spec == self.key_spec_of(),
    {
        self.key_spec
    }

    /// Whether the provider handle must be released when the key is dropped.
    pub fn caller_free(&self) -> (caller_free: bool)
        ensures
            caller_free == self.caller_free_of(),
    {
        self.caller_free
    }

    /// Checks that the provider's key is an RSA key of this key's
    /// specification, given the algorithm identifier read from it
    /// (`CryptGetUserKey`, then `CryptGetKeyParam` with `KP_ALGID`) or the
    /// Win32 error code of the call that failed.
    pub fn validate_rsa_key(&self, key_algorithm: Result<u32, u32>) -> (r: Result<(), CngError>)
        ensures
            r == key_check_result(self.key_spec_of(), key_algorithm),
            key_algorithm matches Err(code) ==> r == Err::<(), CngError>(CngError::WindowsError(code)),
            key_algorithm matches Ok(algorithm) ==> (r is Ok <==> (self.key_spec_of() == AT_SIGNATURE && algorithm
                == CALG_RSA_SIGN) || (self.key_spec_of() == AT_KEYEXCHANGE && algorithm == CALG_RSA_KEYX)),
            key_algorithm is Ok && r is Err ==> r == Err::<(), CngError>(CngError::UnsupportedKeyProvider),
    {
        check_key_algorithm(self.key_spec, key_algorithm)
    }

    /// Prepares setting the provider PIN for the key specification held by
    /// this key: the PIN is encoded as NUL-terminated ASCII and the provider
    /// parameter chosen. Non-ASCII text and embedded NUL bytes are refused
    /// before any call is made, and so is a key specification without a PIN
    /// parameter; no copy of the PIN is made unless the request is returned.
    pub fn prepare_pin(&self, pin: &str) -> (r: Result<PinRequest, CngError>)
        ensures
            r matches Ok(request) ==> {
                &&& pin_encodable(pin)
                &&& pin_parameter_for(self.key_spec_of()) == Some(request.parameter_of())
                &&& request.bytes_of() == nul_terminated(pin)
            },
            r matches Err(e) ==> {
                ||| !pin_encodable(pin) && e == CngError::InvalidPinEncoding
                ||| pin_encodable(pin) && pin_parameter_for(self.key_spec_of()) is None
                    && e == CngError::UnsupportedKeyProvider
            },
            r is Ok <==> pin_encodable(pin) && pin_parameter_for(self.key_spec_of()) is Some,
            r is Ok <==> is_ascii(pin) && !pin.spec_bytes().contains(0u8) && (self.key_spec_of()
                == AT_SIGNATURE || self.key_spec_of() == AT_KEYEXCHANGE),
            r matches Ok(request) ==> request.bytes_of() == pin.spec_bytes().push(0u8),
            r matches Ok(request) ==> (self.key_spec_of() == AT_SIGNATURE ==> request.parameter_of()
                == PP_SIGNATURE_PIN),
            r matches Ok(request) ==> (self.key_spec_of() == AT_KEYEXCHANGE ==> request.parameter_of()
                == PP_KEYEXCHANGE_PIN),
            !(is_ascii(pin) && !pin.spec_bytes().contains(0u8)) ==> (r matches Err(e) && e
                == CngError::InvalidPinEncoding),
    {
        if !is_encodable_pin(pin) {
            return Err(CngError::InvalidPinEncoding);
        }
        let parameter: u32 = match pin_parameter(self.key_spec) {
            Some(parameter) => parameter,
            None => {
                return Err(CngError::UnsupportedKeyProvider);
            },
        };
        match pin_bytes(pin) {
            Some(bytes) => Ok(PinRequest { parameter, bytes }),
            None => Err(CngError::InvalidPinEncoding),
        }
    }
}

/// A PIN ready to be handed to `CryptSetProvParam`: the provider parameter
/// and the NUL-terminated PIN bytes, which `finish` wipes.
pub struct PinRequest {
    parameter: u32,
    bytes: Vec<u8>,
}

/// What a `CryptSetProvParam` outcome makes of setting the PIN.
pub open spec fn pin_set_result(outcome: Result<(), u32>) -> Result<(), CngError> {
    match outcome {
        Ok(()) => Ok(()),
        Err(code) => Err(CngError::WindowsError(code)),
    }
}

impl PinRequest {
    /// The provider parameter to set (`PP_SIGNATURE_PIN` or `PP_KEYEXCHANGE_PIN`).
    pub closed spec fn parameter_of(&self) -> u32 {
        self.parameter
    }

    /// The bytes to pass as the parameter's value.
    pub closed spec fn bytes_of(&self) -> Seq<u8> {
        self.bytes@
    }

    /// The provider parameter to set.
    pub fn parameter(&self) -> (parameter: u32)
        ensures
            parameter == self.parameter_of(),
    {
        self.parameter
    }

    /// The NUL-terminated PIN bytes to pass to the provider.
    pub fn pin_bytes(&self) -> (bytes: &[u8])
        ensures
            bytes@ == self.bytes_of(),
    {
        self.bytes.as_slice()
    }

    /// Completes the request once `CryptSetProvParam` has returned: `outcome`
    /// is `Ok` when the call succeeded, else the Win32 error code read right
    /// after it. The PIN bytes are wiped whatever the outcome.
    pub fn finish(&mut self, outcome: Result<(), u32>) -> (r: Result<(), CngError>)
        ensures
            r == pin_set_result(outcome),
            outcome matches Err(code) ==> r == Err::<(), CngError>(CngError::WindowsError(code)),
            r is Ok <==> outcome is Ok,
            final(self).parameter_of() == old(self).parameter_of(),
            final(self).bytes_of().len() == old(self).bytes_of().len(),
            forall|i: int| 0 <= i < final(self).bytes_of().len() ==> #[trigger] final(self).bytes_of()[i] == 0u8,
    {
        wipe(&mut self.bytes);
        match outcome {
            Ok(()) => Ok(()),
            Err(code) => Err(CngError::WindowsError(code)),
        }
    }
}

/// Key validation fails with the Win32 error code of a failed read, and
/// otherwise succeeds exactly for an RSA key of the key specification:
/// `CALG_RSA_SIGN` for `AT_SIGNATURE`, `CALG_RSA_KEYX` for `AT_KEYEXCHANGE`.
/// Every other key (DSS, ECDSA, another key specification) is refused with
/// `UnsupportedKeyProvider`.
pub proof fn lemma_key_validation(key_spec: u32, key_algorithm: Result<u32, u32>)
    ensures
        key_algorithm matches Err(code) ==> key_check_result(key_spec, key_algorithm) == Err::<
            (),
            CngError,
        >(CngError::WindowsError(code)),
        key_algorithm matches Ok(algorithm) ==> (key_check_result(key_spec, key_algorithm) is Ok
            <==> (key_spec == AT_SIGNATURE && algorithm == CALG_RSA_SIGN) || (key_spec
            == AT_KEYEXCHANGE && algorithm == CALG_RSA_KEYX)),
        key_algorithm is Ok && key_check_result(key_spec, key_algorithm) is Err
            ==> key_check_result(key_spec, key_algorithm) == Err::<(), CngError>(
            CngError::UnsupportedKeyProvider,
        ),
{
}

/// Setting the PIN succeeds exactly when `CryptSetProvParam` succeeded; a
/// failed call, whatever its code, is reported with that code.
pub proof fn lemma_pin_set_outcome(outcome: Result<(), u32>)
    ensures
        pin_set_result(outcome) is Ok <==> outcome is Ok,
        outcome matches Err(code) ==> pin_set_result(outcome) == Err::<(), CngError>(
            CngError::WindowsError(code),
        ),
{
}

} // verus!

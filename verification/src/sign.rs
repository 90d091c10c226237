//! Signing a digest with a legacy CSP key, as a session that asks for one
//! CryptoAPI call at a time and decides from each reply what comes next.
//!
//! The calls come in this order: `CryptGetUserKey`, `CryptGetKeyParam`
//! (`KP_ALGID`), `CryptCreateHash`, `CryptSetHashParam` (`HP_HASHVAL`) and
//! `CryptSignHashW` twice, first for the signature's length and then for the
//! signature itself. The user key may be released once the hash is to be
//! created; the hash once the session is done.

use vstd::prelude::*;

use crate::algorithm::{hash_algorithm, hash_algorithm_for, is_rsa_algorithm, is_rsa_key};
use crate::error::CngError;
use crate::ids::{
    AT_KEYEXCHANGE, AT_SIGNATURE, CALG_RSA_KEYX, CALG_RSA_SIGN, CALG_SHA_256, CALG_SHA_384,
    CALG_SHA_512,
};
use crate::key::LegacyCspKey;

verus! {

/// The CryptoAPI call that a signing session waits for.
#[derive(Debug, Clone, Copy, PartialEq, Eq, Structural)]
pub enum SignCall {
    /// `CryptGetUserKey(provider, key_spec)`; reply `Completed`.
    OpenUserKey { key_spec: u32 },
    /// `CryptGetKeyParam(user_key, KP_ALGID)`; reply `Value` with the algorithm identifier.
    ReadKeyAlgorithm,
    /// `CryptCreateHash(provider, algorithm)`; reply `Completed`.
    CreateHash { algorithm: u32 },
    /// `CryptSetHashParam(hash, HP_HASHVAL, session.digest())`; reply `Completed`.
    SetHashValue,
    /// `CryptSignHashW(hash, key_spec)` without a buffer; reply `Value` with the signature length.
    QuerySignatureLength { key_spec: u32 },
    /// `CryptSignHashW(hash, key_spec)` into a zeroed buffer of `capacity`
    /// bytes; reply `Signature` with the buffer and the length written.
    Sign { key_spec: u32, capacity: u32 },
}

/// What a CryptoAPI call returned.
#[derive(Debug)]
pub enum SignReply {
    /// The call failed; the Win32 error code read right after it.
    Failed(u32),
    /// The call succeeded and produced nothing the session needs.
    Completed,
    /// The call succeeded and wrote this value.
    Value(u32),
    /// `CryptSignHashW` filled `buffer` and reported `length` bytes written.
    Signature { buffer: Vec<u8>, length: u32 },
}

/// Where a signing session stands.
#[derive(Debug, Clone, Copy, PartialEq, Eq, Structural)]
pub enum SignStage {
    OpenUserKey,
    ReadKeyAlgorithm,
    CreateHash,
    SetHashValue,
    QuerySignatureLength,
    Sign { capacity: u32 },
}

/// A signing operation in progress.
#[derive(Debug)]
pub struct SignSession {
    key_spec: u32,
    algorithm: u32,
    key_algorithm: u32,
    digest: Vec<u8>,
    stage: SignStage,
}

/// The next step of a signing operation: a call to make, or its result.
#[derive(Debug)]
pub enum SignStep {
    /// Make this call and hand its reply to the session's `step`.
    Call(SignSession, SignCall),
    /// The signing operation is over.
    Done(Result<Vec<u8>, CngError>),
}

/// Whether `reply` is an answer to `call`: a failure answers every call,
/// and a success must carry what the call produces.
pub open spec fn answers(call: SignCall, reply: SignReply) -> bool {
    match reply {
        SignReply::Failed(_) => true,
        SignReply::Completed => call is OpenUserKey || call is CreateHash || call is SetHashValue,
        SignReply::Value(_) => call is ReadKeyAlgorithm || call is QuerySignatureLength,
        SignReply::Signature { .. } => call is Sign,
    }
}

/// The conventional big-endian signature made from what `CryptSignHashW`
/// wrote: the first `length` bytes of the buffer (all of it, if `length` is
/// larger), in reverse order, since CryptoAPI writes RSA signatures
/// little-endian.
pub open spec fn big_endian_signature(buffer: Seq<u8>, length: u32) -> Seq<u8> {
    if length <= buffer.len() {
        buffer.take(length as int).reverse()
    } else {
        buffer.reverse()
    }
}

/// Whether `algorithm` is one of the hash algorithms a session signs with.
pub open spec fn is_sha2_algorithm(algorithm: u32) -> bool {
    algorithm == CALG_SHA_256 || algorithm == CALG_SHA_384 || algorithm == CALG_SHA_512
}

impl SignSession {
    /// The key specification the session signs with.
    pub closed spec fn key_spec_of(self) -> u32 {
        self.key_spec
    }

    /// The hash algorithm chosen for the digest.
    pub closed spec fn algorithm_of(self) -> u32 {
        self.algorithm
    }

    /// The algorithm identifier read from the provider's key, once read.
    pub closed spec fn key_algorithm_of(self) -> u32 {
        self.key_algorithm
    }

    /// The digest being signed.
    pub closed spec fn digest_of(self) -> Seq<u8> {
        self.digest@
    }

    /// Where the session stands.
    pub closed spec fn stage_of(self) -> SignStage {
        self.stage
    }

    /// The digest being signed: the hash value that the `SetHashValue` call sets.
    pub fn digest(&self) -> (digest: &[u8])
        ensures
            digest@ == self.digest_of(),
    {
        self.digest.as_slice()
    }

    /// What holds of every session: it hashes with the SHA-2 algorithm whose
    /// digests have the length of its digest, and once past reading the key's
    /// algorithm, that algorithm is the RSA algorithm of its key specification.
    #[verifier::type_invariant]
    pub closed spec fn inv(self) -> bool {
        &&& hash_algorithm_for(self.digest@.len() as int) == Some(self.algorithm)
        &&& !(self.stage is OpenUserKey || self.stage is ReadKeyAlgorithm) ==> is_rsa_key(
            self.key_spec,
            self.key_algorithm,
        )
    }

    /// The call the session waits for.
    pub open spec fn pending_call(self) -> SignCall {
        match self.stage_of() {
            SignStage::OpenUserKey => SignCall::OpenUserKey { key_spec: self.key_spec_of() },
            SignStage::ReadKeyAlgorithm => SignCall::ReadKeyAlgorithm,
            SignStage::CreateHash => SignCall::CreateHash { algorithm: self.algorithm_of() },
            SignStage::SetHashValue => SignCall::SetHashValue,
            SignStage::QuerySignatureLength => SignCall::QuerySignatureLength {
                key_spec: self.key_spec_of(),
            },
            SignStage::Sign { capacity } => SignCall::Sign {
                key_spec: self.key_spec_of(),
                capacity,
            },
        }
    }

    /// How many calls at most are left, the pending one included.
    pub open spec fn calls_left(self) -> nat {
        match self.stage_of() {
            SignStage::OpenUserKey => 6,
            SignStage::ReadKeyAlgorithm => 5,
            SignStage::CreateHash => 4,
            SignStage::SetHashValue => 3,
            SignStage::QuerySignatureLength => 2,
            SignStage::Sign { .. } => 1,
        }
    }

    /// Whether `next` is this session moved on to `stage`, having read
    /// `key_algorithm` from the provider's key.
    pub open spec fn moved_to(self, next: SignSession, stage: SignStage, key_algorithm: u32) -> bool {
        &&& next.key_spec_of() == self.key_spec_of()
        &&& next.algorithm_of() == self.algorithm_of()
        &&& next.digest_of() == self.digest_of()
        &&& next.key_algorithm_of() == key_algorithm
        &&& next.stage_of() == stage
    }

    /// Whether `next` asks for the call of this session moved on to `stage`.
    pub open spec fn continues_at(self, next: SignStep, stage: SignStage, key_algorithm: u32) -> bool {
        next matches SignStep::Call(s, c) && self.moved_to(s, stage, key_algorithm) && c
            == s.pending_call()
    }

    /// What one reply makes of the session. A reply that does not answer
    /// the pending call leaves the session as it was, still waiting for that
    /// call. A failed call ends the operation with its Win32 error code. A
    /// key whose algorithm is not the RSA algorithm of its key specification
    /// ends it with `UnsupportedKeyProvider`. Otherwise the session moves on
    /// to the next call, and the signature ends it with the big-endian form
    /// of what the provider wrote.
    pub open spec fn steps_to(self, reply: SignReply, next: SignStep) -> bool {
        if !answers(self.pending_call(), reply) {
            next == SignStep::Call(self, self.pending_call())
        } else {
            match reply {
                SignReply::Failed(code) => next == SignStep::Done(Err(CngError::WindowsError(code))),
                SignReply::Completed => match self.stage_of() {
                    SignStage::OpenUserKey => self.continues_at(
                        next,
                        SignStage::ReadKeyAlgorithm,
                        self.key_algorithm_of(),
                    ),
                    SignStage::CreateHash => self.continues_at(
                        next,
                        SignStage::SetHashValue,
                        self.key_algorithm_of(),
                    ),
                    _ => self.continues_at(
                        next,
                        SignStage::QuerySignatureLength,
                        self.key_algorithm_of(),
                    ),
                },
                SignReply::Value(value) => match self.stage_of() {
                    SignStage::ReadKeyAlgorithm => if is_rsa_key(self.key_spec_of(), value) {
                        self.continues_at(next, SignStage::CreateHash, value)
                    } else {
                        next == SignStep::Done(Err(CngError::UnsupportedKeyProvider))
                    },
                    _ => self.continues_at(
                        next,
                        SignStage::Sign { capacity: value },
                        self.key_algorithm_of(),
                    ),
                },
                SignReply::Signature { buffer, length } => next matches SignStep::Done(Ok(signature))
                    && signature@ == big_endian_signature(buffer@, length),
            }
        }
    }

    /// Hands the session the reply to the call it waits for and returns what
    /// comes next.
    pub fn step(self, reply: SignReply) -> (next: SignStep)
        ensures
            self.steps_to(reply, next),
            next matches SignStep::Call(s, c) ==> c == s.pending_call() && s.inv() && s.key_spec_of()
                == self.key_spec_of() && s.algorithm_of() == self.algorithm_of() && s.digest_of()
                == self.digest_of(),
            answers(self.pending_call(), reply) ==> (next matches SignStep::Call(s, _) ==> s.calls_left()
                < self.calls_left()),
            reply matches SignReply::Failed(code) ==> next == SignStep::Done(
                Err(CngError::WindowsError(code)),
            ),
            next matches SignStep::Call(_, (SignCall::OpenUserKey { key_spec })) ==> key_spec
                == self.key_spec_of(),
            next matches SignStep::Call(_, (SignCall::QuerySignatureLength { key_spec })) ==> key_spec
                == self.key_spec_of(),
            next matches SignStep::Call(_, (SignCall::Sign { key_spec, .. })) ==> key_spec
                == self.key_spec_of(),
            next matches SignStep::Call(_, (SignCall::CreateHash { algorithm })) ==> algorithm
                == self.algorithm_of(),
            (self.stage_of() is OpenUserKey && reply is Completed) ==> (next matches SignStep::Call(
                _,
                c,
            ) && c == SignCall::ReadKeyAlgorithm),
            self.stage_of() is ReadKeyAlgorithm ==> (reply matches SignReply::Value(algorithm) ==> (
            if (self.key_spec_of() == AT_SIGNATURE && algorithm == CALG_RSA_SIGN) || (
            self.key_spec_of() == AT_KEYEXCHANGE && algorithm == CALG_RSA_KEYX) {
                next matches SignStep::Call(s, c) && c == (SignCall::CreateHash {
                    algorithm: self.algorithm_of(),
                }) && s.key_algorithm_of() == algorithm
            } else {
                next == SignStep::Done(Err(CngError::UnsupportedKeyProvider))
            })),
            (self.stage_of() is CreateHash && reply is Completed) ==> (next matches SignStep::Call(
                _,
                c,
            ) && c == SignCall::SetHashValue),
            (self.stage_of() is SetHashValue && reply is Completed) ==> (next matches SignStep::Call(
                _,
                c,
            ) && c == (SignCall::QuerySignatureLength { key_spec: self.key_spec_of() })),
            self.stage_of() is QuerySignatureLength ==> (reply matches SignReply::Value(n) ==> (
            next matches SignStep::Call(_, c) && c == (SignCall::Sign {
                key_spec: self.key_spec_of(),
                capacity: n,
            }))),
            self.stage_of() is Sign ==> (reply matches SignReply::Signature { buffer, length } ==> (
            next matches SignStep::Done(Ok(signature)) && signature@.len() == (if length
                <= buffer@.len() {
                length as int
            } else {
                buffer@.len() as int
            }) && forall|i: int|
                0 <= i < signature@.len() ==> #[trigger] signature@[i] == buffer@[signature@.len() - 1
                    - i])),
    {
        proof {
            use_type_invariant(&self);
        }
        let SignSession { key_spec, algorithm, key_algorithm, digest, stage } = self;
        match (stage, reply) {
            (_, SignReply::Failed(code)) => SignStep::Done(Err(CngError::WindowsError(code))),
            (SignStage::OpenUserKey, SignReply::Completed) => {
                let s = SignSession {
                    key_spec,
                    algorithm,
                    key_algorithm,
                    digest,
                    stage: SignStage::ReadKeyAlgorithm,
                };
                SignStep::Call(s, SignCall::ReadKeyAlgorithm)
            },
            (SignStage::ReadKeyAlgorithm, SignReply::Value(value)) => {
                if is_rsa_algorithm(key_spec, value) {
                    let s = SignSession {
                        key_spec,
                        algorithm,
                        key_algorithm: value,
                        digest,
                        stage: SignStage::CreateHash,
                    };
                    SignStep::Call(s, SignCall::CreateHash { algorithm })
                } else {
                    SignStep::Done(Err(CngError::UnsupportedKeyProvider))
                }
            },
            (SignStage::CreateHash, SignReply::Completed) => {
                let s = SignSession {
                    key_spec,
                    algorithm,
                    key_algorithm,
                    digest,
                    stage: SignStage::SetHashValue,
                };
                SignStep::Call(s, SignCall::SetHashValue)
            },
            (SignStage::SetHashValue, SignReply::Completed) => {
                let s = SignSession {
                    key_spec,
                    algorithm,
                    key_algorithm,
                    digest,
                    stage: SignStage::QuerySignatureLength,
                };
                SignStep::Call(s, SignCall::QuerySignatureLength { key_spec })
            },
            (SignStage::QuerySignatureLength, SignReply::Value(value)) => {
                let s = SignSession {
                    key_spec,
                    algorithm,
                    key_algorithm,
                    digest,
                    stage: SignStage::Sign { capacity: value },
                };
                SignStep::Call(s, SignCall::Sign { key_spec, capacity: value })
            },
            (SignStage::Sign { .. }, SignReply::Signature { buffer, length }) => {
                SignStep::Done(Ok(signature_from_provider(buffer, length)))
            },
            (stage, _) => {
                let call = match stage {
                    SignStage::OpenUserKey => SignCall::OpenUserKey { key_spec },
                    SignStage::ReadKeyAlgorithm => SignCall::ReadKeyAlgorithm,
                    SignStage::CreateHash => SignCall::CreateHash { algorithm },
                    SignStage::SetHashValue => SignCall::SetHashValue,
                    SignStage::QuerySignatureLength => SignCall::QuerySignatureLength { key_spec },
                    SignStage::Sign { capacity } => SignCall::Sign { key_spec, capacity },
                };
                let s = SignSession { key_spec, algorithm, key_algorithm, digest, stage };
                SignStep::Call(s, call)
            },
        }
    }
}

impl LegacyCspKey {
    /// Starts signing a SHA-256, SHA-384 or SHA-512 digest with this key.
    /// A digest of any other length ends the operation with
    /// `InvalidHashLength` before any call is made; otherwise the session
    /// first asks for the provider's key, keeping a copy of the digest to be
    /// set as the hash value.
    pub fn begin_sign(&self, digest: &[u8]) -> (next: SignStep)
        ensures
            hash_algorithm_for(digest@.len() as int) is None ==> next == SignStep::Done(
                Err(CngError::InvalidHashLength),
            ),
            hash_algorithm_for(digest@.len() as int) matches Some(algorithm) ==> next matches SignStep::Call(
                s,
                c,
            ) && s.key_spec_of() == self.key_spec_of() && s.algorithm_of() == algorithm
                && s.digest_of() == digest@ && s.stage_of() == SignStage::OpenUserKey
                && c == s.pending_call() && s.inv(),
            next is Call <==> (digest@.len() == 32 || digest@.len() == 48 || digest@.len() == 64),
            next matches SignStep::Call(_, c) ==> c == (SignCall::OpenUserKey {
                key_spec: self.key_spec_of(),
            }),
            next matches SignStep::Call(s, _) ==> s.digest_of() == digest@ && s.key_spec_of()
                == self.key_spec_of() && (digest@.len() == 32 ==> s.algorithm_of() == CALG_SHA_256) && (
            digest@.len() == 48 ==> s.algorithm_of() == CALG_SHA_384) && (digest@.len() == 64
                ==> s.algorithm_of() == CALG_SHA_512),
    {
        match hash_algorithm(digest.len()) {
            None => SignStep::Done(Err(CngError::InvalidHashLength)),
            Some(algorithm) => {
                let key_spec: u32 = self.key_spec();
                let mut copy: Vec<u8> = Vec::new();
                copy.extend_from_slice(digest);
                assert(copy@ =~= digest@);
                let s = SignSession {
                    key_spec,
                    algorithm,
                    key_algorithm: 0,
                    digest: copy,
                    stage: SignStage::OpenUserKey,
                };
                SignStep::Call(s, SignCall::OpenUserKey { key_spec })
            },
        }
    }
}

/// Turns what `CryptSignHashW` wrote into a conventional big-endian
/// signature: the buffer is cut to the `length` bytes written and reversed,
/// CryptoAPI returning RSA signatures in little-endian byte order.
pub fn signature_from_provider(buffer: Vec<u8>, length: u32) -> (signature: Vec<u8>)
    ensures
        signature@ == big_endian_signature(buffer@, length),
        signature@.len() == (if length <= buffer@.len() {
            length as int
        } else {
            buffer@.len() as int
        }),
        forall|i: int|
            0 <= i < signature@.len() ==> #[trigger] signature@[i] == buffer@[signature@.len() - 1 - i],
{
    let mut signature = buffer;
    let ghost original = signature@;
    signature.truncate(length as usize);
    let ghost written = signature@;
    let n: usize = signature.len();
    let mut i: usize = 0;
    while i < n / 2
        invariant
            signature@.len() == n,
            written.len() == n,
            i <= n / 2,
            forall|j: int| 0 <= j < i ==> #[trigger] signature@[j] == written[n - 1 - j],
            forall|j: int| 0 <= j < i ==> #[trigger] signature@[n - 1 - j] == written[j],
            forall|j: int| i <= j < n - i ==> #[trigger] signature@[j] == written[j],
        decreases n / 2 - i,
    {
        let front: u8 = signature[i];
        let back: u8 = signature[n - 1 - i];
        signature.set(i, back);
        signature.set(n - 1 - i, front);
        i = i + 1;
    }
    proof {
        if n > 0 {
            assert(signature@ =~= written.reverse()) by {
                assert forall|j: int| 0 <= j < n implies #[trigger] signature@[j] == written.reverse()[j] by {
                    if j < i {
                    } else if j >= n - i {
                        assert(signature@[n - 1 - (n - 1 - j)] == written[n - 1 - j]);
                    } else {
                    }
                }
            }
        } else {
            assert(signature@ =~= written.reverse());
        }
        if length as int <= original.len() {
            assert(written =~= original.take(length as int));
        }
    }
    signature
}

/// Reversing a signature again gives back the bytes CryptoAPI wrote, in the
/// little-endian order in which its verifier takes them.
pub proof fn lemma_signature_reverses_to_provider_order(buffer: Seq<u8>, length: u32)
    ensures
        big_endian_signature(buffer, length).reverse() == (if length <= buffer.len() {
            buffer.take(length as int)
        } else {
            buffer
        }),
{
    let written = if length <= buffer.len() {
        buffer.take(length as int)
    } else {
        buffer
    };
    assert(written.reverse().reverse() =~= written);
}

/// Every call a session asks for names the key specification and the hash
/// algorithm the session was begun with.
pub proof fn lemma_calls_use_session_key_spec(session: SignSession)
    ensures
        session.pending_call() matches (SignCall::OpenUserKey { key_spec }) ==> key_spec
            == session.key_spec_of(),
        session.pending_call() matches (SignCall::QuerySignatureLength { key_spec }) ==> key_spec
            == session.key_spec_of(),
        session.pending_call() matches (SignCall::Sign { key_spec, .. }) ==> key_spec
            == session.key_spec_of(),
        session.pending_call() matches (SignCall::CreateHash { algorithm }) ==> algorithm
            == session.algorithm_of(),
{
}

/// The buffer the signature is written into has exactly the length the
/// provider reported for it, and the signing call uses the session's key
/// specification.
pub proof fn lemma_signature_capacity_is_reported_length(
    session: SignSession,
    length: u32,
    next: SignStep,
)
    requires
        session.stage_of() is QuerySignatureLength,
        session.steps_to(SignReply::Value(length), next),
    ensures
        next matches SignStep::Call(_, c) && c == (SignCall::Sign {
            key_spec: session.key_spec_of(),
            capacity: length,
        }),
{
}

/// A failed call ends the operation with its own Win32 error code, whatever
/// the session waits for.
pub proof fn lemma_failed_call_reports_its_code(session: SignSession, code: u32, next: SignStep)
    requires
        session.steps_to(SignReply::Failed(code), next),
    ensures
        next == SignStep::Done(Err(CngError::WindowsError(code))),
{
}

/// The key's algorithm decides whether the session goes on to hash: exactly
/// an RSA key of the session's key specification lets it create the hash.
pub proof fn lemma_key_algorithm_decides_hashing(session: SignSession, algorithm: u32, next: SignStep)
    requires
        session.stage_of() is ReadKeyAlgorithm,
        session.steps_to(SignReply::Value(algorithm), next),
    ensures
        next is Call <==> (session.key_spec_of() == AT_SIGNATURE && algorithm == CALG_RSA_SIGN) || (
        session.key_spec_of() == AT_KEYEXCHANGE && algorithm == CALG_RSA_KEYX),
        next is Done ==> next == SignStep::Done(Err(CngError::UnsupportedKeyProvider)),
        next matches SignStep::Call(_, c) ==> c == (SignCall::CreateHash {
            algorithm: session.algorithm_of(),
        }),
{
}

/// The big-endian signature has the length the provider wrote (at most the
/// buffer) and holds the written bytes in reverse order.
pub proof fn lemma_big_endian_signature_bytes(buffer: Seq<u8>, length: u32)
    ensures
        big_endian_signature(buffer, length).len() == (if length <= buffer.len() {
            length as int
        } else {
            buffer.len() as int
        }),
        forall|i: int|
            0 <= i < big_endian_signature(buffer, length).len() ==> #[trigger] big_endian_signature(
                buffer,
                length,
            )[i] == buffer[big_endian_signature(buffer, length).len() - 1 - i],
{
}

/// Every session that has got past reading the key's algorithm, and so may
/// create a hash or sign, holds a key whose algorithm is the RSA algorithm
/// of its key specification.
pub proof fn lemma_hashing_only_for_rsa_keys(session: SignSession)
    requires
        session.inv(),
        !(session.pending_call() is OpenUserKey || session.pending_call() is ReadKeyAlgorithm),
    ensures
        is_rsa_key(session.key_spec_of(), session.key_algorithm_of()),
        is_sha2_algorithm(session.algorithm_of()),
{
}

} // verus!

//! Encoding of provider PINs and the request that sets one.

use vstd::prelude::*;
use vstd::string::*;

use crate::error::CngError;

verus! {

broadcast use is_ascii_spec_bytes;

/// Whether `pin` can be handed to CryptoAPI: ASCII text without an embedded
/// NUL byte.
pub open spec fn pin_encodable(pin: &str) -> bool {
    &&& is_ascii(pin)
    &&& !pin.spec_bytes().contains(0u8)
}

/// The NUL-terminated bytes of an encodable PIN.
pub open spec fn nul_terminated(pin: &str) -> Seq<u8> {
    pin.spec_bytes().push(0u8)
}

/// Whether `pin` is ASCII text without an embedded NUL byte, decided without
/// copying any of its bytes.
pub fn is_encodable_pin(pin: &str) -> (encodable: bool)
    ensures
        encodable == pin_encodable(pin),
        encodable <==> is_ascii(pin) && !pin.spec_bytes().contains(0u8),
{
    if !pin.is_ascii() {
        return false;
    }
    let raw = pin.as_bytes();
    let n: usize = raw.len();
    let mut i: usize = 0;
    while i < n
        invariant
            raw@ == pin.spec_bytes(),
            n == raw@.len(),
            i <= n,
            forall|j: int| 0 <= j < i ==> raw@[j] != 0u8,
        decreases n - i,
    {
        if raw[i] == 0 {
            assert(pin.spec_bytes()[i as int] == 0u8);
            return false;
        }
        i = i + 1;
    }
    true
}

/// Encodes `pin` as the NUL-terminated ASCII string that CryptoAPI expects.
/// Non-ASCII text and embedded NUL bytes are refused.
pub fn pin_bytes(pin: &str) -> (bytes: Option<Vec<u8>>)
    ensures
        bytes is Some <==> pin_encodable(pin),
        bytes is Some <==> is_ascii(pin) && !pin.spec_bytes().contains(0u8),
        bytes matches Some(b) ==> b@ == nul_terminated(pin),
        bytes matches Some(b) ==> b@ == pin.spec_bytes().push(0u8),
        bytes matches Some(b) ==> {
            &&& b@.len() == pin@.len() + 1
            &&& b@.last() == 0u8
            &&& forall|i: int| 0 <= i < pin@.len() ==> b@[i] == pin@[i] as u8 && 0 < #[trigger] b@[i] < 128
        },
{
    if !is_encodable_pin(pin) {
        return None;
    }
    let raw = pin.as_bytes();
    let mut bytes: Vec<u8> = Vec::with_capacity(pin.len().saturating_add(1));
    bytes.extend_from_slice(raw);
    bytes.push(0);
    assert(bytes@ =~= nul_terminated(pin));
    proof {
        assert forall|j: int| 0 <= j < pin@.len() implies bytes@[j] == pin@[j] as u8 && 0 < #[trigger] bytes@[j] < 128 by {
            if raw@[j] == 0u8 {
                assert(pin.spec_bytes()[j] == 0u8);
            }
        }
    }
    Some(bytes)
}

/// Every ASCII PIN without a NUL byte can be encoded, and no other: letters,
/// digits, punctuation and control characters other than NUL are all
/// accepted, while a non-ASCII character or a NUL byte anywhere is refused.
pub proof fn lemma_encodable_pins(pin: &str)
    ensures
        pin_encodable(pin) <==> is_ascii(pin) && !pin.spec_bytes().contains(0u8),
        pin_encodable(pin) <==> (forall|i: int|
            0 <= i < pin@.len() ==> '\u{1}' <= #[trigger] pin@[i] <= '\u{7f}'),
{
    if is_ascii(pin) {
        vstd::utf8::is_ascii_chars_encode_utf8(pin@);
        if pin.spec_bytes().contains(0u8) {
            let k = choose|k: int| 0 <= k < pin.spec_bytes().len() && pin.spec_bytes()[k] == 0u8;
            assert(pin@[k] as u8 == 0u8);
            assert(!('\u{1}' <= pin@[k]));
        } else {
            assert forall|i: int| 0 <= i < pin@.len() implies '\u{1}' <= #[trigger] pin@[i] <= '\u{7f}' by {
                assert(pin.spec_bytes()[i] != 0u8);
                assert(pin@[i] as u8 == pin.spec_bytes()[i]);
            }
        }
    } else {
        let k = choose|k: int| 0 <= k < pin@.len() && !('\0' <= #[trigger] pin@[k] <= '\u{7f}');
        assert(!('\u{1}' <= pin@[k] <= '\u{7f}'));
    }
}

/// Overwrites every byte of `bytes` with zero, keeping its length.
pub fn wipe(bytes: &mut Vec<u8>)
    ensures
        final(bytes)@.len() == old(bytes)@.len(),
        forall|i: int| 0 <= i < final(bytes)@.len() ==> #[trigger] final(bytes)@[i] == 0u8,
{
    let n: usize = bytes.len();
    let mut i: usize = 0;
    while i < n
        invariant
            bytes@.len() == n,
            i <= n,
            forall|j: int| 0 <= j < i ==> #[trigger] bytes@[j] == 0u8,
        decreases n - i,
    {
        bytes.set(i, 0);
        i = i + 1;
    }
}

} // verus!

//! Byte strings as hexadecimal text.

use vstd::prelude::*;

use super::Bytes;

verus! {

/// The sixteen hexadecimal digits, in lower case.
pub open spec fn hex_alphabet() -> Seq<char> {
    seq!['0', '1', '2', '3', '4', '5', '6', '7', '8', '9', 'a', 'b', 'c', 'd', 'e', 'f']
}

/// Two hexadecimal digits for each byte, the high half first.
pub open spec fn hex_digits(bytes: Seq<u8>) -> Seq<char>
    decreases bytes.len(),
{
    if bytes.len() == 0 {
        Seq::empty()
    } else {
        hex_digits(bytes.drop_last()).push(hex_alphabet()[bytes.last() as int / 16]).push(
            hex_alphabet()[bytes.last() as int % 16],
        )
    }
}

/// The hexadecimal text of a byte string: `0x`, then two digits for each byte.
pub open spec fn hex_text(bytes: Seq<u8>) -> Seq<char> {
    seq!['0', 'x'] + hex_digits(bytes)
}

/// `impl_serde::serialize::to_hex` without skipping leading zeros: `0x`
/// followed by two lower-case hexadecimal digits for each byte.
#[verifier::external_body]
pub(crate) fn to_hex(bytes: &[u8]) -> (r: String)
    ensures
        r@ == hex_text(bytes@),
{
    impl_serde::serialize::to_hex(bytes, false)
}

impl Bytes {
    /// The hexadecimal text of this byte string.
    pub fn to_hex(&self) -> (r: String)
        ensures
            r@ == hex_text(self@),
    {
        self::to_hex(self.0.as_slice())
    }
}

} // verus!

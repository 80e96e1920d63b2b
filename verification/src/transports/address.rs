//! IPv4 addresses in dotted notation.

use vstd::prelude::*;
use vstd::string::StrSliceExecFns;

use crate::text::{pieces, split, texts_view};

verus! {

/// Whether a character is a decimal digit.
pub open spec fn is_digit(c: char) -> bool {
    '0' <= c <= '9'
}

/// The number that a text of decimal digits stands for.
pub open spec fn digits_value(text: Seq<char>) -> nat
    decreases text.len(),
{
    if text.len() == 0 {
        0
    } else {
        digits_value(text.drop_last()) * 10 + (text.last() as u32 - '0' as u32) as nat
    }
}

/// The byte that one part of an address stands for: one to three decimal
/// digits, without a zero in front of other digits, that make a number of
/// at most 255.
pub open spec fn octet_of(text: Seq<char>) -> Option<u8> {
    if 1 <= text.len() <= 3 && (forall|i: int| 0 <= i < text.len() ==> is_digit(#[trigger] text[i]))
        && (text.len() > 1 ==> text[0] != '0') && digits_value(text) <= 255 {
        Some(digits_value(text) as u8)
    } else {
        None
    }
}

/// The address that a text stands for: four parts between dots, each a byte.
pub open spec fn ipv4_of(text: Seq<char>) -> Option<Seq<u8>> {
    let parts = pieces(text, '.');
    if parts.len() == 4 && octet_of(parts[0]) is Some && octet_of(parts[1]) is Some && octet_of(
        parts[2],
    ) is Some && octet_of(parts[3]) is Some {
        Some(
            seq![
                octet_of(parts[0])->0,
                octet_of(parts[1])->0,
                octet_of(parts[2])->0,
                octet_of(parts[3])->0,
            ],
        )
    } else {
        None
    }
}

/// Reads one part of an address.
pub fn read_octet(text: &str) -> (r: Option<u8>)
    ensures
        r == octet_of(text@),
{
    let length = text.unicode_len();
    if length < 1 || length > 3 {
        return None;
    }
    let mut value: u32 = 0;
    let mut i: usize = 0;
    assert(text@.subrange(0, 0) =~= Seq::<char>::empty());
    while i < length
        invariant
            i <= length <= 3,
            length == text@.len(),
            forall|j: int| 0 <= j < i ==> is_digit(#[trigger] text@[j]),
            value == digits_value(text@.subrange(0, i as int)),
            value <= 999,
        decreases length - i,
    {
        let c = text.get_char(i);
        if !('0' <= c && c <= '9') {
            return None;
        }
        let ghost prefix = text@.subrange(0, i as int + 1);
        assert(prefix.drop_last() =~= text@.subrange(0, i as int));
        assert(prefix.last() == c);
        proof {
            lemma_digits_bound(text@.subrange(0, i as int));
            lemma_digits_bound(prefix);
        }
        value = value * 10 + (c as u32 - '0' as u32);
        i += 1;
    }
    assert(text@.subrange(0, length as int) =~= text@);
    if length > 1 && text.get_char(0) == '0' {
        return None;
    }
    if value > 255 {
        return None;
    }
    Some(value as u8)
}

/// A text of `n` digits stands for a number below ten to the `n`; up to
/// three digits stand for at most 999.
pub proof fn lemma_digits_bound(text: Seq<char>)
    requires
        text.len() <= 3,
        forall|i: int| 0 <= i < text.len() ==> is_digit(#[trigger] text[i]),
    ensures
        text.len() == 0 ==> digits_value(text) == 0,
        text.len() == 1 ==> digits_value(text) <= 9,
        text.len() == 2 ==> digits_value(text) <= 99,
        text.len() == 3 ==> digits_value(text) <= 999,
    decreases text.len(),
{
    if text.len() > 0 {
        assert(is_digit(text[text.len() - 1]));
        lemma_digits_bound(text.drop_last());
    }
}

/// Reads an address in dotted notation.
pub fn read_ipv4(text: &str) -> (r: Option<[u8; 4]>)
    ensures
        match r {
            Some(address) => ipv4_of(text@) == Some(address@),
            None => ipv4_of(text@) is None,
        },
{
    let parts = split(text, '.');
    if parts.len() != 4 {
        return None;
    }
    assert(texts_view(parts@)[0] == parts@[0]@);
    assert(texts_view(parts@)[1] == parts@[1]@);
    assert(texts_view(parts@)[2] == parts@[2]@);
    assert(texts_view(parts@)[3] == parts@[3]@);
    let a = match read_octet(parts[0].as_str()) {
        Some(byte) => byte,
        None => { return None; },
    };
    let b = match read_octet(parts[1].as_str()) {
        Some(byte) => byte,
        None => { return None; },
    };
    let c = match read_octet(parts[2].as_str()) {
        Some(byte) => byte,
        None => { return None; },
    };
    let d = match read_octet(parts[3].as_str()) {
        Some(byte) => byte,
        None => { return None; },
    };
    let address = [a, b, c, d];
    assert(address@ =~= seq![a, b, c, d]);
    Some(address)
}

} // verus!

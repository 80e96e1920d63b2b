//! Big-endian byte strings: how numbers are written as the fields of a
//! transaction, and how they are read back.

use vstd::prelude::*;

verus! {

/// A byte string without its leading zero bytes.
pub open spec fn minimal(bytes: Seq<u8>) -> Seq<u8>
    decreases bytes.len(),
{
    if bytes.len() == 0 || bytes[0] != 0 {
        bytes
    } else {
        minimal(bytes.subrange(1, bytes.len() as int))
    }
}

/// A byte string extended to `width` bytes by zero bytes in front.
pub open spec fn padded(bytes: Seq<u8>, width: nat) -> Seq<u8>
    recommends
        bytes.len() <= width,
{
    Seq::new((width - bytes.len()) as nat, |i: int| 0u8) + bytes
}

/// The number that a big-endian byte string stands for.
pub open spec fn big_endian_value(bytes: Seq<u8>) -> nat
    decreases bytes.len(),
{
    if bytes.len() == 0 {
        0
    } else {
        big_endian_value(bytes.drop_last()) * 256 + bytes.last() as nat
    }
}

/// The `width` bytes that stand for `value` in big-endian order.
pub open spec fn big_endian(value: nat, width: nat) -> Seq<u8>
    decreases width,
{
    if width == 0 {
        Seq::empty()
    } else {
        big_endian(value / 256, (width - 1) as nat).push((value % 256) as u8)
    }
}

/// Whether a byte string starts with a zero byte.
pub open spec fn has_leading_zero(bytes: Seq<u8>) -> bool {
    bytes.len() > 0 && bytes[0] == 0
}

/// The index of the first byte that is not zero, or the length where all are zero.
pub open spec fn leading_zeros(bytes: Seq<u8>) -> nat
    decreases bytes.len(),
{
    if bytes.len() == 0 || bytes[0] != 0 {
        0
    } else {
        1 + leading_zeros(bytes.subrange(1, bytes.len() as int))
    }
}

/// Dropping the leading zeros is dropping a prefix of that many bytes.
pub proof fn lemma_minimal_is_suffix(bytes: Seq<u8>)
    ensures
        leading_zeros(bytes) <= bytes.len(),
        minimal(bytes) == bytes.subrange(leading_zeros(bytes) as int, bytes.len() as int),
        forall|i: int| 0 <= i < leading_zeros(bytes) ==> bytes[i] == 0,
        !has_leading_zero(minimal(bytes)),
    decreases bytes.len(),
{
    if bytes.len() == 0 || bytes[0] != 0 {
        assert(bytes.subrange(0, bytes.len() as int) =~= bytes);
    } else {
        let rest = bytes.subrange(1, bytes.len() as int);
        lemma_minimal_is_suffix(rest);
        assert(rest.subrange(leading_zeros(rest) as int, rest.len() as int) =~= bytes.subrange(
            leading_zeros(bytes) as int,
            bytes.len() as int,
        ));
        assert forall|i: int| 0 <= i < leading_zeros(bytes) implies bytes[i] == 0 by {
            if i > 0 {
                assert(bytes[i] == rest[i - 1]);
            }
        }
    }
}

/// A byte string is its minimal form padded back to its length.
pub proof fn lemma_padded_minimal(bytes: Seq<u8>)
    ensures
        padded(minimal(bytes), bytes.len()) == bytes,
{
    lemma_minimal_is_suffix(bytes);
    assert(padded(minimal(bytes), bytes.len()) =~= bytes);
}

/// Zero bytes in front do not change the number.
pub proof fn lemma_value_of_padded(bytes: Seq<u8>, width: nat)
    requires
        bytes.len() <= width,
    ensures
        big_endian_value(padded(bytes, width)) == big_endian_value(bytes),
    decreases bytes.len(),
{
    let whole = padded(bytes, width);
    if bytes.len() == 0 {
        lemma_value_of_zeros(whole);
    } else {
        assert(whole.drop_last() =~= padded(bytes.drop_last(), (width - 1) as nat));
        lemma_value_of_padded(bytes.drop_last(), (width - 1) as nat);
        assert(whole.last() == bytes.last());
    }
}

/// A string of zero bytes stands for zero.
pub proof fn lemma_value_of_zeros(bytes: Seq<u8>)
    requires
        forall|i: int| 0 <= i < bytes.len() ==> bytes[i] == 0,
    ensures
        big_endian_value(bytes) == 0,
    decreases bytes.len(),
{
    if bytes.len() > 0 {
        lemma_value_of_zeros(bytes.drop_last());
    }
}

/// The leading zeros of a byte string do not change the number.
pub proof fn lemma_value_of_minimal(bytes: Seq<u8>)
    ensures
        big_endian_value(minimal(bytes)) == big_endian_value(bytes),
{
    lemma_padded_minimal(bytes);
    lemma_minimal_is_suffix(bytes);
    lemma_value_of_padded(minimal(bytes), bytes.len());
}

/// 256 to the power of `exponent`.
pub open spec fn pow256(exponent: nat) -> nat
    decreases exponent,
{
    if exponent == 0 {
        1
    } else {
        256 * pow256((exponent - 1) as nat)
    }
}

/// A big-endian string of `n` bytes stands for a number below 256 to the `n`.
pub proof fn lemma_value_bound(bytes: Seq<u8>)
    ensures
        big_endian_value(bytes) < pow256(bytes.len()),
    decreases bytes.len(),
{
    if bytes.len() > 0 {
        lemma_value_bound(bytes.drop_last());
        let high = big_endian_value(bytes.drop_last());
        let below = pow256((bytes.len() - 1) as nat);
        assert(high * 256 + 255 < below * 256) by (nonlinear_arith)
            requires
                high < below,
        ;
    }
}

/// Writing a number in `width` bytes and reading it back gives the number.
pub proof fn lemma_value_of_big_endian(value: nat, width: nat)
    requires
        value < pow256(width),
    ensures
        big_endian(value, width).len() == width,
        big_endian_value(big_endian(value, width)) == value,
    decreases width,
{
    if width > 0 {
        let below = pow256((width - 1) as nat);
        assert(value / 256 < below) by (nonlinear_arith)
            requires
                value < 256 * below,
        ;
        lemma_value_of_big_endian(value / 256, (width - 1) as nat);
        assert(big_endian(value, width).drop_last() =~= big_endian(
            value / 256,
            (width - 1) as nat,
        ));
    }
}

/// The length of a number written in `width` bytes.
pub proof fn lemma_big_endian_len(value: nat, width: nat)
    ensures
        big_endian(value, width).len() == width,
    decreases width,
{
    if width > 0 {
        lemma_big_endian_len(value / 256, (width - 1) as nat);
    }
}

/// The eight powers of 256 that fit a 64-bit number.
pub proof fn lemma_pow256_values()
    ensures
        pow256(0) == 1,
        pow256(1) == 0x100,
        pow256(2) == 0x1_0000,
        pow256(3) == 0x100_0000,
        pow256(4) == 0x1_0000_0000,
        pow256(5) == 0x100_0000_0000,
        pow256(6) == 0x1_0000_0000_0000,
        pow256(7) == 0x100_0000_0000_0000,
        pow256(8) == 0x1_0000_0000_0000_0000,
{
    reveal_with_fuel(pow256, 10);
}

/// The bytes of `bytes` from the first that is not zero.
pub fn strip_leading_zeros(bytes: &[u8]) -> (r: Vec<u8>)
    ensures
        r@ == minimal(bytes@),
{
    let mut start: usize = 0;
    assert(bytes@.subrange(0, bytes@.len() as int) =~= bytes@);
    while start < bytes.len() && bytes[start] == 0
        invariant
            start <= bytes.len(),
            forall|i: int| 0 <= i < start ==> bytes@[i] == 0,
            minimal(bytes@) == minimal(bytes@.subrange(start as int, bytes@.len() as int)),
        decreases bytes.len() - start,
    {
        let ghost rest = bytes@.subrange(start as int, bytes@.len() as int);
        assert(rest.subrange(1, rest.len() as int) =~= bytes@.subrange(
            start as int + 1,
            bytes@.len() as int,
        ));
        start += 1;
    }
    let mut out: Vec<u8> = Vec::new();
    let mut i: usize = start;
    while i < bytes.len()
        invariant
            start <= i <= bytes.len(),
            out@ == bytes@.subrange(start as int, i as int),
        decreases bytes.len() - i,
    {
        out.push(bytes[i]);
        assert(out@ =~= bytes@.subrange(start as int, i as int + 1));
        i += 1;
    }
    proof {
        let rest = bytes@.subrange(start as int, bytes@.len() as int);
        assert(out@ =~= rest);
        assert(minimal(rest) == rest);
    }
    out
}

/// The eight bytes of a 64-bit number, most significant first.
pub fn u64_bytes(value: u64) -> (r: [u8; 8])
    ensures
        r@ == big_endian(value as nat, 8),
{
    let mut out = [0u8; 8];
    let mut rest: u64 = value;
    let mut i: usize = 8;
    while i > 0
        invariant
            i <= 8,
            out@.len() == 8,
            big_endian(value as nat, 8) == big_endian(rest as nat, i as nat) + out@.subrange(
                i as int,
                8,
            ),
        decreases i,
    {
        let digit = (rest % 256) as u8;
        let ghost before = out@;
        out[i - 1] = digit;
        proof {
            let low = before.subrange(i as int, 8);
            assert(out@.subrange(i as int - 1, 8) =~= seq![digit] + low);
            assert(big_endian(rest as nat, i as nat) + low =~= big_endian(
                (rest / 256) as nat,
                (i - 1) as nat,
            ) + out@.subrange(i as int - 1, 8));
        }
        rest = rest / 256;
        i -= 1;
    }
    assert(out@.subrange(0, 8) =~= out@);
    assert(big_endian(rest as nat, 0) + out@ =~= out@);
    out
}

/// The number that at most eight big-endian bytes stand for.
pub fn u64_from_bytes(bytes: &[u8]) -> (r: u64)
    requires
        bytes@.len() <= 8,
    ensures
        r as nat == big_endian_value(bytes@),
{
    let mut value: u64 = 0;
    let mut i: usize = 0;
    while i < bytes.len()
        invariant
            i <= bytes.len() <= 8,
            value as nat == big_endian_value(bytes@.subrange(0, i as int)),
        decreases bytes.len() - i,
    {
        let ghost prefix = bytes@.subrange(0, i as int + 1);
        proof {
            assert(prefix.drop_last() =~= bytes@.subrange(0, i as int));
            lemma_value_bound(bytes@.subrange(0, i as int));
            lemma_value_bound(prefix);
            lemma_pow256_values();
            if i < 7 {
                lemma_pow256_monotonic((i + 1) as nat, 8);
            }
        }
        value = value * 256 + bytes[i] as u64;
        i += 1;
    }
    assert(bytes@.subrange(0, bytes@.len() as int) =~= bytes@);
    value
}

/// A larger exponent gives a power that is not smaller.
pub proof fn lemma_pow256_monotonic(small: nat, large: nat)
    requires
        small <= large,
    ensures
        pow256(small) <= pow256(large),
    decreases large,
{
    if small < large {
        lemma_pow256_monotonic(small, (large - 1) as nat);
    }
}

/// A copy of a byte slice.
pub fn copy_bytes(bytes: &[u8]) -> (r: Vec<u8>)
    ensures
        r@ == bytes@,
{
    let mut out: Vec<u8> = Vec::new();
    let mut i: usize = 0;
    while i < bytes.len()
        invariant
            i <= bytes.len(),
            out@ == bytes@.subrange(0, i as int),
        decreases bytes.len() - i,
    {
        out.push(bytes[i]);
        assert(out@ =~= bytes@.subrange(0, i as int + 1));
        i += 1;
    }
    assert(bytes@.subrange(0, bytes@.len() as int) =~= bytes@);
    out
}

/// Whether two byte slices hold the same bytes.
pub fn same_bytes(left: &[u8], right: &[u8]) -> (r: bool)
    ensures
        r == (left@ == right@),
{
    if left.len() != right.len() {
        return false;
    }
    let mut i: usize = 0;
    while i < left.len()
        invariant
            i <= left.len(),
            left@.len() == right@.len(),
            forall|j: int| 0 <= j < i ==> left@[j] == right@[j],
        decreases left.len() - i,
    {
        if left[i] != right[i] {
            return false;
        }
        i += 1;
    }
    assert(left@ =~= right@);
    true
}

} // verus!

//! Comparing, ordering and copying text.

use vstd::prelude::*;
use vstd::string::{StrSliceExecFns, StringExecFns};

verus! {

/// Whether a string is the given text.
pub fn is_text(text: &String, expected: &str) -> (r: bool)
    ensures
        r == (text@ == expected@),
{
    let expected = expected.to_string();
    *text == expected
}

/// A string with the given text.
pub fn text(literal: &str) -> (r: String)
    ensures
        r@ == literal@,
{
    literal.to_string()
}

/// The pieces of a text between the occurrences of a separator: a text
/// without separator is one piece, and there is one piece more than there
/// are separators.
pub open spec fn pieces(text: Seq<char>, separator: char) -> Seq<Seq<char>>
    decreases text.len(),
{
    if text.len() == 0 {
        seq![Seq::empty()]
    } else {
        let before = pieces(text.drop_last(), separator);
        if text.last() == separator {
            before.push(Seq::empty())
        } else {
            before.drop_last().push(before.last().push(text.last()))
        }
    }
}

/// The views of a list of strings, in order.
pub open spec fn texts_view(texts: Seq<String>) -> Seq<Seq<char>> {
    Seq::new(texts.len(), |i: int| texts[i]@)
}

/// Splits a text at each occurrence of a separator.
pub fn split(text: &str, separator: char) -> (r: Vec<String>)
    ensures
        texts_view(r@) == pieces(text@, separator),
{
    let length = text.unicode_len();
    let mut out: Vec<String> = Vec::new();
    let mut start: usize = 0;
    let mut i: usize = 0;
    assert(text@.subrange(0, 0) =~= Seq::<char>::empty());
    assert(pieces(text@.subrange(0, 0), separator) =~= texts_view(out@).push(
        text@.subrange(0, 0),
    ));
    while i < length
        invariant
            start <= i <= length,
            length == text@.len(),
            pieces(text@.subrange(0, i as int), separator) == texts_view(out@).push(
                text@.subrange(start as int, i as int),
            ),
        decreases length - i,
    {
        let c = text.get_char(i);
        let ghost prefix = text@.subrange(0, i as int + 1);
        let ghost done = texts_view(out@);
        proof {
            assert(prefix.drop_last() =~= text@.subrange(0, i as int));
            assert(prefix.last() == c);
        }
        if c == separator {
            let piece = text.substring_char(start, i);
            let ghost from = start;
            out.push(piece.to_string());
            start = i + 1;
            proof {
                assert(texts_view(out@) =~= done.push(text@.subrange(from as int, i as int)));
                assert(text@.subrange(i as int + 1, i as int + 1) =~= Seq::<char>::empty());
            }
        } else {
            proof {
                let current = text@.subrange(start as int, i as int);
                assert(current.push(c) =~= text@.subrange(start as int, i as int + 1));
                assert(done.push(current).drop_last() =~= done);
            }
        }
        i += 1;
    }
    let last = text.substring_char(start, length);
    let ghost done = texts_view(out@);
    out.push(last.to_string());
    assert(text@.subrange(0, length as int) =~= text@);
    assert(texts_view(out@) =~= done.push(text@.subrange(start as int, length as int)));
    out
}

/// Whether `a` does not come after `b` from the place `from` on, where
/// the two agree before it.
pub open spec fn in_order_from(a: Seq<char>, b: Seq<char>, from: int) -> bool
    decreases a.len() - from,
{
    if from < 0 || from >= a.len() {
        true
    } else if from >= b.len() {
        false
    } else if a[from] == b[from] {
        in_order_from(a, b, from + 1)
    } else {
        (a[from] as u32) < (b[from] as u32)
    }
}

/// Whether `a` does not come after `b` in the order of texts: the first
/// character in which they differ decides, and a text comes before every
/// longer text that begins with it. It is the order of their UTF-8 bytes.
pub open spec fn in_order(a: Seq<char>, b: Seq<char>) -> bool {
    in_order_from(a, b, 0)
}

/// Of two texts that agree before `from`, one does not come after the other.
pub proof fn lemma_in_order_total_from(a: Seq<char>, b: Seq<char>, from: int)
    requires
        0 <= from,
    ensures
        in_order_from(a, b, from) || in_order_from(b, a, from),
    decreases a.len() - from,
{
    if from < a.len() && from < b.len() {
        if a[from] == b[from] {
            lemma_in_order_total_from(a, b, from + 1);
        } else {
            vstd::utf8::char_u32_cast(a[from], a[from] as u32);
            vstd::utf8::char_u32_cast(b[from], b[from] as u32);
        }
    }
}

/// Of two texts one does not come after the other.
pub proof fn lemma_in_order_total(a: Seq<char>, b: Seq<char>)
    ensures
        in_order(a, b) || in_order(b, a),
{
    lemma_in_order_total_from(a, b, 0);
}

/// The order of texts that agree before `from` is transitive.
pub proof fn lemma_in_order_transitive_from(a: Seq<char>, b: Seq<char>, c: Seq<char>, from: int)
    requires
        0 <= from,
        in_order_from(a, b, from),
        in_order_from(b, c, from),
    ensures
        in_order_from(a, c, from),
    decreases a.len() - from,
{
    if from < a.len() && a[from] == b[from] && b[from] == c[from] {
        lemma_in_order_transitive_from(a, b, c, from + 1);
    }
}

/// The order of texts is transitive.
pub proof fn lemma_in_order_transitive(a: Seq<char>, b: Seq<char>, c: Seq<char>)
    requires
        in_order(a, b),
        in_order(b, c),
    ensures
        in_order(a, c),
{
    lemma_in_order_transitive_from(a, b, c, 0);
}

/// Two texts that agree before `from`, of which neither comes after the
/// other, agree from there on and have the same length.
pub proof fn lemma_in_order_antisymmetric_from(a: Seq<char>, b: Seq<char>, from: int)
    requires
        0 <= from <= a.len(),
        from <= b.len(),
        in_order_from(a, b, from),
        in_order_from(b, a, from),
    ensures
        a.len() == b.len(),
        forall|i: int| from <= i < a.len() ==> a[i] == b[i],
    decreases a.len() - from,
{
    if from < a.len() {
        lemma_in_order_antisymmetric_from(a, b, from + 1);
    }
}

/// Two texts of which neither comes after the other are the same text.
pub proof fn lemma_in_order_antisymmetric(a: Seq<char>, b: Seq<char>)
    requires
        in_order(a, b),
        in_order(b, a),
    ensures
        a == b,
{
    lemma_in_order_antisymmetric_from(a, b, 0);
    assert(a =~= b);
}

/// Whether `a` does not come after `b` in the order of texts.
pub fn are_in_order(a: &str, b: &str) -> (r: bool)
    ensures
        r == in_order(a@, b@),
{
    let length = a.unicode_len();
    let other = b.unicode_len();
    let mut i: usize = 0;
    while i < length
        invariant
            i <= length,
            length == a@.len(),
            other == b@.len(),
            in_order(a@, b@) == in_order_from(a@, b@, i as int),
        decreases length - i,
    {
        if i >= other {
            return false;
        }
        let left = a.get_char(i);
        let right = b.get_char(i);
        if left != right {
            return (left as u32) < (right as u32);
        }
        i += 1;
    }
    true
}

/// The view of a result whose error is a text.
pub open spec fn read<T>(result: Result<T, String>) -> Result<T, Seq<char>> {
    match result {
        Ok(value) => Ok(value),
        Err(error) => Err(error@),
    }
}

/// Two texts, one after the other.
pub fn join(first: &str, second: &str) -> (r: String)
    ensures
        r@ == first@ + second@,
{
    String::from_str(first).concat(second)
}

} // verus!

//! The canonical text of JSON values: compact JSON, with the members of an
//! object in the order of their keys, whatever the order in which they are
//! listed. Equal values have equal text, which is what makes the text fit
//! to be hashed as a cache key.

use vstd::prelude::*;

use crate::rpc::{
    lemma_array_view, lemma_object_view, members_view, values_view, Number, Params, ParamsView,
    Value, ValueView,
};
use crate::text::{
    are_in_order, in_order, lemma_in_order_antisymmetric, lemma_in_order_total,
    lemma_in_order_transitive,
};

verus! {

/// The decimal digits of a number, as ASCII.
pub open spec fn decimal(n: nat) -> Seq<u8>
    decreases n,
{
    if n < 10 {
        seq![(48 + n) as u8]
    } else {
        decimal(n / 10).push((48 + n % 10) as u8)
    }
}

/// The lower-case hexadecimal digit of a number below 16, as ASCII.
pub open spec fn hex_digit(n: u8) -> u8 {
    if n < 10 {
        (48 + n) as u8
    } else {
        (87 + n) as u8
    }
}

/// How one byte of a string stands inside quotes: the quote and the
/// backslash get a backslash in front, a control character is written as
/// `\u00` and two hexadecimal digits.
pub open spec fn escaped_byte(byte: u8) -> Seq<u8> {
    if byte == 0x22 {
        seq![0x5cu8, 0x22u8]
    } else if byte == 0x5c {
        seq![0x5cu8, 0x5cu8]
    } else if byte < 0x20 {
        seq![0x5cu8, 0x75u8, 0x30u8, 0x30u8, hex_digit(byte / 16), hex_digit(byte % 16)]
    } else {
        seq![byte]
    }
}

/// How the bytes of a string stand inside quotes.
pub open spec fn escaped(bytes: Seq<u8>) -> Seq<u8>
    decreases bytes.len(),
{
    if bytes.len() == 0 {
        Seq::empty()
    } else {
        escaped(bytes.drop_last()) + escaped_byte(bytes.last())
    }
}

/// A string in quotes, in UTF-8.
pub open spec fn quoted(text: Seq<char>) -> Seq<u8> {
    seq![0x22u8] + escaped(vstd::utf8::encode_utf8(text)) + seq![0x22u8]
}

/// The text `null`.
pub open spec fn null_text() -> Seq<u8> {
    seq![0x6eu8, 0x75u8, 0x6cu8, 0x6cu8]
}

/// The text `true`.
pub open spec fn true_text() -> Seq<u8> {
    seq![0x74u8, 0x72u8, 0x75u8, 0x65u8]
}

/// The text `false`.
pub open spec fn false_text() -> Seq<u8> {
    seq![0x66u8, 0x61u8, 0x6cu8, 0x73u8, 0x65u8]
}

/// The magnitude of a negative number; zero for any other.
pub open spec fn magnitude(n: i64) -> nat {
    if n < 0 {
        (-n) as nat
    } else {
        0
    }
}

/// The canonical text of a value.
pub open spec fn value_json(value: ValueView) -> Seq<u8>
    decreases value, 0nat,
{
    match value {
        ValueView::Null => null_text(),
        ValueView::Bool(b) => if b {
            true_text()
        } else {
            false_text()
        },
        ValueView::PosInt(n) => decimal(n as nat),
        ValueView::NegInt(n) => seq![0x2du8] + decimal(magnitude(n)),
        ValueView::Float(text) => vstd::utf8::encode_utf8(text),
        ValueView::String(text) => quoted(text),
        ValueView::Array(items) => seq![0x5bu8] + items_json(items, items.len()) + seq![0x5du8],
        ValueView::Object(members) => seq![0x7bu8] + members_json(
            members,
            key_order(keys(members), members.len()),
            members.len(),
        ) + seq![0x7du8],
    }
}

/// The keys of the members of an object, as they are listed.
pub open spec fn keys(members: Seq<(Seq<char>, ValueView)>) -> Seq<Seq<char>> {
    Seq::new(members.len(), |i: int| members[i].0)
}

/// Of the first `count` places in `order`, those whose key comes not
/// after `key` (where `before` holds) or after it (where it does not), in
/// their order.
pub open spec fn kept(
    order: Seq<usize>,
    keys: Seq<Seq<char>>,
    key: Seq<char>,
    before: bool,
    count: nat,
) -> Seq<usize>
    decreases count,
{
    if count == 0 || count > order.len() {
        Seq::empty()
    } else {
        let rest = kept(order, keys, key, before, (count - 1) as nat);
        let place = order[count - 1];
        if in_order(keys[place as int], key) == before {
            rest.push(place)
        } else {
            rest
        }
    }
}

/// The places of the first `count` keys in the order of the keys: each
/// key is put behind the keys that come not after it and in front of the
/// keys that come after it, so that of two equal keys the one listed first
/// stays first.
pub open spec fn key_order(keys: Seq<Seq<char>>, count: nat) -> Seq<usize>
    decreases count,
{
    if count == 0 || count > keys.len() {
        Seq::empty()
    } else {
        let earlier = key_order(keys, (count - 1) as nat);
        let key = keys[count - 1];
        kept(earlier, keys, key, true, earlier.len()).push((count - 1) as usize) + kept(
            earlier,
            keys,
            key,
            false,
            earlier.len(),
        )
    }
}

/// Whether the keys at the places of `order` stand in the order of texts.
pub open spec fn in_key_order(order: Seq<usize>, keys: Seq<Seq<char>>) -> bool {
    forall|k: int, l: int|
        0 <= k < l < order.len() ==> in_order(
            keys[(#[trigger] order[k]) as int],
            keys[(#[trigger] order[l]) as int],
        )
}

/// What is kept of places that stand in the order of their keys stands in
/// that order too, and each place that is kept is on its side of `key`.
pub proof fn lemma_kept_in_order(
    order: Seq<usize>,
    keys: Seq<Seq<char>>,
    key: Seq<char>,
    before: bool,
    count: nat,
)
    requires
        count <= order.len(),
        in_key_order(order, keys),
    ensures
        in_key_order(kept(order, keys, key, before, count), keys),
        forall|k: int|
            0 <= k < kept(order, keys, key, before, count).len() ==> in_order(
                keys[(#[trigger] kept(order, keys, key, before, count)[k]) as int],
                key,
            ) == before,
        forall|k: int, j: int|
            0 <= k < kept(order, keys, key, before, count).len() && count <= j < order.len()
                ==> in_order(
                keys[(#[trigger] kept(order, keys, key, before, count)[k]) as int],
                keys[(#[trigger] order[j]) as int],
            ),
    decreases count,
{
    if count > 0 {
        lemma_kept_in_order(order, keys, key, before, (count - 1) as nat);
        let rest = kept(order, keys, key, before, (count - 1) as nat);
        let all = kept(order, keys, key, before, count);
        let place = order[count - 1];
        assert forall|k: int, j: int| 0 <= k < all.len() && count <= j < order.len() implies in_order(
            keys[(#[trigger] all[k]) as int],
            keys[(#[trigger] order[j]) as int],
        ) by {
            if k < rest.len() {
                assert(all[k] == rest[k]);
            } else {
                assert(all[k] == order[count - 1]);
            }
        }
        assert forall|k: int, l: int| 0 <= k < l < all.len() implies in_order(
            keys[(#[trigger] all[k]) as int],
            keys[(#[trigger] all[l]) as int],
        ) by {
            assert(all[k] == rest[k]);
            if l < rest.len() {
                assert(all[l] == rest[l]);
            } else {
                assert(all[l] == order[count - 1]);
            }
        }
        assert forall|k: int| 0 <= k < all.len() implies in_order(
            keys[(#[trigger] all[k]) as int],
            key,
        ) == before by {
            if k < rest.len() {
                assert(all[k] == rest[k]);
            }
        }
    }
}

/// The members of an object are written in the order of their keys.
pub proof fn lemma_key_order_is_in_order(keys: Seq<Seq<char>>, count: nat)
    requires
        count <= keys.len() <= usize::MAX,
    ensures
        in_key_order(key_order(keys, count), keys),
    decreases count,
{
    if count > 0 {
        lemma_key_order_is_in_order(keys, (count - 1) as nat);
        let earlier = key_order(keys, (count - 1) as nat);
        let key = keys[count - 1];
        let front = kept(earlier, keys, key, true, earlier.len());
        let back = kept(earlier, keys, key, false, earlier.len());
        let all = key_order(keys, count);
        lemma_kept_in_order(earlier, keys, key, true, earlier.len());
        lemma_kept_in_order(earlier, keys, key, false, earlier.len());
        lemma_in_order_total(key, key);
        assert(all == front.push((count - 1) as usize) + back);
        assert forall|k: int, l: int| 0 <= k < l < all.len() implies in_order(
            keys[(#[trigger] all[k]) as int],
            keys[(#[trigger] all[l]) as int],
        ) by {
            let left = keys[all[k] as int];
            let right = keys[all[l] as int];
            if k < front.len() {
                assert(all[k] == front[k]);
                assert(in_order(left, key));
            } else if k == front.len() {
                assert(all[k] == (count - 1) as usize);
                assert(left == key);
            } else {
                assert(all[k] == back[k - front.len() - 1]);
            }
            if l < front.len() {
                assert(all[l] == front[l]);
            } else if l == front.len() {
                assert(all[l] == (count - 1) as usize);
                assert(right == key);
            } else {
                assert(all[l] == back[l - front.len() - 1]);
                assert(!in_order(right, key));
                lemma_in_order_total(right, key);
                assert(in_order(key, right));
            }
            if k <= front.len() && l >= front.len() {
                lemma_in_order_transitive(left, key, right);
            }
        }
    }
}

/// Whether no place occurs twice.
pub open spec fn distinct_places(order: Seq<usize>) -> bool {
    forall|k: int, l: int| 0 <= k < l < order.len() ==> #[trigger] order[k] != #[trigger] order[l]
}

/// Whether a place is among the first `count` of `order`.
pub open spec fn occurs(order: Seq<usize>, count: nat, place: usize) -> bool {
    exists|j: int| 0 <= j < count && #[trigger] order[j] == place
}

/// What is kept of distinct places are distinct places among them, on
/// their side of `key`, and every place on that side is kept.
pub proof fn lemma_kept_places(
    order: Seq<usize>,
    keys: Seq<Seq<char>>,
    key: Seq<char>,
    before: bool,
    count: nat,
)
    requires
        count <= order.len(),
        distinct_places(order),
    ensures
        distinct_places(kept(order, keys, key, before, count)),
        forall|k: int|
            0 <= k < kept(order, keys, key, before, count).len() ==> occurs(
                order,
                count,
                #[trigger] kept(order, keys, key, before, count)[k],
            ) && in_order(keys[kept(order, keys, key, before, count)[k] as int], key) == before,
        forall|j: int|
            0 <= j < count && in_order(keys[(#[trigger] order[j]) as int], key) == before
                ==> occurs(
                kept(order, keys, key, before, count),
                kept(order, keys, key, before, count).len(),
                order[j],
            ),
    decreases count,
{
    if count > 0 {
        lemma_kept_places(order, keys, key, before, (count - 1) as nat);
        let rest = kept(order, keys, key, before, (count - 1) as nat);
        let all = kept(order, keys, key, before, count);
        let place = order[count - 1];
        assert forall|k: int| 0 <= k < all.len() implies occurs(order, count, #[trigger] all[k])
            && in_order(keys[all[k] as int], key) == before by {
            if k < rest.len() {
                assert(all[k] == rest[k]);
                assert(occurs(order, (count - 1) as nat, rest[k]));
                let j = choose|j: int| 0 <= j < count - 1 && #[trigger] order[j] == rest[k];
                assert(order[j] == all[k]);
            } else {
                assert(order[count - 1] == all[k]);
            }
        }
        assert forall|k: int, l: int| 0 <= k < l < all.len() implies #[trigger] all[k]
            != #[trigger] all[l] by {
            assert(all[k] == rest[k]);
            if l < rest.len() {
                assert(all[l] == rest[l]);
            } else {
                assert(occurs(order, (count - 1) as nat, rest[k]));
                let j = choose|j: int| 0 <= j < count - 1 && #[trigger] order[j] == rest[k];
                assert(order[j] != order[count - 1]);
            }
        }
        assert forall|j: int|
            0 <= j < count && in_order(keys[(#[trigger] order[j]) as int], key)
                == before implies occurs(all, all.len(), order[j]) by {
            if j < count - 1 {
                assert(occurs(rest, rest.len(), order[j]));
                let k = choose|k: int| 0 <= k < rest.len() && #[trigger] rest[k] == order[j];
                assert(all[k] == rest[k]);
            } else {
                assert(all[all.len() - 1] == order[j]);
            }
        }
    }
}

/// The order of the keys holds each place once, and below `count`.
pub proof fn lemma_key_order_places(keys: Seq<Seq<char>>, count: nat)
    requires
        count <= keys.len() <= usize::MAX,
    ensures
        distinct_places(key_order(keys, count)),
        forall|k: int|
            0 <= k < key_order(keys, count).len() ==> (#[trigger] key_order(keys, count)[k])
                < count,
        forall|place: usize|
            place < count ==> #[trigger] occurs(
                key_order(keys, count),
                key_order(keys, count).len(),
                place,
            ),
    decreases count,
{
    if count > 0 {
        lemma_key_order_places(keys, (count - 1) as nat);
        let earlier = key_order(keys, (count - 1) as nat);
        let key = keys[count - 1];
        let front = kept(earlier, keys, key, true, earlier.len());
        let back = kept(earlier, keys, key, false, earlier.len());
        let all = key_order(keys, count);
        let last = (count - 1) as usize;
        lemma_kept_places(earlier, keys, key, true, earlier.len());
        lemma_kept_places(earlier, keys, key, false, earlier.len());
        assert(all == front.push(last) + back);
        assert forall|k: int| 0 <= k < all.len() implies (#[trigger] all[k]) < count by {
            if k < front.len() {
                assert(all[k] == front[k]);
                assert(occurs(earlier, earlier.len(), front[k]));
            } else if k == front.len() {
                assert(all[k] == last);
            } else {
                assert(all[k] == back[k - front.len() - 1]);
                assert(occurs(earlier, earlier.len(), back[k - front.len() - 1]));
            }
        }
        assert forall|k: int, l: int| 0 <= k < l < all.len() implies #[trigger] all[k]
            != #[trigger] all[l] by {
            if l < front.len() {
                assert(all[k] == front[k]);
                assert(all[l] == front[l]);
            } else if l == front.len() {
                assert(all[k] == front[k]);
                assert(all[l] == last);
                assert(occurs(earlier, earlier.len(), front[k]));
            } else {
                assert(all[l] == back[l - front.len() - 1]);
                assert(occurs(earlier, earlier.len(), back[l - front.len() - 1]));
                if k < front.len() {
                    assert(all[k] == front[k]);
                } else if k == front.len() {
                    assert(all[k] == last);
                } else {
                    assert(all[k] == back[k - front.len() - 1]);
                }
            }
        }
        assert forall|place: usize| place < count implies #[trigger] occurs(
            all,
            all.len(),
            place,
        ) by {
            if place < count - 1 {
                assert(occurs(earlier, earlier.len(), place));
                let j = choose|j: int| 0 <= j < earlier.len() && #[trigger] earlier[j] == place;
                if in_order(keys[earlier[j] as int], key) {
                    assert(occurs(front, front.len(), earlier[j]));
                    let k = choose|k: int| 0 <= k < front.len() && #[trigger] front[k] == earlier[j];
                    assert(all[k] == front[k]);
                } else {
                    assert(occurs(back, back.len(), earlier[j]));
                    let k = choose|k: int| 0 <= k < back.len() && #[trigger] back[k] == earlier[j];
                    assert(all[front.len() + 1 + k] == back[k]);
                }
            } else {
                assert(all[front.len() as int] == last);
            }
        }
    }
}

/// The members at the places of `order`, in that order.
pub open spec fn arranged(members: Seq<(Seq<char>, ValueView)>, order: Seq<usize>) -> Seq<
    (Seq<char>, ValueView),
> {
    Seq::new(order.len(), |k: int| members[order[k] as int])
}

/// Whether no key occurs twice among the members.
pub open spec fn distinct_keys(members: Seq<(Seq<char>, ValueView)>) -> bool {
    forall|k: int, l: int|
        0 <= k < l < members.len() ==> (#[trigger] members[k]).0 != (#[trigger] members[l]).0
}

/// Whether the members stand in the order of their keys, no key twice.
pub open spec fn strictly_ordered(members: Seq<(Seq<char>, ValueView)>) -> bool {
    forall|k: int, l: int|
        0 <= k < l < members.len() ==> in_order(
            (#[trigger] members[k]).0,
            (#[trigger] members[l]).0,
        ) && members[k].0 != members[l].0
}

/// Members can stand in the order of their keys in one way only.
pub proof fn lemma_one_arrangement(
    one: Seq<(Seq<char>, ValueView)>,
    other: Seq<(Seq<char>, ValueView)>,
)
    requires
        strictly_ordered(one),
        strictly_ordered(other),
        forall|member: (Seq<char>, ValueView)| one.contains(member) <==> other.contains(member),
    ensures
        one == other,
    decreases one.len(),
{
    if one.len() == 0 {
        if other.len() > 0 {
            assert(other.contains(other[0]));
            assert(one.contains(other[0]));
        }
        assert(one =~= other);
    } else {
        let a = one.last();
        assert(one.contains(a));
        assert(other.contains(a));
        let b = other.last();
        assert(other.contains(b));
        assert(one.contains(b));
        let j = choose|j: int| 0 <= j < other.len() && other[j] == a;
        let i = choose|i: int| 0 <= i < one.len() && one[i] == b;
        lemma_in_order_total(a.0, a.0);
        lemma_in_order_total(b.0, b.0);
        assert(in_order(a.0, b.0)) by {
            if j < other.len() - 1 {
                assert(in_order(other[j].0, other[other.len() - 1].0));
            }
        }
        assert(in_order(b.0, a.0)) by {
            if i < one.len() - 1 {
                assert(in_order(one[i].0, one[one.len() - 1].0));
            }
        }
        lemma_in_order_antisymmetric(a.0, b.0);
        assert(i == one.len() - 1) by {
            if i < one.len() - 1 {
                assert(one[i].0 != one[one.len() - 1].0);
            }
        }
        assert(a == b);
        let shorter = one.drop_last();
        let lesser = other.drop_last();
        assert forall|member: (Seq<char>, ValueView)| shorter.contains(member) implies lesser.contains(
            member,
        ) by {
            let k = choose|k: int| 0 <= k < shorter.len() && shorter[k] == member;
            assert(one[k] == member);
            assert(one.contains(member));
            let l = choose|l: int| 0 <= l < other.len() && other[l] == member;
            assert(one[k].0 != one[one.len() - 1].0);
            assert(lesser[l] == member);
        }
        assert forall|member: (Seq<char>, ValueView)| lesser.contains(member) implies shorter.contains(
            member,
        ) by {
            let k = choose|k: int| 0 <= k < lesser.len() && lesser[k] == member;
            assert(other[k] == member);
            assert(other.contains(member));
            let l = choose|l: int| 0 <= l < one.len() && one[l] == member;
            assert(other[k].0 != other[other.len() - 1].0);
            assert(shorter[l] == member);
        }
        assert forall|k: int, l: int| 0 <= k < l < shorter.len() implies in_order(
            (#[trigger] shorter[k]).0,
            (#[trigger] shorter[l]).0,
        ) && shorter[k].0 != shorter[l].0 by {
            assert(shorter[k] == one[k]);
            assert(shorter[l] == one[l]);
        }
        assert forall|k: int, l: int| 0 <= k < l < lesser.len() implies in_order(
            (#[trigger] lesser[k]).0,
            (#[trigger] lesser[l]).0,
        ) && lesser[k].0 != lesser[l].0 by {
            assert(lesser[k] == other[k]);
            assert(lesser[l] == other[l]);
        }
        lemma_one_arrangement(shorter, lesser);
        assert(one =~= shorter.push(a));
        assert(other =~= lesser.push(b));
    }
}

/// The members of an object in the order of their keys: where no key
/// occurs twice they stand strictly in that order, and they are the
/// members of the object.
pub proof fn lemma_arranged(members: Seq<(Seq<char>, ValueView)>)
    requires
        members.len() <= usize::MAX,
        distinct_keys(members),
    ensures
        strictly_ordered(arranged(members, key_order(keys(members), members.len()))),
        forall|member: (Seq<char>, ValueView)|
            arranged(members, key_order(keys(members), members.len())).contains(member)
                <==> members.contains(member),
{
    let order = key_order(keys(members), members.len());
    let sorted = arranged(members, order);
    lemma_key_order_places(keys(members), members.len());
    lemma_key_order_is_in_order(keys(members), members.len());
    assert forall|k: int, l: int| 0 <= k < l < sorted.len() implies in_order(
        (#[trigger] sorted[k]).0,
        (#[trigger] sorted[l]).0,
    ) && sorted[k].0 != sorted[l].0 by {
        let p = order[k];
        let q = order[l];
        assert(p != q);
        assert(in_order(keys(members)[p as int], keys(members)[q as int]));
        if p < q {
            assert(members[p as int].0 != members[q as int].0);
        } else {
            assert(members[q as int].0 != members[p as int].0);
        }
    }
    assert forall|member: (Seq<char>, ValueView)| sorted.contains(member) implies members.contains(
        member,
    ) by {
        let k = choose|k: int| 0 <= k < sorted.len() && sorted[k] == member;
        assert(order[k] < members.len());
        assert(members[order[k] as int] == member);
    }
    assert forall|member: (Seq<char>, ValueView)| members.contains(member) implies sorted.contains(
        member,
    ) by {
        let i = choose|i: int| 0 <= i < members.len() && members[i] == member;
        assert(occurs(order, order.len(), i as usize));
        let k = choose|k: int| 0 <= k < order.len() && #[trigger] order[k] == i as usize;
        assert(sorted[k] == member);
    }
}

/// The text of members depends on the members at the places of the order
/// alone.
pub proof fn lemma_text_of_arranged(
    one: Seq<(Seq<char>, ValueView)>,
    order: Seq<usize>,
    other: Seq<(Seq<char>, ValueView)>,
    places: Seq<usize>,
    count: nat,
)
    requires
        count <= order.len(),
        order.len() == places.len(),
        forall|k: int| 0 <= k < order.len() ==> (#[trigger] order[k]) < one.len(),
        forall|k: int| 0 <= k < places.len() ==> (#[trigger] places[k]) < other.len(),
        arranged(one, order) == arranged(other, places),
    ensures
        members_json(one, order, count) == members_json(other, places, count),
    decreases count,
{
    if count > 0 {
        lemma_text_of_arranged(one, order, other, places, (count - 1) as nat);
        assert(arranged(one, order)[count - 1] == one[order[count - 1] as int]);
        assert(arranged(other, places)[count - 1] == other[places[count - 1] as int]);
    }
}

/// The canonical text of an object, and of named parameters, does not
/// depend on the order in which the members are listed: two lists of the
/// same members, in each of which no key occurs twice, have the same text.
pub proof fn lemma_text_does_not_depend_on_order(
    one: Seq<(Seq<char>, ValueView)>,
    other: Seq<(Seq<char>, ValueView)>,
)
    requires
        one.len() <= usize::MAX,
        other.len() <= usize::MAX,
        distinct_keys(one),
        distinct_keys(other),
        forall|member: (Seq<char>, ValueView)| one.contains(member) <==> other.contains(member),
    ensures
        value_json(ValueView::Object(one)) == value_json(ValueView::Object(other)),
        params_json(ParamsView::Named(one)) == params_json(ParamsView::Named(other)),
{
    let order = key_order(keys(one), one.len());
    let places = key_order(keys(other), other.len());
    lemma_arranged(one);
    lemma_arranged(other);
    assert forall|member: (Seq<char>, ValueView)|
        arranged(one, order).contains(member) <==> arranged(other, places).contains(member) by {
        assert(arranged(one, order).contains(member) <==> one.contains(member));
        assert(arranged(other, places).contains(member) <==> other.contains(member));
    }
    lemma_one_arrangement(arranged(one, order), arranged(other, places));
    lemma_key_order_places(keys(one), one.len());
    lemma_key_order_places(keys(other), other.len());
    assert(order.len() == arranged(one, order).len());
    assert(places.len() == arranged(other, places).len());
    lemma_key_order_length(keys(one), one.len());
    lemma_key_order_length(keys(other), other.len());
    lemma_text_of_arranged(one, order, other, places, order.len());
}

/// The order of the keys has a place for each key.
pub proof fn lemma_key_order_length(keys: Seq<Seq<char>>, count: nat)
    requires
        count <= keys.len(),
    ensures
        key_order(keys, count).len() == count,
    decreases count,
{
    if count > 0 {
        lemma_key_order_length(keys, (count - 1) as nat);
        let earlier = key_order(keys, (count - 1) as nat);
        lemma_kept_lengths(earlier, keys, keys[count - 1], earlier.len());
    }
}

/// Each place is kept on one side or on the other.
pub proof fn lemma_kept_lengths(order: Seq<usize>, keys: Seq<Seq<char>>, key: Seq<char>, count: nat)
    requires
        count <= order.len(),
    ensures
        kept(order, keys, key, true, count).len() + kept(order, keys, key, false, count).len()
            == count,
    decreases count,
{
    if count > 0 {
        lemma_kept_lengths(order, keys, key, (count - 1) as nat);
    }
}

/// The canonical text of the first `count` items, with commas between them.
pub open spec fn items_json(items: Seq<ValueView>, count: nat) -> Seq<u8>
    decreases items, count,
{
    if count == 0 || count > items.len() {
        Seq::empty()
    } else if count == 1 {
        value_json(items[0])
    } else {
        items_json(items, (count - 1) as nat) + seq![0x2cu8] + value_json(items[count - 1])
    }
}

/// The canonical text of the members at the first `count` places of
/// `order`, with commas between them.
pub open spec fn members_json(
    members: Seq<(Seq<char>, ValueView)>,
    order: Seq<usize>,
    count: nat,
) -> Seq<u8>
    decreases members, count,
{
    if count == 0 || count > order.len() {
        Seq::empty()
    } else {
        let place = order[count - 1] as int;
        let one = if place < members.len() {
            quoted(members[place].0) + seq![0x3au8] + value_json(members[place].1)
        } else {
            Seq::empty()
        };
        if count == 1 {
            one
        } else {
            members_json(members, order, (count - 1) as nat) + seq![0x2cu8] + one
        }
    }
}

/// The canonical text of the parameters of a call.
pub open spec fn params_json(params: ParamsView) -> Seq<u8> {
    match params {
        ParamsView::Absent => null_text(),
        ParamsView::Positional(items) => seq![0x5bu8] + items_json(items, items.len())
            + seq![0x5du8],
        ParamsView::Named(members) => seq![0x7bu8] + members_json(
            members,
            key_order(keys(members), members.len()),
            members.len(),
        ) + seq![0x7du8],
    }
}

/// Appends the bytes of `text` to `out`.
pub fn write_bytes(out: &mut Vec<u8>, text: &[u8])
    ensures
        final(out)@ == old(out)@ + text@,
{
    let mut i: usize = 0;
    while i < text.len()
        invariant
            i <= text.len(),
            out@ == old(out)@ + text@.subrange(0, i as int),
        decreases text.len() - i,
    {
        out.push(text[i]);
        assert(out@ =~= old(out)@ + text@.subrange(0, i as int + 1));
        i += 1;
    }
    assert(text@.subrange(0, text@.len() as int) =~= text@);
}

/// Appends the decimal digits of `n` to `out`.
pub fn write_decimal(out: &mut Vec<u8>, n: u64)
    ensures
        final(out)@ == old(out)@ + decimal(n as nat),
{
    let mut digits: Vec<u8> = Vec::new();
    let mut rest: u64 = n;
    // The digits from the last to the first.
    while rest >= 10
        invariant
            decimal(n as nat) == decimal(rest as nat) + digits@.reverse(),
        decreases rest,
    {
        let digit = (48 + rest % 10) as u8;
        let ghost before = digits@;
        digits.push(digit);
        assert(digits@.reverse() =~= seq![digit] + before.reverse());
        assert(decimal(rest as nat) + before.reverse() =~= decimal((rest / 10) as nat)
            + digits@.reverse());
        rest = rest / 10;
    }
    out.push((48 + rest) as u8);
    let ghost start = out@;
    let mut i: usize = digits.len();
    while i > 0
        invariant
            i <= digits.len(),
            out@ == start + digits@.reverse().subrange(0, digits@.len() - i),
        decreases i,
    {
        out.push(digits[i - 1]);
        assert(out@ =~= start + digits@.reverse().subrange(0, digits@.len() - i + 1));
        i -= 1;
    }
    assert(digits@.reverse().subrange(0, digits@.len() as int) =~= digits@.reverse());
    assert(out@ =~= old(out)@ + decimal(n as nat));
}

/// The lower-case hexadecimal digit of a number below 16.
fn hex(n: u8) -> (r: u8)
    requires
        n < 16,
    ensures
        r == hex_digit(n),
{
    if n < 10 {
        48 + n
    } else {
        87 + n
    }
}

/// Appends the bytes of a string to `out` as they stand inside quotes.
pub fn write_escaped(out: &mut Vec<u8>, bytes: &[u8])
    ensures
        final(out)@ == old(out)@ + escaped(bytes@),
{
    let mut i: usize = 0;
    while i < bytes.len()
        invariant
            i <= bytes.len(),
            out@ == old(out)@ + escaped(bytes@.subrange(0, i as int)),
        decreases bytes.len() - i,
    {
        let byte = bytes[i];
        let ghost before = out@;
        let ghost prefix = bytes@.subrange(0, i as int + 1);
        assert(prefix.drop_last() =~= bytes@.subrange(0, i as int));
        if byte == 0x22 {
            out.push(0x5c);
            out.push(0x22);
        } else if byte == 0x5c {
            out.push(0x5c);
            out.push(0x5c);
        } else if byte < 0x20 {
            out.push(0x5c);
            out.push(0x75);
            out.push(0x30);
            out.push(0x30);
            out.push(hex(byte / 16));
            out.push(hex(byte % 16));
        } else {
            out.push(byte);
        }
        assert(out@ =~= before + escaped_byte(byte));
        assert(out@ =~= old(out)@ + escaped(prefix));
        i += 1;
    }
    assert(bytes@.subrange(0, bytes@.len() as int) =~= bytes@);
}

/// Appends a string in quotes to `out`.
pub fn write_quoted(out: &mut Vec<u8>, text: &String)
    ensures
        final(out)@ == old(out)@ + quoted(text@),
{
    out.push(0x22);
    write_escaped(out, text.as_str().as_bytes());
    out.push(0x22);
    assert(out@ =~= old(out)@ + quoted(text@));
}

/// Appends the canonical text of a value to `out`.
#[verifier::loop_isolation(false)]
pub fn write_value(out: &mut Vec<u8>, value: &Value)
    ensures
        final(out)@ == old(out)@ + value_json(value@),
    decreases value,
{
    match value {
        Value::Null => {
            write_bytes(out, [0x6eu8, 0x75u8, 0x6cu8, 0x6cu8].as_slice());
            assert(out@ =~= old(out)@ + null_text());
        },
        Value::Bool(b) => {
            if *b {
                write_bytes(out, [0x74u8, 0x72u8, 0x75u8, 0x65u8].as_slice());
                assert(out@ =~= old(out)@ + true_text());
            } else {
                write_bytes(out, [0x66u8, 0x61u8, 0x6cu8, 0x73u8, 0x65u8].as_slice());
                assert(out@ =~= old(out)@ + false_text());
            }
        },
        Value::Number(Number::PosInt(n)) => {
            write_decimal(out, *n);
        },
        Value::Number(Number::NegInt(n)) => {
            out.push(0x2d);
            let size: u64 = if *n < 0 {
                (-(*n + 1)) as u64 + 1
            } else {
                0
            };
            write_decimal(out, size);
            assert(out@ =~= old(out)@ + (seq![0x2du8] + decimal(magnitude(*n))));
        },
        Value::Number(Number::Float(text)) => {
            write_bytes(out, text.as_str().as_bytes());
        },
        Value::String(text) => {
            write_quoted(out, text);
        },
        Value::Array(items) => {
            proof {
                lemma_array_view(*items);
            }
            out.push(0x5b);
            write_items(out, items);
            out.push(0x5d);
            assert(out@ =~= old(out)@ + value_json(value@));
        },
        Value::Object(members) => {
            proof {
                lemma_object_view(*members);
            }
            out.push(0x7b);
            write_members(out, members);
            out.push(0x7d);
            assert(out@ =~= old(out)@ + value_json(value@));
        },
    }
}

/// Appends the canonical text of the items of an array to `out`, with commas between them.
#[verifier::loop_isolation(false)]
pub fn write_items(out: &mut Vec<u8>, items: &Vec<Value>)
    ensures
        final(out)@ == old(out)@ + items_json(values_view(items@), items@.len()),
    decreases items,
{
    let ghost all = values_view(items@);
    let mut i: usize = 0;
    assert(out@ =~= old(out)@ + items_json(all, 0));
    while i < items.len()
        invariant
            i <= items.len(),
            all == values_view(items@),
            out@ == old(out)@ + items_json(all, i as nat),
        decreases items.len() - i,
    {
        let ghost before = out@;
        if i > 0 {
            out.push(0x2c);
        }
        proof {
            broadcast use vstd::std_specs::vec::axiom_vec_index_decreases;

        }
        write_value(out, &items[i]);
        assert(out@ =~= old(out)@ + items_json(all, (i + 1) as nat));
        i += 1;
    }
}

/// The places of the members of an object in the order of their keys.
#[verifier::loop_isolation(false)]
pub fn order_of(members: &Vec<(String, Value)>) -> (r: Vec<usize>)
    ensures
        r@ == key_order(keys(members_view(members@)), members@.len()),
        r@.len() == members@.len(),
        forall|k: int| 0 <= k < r@.len() ==> (#[trigger] r@[k]) < members@.len(),
{
    let ghost all = keys(members_view(members@));
    let mut order: Vec<usize> = Vec::new();
    let mut i: usize = 0;
    while i < members.len()
        invariant
            i <= members.len(),
            order@ == key_order(all, i as nat),
            order@.len() == i,
            forall|k: int| 0 <= k < order@.len() ==> (#[trigger] order@[k]) < i,
        decreases members.len() - i,
    {
        let key = members[i].0.as_str();
        let mut next: Vec<usize> = Vec::new();
        let mut kept_before: usize = 0;
        let mut j: usize = 0;
        while j < order.len()
            invariant
                j <= order@.len(),
                kept_before <= j,
                key@ == all[i as int],
                next@ == kept(order@, all, key@, true, j as nat),
                next@.len() == kept_before,
                forall|k: int| 0 <= k < next@.len() ==> (#[trigger] next@[k]) < i,
            decreases order.len() - j,
        {
            let place = order[j];
            if are_in_order(members[place].0.as_str(), key) {
                next.push(place);
                kept_before += 1;
            }
            j += 1;
        }
        next.push(i);
        let ghost front = next@;
        let mut kept_after: usize = 0;
        let mut j: usize = 0;
        while j < order.len()
            invariant
                j <= order@.len(),
                next@ == front + kept(order@, all, key@, false, j as nat),
                next@.len() == front.len() + kept_after,
                front.len() == kept_before + 1,
                kept(order@, all, key@, true, j as nat).len() == j - kept_after,
                forall|k: int| 0 <= k < next@.len() ==> (#[trigger] next@[k]) <= i,
            decreases order.len() - j,
        {
            let place = order[j];
            if !are_in_order(members[place].0.as_str(), key) {
                next.push(place);
                kept_after += 1;
                assert(next@ =~= front + kept(order@, all, key@, false, (j + 1) as nat));
            }
            j += 1;
        }
        order = next;
        i += 1;
    }
    order
}

/// Appends the canonical text of the members of an object to `out`, in
/// the order of their keys and with commas between them.
#[verifier::loop_isolation(false)]
pub fn write_members(out: &mut Vec<u8>, members: &Vec<(String, Value)>)
    ensures
        final(out)@ == old(out)@ + members_json(
            members_view(members@),
            key_order(keys(members_view(members@)), members@.len()),
            members@.len(),
        ),
    decreases members,
{
    let ghost all = members_view(members@);
    let order = order_of(members);
    let mut i: usize = 0;
    assert(out@ =~= old(out)@ + members_json(all, order@, 0));
    while i < order.len()
        invariant
            i <= order@.len(),
            all == members_view(members@),
            out@ == old(out)@ + members_json(all, order@, i as nat),
        decreases order.len() - i,
    {
        if i > 0 {
            out.push(0x2c);
        }
        let place = order[i];
        write_quoted(out, &members[place].0);
        out.push(0x3a);
        proof {
            broadcast use vstd::std_specs::vec::axiom_vec_index_decreases;

        }
        write_value(out, &members[place].1);
        assert(out@ =~= old(out)@ + members_json(all, order@, (i + 1) as nat));
        i += 1;
    }
}

/// The canonical text of the parameters of a call.
pub fn params_text(params: &Params) -> (r: Vec<u8>)
    ensures
        r@ == params_json(params@),
{
    let mut out: Vec<u8> = Vec::new();
    match params {
        Params::Absent => {
            write_bytes(&mut out, [0x6eu8, 0x75u8, 0x6cu8, 0x6cu8].as_slice());
            assert(out@ =~= null_text());
        },
        Params::Positional(items) => {
            out.push(0x5b);
            write_items(&mut out, items);
            out.push(0x5d);
            assert(out@ =~= params_json(params@));
        },
        Params::Named(members) => {
            out.push(0x7b);
            write_members(&mut out, members);
            out.push(0x7d);
            assert(out@ =~= params_json(params@));
        },
    }
    out
}

} // verus!

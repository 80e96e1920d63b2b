//! A small map from keys to values, kept as a list of entries in which no
//! key occurs twice.

use vstd::prelude::*;

verus! {

/// A type whose values can serve as keys: two values are the same key
/// where their models are equal.
pub trait Key: Sized {
    /// The mathematical content of a key.
    type Model;

    /// The content of this key.
    spec fn model(&self) -> Self::Model;

    /// Whether two values are the same key.
    fn same(&self, other: &Self) -> (r: bool)
        ensures
            r == (self.model() == other.model()),
    ;

    /// A copy of this key.
    fn duplicate(&self) -> (r: Self)
        ensures
            r.model() == self.model(),
    ;
}

impl Key for String {
    type Model = Seq<char>;

    open spec fn model(&self) -> Seq<char> {
        self@
    }

    fn same(&self, other: &String) -> (r: bool) {
        *self == *other
    }

    fn duplicate(&self) -> (r: String) {
        self.clone()
    }
}

/// Whether entry `i` has the given key.
pub open spec fn has_key<K: Key, V>(entries: Seq<(K, V)>, i: int, key: K::Model) -> bool {
    0 <= i < entries.len() && entries[i].0.model() == key
}

/// Whether no key occurs twice.
pub open spec fn distinct<K: Key, V>(entries: Seq<(K, V)>) -> bool {
    forall|i: int, j: int|
        0 <= i < entries.len() && 0 <= j < entries.len() && entries[i].0.model()
            == entries[j].0.model() ==> i == j
}

/// The map that a list of entries stands for.
pub open spec fn as_map<K: Key, V>(entries: Seq<(K, V)>) -> Map<K::Model, V> {
    Map::new(
        |key: K::Model| exists|i: int| has_key(entries, i, key),
        |key: K::Model| entries[choose|i: int| has_key(entries, i, key)].1,
    )
}

/// Each entry of a list without repeated keys is what the map holds under its key.
pub proof fn lemma_entry<K: Key, V>(entries: Seq<(K, V)>, i: int)
    requires
        distinct(entries),
        0 <= i < entries.len(),
    ensures
        as_map(entries).contains_key(entries[i].0.model()),
        as_map(entries)[entries[i].0.model()] == entries[i].1,
{
    let key = entries[i].0.model();
    assert(has_key(entries, i, key));
    let chosen = choose|j: int| has_key(entries, j, key);
    assert(chosen == i);
}

/// A key that no entry has is not in the map.
pub proof fn lemma_absent<K: Key, V>(entries: Seq<(K, V)>, key: K::Model)
    requires
        forall|i: int| 0 <= i < entries.len() ==> entries[i].0.model() != key,
    ensures
        !as_map(entries).contains_key(key),
{
}

/// A key of the map is the key of some entry.
pub proof fn lemma_present<K: Key, V>(entries: Seq<(K, V)>, key: K::Model) -> (i: int)
    requires
        as_map(entries).contains_key(key),
    ensures
        has_key(entries, i, key),
{
    choose|i: int| has_key(entries, i, key)
}

/// A list without repeated keys stands for a map with as many keys as
/// the list has entries.
pub proof fn lemma_size<K: Key, V>(entries: Seq<(K, V)>)
    requires
        distinct(entries),
    ensures
        as_map(entries).dom().finite(),
        as_map(entries).dom().len() == entries.len(),
    decreases entries.len(),
{
    if entries.len() == 0 {
        assert(as_map(entries).dom() =~= Set::<K::Model>::empty());
    } else {
        let front = entries.drop_last();
        let last = entries.last().0.model();
        assert forall|i: int, j: int|
            0 <= i < front.len() && 0 <= j < front.len() && front[i].0.model()
                == front[j].0.model() implies i == j by {
            assert(front[i] == entries[i]);
            assert(front[j] == entries[j]);
        }
        lemma_size(front);
        if as_map(front).contains_key(last) {
            let i = lemma_present(front, last);
            assert(front[i] == entries[i]);
        }
        assert forall|key: K::Model| #[trigger]
            as_map(entries).dom().contains(key) implies as_map(front).dom().insert(
            last,
        ).contains(key) by {
            let i = lemma_present(entries, key);
            if i < front.len() {
                assert(front[i] == entries[i]);
                assert(has_key(front, i, key));
            }
        }
        assert forall|key: K::Model| #[trigger]
            as_map(front).dom().insert(last).contains(key) implies as_map(
            entries,
        ).dom().contains(key) by {
            if key == last {
                assert(has_key(entries, entries.len() - 1, key));
            } else {
                let i = lemma_present(front, key);
                assert(front[i] == entries[i]);
                assert(has_key(entries, i, key));
            }
        }
        assert(as_map(entries).dom() =~= as_map(front).dom().insert(last));
    }
}

/// A map from keys to values.
pub struct Table<K, V> {
    entries: Vec<(K, V)>,
}

impl<K: Key, V> View for Table<K, V> {
    type V = Map<K::Model, V>;

    closed spec fn view(&self) -> Map<K::Model, V> {
        as_map(self.entries@)
    }
}

impl<K: Key, V> Table<K, V> {
    /// Whether no key occurs twice among the entries.
    pub closed spec fn wf(&self) -> bool {
        distinct(self.entries@)
    }

    /// An empty table.
    pub fn new() -> (r: Self)
        ensures
            r.wf(),
            r@ == Map::<K::Model, V>::empty(),
    {
        let r = Table { entries: Vec::new() };
        assert(r@ =~= Map::<K::Model, V>::empty());
        r
    }

    /// The place of the entry with the given key, if there is one.
    fn find(&self, key: &K) -> (r: Option<usize>)
        requires
            self.wf(),
        ensures
            match r {
                Some(i) => has_key(self.entries@, i as int, key.model()),
                None => !self@.contains_key(key.model()),
            },
            r is Some == self@.contains_key(key.model()),
    {
        let mut i: usize = 0;
        while i < self.entries.len()
            invariant
                i <= self.entries.len(),
                distinct(self.entries@),
                forall|j: int| 0 <= j < i ==> self.entries@[j].0.model() != key.model(),
            decreases self.entries.len() - i,
        {
            if self.entries[i].0.same(key) {
                proof {
                    lemma_entry(self.entries@, i as int);
                }
                return Some(i);
            }
            i += 1;
        }
        proof {
            lemma_absent(self.entries@, key.model());
        }
        None
    }

    /// Whether the table has an entry for the key.
    pub fn contains_key(&self, key: &K) -> (r: bool)
        requires
            self.wf(),
        ensures
            r == self@.contains_key(key.model()),
    {
        self.find(key).is_some()
    }

    /// The value under the key, if there is one.
    pub fn get(&self, key: &K) -> (r: Option<&V>)
        requires
            self.wf(),
        ensures
            match r {
                Some(value) => self@.contains_key(key.model()) && *value == self@[key.model()],
                None => !self@.contains_key(key.model()),
            },
    {
        match self.find(key) {
            Some(i) => {
                proof {
                    lemma_entry(self.entries@, i as int);
                }
                Some(&self.entries[i].1)
            },
            None => None,
        }
    }

    /// Puts a value under the key and gives back the value that was there.
    pub fn insert(&mut self, key: K, value: V) -> (r: Option<V>)
        requires
            old(self).wf(),
        ensures
            final(self).wf(),
            final(self)@ == old(self)@.insert(key.model(), value),
            match r {
                Some(previous) => old(self)@.contains_key(key.model()) && previous == old(self)@[key.model()],
                None => !old(self)@.contains_key(key.model()),
            },
    {
        let ghost before = self.entries@;
        let previous = match self.find(&key) {
            Some(i) => {
                proof {
                    lemma_entry(before, i as int);
                }
                let entry = self.entries.remove(i);
                Some(entry.1)
            },
            None => None,
        };
        let ghost between = self.entries@;
        proof {
            assert forall|j: int| 0 <= j < between.len() implies between[j].0.model()
                != key.model() by {
                if previous is Some {
                    let i = choose|i: int| has_key(before, i, key.model());
                    if j < i {
                        assert(between[j] == before[j]);
                    } else {
                        assert(between[j] == before[j + 1]);
                    }
                } else {
                    if as_map(before).contains_key(key.model()) {
                    }
                    assert(!has_key(before, j, key.model()));
                }
            }
            assert(distinct(between)) by {
                assert forall|a: int, b: int|
                    0 <= a < between.len() && 0 <= b < between.len() && between[a].0.model()
                        == between[b].0.model() implies a == b by {
                    if previous is Some {
                        let i = choose|i: int| has_key(before, i, key.model());
                        let a0 = if a < i { a } else { a + 1 };
                        let b0 = if b < i { b } else { b + 1 };
                        assert(between[a] == before[a0]);
                        assert(between[b] == before[b0]);
                    }
                }
            }
        }
        self.entries.push((key, value));
        proof {
            let after = self.entries@;
            assert(distinct(after)) by {
                assert forall|a: int, b: int|
                    0 <= a < after.len() && 0 <= b < after.len() && after[a].0.model()
                        == after[b].0.model() implies a == b by {
                    if a < between.len() {
                        assert(after[a] == between[a]);
                    }
                    if b < between.len() {
                        assert(after[b] == between[b]);
                    }
                }
            }
            let target = as_map(before).insert(key.model(), value);
            assert forall|k: K::Model| #[trigger]
                as_map(after).dom().contains(k) implies target.dom().contains(k) && target[k]
                == as_map(after)[k] by {
                let j = lemma_present(after, k);
                lemma_entry(after, j);
                if j < between.len() {
                    assert(after[j] == between[j]);
                    if previous is Some {
                        let i = choose|i: int| has_key(before, i, key.model());
                        let j0 = if j < i { j } else { j + 1 };
                        assert(between[j] == before[j0]);
                        lemma_entry(before, j0);
                    } else {
                        assert(between[j] == before[j]);
                        lemma_entry(before, j);
                    }
                }
            }
            assert forall|k: K::Model| #[trigger]
                target.dom().contains(k) implies as_map(after).dom().contains(k) by {
                if k == key.model() {
                    assert(has_key(after, after.len() - 1, k));
                } else {
                    let j0 = lemma_present(before, k);
                    if previous is Some {
                        let i = choose|i: int| has_key(before, i, key.model());
                        let j = if j0 < i { j0 } else { j0 - 1 };
                        assert(between[j] == before[j0]);
                        assert(after[j] == between[j]);
                        assert(has_key(after, j, k));
                    } else {
                        assert(between[j0] == before[j0]);
                        assert(after[j0] == between[j0]);
                        assert(has_key(after, j0, k));
                    }
                }
            }
            assert(as_map(after) =~= target);
        }
        previous
    }

    /// Takes the entry with the key out of the table and gives its value.
    pub fn remove(&mut self, key: &K) -> (r: Option<V>)
        requires
            old(self).wf(),
        ensures
            final(self).wf(),
            final(self)@ == old(self)@.remove(key.model()),
            match r {
                Some(previous) => old(self)@.contains_key(key.model()) && previous == old(self)@[key.model()],
                None => !old(self)@.contains_key(key.model()),
            },
    {
        let ghost before = self.entries@;
        match self.find(key) {
            None => {
                assert(as_map(before).remove(key.model()) =~= as_map(before));
                None
            },
            Some(i) => {
                proof {
                    lemma_entry(before, i as int);
                }
                let entry = self.entries.remove(i);
                proof {
                    let after = self.entries@;
                    assert forall|a: int, b: int|
                        0 <= a < after.len() && 0 <= b < after.len() && after[a].0.model()
                            == after[b].0.model() implies a == b by {
                        let a0 = if a < i { a } else { a + 1 };
                        let b0 = if b < i { b } else { b + 1 };
                        assert(after[a] == before[a0]);
                        assert(after[b] == before[b0]);
                    }
                    let target = as_map(before).remove(key.model());
                    assert forall|k: K::Model| #[trigger]
                        as_map(after).dom().contains(k) implies target.dom().contains(k)
                        && target[k] == as_map(after)[k] by {
                        let j = lemma_present(after, k);
                        lemma_entry(after, j);
                        let j0 = if j < i { j } else { j + 1 };
                        assert(after[j] == before[j0]);
                        lemma_entry(before, j0);
                    }
                    assert forall|k: K::Model| #[trigger]
                        target.dom().contains(k) implies as_map(after).dom().contains(k) by {
                        let j0 = lemma_present(before, k);
                        let j = if j0 < i { j0 } else { j0 - 1 };
                        assert(after[j] == before[j0]);
                        assert(has_key(after, j, k));
                    }
                    assert(as_map(after) =~= target);
                }
                Some(entry.1)
            },
        }
    }

    /// Takes every entry out of the table.
    pub fn take_all(&mut self) -> (r: Vec<(K, V)>)
        requires
            old(self).wf(),
        ensures
            final(self).wf(),
            final(self)@ == Map::<K::Model, V>::empty(),
            distinct(r@),
            as_map(r@) == old(self)@,
    {
        let mut out: Vec<(K, V)> = Vec::new();
        std::mem::swap(&mut self.entries, &mut out);
        assert(self@ =~= Map::<K::Model, V>::empty());
        out
    }

    /// The number of entries.
    pub fn len(&self) -> (r: usize)
        requires
            self.wf(),
        ensures
            self@.dom().finite(),
            r == self@.dom().len(),
    {
        proof {
            lemma_size(self.entries@);
        }
        self.entries.len()
    }
}

} // verus!

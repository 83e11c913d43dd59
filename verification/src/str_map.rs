//! An insertion-ordered map from text keys to values, kept in a vector.

use vstd::prelude::*;

verus! {

/// The position of `key` among `keys`, or `-1` where it does not occur.
pub open spec fn position_of(keys: Seq<Seq<char>>, key: Seq<char>) -> int
    decreases keys.len(),
{
    if keys.len() == 0 {
        -1
    } else if keys.last() == key {
        keys.len() - 1
    } else {
        position_of(keys.drop_last(), key)
    }
}

/// No key occurs twice.
pub open spec fn distinct(keys: Seq<Seq<char>>) -> bool {
    forall|i: int, j: int| 0 <= i < j < keys.len() ==> keys[i] != keys[j]
}

/// The mathematical map that parallel sequences of keys and values stand for.
pub open spec fn map_of<V>(keys: Seq<Seq<char>>, values: Seq<V>) -> Map<Seq<char>, V> {
    Map::new(
        |k: Seq<char>| position_of(keys, k) >= 0,
        |k: Seq<char>| values[position_of(keys, k)],
    )
}

/// `position_of` returns an index at which the key stands, or `-1` where
/// there is none.
pub proof fn lemma_position_of(keys: Seq<Seq<char>>, key: Seq<char>)
    ensures
        -1 <= position_of(keys, key) < keys.len(),
        position_of(keys, key) >= 0 ==> keys[position_of(keys, key)] == key,
        position_of(keys, key) == -1 ==> forall|i: int| 0 <= i < keys.len() ==> keys[i] != key,
    decreases keys.len(),
{
    if keys.len() > 0 && keys.last() != key {
        let rest = keys.drop_last();
        lemma_position_of(rest, key);
        if position_of(keys, key) == -1 {
            assert forall|i: int| 0 <= i < keys.len() implies keys[i] != key by {
                if i < rest.len() {
                    assert(rest[i] == keys[i]);
                }
            }
        }
    }
}

/// Among distinct keys, a key that stands at `i` has position `i`.
pub proof fn lemma_position_is(keys: Seq<Seq<char>>, key: Seq<char>, i: int)
    requires
        distinct(keys),
        0 <= i < keys.len(),
        keys[i] == key,
    ensures
        position_of(keys, key) == i,
{
    lemma_position_of(keys, key);
}

/// A key that stands nowhere has position `-1`.
pub proof fn lemma_position_none(keys: Seq<Seq<char>>, key: Seq<char>)
    requires
        forall|i: int| 0 <= i < keys.len() ==> keys[i] != key,
    ensures
        position_of(keys, key) == -1,
{
    lemma_position_of(keys, key);
}

/// Appending a fresh key with its value inserts it into the map.
pub proof fn lemma_map_push<V>(keys: Seq<Seq<char>>, values: Seq<V>, key: Seq<char>, value: V)
    requires
        keys.len() == values.len(),
        distinct(keys),
        position_of(keys, key) == -1,
    ensures
        distinct(keys.push(key)),
        map_of(keys.push(key), values.push(value)) == map_of(keys, values).insert(key, value),
{
    let keys2 = keys.push(key);
    let values2 = values.push(value);
    lemma_position_of(keys, key);
    assert(keys2.drop_last() == keys);
    assert forall|k: Seq<char>| #[trigger] position_of(keys2, k) == (if k == key {
        keys.len() as int
    } else {
        position_of(keys, k)
    }) by {}
    assert forall|k: Seq<char>| position_of(keys, k) >= 0 implies #[trigger] values2[position_of(
        keys,
        k,
    )] == values[position_of(keys, k)] by {
        lemma_position_of(keys, k);
    }
    assert(map_of(keys2, values2) =~= map_of(keys, values).insert(key, value));
}

/// Replacing the value at the position of a key inserts the pair into the map.
pub proof fn lemma_map_update<V>(keys: Seq<Seq<char>>, values: Seq<V>, i: int, value: V)
    requires
        keys.len() == values.len(),
        distinct(keys),
        0 <= i < keys.len(),
    ensures
        map_of(keys, values.update(i, value)) == map_of(keys, values).insert(keys[i], value),
{
    lemma_position_is(keys, keys[i], i);
    assert forall|k: Seq<char>| position_of(keys, k) >= 0 && k != keys[i] implies values.update(
        i,
        value,
    )[#[trigger] position_of(keys, k)] == values[position_of(keys, k)] by {
        lemma_position_of(keys, k);
    }
    assert(map_of(keys, values.update(i, value)) =~= map_of(keys, values).insert(keys[i], value));
}

/// Taking out the entry at a position removes its key from the map.
pub proof fn lemma_map_remove<V>(keys: Seq<Seq<char>>, values: Seq<V>, i: int)
    requires
        keys.len() == values.len(),
        distinct(keys),
        0 <= i < keys.len(),
    ensures
        distinct(keys.remove(i)),
        map_of(keys.remove(i), values.remove(i)) == map_of(keys, values).remove(keys[i]),
{
    let keys2 = keys.remove(i);
    let values2 = values.remove(i);
    assert forall|a: int, b: int| 0 <= a < b < keys2.len() implies keys2[a] != keys2[b] by {
        let a0 = if a < i { a } else { a + 1 };
        let b0 = if b < i { b } else { b + 1 };
        assert(keys2[a] == keys[a0] && keys2[b] == keys[b0]);
    }
    assert forall|k: Seq<char>|
        (#[trigger] position_of(keys2, k) >= 0) == (position_of(keys, k) >= 0 && k != keys[i])
        && (position_of(keys2, k) >= 0 ==> values2[position_of(keys2, k)] == values[position_of(
            keys,
            k,
        )]) by {
        lemma_position_of(keys, k);
        lemma_position_of(keys2, k);
        let p = position_of(keys, k);
        if p >= 0 && p != i {
            let q = if p < i { p } else { p - 1 };
            assert(keys2[q] == k);
            lemma_position_is(keys2, k, q);
        } else {
            if position_of(keys2, k) >= 0 {
                let q = position_of(keys2, k);
                let q0 = if q < i { q } else { q + 1 };
                assert(keys[q0] == k);
                if p >= 0 {
                    lemma_position_is(keys, k, q0);
                }
            }
        }
        if p == i {
            lemma_position_is(keys, keys[i], i);
        }
    }
    lemma_position_is(keys, keys[i], i);
    assert(map_of(keys2, values2) =~= map_of(keys, values).remove(keys[i]));
}

spec fn keys_of<V>(entries: Seq<(String, V)>) -> Seq<Seq<char>> {
    Seq::new(entries.len(), |i: int| entries[i].0@)
}

spec fn values_of<V>(entries: Seq<(String, V)>) -> Seq<V> {
    Seq::new(entries.len(), |i: int| entries[i].1)
}

/// A map from text keys to values that remembers the order of insertion.
pub struct StrMap<V> {
    entries: Vec<(String, V)>,
}

impl<V> StrMap<V> {
    #[verifier::type_invariant]
    spec fn well_formed(&self) -> bool {
        distinct(keys_of(self.entries@))
    }

    /// The keys, in order of insertion.
    pub closed spec fn keys(&self) -> Seq<Seq<char>> {
        keys_of(self.entries@)
    }

    /// The values, each at the position of its key.
    pub closed spec fn values(&self) -> Seq<V> {
        values_of(self.entries@)
    }

    /// The map as a mathematical map.
    pub open spec fn view(&self) -> Map<Seq<char>, V> {
        map_of(self.keys(), self.values())
    }

    /// Keys and values run in parallel.
    pub proof fn lemma_parallel(&self)
        ensures
            self.keys().len() == self.values().len(),
    {
    }

    /// An empty map.
    pub fn new() -> (m: Self)
        ensures
            m.keys() == Seq::<Seq<char>>::empty(),
            m.values() == Seq::<V>::empty(),
            m@ == Map::<Seq<char>, V>::empty(),
    {
        let m = StrMap { entries: Vec::new() };
        assert(m.keys() =~= Seq::<Seq<char>>::empty());
        assert(m.values() =~= Seq::<V>::empty());
        assert(m@ =~= Map::<Seq<char>, V>::empty());
        m
    }

    /// The number of entries. Keys are distinct and run parallel to the
    /// values.
    pub fn len(&self) -> (n: usize)
        ensures
            n == self.keys().len(),
            n == self.values().len(),
            distinct(self.keys()),
    {
        proof {
            use_type_invariant(self);
        }
        self.entries.len()
    }

    /// The position of `key`, if it is present.
    pub fn find(&self, key: &str) -> (found: Option<usize>)
        ensures
            self.keys().len() == self.values().len(),
            distinct(self.keys()),
            match found {
                Some(i) => i < self.keys().len() && i == position_of(self.keys(), key@)
                    && self.keys()[i as int] == key@ && self@.dom().contains(key@),
                None => position_of(self.keys(), key@) == -1 && !self@.dom().contains(key@),
            },
    {
        proof {
            use_type_invariant(self);
        }
        let n = self.entries.len();
        let mut i: usize = 0;
        while i < n
            invariant
                n == self.entries@.len(),
                i <= n,
                distinct(keys_of(self.entries@)),
                forall|j: int| 0 <= j < i ==> keys_of(self.entries@)[j] != key@,
            decreases n - i,
        {
            if *self.entries[i].0.as_str() == *key {
                proof {
                    lemma_position_is(self.keys(), key@, i as int);
                }
                return Some(i);
            }
            i += 1;
        }
        proof {
            lemma_position_none(self.keys(), key@);
        }
        None
    }

    /// Whether `key` is present.
    pub fn contains_key(&self, key: &str) -> (present: bool)
        ensures
            present == self@.dom().contains(key@),
    {
        self.find(key).is_some()
    }

    /// The value stored under `key`.
    pub fn get(&self, key: &str) -> (value: Option<&V>)
        ensures
            value == (if self@.dom().contains(key@) {
                Some(&self@[key@])
            } else {
                None
            }),
    {
        match self.find(key) {
            Some(i) => Some(&self.entries[i].1),
            None => None,
        }
    }

    /// The key at position `i`.
    pub fn key_at(&self, i: usize) -> (key: &String)
        requires
            i < self.keys().len(),
        ensures
            key@ == self.keys()[i as int],
            position_of(self.keys(), key@) == i,
            self@.dom().contains(key@),
    {
        proof {
            use_type_invariant(self);
            lemma_position_is(self.keys(), self.keys()[i as int], i as int);
        }
        &self.entries[i].0
    }

    /// The value at position `i`.
    pub fn value_at(&self, i: usize) -> (value: &V)
        requires
            i < self.values().len(),
        ensures
            *value == self.values()[i as int],
            self.keys().len() == self.values().len(),
            *value == self@[self.keys()[i as int]],
    {
        proof {
            use_type_invariant(self);
            lemma_position_is(self.keys(), self.keys()[i as int], i as int);
        }
        &self.entries[i].1
    }

    /// Stores `value` under `key` and hands back what stood there before. A
    /// new key goes to the end; a present key keeps its position.
    pub fn insert(&mut self, key: String, value: V) -> (previous: Option<V>)
        ensures
            final(self)@ == old(self)@.insert(key@, value),
            previous == (if old(self)@.dom().contains(key@) {
                Some(old(self)@[key@])
            } else {
                None
            }),
            match previous {
                Some(_) => final(self).keys() == old(self).keys()
                    && final(self).values()
                    == old(self).values().update(position_of(old(self).keys(), key@), value),
                None => final(self).keys() == old(self).keys().push(key@) && final(self).values()
                    == old(self).values().push(value),
            },
    {
        let found = self.find(key.as_str());
        let ghost keys0 = self.keys();
        let ghost values0 = self.values();
        let mut entries = Vec::new();
        std::mem::swap(&mut entries, &mut self.entries);
        assert(keys_of(entries@) == keys0 && values_of(entries@) == values0);
        let previous = match found {
            Some(i) => {
                let (k, old_value) = entries.remove(i);
                entries.insert(i, (k, value));
                proof {
                    assert(keys_of(entries@) =~= keys0);
                    assert(values_of(entries@) =~= values0.update(i as int, value));
                    lemma_map_update(keys0, values0, i as int, value);
                    lemma_position_of(keys0, key@);
                }
                Some(old_value)
            },
            None => {
                let ghost key_view = key@;
                entries.push((key, value));
                proof {
                    assert(keys_of(entries@) =~= keys0.push(key_view));
                    assert(values_of(entries@) =~= values0.push(value));
                    lemma_map_push(keys0, values0, key_view, value);
                }
                None
            },
        };
        self.entries = entries;
        previous
    }

    /// Takes out the entry at position `i`; the entries behind it move up.
    pub fn remove_at(&mut self, i: usize) -> (entry: (String, V))
        requires
            i < old(self).keys().len(),
        ensures
            entry.0@ == old(self).keys()[i as int],
            entry.1 == old(self).values()[i as int],
            final(self).keys() == old(self).keys().remove(i as int),
            final(self).values() == old(self).values().remove(i as int),
            final(self)@ == old(self)@.remove(entry.0@),
            old(self)@.dom().contains(entry.0@),
            old(self)@[entry.0@] == entry.1,
    {
        proof {
            use_type_invariant(&*self);
        }
        let ghost keys0 = self.keys();
        let ghost values0 = self.values();
        let mut entries = Vec::new();
        std::mem::swap(&mut entries, &mut self.entries);
        let entry = entries.remove(i);
        proof {
            assert(keys_of(entries@) =~= keys0.remove(i as int));
            assert(values_of(entries@) =~= values0.remove(i as int));
            lemma_map_remove(keys0, values0, i as int);
            lemma_position_is(keys0, keys0[i as int], i as int);
        }
        self.entries = entries;
        entry
    }

    /// Removes `key` and hands back its value, if it was present.
    pub fn remove(&mut self, key: &str) -> (previous: Option<V>)
        ensures
            final(self)@ == old(self)@.remove(key@),
            previous == (if old(self)@.dom().contains(key@) {
                Some(old(self)@[key@])
            } else {
                None
            }),
            match previous {
                Some(_) => final(self).keys() == old(self).keys().remove(
                    position_of(old(self).keys(), key@),
                ) && final(self).values() == old(self).values().remove(
                    position_of(old(self).keys(), key@),
                ),
                None => final(self).keys() == old(self).keys()
                    && final(self).values() == old(self).values(),
            },
    {
        match self.find(key) {
            Some(i) => {
                let entry = self.remove_at(i);
                Some(entry.1)
            },
            None => {
                assert(self@.remove(key@) =~= self@);
                None
            },
        }
    }

    /// Puts `value` in the place of the value at position `i` and hands the
    /// old one back.
    pub fn replace_at(&mut self, i: usize, value: V) -> (previous: V)
        requires
            i < old(self).keys().len(),
        ensures
            previous == old(self).values()[i as int],
            final(self).keys() == old(self).keys(),
            final(self).values() == old(self).values().update(i as int, value),
            final(self)@ == old(self)@.insert(old(self).keys()[i as int], value),
    {
        proof {
            use_type_invariant(&*self);
        }
        let ghost keys0 = self.keys();
        let ghost values0 = self.values();
        let mut entries = Vec::new();
        std::mem::swap(&mut entries, &mut self.entries);
        let (k, previous) = entries.remove(i);
        entries.insert(i, (k, value));
        proof {
            assert(keys_of(entries@) =~= keys0);
            assert(values_of(entries@) =~= values0.update(i as int, value));
            lemma_map_update(keys0, values0, i as int, value);
        }
        self.entries = entries;
        previous
    }

    /// Keeps the entries whose flag is set and drops the others; the order
    /// of those kept does not change.
    pub fn retain_flags(&mut self, keep: &Vec<bool>)
        requires
            keep@.len() == old(self).keys().len(),
        ensures
            forall|k: Seq<char>|
                final(self)@.dom().contains(k) <==> (old(self)@.dom().contains(k)
                    && keep@[position_of(old(self).keys(), k)]),
            forall|k: Seq<char>|
                final(self)@.dom().contains(k) ==> final(self)@[k] == old(self)@[k],
            final(self).keys().len() <= old(self).keys().len(),
    {
        let ghost keys0 = self.keys();
        let ghost map0 = self@;
        let mut i = self.len();
        proof {
            assert forall|k: Seq<char>| -1 <= #[trigger] position_of(keys0, k) < keys0.len() by {
                lemma_position_of(keys0, k);
            }
        }
        while i > 0
            invariant
                i <= self.keys().len() <= keys0.len(),
                keep@.len() == keys0.len(),
                distinct(keys0),
                forall|k: Seq<char>| -1 <= #[trigger] position_of(keys0, k) < keys0.len(),
                forall|k: Seq<char>| map0.dom().contains(k) <==> position_of(keys0, k) >= 0,
                self.keys().take(i as int) == keys0.take(i as int),
                forall|k: Seq<char>|
                    #[trigger] self@.dom().contains(k) <==> (map0.dom().contains(k) && (position_of(
                        keys0,
                        k,
                    ) < i || keep@[position_of(keys0, k)])),
                forall|k: Seq<char>| #[trigger] self@.dom().contains(k) ==> self@[k] == map0[k],
            decreases i,
        {
            let ghost before = self.keys();
            let ghost before_map = self@;
            let ghost upper = i as int;
            i -= 1;
            assert(before.take(upper)[i as int] == keys0.take(upper)[i as int]);
            assert(before.take(i as int) =~= before.take(upper).take(i as int));
            assert(keys0.take(i as int) =~= keys0.take(upper).take(i as int));
            assert(before[i as int] == keys0[i as int]);
            if !keep[i] {
                let ghost gone = before[i as int];
                let removed = self.remove_at(i);
                assert(self.keys().take(i as int) =~= before.take(i as int));
                proof {
                    assert(removed.0@ == gone);
                    assert(self@ == before_map.remove(gone));
                    lemma_position_is(keys0, gone, i as int);
                    assert forall|k: Seq<char>|
                        #[trigger] self@.dom().contains(k)
                            <==> (map0.dom().contains(k) && (position_of(
                            keys0,
                            k,
                        ) < i || keep@[position_of(keys0, k)])) by {
                        lemma_position_of(keys0, k);
                        if k != gone {
                            assert(self@.dom().contains(k) == before_map.dom().contains(k));
                            assert(before_map.dom().contains(k) <==> (map0.dom().contains(k) && (
                            position_of(keys0, k) < upper || keep@[position_of(keys0, k)])));
                        }
                    }
                }
            } else {
                proof {
                    assert forall|k: Seq<char>|
                        #[trigger] self@.dom().contains(k)
                            <==> (map0.dom().contains(k) && (position_of(
                            keys0,
                            k,
                        ) < i || keep@[position_of(keys0, k)])) by {
                        assert(before_map.dom().contains(k) <==> (map0.dom().contains(k) && (
                        position_of(keys0, k) < upper || keep@[position_of(keys0, k)])));
                    }
                }
            }
        }
    }
}

} // verus!

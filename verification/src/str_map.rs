//! A map keyed by strings that keeps the order in which its keys arrived.

use crate::text::{distinct, lemma_distinct_len, lemma_names_push, names_of, position};
use vstd::prelude::*;
use vstd::set_lib::lemma_subset_equality;
use vstd::std_specs::cmp::PartialEqSpecImpl;

verus! {

/// The place of `name` among `keys`; meaningful where `keys` holds it.
pub open spec fn index_of(keys: Seq<String>, name: Seq<char>) -> int {
    choose|i: int| 0 <= i < keys.len() && keys[i]@ == name
}

/// The map that pairs each key with the value at the same place.
pub open spec fn entries_of<V>(keys: Seq<String>, values: Seq<V>) -> Map<Seq<char>, V> {
    Map::new(
        |name: Seq<char>| names_of(keys).contains(name),
        |name: Seq<char>| values[index_of(keys, name)],
    )
}

/// Among distinct keys each key is found at its own place.
pub proof fn lemma_index_of(keys: Seq<String>, i: int)
    requires
        distinct(keys),
        0 <= i < keys.len(),
    ensures
        names_of(keys).contains(keys[i]@),
        index_of(keys, keys[i]@) == i,
{
    let j = index_of(keys, keys[i]@);
    assert(0 <= j < keys.len() && keys[j]@ == keys[i]@);
}

/// One more pair under a new key is one more entry.
pub proof fn lemma_entries_push<V>(keys: Seq<String>, values: Seq<V>, key: String, value: V)
    requires
        distinct(keys),
        keys.len() == values.len(),
        !names_of(keys).contains(key@),
    ensures
        distinct(keys.push(key)),
        entries_of(keys.push(key), values.push(value)) == entries_of(keys, values).insert(
            key@,
            value,
        ),
{
    let more_keys = keys.push(key);
    let more_values = values.push(value);
    assert forall|i: int, j: int| 0 <= i < j < more_keys.len() implies more_keys[i]@
        != more_keys[j]@ by {
        if j == keys.len() {
            assert(keys[i]@ == more_keys[i]@);
        }
    }
    lemma_names_push(keys, key);
    assert forall|name: Seq<char>| names_of(more_keys).contains(name) implies entries_of(
        more_keys,
        more_values,
    )[name] == entries_of(keys, values).insert(key@, value)[name] by {
        let i = index_of(more_keys, name);
        if name == key@ {
            lemma_index_of(more_keys, keys.len() as int);
        } else {
            let j = index_of(keys, name);
            assert(more_keys[j]@ == name);
            lemma_index_of(more_keys, j);
        }
    }
}

/// A new value at one place is a new value under the key of that place.
pub proof fn lemma_entries_update<V>(keys: Seq<String>, values: Seq<V>, i: int, value: V)
    requires
        distinct(keys),
        keys.len() == values.len(),
        0 <= i < keys.len(),
    ensures
        entries_of(keys, values.update(i, value)) == entries_of(keys, values).insert(
            keys[i]@,
            value,
        ),
{
    lemma_index_of(keys, i);
    assert forall|name: Seq<char>| names_of(keys).contains(name) implies entries_of(
        keys,
        values.update(i, value),
    )[name] == entries_of(keys, values).insert(keys[i]@, value)[name] by {
        let j = index_of(keys, name);
        lemma_index_of(keys, j);
    }
    assert(entries_of(keys, values.update(i, value)) =~= entries_of(keys, values).insert(
        keys[i]@,
        value,
    ));
}

/// The same entries with each value read as text.
pub open spec fn texts_of(entries: Map<Seq<char>, String>) -> Map<Seq<char>, Seq<char>> {
    entries.map_values(|value: String| value@)
}

/// A finite map from strings to values of `V`. Each key has one value.
#[derive(Debug)]
pub struct StrMap<V> {
    keys: Vec<String>,
    values: Vec<V>,
}

impl<V> View for StrMap<V> {
    type V = Map<Seq<char>, V>;

    closed spec fn view(&self) -> Map<Seq<char>, V> {
        entries_of(self.keys@, self.values@)
    }
}

impl<V> StrMap<V> {
    #[verifier::type_invariant]
    spec fn inv(self) -> bool {
        &&& self.keys@.len() == self.values@.len()
        &&& distinct(self.keys@)
    }

    /// The keys in the order in which they arrived.
    pub closed spec fn key_seq(&self) -> Seq<String> {
        self.keys@
    }

    /// The values, each at the place of its key in `key_seq`.
    pub closed spec fn value_seq(&self) -> Seq<V> {
        self.values@
    }

    /// The empty map.
    pub fn new() -> (map: StrMap<V>)
        ensures
            map@ == Map::<Seq<char>, V>::empty(),
            map.key_seq() == Seq::<String>::empty(),
            map.value_seq() == Seq::<V>::empty(),
    {
        let map = StrMap { keys: Vec::new(), values: Vec::new() };
        map
    }

    /// The number of entries.
    pub fn len(&self) -> (n: usize)
        ensures
            self@.dom().finite(),
            n == self@.len(),
            n == self.key_seq().len(),
    {
        proof {
            use_type_invariant(self);
            lemma_distinct_len(self.keys@);
            assert(self@.dom() =~= names_of(self.keys@));
        }
        self.keys.len()
    }

    /// Whether the map has no entry.
    pub fn is_empty(&self) -> (empty: bool)
        ensures
            empty == (self@ == Map::<Seq<char>, V>::empty()),
    {
        let empty = self.keys.len() == 0;
        proof {
            if empty {
                assert(self@ =~= Map::<Seq<char>, V>::empty());
            } else {
                assert(self@.contains_key(self.keys@[0]@));
            }
        }
        empty
    }

    /// Whether `key` has a value.
    pub fn contains_key(&self, key: &str) -> (found: bool)
        ensures
            found == self@.contains_key(key@),
    {
        position(&self.keys, key).is_some()
    }

    /// The value of `key`, if it has one.
    pub fn get(&self, key: &str) -> (value: Option<&V>)
        ensures
            match value {
                Some(v) => self@.contains_key(key@) && *v == self@[key@],
                None => !self@.contains_key(key@),
            },
    {
        proof {
            use_type_invariant(self);
        }
        match position(&self.keys, key) {
            Some(i) => {
                proof {
                    lemma_index_of(self.keys@, i as int);
                }
                Some(&self.values[i])
            },
            None => None,
        }
    }

    /// The value of `key`, to be changed in place, if it has one.
    pub fn get_mut(&mut self, key: &str) -> (slot: Option<&mut V>)
        ensures
            match slot {
                Some(v) => old(self)@.contains_key(key@) && *v == old(self)@[key@] && final(self)@
                    == old(self)@.insert(key@, *final(v)),
                None => !old(self)@.contains_key(key@) && final(self)@ == old(self)@,
            },
            final(self).key_seq() == old(self).key_seq(),
    {
        proof {
            use_type_invariant(&*self);
        }
        match position(&self.keys, key) {
            Some(i) => {
                let slot = &mut self.values[i];
                proof {
                    lemma_index_of(old(self).keys@, i as int);
                    lemma_entries_update(old(self).keys@, old(self).values@, i as int, *final(slot));
                }
                Some(slot)
            },
            None => None,
        }
    }

    /// Gives `key` the value `value`. The result is the value that it had.
    /// A new key comes last; a key that has a value already keeps its place.
    pub fn insert(&mut self, key: String, value: V) -> (previous: Option<V>)
        ensures
            final(self)@ == old(self)@.insert(key@, value),
            previous == if old(self)@.contains_key(key@) {
                Some(old(self)@[key@])
            } else {
                None
            },
            final(self).key_seq() == if old(self)@.contains_key(key@) {
                old(self).key_seq()
            } else {
                old(self).key_seq().push(key)
            },
    {
        proof {
            use_type_invariant(&*self);
        }
        match position(&self.keys, key.as_str()) {
            Some(i) => {
                let mut value = value;
                proof {
                    lemma_index_of(self.keys@, i as int);
                    lemma_entries_update(self.keys@, self.values@, i as int, value);
                }
                core::mem::swap(&mut self.values[i], &mut value);
                Some(value)
            },
            None => {
                let mut taken = StrMap::new();
                core::mem::swap(self, &mut taken);
                let StrMap { mut keys, mut values } = taken;
                proof {
                    lemma_entries_push(keys@, values@, key, value);
                }
                keys.push(key);
                values.push(value);
                *self = StrMap { keys, values };
                None
            },
        }
    }

    /// The keys, each once, in the order in which they arrived.
    pub fn keys(&self) -> (keys: &Vec<String>)
        ensures
            keys@ == self.key_seq(),
            distinct(keys@),
            names_of(keys@) == self@.dom(),
    {
        proof {
            use_type_invariant(self);
        }
        &self.keys
    }

    /// The values, each at the place of its key in `keys`.
    pub fn values(&self) -> (values: &Vec<V>)
        ensures
            values@ == self.value_seq(),
            values@.len() == self.key_seq().len(),
            forall|i: int|
                0 <= i < values@.len() ==> self@[#[trigger] self.key_seq()[i]@] == values@[i],
    {
        proof {
            use_type_invariant(self);
            assert forall|i: int| 0 <= i < self.values@.len() implies self@[#[trigger] self.keys@[i]@]
                == self.values@[i] by {
                lemma_index_of(self.keys@, i);
            }
        }
        &self.values
    }

    /// The keys and the values, place by place, given away.
    pub fn into_parts(self) -> (parts: (Vec<String>, Vec<V>))
        ensures
            parts.0@ == self.key_seq(),
            parts.1@ == self.value_seq(),
            parts.0@.len() == parts.1@.len(),
            distinct(parts.0@),
            entries_of(parts.0@, parts.1@) == self@,
    {
        proof {
            use_type_invariant(&self);
        }
        let StrMap { keys, values } = self;
        (keys, values)
    }
}

impl<V: Clone> Clone for StrMap<V> {
    fn clone(&self) -> (copy: StrMap<V>)
        ensures
            copy@.dom() == self@.dom(),
            copy.key_seq() == self.key_seq(),
            copy.value_seq().len() == self.value_seq().len(),
            forall|i: int|
                0 <= i < self.value_seq().len() ==> cloned(
                    #[trigger] self.value_seq()[i],
                    copy.value_seq()[i],
                ),
            forall|name: Seq<char>|
                self@.contains_key(name) ==> cloned(self@[name], #[trigger] copy@[name]),
    {
        proof {
            use_type_invariant(self);
        }
        let keys = self.keys.clone();
        let values = self.values.clone();
        let copy = StrMap { keys, values };
        copy
    }
}

impl StrMap<String> {
    /// Whether `other` gives each key of this map a value with the same text.
    fn texts_within(&self, other: &StrMap<String>) -> (within: bool)
        ensures
            within == (forall|name: Seq<char>| #[trigger]
                self@.contains_key(name) ==> other@.contains_key(name) && other@[name]@
                    == self@[name]@),
    {
        proof {
            use_type_invariant(self);
        }
        let mut i: usize = 0;
        while i < self.keys.len()
            invariant
                i <= self.keys@.len(),
                self.keys@.len() == self.values@.len(),
                distinct(self.keys@),
                forall|j: int|
                    0 <= j < i ==> other@.contains_key(#[trigger] self.keys@[j]@)
                        && other@[self.keys@[j]@]@ == self.values@[j]@,
            decreases self.keys@.len() - i,
        {
            proof {
                lemma_index_of(self.keys@, i as int);
            }
            match other.get(self.keys[i].as_str()) {
                Some(value) => {
                    if *value != self.values[i] {
                        assert(self@.contains_key(self.keys@[i as int]@));
                        return false;
                    }
                },
                None => {
                    assert(self@.contains_key(self.keys@[i as int]@));
                    return false;
                },
            }
            i += 1;
        }
        proof {
            assert forall|name: Seq<char>| #[trigger] self@.contains_key(name) implies other@.contains_key(
                name,
            ) && other@[name]@ == self@[name]@ by {
                let j = index_of(self.keys@, name);
                lemma_index_of(self.keys@, j);
            }
        }
        true
    }
}

impl PartialEq for StrMap<String> {
    fn eq(&self, other: &StrMap<String>) -> (same: bool) {
        let same = self.len() == other.len() && self.texts_within(other);
        proof {
            if same {
                lemma_subset_equality(self@.dom(), other@.dom());
                assert(texts_of(self@) =~= texts_of(other@));
            } else if self@.dom().len() == other@.dom().len() {
                let name = choose|name: Seq<char>| #[trigger]
                    self@.contains_key(name) && !(other@.contains_key(name) && other@[name]@
                        == self@[name]@);
                if texts_of(other@).contains_key(name) {
                    assert(texts_of(other@)[name] == other@[name]@);
                }
            } else {
                assert(texts_of(self@).dom() =~= self@.dom());
                assert(texts_of(other@).dom() =~= other@.dom());
            }
        }
        same
    }
}

impl Eq for StrMap<String> {

}

impl PartialEqSpecImpl for StrMap<String> {
    open spec fn obeys_eq_spec() -> bool {
        true
    }

    open spec fn eq_spec(&self, other: &StrMap<String>) -> bool {
        texts_of(self@) == texts_of(other@)
    }
}

} // verus!

//! A set of strings that keeps the order in which its members arrived.

use crate::text::{distinct, lemma_distinct_len, lemma_names_push, names_of, position};
use vstd::set_lib::lemma_subset_equality;
use vstd::std_specs::cmp::PartialEqSpecImpl;
use vstd::prelude::*;

verus! {

/// A finite set of strings. A name is a member at most once, whatever the
/// number of times it was inserted.
#[derive(Debug)]
pub struct StrSet {
    items: Vec<String>,
}

impl View for StrSet {
    type V = Set<Seq<char>>;

    closed spec fn view(&self) -> Set<Seq<char>> {
        names_of(self.items@)
    }
}

impl StrSet {
    #[verifier::type_invariant]
    spec fn inv(self) -> bool {
        distinct(self.items@)
    }

    /// The members, each once, in the order in which they arrived.
    pub closed spec fn name_seq(&self) -> Seq<String> {
        self.items@
    }

    /// The empty set.
    pub fn new() -> (set: StrSet)
        ensures
            set@ == Set::<Seq<char>>::empty(),
            set.name_seq() == Seq::<String>::empty(),
    {
        let set = StrSet { items: Vec::new() };
        set
    }

    /// The number of members.
    pub fn len(&self) -> (n: usize)
        ensures
            self@.finite(),
            n == self@.len(),
    {
        proof {
            use_type_invariant(self);
            lemma_distinct_len(self.items@);
        }
        self.items.len()
    }

    /// Whether the set has no member.
    pub fn is_empty(&self) -> (empty: bool)
        ensures
            empty == (self@ == Set::<Seq<char>>::empty()),
    {
        let empty = self.items.len() == 0;
        proof {
            if empty {
                assert(self@ =~= Set::<Seq<char>>::empty());
            } else {
                assert(self@.contains(self.items@[0]@));
            }
        }
        empty
    }

    /// Whether `name` is a member.
    pub fn contains(&self, name: &str) -> (found: bool)
        ensures
            found == self@.contains(name@),
    {
        position(&self.items, name).is_some()
    }

    /// Makes `name` a member. The result tells whether it was new: a new
    /// member comes last, and a name that is a member already changes nothing.
    pub fn insert(&mut self, name: String) -> (added: bool)
        ensures
            final(self)@ == old(self)@.insert(name@),
            added == !old(self)@.contains(name@),
            final(self).name_seq() == if added {
                old(self).name_seq().push(name)
            } else {
                old(self).name_seq()
            },
    {
        proof {
            use_type_invariant(&*self);
        }
        if self.contains(name.as_str()) {
            false
        } else {
            let mut taken = StrSet::new();
            core::mem::swap(self, &mut taken);
            let StrSet { mut items } = taken;
            items.push(name);
            proof {
                lemma_names_push(old(self).items@, name);
            }
            *self = StrSet { items };
            true
        }
    }

    /// Makes every member of `other` a member.
    pub fn extend(&mut self, other: &StrSet)
        ensures
            final(self)@ == old(self)@.union(other@),
    {
        let names = other.names();
        let mut i: usize = 0;
        while i < names.len()
            invariant
                i <= names@.len(),
                self@ == old(self)@.union(names_of(names@.take(i as int))),
            decreases names@.len() - i,
        {
            self.insert(names[i].clone());
            proof {
                assert(names@.take(i + 1) =~= names@.take(i as int).push(names@[i as int]));
                lemma_names_push(names@.take(i as int), names@[i as int]);
            }
            i += 1;
        }
        assert(names@.take(i as int) =~= names@);
    }

    /// Whether every member is a member of `other` too.
    pub fn is_subset(&self, other: &StrSet) -> (within: bool)
        ensures
            within == self@.subset_of(other@),
    {
        let mut i: usize = 0;
        while i < self.items.len()
            invariant
                i <= self.items@.len(),
                forall|j: int| 0 <= j < i ==> other@.contains(#[trigger] self.items@[j]@),
            decreases self.items@.len() - i,
        {
            if !other.contains(self.items[i].as_str()) {
                return false;
            }
            i += 1;
        }
        true
    }

    /// The members, each once, in the order in which they arrived.
    pub fn names(&self) -> (names: &Vec<String>)
        ensures
            names@ == self.name_seq(),
            distinct(names@),
            names_of(names@) == self@,
    {
        proof {
            use_type_invariant(self);
        }
        &self.items
    }
}

impl Clone for StrSet {
    fn clone(&self) -> (copy: StrSet)
        ensures
            copy@ == self@,
            copy.name_seq() == self.name_seq(),
    {
        proof {
            use_type_invariant(self);
        }
        let items = self.items.clone();
        StrSet { items }
    }
}

impl PartialEq for StrSet {
    fn eq(&self, other: &StrSet) -> (same: bool) {
        let same = self.len() == other.len() && self.is_subset(other);
        proof {
            if same {
                lemma_subset_equality(self@, other@);
            }
        }
        same
    }
}

impl Eq for StrSet {

}

impl PartialEqSpecImpl for StrSet {
    open spec fn obeys_eq_spec() -> bool {
        true
    }

    open spec fn eq_spec(&self, other: &StrSet) -> bool {
        self@ == other@
    }
}

} // verus!

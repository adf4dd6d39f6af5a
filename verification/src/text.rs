//! What the verified code knows of string slices beyond `vstd`.

use vstd::prelude::*;

verus! {

/// `==` on `str`, as std implements it: two slices are equal exactly when they
/// hold the same characters in the same order. Nothing here is proved; the
/// claim is the one std documents for `str`'s `PartialEq`.
pub assume_specification[ <str as PartialEq>::eq ](a: &str, b: &str) -> (same: bool)
    ensures
        same == (a@ == b@),
;

/// `String::push`, as std documents it: the character is appended to the end
/// of the string, and nothing else changes.
pub assume_specification[ String::push ](text: &mut String, c: char)
    ensures
        final(text)@ == old(text)@.push(c),
;

/// What `str::to_lowercase` makes of a text.
pub uninterp spec fn lowercase_of(text: Seq<char>) -> Seq<char>;

/// `str::to_lowercase`: the result depends on the characters of the text
/// alone; it is given a name here, not a definition.
pub assume_specification[ str::to_lowercase ](text: &str) -> (lower: String)
    ensures
        lower@ == lowercase_of(text@),
;

/// The names that a sequence of strings holds.
pub open spec fn names_of(items: Seq<String>) -> Set<Seq<char>> {
    Set::new(|name: Seq<char>| exists|i: int| 0 <= i < items.len() && items[i]@ == name)
}

/// No two strings of the sequence hold the same characters.
pub open spec fn distinct(items: Seq<String>) -> bool {
    forall|i: int, j: int| 0 <= i < j < items.len() ==> items[i]@ != items[j]@
}

/// Appending one string adds its name to those that the sequence holds.
pub proof fn lemma_names_push(items: Seq<String>, last: String)
    ensures
        names_of(items.push(last)) == names_of(items).insert(last@),
{
    let longer = items.push(last);
    assert forall|name: Seq<char>| names_of(longer).contains(name) <==> names_of(items).insert(
        last@,
    ).contains(name) by {
        if names_of(longer).contains(name) {
            let i = choose|i: int| 0 <= i < longer.len() && longer[i]@ == name;
            if i < items.len() {
                assert(items[i]@ == name);
            }
        }
        if names_of(items).contains(name) {
            let i = choose|i: int| 0 <= i < items.len() && items[i]@ == name;
            assert(longer[i]@ == name);
        }
        if name == last@ {
            assert(longer[longer.len() - 1]@ == name);
        }
    }
}

/// A sequence of distinct strings holds as many names as it has items.
pub proof fn lemma_distinct_len(items: Seq<String>)
    requires
        distinct(items),
    ensures
        names_of(items).finite(),
        names_of(items).len() == items.len(),
    decreases items.len(),
{
    if items.len() == 0 {
        assert(names_of(items) =~= Set::<Seq<char>>::empty());
    } else {
        let front = items.drop_last();
        let last = items.last();
        lemma_distinct_len(front);
        assert(items =~= front.push(last));
        lemma_names_push(front, last);
        assert(!names_of(front).contains(last@)) by {
            if names_of(front).contains(last@) {
                let i = choose|i: int| 0 <= i < front.len() && front[i]@ == last@;
                assert(items[i]@ == items[items.len() - 1]@);
            }
        }
    }
}

/// The first place at which `name` stands in `items`, if it stands there at all.
pub fn position(items: &Vec<String>, name: &str) -> (at: Option<usize>)
    ensures
        match at {
            Some(i) => i < items@.len() && items@[i as int]@ == name@,
            None => !names_of(items@).contains(name@),
        },
{
    let mut i: usize = 0;
    while i < items.len()
        invariant
            i <= items@.len(),
            forall|j: int| 0 <= j < i ==> items@[j]@ != name@,
        decreases items@.len() - i,
    {
        if *items[i].as_str() == *name {
            return Some(i);
        }
        i += 1;
    }
    None
}

} // verus!

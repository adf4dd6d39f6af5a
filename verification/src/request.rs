//! What the parameters of a request stand for.

use vstd::prelude::*;

verus! {

/// The number that `str::parse::<i32>` reads from a text, if it reads one.
pub uninterp spec fn parsed_i32(text: Seq<char>) -> Option<i32>;

/// Reads a number with `str::parse::<i32>`. Believed, not proved: the result
/// is the named one, with nothing where std reports an error.
#[verifier::external_body]
fn parse_i32(text: &str) -> (number: Option<i32>)
    ensures
        number == parsed_i32(text@),
{
    text.parse::<i32>().ok()
}

/// Whether `at` is the place of the first dash of `param`.
pub open spec fn is_first_dash(param: Seq<char>, at: int) -> bool {
    &&& 0 <= at < param.len()
    &&& param[at] == '-'
    &&& forall|i: int| 0 <= i < at ==> param[i] != '-'
}

/// The place of the first dash of `param`; its length where it has none.
pub open spec fn first_dash(param: Seq<char>) -> int {
    if exists|at: int| is_first_dash(param, at) {
        choose|at: int| is_first_dash(param, at)
    } else {
        param.len() as int
    }
}

/// What a parameter of the form `id-slug` stands for.
pub struct IdSlugView {
    pub id: Option<i32>,
    pub slug: Option<Seq<char>>,
}

/// The number and the slug that a parameter stands for: the number is read
/// from what precedes the first dash, and is missing where that is no
/// number; the slug is what follows the first dash, and is missing where
/// there is no dash.
pub open spec fn id_slug_of(param: Seq<char>) -> IdSlugView {
    let at = first_dash(param);
    IdSlugView {
        id: parsed_i32(param.take(at)),
        slug: if at < param.len() {
            Some(param.skip(at + 1))
        } else {
            None
        },
    }
}

/// A parameter of the form `id-slug`: a number, a dash, and a slug. Either
/// part may be missing.
#[derive(Debug)]
pub struct IdSlug {
    pub id: Option<i32>,
    pub slug: Option<String>,
}

impl View for IdSlug {
    type V = IdSlugView;

    open spec fn view(&self) -> IdSlugView {
        IdSlugView {
            id: self.id,
            slug: match self.slug {
                Some(slug) => Some(slug@),
                None => None,
            },
        }
    }
}

/// The part of a parameter before its first dash, and the part after it,
/// if it has a dash.
pub fn split_at_first_dash(param: &str) -> (parts: (String, Option<String>))
    ensures
        parts.0@ == param@.take(first_dash(param@)),
        match parts.1 {
            Some(rest) => first_dash(param@) < param@.len() && rest@ == param@.skip(
                first_dash(param@) + 1,
            ),
            None => first_dash(param@) == param@.len(),
        },
{
    let mut head = String::new();
    let mut tail = String::new();
    let mut seen_dash = false;
    let ghost all = param@;
    let ghost mut dash: int = 0;
    for c in it: param.chars()
        invariant
            it.seq() == all,
            !seen_dash ==> {
                &&& head@ == all.take(it.index() as int)
                &&& tail@ == Seq::<char>::empty()
                &&& forall|i: int| 0 <= i < it.index() ==> all[i] != '-'
            },
            seen_dash ==> {
                &&& is_first_dash(all, dash)
                &&& dash < it.index()
                &&& head@ == all.take(dash)
                &&& tail@ == all.subrange(dash + 1, it.index() as int)
            },
    {
        if seen_dash {
            tail.push(c);
            assert(all.subrange(dash + 1, it.index() + 1) =~= all.subrange(
                dash + 1,
                it.index() as int,
            ).push(c));
        } else if c == '-' {
            seen_dash = true;
            proof {
                dash = it.index() as int;
            }
        } else {
            head.push(c);
        }
    }
    proof {
        if seen_dash {
            assert(first_dash(all) == dash);
        } else {
            assert(first_dash(all) == all.len());
        }
    }
    if seen_dash {
        (head, Some(tail))
    } else {
        (head, None)
    }
}

impl IdSlug {
    /// Reads a parameter that was decoded already.
    pub fn from_param(param: &str) -> (read: IdSlug)
        ensures
            read@ == id_slug_of(param@),
    {
        let (head, slug) = split_at_first_dash(param);
        IdSlug { id: parse_i32(head.as_str()), slug }
    }
}

} // verus!

//! Links, and the per-request overlay that turns a menu of the site into the
//! menu of one page.

use crate::str_map::{entries_of, lemma_entries_push, texts_of, StrMap};
use crate::str_set::StrSet;
use crate::text::{distinct, lemma_names_push, names_of};
use vstd::prelude::*;
use vstd::std_specs::cmp::PartialEqSpecImpl;
use vstd::string::StringExecFns;

verus! {

/// What a link is: its text, its target, its attributes and its classes.
pub struct LinkView {
    pub text: Seq<char>,
    pub url: Seq<char>,
    pub attributes: Map<Seq<char>, Seq<char>>,
    pub classes: Set<Seq<char>>,
}

/// The class that marks the link of the page that is shown.
pub open spec fn active_class() -> Seq<char> {
    seq!['a', 'c', 't', 'i', 'v', 'e']
}

/// The value of `name`, empty where it has none.
pub open spec fn text_at(attributes: Map<Seq<char>, Seq<char>>, name: Seq<char>) -> Seq<char> {
    if attributes.contains_key(name) {
        attributes[name]
    } else {
        Seq::empty()
    }
}

/// An attribute value after `addition` joined it: the two with one space
/// between them, or `addition` alone where there was nothing before.
pub open spec fn joined(current: Seq<char>, addition: Seq<char>) -> Seq<char> {
    if current.len() == 0 {
        addition
    } else {
        current + seq![' '] + addition
    }
}

/// The attributes of `base` after those of `overlay` joined them. A key of
/// `overlay` has its value appended; every other key keeps its value.
pub open spec fn merged(
    base: Map<Seq<char>, Seq<char>>,
    overlay: Map<Seq<char>, Seq<char>>,
) -> Map<Seq<char>, Seq<char>> {
    Map::new(
        |name: Seq<char>| base.contains_key(name) || overlay.contains_key(name),
        |name: Seq<char>|
            if overlay.contains_key(name) {
                joined(text_at(base, name), overlay[name])
            } else {
                base[name]
            },
    )
}

/// `link` with one more class.
pub open spec fn with_class(link: LinkView, class: Seq<char>) -> LinkView {
    LinkView { classes: link.classes.insert(class), ..link }
}

/// Adding a class a second time changes nothing: a link has a class once,
/// however often it was added. A link without classes has one class after the
/// same class was added twice.
pub proof fn lemma_add_class_idempotent(link: LinkView, class: Seq<char>)
    ensures
        with_class(with_class(link, class), class) == with_class(link, class),
        link.classes == Set::<Seq<char>>::empty() ==> {
            &&& with_class(with_class(link, class), class).classes == set![class]
            &&& with_class(with_class(link, class), class).classes.len() == 1
        },
{
    assert(link.classes.insert(class).insert(class) =~= link.classes.insert(class));
}

/// Joining attributes takes no key away, and leaves alone every value whose
/// key the overlay does not hold; a value whose key it holds grows at its end.
pub proof fn lemma_merged_keeps(
    base: Map<Seq<char>, Seq<char>>,
    overlay: Map<Seq<char>, Seq<char>>,
    name: Seq<char>,
)
    requires
        base.contains_key(name),
    ensures
        merged(base, overlay).contains_key(name),
        !overlay.contains_key(name) ==> merged(base, overlay)[name] == base[name],
        base[name].is_prefix_of(merged(base, overlay)[name]),
{
    if overlay.contains_key(name) {
        if base[name].len() > 0 {
            assert((base[name] + seq![' '] + overlay[name]).subrange(0, base[name].len() as int)
                =~= base[name]);
        }
    }
}

/// A link made anew from the text, the target, the attributes and the classes
/// of `link`: what `Link::new`, `extend_attributes` and `add_classes` leave,
/// one after the other.
pub open spec fn rebuilt(link: LinkView) -> LinkView {
    LinkView {
        text: link.text,
        url: link.url,
        attributes: merged(Map::empty(), link.attributes),
        classes: Set::<Seq<char>>::empty().union(link.classes),
    }
}

/// A link that is taken apart and made anew from its parts is the same link:
/// nothing of it is lost on the way out and back.
pub proof fn lemma_rebuilt_is_same(link: LinkView)
    ensures
        rebuilt(link) == link,
{
    assert(merged(Map::empty(), link.attributes) =~= link.attributes);
    assert(Set::<Seq<char>>::empty().union(link.classes) =~= link.classes);
}

/// Merging one more attribute is merging the others and then joining that one.
pub proof fn lemma_merged_insert(
    base: Map<Seq<char>, Seq<char>>,
    overlay: Map<Seq<char>, Seq<char>>,
    name: Seq<char>,
    addition: Seq<char>,
)
    requires
        !overlay.contains_key(name),
    ensures
        merged(base, overlay.insert(name, addition)) == merged(base, overlay).insert(
            name,
            joined(text_at(base, name), addition),
        ),
        text_at(merged(base, overlay), name) == text_at(base, name),
{
    assert(merged(base, overlay.insert(name, addition)) =~= merged(base, overlay).insert(
        name,
        joined(text_at(base, name), addition),
    ));
}

/// Merging nothing changes nothing.
pub proof fn lemma_merged_empty(base: Map<Seq<char>, Seq<char>>)
    ensures
        merged(base, Map::empty()) == base,
{
}

/// What a sequence of links is, link by link.
pub open spec fn links_view(links: Seq<Link>) -> Seq<LinkView> {
    links.map_values(|link: Link| link@)
}

/// What an overlay holds: the links it was made over, the url of the page
/// that is shown, if one was named, and what waits to be joined to every link.
pub struct MenuBuilderView {
    pub menu: Seq<LinkView>,
    pub active: Option<Seq<char>>,
    pub attributes: Map<Seq<char>, Seq<char>>,
    pub classes: Set<Seq<char>>,
}

/// The overlay over `menu` to which nothing was added yet.
pub open spec fn untouched(menu: Seq<LinkView>) -> MenuBuilderView {
    MenuBuilderView { menu, active: None, attributes: Map::empty(), classes: Set::empty() }
}

/// Whether `link` leads to the page that is shown.
pub open spec fn is_active(link: LinkView, active: Option<Seq<char>>) -> bool {
    active == Some(link.url)
}

/// `link` with the class `active`, if it leads to the page that is shown.
pub open spec fn marked(link: LinkView, active: Option<Seq<char>>) -> LinkView {
    if is_active(link, active) {
        LinkView { classes: link.classes.insert(active_class()), ..link }
    } else {
        link
    }
}

/// One link of a menu as the overlay leaves it: the attributes of the overlay
/// joined to its own, the classes of the overlay added to its own, and the
/// class `active` where its url is the one that was named.
pub open spec fn finalized(link: LinkView, overlay: MenuBuilderView) -> LinkView {
    marked(
        LinkView {
            attributes: merged(link.attributes, overlay.attributes),
            classes: link.classes.union(overlay.classes),
            ..link
        },
        overlay.active,
    )
}

/// The menu that an overlay leaves: each of its links, in order.
pub open spec fn finalized_menu(overlay: MenuBuilderView) -> Seq<LinkView> {
    Seq::new(overlay.menu.len(), |i: int| finalized(overlay.menu[i], overlay))
}

/// Joins `addition` to the value that `name` has among `attributes`: after a
/// space where the value is not empty, alone where it is empty or missing.
fn join_attribute(attributes: &mut StrMap<String>, name: String, addition: &str)
    ensures
        texts_of(final(attributes)@) == texts_of(old(attributes)@).insert(
            name@,
            joined(text_at(texts_of(old(attributes)@), name@), addition@),
        ),
{
    let value = match attributes.get(name.as_str()) {
        Some(current) => {
            if current.as_str().is_empty() {
                addition.to_owned()
            } else {
                proof {
                    reveal_strlit(" ");
                    assert(" "@ =~= seq![' ']);
                }
                current.clone().concat(" ").concat(addition)
            }
        },
        None => addition.to_owned(),
    };
    attributes.insert(name, value);
}

/// An entry of a navigation menu.
#[derive(Debug)]
pub struct Link {
    text: String,
    url: String,
    attributes: StrMap<String>,
    classes: StrSet,
}

impl View for Link {
    type V = LinkView;

    closed spec fn view(&self) -> LinkView {
        LinkView {
            text: self.text@,
            url: self.url@,
            attributes: texts_of(self.attributes@),
            classes: self.classes@,
        }
    }
}

impl Link {
    /// A link with the given text and target, without attributes or classes.
    pub fn new(text: &str, url: &str) -> (link: Link)
        ensures
            link@ == (LinkView {
                text: text@,
                url: url@,
                attributes: Map::empty(),
                classes: Set::empty(),
            }),
    {
        let link = Link {
            text: text.to_owned(),
            url: url.to_owned(),
            attributes: StrMap::new(),
            classes: StrSet::new(),
        };
        assert(texts_of(link.attributes@) =~= Map::empty());
        link
    }

    /// Adds a class. A class that the link has already stays as it is.
    pub fn add_class(&mut self, class: &str)
        ensures
            final(self)@ == with_class(old(self)@, class@),
    {
        self.classes.insert(class.to_owned());
    }

    /// Adds each of the classes given.
    pub fn add_classes(&mut self, classes: &[String])
        ensures
            final(self)@ == (LinkView {
                classes: old(self)@.classes.union(names_of(classes@)),
                ..old(self)@
            }),
    {
        let mut i: usize = 0;
        assert(self@.classes =~= old(self)@.classes.union(names_of(classes@.take(0))));
        while i < classes.len()
            invariant
                i <= classes@.len(),
                self@ == (LinkView {
                    classes: old(self)@.classes.union(names_of(classes@.take(i as int))),
                    ..old(self)@
                }),
            decreases classes@.len() - i,
        {
            self.add_class(classes[i].as_str());
            proof {
                assert(classes@.take(i + 1) =~= classes@.take(i as int).push(classes@[i as int]));
                lemma_names_push(classes@.take(i as int), classes@[i as int]);
                assert(self@.classes =~= old(self)@.classes.union(
                    names_of(classes@.take(i + 1)),
                ));
            }
            i += 1;
        }
        assert(classes@.take(i as int) =~= classes@);
    }

    /// The text that is shown.
    pub fn text(&self) -> (text: &str)
        ensures
            text@ == self@.text,
    {
        self.text.as_str()
    }

    /// The target, as it was given: it is compared letter by letter.
    pub fn url(&self) -> (url: &str)
        ensures
            url@ == self@.url,
    {
        self.url.as_str()
    }

    /// The attributes.
    pub fn attributes(&self) -> (attributes: &StrMap<String>)
        ensures
            texts_of(attributes@) == self@.attributes,
    {
        &self.attributes
    }

    /// The classes.
    pub fn classes(&self) -> (classes: &StrSet)
        ensures
            classes@ == self@.classes,
    {
        &self.classes
    }

    /// Joins every attribute of `new_attributes` to those of the link: a value
    /// is appended to the one that is there, after a space, and stands alone
    /// where there was none. No value is taken away.
    pub fn extend_attributes(&mut self, new_attributes: StrMap<String>)
        ensures
            final(self)@ == (LinkView {
                attributes: merged(old(self)@.attributes, texts_of(new_attributes@)),
                ..old(self)@
            }),
    {
        let ghost base = self@.attributes;
        let (names, values) = new_attributes.into_parts();
        let mut i: usize = 0;
        proof {
            assert(texts_of(entries_of(names@.take(0), values@.take(0))) =~= Map::empty());
            lemma_merged_empty(base);
        }
        while i < names.len()
            invariant
                i <= names@.len(),
                names@.len() == values@.len(),
                distinct(names@),
                base == old(self)@.attributes,
                self@ == (LinkView {
                    attributes: merged(
                        base,
                        texts_of(entries_of(names@.take(i as int), values@.take(i as int))),
                    ),
                    ..old(self)@
                }),
            decreases names@.len() - i,
        {
            proof {
                let seen_names = names@.take(i as int);
                let seen_values = values@.take(i as int);
                let seen = entries_of(seen_names, seen_values);
                assert(!names_of(seen_names).contains(names@[i as int]@)) by {
                    if names_of(seen_names).contains(names@[i as int]@) {
                        let j = choose|j: int|
                            0 <= j < seen_names.len() && seen_names[j]@ == names@[i as int]@;
                        assert(names@[j]@ == names@[i as int]@);
                    }
                }
                lemma_entries_push(seen_names, seen_values, names@[i as int], values@[i as int]);
                assert(names@.take(i + 1) =~= seen_names.push(names@[i as int]));
                assert(values@.take(i + 1) =~= seen_values.push(values@[i as int]));
                assert(texts_of(seen.insert(names@[i as int]@, values@[i as int])) =~= texts_of(
                    seen,
                ).insert(names@[i as int]@, values@[i as int]@));
                lemma_merged_insert(base, texts_of(seen), names@[i as int]@, values@[i as int]@);
            }
            join_attribute(&mut self.attributes, names[i].clone(), values[i].as_str());
            i += 1;
        }
        proof {
            assert(names@.take(i as int) =~= names@);
            assert(values@.take(i as int) =~= values@);
        }
    }
}

impl Clone for Link {
    fn clone(&self) -> (copy: Link)
        ensures
            copy@ == self@,
    {
        let copy = Link {
            text: self.text.clone(),
            url: self.url.clone(),
            attributes: self.attributes.clone(),
            classes: self.classes.clone(),
        };
        assert(texts_of(copy.attributes@) =~= texts_of(self.attributes@));
        copy
    }
}

impl PartialEq for Link {
    fn eq(&self, other: &Link) -> (same: bool) {
        let same = self.text == other.text && self.url == other.url && self.attributes
            == other.attributes && self.classes == other.classes;
        same
    }
}

impl Eq for Link {

}

impl PartialEqSpecImpl for Link {
    open spec fn obeys_eq_spec() -> bool {
        true
    }

    open spec fn eq_spec(&self, other: &Link) -> bool {
        self@ == other@
    }
}

/// Copies of the links given, in order.
pub fn clone_links(links: &[Link]) -> (copies: Vec<Link>)
    ensures
        links_view(copies@) == links_view(links@),
{
    let mut copies: Vec<Link> = Vec::new();
    let mut i: usize = 0;
    while i < links.len()
        invariant
            i <= links@.len(),
            copies@.len() == i,
            forall|j: int| 0 <= j < i ==> copies@[j]@ == links@[j]@,
        decreases links@.len() - i,
    {
        copies.push(links[i].clone());
        i += 1;
    }
    copies
}

/// The per-request overlay over one menu of the site. It keeps its own copy
/// of the links, so the menu of the site stays as it is.
pub struct MenuBuilder {
    menu: Vec<Link>,
    active: Option<String>,
    attributes: StrMap<String>,
    classes: StrSet,
}

impl View for MenuBuilder {
    type V = MenuBuilderView;

    closed spec fn view(&self) -> MenuBuilderView {
        MenuBuilderView {
            menu: links_view(self.menu@),
            active: match self.active {
                Some(url) => Some(url@),
                None => None,
            },
            attributes: texts_of(self.attributes@),
            classes: self.classes@,
        }
    }
}

impl MenuBuilder {
    /// An overlay over a copy of `menu`, with nothing added yet.
    pub fn new(menu: &[Link]) -> (builder: MenuBuilder)
        ensures
            builder@ == untouched(links_view(menu@)),
    {
        let builder = MenuBuilder {
            menu: clone_links(menu),
            active: None,
            attributes: StrMap::new(),
            classes: StrSet::new(),
        };
        assert(texts_of(builder.attributes@) =~= Map::empty());
        builder
    }

    /// Notes a class that every link of the menu is to get.
    pub fn add_class(&mut self, class: &str)
        ensures
            final(self)@ == (MenuBuilderView {
                classes: old(self)@.classes.insert(class@),
                ..old(self)@
            }),
    {
        self.classes.insert(class.to_owned());
    }

    /// Notes an attribute value that every link of the menu is to get. It
    /// joins what was noted under the same name before.
    pub fn add_attribute(&mut self, name: &str, value: &str)
        ensures
            final(self)@ == (MenuBuilderView {
                attributes: old(self)@.attributes.insert(
                    name@,
                    joined(text_at(old(self)@.attributes, name@), value@),
                ),
                ..old(self)@
            }),
    {
        join_attribute(&mut self.attributes, name.to_owned(), value);
    }

    /// Names the url of the page that is shown. The last call decides.
    pub fn set_active(&mut self, url: &str)
        ensures
            final(self)@ == (MenuBuilderView { active: Some(url@), ..old(self)@ }),
    {
        self.active = Some(url.to_owned());
    }

    /// The menu of this request: every link with what the overlay holds
    /// joined to it, in the order of the menu.
    pub fn finalize(self) -> (menu: Vec<Link>)
        ensures
            links_view(menu@) == finalized_menu(self@),
    {
        let mut menu: Vec<Link> = Vec::new();
        let mut i: usize = 0;
        while i < self.menu.len()
            invariant
                i <= self.menu@.len(),
                menu@.len() == i,
                forall|j: int| 0 <= j < i ==> menu@[j]@ == finalized(self.menu@[j]@, self@),
            decreases self.menu@.len() - i,
        {
            let mut link = self.menu[i].clone();
            let attributes = self.attributes.clone();
            assert(texts_of(attributes@) =~= self@.attributes);
            link.extend_attributes(attributes);
            link.add_classes(self.classes.names().as_slice());
            add_class_if_active(&mut link, &self.active);
            menu.push(link);
            i += 1;
        }
        menu
    }
}

/// Gives `link` the class `active` if its url is the one named.
pub fn add_class_if_active(link: &mut Link, active: &Option<String>)
    ensures
        final(link)@ == marked(
            old(link)@,
            match *active {
                Some(url) => Some(url@),
                None => None,
            },
        ),
{
    if let Some(active_url) = active {
        if *link.url() == *active_url.as_str() {
            proof {
                reveal_strlit("active");
                assert("active"@ =~= active_class());
            }
            link.add_class("active");
        }
    }
}

} // verus!

//! The metadata of the site: what every page of it shares.

use crate::nav::{links_view, Link, LinkView};
use crate::str_map::StrMap;
use vstd::prelude::*;

verus! {

/// The error with which `regex` refuses a pattern. Nothing is known of it.
#[verifier::external_type_specification]
#[verifier::external_body]
pub struct ExRegexError(regex::Error);

/// Whether `regex::Regex::new` accepts `pattern`.
pub uninterp spec fn pattern_compiles(pattern: Seq<char>) -> bool;

/// What the first item of `regex::Regex::captures_iter` holds when `pattern`
/// is searched for in `haystack`: nothing where there is no match, else the
/// text of each capture group, group 0 first, with nothing for a group that
/// took no part in the match.
pub uninterp spec fn first_captures(pattern: Seq<char>, haystack: Seq<char>) -> Option<
    Seq<Option<Seq<char>>>,
>;

/// The text of each group.
pub open spec fn groups_view(groups: Seq<Option<String>>) -> Seq<Option<Seq<char>>> {
    groups.map_values(
        |group: Option<String>|
            match group {
                Some(text) => Some(text@),
                None => None,
            },
    )
}

/// The text of each group of a search, if it found a match.
pub open spec fn found_view(found: Option<Vec<Option<String>>>) -> Option<Seq<Option<Seq<char>>>> {
    match found {
        Some(groups) => Some(groups_view(groups@)),
        None => None,
    }
}

/// Compiles `pattern` with `regex::Regex::new` and takes the first item of
/// `captures_iter` on `haystack`. Believed, not proved: the call fails exactly
/// on the patterns that `regex` refuses, and what it finds is the named result
/// of the search, each group copied out as a string.
#[verifier::external_body]
fn search(pattern: &str, haystack: &str) -> (found: Result<
    Option<Vec<Option<String>>>,
    regex::Error,
>)
    ensures
        (found is Ok) == pattern_compiles(pattern@),
        found matches Ok(groups) ==> found_view(groups) == first_captures(pattern@, haystack@),
{
    let re = regex::Regex::new(pattern)?;
    let first = re.captures_iter(haystack).next();
    Ok(first.map(|caps| caps.iter().map(|group| group.map(|m| m.as_str().to_owned())).collect()))
}

/// The pattern of an author line: a name, a space, and an address between
/// angle brackets, the address a local part, `@` and a domain.
pub const AUTHOR_PATTERN: &'static str =
    "(.*) <([a-z0-9!#$%&'*+/=?^_`{|}~.-]+@[a-z0-9-]+(\\.[a-z0-9-]+)*)>";

/// What an author is: a name and an address.
pub struct AuthorView {
    pub name: Seq<char>,
    pub email: Seq<char>,
}

/// The text of group `i`, empty where the group is missing.
pub open spec fn group_text(groups: Seq<Option<Seq<char>>>, i: int) -> Seq<char> {
    if 0 <= i < groups.len() && groups[i] is Some {
        groups[i]->0
    } else {
        Seq::empty()
    }
}

/// The author that a search for the author pattern stands for: none where
/// nothing matched, else group 1 as the name and group 2 as the address.
pub open spec fn author_of(found: Option<Seq<Option<Seq<char>>>>) -> Option<AuthorView> {
    match found {
        Some(groups) => Some(
            AuthorView { name: group_text(groups, 1), email: group_text(groups, 2) },
        ),
        None => None,
    }
}

/// The author that a line stands for, if it stands for one.
pub open spec fn parsed_author(line: Seq<char>) -> Option<AuthorView> {
    if pattern_compiles(AUTHOR_PATTERN@) {
        author_of(first_captures(AUTHOR_PATTERN@, line))
    } else {
        None
    }
}

/// A line that does not name an author.
#[derive(Clone, Debug, PartialEq, Eq)]
pub struct AuthorParseError;

/// The name and the address of one author of the site.
#[derive(Clone, Debug, PartialEq)]
pub struct Author {
    name: String,
    email: String,
}

impl View for Author {
    type V = AuthorView;

    closed spec fn view(&self) -> AuthorView {
        AuthorView { name: self.name@, email: self.email@ }
    }
}

/// A copy of the text of group `i`, empty where the group is missing.
fn group_string(groups: &Vec<Option<String>>, i: usize) -> (text: String)
    ensures
        text@ == group_text(groups_view(groups@), i as int),
{
    if i < groups.len() {
        match &groups[i] {
            Some(text) => text.clone(),
            None => String::new(),
        }
    } else {
        String::new()
    }
}

impl Author {
    /// An author with the given name and address.
    pub fn new(name: &str, email: &str) -> (author: Author)
        ensures
            author@ == (AuthorView { name: name@, email: email@ }),
    {
        Author { name: name.to_owned(), email: email.to_owned() }
    }

    /// The name.
    pub fn name(&self) -> (name: &str)
        ensures
            name@ == self@.name,
    {
        self.name.as_str()
    }

    /// The address.
    pub fn email(&self) -> (email: &str)
        ensures
            email@ == self@.email,
    {
        self.email.as_str()
    }

    /// The author that the outcome of a search for the author pattern stands
    /// for. No match is an error, not an author without a name.
    pub fn from_captures(found: Option<Vec<Option<String>>>) -> (parsed: Result<
        Author,
        AuthorParseError,
    >)
        ensures
            match parsed {
                Ok(author) => author_of(found_view(found)) == Some(author@),
                Err(_) => author_of(found_view(found)) is None,
            },
    {
        match found {
            Some(groups) => Ok(
                Author { name: group_string(&groups, 1), email: group_string(&groups, 2) },
            ),
            None => Err(AuthorParseError),
        }
    }

    /// Reads an author from a line of the form `Name <address>`.
    pub fn parse(line: &str) -> (parsed: Result<Author, AuthorParseError>)
        ensures
            match parsed {
                Ok(author) => parsed_author(line@) == Some(author@),
                Err(_) => parsed_author(line@) is None,
            },
    {
        match search(AUTHOR_PATTERN, line) {
            Ok(found) => Author::from_captures(found),
            Err(_) => Err(AuthorParseError),
        }
    }

    /// Reads an author from a line, as `parse` does, for callers that have no
    /// use for the error.
    pub fn try_from(value: String) -> (parsed: Result<Author, ()>)
        ensures
            match parsed {
                Ok(author) => parsed_author(value@) == Some(author@),
                Err(_) => parsed_author(value@) is None,
            },
    {
        match Author::parse(value.as_str()) {
            Ok(author) => Ok(author),
            Err(_) => Err(()),
        }
    }
}

/// Each author as what it is.
pub open spec fn authors_view(authors: Seq<Author>) -> Seq<AuthorView> {
    authors.map_values(|author: Author| author@)
}

/// Whether every line names an author.
pub open spec fn all_parse(lines: Seq<String>) -> bool {
    forall|i: int| 0 <= i < lines.len() ==> parsed_author(#[trigger] lines[i]@) is Some
}

/// The authors that the lines name, line by line.
pub open spec fn parsed_authors(lines: Seq<String>) -> Seq<AuthorView> {
    lines.map_values(|line: String| parsed_author(line@)->0)
}

/// Why a site's metadata could not be made.
#[derive(Clone, Copy, Debug, PartialEq, Eq)]
pub enum ParseError {
    /// The author line at this place does not name an author.
    Author { position: usize },
}

/// An entry of the sidebar.
#[derive(Clone, Debug, PartialEq)]
pub enum SidebarItem {
    /// Plain text.
    Text(String),
    /// Text that is set off from what surrounds it.
    TextInset(String),
    /// A list of links.
    Links(Vec<Link>),
}

/// Each menu as the sequence of what its links are.
pub open spec fn menus_view(menus: Map<Seq<char>, Vec<Link>>) -> Map<Seq<char>, Seq<LinkView>> {
    menus.map_values(|links: Vec<Link>| links_view(links@))
}

/// What the metadata of a site is.
pub struct MetadataView {
    pub title: Seq<char>,
    pub description: Seq<char>,
    pub authors: Seq<AuthorView>,
    pub sidebar: Map<Seq<char>, SidebarItem>,
    pub menus: Map<Seq<char>, Seq<LinkView>>,
}

/// The metadata of a site. It is made once and read from then on: nothing
/// here changes a value that was made.
#[derive(Clone, Debug)]
pub struct Metadata {
    title: String,
    description: String,
    authors: Vec<Author>,
    sidebar: StrMap<SidebarItem>,
    menus: StrMap<Vec<Link>>,
}

impl View for Metadata {
    type V = MetadataView;

    closed spec fn view(&self) -> MetadataView {
        MetadataView {
            title: self.title@,
            description: self.description@,
            authors: authors_view(self.authors@),
            sidebar: self.sidebar@,
            menus: menus_view(self.menus@),
        }
    }
}

/// Reads the authors that the lines name, in order. The first line that
/// names none ends the reading, and the error gives its place.
pub fn parse_authors(lines: &[String]) -> (parsed: Result<Vec<Author>, ParseError>)
    ensures
        match parsed {
            Ok(authors) => all_parse(lines@) && authors_view(authors@) == parsed_authors(lines@),
            Err(ParseError::Author { position }) => {
                &&& position < lines@.len()
                &&& parsed_author(lines@[position as int]@) is None
                &&& all_parse(lines@.take(position as int))
            },
        },
{
    let mut authors: Vec<Author> = Vec::new();
    let mut i: usize = 0;
    while i < lines.len()
        invariant
            i <= lines@.len(),
            authors@.len() == i,
            forall|j: int| 0 <= j < i ==> parsed_author(#[trigger] lines@[j]@) == Some(authors@[j]@),
        decreases lines@.len() - i,
    {
        match Author::parse(lines[i].as_str()) {
            Ok(author) => authors.push(author),
            Err(_) => {
                return Err(ParseError::Author { position: i });
            },
        }
        i += 1;
    }
    Ok(authors)
}

impl Metadata {
    /// Metadata in which every text is empty and every collection has no item.
    pub fn new() -> (meta: Metadata)
        ensures
            meta@ == (MetadataView {
                title: Seq::empty(),
                description: Seq::empty(),
                authors: Seq::empty(),
                sidebar: Map::empty(),
                menus: Map::empty(),
            }),
    {
        let meta = Metadata {
            title: String::new(),
            description: String::new(),
            authors: Vec::new(),
            sidebar: StrMap::new(),
            menus: StrMap::new(),
        };
        assert(authors_view(meta.authors@) =~= Seq::empty());
        assert(menus_view(meta.menus@) =~= Map::empty());
        meta
    }

    /// Metadata that holds what is given.
    pub fn from_parts(
        title: String,
        description: String,
        authors: Vec<Author>,
        sidebar: StrMap<SidebarItem>,
        menus: StrMap<Vec<Link>>,
    ) -> (meta: Metadata)
        ensures
            meta@ == (MetadataView {
                title: title@,
                description: description@,
                authors: authors_view(authors@),
                sidebar: sidebar@,
                menus: menus_view(menus@),
            }),
    {
        Metadata { title, description, authors, sidebar, menus }
    }

    /// Metadata from what a configuration holds, with each author still the
    /// line that was written. It is made only if every line names an author.
    pub fn load(
        title: String,
        description: String,
        authors: &[String],
        sidebar: StrMap<SidebarItem>,
        menus: StrMap<Vec<Link>>,
    ) -> (loaded: Result<Metadata, ParseError>)
        ensures
            match loaded {
                Ok(meta) => all_parse(authors@) && meta@ == (MetadataView {
                    title: title@,
                    description: description@,
                    authors: parsed_authors(authors@),
                    sidebar: sidebar@,
                    menus: menus_view(menus@),
                }),
                Err(ParseError::Author { position }) => {
                    &&& position < authors@.len()
                    &&& parsed_author(authors@[position as int]@) is None
                    &&& all_parse(authors@.take(position as int))
                },
            },
    {
        match parse_authors(authors) {
            Ok(parsed) => Ok(Metadata::from_parts(title, description, parsed, sidebar, menus)),
            Err(error) => Err(error),
        }
    }

    /// The title of the site.
    pub fn title(&self) -> (title: &str)
        ensures
            title@ == self@.title,
    {
        self.title.as_str()
    }

    /// The description of the site.
    pub fn description(&self) -> (description: &str)
        ensures
            description@ == self@.description,
    {
        self.description.as_str()
    }

    /// The authors, in the order of the configuration.
    pub fn authors(&self) -> (authors: &[Author])
        ensures
            authors_view(authors@) == self@.authors,
    {
        self.authors.as_slice()
    }

    /// The entries of the sidebar, by name.
    pub fn sidebar(&self) -> (sidebar: &StrMap<SidebarItem>)
        ensures
            sidebar@ == self@.sidebar,
    {
        &self.sidebar
    }

    /// The menus of the site, by name.
    pub fn menus(&self) -> (menus: &StrMap<Vec<Link>>)
        ensures
            menus_view(menus@) == self@.menus,
    {
        &self.menus
    }
}

impl core::str::FromStr for Author {
    type Err = AuthorParseError;

    /// Reads an author from a line of the form `Name <address>`, as `parse`
    /// does: this is what `str::parse` calls.
    fn from_str(s: &str) -> (parsed: Result<Author, AuthorParseError>)
        ensures
            match parsed {
                Ok(author) => parsed_author(s@) == Some(author@),
                Err(_) => parsed_author(s@) is None,
            },
    {
        Author::parse(s)
    }
}

} // verus!

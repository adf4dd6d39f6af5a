use context_builder::meta::{parse_authors, Author, AuthorParseError, Metadata, ParseError, SidebarItem};
use context_builder::nav::Link;
use context_builder::str_map::StrMap;

fn lines(text: &[&str]) -> Vec<String> {
    text.iter().map(|line| line.to_string()).collect()
}

#[test]
fn metadata() {
    let meta = Metadata::new();
    assert!(meta.title().is_empty());
    assert!(meta.description().is_empty());
    assert!(meta.authors().is_empty());
    assert!(meta.sidebar().is_empty());
    assert!(meta.menus().is_empty());
}

#[test]
fn meta_deserialize_metadata() {
    let authors = lines(&["Name <email@author.com>", "Another <another@author.net>"]);
    let meta = Metadata::load(
        "Some Title".to_string(),
        "Some description".to_string(),
        &authors,
        StrMap::new(),
        StrMap::new(),
    )
    .unwrap();

    assert_eq!(meta.title(), "Some Title");
    assert_eq!(meta.description(), "Some description");
    assert_eq!(
        meta.authors(),
        &[Author::new("Name", "email@author.com"), Author::new("Another", "another@author.net")]
    );
    assert!(meta.sidebar().is_empty());
    assert!(meta.menus().is_empty());
}

#[test]
fn metadata_deserialize_metadata() {
    let authors = lines(&["Name <email@author.com>", "Another <another@author.net>"]);
    let parsed = parse_authors(&authors).unwrap();
    let meta = Metadata::from_parts(
        "Some Title".to_string(),
        "Some description".to_string(),
        parsed,
        StrMap::new(),
        StrMap::new(),
    );

    assert_eq!(meta.title(), "Some Title");
    assert_eq!(meta.description(), "Some description");
    assert_eq!(meta.authors().len(), 2);
    assert_eq!(meta.authors()[0].name(), "Name");
    assert_eq!(meta.authors()[0].email(), "email@author.com");
    assert_eq!(meta.authors()[1].name(), "Another");
    assert_eq!(meta.authors()[1].email(), "another@author.net");
}

#[test]
fn meta_deserialize_author() {
    assert_eq!(
        Ok(Author::new("Random Name", "random@mail.tld")),
        "Random Name <random@mail.tld>".parse()
    );

    assert!("".parse::<Author>().is_err());
    assert!("<>".parse::<Author>().is_err());
    assert!("<random@mail.tld>".parse::<Author>().is_err());
    assert!("Random Name".parse::<Author>().is_err());
}

#[test]
fn metadata_deserialize_author() {
    assert_eq!(
        Ok(Author::new("Random Name", "random@mail.tld")),
        Author::parse("Random Name <random@mail.tld>")
    );

    assert!(Author::parse("").is_err());
    assert!(Author::parse("<>").is_err());
    assert!(Author::parse("<random@mail.tld>").is_err());
    assert!(Author::parse("Random Name").is_err());
}

#[test]
fn convert_string_to_author() {
    assert_eq!(
        Ok(Author::new("Random Name", "random@mail.tld")),
        Author::try_from(String::from("Random Name <random@mail.tld>"))
    );

    assert!(Author::try_from(String::from("")).is_err());
    assert!(Author::try_from(String::from("<>")).is_err());
    assert!(Author::try_from(String::from("<random@mail.tld>")).is_err());
    assert!(Author::try_from(String::from("Random Name")).is_err());
}

#[test]
fn jane_doe_is_an_author() {
    let author = Author::parse("Jane Doe <jane@example.com>").unwrap();
    assert_eq!(author.name(), "Jane Doe");
    assert_eq!(author.email(), "jane@example.com");
    assert_eq!(author, Author::new("Jane Doe", "jane@example.com"));
}

#[test]
fn malformed_author_is_an_error_not_a_default() {
    assert_eq!(Author::parse(""), Err(AuthorParseError));
    assert_eq!(Author::parse("<>"), Err(AuthorParseError));
    assert_eq!(Author::parse("<random@mail.tld>"), Err(AuthorParseError));
    assert_eq!(Author::parse("Random Name"), Err(AuthorParseError));
    assert_eq!(Author::parse("Random Name <random>"), Err(AuthorParseError));
    assert_eq!(Author::parse("Random Name <@mail.tld>"), Err(AuthorParseError));
    assert_eq!(Author::parse("Random Name <random@>"), Err(AuthorParseError));
    assert_eq!(Author::parse("Random Name <Random@mail.tld>"), Err(AuthorParseError));
    assert_eq!(Author::parse("Random Name<random@mail.tld>"), Err(AuthorParseError));
}

#[test]
fn author_is_found_inside_a_longer_line() {
    let author = Author::parse(" <a@b> and more").unwrap();
    assert_eq!(author.name(), "");
    assert_eq!(author.email(), "a@b");

    let author = Author::parse("First <x@y.z> Second <u@v.w>").unwrap();
    assert_eq!(author.name(), "First <x@y.z> Second");
    assert_eq!(author.email(), "u@v.w");
}

#[test]
fn author_from_captures_reads_groups_one_and_two() {
    let groups = vec![
        Some("N <e@d>".to_string()),
        Some("N".to_string()),
        Some("e@d".to_string()),
        None,
    ];
    assert_eq!(Author::from_captures(Some(groups)), Ok(Author::new("N", "e@d")));
    assert_eq!(Author::from_captures(None), Err(AuthorParseError));
    assert_eq!(
        Author::from_captures(Some(vec![Some("x".to_string()), None])),
        Ok(Author::new("", ""))
    );
    assert_eq!(Author::from_captures(Some(vec![])), Ok(Author::new("", "")));
}

#[test]
fn parse_authors_keeps_the_order() {
    let authors = parse_authors(&lines(&["B <b@x.y>", "A <a@x.y>", "C <c@x.y>"])).unwrap();
    assert_eq!(
        authors,
        vec![Author::new("B", "b@x.y"), Author::new("A", "a@x.y"), Author::new("C", "c@x.y")]
    );
    assert_eq!(parse_authors(&[]), Ok(vec![]));
}

#[test]
fn parse_authors_names_the_first_bad_line() {
    let parsed = parse_authors(&lines(&["A <a@x.y>", "nobody", "C <c@x.y>", "also nobody"]));
    assert_eq!(parsed, Err(ParseError::Author { position: 1 }));
    assert_eq!(parse_authors(&lines(&[""])), Err(ParseError::Author { position: 0 }));
}

#[test]
fn load_fails_on_a_malformed_author() {
    let loaded = Metadata::load(
        "Title".to_string(),
        "Description".to_string(),
        &lines(&["Name <email@author.com>", "<another@author.net>"]),
        StrMap::new(),
        StrMap::new(),
    );
    assert_eq!(loaded.err(), Some(ParseError::Author { position: 1 }));
}

#[test]
fn load_keeps_sidebar_and_menus() {
    let mut sidebar = StrMap::new();
    sidebar.insert("about".to_string(), SidebarItem::Text("Hello".to_string()));
    sidebar.insert("note".to_string(), SidebarItem::TextInset("Mind the gap".to_string()));
    sidebar.insert(
        "links".to_string(),
        SidebarItem::Links(vec![
            Link::new("Link 1", "https://rust-lang.org"),
            Link::new("Link 2", "https://crates.io"),
        ]),
    );
    let mut menus = StrMap::new();
    menus.insert("main".to_string(), vec![Link::new("Home", "/"), Link::new("Blog", "/blog")]);
    menus.insert("footer".to_string(), vec![]);

    let meta =
        Metadata::load("T".to_string(), "D".to_string(), &[], sidebar, menus).unwrap();

    assert!(meta.authors().is_empty());
    assert_eq!(meta.sidebar().len(), 3);
    assert_eq!(meta.sidebar().get("about"), Some(&SidebarItem::Text("Hello".to_string())));
    assert_eq!(
        meta.sidebar().get("note"),
        Some(&SidebarItem::TextInset("Mind the gap".to_string()))
    );
    assert_eq!(
        meta.sidebar().get("links"),
        Some(&SidebarItem::Links(vec![
            Link::new("Link 1", "https://rust-lang.org"),
            Link::new("Link 2", "https://crates.io"),
        ]))
    );
    assert_eq!(meta.menus().len(), 2);
    assert_eq!(
        meta.menus().get("main"),
        Some(&vec![Link::new("Home", "/"), Link::new("Blog", "/blog")])
    );
    assert_eq!(meta.menus().get("footer"), Some(&vec![]));
    assert_eq!(meta.menus().get("side"), None);
}

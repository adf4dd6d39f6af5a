use context_builder::nav::{add_class_if_active, clone_links, Link, MenuBuilder};
use context_builder::str_map::StrMap;
use context_builder::str_set::StrSet;
use std::collections::{HashMap, HashSet};

fn link() -> Link {
    Link::new("Click here", "https://somewhere.net")
}

fn attributes_of(link: &Link) -> HashMap<String, String> {
    let keys = link.attributes().keys().iter().cloned();
    let values = link.attributes().values().iter().cloned();
    keys.zip(values).collect()
}

fn classes_of(link: &Link) -> HashSet<String> {
    link.classes().names().iter().cloned().collect()
}

fn string_map(pairs: &[(&str, &str)]) -> HashMap<String, String> {
    pairs.iter().map(|(k, v)| (k.to_string(), v.to_string())).collect()
}

fn string_set(names: &[&str]) -> HashSet<String> {
    names.iter().map(|n| n.to_string()).collect()
}

fn overlay(pairs: &[(&str, &str)]) -> StrMap<String> {
    let mut map = StrMap::new();
    for (k, v) in pairs {
        map.insert(k.to_string(), v.to_string());
    }
    map
}

#[test]
fn create_link() {
    let link = link();
    assert_eq!(link.text(), "Click here");
    assert_eq!(link.url(), "https://somewhere.net");
    assert_eq!(attributes_of(&link), HashMap::new());
    assert_eq!(classes_of(&link), HashSet::new());
}

#[test]
fn extend_link_attributes() {
    let mut link = link();
    link.extend_attributes(overlay(&[("class", "active"), ("id", "some-id")]));

    assert_eq!(attributes_of(&link), string_map(&[("class", "active"), ("id", "some-id")]));
}

#[test]
fn add_class_to_link() {
    let mut link = link();
    link.add_class("active");

    assert_eq!(classes_of(&link), string_set(&["active"]));
}

#[test]
fn build_menu() {
    let links = vec![
        Link::new("Home", "/"),
        Link::new("About", "/about"),
        Link::new("Blog", "/blog"),
        Link::new("Somewhere else", "/se"),
    ];
    let mut builder = MenuBuilder::new(links.as_ref());
    builder.add_class("main-nav");
    builder.set_active("/blog");
    let menu = builder.finalize();

    assert_eq!(menu.len(), 4);

    assert_eq!(menu[0].text(), "Home");
    assert_eq!(menu[0].url(), "/");
    assert_eq!(attributes_of(&menu[0]), HashMap::new());
    assert_eq!(classes_of(&menu[0]), string_set(&["main-nav"]));

    assert_eq!(menu[1].text(), "About");
    assert_eq!(menu[1].url(), "/about");
    assert_eq!(attributes_of(&menu[1]), HashMap::new());
    assert_eq!(classes_of(&menu[1]), string_set(&["main-nav"]));

    assert_eq!(menu[2].text(), "Blog");
    assert_eq!(menu[2].url(), "/blog");
    assert_eq!(attributes_of(&menu[2]), HashMap::new());
    assert_eq!(classes_of(&menu[2]), string_set(&["main-nav", "active"]));

    assert_eq!(menu[3].text(), "Somewhere else");
    assert_eq!(menu[3].url(), "/se");
    assert_eq!(attributes_of(&menu[3]), HashMap::new());
    assert_eq!(classes_of(&menu[3]), string_set(&["main-nav"]));
}

#[test]
fn build_menu_compared_as_links() {
    let links = vec![Link::new("Home", "/"), Link::new("Blog", "/blog")];
    let mut builder = MenuBuilder::new(&links);
    builder.add_class("main-nav");
    builder.set_active("/blog");
    let menu = builder.finalize();

    let mut home = Link::new("Home", "/");
    home.add_class("main-nav");
    let mut blog = Link::new("Blog", "/blog");
    blog.add_classes(&["active".to_string(), "main-nav".to_string()]);
    assert_eq!(menu, vec![home, blog]);
}

#[test]
fn add_class_twice_keeps_one() {
    let mut link = link();
    link.add_class("x");
    link.add_class("x");
    assert_eq!(link.classes().len(), 1);
    assert!(link.classes().contains("x"));
    assert_eq!(classes_of(&link), string_set(&["x"]));
}

#[test]
fn add_classes_ignores_repeats() {
    let mut link = link();
    link.add_class("b");
    link.add_classes(&["a".to_string(), "b".to_string(), "a".to_string(), "c".to_string()]);
    assert_eq!(link.classes().len(), 3);
    assert_eq!(classes_of(&link), string_set(&["a", "b", "c"]));
}

#[test]
fn add_classes_of_nothing_changes_nothing() {
    let mut link = link();
    link.add_class("a");
    link.add_classes(&[]);
    assert_eq!(classes_of(&link), string_set(&["a"]));
}

#[test]
fn active_link_is_marked_and_the_other_is_not() {
    let links = vec![Link::new("Home", "/"), Link::new("Blog", "/blog")];
    let mut builder = MenuBuilder::new(&links);
    builder.set_active("/blog");
    let menu = builder.finalize();
    assert_eq!(menu.len(), 2);
    assert!(!menu[0].classes().contains("active"));
    assert!(menu[1].classes().contains("active"));
    assert_eq!(classes_of(&menu[0]), HashSet::new());
    assert_eq!(classes_of(&menu[1]), string_set(&["active"]));
}

#[test]
fn every_link_with_the_active_url_is_marked() {
    let links = vec![Link::new("Blog", "/blog"), Link::new("Home", "/"), Link::new("News", "/blog")];
    let mut builder = MenuBuilder::new(&links);
    builder.set_active("/blog");
    let menu = builder.finalize();
    assert!(menu[0].classes().contains("active"));
    assert!(!menu[1].classes().contains("active"));
    assert!(menu[2].classes().contains("active"));
}

#[test]
fn active_url_is_compared_letter_by_letter() {
    let links = vec![
        Link::new("Slash", "/blog/"),
        Link::new("Case", "/Blog"),
        Link::new("Query", "/blog?page=2"),
        Link::new("Exact", "/blog"),
    ];
    let mut builder = MenuBuilder::new(&links);
    builder.set_active("/blog");
    let menu = builder.finalize();
    assert!(!menu[0].classes().contains("active"));
    assert!(!menu[1].classes().contains("active"));
    assert!(!menu[2].classes().contains("active"));
    assert!(menu[3].classes().contains("active"));
}

#[test]
fn last_active_url_wins() {
    let links = vec![Link::new("Home", "/"), Link::new("Blog", "/blog")];
    let mut builder = MenuBuilder::new(&links);
    builder.set_active("/blog");
    builder.set_active("/");
    let menu = builder.finalize();
    assert_eq!(classes_of(&menu[0]), string_set(&["active"]));
    assert_eq!(classes_of(&menu[1]), HashSet::new());
}

#[test]
fn untouched_overlay_gives_the_menu_back() {
    let mut about = Link::new("About", "/about");
    about.add_class("wide");
    about.extend_attributes(overlay(&[("id", "about")]));
    let links = vec![Link::new("Home", "/"), about];
    let menu = MenuBuilder::new(&links).finalize();
    assert_eq!(menu, links);
}

#[test]
fn overlay_of_no_link_gives_no_link() {
    let mut builder = MenuBuilder::new(&[]);
    builder.add_class("main-nav");
    builder.set_active("/");
    assert_eq!(builder.finalize(), Vec::<Link>::new());
}

#[test]
fn overlay_leaves_the_base_menu_alone() {
    let links = vec![Link::new("Home", "/")];
    let mut builder = MenuBuilder::new(&links);
    builder.add_class("main-nav");
    builder.set_active("/");
    let menu = builder.finalize();
    assert_eq!(classes_of(&menu[0]), string_set(&["main-nav", "active"]));
    assert_eq!(classes_of(&links[0]), HashSet::new());
    assert_eq!(links[0], Link::new("Home", "/"));
}

#[test]
fn overlay_attributes_join_those_of_each_link() {
    let mut home = Link::new("Home", "/");
    home.extend_attributes(overlay(&[("rel", "start")]));
    let links = vec![home, Link::new("Blog", "/blog")];
    let mut builder = MenuBuilder::new(&links);
    builder.add_attribute("rel", "nofollow");
    builder.add_attribute("data-menu", "main");
    builder.add_attribute("rel", "noopener");
    let menu = builder.finalize();
    assert_eq!(
        attributes_of(&menu[0]),
        string_map(&[("rel", "start nofollow noopener"), ("data-menu", "main")])
    );
    assert_eq!(
        attributes_of(&menu[1]),
        string_map(&[("rel", "nofollow noopener"), ("data-menu", "main")])
    );
}

#[test]
fn extend_attributes_appends_after_one_space() {
    let mut link = link();
    link.extend_attributes(overlay(&[("class", "active"), ("id", "some-id")]));
    link.extend_attributes(overlay(&[("class", "wide"), ("title", "Go")]));
    assert_eq!(
        attributes_of(&link),
        string_map(&[("class", "active wide"), ("id", "some-id"), ("title", "Go")])
    );
}

#[test]
fn extend_attributes_sets_an_empty_value_without_a_space() {
    let mut link = link();
    link.extend_attributes(overlay(&[("class", "")]));
    assert_eq!(attributes_of(&link), string_map(&[("class", "")]));
    link.extend_attributes(overlay(&[("class", "wide")]));
    assert_eq!(attributes_of(&link), string_map(&[("class", "wide")]));
    link.extend_attributes(overlay(&[("class", "")]));
    assert_eq!(attributes_of(&link), string_map(&[("class", "wide ")]));
}

#[test]
fn extend_attributes_with_nothing_changes_nothing() {
    let mut link = link();
    link.extend_attributes(overlay(&[("id", "x")]));
    link.extend_attributes(StrMap::new());
    assert_eq!(attributes_of(&link), string_map(&[("id", "x")]));
}

#[test]
fn add_class_if_active_marks_only_the_named_url() {
    let mut link = Link::new("Blog", "/blog");
    add_class_if_active(&mut link, &None);
    assert_eq!(classes_of(&link), HashSet::new());
    add_class_if_active(&mut link, &Some("/".to_string()));
    assert_eq!(classes_of(&link), HashSet::new());
    add_class_if_active(&mut link, &Some("/blog".to_string()));
    assert_eq!(classes_of(&link), string_set(&["active"]));
}

#[test]
fn links_are_equal_whatever_the_order_of_arrival() {
    let mut one = link();
    one.add_class("a");
    one.add_class("b");
    one.extend_attributes(overlay(&[("id", "x"), ("rel", "y")]));
    let mut other = link();
    other.add_class("b");
    other.add_class("a");
    other.extend_attributes(overlay(&[("rel", "y")]));
    other.extend_attributes(overlay(&[("id", "x")]));
    assert_eq!(one, other);
    assert_eq!(one.clone(), one);
}

#[test]
fn links_that_differ_are_not_equal() {
    let base = link();
    assert_ne!(base, Link::new("Click there", "https://somewhere.net"));
    assert_ne!(base, Link::new("Click here", "https://elsewhere.net"));
    let mut classed = link();
    classed.add_class("a");
    assert_ne!(base, classed);
    let mut other_class = link();
    other_class.add_class("b");
    assert_ne!(classed, other_class);
    let mut attributed = link();
    attributed.extend_attributes(overlay(&[("id", "x")]));
    assert_ne!(base, attributed);
    let mut other_value = link();
    other_value.extend_attributes(overlay(&[("id", "y")]));
    assert_ne!(attributed, other_value);
    let mut other_key = link();
    other_key.extend_attributes(overlay(&[("rel", "x")]));
    assert_ne!(attributed, other_key);
}

#[test]
fn link_survives_being_taken_apart_and_put_together() {
    let mut link = link();
    link.add_classes(&["a".to_string(), "b".to_string()]);
    link.extend_attributes(overlay(&[("id", "x")]));

    let text = link.text().to_string();
    let url = link.url().to_string();
    let attributes = attributes_of(&link);
    let classes = classes_of(&link);

    let mut back = Link::new(&text, &url);
    let mut again = StrMap::new();
    for (k, v) in attributes.iter() {
        again.insert(k.clone(), v.clone());
    }
    back.extend_attributes(again);
    let names: Vec<String> = classes.iter().cloned().collect();
    back.add_classes(&names);

    assert_eq!(back, link);
    assert_eq!(classes_of(&back), string_set(&["a", "b"]));
    assert_eq!(attributes_of(&back), string_map(&[("id", "x")]));
}

#[test]
fn clone_links_copies_every_link_in_order() {
    let mut about = Link::new("About", "/about");
    about.add_class("wide");
    let links = vec![Link::new("Home", "/"), about];
    assert_eq!(clone_links(&links), links);
    assert_eq!(clone_links(&[]), Vec::<Link>::new());
}

#[test]
fn str_set_is_a_set() {
    let mut set = StrSet::new();
    assert!(set.is_empty());
    assert_eq!(set.len(), 0);
    assert!(set.insert("a".to_string()));
    assert!(!set.insert("a".to_string()));
    assert!(set.insert("b".to_string()));
    assert_eq!(set.len(), 2);
    assert!(set.contains("a"));
    assert!(!set.contains("c"));
    assert_eq!(set.names(), &vec!["a".to_string(), "b".to_string()]);

    let mut other = StrSet::new();
    other.insert("b".to_string());
    assert!(other.is_subset(&set));
    assert!(!set.is_subset(&other));
    assert_ne!(set, other);
    other.insert("a".to_string());
    assert_eq!(set, other);
    assert_eq!(set.clone(), set);

    let mut more = StrSet::new();
    more.insert("c".to_string());
    more.extend(&set);
    assert_eq!(more.len(), 3);
    assert!(set.is_subset(&more));
}

#[test]
fn str_map_is_a_map() {
    let mut map: StrMap<u32> = StrMap::new();
    assert!(map.is_empty());
    assert_eq!(map.insert("a".to_string(), 1), None);
    assert_eq!(map.insert("b".to_string(), 2), None);
    assert_eq!(map.insert("a".to_string(), 3), Some(1));
    assert_eq!(map.len(), 2);
    assert!(!map.is_empty());
    assert!(map.contains_key("b"));
    assert!(!map.contains_key("c"));
    assert_eq!(map.get("a"), Some(&3));
    assert_eq!(map.get("c"), None);
    if let Some(value) = map.get_mut("b") {
        *value = 20;
    }
    assert_eq!(map.get("b"), Some(&20));
    assert!(map.get_mut("c").is_none());
    assert_eq!(map.keys(), &vec!["a".to_string(), "b".to_string()]);
    assert_eq!(map.values(), &vec![3, 20]);
    let copy = map.clone();
    assert_eq!(copy.get("a"), Some(&3));
    assert_eq!(map.into_parts(), (vec!["a".to_string(), "b".to_string()], vec![3, 20]));
}

#[test]
fn string_maps_are_equal_whatever_the_order_of_arrival() {
    let one = overlay(&[("a", "1"), ("b", "2")]);
    let other = overlay(&[("b", "2"), ("a", "1")]);
    assert_eq!(one, other);
    assert_ne!(one, overlay(&[("a", "1")]));
    assert_ne!(one, overlay(&[("a", "1"), ("b", "3")]));
    assert_ne!(one, overlay(&[("a", "1"), ("c", "2")]));
}

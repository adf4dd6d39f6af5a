//! Menus that are built link by link, and may hold menus of their own.

use crate::nav::{Link, LinkView};
use vstd::prelude::*;

verus! {

/// A menu: links and submenus, in the order in which they were pushed.
#[derive(Debug, PartialEq)]
pub struct NavigationMenu {
    items: Vec<NavigationItem>,
}

/// An entry of a menu: a link, or a menu below this one.
#[derive(Debug, PartialEq)]
pub enum NavigationItem {
    Link(Link),
    SubMenu(NavigationMenu),
}

/// Whether `item` is a link with the given text and target and nothing else.
pub open spec fn is_plain_link(item: NavigationItem, text: Seq<char>, url: Seq<char>) -> bool {
    item matches NavigationItem::Link(link) && link@ == (LinkView {
        text,
        url,
        attributes: Map::empty(),
        classes: Set::empty(),
    })
}

impl NavigationMenu {
    /// The entries, in order.
    pub closed spec fn entries(&self) -> Seq<NavigationItem> {
        self.items@
    }

    /// A menu without entries.
    pub fn new() -> (menu: NavigationMenu)
        ensures
            menu.entries() == Seq::<NavigationItem>::empty(),
    {
        NavigationMenu { items: Vec::new() }
    }

    /// The entries, in order.
    pub fn items(&self) -> (items: &Vec<NavigationItem>)
        ensures
            items@ == self.entries(),
    {
        &self.items
    }

    /// Puts `item` at the end of the menu, and hands the menu back for the
    /// next push.
    pub fn push_item(&mut self, item: NavigationItem) -> (menu: &mut NavigationMenu)
        ensures
            menu.entries() == old(self).entries().push(item),
            *final(self) == *final(menu),
    {
        self.items.push(item);
        self
    }

    /// Puts `link` at the end of the menu.
    pub fn push_link(&mut self, link: Link) -> (menu: &mut NavigationMenu)
        ensures
            menu.entries() == old(self).entries().push(NavigationItem::Link(link)),
            *final(self) == *final(menu),
    {
        self.items.push(NavigationItem::Link(link));
        self
    }

    /// Puts a link with the given text and target at the end of the menu.
    pub fn push_link_to(&mut self, text: &str, url: &str) -> (menu: &mut NavigationMenu)
        ensures
            menu.entries().len() == old(self).entries().len() + 1,
            menu.entries().drop_last() == old(self).entries(),
            is_plain_link(menu.entries().last(), text@, url@),
            *final(self) == *final(menu),
    {
        self.items.push(NavigationItem::Link(Link::new(text, url)));
        self
    }

    /// Puts `submenu` at the end of the menu, as a menu below this one.
    pub fn push_submenu(&mut self, submenu: NavigationMenu) -> (menu: &mut NavigationMenu)
        ensures
            menu.entries() == old(self).entries().push(NavigationItem::SubMenu(submenu)),
            *final(self) == *final(menu),
    {
        self.items.push(NavigationItem::SubMenu(submenu));
        self
    }
}

} // verus!

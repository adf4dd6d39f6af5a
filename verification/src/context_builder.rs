//! The builder of the context of one page, and the context that it builds.

use crate::alert::{flash_alert, lookup_flash_message, Alert, AlertView, Flash};
use crate::meta::{menus_view, Metadata};
use crate::nav::{finalized_menu, links_view, untouched, Link, LinkView, MenuBuilder, MenuBuilderView};
use crate::str_map::{entries_of, lemma_index_of, StrMap};
use crate::text::{distinct, lemma_names_push, names_of};
use core::marker::PhantomData;
use vstd::prelude::*;

verus! {

/// Each overlay as what it holds.
pub open spec fn overlays_view(builders: Map<Seq<char>, MenuBuilder>) -> Map<
    Seq<char>,
    MenuBuilderView,
> {
    builders.map_values(|builder: MenuBuilder| builder@)
}

/// The overlay that a menu name starts with: an untouched one over the menu
/// that the site declares under that name, or over no link at all where the
/// site declares none.
pub open spec fn seed(declared: Map<Seq<char>, Seq<LinkView>>, name: Seq<char>) -> MenuBuilderView {
    untouched(
        if declared.contains_key(name) {
            declared[name]
        } else {
            Seq::empty()
        },
    )
}

/// The overlay of `name`: the one that was asked for, else the one that the
/// name starts with.
pub open spec fn overlay_at(
    declared: Map<Seq<char>, Seq<LinkView>>,
    overlays: Map<Seq<char>, MenuBuilderView>,
    name: Seq<char>,
) -> MenuBuilderView {
    if overlays.contains_key(name) {
        overlays[name]
    } else {
        seed(declared, name)
    }
}

/// The overlays with one for every declared menu that none was asked for.
pub open spec fn with_declared(
    declared: Map<Seq<char>, Seq<LinkView>>,
    overlays: Map<Seq<char>, MenuBuilderView>,
) -> Map<Seq<char>, MenuBuilderView> {
    Map::new(
        |name: Seq<char>| declared.contains_key(name) || overlays.contains_key(name),
        |name: Seq<char>| overlay_at(declared, overlays, name),
    )
}

/// The menus of a page: one for every menu that the site declares and for
/// every name that an overlay was asked for, each as its overlay leaves it.
pub open spec fn final_menus(
    declared: Map<Seq<char>, Seq<LinkView>>,
    overlays: Map<Seq<char>, MenuBuilderView>,
) -> Map<Seq<char>, Seq<LinkView>> {
    with_declared(declared, overlays).map_values(
        |overlay: MenuBuilderView| finalized_menu(overlay),
    )
}

/// Whether every overlay still holds the links that its name started with.
pub open spec fn seeds_kept(
    declared: Map<Seq<char>, Seq<LinkView>>,
    overlays: Map<Seq<char>, MenuBuilderView>,
) -> bool {
    forall|name: Seq<char>| #[trigger]
        overlays.contains_key(name) ==> overlays[name].menu == seed(declared, name).menu
}

/// The menus of a page are those that the site declares and those that an
/// overlay was asked for, and no other.
pub proof fn lemma_final_menu_names(
    declared: Map<Seq<char>, Seq<LinkView>>,
    overlays: Map<Seq<char>, MenuBuilderView>,
)
    ensures
        final_menus(declared, overlays).dom() == declared.dom().union(overlays.dom()),
{
}

/// Every menu that the site declares is among the menus of a page, with as
/// many links as the site declares for it. This holds where every overlay
/// still holds the links that it started with; an overlay that was replaced
/// through its handle by one over other links decides the menu itself.
pub proof fn lemma_menu_completeness(
    declared: Map<Seq<char>, Seq<LinkView>>,
    overlays: Map<Seq<char>, MenuBuilderView>,
    name: Seq<char>,
)
    requires
        seeds_kept(declared, overlays),
        declared.contains_key(name),
    ensures
        final_menus(declared, overlays).contains_key(name),
        final_menus(declared, overlays)[name].len() == declared[name].len(),
{
}

/// A name that the site declares no menu for, and whose overlay still holds
/// the links that it started with, has a menu without links.
pub proof fn lemma_undeclared_is_empty(
    declared: Map<Seq<char>, Seq<LinkView>>,
    overlays: Map<Seq<char>, MenuBuilderView>,
    name: Seq<char>,
)
    requires
        !declared.contains_key(name),
        overlays.contains_key(name),
        overlays[name].menu == seed(declared, name).menu,
    ensures
        final_menus(declared, overlays).contains_key(name),
        final_menus(declared, overlays)[name] == Seq::<LinkView>::empty(),
{
}

/// What a finished context is.
pub struct TemplateContextView<T> {
    pub meta: Metadata,
    pub menus: Map<Seq<char>, Seq<LinkView>>,
    pub data: T,
    pub alert: Option<AlertView>,
}

/// The alert that an optional alert is.
pub open spec fn alert_view(alert: Option<Alert>) -> Option<AlertView> {
    match alert {
        Some(alert) => Some(alert@),
        None => None,
    }
}

/// The context of one page, as a renderer takes it. Nothing changes it.
#[derive(Debug)]
pub struct TemplateContext<'s, T> {
    meta: &'s Metadata,
    menus: StrMap<Vec<Link>>,
    data: T,
    alert: Option<Alert>,
}

impl<'s, T> View for TemplateContext<'s, T> {
    type V = TemplateContextView<T>;

    closed spec fn view(&self) -> TemplateContextView<T> {
        TemplateContextView {
            meta: *self.meta,
            menus: menus_view(self.menus@),
            data: self.data,
            alert: alert_view(self.alert),
        }
    }
}

impl<'s, T> TemplateContext<'s, T> {
    /// The context that holds what is given.
    pub fn assemble(
        meta: &'s Metadata,
        menus: StrMap<Vec<Link>>,
        data: T,
        alert: Option<Alert>,
    ) -> (context: TemplateContext<'s, T>)
        ensures
            context@ == (TemplateContextView {
                meta: *meta,
                menus: menus_view(menus@),
                data,
                alert: alert_view(alert),
            }),
    {
        TemplateContext { meta, menus, data, alert }
    }

    /// The metadata of the site.
    pub fn meta(&self) -> (meta: &'s Metadata)
        ensures
            *meta == self@.meta,
    {
        self.meta
    }

    /// The menus of the page, by name.
    pub fn menus(&self) -> (menus: &StrMap<Vec<Link>>)
        ensures
            menus_view(menus@) == self@.menus,
    {
        &self.menus
    }

    /// The data of the page.
    pub fn data(&self) -> (data: &T)
        ensures
            *data == self@.data,
    {
        &self.data
    }

    /// The alert of the page, if it has one.
    pub fn alert(&self) -> (alert: Option<&Alert>)
        ensures
            match alert {
                Some(alert) => self@.alert == Some(alert@),
                None => self@.alert is None,
            },
    {
        self.alert.as_ref()
    }
}

/// The menu that each overlay leaves, under the name of the overlay and in
/// the order of the overlays.
pub fn finalize_overlays(builders: StrMap<MenuBuilder>) -> (menus: StrMap<Vec<Link>>)
    ensures
        menus_view(menus@) == overlays_view(builders@).map_values(
            |overlay: MenuBuilderView| finalized_menu(overlay),
        ),
        menus.key_seq() == builders.key_seq(),
{
    let ghost target = overlays_view(builders@).map_values(
        |overlay: MenuBuilderView| finalized_menu(overlay),
    );
    let (names, overlays) = builders.into_parts();
    let ghost all = overlays@;
    let mut menus: StrMap<Vec<Link>> = StrMap::new();
    let count = names.len();
    let mut i: usize = 0;
    for overlay in it: overlays.into_iter()
        invariant
            it.seq() == all,
            i == it.index(),
            names@.len() == count,
            names@.len() == all.len(),
            distinct(names@),
            entries_of(names@, all) == builders@,
            target == overlays_view(builders@).map_values(
                |overlay: MenuBuilderView| finalized_menu(overlay),
            ),
            menus.key_seq() == names@.take(i as int),
            menus@.dom() == names_of(names@.take(i as int)),
            forall|name: Seq<char>| #[trigger]
                menus@.contains_key(name) ==> links_view(menus@[name]@) == target[name],
    {
        proof {
            lemma_index_of(names@, i as int);
            lemma_names_push(names@.take(i as int), names@[i as int]);
            assert(names@.take(i + 1) =~= names@.take(i as int).push(names@[i as int]));
            assert(!names_of(names@.take(i as int)).contains(names@[i as int]@)) by {
                if names_of(names@.take(i as int)).contains(names@[i as int]@) {
                    let j = choose|j: int|
                        0 <= j < i && names@.take(i as int)[j]@ == names@[i as int]@;
                    assert(names@[j]@ == names@[i as int]@);
                }
            }
        }
        menus.insert(names[i].clone(), overlay.finalize());
        i += 1;
    }
    proof {
        assert(names@.take(i as int) =~= names@);
    }
    menus
}

/// Gives every declared menu that has no overlay yet the overlay that its
/// name starts with.
pub fn add_all_menu_builders(meta: &Metadata, builders: &mut StrMap<MenuBuilder>)
    ensures
        overlays_view(final(builders)@) == with_declared(meta@.menus, overlays_view(old(builders)@)),
{
    let declared = meta.menus();
    let names = declared.keys();
    let menus = declared.values();
    let ghost before = overlays_view(builders@);
    let mut i: usize = 0;
    proof {
        assert forall|j: int| 0 <= j < names@.len() implies declared@.contains_key(
            #[trigger] names@[j]@,
        ) by {
            lemma_index_of(names@, j);
        }
    }
    while i < names.len()
        invariant
            i <= names@.len(),
            names@ == declared.key_seq(),
            menus@ == declared.value_seq(),
            names@.len() == menus@.len(),
            distinct(names@),
            names_of(names@) == declared@.dom(),
            menus_view(declared@) == meta@.menus,
            before == overlays_view(old(builders)@),
            forall|j: int|
                0 <= j < menus@.len() ==> declared@[#[trigger] declared.key_seq()[j]@] == menus@[j],
            forall|j: int| 0 <= j < names@.len() ==> declared@.contains_key(#[trigger] names@[j]@),
            builders@.dom() == before.dom().union(names_of(names@.take(i as int))),
            forall|name: Seq<char>| #[trigger]
                builders@.contains_key(name) ==> builders@[name]@ == overlay_at(
                    meta@.menus,
                    before,
                    name,
                ),
        decreases names@.len() - i,
    {
        if !builders.contains_key(names[i].as_str()) {
            let builder = MenuBuilder::new(menus[i].as_slice());
            builders.insert(names[i].clone(), builder);
        }
        proof {
            assert(names@.take(i + 1) =~= names@.take(i as int).push(names@[i as int]));
            lemma_names_push(names@.take(i as int), names@[i as int]);
        }
        i += 1;
    }
    proof {
        assert(names@.take(i as int) =~= names@);
    }
}

/// The overlay of the menu `key` among `builders`, to be changed in place.
/// Where there is none yet, one is made first: over the menu that `meta`
/// declares under that name, or over no link where it declares none.
pub fn overlay_for<'a>(meta: &Metadata, builders: &'a mut StrMap<MenuBuilder>, key: &str) -> (overlay:
    &'a mut MenuBuilder)
    ensures
        overlay@ == overlay_at(meta@.menus, overlays_view(old(builders)@), key@),
        overlays_view(final(builders)@) == overlays_view(old(builders)@).insert(
            key@,
            final(overlay)@,
        ),
{
    if !builders.contains_key(key) {
        let builder = match meta.menus().get(key) {
            Some(menu) => MenuBuilder::new(menu.as_slice()),
            None => {
                let none: Vec<Link> = Vec::new();
                assert(links_view(none@) =~= Seq::empty());
                MenuBuilder::new(none.as_slice())
            },
        };
        builders.insert(key.to_owned(), builder);
    }
    let ghost held = builders@;
    let overlay = builders.get_mut(key).unwrap();
    proof {
        assert(overlays_view(held.insert(key@, *final(overlay))) =~= overlays_view(
            old(builders)@,
        ).insert(key@, final(overlay)@));
    }
    overlay
}

/// What a builder holds: the overlays that were asked for, by name, and the
/// alert, if one was attached.
pub struct ContextBuilderView {
    pub overlays: Map<Seq<char>, MenuBuilderView>,
    pub alert: Option<AlertView>,
}

/// The builder of the context of one page. It is made for one request, reads
/// the metadata of the site without changing it, and ends in one context.
pub struct ContextBuilder<'s, T> {
    meta: &'s Metadata,
    menu_builders: StrMap<MenuBuilder>,
    data: PhantomData<T>,
    alert: Option<Alert>,
}

impl<'s, T> View for ContextBuilder<'s, T> {
    type V = ContextBuilderView;

    closed spec fn view(&self) -> ContextBuilderView {
        ContextBuilderView {
            overlays: overlays_view(self.menu_builders@),
            alert: alert_view(self.alert),
        }
    }
}

impl<'s, T> ContextBuilder<'s, T> {
    /// The metadata that the builder reads.
    pub closed spec fn metadata(&self) -> Metadata {
        *self.meta
    }

    /// A builder over `meta`, with no overlay and no alert.
    pub fn new(meta: &'s Metadata) -> (builder: ContextBuilder<'s, T>)
        ensures
            builder.metadata() == *meta,
            builder@ == (ContextBuilderView { overlays: Map::empty(), alert: None }),
    {
        let builder = ContextBuilder {
            meta,
            menu_builders: StrMap::new(),
            data: PhantomData,
            alert: None,
        };
        assert(overlays_view(builder.menu_builders@) =~= Map::empty());
        builder
    }

    /// A builder over `meta` that carries the alert of a flash message, if
    /// the request came with one.
    pub fn with_flash(meta: &'s Metadata, flash: Option<Flash>) -> (builder: ContextBuilder<'s, T>)
        ensures
            builder.metadata() == *meta,
            builder@ == (ContextBuilderView {
                overlays: Map::empty(),
                alert: match flash {
                    Some(flash) => Some(flash_alert(flash@)),
                    None => None,
                },
            }),
    {
        let mut builder = ContextBuilder::new(meta);
        builder.set_flash(flash);
        builder
    }

    /// The overlay of the menu `key`, to be changed in place. The first call
    /// for a name makes the overlay, over the menu that the site declares
    /// under that name or over no link where it declares none; every later
    /// call gives the same overlay, with what was done to it.
    pub fn menu_builder(&mut self, key: &str) -> (overlay: &mut MenuBuilder)
        ensures
            overlay@ == overlay_at(old(self).metadata()@.menus, old(self)@.overlays, key@),
            final(self)@ == (ContextBuilderView {
                overlays: old(self)@.overlays.insert(key@, final(overlay)@),
                ..old(self)@
            }),
            final(self).metadata() == old(self).metadata(),
    {
        overlay_for(self.meta, &mut self.menu_builders, key)
    }

    /// Attaches an alert. A builder carries one alert at most: the alert that
    /// was attached before, if there was one, is gone.
    pub fn add_alert(&mut self, alert: Alert)
        ensures
            final(self)@ == (ContextBuilderView { alert: Some(alert@), ..old(self)@ }),
            final(self).metadata() == old(self).metadata(),
    {
        self.alert = Some(alert);
    }

    /// Attaches the alert of a flash message, if there is one. Without a
    /// flash message the builder stays as it is.
    pub fn set_flash(&mut self, flash: Option<Flash>)
        ensures
            final(self)@ == (ContextBuilderView {
                alert: match flash {
                    Some(flash) => Some(flash_alert(flash@)),
                    None => old(self)@.alert,
                },
                ..old(self)@
            }),
            final(self).metadata() == old(self).metadata(),
    {
        if let Some(flash) = flash {
            self.add_alert(lookup_flash_message(flash));
        }
    }

    /// Ends the building: the context of the page, with `data` as its data.
    /// Every menu that the site declares is in it, overlaid or not, and so is
    /// every other name that an overlay was asked for. A declared menu has as
    /// many links as the site declares for it, unless its overlay was replaced
    /// through its handle by one over other links.
    pub fn finalize_with_data(self, data: T) -> (context: TemplateContext<'s, T>)
        ensures
            context@ == (TemplateContextView {
                meta: self.metadata(),
                menus: final_menus(self.metadata()@.menus, self@.overlays),
                data,
                alert: self@.alert,
            }),
            forall|name: Seq<char>| #[trigger]
                self.metadata()@.menus.contains_key(name) ==> context@.menus.contains_key(name),
            seeds_kept(self.metadata()@.menus, self@.overlays) ==> forall|name: Seq<char>| #[trigger]
                self.metadata()@.menus.contains_key(name) ==> context@.menus[name].len()
                    == self.metadata()@.menus[name].len(),
    {
        let ContextBuilder { meta, menu_builders, data: _, alert } = self;
        let mut menu_builders = menu_builders;
        add_all_menu_builders(meta, &mut menu_builders);
        let menus = finalize_overlays(menu_builders);
        TemplateContext { meta, menus, data, alert }
    }
}

impl<'s, T: Default> ContextBuilder<'s, T> {
    /// Ends the building with the default value of the data's type as the
    /// data of the page.
    pub fn finalize_with_default(self) -> (context: TemplateContext<'s, T>)
        ensures
            context@.meta == self.metadata(),
            context@.menus == final_menus(self.metadata()@.menus, self@.overlays),
            context@.alert == self@.alert,
            call_ensures(T::default, (), context@.data),
            forall|name: Seq<char>| #[trigger]
                self.metadata()@.menus.contains_key(name) ==> context@.menus.contains_key(name),
    {
        self.finalize_with_data(T::default())
    }
}

} // verus!

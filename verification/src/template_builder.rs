//! A builder of contexts that takes the data of the page while it builds,
//! and cannot end without it.

use crate::alert::AlertView;
use crate::context_builder::{
    add_all_menu_builders, final_menus, finalize_overlays, overlay_at, overlay_for, overlays_view,
    TemplateContext, TemplateContextView,
};
use crate::meta::Metadata;
use crate::nav::{MenuBuilder, MenuBuilderView};
use crate::str_map::StrMap;
use vstd::prelude::*;

verus! {

/// The builder was asked for its context before it was given the data.
#[derive(Clone, Copy, Debug, PartialEq, Eq)]
pub struct DataFieldRequiredError;

/// What a builder holds: the overlays that were asked for, by name, and the
/// data of the page, once it was set.
pub struct TemplateBuilderView<T> {
    pub overlays: Map<Seq<char>, MenuBuilderView>,
    pub data: Option<T>,
}

/// A builder of the context of one page that is handed the data of the page
/// by `set_data`.
pub struct TemplateBuilder<'s, T> {
    meta: &'s Metadata,
    menus: StrMap<MenuBuilder>,
    data: Option<T>,
}

impl<'s, T> View for TemplateBuilder<'s, T> {
    type V = TemplateBuilderView<T>;

    closed spec fn view(&self) -> TemplateBuilderView<T> {
        TemplateBuilderView { overlays: overlays_view(self.menus@), data: self.data }
    }
}

impl<'s, T> TemplateBuilder<'s, T> {
    /// The metadata that the builder reads.
    pub closed spec fn metadata(&self) -> Metadata {
        *self.meta
    }

    /// A builder over `meta`, with no overlay and no data.
    pub fn new(meta: &'s Metadata) -> (builder: TemplateBuilder<'s, T>)
        ensures
            builder.metadata() == *meta,
            builder@ == (TemplateBuilderView::<T> { overlays: Map::empty(), data: None }),
    {
        let builder = TemplateBuilder { meta, menus: StrMap::new(), data: None };
        assert(overlays_view(builder.menus@) =~= Map::empty());
        builder
    }

    /// The overlay of the menu `key`, to be changed in place; made at the
    /// first call for that name.
    pub fn menu_builder(&mut self, key: &str) -> (overlay: &mut MenuBuilder)
        ensures
            overlay@ == overlay_at(old(self).metadata()@.menus, old(self)@.overlays, key@),
            final(self)@ == (TemplateBuilderView {
                overlays: old(self)@.overlays.insert(key@, final(overlay)@),
                ..old(self)@
            }),
            final(self).metadata() == old(self).metadata(),
    {
        overlay_for(self.meta, &mut self.menus, key)
    }

    /// Sets the data of the page. The last call decides.
    pub fn set_data(&mut self, data: T)
        ensures
            final(self)@ == (TemplateBuilderView { data: Some(data), ..old(self)@ }),
            final(self).metadata() == old(self).metadata(),
    {
        self.data = Some(data);
    }

    /// Ends the building: the context of the page, if the data was set, and
    /// an error if it was not. The context carries no alert.
    pub fn into_context(self) -> (built: Result<TemplateContext<'s, T>, DataFieldRequiredError>)
        ensures
            match built {
                Ok(context) => self@.data is Some && context@ == (TemplateContextView {
                    meta: self.metadata(),
                    menus: final_menus(self.metadata()@.menus, self@.overlays),
                    data: self@.data->0,
                    alert: None::<AlertView>,
                }),
                Err(_) => self@.data is None,
            },
    {
        let TemplateBuilder { meta, menus, data } = self;
        let mut menus = menus;
        add_all_menu_builders(meta, &mut menus);
        let menus = finalize_overlays(menus);
        match data {
            Some(data) => Ok(TemplateContext::assemble(meta, menus, data, None)),
            None => Err(DataFieldRequiredError),
        }
    }
}

} // verus!

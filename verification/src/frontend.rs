//! What the pages of the public side of the site share.

use crate::context_builder::{overlay_at, ContextBuilder, ContextBuilderView};
use crate::nav::MenuBuilderView;
use vstd::prelude::*;

verus! {

/// The name of the menu that every page of the public side shows.
pub open spec fn main_menu() -> Seq<char> {
    seq!['m', 'a', 'i', 'n']
}

/// `overlay` with `url` as the url of the page that is shown, if one is given.
pub open spec fn with_active(overlay: MenuBuilderView, url: Option<Seq<char>>) -> MenuBuilderView {
    match url {
        Some(url) => MenuBuilderView { active: Some(url), ..overlay },
        None => overlay,
    }
}

/// Prepares a builder for a page of the public side: the main menu gets its
/// overlay, and the overlay is told the url of the page, if it has one.
pub fn prepare_context_builder<T>(current_url: Option<&str>, context_builder: &mut ContextBuilder<T>)
    ensures
        final(context_builder).metadata() == old(context_builder).metadata(),
        final(context_builder)@ == (ContextBuilderView {
            overlays: old(context_builder)@.overlays.insert(
                main_menu(),
                with_active(
                    overlay_at(
                        old(context_builder).metadata()@.menus,
                        old(context_builder)@.overlays,
                        main_menu(),
                    ),
                    match current_url {
                        Some(url) => Some(url@),
                        None => None,
                    },
                ),
            ),
            ..old(context_builder)@
        }),
{
    proof {
        reveal_strlit("main");
        assert("main"@ =~= main_menu());
    }
    let menu_builder = context_builder.menu_builder("main");
    if let Some(url) = current_url {
        menu_builder.set_active(url);
    }
}

} // verus!

//! Assembly of the per-request template context of a small site: shared site
//! metadata, navigation menus overlaid per request, an optional alert and the
//! page's own data are combined into one value that a renderer can take.

pub mod alert;
pub mod context_builder;
pub mod frontend;
pub mod meta;
pub mod nav;
pub mod navigation;
pub mod posts;
pub mod request;
pub mod str_map;
pub mod str_set;
pub mod template_builder;
pub mod text;

//! A small page that fetches a list of port-forward rules from a data
//! provider and renders one of four views: a loading placeholder while the
//! provider is pending, an error message on a fault, a fixed message when the
//! list is empty, and one formatted line per rule otherwise.
//!
//! This crate holds the data model, the provider's result, and the whole
//! fetch/render lifecycle, each with a contract that pins the rendered text
//! down exactly. The surrounding web framework (routing, markup, the actual
//! asynchronous delay) lives outside the library and hands values in and out.

pub mod format;
pub mod page;
pub mod things;

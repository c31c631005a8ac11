//! What crosses the border between the library and an engine written in another language.

pub mod builders;
pub mod iter;
pub mod kernel_visitor;
pub mod laws;
pub mod null_type_tag;
pub mod reference_set;
pub mod slices;
pub mod visit;
pub mod visitor_laws;

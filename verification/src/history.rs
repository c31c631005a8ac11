//! From timestamps to versions: searching sorted commits, and the errors of such searches.

pub mod error;
pub mod laws;
pub mod search;

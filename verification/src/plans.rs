//! Declarative plans: what they are, how they are built, and how they are carried out.

pub mod builder;
pub mod executor;
pub mod laws;
pub mod nodes;
pub mod plan;
pub mod result;

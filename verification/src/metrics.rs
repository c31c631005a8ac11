//! Metric events: what an operation did, how it ended and how long it took.

pub mod attr_laws;
pub mod attrs;
pub mod event_text_laws;
pub mod events;
pub mod id;
pub mod laws;
pub mod opening_laws;
pub mod read;
pub mod read_laws;
pub mod recording_laws;

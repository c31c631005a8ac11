//! Core logic of a Delta table kernel.

pub mod actions;
pub mod columns;
pub mod crc;
pub mod crc_accumulator_laws;
pub mod crc_composition;
pub mod crc_content_laws;
pub mod crc_laws;
pub mod crc_replay;
pub mod crc_replay_laws;
pub mod crc_success_laws;
pub mod crc_trust;
pub mod deduplicator;
pub mod deduplicator_laws;
pub mod engine;
pub mod error;
pub mod expressions;
pub mod ffi;
pub mod history;
pub mod location;
pub mod log_segment;
pub mod log_segment_laws;
pub mod metrics;
pub mod plans;
pub mod replay_row_laws;
pub mod replay_rows;
pub mod replay_schema;
pub mod scalars;
pub mod schema;
pub mod string_map;
pub mod string_map_laws;
pub mod struct_patch;
pub mod struct_patch_conflicts;
pub mod struct_patch_laws;
pub mod struct_patch_order;
pub mod struct_patch_output;
pub mod struct_patch_records;
pub mod test_support;
pub mod text;
pub mod text_laws;
pub mod unity_catalog;
pub mod value_laws;
pub mod view_laws;

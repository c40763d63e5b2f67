//! Vortex read path: literal translation for filter push-down, dtype → Arrow schema translation,
//! file statistics, scan options and the shape check of decoded record batches.
pub mod array_bridge;
pub mod file_stats;
pub mod options;
pub mod predicate;
pub mod schema;

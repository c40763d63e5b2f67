//! Predicate push-down: Polars expression trees → Vortex filter expressions.
pub mod vortex_convertor;

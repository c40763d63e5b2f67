//! Verified core of the Polars ↔ Vortex integration: predicate push-down planning, scalar and
//! dtype translation, file statistics, scan/write option handling and the segment-cache session.
pub mod pl_dtype;
pub mod pl_scalar;
pub mod vx_model;
pub mod vx_emit;
pub mod aexpr;
pub mod arrow_model;
pub mod read;
pub mod session;
pub mod slice;
pub mod scan;
pub mod stream;
pub mod text;
pub mod write;
pub mod predicates;

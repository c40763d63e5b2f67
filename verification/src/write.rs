//! Vortex write path: write options, the write strategy they select, and the chunk layout check
//! that precedes turning a frame into a stream of Vortex arrays.
pub mod df_to_stream;
pub mod options;
pub mod strategy;

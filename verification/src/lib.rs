//! A two-pass rendering pipeline, described as plain data: the logical render
//! channels, the per-channel targets of a set of render parameters, and the
//! single draw that composites them.

pub mod channel;
pub mod compositor;
pub mod shader;
pub mod target;

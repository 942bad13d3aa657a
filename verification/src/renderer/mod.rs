//! Emission of kernel source text from micro-ops.

pub mod cstyle;

//! Lowering of an operation graph into a flat sequence of micro-ops.

pub mod linearizer;

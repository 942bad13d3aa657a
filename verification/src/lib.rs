//! The hardware-execution core of a tensor-computation framework: element
//! types, device buffers and the in-order command queue of an accelerator
//! backend, together with the code generator that turns an operation graph
//! into kernel source text.
//!
//! Nothing here talks to a driver. A device records the commands it has been
//! asked to run, in submission order; an adapter outside this library performs
//! them on the native queue and reports how each one ended.

pub mod codegen;
pub mod comprehension;
pub mod device;
pub mod dtype;
pub mod ops;
pub mod renderer;
pub mod text;

//! Build-time analysis for the `FromZeros` capability: given a structural
//! description of a type definition, decide whether the all-zero byte
//! pattern is a valid value of that type and, if so, assemble the single
//! artifact that implements the capability for it.

pub mod classify;
pub mod compose;
pub mod descriptor;
pub mod emit;
pub mod engine;
pub mod laws;
pub mod resolve;
pub mod zero;

pub use crate::engine::from_zeros_derive;
pub use crate::zero::zeroed;
pub use crate::zero::FromZeros;

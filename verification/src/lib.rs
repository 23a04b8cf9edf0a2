//! A scalar reverse-mode automatic-differentiation engine.
//!
//! An expression graph is built from primitive arithmetic and activation
//! operations over single floating-point scalars; the backward walk then
//! computes the gradient of a chosen root with respect to every node that
//! contributed to it.
//!
//! Throughout the library a scalar is carried as the bit pattern of an
//! IEEE-754 binary64 value, held in a `u64`.  The arithmetic rests on
//! trusted wrappers in [`scalar`], which pin each result exactly except
//! for the payload of a NaN; a verified normalizer then collapses every
//! NaN to one quiet-NaN pattern, so everything above the wrappers is
//! verified against exact equations.

pub mod backprop;
pub mod laws;
pub mod node;
pub mod render;
pub mod scalar;

pub use backprop::propagate;
pub use node::{OpKind, Value};
pub use render::{generate_chart, generate_chart_for_vec, indent};

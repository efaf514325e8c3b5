//! Small linear-algebra primitives: 2D/3D/4D vectors, 4x4 matrices, and
//! scalar helpers, over exact 64-bit integer coordinates.
//!
//! The heart of the crate is the pair of 4x4 multiplication kernels and the
//! 4-wide dot-product kernels in [`matrix`] and [`vector`]: a scalar
//! reference kernel (the ground truth) and vector-unit-shaped kernels that
//! accumulate in the order a 4-wide vector unit would. Every kernel carries a
//! contract pinning its result to a mathematical model, and the crate proves
//! the kernel-agreement, identity, zero-absorption and associativity laws of
//! the product. Over exact arithmetic the differing accumulation orders agree
//! exactly, so the agreement laws here need no tolerance.

pub mod arch;
pub mod math;
pub mod matrix;
pub mod vector;

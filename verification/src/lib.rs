//! Ordinary-least-squares linear regression by singular value decomposition.
//!
//! The crate models every floating-point number by its IEEE 754 bit pattern
//! (a `u64`), so that all structural logic -- shape checking, bias-column
//! augmentation, the near-zero singular-value policy, and the assembly of the
//! coefficient vector -- is verified exactly, while the arithmetic itself is
//! delegated to trusted primitives whose results are named but not modelled.
//!
//! The trusted primitives rebuild doubles from their bit patterns through
//! `safe_arch`'s SSE2 casts, so the crate targets x86-64.

pub mod fbits;
pub mod matrix;
pub mod solver;


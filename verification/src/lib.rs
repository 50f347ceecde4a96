//! Pixel accumulation core for separable image resampling.
//!
//! Every output pixel of a resize is a weighted sum of input pixels along two
//! axes. This crate defines the per-sample arithmetic of that summation: an
//! accumulator is created at the additive identity, weighted input samples are
//! folded into it along the first axis, weighted partial accumulators are
//! folded along the second axis, and the result is finalized back into an
//! output sample encoding.
//!
//! All accumulation happens in an exact fixed-point internal representation
//! ([`fx::Fx`]), so the arithmetic, the round-half-up narrowing policy and the
//! premultiplied-alpha handling are fully specified and proved. Out-of-range
//! sums saturate, and narrowing clamps to the output representation's range:
//! a caller whose weights do not sum to one gets clipped results, never a
//! fault.

pub mod convert;
pub mod formats;
pub mod fx;
pub mod laws;
pub mod px;

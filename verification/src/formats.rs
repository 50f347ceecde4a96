//! Marker types that select a pixel layout and a sample precision pairing.
//!
//! A resize is configured by picking one of these zero-sized formats; the
//! accumulation arithmetic for each lives in its [`crate::px::PixelFormat`]
//! implementation. `Out` is the representation of the destination samples,
//! `In` the representation of the source samples.

use core::marker::PhantomData;
use vstd::prelude::*;

verus! {

/// Plain color: red, green and blue, no alpha channel.
pub struct Rgb<Out, In> {
    marker: PhantomData<(Out, In)>,
}

/// Color with an independently accumulated alpha channel.
pub struct Rgba<Out, In> {
    marker: PhantomData<(Out, In)>,
}

/// Color with alpha, premultiplied during accumulation: color channels are
/// weighted by coverage, and finalization divides the coverage back out.
pub struct RgbaPremultiply<Out, In> {
    marker: PhantomData<(Out, In)>,
}

/// A single luma channel.
pub struct Gray<Out, In> {
    marker: PhantomData<(Out, In)>,
}

impl<Out, In> Rgb<Out, In> {
    /// Selects the plain color format.
    pub fn format() -> (r: Self) {
        Rgb { marker: PhantomData }
    }
}

impl<Out, In> Rgba<Out, In> {
    /// Selects the color-with-alpha format.
    pub fn format() -> (r: Self) {
        Rgba { marker: PhantomData }
    }
}

impl<Out, In> RgbaPremultiply<Out, In> {
    /// Selects the premultiplied color-with-alpha format.
    pub fn format() -> (r: Self) {
        RgbaPremultiply { marker: PhantomData }
    }
}

impl<Out, In> Gray<Out, In> {
    /// Selects the grayscale format.
    pub fn format() -> (r: Self) {
        Gray { marker: PhantomData }
    }
}

} // verus!

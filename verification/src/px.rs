//! Pixel values and the accumulation contract.
//!
//! [`PixelFormat`] is the four-operation contract of the core: create an
//! accumulator at the additive identity, fold weighted input samples into it
//! along the first axis, fold weighted partial accumulators along the second
//! axis, and finalize into an output sample. Each format marker from
//! [`crate::formats`] implements it, and the exact result of every operation
//! is fixed by the `spec_` functions of the implementation.

use crate::convert::ToFx;
use crate::formats;
use crate::fx::{fadd, fdiv, fmul, fx, Fx};
use vstd::prelude::*;

verus! {

/// A three-channel color sample.
#[derive(Clone, Copy, PartialEq, Eq, Structural, Debug)]
pub struct Rgb<T> {
    pub r: T,
    pub g: T,
    pub b: T,
}

/// A color sample with an alpha channel.
#[derive(Clone, Copy, PartialEq, Eq, Structural, Debug)]
pub struct Rgba<T> {
    pub r: T,
    pub g: T,
    pub b: T,
    pub a: T,
}

/// A single-channel grayscale sample.
#[derive(Clone, Copy, PartialEq, Eq, Structural, Debug)]
pub struct Gray<T> {
    pub v: T,
}

/// The weighted-summation contract of one pixel layout and precision pairing.
///
/// The intended call order for one output sample is: [`PixelFormat::new`],
/// then any number of first-axis [`PixelFormat::add`] folds, then any number
/// of second-axis [`PixelFormat::add_acc`] folds, then one
/// [`PixelFormat::into_pixel`].
pub trait PixelFormat {
    /// Sample type read from the source image.
    type InputPixel;

    /// Sample type written to the destination image.
    type OutputPixel;

    /// The running weighted sum, held in internal precision.
    type Accumulator;

    /// What [`PixelFormat::new`] returns.
    spec fn spec_new() -> Self::Accumulator;

    /// What [`PixelFormat::add`] leaves in the accumulator.
    spec fn spec_add(acc: Self::Accumulator, inp: Self::InputPixel, coeff: Fx) -> Self::Accumulator;

    /// What [`PixelFormat::add_acc`] leaves in the accumulator.
    spec fn spec_add_acc(
        acc: Self::Accumulator,
        inp: Self::Accumulator,
        coeff: Fx,
    ) -> Self::Accumulator;

    /// What [`PixelFormat::into_pixel`] returns.
    spec fn spec_into_pixel(acc: Self::Accumulator) -> Self::OutputPixel;

    /// Creates a fresh accumulator with every channel at zero.
    fn new() -> (r: Self::Accumulator)
        ensures
            r == Self::spec_new(),
    ;

    /// Folds one weighted input sample into the accumulator (first axis).
    fn add(&self, acc: &mut Self::Accumulator, inp: Self::InputPixel, coeff: Fx)
        ensures
            *final(acc) == Self::spec_add(*old(acc), inp, coeff),
    ;

    /// Folds one weighted partial accumulator into another (second axis).
    fn add_acc(acc: &mut Self::Accumulator, inp: Self::Accumulator, coeff: Fx)
        ensures
            *final(acc) == Self::spec_add_acc(*old(acc), inp, coeff),
    ;

    /// Finalizes the accumulator into an output sample.
    fn into_pixel(&self, acc: Self::Accumulator) -> (r: Self::OutputPixel)
        ensures
            r == Self::spec_into_pixel(acc),
    ;
}

impl<Out: ToFx, In: ToFx> PixelFormat for formats::Rgb<Out, In> {
    type InputPixel = Rgb<In>;

    type OutputPixel = Rgb<Out>;

    type Accumulator = Rgb<Fx>;

    open spec fn spec_new() -> Rgb<Fx> {
        Rgb { r: fx(0), g: fx(0), b: fx(0) }
    }

    open spec fn spec_add(acc: Rgb<Fx>, inp: Rgb<In>, coeff: Fx) -> Rgb<Fx> {
        Rgb {
            r: fadd(acc.r, fmul(inp.r.widen_spec(), coeff)),
            g: fadd(acc.g, fmul(inp.g.widen_spec(), coeff)),
            b: fadd(acc.b, fmul(inp.b.widen_spec(), coeff)),
        }
    }

    open spec fn spec_add_acc(acc: Rgb<Fx>, inp: Rgb<Fx>, coeff: Fx) -> Rgb<Fx> {
        Rgb {
            r: fadd(acc.r, fmul(inp.r, coeff)),
            g: fadd(acc.g, fmul(inp.g, coeff)),
            b: fadd(acc.b, fmul(inp.b, coeff)),
        }
    }

    open spec fn spec_into_pixel(acc: Rgb<Fx>) -> Rgb<Out> {
        Rgb {
            r: Out::narrow_spec(acc.r),
            g: Out::narrow_spec(acc.g),
            b: Out::narrow_spec(acc.b),
        }
    }

    fn new() -> Rgb<Fx> {
        Rgb { r: Fx::zero(), g: Fx::zero(), b: Fx::zero() }
    }

    fn add(&self, acc: &mut Rgb<Fx>, inp: Rgb<In>, coeff: Fx) {
        acc.r = acc.r.add(inp.r.to_fx().mul(coeff));
        acc.g = acc.g.add(inp.g.to_fx().mul(coeff));
        acc.b = acc.b.add(inp.b.to_fx().mul(coeff));
    }

    fn add_acc(acc: &mut Rgb<Fx>, inp: Rgb<Fx>, coeff: Fx) {
        acc.r = acc.r.add(inp.r.mul(coeff));
        acc.g = acc.g.add(inp.g.mul(coeff));
        acc.b = acc.b.add(inp.b.mul(coeff));
    }

    fn into_pixel(&self, acc: Rgb<Fx>) -> Rgb<Out> {
        Rgb { r: Out::from_fx(acc.r), g: Out::from_fx(acc.g), b: Out::from_fx(acc.b) }
    }
}

impl<Out: ToFx, In: ToFx> PixelFormat for formats::Rgba<Out, In> {
    type InputPixel = Rgba<In>;

    type OutputPixel = Rgba<Out>;

    type Accumulator = Rgba<Fx>;

    open spec fn spec_new() -> Rgba<Fx> {
        Rgba { r: fx(0), g: fx(0), b: fx(0), a: fx(0) }
    }

    open spec fn spec_add(acc: Rgba<Fx>, inp: Rgba<In>, coeff: Fx) -> Rgba<Fx> {
        Rgba {
            r: fadd(acc.r, fmul(inp.r.widen_spec(), coeff)),
            g: fadd(acc.g, fmul(inp.g.widen_spec(), coeff)),
            b: fadd(acc.b, fmul(inp.b.widen_spec(), coeff)),
            a: fadd(acc.a, fmul(inp.a.widen_spec(), coeff)),
        }
    }

    open spec fn spec_add_acc(acc: Rgba<Fx>, inp: Rgba<Fx>, coeff: Fx) -> Rgba<Fx> {
        Rgba {
            r: fadd(acc.r, fmul(inp.r, coeff)),
            g: fadd(acc.g, fmul(inp.g, coeff)),
            b: fadd(acc.b, fmul(inp.b, coeff)),
            a: fadd(acc.a, fmul(inp.a, coeff)),
        }
    }

    open spec fn spec_into_pixel(acc: Rgba<Fx>) -> Rgba<Out> {
        Rgba {
            r: Out::narrow_spec(acc.r),
            g: Out::narrow_spec(acc.g),
            b: Out::narrow_spec(acc.b),
            a: Out::narrow_spec(acc.a),
        }
    }

    fn new() -> Rgba<Fx> {
        Rgba { r: Fx::zero(), g: Fx::zero(), b: Fx::zero(), a: Fx::zero() }
    }

    fn add(&self, acc: &mut Rgba<Fx>, inp: Rgba<In>, coeff: Fx) {
        acc.r = acc.r.add(inp.r.to_fx().mul(coeff));
        acc.g = acc.g.add(inp.g.to_fx().mul(coeff));
        acc.b = acc.b.add(inp.b.to_fx().mul(coeff));
        acc.a = acc.a.add(inp.a.to_fx().mul(coeff));
    }

    fn add_acc(acc: &mut Rgba<Fx>, inp: Rgba<Fx>, coeff: Fx) {
        acc.r = acc.r.add(inp.r.mul(coeff));
        acc.g = acc.g.add(inp.g.mul(coeff));
        acc.b = acc.b.add(inp.b.mul(coeff));
        acc.a = acc.a.add(inp.a.mul(coeff));
    }

    fn into_pixel(&self, acc: Rgba<Fx>) -> Rgba<Out> {
        Rgba {
            r: Out::from_fx(acc.r),
            g: Out::from_fx(acc.g),
            b: Out::from_fx(acc.b),
            a: Out::from_fx(acc.a),
        }
    }
}

impl<Out: ToFx, In: ToFx> PixelFormat for formats::RgbaPremultiply<Out, In> {
    type InputPixel = Rgba<In>;

    type OutputPixel = Rgba<Out>;

    type Accumulator = Rgba<Fx>;

    open spec fn spec_new() -> Rgba<Fx> {
        Rgba { r: fx(0), g: fx(0), b: fx(0), a: fx(0) }
    }

    open spec fn spec_add(acc: Rgba<Fx>, inp: Rgba<In>, coeff: Fx) -> Rgba<Fx> {
        let ac = fmul(inp.a.widen_spec(), coeff);
        Rgba {
            r: fadd(acc.r, fmul(inp.r.widen_spec(), ac)),
            g: fadd(acc.g, fmul(inp.g.widen_spec(), ac)),
            b: fadd(acc.b, fmul(inp.b.widen_spec(), ac)),
            a: fadd(acc.a, ac),
        }
    }

    open spec fn spec_add_acc(acc: Rgba<Fx>, inp: Rgba<Fx>, coeff: Fx) -> Rgba<Fx> {
        Rgba {
            r: fadd(acc.r, fmul(inp.r, coeff)),
            g: fadd(acc.g, fmul(inp.g, coeff)),
            b: fadd(acc.b, fmul(inp.b, coeff)),
            a: fadd(acc.a, fmul(inp.a, coeff)),
        }
    }

    open spec fn spec_into_pixel(acc: Rgba<Fx>) -> Rgba<Out> {
        if acc.a.bits > 0 {
            Rgba {
                r: Out::narrow_spec(fdiv(acc.r, acc.a)),
                g: Out::narrow_spec(fdiv(acc.g, acc.a)),
                b: Out::narrow_spec(fdiv(acc.b, acc.a)),
                a: Out::narrow_spec(acc.a),
            }
        } else {
            Rgba {
                r: Out::narrow_spec(fx(0)),
                g: Out::narrow_spec(fx(0)),
                b: Out::narrow_spec(fx(0)),
                a: Out::narrow_spec(fx(0)),
            }
        }
    }

    fn new() -> Rgba<Fx> {
        Rgba { r: Fx::zero(), g: Fx::zero(), b: Fx::zero(), a: Fx::zero() }
    }

    fn add(&self, acc: &mut Rgba<Fx>, inp: Rgba<In>, coeff: Fx) {
        let a_coeff = inp.a.to_fx().mul(coeff);
        acc.r = acc.r.add(inp.r.to_fx().mul(a_coeff));
        acc.g = acc.g.add(inp.g.to_fx().mul(a_coeff));
        acc.b = acc.b.add(inp.b.to_fx().mul(a_coeff));
        acc.a = acc.a.add(a_coeff);
    }

    fn add_acc(acc: &mut Rgba<Fx>, inp: Rgba<Fx>, coeff: Fx) {
        acc.r = acc.r.add(inp.r.mul(coeff));
        acc.g = acc.g.add(inp.g.mul(coeff));
        acc.b = acc.b.add(inp.b.mul(coeff));
        acc.a = acc.a.add(inp.a.mul(coeff));
    }

    fn into_pixel(&self, acc: Rgba<Fx>) -> Rgba<Out> {
        if acc.a.to_bits() > 0 {
            Rgba {
                r: Out::from_fx(acc.r.div(acc.a)),
                g: Out::from_fx(acc.g.div(acc.a)),
                b: Out::from_fx(acc.b.div(acc.a)),
                a: Out::from_fx(acc.a),
            }
        } else {
            let z = Out::from_fx(Fx::zero());
            Rgba { r: z, g: z, b: z, a: z }
        }
    }
}

impl<Out: ToFx, In: ToFx> PixelFormat for formats::Gray<Out, In> {
    type InputPixel = Gray<In>;

    type OutputPixel = Gray<Out>;

    type Accumulator = Gray<Fx>;

    open spec fn spec_new() -> Gray<Fx> {
        Gray { v: fx(0) }
    }

    open spec fn spec_add(acc: Gray<Fx>, inp: Gray<In>, coeff: Fx) -> Gray<Fx> {
        Gray { v: fadd(acc.v, fmul(inp.v.widen_spec(), coeff)) }
    }

    open spec fn spec_add_acc(acc: Gray<Fx>, inp: Gray<Fx>, coeff: Fx) -> Gray<Fx> {
        Gray { v: fadd(acc.v, fmul(inp.v, coeff)) }
    }

    open spec fn spec_into_pixel(acc: Gray<Fx>) -> Gray<Out> {
        Gray { v: Out::narrow_spec(acc.v) }
    }

    fn new() -> Gray<Fx> {
        Gray { v: Fx::zero() }
    }

    fn add(&self, acc: &mut Gray<Fx>, inp: Gray<In>, coeff: Fx) {
        acc.v = acc.v.add(inp.v.to_fx().mul(coeff));
    }

    fn add_acc(acc: &mut Gray<Fx>, inp: Gray<Fx>, coeff: Fx) {
        acc.v = acc.v.add(inp.v.mul(coeff));
    }

    fn into_pixel(&self, acc: Gray<Fx>) -> Gray<Out> {
        Gray { v: Out::from_fx(acc.v) }
    }
}

} // verus!

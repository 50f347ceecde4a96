//! Conversion between sample representations and the internal scalar.
//!
//! Each numeric representation a sample channel can use implements [`ToFx`]:
//! widening into the internal fixed-point precision is exact, and narrowing
//! back rounds to nearest with ties resolved upward (one half is added before
//! truncating toward zero), then clamps to the representation's range. The
//! internal scalar itself is a representation, converted by the identity, so
//! an accumulator can also be handed back unconverted.

use crate::fx::{fx, tdiv, tdiv_i128, Fx, HALF, SCALE};
use vstd::arithmetic::div_mod::lemma_fundamental_div_mod_converse;
use vstd::prelude::*;

verus! {

/// A channel representation that converts to and from the internal scalar.
pub trait ToFx: Sized + Copy {
    /// What [`ToFx::to_fx`] returns: the exact widened value.
    spec fn widen_spec(self) -> Fx;

    /// What [`ToFx::from_fx`] returns: the narrowed value, rounded half up
    /// and clamped into this representation's range.
    spec fn narrow_spec(f: Fx) -> Self;

    /// Widens one channel value into the internal precision.
    fn to_fx(self) -> (r: Fx)
        ensures
            r == self.widen_spec(),
    ;

    /// Narrows an internal value back into this representation.
    fn from_fx(f: Fx) -> (r: Self)
        ensures
            r == Self::narrow_spec(f),
    ;

    /// Narrowing an exactly widened value gives the original back.
    proof fn lemma_widen_narrow_id(x: Self)
        ensures
            Self::narrow_spec(x.widen_spec()) == x,
    ;
}

/// The integer nearest to `f`'s value, ties upward, clamped to `[0, top]`.
pub open spec fn narrow_int(f: Fx, top: int) -> int
    recommends
        top > 0,
{
    let q = tdiv(f.bits + HALF, SCALE as int);
    if q < 0 {
        0
    } else if q > top {
        top
    } else {
        q
    }
}

/// Shared body of the integer narrowings: round half up, clamp to `[0, top]`.
fn narrow_exec(f: Fx, top: i64) -> (r: i64)
    requires
        top > 0,
    ensures
        r == narrow_int(f, top as int),
{
    let s: i128 = f.bits as i128 + HALF as i128;
    let q: i128 = tdiv_i128(s, SCALE as i128);
    if q < 0 {
        0
    } else if q > top as i128 {
        top
    } else {
        q as i64
    }
}

impl ToFx for u8 {
    open spec fn widen_spec(self) -> Fx {
        fx(self as int * SCALE as int)
    }

    open spec fn narrow_spec(f: Fx) -> u8 {
        narrow_int(f, 255) as u8
    }

    fn to_fx(self) -> (r: Fx) {
        Fx { bits: (self as i64) * SCALE }
    }

    fn from_fx(f: Fx) -> (r: u8) {
        narrow_exec(f, 255) as u8
    }

    proof fn lemma_widen_narrow_id(x: u8) {
        lemma_fundamental_div_mod_converse(
            x as int * SCALE as int + HALF as int,
            SCALE as int,
            x as int,
            HALF as int,
        );
    }
}

impl ToFx for u16 {
    open spec fn widen_spec(self) -> Fx {
        fx(self as int * SCALE as int)
    }

    open spec fn narrow_spec(f: Fx) -> u16 {
        narrow_int(f, 65535) as u16
    }

    fn to_fx(self) -> (r: Fx) {
        Fx { bits: (self as i64) * SCALE }
    }

    fn from_fx(f: Fx) -> (r: u16) {
        narrow_exec(f, 65535) as u16
    }

    proof fn lemma_widen_narrow_id(x: u16) {
        lemma_fundamental_div_mod_converse(
            x as int * SCALE as int + HALF as int,
            SCALE as int,
            x as int,
            HALF as int,
        );
    }
}

impl ToFx for Fx {
    open spec fn widen_spec(self) -> Fx {
        self
    }

    open spec fn narrow_spec(f: Fx) -> Fx {
        f
    }

    fn to_fx(self) -> (r: Fx) {
        self
    }

    fn from_fx(f: Fx) -> (r: Fx) {
        f
    }

    proof fn lemma_widen_narrow_id(x: Fx) {
    }
}

} // verus!

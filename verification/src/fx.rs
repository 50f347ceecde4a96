//! The internal high-precision scalar used for accumulation.
//!
//! A weighted sum of samples is computed in `Fx`, a signed fixed-point number
//! with [`SCALE`] as its unit: the value represented by an `Fx` is
//! `bits / SCALE`. Every operation is total: sums and products that leave the
//! representable range saturate, and division is only offered for a strictly
//! positive divisor. The exact result of every operation is pinned down by the
//! spec functions [`fadd`], [`fmul`] and [`fdiv`].

use vstd::arithmetic::div_mod::{
    lemma_div_nonincreasing, lemma_div_pos_is_pos, lemma_fundamental_div_mod_converse,
};
use vstd::prelude::*;

verus! {

/// Number of `bits` units in one: an `Fx` with `bits == SCALE` has the value one.
pub const SCALE: i64 = 16777216;

/// Half of [`SCALE`]: the value one half, used by round-half-up narrowing.
pub const HALF: i64 = 8388608;

/// A signed fixed-point scalar; the represented value is `bits / SCALE`.
#[derive(Clone, Copy, PartialEq, Eq, Structural, Debug)]
pub struct Fx {
    pub bits: i64,
}

/// Clamps an unbounded integer into the range of `i64`.
pub open spec fn sat64(v: int) -> int {
    if v > i64::MAX as int {
        i64::MAX as int
    } else if v < i64::MIN as int {
        i64::MIN as int
    } else {
        v
    }
}

/// Division rounding toward zero, for a strictly positive divisor.
pub open spec fn tdiv(a: int, d: int) -> int
    recommends
        d > 0,
{
    if a >= 0 {
        a / d
    } else {
        -((-a) / d)
    }
}

/// The `Fx` whose `bits` are `v`, saturated into range.
pub open spec fn fx(v: int) -> Fx {
    Fx { bits: sat64(v) as i64 }
}

/// What [`Fx::add`] returns: the saturated sum of the `bits`.
pub open spec fn fadd(a: Fx, b: Fx) -> Fx {
    fx(a.bits + b.bits)
}

/// What [`Fx::mul`] returns: the product, rescaled by truncating division.
pub open spec fn fmul(a: Fx, b: Fx) -> Fx {
    fx(tdiv(a.bits * b.bits, SCALE as int))
}

/// What [`Fx::div`] returns: the rescaled quotient, rounded toward zero.
pub open spec fn fdiv(a: Fx, b: Fx) -> Fx
    recommends
        b.bits > 0,
{
    fx(tdiv(a.bits * (SCALE as int), b.bits as int))
}

/// Saturates a double-width intermediate result into an `i64`.
fn sat_to_i64(v: i128) -> (r: i64)
    ensures
        r as int == sat64(v as int),
{
    if v > i64::MAX as i128 {
        i64::MAX
    } else if v < i64::MIN as i128 {
        i64::MIN
    } else {
        v as i64
    }
}

/// Double-width division rounding toward zero, for a positive divisor.
pub(crate) fn tdiv_i128(a: i128, d: i128) -> (r: i128)
    requires
        d > 0,
        a > i128::MIN,
    ensures
        r == tdiv(a as int, d as int),
{
    if a >= 0 {
        let q: u128 = (a as u128) / (d as u128);
        proof {
            lemma_div_pos_is_pos(a as int, d as int);
            lemma_div_nonincreasing(a as int, d as int);
        }
        q as i128
    } else {
        let m: i128 = -a;
        let q: u128 = (m as u128) / (d as u128);
        proof {
            lemma_div_pos_is_pos(m as int, d as int);
            lemma_div_nonincreasing(m as int, d as int);
        }
        -(q as i128)
    }
}

impl Fx {
    /// The additive identity.
    pub fn zero() -> (r: Fx)
        ensures
            r == fx(0),
    {
        Fx { bits: 0 }
    }

    /// The multiplicative identity.
    pub fn one() -> (r: Fx)
        ensures
            r == fx(SCALE as int),
    {
        Fx { bits: SCALE }
    }

    /// Builds a scalar directly from its raw fixed-point bits.
    pub fn from_bits(bits: i64) -> (r: Fx)
        ensures
            r == (Fx { bits }),
    {
        Fx { bits }
    }

    /// The raw fixed-point bits of this scalar.
    pub fn to_bits(self) -> (r: i64)
        ensures
            r == self.bits,
    {
        self.bits
    }

    /// Saturating addition.
    pub fn add(self, other: Fx) -> (r: Fx)
        ensures
            r == fadd(self, other),
    {
        let s: i128 = self.bits as i128 + other.bits as i128;
        Fx { bits: sat_to_i64(s) }
    }

    /// Saturating multiplication, with the product rescaled toward zero.
    pub fn mul(self, other: Fx) -> (r: Fx)
        ensures
            r == fmul(self, other),
    {
        proof {
            let ai = self.bits as int;
            let bi = other.bits as int;
            assert(-0x40000000000000000000000000000000 <= ai * bi
                <= 0x40000000000000000000000000000000) by (nonlinear_arith)
                requires
                    -0x8000000000000000 <= ai <= 0x7fffffffffffffff,
                    -0x8000000000000000 <= bi <= 0x7fffffffffffffff,
            ;
        }
        let p: i128 = (self.bits as i128) * (other.bits as i128);
        let q: i128 = tdiv_i128(p, SCALE as i128);
        Fx { bits: sat_to_i64(q) }
    }

    /// Saturating division by a strictly positive scalar, rounded toward zero.
    pub fn div(self, other: Fx) -> (r: Fx)
        requires
            other.bits > 0,
        ensures
            r == fdiv(self, other),
    {
        proof {
            let ai = self.bits as int;
            assert(-0x40000000000000000000000000000000 <= ai * (SCALE as int)
                <= 0x40000000000000000000000000000000) by (nonlinear_arith)
                requires
                    -0x8000000000000000 <= ai <= 0x7fffffffffffffff,
            ;
        }
        let p: i128 = (self.bits as i128) * (SCALE as i128);
        let q: i128 = tdiv_i128(p, other.bits as i128);
        Fx { bits: sat_to_i64(q) }
    }
}

/// Adding the zero scalar changes nothing.
pub proof fn lemma_fadd_zero(a: Fx)
    ensures
        fadd(a, fx(0)) == a,
        fadd(fx(0), a) == a,
{
}

/// Multiplying by the zero scalar yields the zero scalar.
pub proof fn lemma_fmul_zero(a: Fx)
    ensures
        fmul(a, fx(0)) == fx(0),
{
    assert(a.bits * 0 == 0);
    assert(0int / (SCALE as int) == 0) by {
        vstd::arithmetic::div_mod::lemma_div_of0(SCALE as int);
    }
}

/// Multiplying by the unit scalar changes nothing.
pub proof fn lemma_fmul_one(a: Fx)
    ensures
        fmul(a, fx(SCALE as int)) == a,
{
    if a.bits >= 0 {
        lemma_fundamental_div_mod_converse(
            a.bits * (SCALE as int),
            SCALE as int,
            a.bits as int,
            0,
        );
    } else {
        assert(-(a.bits * (SCALE as int)) == (-a.bits) * (SCALE as int));
        lemma_fundamental_div_mod_converse(
            (-a.bits) * (SCALE as int),
            SCALE as int,
            -a.bits as int,
            0,
        );
    }
}

} // verus!

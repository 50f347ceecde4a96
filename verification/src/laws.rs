//! Algebraic laws of the accumulation contract, stated and proved once for
//! every caller: unit-weight summation is the identity, accumulation is
//! linear, a zero weight changes nothing, premultiplied accumulation of an
//! opaque sample round-trips, zero accumulated coverage finalizes to the zero
//! sample, and the grayscale path tracks the red channel of the color path.

use crate::convert::ToFx;
use crate::formats;
use crate::fx::{fadd, fdiv, fmul, fx, lemma_fadd_zero, lemma_fmul_one, lemma_fmul_zero, Fx, SCALE};
use crate::px::{Gray, PixelFormat, Rgb, Rgba};
use vstd::arithmetic::div_mod::lemma_fundamental_div_mod_converse;
use vstd::prelude::*;

verus! {

/// Folding one plain color sample with weight one along the first axis, then
/// that accumulator with weight one along the second axis, and finalizing,
/// reproduces the sample exactly.
pub proof fn lemma_identity_rgb<T: ToFx>(s: Rgb<T>)
    ensures
        ({
            let one = fx(SCALE as int);
            let first = <formats::Rgb<T, T> as PixelFormat>::spec_add(
                <formats::Rgb<T, T> as PixelFormat>::spec_new(),
                s,
                one,
            );
            let second = <formats::Rgb<T, T> as PixelFormat>::spec_add_acc(
                <formats::Rgb<T, T> as PixelFormat>::spec_new(),
                first,
                one,
            );
            <formats::Rgb<T, T> as PixelFormat>::spec_into_pixel(second) == s
        }),
{
    let one = fx(SCALE as int);
    lemma_fmul_one(s.r.widen_spec());
    lemma_fmul_one(s.g.widen_spec());
    lemma_fmul_one(s.b.widen_spec());
    lemma_fadd_zero(s.r.widen_spec());
    lemma_fadd_zero(s.g.widen_spec());
    lemma_fadd_zero(s.b.widen_spec());
    T::lemma_widen_narrow_id(s.r);
    T::lemma_widen_narrow_id(s.g);
    T::lemma_widen_narrow_id(s.b);
}

/// Unit-weight summation over both axes is the identity for color samples
/// with an independent alpha channel.
pub proof fn lemma_identity_rgba<T: ToFx>(s: Rgba<T>)
    ensures
        ({
            let one = fx(SCALE as int);
            let first = <formats::Rgba<T, T> as PixelFormat>::spec_add(
                <formats::Rgba<T, T> as PixelFormat>::spec_new(),
                s,
                one,
            );
            let second = <formats::Rgba<T, T> as PixelFormat>::spec_add_acc(
                <formats::Rgba<T, T> as PixelFormat>::spec_new(),
                first,
                one,
            );
            <formats::Rgba<T, T> as PixelFormat>::spec_into_pixel(second) == s
        }),
{
    let one = fx(SCALE as int);
    lemma_fmul_one(s.r.widen_spec());
    lemma_fmul_one(s.g.widen_spec());
    lemma_fmul_one(s.b.widen_spec());
    lemma_fmul_one(s.a.widen_spec());
    lemma_fadd_zero(s.r.widen_spec());
    lemma_fadd_zero(s.g.widen_spec());
    lemma_fadd_zero(s.b.widen_spec());
    lemma_fadd_zero(s.a.widen_spec());
    T::lemma_widen_narrow_id(s.r);
    T::lemma_widen_narrow_id(s.g);
    T::lemma_widen_narrow_id(s.b);
    T::lemma_widen_narrow_id(s.a);
}

/// Unit-weight summation over both axes is the identity for grayscale samples.
pub proof fn lemma_identity_gray<T: ToFx>(s: Gray<T>)
    ensures
        ({
            let one = fx(SCALE as int);
            let first = <formats::Gray<T, T> as PixelFormat>::spec_add(
                <formats::Gray<T, T> as PixelFormat>::spec_new(),
                s,
                one,
            );
            let second = <formats::Gray<T, T> as PixelFormat>::spec_add_acc(
                <formats::Gray<T, T> as PixelFormat>::spec_new(),
                first,
                one,
            );
            <formats::Gray<T, T> as PixelFormat>::spec_into_pixel(second) == s
        }),
{
    let one = fx(SCALE as int);
    lemma_fmul_one(s.v.widen_spec());
    lemma_fadd_zero(s.v.widen_spec());
    T::lemma_widen_narrow_id(s.v);
}

/// Folding two plain color samples into a fresh accumulator leaves exactly
/// the channel-wise algebraic combination `w1 * s1 + w2 * s2`, computed in the
/// internal precision; finalizing either side therefore agrees.
pub proof fn lemma_linearity_rgb<Out: ToFx, In: ToFx>(s1: Rgb<In>, s2: Rgb<In>, w1: Fx, w2: Fx)
    ensures
        ({
            let acc = <formats::Rgb<Out, In> as PixelFormat>::spec_add(
                <formats::Rgb<Out, In> as PixelFormat>::spec_add(
                    <formats::Rgb<Out, In> as PixelFormat>::spec_new(),
                    s1,
                    w1,
                ),
                s2,
                w2,
            );
            let direct = (Rgb {
                r: fadd(fmul(s1.r.widen_spec(), w1), fmul(s2.r.widen_spec(), w2)),
                g: fadd(fmul(s1.g.widen_spec(), w1), fmul(s2.g.widen_spec(), w2)),
                b: fadd(fmul(s1.b.widen_spec(), w1), fmul(s2.b.widen_spec(), w2)),
            });
            acc == direct && <formats::Rgb<Out, In> as PixelFormat>::spec_into_pixel(acc)
                == <formats::Rgb<Out, In> as PixelFormat>::spec_into_pixel(direct)
        }),
{
    lemma_fadd_zero(fmul(s1.r.widen_spec(), w1));
    lemma_fadd_zero(fmul(s1.g.widen_spec(), w1));
    lemma_fadd_zero(fmul(s1.b.widen_spec(), w1));
}

/// Linearity of the alpha variant's first-axis fold: color and alpha
/// channels each accumulate the algebraic combination independently.
pub proof fn lemma_linearity_rgba<Out: ToFx, In: ToFx>(s1: Rgba<In>, s2: Rgba<In>, w1: Fx, w2: Fx)
    ensures
        ({
            let acc = <formats::Rgba<Out, In> as PixelFormat>::spec_add(
                <formats::Rgba<Out, In> as PixelFormat>::spec_add(
                    <formats::Rgba<Out, In> as PixelFormat>::spec_new(),
                    s1,
                    w1,
                ),
                s2,
                w2,
            );
            let direct = (Rgba {
                r: fadd(fmul(s1.r.widen_spec(), w1), fmul(s2.r.widen_spec(), w2)),
                g: fadd(fmul(s1.g.widen_spec(), w1), fmul(s2.g.widen_spec(), w2)),
                b: fadd(fmul(s1.b.widen_spec(), w1), fmul(s2.b.widen_spec(), w2)),
                a: fadd(fmul(s1.a.widen_spec(), w1), fmul(s2.a.widen_spec(), w2)),
            });
            acc == direct && <formats::Rgba<Out, In> as PixelFormat>::spec_into_pixel(acc)
                == <formats::Rgba<Out, In> as PixelFormat>::spec_into_pixel(direct)
        }),
{
    lemma_fadd_zero(fmul(s1.r.widen_spec(), w1));
    lemma_fadd_zero(fmul(s1.g.widen_spec(), w1));
    lemma_fadd_zero(fmul(s1.b.widen_spec(), w1));
    lemma_fadd_zero(fmul(s1.a.widen_spec(), w1));
}

/// Linearity of the grayscale first-axis fold, as for plain color.
pub proof fn lemma_linearity_gray<Out: ToFx, In: ToFx>(s1: Gray<In>, s2: Gray<In>, w1: Fx, w2: Fx)
    ensures
        ({
            let acc = <formats::Gray<Out, In> as PixelFormat>::spec_add(
                <formats::Gray<Out, In> as PixelFormat>::spec_add(
                    <formats::Gray<Out, In> as PixelFormat>::spec_new(),
                    s1,
                    w1,
                ),
                s2,
                w2,
            );
            let direct = (Gray {
                v: fadd(fmul(s1.v.widen_spec(), w1), fmul(s2.v.widen_spec(), w2)),
            });
            acc == direct && <formats::Gray<Out, In> as PixelFormat>::spec_into_pixel(acc)
                == <formats::Gray<Out, In> as PixelFormat>::spec_into_pixel(direct)
        }),
{
    lemma_fadd_zero(fmul(s1.v.widen_spec(), w1));
}

/// A first-axis or second-axis fold with weight zero leaves the plain color
/// accumulator unchanged.
pub proof fn lemma_zero_weight_rgb<Out: ToFx, In: ToFx>(acc: Rgb<Fx>, s: Rgb<In>, part: Rgb<Fx>)
    ensures
        <formats::Rgb<Out, In> as PixelFormat>::spec_add(acc, s, fx(0)) == acc,
        <formats::Rgb<Out, In> as PixelFormat>::spec_add_acc(acc, part, fx(0)) == acc,
{
    lemma_fmul_zero(s.r.widen_spec());
    lemma_fmul_zero(s.g.widen_spec());
    lemma_fmul_zero(s.b.widen_spec());
    lemma_fmul_zero(part.r);
    lemma_fmul_zero(part.g);
    lemma_fmul_zero(part.b);
    lemma_fadd_zero(acc.r);
    lemma_fadd_zero(acc.g);
    lemma_fadd_zero(acc.b);
}

/// A fold with weight zero leaves the alpha accumulator unchanged.
pub proof fn lemma_zero_weight_rgba<Out: ToFx, In: ToFx>(acc: Rgba<Fx>, s: Rgba<In>, part: Rgba<Fx>)
    ensures
        <formats::Rgba<Out, In> as PixelFormat>::spec_add(acc, s, fx(0)) == acc,
        <formats::Rgba<Out, In> as PixelFormat>::spec_add_acc(acc, part, fx(0)) == acc,
{
    lemma_fmul_zero(s.r.widen_spec());
    lemma_fmul_zero(s.g.widen_spec());
    lemma_fmul_zero(s.b.widen_spec());
    lemma_fmul_zero(s.a.widen_spec());
    lemma_fmul_zero(part.r);
    lemma_fmul_zero(part.g);
    lemma_fmul_zero(part.b);
    lemma_fmul_zero(part.a);
    lemma_fadd_zero(acc.r);
    lemma_fadd_zero(acc.g);
    lemma_fadd_zero(acc.b);
    lemma_fadd_zero(acc.a);
}

/// A fold with weight zero leaves the premultiplied accumulator unchanged:
/// the effective coverage weight is itself zero.
pub proof fn lemma_zero_weight_premultiply<Out: ToFx, In: ToFx>(
    acc: Rgba<Fx>,
    s: Rgba<In>,
    part: Rgba<Fx>,
)
    ensures
        <formats::RgbaPremultiply<Out, In> as PixelFormat>::spec_add(acc, s, fx(0)) == acc,
        <formats::RgbaPremultiply<Out, In> as PixelFormat>::spec_add_acc(acc, part, fx(0)) == acc,
{
    lemma_fmul_zero(s.a.widen_spec());
    lemma_fmul_zero(s.r.widen_spec());
    lemma_fmul_zero(s.g.widen_spec());
    lemma_fmul_zero(s.b.widen_spec());
    lemma_fmul_zero(part.r);
    lemma_fmul_zero(part.g);
    lemma_fmul_zero(part.b);
    lemma_fmul_zero(part.a);
    lemma_fadd_zero(acc.r);
    lemma_fadd_zero(acc.g);
    lemma_fadd_zero(acc.b);
    lemma_fadd_zero(acc.a);
}

/// A fold with weight zero leaves the grayscale accumulator unchanged.
pub proof fn lemma_zero_weight_gray<Out: ToFx, In: ToFx>(acc: Gray<Fx>, s: Gray<In>, part: Gray<Fx>)
    ensures
        <formats::Gray<Out, In> as PixelFormat>::spec_add(acc, s, fx(0)) == acc,
        <formats::Gray<Out, In> as PixelFormat>::spec_add_acc(acc, part, fx(0)) == acc,
{
    lemma_fmul_zero(s.v.widen_spec());
    lemma_fmul_zero(part.v);
    lemma_fadd_zero(acc.v);
}

/// The second-axis fold is one and the same operation in every variant: the
/// alpha and premultiplied variants leave identical accumulators, so the
/// variants differ only in the first-axis fold and in finalization.
pub proof fn lemma_second_axis_uniform<Out: ToFx, In: ToFx>(acc: Rgba<Fx>, part: Rgba<Fx>, w: Fx)
    ensures
        <formats::Rgba<Out, In> as PixelFormat>::spec_add_acc(acc, part, w) == <formats::RgbaPremultiply<
            Out,
            In,
        > as PixelFormat>::spec_add_acc(acc, part, w),
{
}

/// Finalizing a premultiplied accumulator whose accumulated coverage is zero
/// or negative yields the all-zero output sample.
pub proof fn lemma_zero_alpha_fallback<Out: ToFx, In: ToFx>(acc: Rgba<Fx>)
    requires
        acc.a.bits <= 0,
    ensures
        <formats::RgbaPremultiply<Out, In> as PixelFormat>::spec_into_pixel(acc) == (Rgba {
            r: Out::narrow_spec(fx(0)),
            g: Out::narrow_spec(fx(0)),
            b: Out::narrow_spec(fx(0)),
            a: Out::narrow_spec(fx(0)),
        }),
{
}

/// Premultiplied accumulation of an opaque 8-bit sample with weight one on
/// both axes reproduces the sample exactly: premultiplication by full
/// coverage divides back out at finalization.
pub proof fn lemma_premultiplied_roundtrip_u8(s: Rgba<u8>)
    requires
        s.a == 255,
    ensures
        ({
            let one = fx(SCALE as int);
            let first = <formats::RgbaPremultiply<u8, u8> as PixelFormat>::spec_add(
                <formats::RgbaPremultiply<u8, u8> as PixelFormat>::spec_new(),
                s,
                one,
            );
            let second = <formats::RgbaPremultiply<u8, u8> as PixelFormat>::spec_add_acc(
                <formats::RgbaPremultiply<u8, u8> as PixelFormat>::spec_new(),
                first,
                one,
            );
            <formats::RgbaPremultiply<u8, u8> as PixelFormat>::spec_into_pixel(second) == s
        }),
{
    lemma_premultiplied_roundtrip_channels(s.r as int, s.g as int, s.b as int, 255);
    let one = fx(SCALE as int);
    let wa = s.a.widen_spec();
    lemma_fmul_one(wa);
    lemma_fadd_zero(wa);
    lemma_opaque_channel(s.r as int, 255);
    lemma_opaque_channel(s.g as int, 255);
    lemma_opaque_channel(s.b as int, 255);
    let first = <formats::RgbaPremultiply<u8, u8> as PixelFormat>::spec_add(
        <formats::RgbaPremultiply<u8, u8> as PixelFormat>::spec_new(),
        s,
        one,
    );
    lemma_fadd_zero(fmul(s.r.widen_spec(), wa));
    lemma_fadd_zero(fmul(s.g.widen_spec(), wa));
    lemma_fadd_zero(fmul(s.b.widen_spec(), wa));
    lemma_fmul_one(first.r);
    lemma_fmul_one(first.g);
    lemma_fmul_one(first.b);
    lemma_fadd_zero(first.r);
    lemma_fadd_zero(first.g);
    lemma_fadd_zero(first.b);
    u8::lemma_widen_narrow_id(s.r);
    u8::lemma_widen_narrow_id(s.g);
    u8::lemma_widen_narrow_id(s.b);
    u8::lemma_widen_narrow_id(s.a);
}

/// Premultiplied accumulation of an opaque 16-bit sample with weight one on
/// both axes reproduces the sample exactly.
pub proof fn lemma_premultiplied_roundtrip_u16(s: Rgba<u16>)
    requires
        s.a == 65535,
    ensures
        ({
            let one = fx(SCALE as int);
            let first = <formats::RgbaPremultiply<u16, u16> as PixelFormat>::spec_add(
                <formats::RgbaPremultiply<u16, u16> as PixelFormat>::spec_new(),
                s,
                one,
            );
            let second = <formats::RgbaPremultiply<u16, u16> as PixelFormat>::spec_add_acc(
                <formats::RgbaPremultiply<u16, u16> as PixelFormat>::spec_new(),
                first,
                one,
            );
            <formats::RgbaPremultiply<u16, u16> as PixelFormat>::spec_into_pixel(second) == s
        }),
{
    lemma_premultiplied_roundtrip_channels(s.r as int, s.g as int, s.b as int, 65535);
    let one = fx(SCALE as int);
    let wa = s.a.widen_spec();
    lemma_fmul_one(wa);
    lemma_fadd_zero(wa);
    lemma_opaque_channel(s.r as int, 65535);
    lemma_opaque_channel(s.g as int, 65535);
    lemma_opaque_channel(s.b as int, 65535);
    let first = <formats::RgbaPremultiply<u16, u16> as PixelFormat>::spec_add(
        <formats::RgbaPremultiply<u16, u16> as PixelFormat>::spec_new(),
        s,
        one,
    );
    lemma_fadd_zero(fmul(s.r.widen_spec(), wa));
    lemma_fadd_zero(fmul(s.g.widen_spec(), wa));
    lemma_fadd_zero(fmul(s.b.widen_spec(), wa));
    lemma_fmul_one(first.r);
    lemma_fmul_one(first.g);
    lemma_fmul_one(first.b);
    lemma_fadd_zero(first.r);
    lemma_fadd_zero(first.g);
    lemma_fadd_zero(first.b);
    u16::lemma_widen_narrow_id(s.r);
    u16::lemma_widen_narrow_id(s.g);
    u16::lemma_widen_narrow_id(s.b);
    u16::lemma_widen_narrow_id(s.a);
}

/// Core arithmetic of the opaque round-trip: multiplying a widened channel by
/// the widened full coverage and dividing back out returns the widened
/// channel.
proof fn lemma_opaque_channel(c: int, amax: int)
    requires
        0 <= c <= amax,
        0 < amax <= 65535,
    ensures
        fmul(fx(c * SCALE as int), fx(amax * SCALE as int)) == fx(c * amax * SCALE as int),
        fdiv(fx(c * amax * SCALE as int), fx(amax * SCALE as int)) == fx(c * SCALE as int),
{
    let sc = SCALE as int;
    assert(c * amax * sc <= 65535 * 65535 * sc) by (nonlinear_arith)
        requires
            0 <= c <= amax,
            0 < amax <= 65535,
            sc == SCALE as int,
    ;
    assert(c * amax * sc >= 0) by (nonlinear_arith)
        requires
            0 <= c,
            0 < amax,
            sc > 0,
    ;
    assert((c * sc) * (amax * sc) == (c * amax * sc) * sc) by (nonlinear_arith);
    lemma_fundamental_div_mod_converse((c * amax * sc) * sc, sc, c * amax * sc, 0);
    assert((c * amax * sc) * sc >= 0) by (nonlinear_arith)
        requires
            c * amax * sc >= 0,
            sc > 0,
    ;
    lemma_fundamental_div_mod_converse((c * sc) * (amax * sc), amax * sc, c * sc, 0);
}

/// Range bookkeeping shared by the opaque round-trip lemmas.
proof fn lemma_premultiplied_roundtrip_channels(r: int, g: int, b: int, amax: int)
    requires
        0 <= r <= amax,
        0 <= g <= amax,
        0 <= b <= amax,
        0 < amax <= 65535,
    ensures
        0 <= r * amax * (SCALE as int) <= i64::MAX as int,
        0 <= g * amax * (SCALE as int) <= i64::MAX as int,
        0 <= b * amax * (SCALE as int) <= i64::MAX as int,
{
    let sc = SCALE as int;
    assert(r * amax * sc <= 65535 * 65535 * sc && r * amax * sc >= 0 && g * amax * sc <= 65535
        * 65535 * sc && g * amax * sc >= 0 && b * amax * sc <= 65535 * 65535 * sc && b * amax * sc
        >= 0) by (nonlinear_arith)
        requires
            0 <= r <= amax,
            0 <= g <= amax,
            0 <= b <= amax,
            0 < amax <= 65535,
            sc == SCALE as int,
    ;
}

/// The grayscale variant computes, channel for channel, exactly what the red
/// channel of the plain color variant computes: creation, both folds and
/// finalization all agree when the luma inputs equal the red inputs.
pub proof fn lemma_gray_matches_red<Out: ToFx, In: ToFx>(
    acc_g: Gray<Fx>,
    acc_c: Rgb<Fx>,
    inp_g: Gray<In>,
    inp_c: Rgb<In>,
    part_g: Gray<Fx>,
    part_c: Rgb<Fx>,
    w: Fx,
)
    requires
        acc_g.v == acc_c.r,
        inp_g.v == inp_c.r,
        part_g.v == part_c.r,
    ensures
        <formats::Gray<Out, In> as PixelFormat>::spec_new().v == <formats::Rgb<
            Out,
            In,
        > as PixelFormat>::spec_new().r,
        <formats::Gray<Out, In> as PixelFormat>::spec_add(acc_g, inp_g, w).v == <formats::Rgb<
            Out,
            In,
        > as PixelFormat>::spec_add(acc_c, inp_c, w).r,
        <formats::Gray<Out, In> as PixelFormat>::spec_add_acc(acc_g, part_g, w).v == <formats::Rgb<
            Out,
            In,
        > as PixelFormat>::spec_add_acc(acc_c, part_c, w).r,
        <formats::Gray<Out, In> as PixelFormat>::spec_into_pixel(acc_g).v == <formats::Rgb<
            Out,
            In,
        > as PixelFormat>::spec_into_pixel(acc_c).r,
{
}

} // verus!

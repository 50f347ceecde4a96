use pixel_acc::formats;
use pixel_acc::fx::{Fx, HALF, SCALE};
use pixel_acc::px::{Gray, PixelFormat, Rgb, Rgba};

#[test]
fn identity_rgb_u8() {
    let f = formats::Rgb::<u8, u8>::format();
    let s = Rgb { r: 12u8, g: 34, b: 56 };
    let mut first = formats::Rgb::<u8, u8>::new();
    f.add(&mut first, s, Fx::one());
    let mut second = formats::Rgb::<u8, u8>::new();
    formats::Rgb::<u8, u8>::add_acc(&mut second, first, Fx::one());
    assert_eq!(f.into_pixel(second), s);
}

#[test]
fn identity_rgba_u16() {
    let f = formats::Rgba::<u16, u16>::format();
    let s = Rgba { r: 40000u16, g: 1, b: 65535, a: 700 };
    let mut first = formats::Rgba::<u16, u16>::new();
    f.add(&mut first, s, Fx::one());
    let mut second = formats::Rgba::<u16, u16>::new();
    formats::Rgba::<u16, u16>::add_acc(&mut second, first, Fx::one());
    assert_eq!(f.into_pixel(second), s);
}

#[test]
fn identity_gray_u8() {
    let f = formats::Gray::<u8, u8>::format();
    let s = Gray { v: 201u8 };
    let mut first = formats::Gray::<u8, u8>::new();
    f.add(&mut first, s, Fx::one());
    let mut second = formats::Gray::<u8, u8>::new();
    formats::Gray::<u8, u8>::add_acc(&mut second, first, Fx::one());
    assert_eq!(f.into_pixel(second), s);
}

#[test]
fn zero_weight_fold_changes_nothing() {
    let f = formats::Rgb::<u8, u8>::format();
    let mut acc = formats::Rgb::<u8, u8>::new();
    f.add(&mut acc, Rgb { r: 10u8, g: 20, b: 30 }, Fx::from_bits(3 * SCALE));
    let before = acc;
    f.add(&mut acc, Rgb { r: 255u8, g: 255, b: 255 }, Fx::zero());
    assert_eq!(acc, before);
    formats::Rgb::<u8, u8>::add_acc(&mut acc, before, Fx::zero());
    assert_eq!(acc, before);
}

#[test]
fn linearity_matches_direct_combination() {
    // 0.25 * s1 + 0.75 * s2, folded and computed directly in internal precision.
    let w1 = Fx::from_bits(SCALE / 4);
    let w2 = Fx::from_bits(3 * (SCALE / 4));
    let s1 = Rgb { r: 100u8, g: 50, b: 0 };
    let s2 = Rgb { r: 20u8, g: 200, b: 40 };
    let f = formats::Rgb::<u8, u8>::format();
    let mut acc = formats::Rgb::<u8, u8>::new();
    f.add(&mut acc, s1, w1);
    f.add(&mut acc, s2, w2);
    let direct = Rgb {
        r: Fx::from_bits(100 * SCALE).mul(w1).add(Fx::from_bits(20 * SCALE).mul(w2)),
        g: Fx::from_bits(50 * SCALE).mul(w1).add(Fx::from_bits(200 * SCALE).mul(w2)),
        b: Fx::from_bits(0).mul(w1).add(Fx::from_bits(40 * SCALE).mul(w2)),
    };
    assert_eq!(acc, direct);
    // 0.25 * 100 + 0.75 * 20 = 40, 0.25 * 50 + 0.75 * 200 = 162.5 -> 163, 0.75 * 40 = 30.
    assert_eq!(f.into_pixel(acc), Rgb { r: 40u8, g: 163, b: 30 });
}

#[test]
fn premultiplied_roundtrip_opaque_u8() {
    let f = formats::RgbaPremultiply::<u8, u8>::format();
    let s = Rgba { r: 200u8, g: 100, b: 50, a: 255 };
    let mut first = formats::RgbaPremultiply::<u8, u8>::new();
    f.add(&mut first, s, Fx::one());
    let mut second = formats::RgbaPremultiply::<u8, u8>::new();
    formats::RgbaPremultiply::<u8, u8>::add_acc(&mut second, first, Fx::one());
    assert_eq!(f.into_pixel(second), s);
}

#[test]
fn premultiplied_roundtrip_opaque_u16() {
    let f = formats::RgbaPremultiply::<u16, u16>::format();
    let s = Rgba { r: 65535u16, g: 12345, b: 1, a: 65535 };
    let mut first = formats::RgbaPremultiply::<u16, u16>::new();
    f.add(&mut first, s, Fx::one());
    let mut second = formats::RgbaPremultiply::<u16, u16>::new();
    formats::RgbaPremultiply::<u16, u16>::add_acc(&mut second, first, Fx::one());
    assert_eq!(f.into_pixel(second), s);
}

#[test]
fn premultiplied_zero_alpha_finalizes_to_zero() {
    let f = formats::RgbaPremultiply::<u8, u8>::format();
    let acc = formats::RgbaPremultiply::<u8, u8>::new();
    assert_eq!(f.into_pixel(acc), Rgba { r: 0u8, g: 0, b: 0, a: 0 });
}

#[test]
fn premultiplied_transparent_sample_finalizes_to_zero() {
    // A fully transparent input carries no coverage: its color is suppressed.
    let f = formats::RgbaPremultiply::<u8, u8>::format();
    let mut acc = formats::RgbaPremultiply::<u8, u8>::new();
    f.add(&mut acc, Rgba { r: 250u8, g: 128, b: 3, a: 0 }, Fx::one());
    assert_eq!(f.into_pixel(acc), Rgba { r: 0u8, g: 0, b: 0, a: 0 });
}

#[test]
fn premultiplied_mixes_by_coverage() {
    // Half red at full alpha plus half anything at zero alpha: color comes
    // back undimmed because the accumulated coverage divides out.
    let f = formats::RgbaPremultiply::<u8, u8>::format();
    let mut acc = formats::RgbaPremultiply::<u8, u8>::new();
    f.add(&mut acc, Rgba { r: 200u8, g: 0, b: 0, a: 255 }, Fx::from_bits(HALF));
    f.add(&mut acc, Rgba { r: 7u8, g: 9, b: 11, a: 0 }, Fx::from_bits(HALF));
    let out = f.into_pixel(acc);
    assert_eq!(out.r, 200u8);
    assert_eq!(out.g, 0u8);
    assert_eq!(out.b, 0u8);
    // Accumulated coverage is half of full alpha: 255 * 0.5 rounds to 128.
    assert_eq!(out.a, 128u8);
}

#[test]
fn gray_matches_red_channel() {
    let w1 = Fx::from_bits(SCALE / 8);
    let w2 = Fx::from_bits(5 * (SCALE / 8));
    let cf = formats::Rgb::<u8, u8>::format();
    let gf = formats::Gray::<u8, u8>::format();
    let mut cacc = formats::Rgb::<u8, u8>::new();
    let mut gacc = formats::Gray::<u8, u8>::new();
    cf.add(&mut cacc, Rgb { r: 99u8, g: 1, b: 2 }, w1);
    cf.add(&mut cacc, Rgb { r: 180u8, g: 3, b: 4 }, w2);
    gf.add(&mut gacc, Gray { v: 99u8 }, w1);
    gf.add(&mut gacc, Gray { v: 180u8 }, w2);
    let mut cacc2 = formats::Rgb::<u8, u8>::new();
    let mut gacc2 = formats::Gray::<u8, u8>::new();
    formats::Rgb::<u8, u8>::add_acc(&mut cacc2, cacc, Fx::one());
    formats::Gray::<u8, u8>::add_acc(&mut gacc2, gacc, Fx::one());
    assert_eq!(gf.into_pixel(gacc2).v, cf.into_pixel(cacc2).r);
}

#[test]
fn half_weights_average_two_pixels() {
    // Two plain RGB pixels with weights one half each: 127.5 rounds up to 128.
    let f = formats::Rgb::<u8, u8>::format();
    let mut acc = formats::Rgb::<u8, u8>::new();
    f.add(&mut acc, Rgb { r: 255u8, g: 0, b: 0 }, Fx::from_bits(HALF));
    f.add(&mut acc, Rgb { r: 0u8, g: 255, b: 0 }, Fx::from_bits(HALF));
    assert_eq!(f.into_pixel(acc), Rgb { r: 128u8, g: 128, b: 0 });
}

#[test]
fn negative_sum_clamps_to_zero() {
    let f = formats::Rgb::<u8, u8>::format();
    let mut acc = formats::Rgb::<u8, u8>::new();
    f.add(&mut acc, Rgb { r: 100u8, g: 100, b: 100 }, Fx::from_bits(-SCALE));
    assert_eq!(f.into_pixel(acc), Rgb { r: 0u8, g: 0, b: 0 });
}

#[test]
fn overshoot_clamps_to_max() {
    let f = formats::Rgb::<u8, u8>::format();
    let mut acc = formats::Rgb::<u8, u8>::new();
    f.add(&mut acc, Rgb { r: 200u8, g: 3, b: 0 }, Fx::from_bits(2 * SCALE));
    assert_eq!(f.into_pixel(acc), Rgb { r: 255u8, g: 6, b: 0 });
}

#[test]
fn internal_precision_output_passes_through() {
    // With the internal scalar as output representation, finalization is the
    // identity on the accumulator.
    let f = formats::Gray::<Fx, u8>::format();
    let mut acc = formats::Gray::<Fx, u8>::new();
    f.add(&mut acc, Gray { v: 51u8 }, Fx::from_bits(HALF));
    let out = f.into_pixel(acc);
    assert_eq!(out.v.to_bits(), 51 * SCALE / 2);
}

#[test]
fn premultiplied_negative_coverage_finalizes_to_zero() {
    // A negative filter lobe can drive accumulated coverage below zero; the
    // fallback forces the all-zero sample rather than dividing by it.
    let f = formats::RgbaPremultiply::<u8, u8>::format();
    let mut acc = formats::RgbaPremultiply::<u8, u8>::new();
    f.add(&mut acc, Rgba { r: 10u8, g: 20, b: 30, a: 255 }, Fx::from_bits(-SCALE));
    assert!(acc.a.to_bits() < 0);
    assert_eq!(f.into_pixel(acc), Rgba { r: 0u8, g: 0, b: 0, a: 0 });
}

#[test]
fn rgba_alpha_accumulates_independently() {
    let f = formats::Rgba::<u8, u8>::format();
    let mut acc = formats::Rgba::<u8, u8>::new();
    f.add(&mut acc, Rgba { r: 0u8, g: 0, b: 0, a: 255 }, Fx::from_bits(HALF));
    f.add(&mut acc, Rgba { r: 255u8, g: 0, b: 0, a: 0 }, Fx::from_bits(HALF));
    // Unlike the premultiplied variant, the transparent red pixel still
    // contributes color: 255 * 0.5 rounds to 128, and so does the alpha.
    assert_eq!(f.into_pixel(acc), Rgba { r: 128u8, g: 0, b: 0, a: 128 });
}

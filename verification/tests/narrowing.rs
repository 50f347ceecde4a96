use pixel_acc::convert::ToFx;
use pixel_acc::fx::{Fx, HALF, SCALE};

#[test]
fn round_half_goes_up_u8() {
    // 254.5 rounds up to 255, not to the nearest even value.
    let v = Fx::from_bits(254 * SCALE + HALF);
    assert_eq!(u8::from_fx(v), 255u8);
}

#[test]
fn round_below_half_goes_down_u8() {
    // 254.49... truncates to 254.
    let v = Fx::from_bits(254 * SCALE + HALF - 1);
    assert_eq!(u8::from_fx(v), 254u8);
}

#[test]
fn round_half_goes_up_u16() {
    let v = Fx::from_bits(254 * SCALE + HALF);
    assert_eq!(u16::from_fx(v), 255u16);
    let top = Fx::from_bits(65534 * SCALE + HALF);
    assert_eq!(u16::from_fx(top), 65535u16);
}

#[test]
fn narrowing_clamps_to_range_u8() {
    assert_eq!(u8::from_fx(Fx::from_bits(-5 * SCALE)), 0u8);
    assert_eq!(u8::from_fx(Fx::from_bits(1000 * SCALE)), 255u8);
    assert_eq!(u8::from_fx(Fx::from_bits(i64::MAX)), 255u8);
    assert_eq!(u8::from_fx(Fx::from_bits(i64::MIN)), 0u8);
}

#[test]
fn widening_is_exact() {
    assert_eq!(255u8.to_fx().to_bits(), 255 * SCALE);
    assert_eq!(65535u16.to_fx().to_bits(), 65535 * SCALE);
    assert_eq!(0u8.to_fx().to_bits(), 0);
}

#[test]
fn widen_narrow_roundtrip_all_u8() {
    for v in 0..=255u8 {
        assert_eq!(u8::from_fx(v.to_fx()), v);
    }
}

#[test]
fn internal_scalar_converts_by_identity() {
    let v = Fx::from_bits(-12345678901);
    assert_eq!(Fx::from_fx(v), v);
    assert_eq!(v.to_fx(), v);
}

#[test]
fn addition_saturates() {
    let top = Fx::from_bits(i64::MAX);
    assert_eq!(top.add(Fx::one()).to_bits(), i64::MAX);
    let bottom = Fx::from_bits(i64::MIN);
    assert_eq!(bottom.add(Fx::from_bits(-1)).to_bits(), i64::MIN);
}

#[test]
fn multiplication_rescales() {
    let three_halves = Fx::from_bits(SCALE + HALF);
    let four = Fx::from_bits(4 * SCALE);
    assert_eq!(three_halves.mul(four).to_bits(), 6 * SCALE);
    assert_eq!(four.mul(Fx::zero()).to_bits(), 0);
    assert_eq!(four.mul(Fx::one()), four);
}

#[test]
fn multiplication_saturates() {
    let big = Fx::from_bits(i64::MAX);
    assert_eq!(big.mul(big).to_bits(), i64::MAX);
    assert_eq!(big.mul(Fx::from_bits(i64::MIN)).to_bits(), i64::MIN);
}

#[test]
fn division_rescales() {
    let three = Fx::from_bits(3 * SCALE);
    let two = Fx::from_bits(2 * SCALE);
    assert_eq!(three.div(two).to_bits(), SCALE + HALF);
    let minus_three = Fx::from_bits(-3 * SCALE);
    // Truncation toward zero: -1.5 keeps its fractional bits here too.
    assert_eq!(minus_three.div(two).to_bits(), -(SCALE + HALF));
}

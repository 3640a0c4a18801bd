use tamaureus::ieee::{Double, Single, INFINITY_BITS, ONE_BITS, SIGN_BIT};

fn single(value: f32) -> Single {
    Single::from_bits(value.to_bits())
}

fn number(single: Single) -> f32 {
    f32::from_bits(single.to_bits())
}

#[test]
fn bits_round_trip() {
    assert_eq!(Single::from_bits(0x3f00_0000).to_bits(), 0x3f00_0000);
    assert_eq!(number(single(0.25)), 0.25);
    assert_eq!(Double::from_bits(180.0f64.to_bits()).to_bits(), 180.0f64.to_bits());
    assert_eq!(Single::zero().to_bits(), 0);
    assert_eq!(Single::one().to_bits(), 1.0f32.to_bits());
    assert_eq!(Double::zero().to_bits(), 0.0f64.to_bits());
    assert_eq!(ONE_BITS, 1.0f32.to_bits());
    assert_eq!(INFINITY_BITS, f32::INFINITY.to_bits());
    assert_eq!(SIGN_BIT, (-0.0f32).to_bits());
}

#[test]
fn clamp_unit_keeps_levels_inside() {
    assert_eq!(number(single(0.0).clamp_unit()), 0.0);
    assert_eq!(number(single(0.5).clamp_unit()), 0.5);
    assert_eq!(number(single(1.0).clamp_unit()), 1.0);
    assert_eq!(single(0.3337).clamp_unit(), single(0.3337));
    assert_eq!(single(f32::MIN_POSITIVE).clamp_unit(), single(f32::MIN_POSITIVE));
    assert_eq!(Single::from_bits(1).clamp_unit(), Single::from_bits(1));
}

#[test]
fn clamp_unit_cuts_levels_outside() {
    assert_eq!(single(1.5).clamp_unit(), single(1.0));
    assert_eq!(single(f32::MAX).clamp_unit(), single(1.0));
    assert_eq!(Single::from_bits(ONE_BITS + 1).clamp_unit(), single(1.0));
    assert_eq!(single(-0.3).clamp_unit(), single(0.0));
    assert_eq!(single(f32::MIN).clamp_unit(), single(0.0));
    assert_eq!(Single::from_bits(SIGN_BIT + 1).clamp_unit(), single(0.0));
}

#[test]
fn clamp_unit_on_special_patterns() {
    assert_eq!(single(f32::INFINITY).clamp_unit(), single(1.0));
    assert_eq!(single(f32::NEG_INFINITY).clamp_unit(), single(0.0));
    assert_eq!(single(f32::NAN).clamp_unit(), single(0.0));
    assert_eq!(Single::from_bits(0xffc0_0001).clamp_unit(), single(0.0));
    assert_eq!(single(-0.0).clamp_unit(), single(-0.0));
    assert_eq!(number(single(-0.0).clamp_unit()), 0.0);
}

#[test]
fn clamp_unit_agrees_with_float_clamp() {
    let mut bits: u32 = 0;
    loop {
        let value = f32::from_bits(bits);
        if !value.is_nan() {
            let expected = value.clamp(0.0, 1.0);
            assert_eq!(Single::from_bits(bits).clamp_unit().to_bits(), expected.to_bits());
        }
        match bits.checked_add(40_009) {
            Some(next) => bits = next,
            None => break,
        }
    }
}

#[test]
fn clamp_unit_is_idempotent() {
    for value in [-2.0f32, -0.0, 0.0, 0.1, 1.0, 7.5, f32::INFINITY, f32::NAN] {
        let once = single(value).clamp_unit();
        assert_eq!(once.clamp_unit(), once);
        let shown = number(once);
        assert!((0.0..=1.0).contains(&shown));
    }
}

#[test]
fn clamp_non_negative_keeps_and_cuts() {
    assert_eq!(single(12.5).clamp_non_negative(), single(12.5));
    assert_eq!(single(0.0).clamp_non_negative(), single(0.0));
    assert_eq!(single(-0.0).clamp_non_negative(), single(-0.0));
    assert_eq!(single(-3.0).clamp_non_negative(), single(0.0));
    assert_eq!(single(f32::NEG_INFINITY).clamp_non_negative(), single(0.0));
    assert_eq!(single(f32::INFINITY).clamp_non_negative(), single(f32::INFINITY));
    assert_eq!(single(f32::NAN).clamp_non_negative(), single(0.0));
    assert_eq!(single(f32::MAX).clamp_non_negative(), single(f32::MAX));
}

#[test]
fn clamp_non_negative_agrees_with_float_max() {
    let mut bits: u32 = 0;
    loop {
        let value = f32::from_bits(bits);
        let got = number(Single::from_bits(bits).clamp_non_negative());
        assert_eq!(got, value.max(0.0));
        match bits.checked_add(50_021) {
            Some(next) => bits = next,
            None => break,
        }
    }
}

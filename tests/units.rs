use isopod::util::units::{kHz, mHz, ms, us, Frequency, Hz, Period, Sample, SAMPLE_NORM};

#[test]
fn mhz_conversions() {
    assert_eq!(mHz(1).to_mHz(), mHz(1));
    assert_eq!(mHz(1_000).to_Hz(), Hz(1));
    assert_eq!(mHz(1_000_000).to_kHz(), kHz(1));
    assert_eq!(mHz(1_000).to_us(), us(1_000_000));
    assert_eq!(mHz(1_000).to_ms(), ms(1_000));
}

#[test]
fn hz_conversions() {
    assert_eq!(Hz(1).to_mHz(), mHz(1_000));
    assert_eq!(Hz(1).to_Hz(), Hz(1));
    assert_eq!(Hz(1_000).to_kHz(), kHz(1));
    assert_eq!(Hz(1).to_us(), us(1_000_000));
    assert_eq!(Hz(1).to_ms(), ms(1_000));
}

#[test]
fn khz_conversions() {
    assert_eq!(kHz(1).to_mHz(), mHz(1_000_000));
    assert_eq!(kHz(1).to_Hz(), Hz(1_000));
    assert_eq!(kHz(1).to_kHz(), kHz(1));
    assert_eq!(kHz(1).to_us(), us(1_000));
    assert_eq!(kHz(1).to_ms(), ms(1));
}

#[test]
fn ms_conversions() {
    assert_eq!(ms(1_000_000).to_mHz(), mHz(1));
    assert_eq!(ms(1_000).to_Hz(), Hz(1));
    assert_eq!(ms(1).to_kHz(), kHz(1));
    assert_eq!(ms(1).to_us(), us(1_000));
    assert_eq!(ms(1).to_ms(), ms(1));
}

#[test]
fn us_conversions() {
    assert_eq!(us(1_000_000).to_mHz(), mHz(1_000));
    assert_eq!(us(1_000).to_Hz(), Hz(1_000));
    assert_eq!(us(1).to_kHz(), kHz(1_000));
    assert_eq!(us(1).to_us(), us(1));
    assert_eq!(us(1_000).to_ms(), ms(1));
}

#[test]
fn period_conversions_round_down() {
    assert_eq!(mHz(3).to_us(), us(333_333_333));
    assert_eq!(Hz(3).to_ms(), ms(333));
    assert_eq!(ms(3).to_mHz(), mHz(333_333));
    assert_eq!(kHz(2).to_ms(), ms(0));
    assert_eq!(us(1_999).to_ms(), ms(1));
}

#[test]
fn hz_mhz_round_trip() {
    for x in [0_u32, 1, 440, 44_100, 4_294_967] {
        assert_eq!(Hz(x).to_mHz().to_Hz(), Hz(x));
    }
}

#[test]
fn multiply_normed_examples() {
    assert_eq!(Sample(100).multiply_normed(Sample((SAMPLE_NORM / 2) as i16)), Sample(50));
    assert_eq!(Sample(100).multiply_normed(Sample(i16::MAX)), Sample(99));
    // rounds toward zero
    assert_eq!(Sample(-100).multiply_normed(Sample(i16::MAX)), Sample(-99));
    // the one quotient that does not fit saturates
    assert_eq!(Sample(i16::MIN).multiply_normed(Sample(i16::MIN)), Sample(i16::MAX));
    assert_eq!(Sample(i16::MIN).multiply_normed(Sample(i16::MAX)), Sample(-32767));
}

#[test]
fn saturating_add_examples() {
    assert_eq!(Sample(i16::MAX - 13).saturating_add(Sample(200)), Sample(i16::MAX));
    assert_eq!(Sample(i16::MIN + 13).saturating_add(Sample(-200)), Sample(i16::MIN));
    assert_eq!(Sample(14).saturating_add(Sample(42)), Sample(56));
}

#[test]
fn saturating_mul_examples() {
    assert_eq!(Sample(i16::MAX).saturating_mul(Sample(3)), Sample(i16::MAX));
    assert_eq!(Sample(i16::MIN).saturating_mul(Sample(4)), Sample(i16::MIN));
    assert_eq!(Sample(4).saturating_mul(Sample(-5)), Sample(-20));
    assert_eq!(Sample(i16::MIN).saturating_mul(Sample(i16::MIN)), Sample(i16::MAX));
    assert_eq!(Sample(i16::MIN).saturating_mul(Sample(-1)), Sample(i16::MAX));
}

#[test]
fn saturating_ops_stay_in_range_at_extremes() {
    let extremes = [i16::MIN, -1, 0, 1, i16::MAX];
    for &a in extremes.iter() {
        for &b in extremes.iter() {
            let s = Sample(a).saturating_add(Sample(b)).0 as i32;
            assert_eq!(s, (a as i32 + b as i32).clamp(-32768, 32767));
            let p = Sample(a).saturating_mul(Sample(b)).0 as i32;
            assert_eq!(p, (a as i32 * b as i32).clamp(-32768, 32767));
        }
    }
}

#[test]
fn is_clipping_examples() {
    assert_eq!(Sample(i16::MAX).is_clipping(), true);
    assert_eq!(Sample(i16::MIN).is_clipping(), true);
    assert_eq!(Sample(i16::MAX - 1).is_clipping(), false);
    assert_eq!(Sample(i16::MIN + 1).is_clipping(), false);
    assert_eq!(Sample(0).is_clipping(), false);
}

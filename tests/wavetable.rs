use isopod::osc::luts::{EXP_I16, SINE_I16};
use isopod::osc::wavetable::{ExpDecay, SineOscillator, WavetableOscillator};
use isopod::util::units::{mHz, ms, Hz};

#[test]
fn test_wavetable_oscillator() {
    let mut osc = WavetableOscillator::new();
    osc.set_wavetable(&SINE_I16);
    osc.set_freq(Hz(2));
    osc.set_sample_rate(Hz(100));
    osc.set_repeat(false);
    osc.start();
    for x in 0..110 {
        let _y = osc._next();
        match _y {
            Some(y) => println!("{}: {}\n", x, (y as f64) / (i16::MAX as f64)),
            None => {
                println!("Generator stopped at {}", x);
                break;
            }
        }
    }
}

#[test]
fn test_exp_decay() {
    let mut decay = ExpDecay::new();
    decay.set_sample_rate(Hz(1000));
    decay.set_decay_ms(ms(10));
    decay.set_repeat(false);
    decay.start();
    for x in 0..110 {
        let _y = decay._next();
        match _y {
            Some(y) => println!("{}: {}\n", x, (y as f64) / (i16::MAX as f64)),
            None => {
                println!("Generator stopped at {}", x);
                break;
            }
        }
    }
}

fn count_samples(osc: &mut WavetableOscillator, limit: usize) -> usize {
    let mut n = 0;
    while n < limit && osc._next().is_some() {
        n += 1;
    }
    n
}

#[test]
fn one_shot_emits_one_cycle() {
    let mut osc = WavetableOscillator::new();
    osc.set_wavetable(&SINE_I16);
    osc.set_freq(Hz(2));
    osc.set_sample_rate(Hz(100));
    osc.set_repeat(false);
    osc.reset_and_start();
    let mut first = Vec::new();
    while let Some(y) = osc._next() {
        first.push(y);
        assert!(first.len() <= 50);
    }
    assert_eq!(first.len(), 50);
    assert!(!osc.is_running());
    for _ in 0..500 {
        assert_eq!(osc._next(), None);
    }
    osc.reset_and_start();
    let again: Vec<i16> = (0..50).map(|_| osc._next().unwrap()).collect();
    assert_eq!(again, first);
    assert_eq!(osc._next(), None);
    assert_eq!(count_samples(&mut osc, 1000), 0);
}

#[test]
fn one_shot_first_samples() {
    let mut osc = WavetableOscillator::new();
    osc.set_wavetable(&SINE_I16);
    osc.set_freq(Hz(2));
    osc.set_sample_rate(Hz(100));
    osc.set_repeat(false);
    osc.start();
    // the increment is 20971 of 2^20 per sample: indices 5, 10, 15
    assert_eq!(osc._next(), Some(SINE_I16[5]));
    assert_eq!(osc._next(), Some(SINE_I16[10]));
    assert_eq!(osc._next(), Some(SINE_I16[15]));
}

#[test]
fn stopped_generator_emits_nothing() {
    let mut osc = SineOscillator::new();
    assert!(!osc.is_running());
    assert_eq!(osc._next(), None);
    osc.start();
    assert!(osc._next().is_some());
    osc.stop();
    assert_eq!(osc._next(), None);
}

#[test]
fn looping_never_stops_and_repeats() {
    let mut osc = SineOscillator::new();
    // 1048.576 Hz and 16.384 Hz: the increment is 2^14, a cycle is 64 samples
    osc.set_msample_rate(mHz(1_048_576));
    osc.set_mfreq(mHz(16_384));
    osc.reset_and_start();
    let first: Vec<i16> = (0..64).map(|_| osc._next().unwrap()).collect();
    for _ in 0..10 {
        let next: Vec<i16> = (0..64).map(|_| osc._next().unwrap()).collect();
        assert_eq!(next, first);
    }
    assert!(osc.is_running());
    assert_eq!(first[63], SINE_I16[0]);
    assert_eq!(first[0], SINE_I16[4]);
}

#[test]
fn zero_frequency_holds_the_index() {
    let mut osc = SineOscillator::new();
    osc.set_sample_rate(Hz(100));
    osc.set_freq(Hz(2));
    osc.start();
    osc._next();
    osc._next();
    osc.set_mfreq(mHz(0));
    for _ in 0..100 {
        assert_eq!(osc._next(), Some(SINE_I16[10]));
    }
}

#[test]
fn zero_sample_rate_is_rejected() {
    let mut osc = SineOscillator::new();
    osc.set_sample_rate(Hz(100));
    osc.set_freq(Hz(2));
    osc.set_sample_rate(Hz(0));
    osc.set_msample_rate(mHz(0));
    osc.start();
    assert_eq!(osc._next(), Some(SINE_I16[5]));
}

#[test]
fn empty_table_emits_nothing() {
    let mut osc = WavetableOscillator::new();
    osc.start();
    assert_eq!(osc._next(), None);
    assert!(osc.is_running());
}

#[test]
fn frequency_above_sample_rate_aliases() {
    let mut osc = SineOscillator::new();
    osc.set_sample_rate(Hz(100));
    osc.set_freq(Hz(300));
    osc.start();
    // the increment is 3145727, one short of three cycles: the phase steps
    // back by one each sample
    for _ in 0..4096 {
        assert_eq!(osc._next(), Some(SINE_I16[255]));
    }
    assert_eq!(osc._next(), Some(SINE_I16[254]));
    assert!(osc.is_running());
}

#[test]
fn one_shot_above_sample_rate_stops_at_once() {
    let mut osc = SineOscillator::new();
    osc.set_sample_rate(Hz(100));
    osc.set_freq(Hz(300));
    osc.set_repeat(false);
    osc.start();
    assert_eq!(osc._next(), None);
    assert!(!osc.is_running());
}

#[test]
fn exp_decay_runs_once() {
    let mut decay = ExpDecay::new();
    decay.set_sample_rate(Hz(1000));
    decay.set_decay_ms(ms(10));
    decay.start();
    // 80 ms per pass at 1000 Hz; the increment is 13107 of 2^20
    assert_eq!(decay._next(), Some(EXP_I16[3]));
    let mut n = 1;
    while decay._next().is_some() {
        n += 1;
    }
    assert_eq!(n, 80);
    assert!(!decay.is_running());
}

#[test]
fn exp_decay_period() {
    let mut decay = ExpDecay::new();
    decay.set_sample_rate(Hz(1000));
    decay.set_period_ms(ms(10));
    decay.start();
    let mut n = 0;
    while decay._next().is_some() {
        n += 1;
    }
    // 104857 of 2^20 per sample
    assert_eq!(n, 10);
}

#[test]
fn sample_rate_round_trip() {
    let mut osc = WavetableOscillator::new();
    assert_eq!(osc.get_sample_rate(), Hz(44_100));
    osc.set_msample_rate(mHz(48_000_500));
    assert_eq!(osc.get_sample_rate(), Hz(48_000));
}

use isopod::osc::noise::{WhiteNoise, LFSR};

#[test]
fn test_lfsr16() {
    let mut lfsr16 = LFSR::<u16>::default();
    let start = lfsr16.next();
    let mut period: u32 = 0;
    while lfsr16.next() != start {
        period += 1;
    }
    assert_eq!(period, 65534);
}

#[test]
fn test_white_noise16() {
    const N: i32 = 1_000_000;
    let mut white_noise = WhiteNoise::new();
    let mut avg = 0_i32;
    let mut min = 0_i32;
    let mut max = 0_i32;
    let mut sym = 0_i32;
    for _ in 0..N {
        let x = white_noise.next();
        match x {
            Some(x) if x > 0 => sym += 1,
            Some(x) if x < 0 => sym -= 1,
            _ => {}
        }
        if (x.unwrap() as i32) < min {
            min = x.unwrap() as i32;
        }
        if (x.unwrap() as i32) > max {
            max = x.unwrap() as i32;
        }
        avg += x.unwrap() as i32;
    }
    avg /= N;
    println!(
        "avg: {:?}, sym: {:?} of {:?}, min: {:?}, max: {:?}",
        avg, sym, N, min, max
    );
}

#[test]
fn lfsr16_first_steps() {
    let mut lfsr = LFSR::<u16>::new();
    // 0xBABE is even: a plain shift
    assert_eq!(lfsr.next(), 0x5D5F);
    // 0x5D5F is odd: shift, then the taps
    assert_eq!(lfsr.next(), 0x2EAF ^ 0xB400);
}

#[test]
fn lfsr32_first_steps() {
    let mut lfsr = LFSR::<u32>::new();
    assert_eq!(lfsr.next(), 0x657F_5D5F);
    assert_eq!(lfsr.next(), 0x32BF_AEAF ^ 0xA300_0000);
}

#[test]
fn lfsr16_never_reaches_zero() {
    let mut lfsr = LFSR::<u16>::default();
    for _ in 0..70_000 {
        assert_ne!(lfsr.next(), 0);
    }
}

#[test]
fn white_noise_sample_is_max_minus_low_bits() {
    let mut noise = WhiteNoise::new();
    // the register steps to 0x657F5D5F; 32767 - 0x5D5F
    assert_eq!(noise.next(), Some(8864));
}

#[test]
fn white_noise_seed() {
    let mut noise = WhiteNoise::new();
    noise.set_seed(1);
    // 1 is odd: the register becomes the tap mask, whose low bits are zero
    assert_eq!(noise.next(), Some(32767));
    noise.set_seed(0xFFFF_FFFE);
    // the register becomes 0x7FFFFFFF: 32767 - 65535
    assert_eq!(noise.next(), Some(-32768));
}

#[test]
fn lfsr32_no_early_repeat() {
    let mut lfsr = LFSR::<u32>::default();
    let start = lfsr.next();
    for _ in 0..1_000_000 {
        let x = lfsr.next();
        assert_ne!(x, start);
        assert_ne!(x, 0);
    }
}

use spacecraft_power::cosine::cosine_micro;

#[test]
fn cosine_at_zero_is_one() {
    assert_eq!(cosine_micro(0), 1_000_000);
}

#[test]
fn cosine_at_marked_angles() {
    // pi / 4
    assert_eq!(cosine_micro(785_398_163), 707_107);
    assert_eq!(cosine_micro(785_398_164), 707_107);
    // pi / 3
    assert_eq!(cosine_micro(1_047_197_551), 500_000);
    // pi / 2
    assert_eq!(cosine_micro(1_570_796_327), 0);
    // 2 pi / 3
    assert_eq!(cosine_micro(2_094_395_102), -500_000);
    // pi
    assert_eq!(cosine_micro(3_141_592_654), -1_000_000);
    // 3 pi / 2
    assert_eq!(cosine_micro(4_712_388_980), 0);
    // 2 pi
    assert_eq!(cosine_micro(6_283_185_307), 1_000_000);
    // 4 pi
    assert_eq!(cosine_micro(12_566_370_614), 1_000_000);
    // a thousand radians
    assert_eq!(cosine_micro(1_000_000_000_000), 562_379);
}

#[test]
fn cosine_follows_the_float_cosine() {
    let mut angle: u128 = 0;
    while angle < 20_000_000_000 {
        let value = cosine_micro(angle) as f64;
        let expected = (angle as f64 / 1e9).cos() * 1e6;
        assert!((value - expected).abs() <= 0.51);
        angle += 1_234_567;
    }
}

#[test]
fn cosine_follows_the_float_cosine_far_out() {
    let mut angle: u128 = 1_000_000_000_000_000;
    while angle < 1_000_020_000_000_000 {
        let value = cosine_micro(angle) as f64;
        let expected = (angle as f64 / 1e9).cos() * 1e6;
        assert!((value - expected).abs() <= 0.6);
        angle += 7_654_321;
    }
}

#[test]
fn cosine_stays_within_one() {
    for angle in [
        u128::MAX,
        u128::MAX - 1,
        u128::MAX / 3,
        1 << 100,
        6_283_185_307_179_586_477,
        6_283_185_307_179_586_476,
        6_283_185_307_179_586_478,
    ] {
        let value = cosine_micro(angle);
        assert!(-1_000_000 <= value && value <= 1_000_000);
    }
    assert_eq!(cosine_micro(u128::MAX), -699_331);
}

#[test]
fn cosine_falls_over_the_first_half_turn() {
    let mut angle: u128 = 0;
    let mut last = cosine_micro(0);
    while angle < 3_141_592_654 {
        angle += 1_000_003;
        let value = cosine_micro(angle);
        assert!(value <= last);
        last = value;
    }
}

#[test]
fn cosine_repeats_after_a_turn() {
    let mut angle: u128 = 0;
    while angle < 6_283_185_307 {
        let here = cosine_micro(angle);
        let next_turn = cosine_micro(angle + 6_283_185_307);
        assert!((here - next_turn).abs() <= 1);
        angle += 9_999_991;
    }
}

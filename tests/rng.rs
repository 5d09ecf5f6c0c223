use rasmodius::rng::{int_overflow, MAX_INT, MIN_INT};
use rasmodius::CSRandom;

fn sample(rng: &mut CSRandom) -> f64 {
    rng.sample_raw() as f64 * (1.0 / MAX_INT as f64)
}

const CSRANDOM_TEST_VECTORS: &[(i32, [f64; 10])] = &[
    (0, [0.7262432699679598, 0.8173253595909687, 0.7680226893946634, 0.5581611914365372, 0.2060331540210327, 0.5588847946184151, 0.9060270660119257, 0.4421778733107158, 0.9775497531413798, 0.2737044576898703]),
    (1, [0.2486685841570928, 0.1107439771810286, 0.4670106798722459, 0.7716041220219825, 0.657518893786482, 0.4327826013009914, 0.3540837636003661, 0.9438622761256351, 0.1012664535554435, 0.6424555553321054]),
    (42, [0.6681064659115423, 0.1409072983734809, 0.1255182894531257, 0.5227642760252413, 0.1684342241699035, 0.2625926752866212, 0.7244083647264207, 0.5129227915373271, 0.1736511705320567, 0.7612505586637419]),
    (100, [0.9687746888812514, 0.1591871185969501, 0.6668217371529069, 0.9024542499810709, 0.3546071305659633, 0.9486654628760486, 0.7116968248559613, 0.6106181548026475, 0.3492197945477533, 0.1488142219133741]),
    (12345, [0.06674693481379511, 0.07015950887937075, 0.7747651351498278, 0.5111392687592372, 0.7974905584927139, 0.827308291023275, 0.1659587953081163, 0.7361306234896792, 0.2602163647581899, 0.5060048510814108]),
    (-1, [0.2486685841570928, 0.1107439771810286, 0.4670106798722459, 0.7716041220219825, 0.657518893786482, 0.4327826013009914, 0.3540837636003661, 0.9438622761256351, 0.1012664535554435, 0.6424555553321054]),
    (-100, [0.9687746888812514, 0.1591871185969501, 0.6668217371529069, 0.9024542499810709, 0.3546071305659633, 0.9486654628760486, 0.7116968248559613, 0.6106181548026475, 0.3492197945477533, 0.1488142219133741]),
    (-638161535, [0.1520376113020059, 0.2161759311408624, 0.717762079424114, 0.7754674371217691, 0.9253628230306147, 0.304570966542033, 0.8060969616314848, 0.02810510528651304, 0.4189238019375707, 0.7780080501819067]),
];

const CSRANDOM_NEXT_TEST_VECTORS: &[(i32, i32, [i32; 10])] = &[
    (0, 100, [72, 81, 76, 55, 20, 55, 90, 44, 97, 27]),
    (12345, 10, [0, 0, 7, 5, 7, 8, 1, 7, 2, 5]),
    (42, 1000, [668, 140, 125, 522, 168, 262, 724, 512, 173, 761]),
    (-638161535, 50, [7, 10, 35, 38, 46, 15, 40, 1, 20, 38]),
];

#[test]
fn test_int_overflow() {
    assert_eq!(int_overflow(0), 0);
    assert_eq!(int_overflow(100), 100);
    assert_eq!(int_overflow(-100), -100);
    assert_eq!(int_overflow(MAX_INT as i64), MAX_INT);
    assert_eq!(int_overflow(MIN_INT as i64), MIN_INT);
    assert_eq!(int_overflow(MAX_INT as i64 + 1), MIN_INT);
    assert_eq!(int_overflow(MIN_INT as i64 - 1), MAX_INT);
}

#[test]
fn test_csrandom_seed_0() {
    let mut rng = CSRandom::new(0);
    let s = sample(&mut rng);
    assert!((s - 0.7262432699679598).abs() < 1e-10, "Expected ~0.7262432699679598, got {}", s);
}

#[test]
fn test_csrandom_multiple_samples() {
    let mut rng = CSRandom::new(0);
    let _ = sample(&mut rng);
    let s2 = sample(&mut rng);
    assert!((s2 - 0.8173253595909687).abs() < 1e-10, "Expected ~0.8173253595909687, got {}", s2);
}

#[test]
fn test_csrandom_seed_linear_property() {
    let base = sample(&mut CSRandom::new(0));
    let offset = 0.5224253141891330;
    for i in 1..10 {
        let mut rng = CSRandom::new(i);
        let expected = (base + i as f64 * offset) % 1.0;
        let actual = sample(&mut rng);
        assert!((actual - expected).abs() < 1e-10, "Seed {}: expected {}, got {}", i, expected, actual);
    }
}

#[test]
fn test_csrandom_negative_seed() {
    let mut rng = CSRandom::new(-638161535);
    let s = sample(&mut rng);
    assert!(s >= 0.0 && s < 1.0);
}

#[test]
fn test_csrandom_next_range() {
    let mut rng = CSRandom::new(12345);
    for _ in 0..100 {
        let val = rng.next_range(5, 15);
        assert!(val >= 5 && val < 15, "Value {} out of range [5, 15)", val);
    }
}

#[test]
fn validate_csrandom_against_python() {
    for (seed, expected_samples) in CSRANDOM_TEST_VECTORS {
        let mut rng = CSRandom::new(*seed);
        for (i, expected) in expected_samples.iter().enumerate() {
            let actual = sample(&mut rng);
            let diff = (actual - expected).abs();
            assert!(
                diff < 1e-8,
                "CSRandom({}): sample {} mismatch\n  expected: {}\n  actual:   {}\n  diff:     {}",
                seed, i, expected, actual, diff
            );
        }
    }
}

#[test]
fn validate_csrandom_next_against_python() {
    for (seed, max_val, expected_nexts) in CSRANDOM_NEXT_TEST_VECTORS {
        let mut rng = CSRandom::new(*seed);
        for (i, expected) in expected_nexts.iter().enumerate() {
            let actual = rng.next_max(*max_val);
            assert_eq!(
                actual, *expected,
                "CSRandom({}).Next({}): call {} mismatch\n  expected: {}\n  actual:   {}",
                seed, max_val, i, expected, actual
            );
        }
    }
}

#[test]
fn validate_negative_seed_equivalence() {
    let mut rng_pos = CSRandom::new(1);
    let mut rng_neg = CSRandom::new(-1);
    for i in 0..10 {
        let pos = sample(&mut rng_pos);
        let neg = sample(&mut rng_neg);
        assert!((pos - neg).abs() < 1e-15, "Seed 1 vs -1: sample {} mismatch: {} vs {}", i, pos, neg);
    }
    let mut rng_pos = CSRandom::new(100);
    let mut rng_neg = CSRandom::new(-100);
    for i in 0..10 {
        let pos = sample(&mut rng_pos);
        let neg = sample(&mut rng_neg);
        assert!((pos - neg).abs() < 1e-15, "Seed 100 vs -100: sample {} mismatch: {} vs {}", i, pos, neg);
    }
}

#[test]
fn validate_max_int_seed() {
    let mut rng = CSRandom::new(2147483647);
    for i in 0..100 {
        let s = sample(&mut rng);
        assert!(s >= 0.0 && s < 1.0, "Sample {} out of [0, 1) range: {}", i, s);
    }
}

#[test]
fn validate_min_int_seed() {
    let mut rng = CSRandom::new(-2147483648);
    for _ in 0..100 {
        let s = sample(&mut rng);
        assert!(s >= 0.0 && s < 1.0, "Sample out of [0, 1) range: {}", s);
    }
}

#[test]
fn validate_extended_sequence() {
    let mut rng = CSRandom::new(42);
    for i in 0..1000 {
        let s = sample(&mut rng);
        assert!(s >= 0.0 && s < 1.0, "Sample {} out of [0, 1) range: {}", i, s);
    }
}

#[test]
fn ten_thousand_samples_stay_in_unit_interval() {
    for seed in [0, 7, -7, 12345, i32::MAX, i32::MIN] {
        let mut rng = CSRandom::new(seed);
        for _ in 0..10_000 {
            let raw = rng.sample_raw();
            assert!(raw >= 0 && raw < MAX_INT);
        }
    }
}

#[test]
fn wide_ranges_stay_in_bounds() {
    let mut rng = CSRandom::new(99);
    for _ in 0..2000 {
        let v = rng.next_range(i32::MIN, i32::MAX);
        assert!(v < i32::MAX);
        let w = rng.next_range(-5, 2147483000);
        assert!(w >= -5 && w < 2147483000);
    }
    assert_eq!(rng.next_range(7, 7), 7);
}

#[test]
fn next_dispatches_on_its_bounds() {
    let mut a = CSRandom::new(42);
    let mut b = CSRandom::new(42);
    assert_eq!(a.next(None, None), b.sample_raw());
    assert_eq!(a.next(Some(1000), None), b.next_max(1000));
    assert_eq!(a.next(Some(3), Some(9)), b.next_range(3, 9));
    let mut c = CSRandom::new(42);
    assert_eq!(c.next_max(1000), 668);
}

#[test]
fn test_csrandom_seed6() {
    let mut rng = CSRandom::new(6);
    for _ in 0..10 {
        let roll = rng.next_range(2, 790);
        println!("  next_range(2,790) = {}", roll);
        assert!(roll >= 2 && roll < 790);
        rng.next_range(1, 11);
        rng.next_range(3, 6);
        rng.sample_raw();
    }
}

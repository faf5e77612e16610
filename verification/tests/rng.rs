use simple_rng::{Algorithm, RngError, RNG};

#[test]
/// next() should change the RNG's seed
fn test_next_changes_seed() {
    let mut rng = RNG::new(123);
    let old_seed = rng.seed;
    let _ = rng.next();
    assert_ne!(rng.seed, old_seed);
}

#[test]
/// gen_range returns a value within the specified bounds
fn test_gen_range_bounds() {
    let mut rng = RNG::new(42);
    let val = rng.gen_range(10, 20).unwrap();
    assert!(val >= 10 && val <= 20);
}

#[test]
/// gen_bool produces both true and false values over many samples
fn test_gen_bool_distribution() {
    let mut rng = RNG::new(1);
    let mut trues = 0;
    let mut falses = 0;
    for _ in 0..1000 {
        if rng.gen_bool() {
            trues += 1;
        } else {
            falses += 1;
        }
    }
    assert!(trues > 0 && falses > 0);
}

#[test]
fn test_shuffle() {
    let mut rng = RNG::new(123);
    let mut v = vec![1, 2, 3, 4];
    while v.len() > 1 {
        let idx = rng.gen_range(0, v.len() as u64 - 1).unwrap() as usize;
        v.remove(idx);
    }
    if !v.is_empty() {
        v.remove(0);
    }
    assert!(v.is_empty());
}

#[test]
fn test_lcg_exact_values() {
    assert_eq!(simple_rng::lcg(0), 1);
    assert_eq!(simple_rng::lcg(1), 6364136223846793006);
    assert_eq!(simple_rng::lcg(123), 8025504437354371744);
}

#[test]
fn test_pcg_exact_values() {
    assert_eq!(simple_rng::pcg(123), 2006353634000855114);
    assert_eq!(simple_rng::pcg(2006353634000855114), 2305843010016759125);
}

#[test]
fn test_determinism_lcg() {
    let mut a = RNG::new(123);
    let mut b = RNG::new(123);
    assert_eq!(a.next(), 8025504437354371744);
    let mut seq_a = Vec::new();
    let mut seq_b = Vec::new();
    seq_a.push(8025504437354371744u64);
    for _ in 0..9 {
        seq_a.push(a.next());
    }
    for _ in 0..10 {
        seq_b.push(b.next());
    }
    assert_eq!(seq_a, seq_b);
}

#[test]
fn test_determinism_pcg() {
    let mut a = RNG::new(123);
    let mut b = RNG::new(123);
    a.set_algorithm(Algorithm::Pcg);
    b.set_algorithm(Algorithm::Pcg);
    assert_eq!(a.next(), 2006353634000855114);
    assert_eq!(a.next(), 2305843010016759125);
    assert_eq!(b.next(), 2006353634000855114);
    assert_eq!(b.next(), 2305843010016759125);
}

#[test]
fn test_state_changes_over_many_seeds() {
    for seed in 0..1000u64 {
        let mut rng = RNG::new(seed * 982451653 + 7);
        let before = rng.seed;
        let _ = rng.next();
        assert_ne!(rng.seed, before);
    }
}

#[test]
fn test_set_algorithm_keeps_state() {
    let mut rng = RNG::new(77);
    rng.set_algorithm(Algorithm::Pcg);
    assert_eq!(rng.seed, 77);
    assert_eq!(rng.algorithm, Algorithm::Pcg);
    rng.set_algorithm(Algorithm::Lcg);
    assert_eq!(rng.seed, 77);
    assert_eq!(rng.algorithm, Algorithm::Lcg);
}

#[test]
fn test_from_time_default_algorithm() {
    let rng = RNG::from_time().unwrap();
    assert_eq!(rng.algorithm, Algorithm::Lcg);
}

#[test]
fn test_range_containment_small_range() {
    let mut rng = RNG::new(5);
    let mut seen = [false; 6];
    for _ in 0..10000 {
        let v = rng.gen_range(1, 6).unwrap();
        assert!(v >= 1 && v <= 6);
        seen[(v - 1) as usize] = true;
    }
    assert!(seen.iter().all(|&s| s));
}

#[test]
fn test_gen_range_exact_value() {
    let mut rng = RNG::new(42);
    assert_eq!(rng.gen_range(10, 20), Ok(11));
}

#[test]
fn test_gen_range_error_contract() {
    let mut rng = RNG::new(9);
    assert_eq!(rng.gen_range(5, 5), Err(RngError::InvalidArgument));
    assert_eq!(rng.gen_range(10, 1), Err(RngError::InvalidArgument));
    assert_eq!(rng.seed, 9);
}

#[test]
fn test_float_scaling_bound() {
    let mut rng = RNG::new(2024);
    for _ in 0..10000 {
        let f = (rng.next() as f64) / (u64::MAX as f64 + 1.0);
        assert!(f >= 0.0 && f < 1.0);
    }
}

#[test]
fn test_gen_bool_exact_values() {
    let mut rng = RNG::new(1);
    assert!(!rng.gen_bool());
    assert!(rng.gen_bool());
}

#[test]
fn test_gen_unsigned_truncation() {
    let mut rng = RNG::new(7);
    assert_eq!(rng.gen_unsigned(8), Ok(60));
    let mut rng = RNG::new(1);
    assert_eq!(rng.gen_unsigned(16), Ok(32558));
    let mut rng = RNG::new(1);
    assert_eq!(rng.gen_unsigned(32), Ok(1284865838));
    let mut rng = RNG::new(1);
    assert_eq!(rng.gen_unsigned(64), Ok(6364136223846793006));
    let mut rng = RNG::new(31);
    for _ in 0..1000 {
        let v = rng.gen_unsigned(8).unwrap();
        assert!(v <= 255);
    }
}

#[test]
fn test_gen_unsigned_invalid_width() {
    let mut rng = RNG::new(3);
    assert_eq!(rng.gen_unsigned(24), Err(RngError::InvalidArgument));
    assert_eq!(rng.gen_unsigned(0), Err(RngError::InvalidArgument));
    assert_eq!(rng.seed, 3);
}

#[test]
fn test_gen_signed_truncation() {
    let mut rng = RNG::new(7);
    assert_eq!(rng.gen_signed(8), Ok(60));
    let mut rng = RNG::new(1);
    assert_eq!(rng.gen_signed(16), Ok(32558));
    let mut rng = RNG::new(1);
    assert_eq!(rng.gen_signed(32), Ok(1284865838));
    let mut rng = RNG::new(1);
    assert_eq!(rng.gen_signed(64), Ok(6364136223846793006));
    let mut rng = RNG::new(31);
    for _ in 0..1000 {
        let v = rng.gen_signed(8).unwrap();
        assert!(v >= -128 && v <= 127);
    }
}

#[test]
fn test_gen_signed_invalid_width() {
    let mut rng = RNG::new(3);
    assert_eq!(rng.gen_signed(24), Err(RngError::InvalidArgument));
    assert_eq!(rng.seed, 3);
}

#[test]
fn test_pick_random_empty() {
    let empty: Vec<u32> = Vec::new();
    for seed in [0u64, 1, 42, u64::MAX] {
        let mut rng = RNG::new(seed);
        assert!(rng.pick_random(&empty).is_none());
        assert_eq!(rng.seed, seed);
    }
}

#[test]
fn test_pick_random_basic() {
    let mut rng = RNG::new(9);
    let v = vec![10, 20, 30, 40];
    assert_eq!(rng.pick_random(&v), Some(&30));
}

#[test]
fn test_drain_by_gen_range() {
    let mut rng = RNG::new(123);
    let mut v = vec!["a", "b", "c", "d"];
    let mut steps = 0;
    while v.len() > 1 {
        let idx = rng.gen_range(0, v.len() as u64 - 1).unwrap() as usize;
        v.remove(idx);
        steps += 1;
    }
    v.remove(0);
    assert_eq!(steps, 3);
    assert!(v.is_empty());
}

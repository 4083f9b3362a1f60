use map_tests::prng::{
    derive_seed, hash_bytes, hash_seed, mix64, noise_bits, scaled_index, NOISE_SCALE,
};
use map_tests::settlement::{
    NOISE_BELOW_0_12, NOISE_BELOW_0_14, NOISE_BELOW_0_18, NOISE_BELOW_0_20, NOISE_BELOW_0_26,
    NOISE_BELOW_0_30, NOISE_BELOW_0_32, NOISE_BELOW_0_38, NOISE_BELOW_0_40, NOISE_BELOW_0_42,
    NOISE_BELOW_0_50, NOISE_BELOW_0_55, NOISE_BELOW_0_62, NOISE_BELOW_0_72, NOISE_BELOW_0_78,
};

fn unit(bits: u64) -> f64 {
    bits as f64 / NOISE_SCALE as f64
}

#[test]
fn seed_hashes_have_known_values() {
    assert_eq!(hash_seed(0), 0);
    assert_eq!(hash_seed(6), 1_866_927_418);
    assert_eq!(hash_seed(42), 183_590_038);
    assert_eq!(derive_seed(6, "moisture"), 769_058_810);
    assert_eq!(derive_seed(6, "river"), 2_643_075_346);
}

#[test]
fn empty_salt_gives_plain_seed_hash() {
    for seed in [0u64, 1, 6, 42, u64::MAX] {
        assert_eq!(derive_seed(seed, ""), hash_seed(seed));
    }
}

#[test]
fn salted_hash_continues_seed_hash() {
    let mut bytes = 6u64.to_le_bytes().to_vec();
    bytes.extend_from_slice(b"detail");
    assert_eq!(hash_bytes(&bytes), derive_seed(6, "detail"));
}

#[test]
fn mix64_known_values() {
    assert_eq!(mix64(0), 0);
    assert_eq!(mix64(1), 6_238_072_747_940_578_789);
    assert_eq!(mix64(42), 12_058_926_934_050_108_962);
}

#[test]
fn noise_bits_known_values() {
    assert_eq!(noise_bits(6, 41, 0), 7_470_586_806_387_868);
    assert_eq!(noise_bits(9, 2, 3), 2_044_276_192_499_366);
    assert!(noise_bits(u64::MAX, u64::MAX, u64::MAX) < NOISE_SCALE);
}

#[test]
fn consecutive_indices_are_spread() {
    let ys: Vec<f64> = (0..6).map(|i| unit(noise_bits(9, 2, i))).collect();
    let min = ys.iter().copied().fold(f64::INFINITY, f64::min);
    let max = ys.iter().copied().fold(f64::NEG_INFINITY, f64::max);
    assert!(max - min > 0.3, "y-channels should not cluster; got {ys:?}");
}

#[test]
fn scaled_index_matches_binary64_product() {
    let mut samples: Vec<u64> = (0..2000u64).map(|i| noise_bits(6, 44, i)).collect();
    samples.extend_from_slice(&[0, 1, NOISE_SCALE - 1, NOISE_SCALE / 2, NOISE_SCALE / 3]);
    for n in [1u64, 2, 3, 5, 6, 10, 33, 38, 1024] {
        for &b in &samples {
            let expect = (unit(b) * n as f64).floor() as u64;
            assert_eq!(scaled_index(b, n), expect, "bits={b} n={n}");
        }
    }
}

#[test]
fn scaled_index_rounds_like_binary64_near_the_top() {
    // (2^53 - 1) / 2^53 * 3 rounds to a double just below 3.
    assert_eq!(scaled_index(NOISE_SCALE - 1, 3), 2);
    assert_eq!(scaled_index(NOISE_SCALE - 1, 38), 37);
    assert_eq!(scaled_index(NOISE_SCALE - 1, 1024), 1023);
}

#[test]
fn thresholds_match_decimal_comparisons() {
    let table: [(u64, f64); 15] = [
        (NOISE_BELOW_0_12, 0.12),
        (NOISE_BELOW_0_14, 0.14),
        (NOISE_BELOW_0_18, 0.18),
        (NOISE_BELOW_0_20, 0.2),
        (NOISE_BELOW_0_26, 0.26),
        (NOISE_BELOW_0_30, 0.30),
        (NOISE_BELOW_0_32, 0.32),
        (NOISE_BELOW_0_38, 0.38),
        (NOISE_BELOW_0_40, 0.40),
        (NOISE_BELOW_0_42, 0.42),
        (NOISE_BELOW_0_50, 0.5),
        (NOISE_BELOW_0_55, 0.55),
        (NOISE_BELOW_0_62, 0.62),
        (NOISE_BELOW_0_72, 0.72),
        (NOISE_BELOW_0_78, 0.78),
    ];
    for (limit, c) in table {
        for b in [limit.saturating_sub(2), limit - 1, limit, limit + 1, limit + 2] {
            assert_eq!(b < limit, unit(b) < c, "limit={limit} c={c} b={b}");
        }
        for i in 0..500u64 {
            let b = noise_bits(3, 7, i);
            assert_eq!(b < limit, unit(b) < c);
        }
    }
}

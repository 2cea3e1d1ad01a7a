use quick_noise::math::random::Random;

#[test]
fn static_mix_known_words() {
    assert_eq!(Random::static_mix_u64(0), 0xe220_a839_7b1d_cdaf);
    assert_eq!(Random::static_mix_u64(1), 0x910a_2dec_8902_5cc1);
    assert_eq!(Random::static_mix_u64(u64::MAX), 0xe4d9_7177_1b65_2c20);
}

#[test]
fn new_hasher_has_seed_and_zero_channel() {
    let random = Random::new(42);
    assert_eq!(random.seed(), 42);
    assert_eq!(random.channel(), 0);
}

#[test]
fn set_channel_keeps_seed() {
    let mut random = Random::new(42);
    random.set_channel(9);
    assert_eq!(random.seed(), 42);
    assert_eq!(random.channel(), 9);
}

#[test]
fn pair_hash_known_values() {
    let random = Random::new(0);
    assert_eq!(random.mix_i32_pair(0, 0), 2_802_244_911);
    assert_eq!(random.mix_i32_pair(1, 2), 1_440_198_900);
    let mut salted = Random::new(7);
    salted.set_channel(9);
    assert_eq!(salted.mix_i32_pair(-1, -2), 2_545_143_989);
}

#[test]
fn triple_hash_known_values() {
    let random = Random::new(0);
    assert_eq!(random.mix_i32_triple(0, 0, 0), 595_752_380);
    let mut salted = Random::new(7);
    salted.set_channel(9);
    assert_eq!(salted.mix_i32_triple(-1, -2, 3), 4_098_262_899);
}

#[test]
fn pair_hash_depends_on_order_of_coordinates() {
    let random = Random::new(3);
    assert_ne!(random.mix_i32_pair(1, 2), random.mix_i32_pair(2, 1));
}

#[test]
fn channel_changes_the_mapping_without_reseeding() {
    let plain = Random::new(11);
    let mut salted = Random::new(11);
    salted.set_channel(1);
    let mut differs = false;
    for x in -4..4 {
        for y in -4..4 {
            if plain.mix_i32_pair(x, y) != salted.mix_i32_pair(x, y) {
                differs = true;
            }
        }
    }
    assert!(differs);
    salted.set_channel(0);
    for x in -4..4 {
        for y in -4..4 {
            assert_eq!(plain.mix_i32_pair(x, y), salted.mix_i32_pair(x, y));
        }
    }
}

#[test]
fn hash_is_the_same_for_the_same_inputs() {
    let first = Random::new(5);
    let second = Random::new(5);
    for x in [i32::MIN, -1, 0, 1, i32::MAX] {
        for y in [i32::MIN, -1, 0, 1, i32::MAX] {
            assert_eq!(first.mix_i32_pair(x, y), second.mix_i32_pair(x, y));
            for z in [i32::MIN, 0, i32::MAX] {
                assert_eq!(first.mix_i32_triple(x, y, z), second.mix_i32_triple(x, y, z));
            }
        }
    }
}

#[test]
fn batch_hash_equals_hash_of_each_point() {
    let mut random = Random::new(123);
    random.set_channel(456);
    let xs = [0, 1, -1, i32::MAX, i32::MIN, 17];
    let ys = [5, -5, 0, i32::MIN, i32::MAX, 17];
    let zs = [9, 8, 7, 6, 5, 4];
    let pairs = random.mix_i32_simd_pair(&xs, &ys);
    let triples = random.mix_i32_simd_triple(&xs, &ys, &zs);
    assert_eq!(pairs.len(), 6);
    assert_eq!(triples.len(), 6);
    for i in 0..6 {
        assert_eq!(pairs[i], random.mix_i32_pair(xs[i], ys[i]));
        assert_eq!(triples[i], random.mix_i32_triple(xs[i], ys[i], zs[i]));
    }
    assert!(random.mix_i32_simd_pair(&[], &[]).is_empty());
    assert_eq!(Random::new(0).mix_i32_simd_pair(&[1], &[2]), vec![1_440_198_900]);
}

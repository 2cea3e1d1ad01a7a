use quick_noise::math::random::Random;
use quick_noise::noise::perlin::constants::{gradient_3d, GRADIENTS_3D_LOOKUP};
use quick_noise::noise::perlin::generator::{DIRECTIONS_2D, DIRECTIONS_3D};
use quick_noise::perlin::{Perlin, NUM_DIRECTIONS};

#[test]
fn new_generator_keeps_seed_bits() {
    let perlin = Perlin::new(-1);
    assert_eq!(perlin.seed(), u64::MAX);
    assert_eq!(perlin.channel(), 0);
    assert_eq!(Perlin::new(12).seed(), 12);
}

#[test]
fn set_channel_keeps_generator_seed() {
    let mut perlin = Perlin::new(12);
    perlin.set_channel(77);
    assert_eq!(perlin.seed(), 12);
    assert_eq!(perlin.channel(), 77);
}

#[test]
fn plane_index_is_low_four_bits_of_hash() {
    let perlin = Perlin::new(0);
    let random = Random::new(0);
    for x in -8..8 {
        for y in -8..8 {
            let index = perlin.gradient_index_2d(x, y);
            assert_eq!(u32::from(index), random.mix_i32_pair(x, y) & 0xF);
        }
    }
    assert_eq!(perlin.gradient_index_2d(0, 0), (2_802_244_911u32 & 0xF) as u8);
}

#[test]
fn space_index_is_hash_modulo_twelve() {
    let perlin = Perlin::new(0);
    let random = Random::new(0);
    for x in -4..4 {
        for y in -4..4 {
            for z in -4..4 {
                let index = perlin.gradient_index_3d(x, y, z);
                assert_eq!(u32::from(index), random.mix_i32_triple(x, y, z) % 12);
            }
        }
    }
    assert_eq!(perlin.gradient_index_3d(0, 0, 0), (595_752_380u32 % 12) as u8);
}

#[test]
fn indices_always_name_a_table_row() {
    let mut perlin = Perlin::new(-987_654_321);
    for channel in [0u64, 1, u64::MAX] {
        perlin.set_channel(channel);
        for x in [i32::MIN, -1000, -1, 0, 1, 1000, i32::MAX] {
            for y in [i32::MIN, -1000, -1, 0, 1, 1000, i32::MAX] {
                assert!(u32::from(perlin.gradient_index_2d(x, y)) < DIRECTIONS_2D);
                for z in [i32::MIN, 0, i32::MAX] {
                    assert!(u32::from(perlin.gradient_index_3d(x, y, z)) < DIRECTIONS_3D);
                }
            }
        }
    }
}

#[test]
fn spatial_table_cycles_the_twelve_directions() {
    for index in 0..NUM_DIRECTIONS {
        let direction = gradient_3d(index);
        let row = GRADIENTS_3D_LOOKUP[index % 12];
        assert_eq!((direction.x, direction.y, direction.z), row);
    }
    let first = gradient_3d(0);
    let wrapped = gradient_3d(12);
    assert_eq!((first.x, first.y, first.z), (1, 1, 0));
    assert_eq!((wrapped.x, wrapped.y, wrapped.z), (1, 1, 0));
    let last = gradient_3d(15);
    assert_eq!((last.x, last.y, last.z), (-1, -1, 0));
    let eleventh = gradient_3d(11);
    assert_eq!((eleventh.x, eleventh.y, eleventh.z), (0, -1, -1));
}

#[test]
fn spatial_directions_are_edge_midpoints() {
    for index in 0..NUM_DIRECTIONS {
        let d = gradient_3d(index);
        let squared = i32::from(d.x) * i32::from(d.x)
            + i32::from(d.y) * i32::from(d.y)
            + i32::from(d.z) * i32::from(d.z);
        assert_eq!(squared, 2);
        let zeros = [d.x, d.y, d.z].iter().filter(|c| **c == 0).count();
        assert_eq!(zeros, 1);
    }
}

#[test]
fn batch_of_indices_equals_index_of_each_point() {
    let mut perlin = Perlin::new(31);
    perlin.set_channel(7);
    let xs = [3, 3, 3, 3];
    let ys = [-1, 0, 1, 2];
    let zs = [i32::MAX, i32::MIN, 0, 1];
    let plane = perlin.gradient_indices_2d(&xs, &ys);
    let space = perlin.gradient_indices_3d(&xs, &ys, &zs);
    assert_eq!(plane.len(), 4);
    assert_eq!(space.len(), 4);
    for i in 0..4 {
        assert_eq!(plane[i], perlin.gradient_index_2d(xs[i], ys[i]));
        assert_eq!(space[i], perlin.gradient_index_3d(xs[i], ys[i], zs[i]));
    }
}

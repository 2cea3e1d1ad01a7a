use quick_noise::emit::grayscale::HeightMap;
use quick_noise::noise::perlin::constants::{map_index, vol_index};
use quick_noise::perlin::{NoiseError, MAP_SIZE, ROW_SIZE, VOL_SIZE};

fn tile_of(seed: u8) -> [u8; 1024] {
    let mut tile = [0u8; 1024];
    for (i, sample) in tile.iter_mut().enumerate() {
        *sample = (i as u8).wrapping_mul(31).wrapping_add(seed);
    }
    tile
}

fn image(dimension: usize) -> HeightMap {
    match HeightMap::new(dimension) {
        Ok(map) => map,
        Err(_) => panic!("dimension {} was refused", dimension),
    }
}

#[test]
fn tile_sizes_agree() {
    assert_eq!(ROW_SIZE, 32);
    assert_eq!(MAP_SIZE, ROW_SIZE * ROW_SIZE);
    assert_eq!(VOL_SIZE, ROW_SIZE * ROW_SIZE * ROW_SIZE);
}

#[test]
fn tile_positions_are_row_major() {
    assert_eq!(map_index(0, 0), 0);
    assert_eq!(map_index(0, 31), 31);
    assert_eq!(map_index(1, 0), 32);
    assert_eq!(map_index(31, 31), 1023);
    assert_eq!(vol_index(0, 0, 0), 0);
    assert_eq!(vol_index(0, 1, 0), 32);
    assert_eq!(vol_index(1, 0, 0), 1024);
    assert_eq!(vol_index(3, 2, 1), 3 * 1024 + 2 * 32 + 1);
    assert_eq!(vol_index(31, 31, 31), 32767);
}

#[test]
fn new_image_is_black() {
    let map = image(3);
    assert_eq!(map.dimension(), 3);
    assert_eq!(map.pixel_dimension(), 96);
    assert_eq!(map.pixels().len(), 9 * 1024);
    assert!(map.pixels().iter().all(|p| *p == 0));
}

#[test]
fn empty_image_has_no_pixels() {
    let map = image(0);
    assert_eq!(map.pixel_dimension(), 0);
    assert!(map.pixels().is_empty());
}

#[test]
fn image_that_cannot_be_held_is_refused() {
    assert!(matches!(HeightMap::new(usize::MAX), Err(NoiseError::InvalidParameter)));
    assert!(matches!(
        HeightMap::new((u32::MAX / 32) as usize + 1),
        Err(NoiseError::InvalidParameter)
    ));
}

#[test]
fn tile_lands_at_its_block_of_pixels() {
    let mut map = image(3);
    let tile = tile_of(5);
    map.write_tile(1, 2, &tile);
    let side = 96usize;
    for row in 0..side {
        for col in 0..side {
            let pixel = map.pixels()[row * side + col];
            let inside = (32..64).contains(&row) && (64..96).contains(&col);
            if inside {
                assert_eq!(pixel, tile[(row - 32) * 32 + (col - 64)]);
            } else {
                assert_eq!(pixel, 0);
            }
        }
    }
    // the formula of the layout, for one pixel
    assert_eq!(map.pixels()[1 * 3 * 1024 + 2 * 32 + 7 * 32 * 3 + 9], tile[7 * 32 + 9]);
}

#[test]
fn tiles_do_not_overwrite_each_other() {
    let mut map = image(2);
    let tiles = [tile_of(1), tile_of(2), tile_of(3), tile_of(4)];
    map.write_tile(0, 0, &tiles[0]);
    map.write_tile(0, 1, &tiles[1]);
    map.write_tile(1, 0, &tiles[2]);
    map.write_tile(1, 1, &tiles[3]);
    let side = 64usize;
    for row in 0..side {
        for col in 0..side {
            let tile = &tiles[(row / 32) * 2 + col / 32];
            assert_eq!(map.pixels()[row * side + col], tile[(row % 32) * 32 + col % 32]);
        }
    }
    map.write_tile(0, 1, &tiles[3]);
    for row in 0..side {
        for col in 0..side {
            let which = if row < 32 && col >= 32 { 3 } else { (row / 32) * 2 + col / 32 };
            assert_eq!(map.pixels()[row * side + col], tiles[which][(row % 32) * 32 + col % 32]);
        }
    }
}

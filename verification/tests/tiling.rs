use quick_noise::perlin::NoiseError;
use quick_noise::simd::arch_simd::{
    portable_tiling, BlockTiling, SimdInfo, NUM_SIMD_REG, SIMD_WIDTH,
};

fn tiling(simd_width: usize, num_simd_reg: usize) -> BlockTiling {
    match BlockTiling::new(simd_width, 4, num_simd_reg) {
        Ok(tiling) => tiling,
        Err(_) => panic!("width {} with {} registers was refused", simd_width, num_simd_reg),
    }
}

#[test]
fn portable_target_has_one_lane() {
    assert_eq!(SIMD_WIDTH, 4);
    assert_eq!(NUM_SIMD_REG, 8);
    assert_eq!(<u32 as SimdInfo>::LANES, 1);
    assert_eq!(<i32 as SimdInfo>::LANES, 1);
    assert_eq!(<u16 as SimdInfo>::LANES, 2);
    assert_eq!(<i16 as SimdInfo>::LANES, 2);
    assert_eq!(<u8 as SimdInfo>::LANES, 4);
    assert_eq!(<i8 as SimdInfo>::LANES, 4);
    let bytes = match portable_tiling::<u8>() {
        Ok(tiling) => tiling,
        Err(_) => panic!("byte lanes were refused"),
    };
    assert_eq!((bytes.lanes(), bytes.num_blocks(), bytes.stride()), (4, 1, 4));
    let tiling = match portable_tiling::<u32>() {
        Ok(tiling) => tiling,
        Err(_) => panic!("the portable target was refused"),
    };
    assert_eq!((tiling.lanes(), tiling.num_blocks(), tiling.stride()), (1, 1, 1));
    assert_eq!(tiling.num_steps(), 32);
}

#[test]
fn known_targets_cut_the_row() {
    // (vector bytes, registers) -> (lanes, blocks, stride) for 4-byte elements
    let cases = [
        ((64, 32), (16, 2, 32)),
        ((32, 16), (8, 2, 16)),
        ((16, 16), (4, 2, 8)),
        ((32, 32), (8, 4, 32)),
        ((16, 32), (4, 4, 16)),
        ((4, 8), (1, 1, 1)),
    ];
    for ((width, registers), (lanes, blocks, stride)) in cases {
        let tiling = tiling(width, registers);
        assert_eq!(tiling.lanes(), lanes);
        assert_eq!(tiling.num_blocks(), blocks);
        assert_eq!(tiling.stride(), stride);
        assert_eq!(tiling.num_steps() * stride, 32);
    }
}

#[test]
fn blocks_never_outnumber_the_vectors_of_a_row() {
    let tiling = match BlockTiling::from_lanes(16, 64) {
        Ok(tiling) => tiling,
        Err(_) => panic!("sixteen lanes were refused"),
    };
    assert_eq!(tiling.num_blocks(), 2);
    let whole = match BlockTiling::from_lanes(32, 8) {
        Ok(tiling) => tiling,
        Err(_) => panic!("thirty-two lanes were refused"),
    };
    assert_eq!((whole.num_blocks(), whole.stride(), whole.num_steps()), (1, 32, 1));
}

#[test]
fn shapes_that_do_not_cut_the_row_are_refused() {
    assert!(matches!(BlockTiling::from_lanes(0, 8), Err(NoiseError::InvalidParameter)));
    assert!(matches!(BlockTiling::from_lanes(64, 8), Err(NoiseError::InvalidParameter)));
    assert!(matches!(BlockTiling::from_lanes(4, 7), Err(NoiseError::InvalidParameter)));
    assert!(matches!(BlockTiling::from_lanes(3, 8), Err(NoiseError::InvalidParameter)));
    assert!(matches!(BlockTiling::from_lanes(4, 24), Err(NoiseError::InvalidParameter)));
    assert!(matches!(BlockTiling::new(16, 0, 16), Err(NoiseError::InvalidParameter)));
    assert!(matches!(BlockTiling::new(2, 4, 16), Err(NoiseError::InvalidParameter)));
    assert!(BlockTiling::from_lanes(4, 8).is_ok());
}

#[test]
fn block_offsets_cover_the_row_once() {
    for (width, registers) in [(64, 32), (32, 16), (16, 16), (32, 32), (16, 32), (4, 8)] {
        let tiling = tiling(width, registers);
        let mut hits = [0u32; 32];
        for step in 0..tiling.num_steps() {
            for block in 0..tiling.num_blocks() {
                let offset = tiling.offset(step, block);
                assert_eq!(offset, step * tiling.stride() + block * tiling.lanes());
                for lane in 0..tiling.lanes() {
                    hits[offset + lane] += 1;
                }
            }
        }
        assert_eq!(hits, [1u32; 32]);
    }
}

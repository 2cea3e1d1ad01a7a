use vstd::prelude::*;
use vstd::arithmetic::div_mod::{
    lemma_fundamental_div_mod, lemma_fundamental_div_mod_converse, lemma_mod_bound,
};
use crate::noise::perlin::constants::ROW_SIZE;
use crate::noise::perlin::error::NoiseError;

verus! {

/// Width in bytes of one vector of the portable target.
pub const SIMD_WIDTH: usize = 4;

/// Number of vector registers of the portable target.
pub const NUM_SIMD_REG: usize = 8;

/// Number of vector registers that one block of the blend keeps busy.
pub const REG_PER_BLOCK: usize = 8;

/// Element types that can fill a vector.
pub trait SimdInfo {
    /// How many elements one vector of the portable target holds.
    const LANES: usize;

    /// A vector holds at least one element and no more than a row has
    /// samples.
    proof fn lemma_lanes_fit_row()
        ensures
            1 <= Self::LANES <= ROW_SIZE,
    ;
}

impl SimdInfo for u8 {
    const LANES: usize = SIMD_WIDTH / 1;

    proof fn lemma_lanes_fit_row() {
    }
}

impl SimdInfo for i8 {
    const LANES: usize = SIMD_WIDTH / 1;

    proof fn lemma_lanes_fit_row() {
    }
}

impl SimdInfo for u16 {
    const LANES: usize = SIMD_WIDTH / 2;

    proof fn lemma_lanes_fit_row() {
    }
}

impl SimdInfo for i16 {
    const LANES: usize = SIMD_WIDTH / 2;

    proof fn lemma_lanes_fit_row() {
    }
}

impl SimdInfo for u32 {
    const LANES: usize = SIMD_WIDTH / 4;

    proof fn lemma_lanes_fit_row() {
    }
}

impl SimdInfo for i32 {
    const LANES: usize = SIMD_WIDTH / 4;

    proof fn lemma_lanes_fit_row() {
    }
}

/// Number of blocks worked on side by side: as many as the registers
/// allow, but no more than a row has vectors.
pub open spec fn spec_num_blocks(lanes: int, num_simd_reg: int) -> int {
    let possible = num_simd_reg / (REG_PER_BLOCK as int);
    let at_most = (ROW_SIZE as int) / lanes;
    if possible < at_most {
        possible
    } else {
        at_most
    }
}

/// Whether vectors of `lanes` elements, on a machine with `num_simd_reg`
/// registers, cut a row into whole groups of blocks.
pub open spec fn tiles_row(lanes: int, num_simd_reg: int) -> bool {
    &&& 1 <= lanes <= ROW_SIZE
    &&& REG_PER_BLOCK <= num_simd_reg
    &&& (ROW_SIZE as int) % (lanes * spec_num_blocks(lanes, num_simd_reg)) == 0
}

/// How a row of a tile is cut for the blend: into vectors of `lanes`
/// samples, worked on `blocks` at a time.
#[derive(Clone, Copy, Debug)]
pub struct BlockTiling {
    lanes: usize,
    blocks: usize,
}

impl BlockTiling {
    /// Samples per vector.
    pub closed spec fn spec_lanes(&self) -> usize {
        self.lanes
    }

    /// Vectors worked on side by side.
    pub closed spec fn spec_num_blocks(&self) -> usize {
        self.blocks
    }

    /// Samples covered by one group of blocks.
    pub open spec fn spec_stride(&self) -> int {
        self.spec_lanes() * self.spec_num_blocks()
    }

    /// The groups of blocks cut the row into whole pieces.
    #[verifier::type_invariant]
    pub open spec fn wf(&self) -> bool {
        &&& 1 <= self.spec_lanes()
        &&& 1 <= self.spec_num_blocks()
        &&& 1 <= self.spec_stride() <= ROW_SIZE
        &&& (ROW_SIZE as int) % self.spec_stride() == 0
    }

    /// The tiling for vectors of `lanes` samples on a machine with
    /// `num_simd_reg` vector registers. Fails exactly when such vectors do
    /// not cut a row into whole groups of blocks.
    pub fn from_lanes(lanes: usize, num_simd_reg: usize) -> (made: Result<BlockTiling, NoiseError>)
        ensures
            made is Ok <==> tiles_row(lanes as int, num_simd_reg as int),
            made matches Ok(tiling) ==> {
                &&& tiling.wf()
                &&& tiling.spec_lanes() == lanes
                &&& tiling.spec_num_blocks() == spec_num_blocks(lanes as int, num_simd_reg as int)
            },
            made matches Err(e) ==> e == NoiseError::InvalidParameter,
    {
        if lanes < 1 || lanes > ROW_SIZE || num_simd_reg < REG_PER_BLOCK {
            return Err(NoiseError::InvalidParameter);
        }
        let possible: usize = num_simd_reg / REG_PER_BLOCK;
        let at_most: usize = ROW_SIZE / lanes;
        assert(1 <= ROW_SIZE / lanes) by (nonlinear_arith)
            requires
                1 <= lanes <= ROW_SIZE,
        ;
        let blocks: usize = if possible < at_most {
            possible
        } else {
            at_most
        };
        assert(1 <= lanes * blocks <= ROW_SIZE) by (nonlinear_arith)
            requires
                1 <= lanes <= ROW_SIZE,
                1 <= blocks <= ROW_SIZE / lanes,
        ;
        if ROW_SIZE % (lanes * blocks) != 0 {
            return Err(NoiseError::InvalidParameter);
        }
        Ok(BlockTiling { lanes, blocks })
    }

    /// The tiling for vectors of `simd_width` bytes that hold elements of
    /// `element_size` bytes, on a machine with `num_simd_reg` vector
    /// registers. Fails exactly when the element size is zero or such vectors
    /// do not cut a row into whole groups of blocks.
    pub fn new(simd_width: usize, element_size: usize, num_simd_reg: usize) -> (made: Result<
        BlockTiling,
        NoiseError,
    >)
        ensures
            made is Ok <==> element_size != 0 && tiles_row(
                simd_width as int / element_size as int,
                num_simd_reg as int,
            ),
            made matches Ok(tiling) ==> {
                &&& tiling.wf()
                &&& tiling.spec_lanes() == simd_width as int / element_size as int
                &&& tiling.spec_num_blocks() == spec_num_blocks(
                    simd_width as int / element_size as int,
                    num_simd_reg as int,
                )
            },
            made matches Err(e) ==> e == NoiseError::InvalidParameter,
    {
        if element_size == 0 {
            return Err(NoiseError::InvalidParameter);
        }
        Self::from_lanes(simd_width / element_size, num_simd_reg)
    }

    /// Samples per vector.
    #[verifier::when_used_as_spec(spec_lanes)]
    pub fn lanes(&self) -> (lanes: usize)
        ensures
            lanes == self.spec_lanes(),
    {
        self.lanes
    }

    /// Vectors worked on side by side.
    #[verifier::when_used_as_spec(spec_num_blocks)]
    pub fn num_blocks(&self) -> (blocks: usize)
        ensures
            blocks == self.spec_num_blocks(),
    {
        self.blocks
    }

    /// Samples covered by one group of blocks.
    pub fn stride(&self) -> (stride: usize)
        ensures
            stride == self.spec_stride(),
            self.wf(),
    {
        proof {
            use_type_invariant(self);
        }
        self.lanes * self.blocks
    }

    /// Number of groups of blocks in a row.
    pub fn num_steps(&self) -> (steps: usize)
        ensures
            steps * self.spec_stride() == ROW_SIZE,
            self.wf(),
    {
        let stride: usize = self.stride();
        proof {
            lemma_fundamental_div_mod(ROW_SIZE as int, stride as int);
            assert((ROW_SIZE / stride) * stride == stride * (ROW_SIZE / stride))
                by (nonlinear_arith);
        }
        ROW_SIZE / stride
    }

    /// First sample of block `block` in group `step`. The block's vector
    /// lies inside the row.
    pub fn offset(&self, step: usize, block: usize) -> (offset: usize)
        requires
            step * self.spec_stride() < ROW_SIZE,
            block < self.spec_num_blocks(),
        ensures
            offset == step * self.spec_stride() + block * self.spec_lanes(),
            offset + self.spec_lanes() <= ROW_SIZE,
    {
        let stride: usize = self.stride();
        let steps: usize = self.num_steps();
        proof {
            let lanes = self.lanes as int;
            let blocks = self.blocks as int;
            assert(step < steps) by (nonlinear_arith)
                requires
                    step * stride < ROW_SIZE,
                    steps * stride == ROW_SIZE,
                    stride >= 1,
            ;
            assert(step * stride + stride <= ROW_SIZE) by (nonlinear_arith)
                requires
                    step < steps,
                    steps * stride == ROW_SIZE,
                    stride >= 1,
            ;
            assert(block * lanes + lanes <= stride) by (nonlinear_arith)
                requires
                    0 <= block < blocks,
                    stride == lanes * blocks,
                    lanes >= 1,
            ;
            assert(0 <= block * lanes) by (nonlinear_arith)
                requires
                    0 <= block,
                    0 <= lanes,
            ;
            assert(0 <= step * stride) by (nonlinear_arith)
                requires
                    0 <= step,
                    0 <= stride,
            ;
        }
        step * stride + block * self.lanes
    }

    /// Every sample of a row lies in exactly one lane of one block of one
    /// group: the sample `k` is lane `(k % stride) % lanes` of block
    /// `(k % stride) / lanes` of group `k / stride`, and no other triple
    /// names it.
    pub proof fn lemma_covers_row_once(&self, k: int, step: int, block: int, lane: int)
        requires
            self.wf(),
            0 <= k < ROW_SIZE,
            0 <= block < self.spec_num_blocks(),
            0 <= lane < self.spec_lanes(),
        ensures
            (k == step * self.spec_stride() + block * self.spec_lanes() + lane) <==> (step == k
                / self.spec_stride() && block == (k % self.spec_stride()) / (
            self.spec_lanes() as int) && lane == (k % self.spec_stride()) % (
            self.spec_lanes() as int)),
            0 <= k / self.spec_stride(),
            (k / self.spec_stride()) * self.spec_stride() < ROW_SIZE,
            0 <= (k % self.spec_stride()) / (self.spec_lanes() as int) < self.spec_num_blocks(),
            0 <= (k % self.spec_stride()) % (self.spec_lanes() as int) < self.spec_lanes(),
    {
        let lanes = self.spec_lanes() as int;
        let blocks = self.spec_num_blocks() as int;
        let stride = self.spec_stride();
        let rest = k % stride;
        lemma_fundamental_div_mod(k, stride);
        lemma_mod_bound(k, stride);
        lemma_fundamental_div_mod(rest, lanes);
        lemma_mod_bound(rest, lanes);
        assert(0 <= k / stride && (k / stride) * stride < ROW_SIZE) by (nonlinear_arith)
            requires
                k == stride * (k / stride) + rest,
                0 <= rest < stride,
                0 <= k < ROW_SIZE,
        ;
        assert(0 <= rest / lanes < blocks) by (nonlinear_arith)
            requires
                rest == lanes * (rest / lanes) + rest % lanes,
                0 <= rest % lanes < lanes,
                0 <= rest < stride,
                stride == lanes * blocks,
        ;
        let inner = block * lanes + lane;
        assert(0 <= inner < stride) by (nonlinear_arith)
            requires
                inner == block * lanes + lane,
                0 <= block < blocks,
                0 <= lane < lanes,
                stride == lanes * blocks,
        ;
        if k == step * stride + block * lanes + lane {
            lemma_fundamental_div_mod_converse(k, stride, step, inner);
            lemma_fundamental_div_mod_converse(inner, lanes, block, lane);
        }
        if step == k / stride && block == rest / lanes && lane == rest % lanes {
            assert(k == step * stride + block * lanes + lane) by (nonlinear_arith)
                requires
                    k == stride * step + rest,
                    rest == lanes * block + lane,
            ;
        }
    }
}

/// The tiling of the portable target for elements of type `T`.
pub fn portable_tiling<T: SimdInfo>() -> (made: Result<BlockTiling, NoiseError>)
    ensures
        made is Ok <==> tiles_row(T::LANES as int, NUM_SIMD_REG as int),
        made matches Ok(tiling) ==> {
            &&& tiling.wf()
            &&& tiling.spec_lanes() == T::LANES
            &&& tiling.spec_num_blocks() == spec_num_blocks(T::LANES as int, NUM_SIMD_REG as int)
        },
        made matches Err(e) ==> e == NoiseError::InvalidParameter,
{
    BlockTiling::from_lanes(T::LANES, NUM_SIMD_REG)
}

} // verus!

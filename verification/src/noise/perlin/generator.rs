use vstd::prelude::*;
use crate::math::random::{mix_pair, mix_triple, Random};

verus! {

/// Number of distinct directions a lattice point of the plane can get.
pub const DIRECTIONS_2D: u32 = 16;

/// Number of distinct directions a lattice point of space can get.
pub const DIRECTIONS_3D: u32 = 12;

/// Row of the plane's gradient table that the lattice point `(x, y)` gets.
pub open spec fn gradient_index_2d(seed: u64, channel: u64, x: i32, y: i32) -> u8 {
    (mix_pair(seed, channel, x, y) & 0xF) as u8
}

/// Row of the spatial gradient table that the lattice point `(x, y, z)` gets.
pub open spec fn gradient_index_3d(seed: u64, channel: u64, x: i32, y: i32, z: i32) -> u8 {
    (mix_triple(seed, channel, x, y, z) % DIRECTIONS_3D) as u8
}

/// A gradient index of the plane always names a row of its table.
pub proof fn lemma_gradient_index_2d_bound(seed: u64, channel: u64, x: i32, y: i32)
    ensures
        gradient_index_2d(seed, channel, x, y) < DIRECTIONS_2D,
{
    let h = mix_pair(seed, channel, x, y);
    assert(h & 0xF < 16) by (bit_vector);
}

/// A spatial gradient index always names one of the twelve directions.
pub proof fn lemma_gradient_index_3d_bound(seed: u64, channel: u64, x: i32, y: i32, z: i32)
    ensures
        gradient_index_3d(seed, channel, x, y, z) < DIRECTIONS_3D,
{
}

/// Gradient-noise generator: a seeded lattice hash and the channel salt of
/// the octave it is working on.
#[derive(Clone, Copy, Debug)]
pub struct Perlin {
    random_gen: Random,
}

impl Perlin {
    /// The seed of the lattice hash, as an unsigned word.
    pub closed spec fn spec_seed(&self) -> u64 {
        self.random_gen.spec_seed()
    }

    /// The channel salt currently in effect.
    pub closed spec fn spec_channel(&self) -> u64 {
        self.random_gen.spec_channel()
    }

    /// A generator for `seed`. The seed's bits are taken as they are; the
    /// channel salt starts at zero.
    pub fn new(seed: i64) -> (perlin: Perlin)
        ensures
            perlin.spec_seed() == seed as u64,
            perlin.spec_channel() == 0,
    {
        Perlin { random_gen: Random::new(#[verifier::truncate] (seed as u64)) }
    }

    /// The seed of the lattice hash.
    #[verifier::when_used_as_spec(spec_seed)]
    pub fn seed(&self) -> (seed: u64)
        ensures
            seed == self.spec_seed(),
    {
        self.random_gen.seed()
    }

    /// The channel salt currently in effect.
    #[verifier::when_used_as_spec(spec_channel)]
    pub fn channel(&self) -> (channel: u64)
        ensures
            channel == self.spec_channel(),
    {
        self.random_gen.channel()
    }

    /// Replaces the channel salt of the lattice hash; the seed stays.
    pub fn set_channel(&mut self, channel: u64)
        ensures
            final(self).spec_channel() == channel,
            final(self).spec_seed() == old(self).spec_seed(),
    {
        self.random_gen.set_channel(channel);
    }

    /// Row of the plane's gradient table for the lattice point `(x, y)`.
    pub fn gradient_index_2d(&self, x: i32, y: i32) -> (index: u8)
        ensures
            index == gradient_index_2d(self.spec_seed(), self.spec_channel(), x, y),
            index < DIRECTIONS_2D,
    {
        let hash: u32 = self.random_gen.mix_i32_pair(x, y);
        let masked: u32 = hash & 0xF;
        assert(masked < 16) by (bit_vector)
            requires
                masked == hash & 0xF,
        ;
        masked as u8
    }

    /// Row of the spatial gradient table for the lattice point `(x, y, z)`.
    pub fn gradient_index_3d(&self, x: i32, y: i32, z: i32) -> (index: u8)
        ensures
            index == gradient_index_3d(self.spec_seed(), self.spec_channel(), x, y, z),
            index < DIRECTIONS_3D,
    {
        let hash: u32 = self.random_gen.mix_i32_triple(x, y, z);
        (hash % DIRECTIONS_3D) as u8
    }

    /// Rows of the plane's gradient table for a batch of lattice points:
    /// element `i` of the result belongs to `(x_vec[i], y_vec[i])`.
    pub fn gradient_indices_2d(&self, x_vec: &[i32], y_vec: &[i32]) -> (indices: Vec<u8>)
        requires
            x_vec.len() == y_vec.len(),
        ensures
            indices.len() == x_vec.len(),
            forall|i: int|
                0 <= i < indices.len() ==> indices[i] == gradient_index_2d(
                    self.spec_seed(),
                    self.spec_channel(),
                    x_vec[i],
                    y_vec[i],
                ),
    {
        let grad_vec: Vec<u32> = self.random_gen.mix_i32_simd_pair(x_vec, y_vec);
        let mut indices: Vec<u8> = Vec::new();
        let mut lane: usize = 0;
        while lane < grad_vec.len()
            invariant
                grad_vec.len() == x_vec.len(),
                lane <= grad_vec.len(),
                indices.len() == lane,
                forall|i: int|
                    0 <= i < grad_vec.len() ==> grad_vec[i] == mix_pair(
                        self.spec_seed(),
                        self.spec_channel(),
                        x_vec[i],
                        y_vec[i],
                    ),
                forall|i: int|
                    0 <= i < lane ==> indices[i] == gradient_index_2d(
                        self.spec_seed(),
                        self.spec_channel(),
                        x_vec[i],
                        y_vec[i],
                    ),
            decreases grad_vec.len() - lane,
        {
            let hash: u32 = grad_vec[lane];
            let masked: u32 = hash & 0xF;
            assert(masked < 16) by (bit_vector)
                requires
                    masked == hash & 0xF,
            ;
            indices.push(masked as u8);
            lane += 1;
        }
        indices
    }

    /// Rows of the spatial gradient table for a batch of lattice points:
    /// element `i` of the result belongs to `(x_vec[i], y_vec[i], z_vec[i])`.
    pub fn gradient_indices_3d(&self, x_vec: &[i32], y_vec: &[i32], z_vec: &[i32]) -> (indices: Vec<
        u8,
    >)
        requires
            x_vec.len() == y_vec.len(),
            x_vec.len() == z_vec.len(),
        ensures
            indices.len() == x_vec.len(),
            forall|i: int|
                0 <= i < indices.len() ==> indices[i] == gradient_index_3d(
                    self.spec_seed(),
                    self.spec_channel(),
                    x_vec[i],
                    y_vec[i],
                    z_vec[i],
                ),
    {
        let grad_vec: Vec<u32> = self.random_gen.mix_i32_simd_triple(x_vec, y_vec, z_vec);
        let mut indices: Vec<u8> = Vec::new();
        let mut lane: usize = 0;
        while lane < grad_vec.len()
            invariant
                grad_vec.len() == x_vec.len(),
                lane <= grad_vec.len(),
                indices.len() == lane,
                forall|i: int|
                    0 <= i < grad_vec.len() ==> grad_vec[i] == mix_triple(
                        self.spec_seed(),
                        self.spec_channel(),
                        x_vec[i],
                        y_vec[i],
                        z_vec[i],
                    ),
                forall|i: int|
                    0 <= i < lane ==> indices[i] == gradient_index_3d(
                        self.spec_seed(),
                        self.spec_channel(),
                        x_vec[i],
                        y_vec[i],
                        z_vec[i],
                    ),
            decreases grad_vec.len() - lane,
        {
            indices.push((grad_vec[lane] % DIRECTIONS_3D) as u8);
            lane += 1;
        }
        indices
    }
}

} // verus!

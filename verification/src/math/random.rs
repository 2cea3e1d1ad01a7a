use vstd::prelude::*;
use vstd::wrapping::u64_specs;

verus! {

/// Odd increment that spreads consecutive inputs over the 64-bit range.
pub const MIX_INCREMENT: u64 = 0x9E37_79B9_7F4A_7C15;

/// First odd multiplier of the 64-bit finaliser.
pub const MIX_MULTIPLIER_A: u64 = 0xBF58_476D_1CE4_E5B9;

/// Second odd multiplier of the 64-bit finaliser.
pub const MIX_MULTIPLIER_B: u64 = 0x94D0_49BB_1331_11EB;

/// The 64-bit finaliser: add the increment, then two rounds of
/// xor-shift and multiply, then a last xor-shift. All arithmetic wraps.
#[verifier::opaque]
pub open spec fn mix64(v: u64) -> u64 {
    let a = u64_specs::wrapping_add(v, MIX_INCREMENT);
    let b = u64_specs::wrapping_mul(a ^ (a >> 30), MIX_MULTIPLIER_A);
    let c = u64_specs::wrapping_mul(b ^ (b >> 27), MIX_MULTIPLIER_B);
    c ^ (c >> 31)
}

/// Two lattice coordinates side by side in one word: the bits of `x` above
/// the bits of `y`.
pub open spec fn pack_pair(x: i32, y: i32) -> u64 {
    (((x as u32) as u64) << 32) | ((y as u32) as u64)
}

/// The word from which the hash of a lattice point of the plane is cut.
pub open spec fn fold_pair(seed: u64, channel: u64, x: i32, y: i32) -> u64 {
    mix64(mix64(u64_specs::wrapping_add(pack_pair(x, y), seed)) ^ channel)
}

/// Hash of the lattice point `(x, y)` under a seed and a channel salt.
pub open spec fn mix_pair(seed: u64, channel: u64, x: i32, y: i32) -> u32 {
    (fold_pair(seed, channel, x, y) >> 32) as u32
}

/// The word from which the hash of a lattice point of space is cut.
pub open spec fn fold_triple(seed: u64, channel: u64, x: i32, y: i32, z: i32) -> u64 {
    mix64(fold_pair(seed, channel, x, y) ^ ((z as u32) as u64))
}

/// Hash of the lattice point `(x, y, z)` under a seed and a channel salt.
pub open spec fn mix_triple(seed: u64, channel: u64, x: i32, y: i32, z: i32) -> u32 {
    (fold_triple(seed, channel, x, y, z) >> 32) as u32
}

/// Inverse of the first multiplier modulo 2^64.
pub const MIX_MULTIPLIER_A_INVERSE: u64 = 0x96DE_1B17_3F11_9089;

/// Inverse of the second multiplier modulo 2^64.
pub const MIX_MULTIPLIER_B_INVERSE: u64 = 0x3196_42B2_D24D_8EC3;

/// The finaliser run backwards: each xor-shift and each multiplication is
/// undone in reverse order, then the increment is taken off.
pub open spec fn unmix64(mixed: u64) -> u64 {
    let c = mixed ^ (mixed >> 31) ^ (mixed >> 62);
    let t = u64_specs::wrapping_mul(c, MIX_MULTIPLIER_B_INVERSE);
    let b = t ^ (t >> 27) ^ (t >> 54);
    let u = u64_specs::wrapping_mul(b, MIX_MULTIPLIER_A_INVERSE);
    let a = u ^ (u >> 30) ^ (u >> 60);
    u64_specs::wrapping_sub(a, MIX_INCREMENT)
}

/// The finaliser loses nothing: running it backwards gives the word it was
/// applied to.
pub proof fn lemma_unmix64_undoes_mix64(v: u64)
    ensures
        unmix64(mix64(v)) == v,
{
    reveal(mix64);
    let a = u64_specs::wrapping_add(v, MIX_INCREMENT);
    let a_shifted = a ^ (a >> 30);
    let b = u64_specs::wrapping_mul(a_shifted, MIX_MULTIPLIER_A);
    let b_shifted = b ^ (b >> 27);
    let c = u64_specs::wrapping_mul(b_shifted, MIX_MULTIPLIER_B);
    let mixed = c ^ (c >> 31);
    assert(mixed ^ (mixed >> 31) ^ (mixed >> 62) == c) by (bit_vector)
        requires
            mixed == c ^ (c >> 31),
    ;
    assert(u64_specs::wrapping_mul(c, MIX_MULTIPLIER_B_INVERSE) == b_shifted) by (bit_vector)
        requires
            c == u64_specs::wrapping_mul(b_shifted, MIX_MULTIPLIER_B),
    ;
    assert(b_shifted ^ (b_shifted >> 27) ^ (b_shifted >> 54) == b) by (bit_vector)
        requires
            b_shifted == b ^ (b >> 27),
    ;
    assert(u64_specs::wrapping_mul(b, MIX_MULTIPLIER_A_INVERSE) == a_shifted) by (bit_vector)
        requires
            b == u64_specs::wrapping_mul(a_shifted, MIX_MULTIPLIER_A),
    ;
    assert(a_shifted ^ (a_shifted >> 30) ^ (a_shifted >> 60) == a) by (bit_vector)
        requires
            a_shifted == a ^ (a >> 30),
    ;
    assert(u64_specs::wrapping_sub(a, MIX_INCREMENT) == v);
}

/// Different words are mixed to different words.
pub proof fn lemma_mix64_is_injective(a: u64, b: u64)
    requires
        mix64(a) == mix64(b),
    ensures
        a == b,
{
    lemma_unmix64_undoes_mix64(a);
    lemma_unmix64_undoes_mix64(b);
}

/// Different lattice points of the plane are packed into different words.
pub proof fn lemma_pack_pair_is_injective(x1: i32, y1: i32, x2: i32, y2: i32)
    requires
        pack_pair(x1, y1) == pack_pair(x2, y2),
    ensures
        x1 == x2,
        y1 == y2,
{
    let high1 = (x1 as u32) as u64;
    let low1 = (y1 as u32) as u64;
    let high2 = (x2 as u32) as u64;
    let low2 = (y2 as u32) as u64;
    assert(high1 == high2 && low1 == low2) by (bit_vector)
        requires
            (high1 << 32) | low1 == (high2 << 32) | low2,
            high1 <= 0xFFFF_FFFF,
            low1 <= 0xFFFF_FFFF,
            high2 <= 0xFFFF_FFFF,
            low2 <= 0xFFFF_FFFF,
    ;
    assert(x1 == x2) by (bit_vector)
        requires
            (x1 as u32) as u64 == (x2 as u32) as u64,
    ;
    assert(y1 == y2) by (bit_vector)
        requires
            (y1 as u32) as u64 == (y2 as u32) as u64,
    ;
}

/// Under one seed and one channel salt, different lattice points of the
/// plane have different 64-bit words. Two points can share a hash only
/// because the hash keeps half of the word.
pub proof fn lemma_fold_pair_is_injective(
    seed: u64,
    channel: u64,
    x1: i32,
    y1: i32,
    x2: i32,
    y2: i32,
)
    requires
        fold_pair(seed, channel, x1, y1) == fold_pair(seed, channel, x2, y2),
    ensures
        x1 == x2,
        y1 == y2,
{
    let first = pack_pair(x1, y1);
    let second = pack_pair(x2, y2);
    let inner1 = mix64(u64_specs::wrapping_add(first, seed));
    let inner2 = mix64(u64_specs::wrapping_add(second, seed));
    lemma_mix64_is_injective(inner1 ^ channel, inner2 ^ channel);
    assert(inner1 == inner2) by (bit_vector)
        requires
            inner1 ^ channel == inner2 ^ channel,
    ;
    lemma_mix64_is_injective(
        u64_specs::wrapping_add(first, seed),
        u64_specs::wrapping_add(second, seed),
    );
    assert(first == second);
    lemma_pack_pair_is_injective(x1, y1, x2, y2);
}

/// Replacing the channel salt changes the 64-bit word of every lattice
/// point of the plane.
pub proof fn lemma_channel_changes_every_word(seed: u64, c1: u64, c2: u64, x: i32, y: i32)
    requires
        c1 != c2,
    ensures
        fold_pair(seed, c1, x, y) != fold_pair(seed, c2, x, y),
{
    let inner = mix64(u64_specs::wrapping_add(pack_pair(x, y), seed));
    if mix64(inner ^ c1) == mix64(inner ^ c2) {
        lemma_mix64_is_injective(inner ^ c1, inner ^ c2);
        assert(c1 == c2) by (bit_vector)
            requires
                inner ^ c1 == inner ^ c2,
        ;
    }
}

/// Replacing the seed changes the 64-bit word of every lattice point of the
/// plane.
pub proof fn lemma_seed_changes_every_word(s1: u64, s2: u64, channel: u64, x: i32, y: i32)
    requires
        s1 != s2,
    ensures
        fold_pair(s1, channel, x, y) != fold_pair(s2, channel, x, y),
{
    let p = pack_pair(x, y);
    let inner1 = mix64(u64_specs::wrapping_add(p, s1));
    let inner2 = mix64(u64_specs::wrapping_add(p, s2));
    if mix64(inner1 ^ channel) == mix64(inner2 ^ channel) {
        lemma_mix64_is_injective(inner1 ^ channel, inner2 ^ channel);
        assert(inner1 == inner2) by (bit_vector)
            requires
                inner1 ^ channel == inner2 ^ channel,
        ;
        lemma_mix64_is_injective(u64_specs::wrapping_add(p, s1), u64_specs::wrapping_add(p, s2));
    }
}

/// Along the third axis, different lattice points over the same point of
/// the plane have different 64-bit words.
pub proof fn lemma_fold_triple_separates_depth(
    seed: u64,
    channel: u64,
    x: i32,
    y: i32,
    z1: i32,
    z2: i32,
)
    requires
        z1 != z2,
    ensures
        fold_triple(seed, channel, x, y, z1) != fold_triple(seed, channel, x, y, z2),
{
    let word = fold_pair(seed, channel, x, y);
    let d1 = (z1 as u32) as u64;
    let d2 = (z2 as u32) as u64;
    if mix64(word ^ d1) == mix64(word ^ d2) {
        lemma_mix64_is_injective(word ^ d1, word ^ d2);
        assert(z1 == z2) by (bit_vector)
            requires
                word ^ ((z1 as u32) as u64) == word ^ ((z2 as u32) as u64),
        ;
    }
}

/// Seeded hash of integer lattice coordinates.
///
/// The seed is fixed at construction. The channel is a second salt that can
/// be replaced at any time; it changes the mapping without touching the seed.
#[derive(Clone, Copy, Debug)]
pub struct Random {
    seed: u64,
    channel: u64,
}

impl Random {
    /// The seed this hasher was made with.
    pub closed spec fn spec_seed(&self) -> u64 {
        self.seed
    }

    /// The channel salt currently in effect.
    pub closed spec fn spec_channel(&self) -> u64 {
        self.channel
    }

    /// A hasher for `seed`, with the channel salt at zero.
    pub fn new(seed: u64) -> (random: Random)
        ensures
            random.spec_seed() == seed,
            random.spec_channel() == 0,
    {
        Random { seed, channel: 0 }
    }

    /// The seed this hasher was made with.
    #[verifier::when_used_as_spec(spec_seed)]
    pub fn seed(&self) -> (seed: u64)
        ensures
            seed == self.spec_seed(),
    {
        self.seed
    }

    /// The channel salt currently in effect.
    #[verifier::when_used_as_spec(spec_channel)]
    pub fn channel(&self) -> (channel: u64)
        ensures
            channel == self.spec_channel(),
    {
        self.channel
    }

    /// Replaces the channel salt; the seed stays.
    pub fn set_channel(&mut self, channel: u64)
        ensures
            final(self).spec_channel() == channel,
            final(self).spec_seed() == old(self).spec_seed(),
    {
        self.channel = channel;
    }

    /// Mixes one word, independent of any hasher state.
    pub fn static_mix_u64(v: u64) -> (mixed: u64)
        ensures
            mixed == mix64(v),
    {
        reveal(mix64);
        let a: u64 = v.wrapping_add(MIX_INCREMENT);
        let b: u64 = (a ^ (a >> 30)).wrapping_mul(MIX_MULTIPLIER_A);
        let c: u64 = (b ^ (b >> 27)).wrapping_mul(MIX_MULTIPLIER_B);
        c ^ (c >> 31)
    }

    /// The 64-bit word of the lattice point `(x, y)`: the coordinates are
    /// packed, salted with the seed, mixed, salted with the channel and mixed
    /// again.
    fn fold_i32_pair(&self, x: i32, y: i32) -> (word: u64)
        ensures
            word == fold_pair(self.spec_seed(), self.spec_channel(), x, y),
    {
        let high: u64 = (#[verifier::truncate] (x as u32)) as u64;
        let low: u64 = (#[verifier::truncate] (y as u32)) as u64;
        let packed: u64 = (high << 32) | low;
        Self::static_mix_u64(Self::static_mix_u64(packed.wrapping_add(self.seed)) ^ self.channel)
    }

    /// Hash of the lattice point `(x, y)`.
    pub fn mix_i32_pair(&self, x: i32, y: i32) -> (hash: u32)
        ensures
            hash == mix_pair(self.spec_seed(), self.spec_channel(), x, y),
    {
        let word: u64 = self.fold_i32_pair(x, y);
        #[verifier::truncate]
        ((word >> 32) as u32)
    }

    /// Hash of the lattice point `(x, y, z)`.
    pub fn mix_i32_triple(&self, x: i32, y: i32, z: i32) -> (hash: u32)
        ensures
            hash == mix_triple(self.spec_seed(), self.spec_channel(), x, y, z),
    {
        let depth: u64 = (#[verifier::truncate] (z as u32)) as u64;
        let word: u64 = Self::static_mix_u64(self.fold_i32_pair(x, y) ^ depth);
        #[verifier::truncate]
        ((word >> 32) as u32)
    }

    /// Hashes of a batch of lattice points of the plane: element `i` of the
    /// result is the hash of `(x_vec[i], y_vec[i])`.
    pub fn mix_i32_simd_pair(&self, x_vec: &[i32], y_vec: &[i32]) -> (hashes: Vec<u32>)
        requires
            x_vec.len() == y_vec.len(),
        ensures
            hashes.len() == x_vec.len(),
            forall|i: int|
                0 <= i < hashes.len() ==> hashes[i] == mix_pair(
                    self.spec_seed(),
                    self.spec_channel(),
                    x_vec[i],
                    y_vec[i],
                ),
    {
        let mut hashes: Vec<u32> = Vec::new();
        let mut lane: usize = 0;
        while lane < x_vec.len()
            invariant
                x_vec.len() == y_vec.len(),
                lane <= x_vec.len(),
                hashes.len() == lane,
                forall|i: int|
                    0 <= i < lane ==> hashes[i] == mix_pair(
                        self.spec_seed(),
                        self.spec_channel(),
                        x_vec[i],
                        y_vec[i],
                    ),
            decreases x_vec.len() - lane,
        {
            hashes.push(self.mix_i32_pair(x_vec[lane], y_vec[lane]));
            lane += 1;
        }
        hashes
    }

    /// Hashes of a batch of lattice points of space: element `i` of the
    /// result is the hash of `(x_vec[i], y_vec[i], z_vec[i])`.
    pub fn mix_i32_simd_triple(&self, x_vec: &[i32], y_vec: &[i32], z_vec: &[i32]) -> (hashes: Vec<
        u32,
    >)
        requires
            x_vec.len() == y_vec.len(),
            x_vec.len() == z_vec.len(),
        ensures
            hashes.len() == x_vec.len(),
            forall|i: int|
                0 <= i < hashes.len() ==> hashes[i] == mix_triple(
                    self.spec_seed(),
                    self.spec_channel(),
                    x_vec[i],
                    y_vec[i],
                    z_vec[i],
                ),
    {
        let mut hashes: Vec<u32> = Vec::new();
        let mut lane: usize = 0;
        while lane < x_vec.len()
            invariant
                x_vec.len() == y_vec.len(),
                x_vec.len() == z_vec.len(),
                lane <= x_vec.len(),
                hashes.len() == lane,
                forall|i: int|
                    0 <= i < lane ==> hashes[i] == mix_triple(
                        self.spec_seed(),
                        self.spec_channel(),
                        x_vec[i],
                        y_vec[i],
                        z_vec[i],
                    ),
            decreases x_vec.len() - lane,
        {
            hashes.push(self.mix_i32_triple(x_vec[lane], y_vec[lane], z_vec[lane]));
            lane += 1;
        }
        hashes
    }
}

} // verus!

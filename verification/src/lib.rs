//! Lattice engine for gradient noise on tiles of 32 samples a side.
//!
//! Gradient noise gives every point of an integer lattice a direction and
//! blends the directions around a sample into the sample's value. This crate
//! holds the integer side of such a generator, with every function proved
//! against its contract:
//!
//! - [`math::random`]: the seeded hash of lattice coordinates, with a channel
//!   salt, and the proof that its 64-bit mixer loses nothing;
//! - [`noise::perlin::generator`]: the generator and the choice of a row of
//!   the gradient table for each lattice point;
//! - [`noise::perlin::cells`]: how the samples of one tile axis fall into
//!   lattice cells;
//! - [`noise::perlin::containers`]: the window of corner rows, whose edges are
//!   exchanged by name and never copied;
//! - [`noise::perlin::set_gradients`]: filling one edge of the window;
//! - [`noise::perlin::single_octave`]: one octave's pass over the cells of a
//!   tile, which fills each edge once and shows every sample the corners it
//!   would get if it were looked up alone;
//! - [`noise::perlin::octaves`]: the passes of a multi-octave evaluation;
//! - [`simd::arch_simd`]: how vectors of a given width cut a row into blocks;
//! - [`emit::grayscale`]: the pixel layout of a height map made of tiles;
//! - [`math::vec`]: small vectors of two and three components.
//!
//! Blending the chosen gradients into samples is arithmetic on 32-bit floats
//! and is left to the caller.

pub mod emit;
pub mod math;
pub mod noise;
pub mod simd;

pub use noise::perlin;

pub mod cells;
pub mod constants;
pub mod containers;
pub mod error;
pub mod generator;
pub mod octaves;
pub mod set_gradients;
pub mod single_octave;

pub use cells::AxisCells;
pub use constants::{MAP_SIZE, NUM_DIRECTIONS, ROW_SIZE, VOL_SIZE};
pub use containers::{PerlinContainer2D, PerlinContainer3D};
pub use error::NoiseError;
pub use generator::Perlin;
pub use octaves::{OctavePasses, PassMode};
pub use single_octave::{
    CellSpan2D, CellSpan3D, Corners2D, Corners3D, SingleOctave2D, SingleOctave3D,
};

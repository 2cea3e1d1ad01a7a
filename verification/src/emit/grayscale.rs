use vstd::prelude::*;
use crate::noise::perlin::constants::{map_index, spec_map_index, MAP_SIZE, ROW_SIZE};
use crate::noise::perlin::error::NoiseError;

verus! {

/// Position of the pixel `(row, col)` in the row-major buffer of an image
/// that is `dimension` tiles wide.
pub open spec fn pixel_index(dimension: int, row: int, col: int) -> int {
    row * (dimension * ROW_SIZE) + col
}

/// Whether the pixel `(row, col)` belongs to the tile `(x, y)` of an image.
pub open spec fn in_tile(x: int, y: int, row: int, col: int) -> bool {
    x * ROW_SIZE <= row < (x + 1) * ROW_SIZE && y * ROW_SIZE <= col < (y + 1) * ROW_SIZE
}

/// A pixel inside a square image has a position inside its buffer.
pub proof fn lemma_pixel_index_bounds(dimension: int, row: int, col: int)
    requires
        0 <= row < dimension * ROW_SIZE,
        0 <= col < dimension * ROW_SIZE,
    ensures
        0 <= pixel_index(dimension, row, col) < dimension * dimension * MAP_SIZE,
{
    let side = dimension * ROW_SIZE;
    assert(0 <= row * side + col < side * side) by (nonlinear_arith)
        requires
            0 <= row < side,
            0 <= col < side,
    ;
    assert(side * side == dimension * dimension * MAP_SIZE) by (nonlinear_arith)
        requires
            side == dimension * 32,
            MAP_SIZE == 1024,
    ;
}

/// Two pixels of an image with the same position in the buffer are the
/// same pixel.
pub proof fn lemma_pixel_index_injective(dimension: int, row: int, col: int, row2: int, col2: int)
    requires
        0 <= col < dimension * ROW_SIZE,
        0 <= col2 < dimension * ROW_SIZE,
        pixel_index(dimension, row, col) == pixel_index(dimension, row2, col2),
    ensures
        row == row2,
        col == col2,
{
    let side = dimension * ROW_SIZE;
    assert(row == row2) by (nonlinear_arith)
        requires
            0 <= col < side,
            0 <= col2 < side,
            row * side + col == row2 * side + col2,
    ;
}

/// A square grayscale image made of tiles: `dimension` tiles along each
/// side, one byte per sample, rows of pixels one after another.
pub struct HeightMap {
    dimension: usize,
    pixels: Vec<u8>,
}

impl HeightMap {
    /// Number of tiles along each side.
    pub closed spec fn spec_dimension(&self) -> usize {
        self.dimension
    }

    /// The pixels, row by row.
    pub closed spec fn spec_pixels(&self) -> Seq<u8> {
        self.pixels@
    }

    /// The buffer holds every pixel of the image, and the side length in
    /// pixels fits the 32-bit size of an image file.
    #[verifier::type_invariant]
    pub open spec fn wf(&self) -> bool {
        &&& self.spec_dimension() * ROW_SIZE <= u32::MAX
        &&& self.spec_pixels().len() == self.spec_dimension() * self.spec_dimension() * MAP_SIZE
    }

    /// Whether an image of `dimension` tiles a side can be held: its side
    /// length in pixels fits 32 bits and its pixel count fits the machine.
    pub open spec fn fits(dimension: usize) -> bool {
        &&& dimension * ROW_SIZE <= u32::MAX
        &&& dimension * dimension * MAP_SIZE <= usize::MAX
    }

    /// A black image of `dimension` tiles a side. Fails exactly when such an
    /// image cannot be held.
    pub fn new(dimension: usize) -> (made: Result<HeightMap, NoiseError>)
        ensures
            made is Ok <==> Self::fits(dimension),
            made matches Ok(map) ==> {
                &&& map.wf()
                &&& map.spec_dimension() == dimension
                &&& forall|i: int| 0 <= i < map.spec_pixels().len() ==> map.spec_pixels()[i] == 0
            },
            made matches Err(e) ==> e == NoiseError::InvalidParameter,
    {
        if dimension > (u32::MAX / 32) as usize {
            return Err(NoiseError::InvalidParameter);
        }
        let tiles: usize = match dimension.checked_mul(dimension) {
            Some(tiles) => tiles,
            None => {
                assert(dimension * dimension * MAP_SIZE >= dimension * dimension)
                    by (nonlinear_arith);
                return Err(NoiseError::InvalidParameter);
            },
        };
        let count: usize = match tiles.checked_mul(MAP_SIZE) {
            Some(count) => count,
            None => {
                return Err(NoiseError::InvalidParameter);
            },
        };
        let pixels: Vec<u8> = vec![0u8; count];
        Ok(HeightMap { dimension, pixels })
    }

    /// Number of tiles along each side.
    #[verifier::when_used_as_spec(spec_dimension)]
    pub fn dimension(&self) -> (dimension: usize)
        ensures
            dimension == self.spec_dimension(),
    {
        self.dimension
    }

    /// Side length of the image in pixels.
    pub fn pixel_dimension(&self) -> (side: u32)
        ensures
            side == self.spec_dimension() * ROW_SIZE,
    {
        proof {
            use_type_invariant(self);
        }
        (self.dimension * ROW_SIZE) as u32
    }

    /// The pixels, row by row.
    pub fn pixels(&self) -> (pixels: &Vec<u8>)
        ensures
            pixels@ == self.spec_pixels(),
            self.wf(),
    {
        proof {
            use_type_invariant(self);
        }
        &self.pixels
    }

    /// Copies a tile of bytes into the image at tile position `(x, y)`:
    /// sample `(dx, dy)` of the tile becomes the pixel
    /// `(x * ROW_SIZE + dx, y * ROW_SIZE + dy)`. Pixels of other tiles stay.
    pub fn write_tile(&mut self, x: usize, y: usize, tile: &[u8; 1024])
        requires
            x < old(self).spec_dimension(),
            y < old(self).spec_dimension(),
        ensures
            final(self).wf(),
            final(self).spec_dimension() == old(self).spec_dimension(),
            forall|row: int, col: int|
                #![trigger pixel_index(old(self).spec_dimension() as int, row, col)]
                0 <= row < old(self).spec_dimension() * ROW_SIZE && 0 <= col < old(
                    self,
                ).spec_dimension() * ROW_SIZE ==> {
                    let at = pixel_index(old(self).spec_dimension() as int, row, col);
                    final(self).spec_pixels()[at] == if in_tile(x as int, y as int, row, col) {
                        tile[spec_map_index(row - x * ROW_SIZE, col - y * ROW_SIZE)]
                    } else {
                        old(self).spec_pixels()[at]
                    }
                },
    {
        proof {
            use_type_invariant(&*self);
        }
        let dimension: usize = self.dimension;
        let side: usize = dimension * ROW_SIZE;
        let count: usize = self.pixels.len();
        let ghost before = self.pixels@;
        let mut dx: usize = 0;
        while dx < ROW_SIZE
            invariant
                dx <= ROW_SIZE,
                x < dimension,
                y < dimension,
                dimension == self.dimension,
                side == dimension * ROW_SIZE,
                side <= u32::MAX,
                self.pixels@.len() == before.len(),
                before.len() == dimension * dimension * MAP_SIZE,
                before.len() == count,
                forall|row: int, col: int|
                    #![trigger pixel_index(dimension as int, row, col)]
                    0 <= row < side && 0 <= col < side ==> {
                        let at = pixel_index(dimension as int, row, col);
                        self.pixels@[at] == if in_tile(x as int, y as int, row, col) && row < x
                            * ROW_SIZE + dx {
                            tile[spec_map_index(row - x * ROW_SIZE, col - y * ROW_SIZE)]
                        } else {
                            before[at]
                        }
                    },
            decreases ROW_SIZE - dx,
        {
            let row_at: usize = x * ROW_SIZE + dx;
            let mut dy: usize = 0;
            while dy < ROW_SIZE
                invariant
                    dx < ROW_SIZE,
                    dy <= ROW_SIZE,
                    x < dimension,
                    y < dimension,
                    dimension == self.dimension,
                    side == dimension * ROW_SIZE,
                    side <= u32::MAX,
                    row_at == x * ROW_SIZE + dx,
                    self.pixels@.len() == before.len(),
                    before.len() == dimension * dimension * MAP_SIZE,
                before.len() == count,
                    forall|row: int, col: int|
                        #![trigger pixel_index(dimension as int, row, col)]
                        0 <= row < side && 0 <= col < side ==> {
                            let at = pixel_index(dimension as int, row, col);
                            self.pixels@[at] == if in_tile(x as int, y as int, row, col) && (row
                                < row_at || (row == row_at && col < y * ROW_SIZE + dy)) {
                                tile[spec_map_index(row - x * ROW_SIZE, col - y * ROW_SIZE)]
                            } else {
                                before[at]
                            }
                        },
                decreases ROW_SIZE - dy,
            {
                let col_at: usize = y * ROW_SIZE + dy;
                proof {
                    lemma_pixel_index_bounds(dimension as int, row_at as int, col_at as int);
                    assert(0 <= row_at * side) by (nonlinear_arith)
                        requires
                            0 <= row_at,
                            0 <= side,
                    ;
                    assert(row_at * side + col_at == pixel_index(
                        dimension as int,
                        row_at as int,
                        col_at as int,
                    ));
                }
                let at: usize = row_at * side + col_at;
                let ghost earlier = self.pixels@;
                self.pixels[at] = tile[map_index(dx, dy)];
                proof {
                    assert forall|row: int, col: int|
                        #![trigger pixel_index(dimension as int, row, col)]
                        0 <= row < side && 0 <= col < side implies {
                        let other = pixel_index(dimension as int, row, col);
                        self.pixels@[other] == if in_tile(x as int, y as int, row, col) && (row
                            < row_at || (row == row_at && col < y * ROW_SIZE + dy + 1)) {
                            tile[spec_map_index(row - x * ROW_SIZE, col - y * ROW_SIZE)]
                        } else {
                            before[other]
                        }
                    } by {
                        let other = pixel_index(dimension as int, row, col);
                        lemma_pixel_index_bounds(dimension as int, row, col);
                        if other == at {
                            lemma_pixel_index_injective(
                                dimension as int,
                                row,
                                col,
                                row_at as int,
                                col_at as int,
                            );
                        } else {
                            assert(self.pixels@[other] == earlier[other]);
                        }
                    }
                }
                dy += 1;
            }
            dx += 1;
        }
    }
}

} // verus!

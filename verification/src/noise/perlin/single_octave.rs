use vstd::prelude::*;
use crate::noise::perlin::cells::{
    cell_begin, in_cell, lattice, lemma_cells_cover, lemma_lattice_step, lemma_sample_cell,
    sample_cell, valid_ends, AxisCells,
};
use crate::noise::perlin::constants::ROW_SIZE;
use crate::noise::perlin::containers::{PerlinContainer2D, PerlinContainer3D};
use crate::noise::perlin::generator::{
    gradient_index_2d, gradient_index_3d, lemma_gradient_index_2d_bound, Perlin, DIRECTIONS_2D,
    DIRECTIONS_3D,
};
use crate::noise::perlin::set_gradients::{edge_holds_2d, face_holds_3d};

verus! {

/// Gradient indices of the four lattice points around a sample of the plane.
#[derive(Clone, Copy, Debug, PartialEq, Eq, Structural)]
pub struct Corners2D {
    /// Near along the slow axis, near along the fast axis.
    pub tl: u8,
    /// Near along the slow axis, far along the fast axis.
    pub tr: u8,
    /// Far along the slow axis, near along the fast axis.
    pub bl: u8,
    /// Far along the slow axis, far along the fast axis.
    pub br: u8,
}

/// The samples of the slow axis that one lattice cell holds.
#[derive(Clone, Copy, Debug, PartialEq, Eq, Structural)]
pub struct CellSpan2D {
    /// First sample of the cell.
    pub x_start: usize,
    /// First sample beyond the cell.
    pub x_end: usize,
}

/// The four corner indices of the cell with the lattice coordinates
/// `(x_near, y_near)`.
pub open spec fn cell_corners_2d(perlin: Perlin, x_near: i32, y_near: i32) -> Corners2D {
    let seed = perlin.spec_seed();
    let channel = perlin.spec_channel();
    let x_far = lattice(x_near, 1);
    let y_far = lattice(y_near, 1);
    Corners2D {
        tl: gradient_index_2d(seed, channel, x_near, y_near),
        tr: gradient_index_2d(seed, channel, x_near, y_far),
        bl: gradient_index_2d(seed, channel, x_far, y_near),
        br: gradient_index_2d(seed, channel, x_far, y_far),
    }
}

/// The four corner indices of sample `(x, y)`, found from the sample alone:
/// look up the cell of each coordinate and hash the four lattice points
/// around it.
pub open spec fn corners_at_2d(
    perlin: Perlin,
    x_cells: AxisCells,
    y_cells: AxisCells,
    x: int,
    y: int,
) -> Corners2D {
    cell_corners_2d(
        perlin,
        lattice(x_cells.spec_start(), sample_cell(x_cells.spec_ends(), x) as nat),
        lattice(y_cells.spec_start(), sample_cell(y_cells.spec_ends(), y) as nat),
    )
}

/// Whether each of the four indices names a row of the plane's gradient
/// table.
pub open spec fn corners_in_table_2d(corners: Corners2D) -> bool {
    &&& corners.tl < DIRECTIONS_2D
    &&& corners.tr < DIRECTIONS_2D
    &&& corners.bl < DIRECTIONS_2D
    &&& corners.br < DIRECTIONS_2D
}

/// The corner indices of a cell always name rows of the gradient table.
pub proof fn lemma_cell_corners_in_table_2d(perlin: Perlin, x_near: i32, y_near: i32)
    ensures
        corners_in_table_2d(cell_corners_2d(perlin, x_near, y_near)),
{
    let seed = perlin.spec_seed();
    let channel = perlin.spec_channel();
    lemma_gradient_index_2d_bound(seed, channel, x_near, y_near);
    lemma_gradient_index_2d_bound(seed, channel, x_near, lattice(y_near, 1));
    lemma_gradient_index_2d_bound(seed, channel, lattice(x_near, 1), y_near);
    lemma_gradient_index_2d_bound(seed, channel, lattice(x_near, 1), lattice(y_near, 1));
}

/// What the window shows at sample `y` of the fast axis.
pub open spec fn window_corners_2d(window: PerlinContainer2D, y: int) -> Corners2D {
    Corners2D {
        tl: window.spec_tl()[y],
        tr: window.spec_tr()[y],
        bl: window.spec_bl()[y],
        br: window.spec_br()[y],
    }
}

/// If the window's top and bottom edge are those of the cell `i` of the slow
/// axis, every sample of that cell finds in the window the corners it would
/// get on its own.
pub proof fn lemma_window_matches_samples_2d(
    window: PerlinContainer2D,
    perlin: Perlin,
    x_cells: AxisCells,
    y_cells: AxisCells,
    i: int,
    x: int,
    y: int,
)
    requires
        valid_ends(x_cells.spec_ends()),
        valid_ends(y_cells.spec_ends()),
        in_cell(x_cells.spec_ends(), i, x),
        0 <= y < ROW_SIZE,
        edge_holds_2d(
            window.spec_tl(),
            window.spec_tr(),
            perlin,
            lattice(x_cells.spec_start(), i as nat),
            y_cells,
        ),
        edge_holds_2d(
            window.spec_bl(),
            window.spec_br(),
            perlin,
            lattice(x_cells.spec_start(), (i + 1) as nat),
            y_cells,
        ),
    ensures
        window_corners_2d(window, y) == corners_at_2d(perlin, x_cells, y_cells, x, y),
{
    lemma_sample_cell(x_cells.spec_ends(), i, x);
    let j = lemma_cells_cover(y_cells.spec_ends(), y);
    lemma_sample_cell(y_cells.spec_ends(), j, y);
    lemma_lattice_step(x_cells.spec_start(), i as nat);
    lemma_lattice_step(y_cells.spec_start(), j as nat);
}

/// One octave's pass over the lattice cells of a tile of the plane.
///
/// The pass visits the cells of the slow axis in order. For each it holds,
/// in its window, the corner rows of the cell: the top edge at the cell's
/// near lattice coordinate, the bottom edge at its far one. Moving on
/// renames the bottom edge to top and fills only the new bottom edge, so
/// every edge is hashed once.
pub struct SingleOctave2D {
    perlin: Perlin,
    x_cells: AxisCells,
    y_cells: AxisCells,
    d_vecs: PerlinContainer2D,
    x_it: usize,
    x_near: i32,
}

impl SingleOctave2D {
    /// The generator state the pass hashes with.
    pub closed spec fn spec_perlin(&self) -> Perlin {
        self.perlin
    }

    /// The cells of the slow axis.
    pub closed spec fn spec_x_cells(&self) -> AxisCells {
        self.x_cells
    }

    /// The cells of the fast axis.
    pub closed spec fn spec_y_cells(&self) -> AxisCells {
        self.y_cells
    }

    /// The corner window.
    pub closed spec fn spec_window(&self) -> PerlinContainer2D {
        self.d_vecs
    }

    /// Number of cells handed out so far.
    pub closed spec fn spec_cell(&self) -> nat {
        self.x_it as nat
    }

    /// The pass is in step with its window: the edge that the next cell
    /// begins with is already in place.
    pub closed spec fn wf(&self) -> bool {
        let x_start = self.x_cells.spec_start();
        &&& valid_ends(self.x_cells.spec_ends())
        &&& valid_ends(self.y_cells.spec_ends())
        &&& self.d_vecs.wf()
        &&& self.x_it <= self.x_cells.spec_len()
        &&& self.x_near == lattice(x_start, self.x_it as nat)
        &&& self.x_it == 0 ==> edge_holds_2d(
            self.d_vecs.spec_tl(),
            self.d_vecs.spec_tr(),
            self.perlin,
            self.x_near,
            self.y_cells,
        )
        &&& self.x_it > 0 ==> edge_holds_2d(
            self.d_vecs.spec_tl(),
            self.d_vecs.spec_tr(),
            self.perlin,
            lattice(x_start, (self.x_it - 1) as nat),
            self.y_cells,
        )
        &&& self.x_it > 0 ==> edge_holds_2d(
            self.d_vecs.spec_bl(),
            self.d_vecs.spec_br(),
            self.perlin,
            self.x_near,
            self.y_cells,
        )
    }

    /// Two passes over the same cells, begun with the same seed and channel
    /// salt, that have handed out the same cell, show the same corners at
    /// every sample of the fast axis.
    pub proof fn lemma_same_inputs_same_window(&self, other: &SingleOctave2D, y: int)
        requires
            self.wf(),
            other.wf(),
            self.spec_perlin().spec_seed() == other.spec_perlin().spec_seed(),
            self.spec_perlin().spec_channel() == other.spec_perlin().spec_channel(),
            self.spec_x_cells().spec_start() == other.spec_x_cells().spec_start(),
            self.spec_x_cells().spec_ends() == other.spec_x_cells().spec_ends(),
            self.spec_y_cells().spec_start() == other.spec_y_cells().spec_start(),
            self.spec_y_cells().spec_ends() == other.spec_y_cells().spec_ends(),
            self.spec_cell() == other.spec_cell(),
            self.spec_cell() > 0,
            0 <= y < ROW_SIZE,
        ensures
            window_corners_2d(self.spec_window(), y) == window_corners_2d(other.spec_window(), y),
    {
        let j = lemma_cells_cover(self.y_cells.spec_ends(), y);
        assert(in_cell(other.y_cells.spec_ends(), j, y));
    }

    /// The corner window as the last call of `next_cell` left it.
    pub fn window(&self) -> (window: &PerlinContainer2D)
        ensures
            *window == self.spec_window(),
    {
        &self.d_vecs
    }

    /// Moves on to the next cell of the slow axis, if there is one, and
    /// returns its samples.
    ///
    /// After the call the window holds the corners of that cell. They are the
    /// corners that every sample of the cell would get if each were looked up
    /// on its own.
    pub fn next_cell(&mut self) -> (span: Option<CellSpan2D>)
        requires
            old(self).wf(),
        ensures
            final(self).wf(),
            final(self).spec_perlin() == old(self).spec_perlin(),
            final(self).spec_x_cells() == old(self).spec_x_cells(),
            final(self).spec_y_cells() == old(self).spec_y_cells(),
            span is None <==> old(self).spec_cell() == old(self).spec_x_cells().spec_len(),
            span is None ==> *final(self) == *old(self),
            span matches Some(cell) ==> {
                let i = old(self).spec_cell() as int;
                let x_cells = old(self).spec_x_cells();
                let y_cells = old(self).spec_y_cells();
                let perlin = old(self).spec_perlin();
                let window = final(self).spec_window();
                &&& final(self).spec_cell() == i + 1
                &&& cell.x_start == cell_begin(x_cells.spec_ends(), i)
                &&& cell.x_end == x_cells.spec_ends()[i]
                &&& cell.x_start <= cell.x_end <= ROW_SIZE
                &&& cell.x_start < ROW_SIZE
                &&& edge_holds_2d(
                    window.spec_tl(),
                    window.spec_tr(),
                    perlin,
                    lattice(x_cells.spec_start(), i as nat),
                    y_cells,
                )
                &&& edge_holds_2d(
                    window.spec_bl(),
                    window.spec_br(),
                    perlin,
                    lattice(x_cells.spec_start(), (i + 1) as nat),
                    y_cells,
                )
                &&& forall|y: int|
                    0 <= y < ROW_SIZE ==> corners_in_table_2d(
                        #[trigger] window_corners_2d(window, y),
                    )
                &&& forall|x: int, y: int|
                    cell.x_start <= x < cell.x_end && 0 <= y < ROW_SIZE ==> window_corners_2d(
                        window,
                        y,
                    ) == #[trigger] corners_at_2d(perlin, x_cells, y_cells, x, y)
            },
    {
        let cells: usize = self.x_cells.len();
        if self.x_it == cells {
            return None;
        }
        if self.x_it > 0 {
            // The bottom edge of the cell before is the top edge of this one.
            self.d_vecs.swap_top_bottom();
        }
        let x_far: i32 = self.x_near.wrapping_add(1);
        let (bl, br) = self.d_vecs.bl_br_mut();
        self.perlin.set_gradients_2d(bl, br, x_far, &self.y_cells);

        let cell = CellSpan2D {
            x_start: self.x_cells.begin(self.x_it),
            x_end: self.x_cells.end(self.x_it),
        };
        proof {
            let i = self.x_it as int;
            let window = self.d_vecs;
            lemma_lattice_step(self.x_cells.spec_start(), i as nat);
            assert forall|y: int| 0 <= y < ROW_SIZE implies corners_in_table_2d(
                #[trigger] window_corners_2d(window, y),
            ) by {
                let j = lemma_cells_cover(self.y_cells.spec_ends(), y);
                lemma_lattice_step(self.y_cells.spec_start(), j as nat);
                lemma_cell_corners_in_table_2d(
                    self.perlin,
                    self.x_near,
                    lattice(self.y_cells.spec_start(), j as nat),
                );
            }
            assert forall|x: int, y: int|
                cell.x_start <= x < cell.x_end && 0 <= y < ROW_SIZE implies window_corners_2d(
                window,
                y,
            ) == #[trigger] corners_at_2d(self.perlin, self.x_cells, self.y_cells, x, y) by {
                lemma_window_matches_samples_2d(
                    window,
                    self.perlin,
                    self.x_cells,
                    self.y_cells,
                    i,
                    x,
                    y,
                );
            }
        }
        self.x_it = self.x_it + 1;
        self.x_near = x_far;
        Some(cell)
    }
}

impl Perlin {
    /// Begins one octave's pass over a tile of the plane.
    ///
    /// The channel salt of the octave, `channel_seed ^ scale_sum`, is put in
    /// effect and stays in effect after the pass. The window is made and the
    /// top edge of the first cell is filled.
    pub fn single_octave_2d(
        &mut self,
        x_cells: AxisCells,
        y_cells: AxisCells,
        channel_seed: u64,
        scale_sum: u64,
    ) -> (pass: SingleOctave2D)
        ensures
            final(self).spec_seed() == old(self).spec_seed(),
            final(self).spec_channel() == channel_seed ^ scale_sum,
            pass.wf(),
            pass.spec_perlin() == *final(self),
            pass.spec_x_cells() == x_cells,
            pass.spec_y_cells() == y_cells,
            pass.spec_cell() == 0,
            edge_holds_2d(
                pass.spec_window().spec_tl(),
                pass.spec_window().spec_tr(),
                *final(self),
                x_cells.spec_start(),
                y_cells,
            ),
    {
        self.set_channel(channel_seed ^ scale_sum);
        let x_near: i32 = x_cells.start();
        proof {
            use_type_invariant(&x_cells);
            use_type_invariant(&y_cells);
        }
        let mut d_vecs = PerlinContainer2D::new_uninit();
        let (tl, tr) = d_vecs.tl_tr_mut();
        self.set_gradients_2d(tl, tr, x_near, &y_cells);
        SingleOctave2D { perlin: *self, x_cells, y_cells, d_vecs, x_it: 0, x_near }
    }

    /// The four corner indices of sample `(x, y)`, computed for this sample
    /// alone: nothing is shared with its neighbours.
    pub fn corners_at_2d(
        &self,
        x_cells: &AxisCells,
        y_cells: &AxisCells,
        x: usize,
        y: usize,
    ) -> (corners: Corners2D)
        requires
            x < ROW_SIZE,
            y < ROW_SIZE,
        ensures
            corners == corners_at_2d(*self, *x_cells, *y_cells, x as int, y as int),
            corners_in_table_2d(corners),
    {
        let i: usize = x_cells.cell_of(x);
        let j: usize = y_cells.cell_of(y);
        let x_near: i32 = x_cells.coordinate(i);
        let y_near: i32 = y_cells.coordinate(j);
        let x_far: i32 = x_near.wrapping_add(1);
        let y_far: i32 = y_near.wrapping_add(1);
        proof {
            use_type_invariant(x_cells);
            use_type_invariant(y_cells);
            lemma_sample_cell(x_cells.spec_ends(), i as int, x as int);
            lemma_sample_cell(y_cells.spec_ends(), j as int, y as int);
            lemma_lattice_step(x_near, 0);
            lemma_lattice_step(y_near, 0);
        }
        Corners2D {
            tl: self.gradient_index_2d(x_near, y_near),
            tr: self.gradient_index_2d(x_near, y_far),
            bl: self.gradient_index_2d(x_far, y_near),
            br: self.gradient_index_2d(x_far, y_far),
        }
    }
}

/// Gradient indices of the eight lattice points around a sample of space.
#[derive(Clone, Copy, Debug, PartialEq, Eq, Structural)]
pub struct Corners3D {
    /// Near along the middle axis, near along the fast axis, near along the slow axis.
    pub tlf: u8,
    /// Near along the middle axis, far along the fast axis, near along the slow axis.
    pub trf: u8,
    /// Near along the middle axis, near along the fast axis, far along the slow axis.
    pub tlb: u8,
    /// Near along the middle axis, far along the fast axis, far along the slow axis.
    pub trb: u8,
    /// Far along the middle axis, near along the fast axis, near along the slow axis.
    pub blf: u8,
    /// Far along the middle axis, far along the fast axis, near along the slow axis.
    pub brf: u8,
    /// Far along the middle axis, near along the fast axis, far along the slow axis.
    pub blb: u8,
    /// Far along the middle axis, far along the fast axis, far along the slow axis.
    pub brb: u8,
}

/// The samples of the slow and of the middle axis that one lattice cell
/// holds.
#[derive(Clone, Copy, Debug, PartialEq, Eq, Structural)]
pub struct CellSpan3D {
    /// First sample of the cell along the slow axis.
    pub x_start: usize,
    /// First sample beyond the cell along the slow axis.
    pub x_end: usize,
    /// First sample of the cell along the middle axis.
    pub y_start: usize,
    /// First sample beyond the cell along the middle axis.
    pub y_end: usize,
}

/// The eight corner indices of the cell with the lattice coordinates
/// `(x_near, y_near, z_near)`.
pub open spec fn cell_corners_3d(
    perlin: Perlin,
    x_near: i32,
    y_near: i32,
    z_near: i32,
) -> Corners3D {
    let seed = perlin.spec_seed();
    let channel = perlin.spec_channel();
    let x_far = lattice(x_near, 1);
    let y_far = lattice(y_near, 1);
    let z_far = lattice(z_near, 1);
    Corners3D {
        tlf: gradient_index_3d(seed, channel, x_near, y_near, z_near),
        trf: gradient_index_3d(seed, channel, x_near, y_near, z_far),
        tlb: gradient_index_3d(seed, channel, x_far, y_near, z_near),
        trb: gradient_index_3d(seed, channel, x_far, y_near, z_far),
        blf: gradient_index_3d(seed, channel, x_near, y_far, z_near),
        brf: gradient_index_3d(seed, channel, x_near, y_far, z_far),
        blb: gradient_index_3d(seed, channel, x_far, y_far, z_near),
        brb: gradient_index_3d(seed, channel, x_far, y_far, z_far),
    }
}

/// The eight corner indices of sample `(x, y, z)`, found from the sample
/// alone: look up the cell of each coordinate and hash the eight lattice
/// points around it.
pub open spec fn corners_at_3d(
    perlin: Perlin,
    x_cells: AxisCells,
    y_cells: AxisCells,
    z_cells: AxisCells,
    x: int,
    y: int,
    z: int,
) -> Corners3D {
    cell_corners_3d(
        perlin,
        lattice(x_cells.spec_start(), sample_cell(x_cells.spec_ends(), x) as nat),
        lattice(y_cells.spec_start(), sample_cell(y_cells.spec_ends(), y) as nat),
        lattice(z_cells.spec_start(), sample_cell(z_cells.spec_ends(), z) as nat),
    )
}

/// Whether each of the eight indices names one of the twelve spatial
/// directions.
pub open spec fn corners_in_table_3d(corners: Corners3D) -> bool {
    &&& corners.tlf < DIRECTIONS_3D
    &&& corners.trf < DIRECTIONS_3D
    &&& corners.tlb < DIRECTIONS_3D
    &&& corners.trb < DIRECTIONS_3D
    &&& corners.blf < DIRECTIONS_3D
    &&& corners.brf < DIRECTIONS_3D
    &&& corners.blb < DIRECTIONS_3D
    &&& corners.brb < DIRECTIONS_3D
}

/// The corner indices of a cell always name spatial directions.
pub proof fn lemma_cell_corners_in_table_3d(
    perlin: Perlin,
    x_near: i32,
    y_near: i32,
    z_near: i32,
)
    ensures
        corners_in_table_3d(cell_corners_3d(perlin, x_near, y_near, z_near)),
{
}

/// What the window shows at sample `z` of the fast axis.
pub open spec fn window_corners_3d(window: PerlinContainer3D, z: int) -> Corners3D {
    Corners3D {
        tlf: window.spec_tlf()[z],
        trf: window.spec_trf()[z],
        tlb: window.spec_tlb()[z],
        trb: window.spec_trb()[z],
        blf: window.spec_blf()[z],
        brf: window.spec_brf()[z],
        blb: window.spec_blb()[z],
        brb: window.spec_brb()[z],
    }
}

/// Whether the top rows of a window hold the face at `(x, y)`.
pub open spec fn top_holds_3d(
    window: PerlinContainer3D,
    perlin: Perlin,
    x: i32,
    y: i32,
    z_cells: AxisCells,
) -> bool {
    face_holds_3d(
        window.spec_tlf(),
        window.spec_trf(),
        window.spec_tlb(),
        window.spec_trb(),
        perlin,
        x,
        y,
        z_cells,
    )
}

/// Whether the bottom rows of a window hold the face at `(x, y)`.
pub open spec fn bottom_holds_3d(
    window: PerlinContainer3D,
    perlin: Perlin,
    x: i32,
    y: i32,
    z_cells: AxisCells,
) -> bool {
    face_holds_3d(
        window.spec_blf(),
        window.spec_brf(),
        window.spec_blb(),
        window.spec_brb(),
        perlin,
        x,
        y,
        z_cells,
    )
}

/// If the window's top and bottom face are those of the cell `(i, j)` of
/// the slow and the middle axis, every sample of that cell finds in the
/// window the corners it would get on its own.
pub proof fn lemma_window_matches_samples_3d(
    window: PerlinContainer3D,
    perlin: Perlin,
    x_cells: AxisCells,
    y_cells: AxisCells,
    z_cells: AxisCells,
    i: int,
    j: int,
    x: int,
    y: int,
    z: int,
)
    requires
        valid_ends(x_cells.spec_ends()),
        valid_ends(y_cells.spec_ends()),
        valid_ends(z_cells.spec_ends()),
        in_cell(x_cells.spec_ends(), i, x),
        in_cell(y_cells.spec_ends(), j, y),
        0 <= z < ROW_SIZE,
        top_holds_3d(
            window,
            perlin,
            lattice(x_cells.spec_start(), i as nat),
            lattice(y_cells.spec_start(), j as nat),
            z_cells,
        ),
        bottom_holds_3d(
            window,
            perlin,
            lattice(x_cells.spec_start(), i as nat),
            lattice(y_cells.spec_start(), (j + 1) as nat),
            z_cells,
        ),
    ensures
        window_corners_3d(window, z) == corners_at_3d(perlin, x_cells, y_cells, z_cells, x, y, z),
{
    lemma_sample_cell(x_cells.spec_ends(), i, x);
    lemma_sample_cell(y_cells.spec_ends(), j, y);
    let c = lemma_cells_cover(z_cells.spec_ends(), z);
    lemma_sample_cell(z_cells.spec_ends(), c, z);
    lemma_lattice_step(y_cells.spec_start(), j as nat);
    lemma_lattice_step(z_cells.spec_start(), c as nat);
}

/// One octave's pass over the lattice cells of a tile of space.
///
/// The pass visits the cells of the slow axis in order and, within each,
/// the cells of the middle axis in order. For each it holds, in its window,
/// the corner rows of the cell: the top face at the cell's near lattice
/// coordinate of the middle axis, the bottom face at its far one. Moving
/// along the middle axis renames the bottom face to top and fills only the
/// new bottom face; moving along the slow axis starts with a fresh top face.
pub struct SingleOctave3D {
    perlin: Perlin,
    x_cells: AxisCells,
    y_cells: AxisCells,
    z_cells: AxisCells,
    d_vecs: PerlinContainer3D,
    x_it: usize,
    y_it: usize,
    x_near: i32,
    y_near: i32,
}

impl SingleOctave3D {
    /// The generator state the pass hashes with.
    pub closed spec fn spec_perlin(&self) -> Perlin {
        self.perlin
    }

    /// The cells of the slow axis.
    pub closed spec fn spec_x_cells(&self) -> AxisCells {
        self.x_cells
    }

    /// The cells of the middle axis.
    pub closed spec fn spec_y_cells(&self) -> AxisCells {
        self.y_cells
    }

    /// The cells of the fast axis.
    pub closed spec fn spec_z_cells(&self) -> AxisCells {
        self.z_cells
    }

    /// The corner window.
    pub closed spec fn spec_window(&self) -> PerlinContainer3D {
        self.d_vecs
    }

    /// Index, along the slow axis, of the cell that comes next; the number
    /// of cells of that axis once the pass is over.
    pub closed spec fn spec_x_cell(&self) -> nat {
        self.x_it as nat
    }

    /// Index, along the middle axis, of the cell that comes next.
    pub closed spec fn spec_y_cell(&self) -> nat {
        self.y_it as nat
    }

    /// The pass is in step with its window: within a sweep of the middle
    /// axis, the face that the next cell begins with is already in place.
    pub closed spec fn wf(&self) -> bool {
        &&& valid_ends(self.x_cells.spec_ends())
        &&& valid_ends(self.y_cells.spec_ends())
        &&& valid_ends(self.z_cells.spec_ends())
        &&& self.d_vecs.wf()
        &&& self.x_it <= self.x_cells.spec_len()
        &&& self.y_it < self.y_cells.spec_len()
        &&& self.x_it == self.x_cells.spec_len() ==> self.y_it == 0
        &&& self.x_near == lattice(self.x_cells.spec_start(), self.x_it as nat)
        &&& self.y_near == lattice(self.y_cells.spec_start(), self.y_it as nat)
        &&& self.spec_started() ==> top_holds_3d(
            self.d_vecs,
            self.perlin,
            lattice(self.x_cells.spec_start(), self.spec_last_cell().0),
            lattice(self.y_cells.spec_start(), self.spec_last_cell().1),
            self.z_cells,
        )
        &&& self.spec_started() ==> bottom_holds_3d(
            self.d_vecs,
            self.perlin,
            lattice(self.x_cells.spec_start(), self.spec_last_cell().0),
            lattice(self.y_cells.spec_start(), self.spec_last_cell().1 + 1),
            self.z_cells,
        )
    }

    /// Whether a cell has been handed out yet.
    pub open spec fn spec_started(&self) -> bool {
        self.spec_x_cell() > 0 || self.spec_y_cell() > 0
    }

    /// The cell handed out last, by its index along the slow and along the
    /// middle axis.
    pub open spec fn spec_last_cell(&self) -> (nat, nat) {
        if self.spec_y_cell() > 0 {
            (self.spec_x_cell(), (self.spec_y_cell() - 1) as nat)
        } else {
            ((self.spec_x_cell() - 1) as nat, (self.spec_y_cells().spec_len() - 1) as nat)
        }
    }

    /// Two passes over the same cells, begun with the same seed and channel
    /// salt, that have handed out the same cell, show the same corners at
    /// every sample of the fast axis.
    pub proof fn lemma_same_inputs_same_window(&self, other: &SingleOctave3D, z: int)
        requires
            self.wf(),
            other.wf(),
            self.spec_perlin().spec_seed() == other.spec_perlin().spec_seed(),
            self.spec_perlin().spec_channel() == other.spec_perlin().spec_channel(),
            self.spec_x_cells().spec_start() == other.spec_x_cells().spec_start(),
            self.spec_x_cells().spec_ends() == other.spec_x_cells().spec_ends(),
            self.spec_y_cells().spec_start() == other.spec_y_cells().spec_start(),
            self.spec_y_cells().spec_ends() == other.spec_y_cells().spec_ends(),
            self.spec_z_cells().spec_start() == other.spec_z_cells().spec_start(),
            self.spec_z_cells().spec_ends() == other.spec_z_cells().spec_ends(),
            self.spec_x_cell() == other.spec_x_cell(),
            self.spec_y_cell() == other.spec_y_cell(),
            self.spec_started(),
            0 <= z < ROW_SIZE,
        ensures
            window_corners_3d(self.spec_window(), z) == window_corners_3d(other.spec_window(), z),
    {
        let c = lemma_cells_cover(self.z_cells.spec_ends(), z);
        assert(in_cell(other.z_cells.spec_ends(), c, z));
    }

    /// The corner window as the last call of `next_cell` left it.
    pub fn window(&self) -> (window: &PerlinContainer3D)
        ensures
            *window == self.spec_window(),
    {
        &self.d_vecs
    }

    /// Moves on to the next cell, if there is one, and returns its samples.
    ///
    /// After the call the window holds the corners of that cell. They are the
    /// corners that every sample of the cell would get if each were looked up
    /// on its own.
    pub fn next_cell(&mut self) -> (span: Option<CellSpan3D>)
        requires
            old(self).wf(),
        ensures
            final(self).wf(),
            final(self).spec_perlin() == old(self).spec_perlin(),
            final(self).spec_x_cells() == old(self).spec_x_cells(),
            final(self).spec_y_cells() == old(self).spec_y_cells(),
            final(self).spec_z_cells() == old(self).spec_z_cells(),
            span is None <==> old(self).spec_x_cell() == old(self).spec_x_cells().spec_len(),
            span is None ==> *final(self) == *old(self),
            span matches Some(cell) ==> {
                let i = old(self).spec_x_cell() as int;
                let j = old(self).spec_y_cell() as int;
                let x_cells = old(self).spec_x_cells();
                let y_cells = old(self).spec_y_cells();
                let z_cells = old(self).spec_z_cells();
                let perlin = old(self).spec_perlin();
                let window = final(self).spec_window();
                let x_near = lattice(x_cells.spec_start(), i as nat);
                let x_next = final(self).spec_x_cell();
                let y_next = final(self).spec_y_cell();
                &&& j + 1 < y_cells.spec_len() ==> x_next == i && y_next == j + 1
                &&& j + 1 == y_cells.spec_len() ==> x_next == i + 1 && y_next == 0
                &&& cell.x_start == cell_begin(x_cells.spec_ends(), i)
                &&& cell.x_end == x_cells.spec_ends()[i]
                &&& cell.y_start == cell_begin(y_cells.spec_ends(), j)
                &&& cell.y_end == y_cells.spec_ends()[j]
                &&& cell.x_start <= cell.x_end <= ROW_SIZE
                &&& cell.y_start <= cell.y_end <= ROW_SIZE
                &&& cell.x_start < ROW_SIZE
                &&& cell.y_start < ROW_SIZE
                &&& top_holds_3d(
                    window,
                    perlin,
                    x_near,
                    lattice(y_cells.spec_start(), j as nat),
                    z_cells,
                )
                &&& bottom_holds_3d(
                    window,
                    perlin,
                    x_near,
                    lattice(y_cells.spec_start(), (j + 1) as nat),
                    z_cells,
                )
                &&& forall|z: int|
                    0 <= z < ROW_SIZE ==> corners_in_table_3d(
                        #[trigger] window_corners_3d(window, z),
                    )
                &&& forall|x: int, y: int, z: int|
                    cell.x_start <= x < cell.x_end && cell.y_start <= y < cell.y_end && 0 <= z
                        < ROW_SIZE ==> window_corners_3d(window, z) == #[trigger] corners_at_3d(
                        perlin,
                        x_cells,
                        y_cells,
                        z_cells,
                        x,
                        y,
                        z,
                    )
            },
    {
        let x_count: usize = self.x_cells.len();
        let y_count: usize = self.y_cells.len();
        if self.x_it == x_count {
            return None;
        }
        if self.y_it == 0 {
            // A new sweep of the middle axis begins with a fresh top face.
            let (tlf, trf, tlb, trb) = self.d_vecs.tlf_trf_tlb_trb_mut();
            self.perlin.set_gradients_3d(
                tlf,
                trf,
                tlb,
                trb,
                self.x_near,
                self.y_near,
                &self.z_cells,
            );
        } else {
            // The bottom face of the cell before is the top face of this one.
            self.d_vecs.swap_top_bottom();
        }
        let y_far: i32 = self.y_near.wrapping_add(1);
        let (blf, brf, blb, brb) = self.d_vecs.blf_brf_blb_brb_mut();
        self.perlin.set_gradients_3d(blf, brf, blb, brb, self.x_near, y_far, &self.z_cells);

        let cell = CellSpan3D {
            x_start: self.x_cells.begin(self.x_it),
            x_end: self.x_cells.end(self.x_it),
            y_start: self.y_cells.begin(self.y_it),
            y_end: self.y_cells.end(self.y_it),
        };
        proof {
            let i = self.x_it as int;
            let j = self.y_it as int;
            let x_ends = self.x_cells.spec_ends();
            let y_ends = self.y_cells.spec_ends();
            let z_ends = self.z_cells.spec_ends();
            let window = self.d_vecs;
            lemma_lattice_step(self.y_cells.spec_start(), j as nat);
            assert forall|z: int| 0 <= z < ROW_SIZE implies corners_in_table_3d(
                #[trigger] window_corners_3d(window, z),
            ) by {
                let c = lemma_cells_cover(self.z_cells.spec_ends(), z);
                assert(in_cell(self.z_cells.spec_ends(), c, z));
            }
            assert forall|x: int, y: int, z: int|
                cell.x_start <= x < cell.x_end && cell.y_start <= y < cell.y_end && 0 <= z
                    < ROW_SIZE implies window_corners_3d(window, z) == #[trigger] corners_at_3d(
                self.perlin,
                self.x_cells,
                self.y_cells,
                self.z_cells,
                x,
                y,
                z,
            ) by {
                lemma_window_matches_samples_3d(
                    window,
                    self.perlin,
                    self.x_cells,
                    self.y_cells,
                    self.z_cells,
                    i,
                    j,
                    x,
                    y,
                    z,
                );
            }
        }
        if self.y_it + 1 == y_count {
            self.y_it = 0;
            self.y_near = self.y_cells.start();
            self.x_it = self.x_it + 1;
            self.x_near = self.x_near.wrapping_add(1);
        } else {
            self.y_it = self.y_it + 1;
            self.y_near = y_far;
        }
        Some(cell)
    }
}

impl Perlin {
    /// Begins one octave's pass over a tile of space.
    ///
    /// The channel salt of the octave, `channel_seed ^ scale_sum`, is put in
    /// effect and stays in effect after the pass. The window is made; its
    /// rows are filled as the cells are visited.
    pub fn single_octave_3d(
        &mut self,
        x_cells: AxisCells,
        y_cells: AxisCells,
        z_cells: AxisCells,
        channel_seed: u64,
        scale_sum: u64,
    ) -> (pass: SingleOctave3D)
        ensures
            final(self).spec_seed() == old(self).spec_seed(),
            final(self).spec_channel() == channel_seed ^ scale_sum,
            pass.wf(),
            pass.spec_perlin() == *final(self),
            pass.spec_x_cells() == x_cells,
            pass.spec_y_cells() == y_cells,
            pass.spec_z_cells() == z_cells,
            pass.spec_x_cell() == 0,
            pass.spec_y_cell() == 0,
            forall|p: int, k: int|
                0 <= p < 8 && 0 <= k < ROW_SIZE ==> pass.spec_window().pool()[p][k] == 0,
    {
        self.set_channel(channel_seed ^ scale_sum);
        let x_near: i32 = x_cells.start();
        let y_near: i32 = y_cells.start();
        proof {
            use_type_invariant(&x_cells);
            use_type_invariant(&y_cells);
            use_type_invariant(&z_cells);
        }
        SingleOctave3D {
            perlin: *self,
            x_cells,
            y_cells,
            z_cells,
            d_vecs: PerlinContainer3D::new_uninit(),
            x_it: 0,
            y_it: 0,
            x_near,
            y_near,
        }
    }

    /// The eight corner indices of sample `(x, y, z)`, computed for this
    /// sample alone: nothing is shared with its neighbours.
    pub fn corners_at_3d(
        &self,
        x_cells: &AxisCells,
        y_cells: &AxisCells,
        z_cells: &AxisCells,
        x: usize,
        y: usize,
        z: usize,
    ) -> (corners: Corners3D)
        requires
            x < ROW_SIZE,
            y < ROW_SIZE,
            z < ROW_SIZE,
        ensures
            corners == corners_at_3d(
                *self,
                *x_cells,
                *y_cells,
                *z_cells,
                x as int,
                y as int,
                z as int,
            ),
            corners_in_table_3d(corners),
    {
        let i: usize = x_cells.cell_of(x);
        let j: usize = y_cells.cell_of(y);
        let c: usize = z_cells.cell_of(z);
        let x_near: i32 = x_cells.coordinate(i);
        let y_near: i32 = y_cells.coordinate(j);
        let z_near: i32 = z_cells.coordinate(c);
        let x_far: i32 = x_near.wrapping_add(1);
        let y_far: i32 = y_near.wrapping_add(1);
        let z_far: i32 = z_near.wrapping_add(1);
        proof {
            use_type_invariant(x_cells);
            use_type_invariant(y_cells);
            use_type_invariant(z_cells);
            lemma_sample_cell(x_cells.spec_ends(), i as int, x as int);
            lemma_sample_cell(y_cells.spec_ends(), j as int, y as int);
            lemma_sample_cell(z_cells.spec_ends(), c as int, z as int);
            lemma_lattice_step(x_near, 0);
            lemma_lattice_step(y_near, 0);
            lemma_lattice_step(z_near, 0);
        }
        Corners3D {
            tlf: self.gradient_index_3d(x_near, y_near, z_near),
            trf: self.gradient_index_3d(x_near, y_near, z_far),
            tlb: self.gradient_index_3d(x_far, y_near, z_near),
            trb: self.gradient_index_3d(x_far, y_near, z_far),
            blf: self.gradient_index_3d(x_near, y_far, z_near),
            brf: self.gradient_index_3d(x_near, y_far, z_far),
            blb: self.gradient_index_3d(x_far, y_far, z_near),
            brb: self.gradient_index_3d(x_far, y_far, z_far),
        }
    }
}

} // verus!

use vstd::prelude::*;
use vstd::wrapping::i32_specs;
use crate::noise::perlin::cells::{
    cell_begin, in_cell, lattice, lemma_lattice_advance, valid_ends, AxisCells,
};
use crate::noise::perlin::constants::ROW_SIZE;
use crate::noise::perlin::generator::{gradient_index_2d, gradient_index_3d, Perlin};
use crate::simd::arch_simd::SimdInfo;

verus! {

/// Whether two rows hold the edge of the plane's window at the lattice
/// coordinate `x` of the slow axis: for every cell of the fast axis, over
/// the samples of the cell, `left` holds the gradient index of the cell's
/// near lattice point and `right` that of its far one.
pub open spec fn edge_holds_2d(
    left: Seq<u8>,
    right: Seq<u8>,
    perlin: Perlin,
    x: i32,
    y_cells: AxisCells,
) -> bool {
    forall|j: int, k: int|
        in_cell(y_cells.spec_ends(), j, k) ==> {
            let seed = perlin.spec_seed();
            let channel = perlin.spec_channel();
            let y_near = lattice(y_cells.spec_start(), j as nat);
            let y_far = lattice(y_cells.spec_start(), (j + 1) as nat);
            &&& left[k] == gradient_index_2d(seed, channel, x, y_near)
            &&& right[k] == gradient_index_2d(seed, channel, x, y_far)
        }
}

/// Whether four rows hold the face of the spatial window at the lattice
/// coordinate `y` of the middle axis, between `x` (front) and the lattice
/// point after it (back) on the slow axis: for every cell of the fast axis,
/// over the samples of the cell, the left rows hold the gradient index of
/// the cell's near lattice point and the right rows that of its far one.
pub open spec fn face_holds_3d(
    lf: Seq<u8>,
    rf: Seq<u8>,
    lb: Seq<u8>,
    rb: Seq<u8>,
    perlin: Perlin,
    x: i32,
    y: i32,
    z_cells: AxisCells,
) -> bool {
    forall|j: int, k: int|
        in_cell(z_cells.spec_ends(), j, k) ==> {
            let seed = perlin.spec_seed();
            let channel = perlin.spec_channel();
            let x_back = lattice(x, 1);
            let z_near = lattice(z_cells.spec_start(), j as nat);
            let z_far = lattice(z_cells.spec_start(), (j + 1) as nat);
            &&& lf[k] == gradient_index_3d(seed, channel, x, y, z_near)
            &&& rf[k] == gradient_index_3d(seed, channel, x, y, z_far)
            &&& lb[k] == gradient_index_3d(seed, channel, x_back, y, z_near)
            &&& rb[k] == gradient_index_3d(seed, channel, x_back, y, z_far)
        }
}

/// The lattice coordinates of one vector of lanes: lane `l` holds the
/// coordinate of cell `l`, counted from `start`.
fn iota_lanes(start: i32, lanes: usize) -> (coordinates: Vec<i32>)
    ensures
        coordinates.len() == lanes,
        forall|l: int| 0 <= l < lanes ==> coordinates[l] == lattice(start, l as nat),
{
    let mut coordinates: Vec<i32> = Vec::new();
    let mut at: i32 = start;
    let mut lane: usize = 0;
    while lane < lanes
        invariant
            lane <= lanes,
            coordinates.len() == lane,
            at == lattice(start, lane as nat),
            forall|l: int| 0 <= l < lane ==> coordinates[l] == lattice(start, l as nat),
        decreases lanes - lane,
    {
        coordinates.push(at);
        at = at.wrapping_add(1);
        lane += 1;
    }
    coordinates
}

/// One vector of lanes that all hold `value`.
fn splat_lanes(value: i32, lanes: usize) -> (coordinates: Vec<i32>)
    ensures
        coordinates.len() == lanes,
        forall|l: int| 0 <= l < lanes ==> coordinates[l] == value,
{
    let mut coordinates: Vec<i32> = Vec::new();
    let mut lane: usize = 0;
    while lane < lanes
        invariant
            lane <= lanes,
            coordinates.len() == lane,
            forall|l: int| 0 <= l < lane ==> coordinates[l] == value,
        decreases lanes - lane,
    {
        coordinates.push(value);
        lane += 1;
    }
    coordinates
}

/// Moves every lane of a vector of coordinates on by the width of the
/// vector.
fn advance_lanes(coordinates: &mut Vec<i32>, Ghost(start): Ghost<i32>, Ghost(first): Ghost<nat>)
    requires
        1 <= old(coordinates).len() <= i32::MAX,
        forall|l: int|
            0 <= l < old(coordinates).len() ==> old(coordinates)[l] == lattice(
                start,
                (first + l) as nat,
            ),
    ensures
        final(coordinates).len() == old(coordinates).len(),
        forall|l: int|
            0 <= l < final(coordinates).len() ==> final(coordinates)[l] == lattice(
                start,
                (first + old(coordinates).len() + l) as nat,
            ),
{
    let lanes: usize = coordinates.len();
    let lane_increment: i32 = lanes as i32;
    let mut lane: usize = 0;
    while lane < lanes
        invariant
            lane <= lanes,
            lanes == coordinates.len(),
            lanes == old(coordinates).len(),
            1 <= lanes <= i32::MAX,
            lane_increment == lanes,
            forall|l: int|
                0 <= l < lane ==> coordinates[l] == lattice(start, (first + lanes + l) as nat),
            forall|l: int|
                lane <= l < lanes ==> coordinates[l] == lattice(start, (first + l) as nat),
        decreases lanes - lane,
    {
        proof {
            lemma_lattice_advance(start, first + lane as nat, lanes as nat);
        }
        let moved: i32 = coordinates[lane].wrapping_add(lane_increment);
        coordinates[lane] = moved;
        lane += 1;
    }
}

/// Writes `value` to the samples `from..to` of `row` and leaves the rest.
fn store_run(row: &mut [u8; 32], value: u8, from: usize, to: usize)
    requires
        from <= to <= ROW_SIZE,
    ensures
        forall|k: int| from <= k < to ==> final(row)[k] == value,
        forall|k: int| 0 <= k < ROW_SIZE && !(from <= k < to) ==> final(row)[k] == old(row)[k],
{
    let mut k: usize = from;
    while k < to
        invariant
            from <= k <= to <= ROW_SIZE,
            forall|i: int| from <= i < k ==> row[i] == value,
            forall|i: int| 0 <= i < ROW_SIZE && !(from <= i < k) ==> row[i] == old(row)[i],
        decreases to - k,
    {
        row[k] = value;
        k += 1;
    }
}

impl Perlin {
    /// Fills the two corner rows of one edge of the plane's window.
    ///
    /// The edge lies at the lattice coordinate `x_start` of the slow axis.
    /// Every sample of a cell of the fast axis gets, in `left`, the gradient
    /// index of the lattice point at the cell's near side and, in `right`,
    /// that of the lattice point at its far side. Each lattice point is
    /// hashed once, however many samples its cells hold.
    pub fn set_gradients_2d(
        &self,
        left: &mut [u8; 32],
        right: &mut [u8; 32],
        x_start: i32,
        y_cells: &AxisCells,
    )
        ensures
            edge_holds_2d(final(left)@, final(right)@, *self, x_start, *y_cells),
    {
        let cells: usize = y_cells.len();
        let ghost ends = y_cells.spec_ends();
        let ghost start = y_cells.spec_start();
        let ghost seed = self.spec_seed();
        let ghost channel = self.spec_channel();

        // One gradient index per lattice point along the fast axis, hashed a
        // vector of lanes at a time.
        let lanes: usize = <i32 as SimdInfo>::LANES;
        proof {
            <i32 as SimdInfo>::lemma_lanes_fit_row();
        }
        let x_vec: Vec<i32> = splat_lanes(x_start, lanes);
        let mut y_vec: Vec<i32> = iota_lanes(y_cells.start(), lanes);
        let mut grad_array: Vec<u8> = Vec::new();
        while grad_array.len() <= cells
            invariant
                1 <= lanes <= i32::MAX,
                x_vec.len() == lanes,
                y_vec.len() == lanes,
                seed == self.spec_seed(),
                channel == self.spec_channel(),
                forall|l: int| 0 <= l < lanes ==> x_vec[l] == x_start,
                forall|l: int|
                    0 <= l < lanes ==> y_vec[l] == lattice(start, (grad_array.len() + l) as nat),
                forall|m: int|
                    0 <= m < grad_array.len() ==> grad_array[m] == gradient_index_2d(
                        seed,
                        channel,
                        x_start,
                        lattice(start, m as nat),
                    ),
            decreases cells + lanes - grad_array.len(),
        {
            let ghost done = grad_array.len() as nat;
            let mut grad_vec: Vec<u8> = self.gradient_indices_2d(
                x_vec.as_slice(),
                y_vec.as_slice(),
            );
            grad_array.append(&mut grad_vec);
            advance_lanes(&mut y_vec, Ghost(start), Ghost(done));
        }

        // Spread each cell's pair of indices over the samples of the cell.
        let mut cur_index: usize = 0;
        let mut y_it: usize = 0;
        while y_it < cells
            invariant
                ends == y_cells.spec_ends(),
                valid_ends(ends),
                cells == ends.len(),
                grad_array.len() > cells,
                y_it <= cells,
                cur_index == cell_begin(ends, y_it as int),
                cur_index <= ROW_SIZE,
                forall|j: int, k: int|
                    0 <= j < y_it && in_cell(ends, j, k) ==> left[k] == grad_array[j] && right[k]
                        == grad_array[j + 1],
            decreases cells - y_it,
        {
            let y_next_index: usize = y_cells.end(y_it);
            let l: u8 = grad_array[y_it];
            let r: u8 = grad_array[y_it + 1];
            store_run(left, l, cur_index, y_next_index);
            store_run(right, r, cur_index, y_next_index);
            assert forall|j: int, k: int| 0 <= j < y_it + 1 && in_cell(ends, j, k) implies left[k]
                == grad_array[j] && right[k] == grad_array[j + 1] by {
                if j < y_it {
                    assert(ends[j] <= ends[y_it - 1]);
                }
            }
            cur_index = y_next_index;
            y_it += 1;
        }
    }

    /// Fills the four corner rows of one face of the spatial window.
    ///
    /// The face lies at the lattice coordinate `y_start` of the middle axis
    /// and spans the slow axis from `x_start` (front) to the lattice point
    /// after it (back). Every sample of a cell of the fast axis gets the
    /// gradient indices of the four lattice points around it: left at the
    /// cell's near side, right at its far side. Each lattice point is hashed
    /// once, however many samples its cells hold.
    pub fn set_gradients_3d(
        &self,
        lf: &mut [u8; 32],
        rf: &mut [u8; 32],
        lb: &mut [u8; 32],
        rb: &mut [u8; 32],
        x_start: i32,
        y_start: i32,
        z_cells: &AxisCells,
    )
        ensures
            face_holds_3d(
                final(lf)@,
                final(rf)@,
                final(lb)@,
                final(rb)@,
                *self,
                x_start,
                y_start,
                *z_cells,
            ),
    {
        let cells: usize = z_cells.len();
        let ghost ends = z_cells.spec_ends();
        let ghost start = z_cells.spec_start();
        let ghost seed = self.spec_seed();
        let ghost channel = self.spec_channel();
        let x_back: i32 = x_start.wrapping_add(1);
        assert(x_back == lattice(x_start, 1)) by {
            assert(lattice(x_start, 1) == i32_specs::wrapping_add(lattice(x_start, 0), 1));
        }

        // One gradient index per lattice point along the fast axis, for the
        // front and for the back, hashed a vector of lanes at a time.
        let lanes: usize = <i32 as SimdInfo>::LANES;
        proof {
            <i32 as SimdInfo>::lemma_lanes_fit_row();
        }
        let x_front_vec: Vec<i32> = splat_lanes(x_start, lanes);
        let x_back_vec: Vec<i32> = splat_lanes(x_back, lanes);
        let y_vec: Vec<i32> = splat_lanes(y_start, lanes);
        let mut z_vec: Vec<i32> = iota_lanes(z_cells.start(), lanes);
        let mut front_grad_array: Vec<u8> = Vec::new();
        let mut back_grad_array: Vec<u8> = Vec::new();
        while front_grad_array.len() <= cells
            invariant
                1 <= lanes <= i32::MAX,
                x_front_vec.len() == lanes,
                x_back_vec.len() == lanes,
                y_vec.len() == lanes,
                z_vec.len() == lanes,
                front_grad_array.len() == back_grad_array.len(),
                seed == self.spec_seed(),
                channel == self.spec_channel(),
                forall|l: int| 0 <= l < lanes ==> x_front_vec[l] == x_start,
                forall|l: int| 0 <= l < lanes ==> x_back_vec[l] == x_back,
                forall|l: int| 0 <= l < lanes ==> y_vec[l] == y_start,
                forall|l: int|
                    0 <= l < lanes ==> z_vec[l] == lattice(
                        start,
                        (front_grad_array.len() + l) as nat,
                    ),
                forall|m: int|
                    0 <= m < front_grad_array.len() ==> front_grad_array[m] == gradient_index_3d(
                        seed,
                        channel,
                        x_start,
                        y_start,
                        lattice(start, m as nat),
                    ),
                forall|m: int|
                    0 <= m < back_grad_array.len() ==> back_grad_array[m] == gradient_index_3d(
                        seed,
                        channel,
                        x_back,
                        y_start,
                        lattice(start, m as nat),
                    ),
            decreases cells + lanes - front_grad_array.len(),
        {
            let ghost done = front_grad_array.len() as nat;
            let mut front_grad_vec: Vec<u8> = self.gradient_indices_3d(
                x_front_vec.as_slice(),
                y_vec.as_slice(),
                z_vec.as_slice(),
            );
            let mut back_grad_vec: Vec<u8> = self.gradient_indices_3d(
                x_back_vec.as_slice(),
                y_vec.as_slice(),
                z_vec.as_slice(),
            );
            front_grad_array.append(&mut front_grad_vec);
            back_grad_array.append(&mut back_grad_vec);
            advance_lanes(&mut z_vec, Ghost(start), Ghost(done));
        }

        // Spread each cell's four indices over the samples of the cell.
        let mut z_cur_index: usize = 0;
        let mut z_it: usize = 0;
        while z_it < cells
            invariant
                ends == z_cells.spec_ends(),
                valid_ends(ends),
                cells == ends.len(),
                front_grad_array.len() > cells,
                back_grad_array.len() > cells,
                z_it <= cells,
                z_cur_index == cell_begin(ends, z_it as int),
                z_cur_index <= ROW_SIZE,
                forall|j: int, k: int|
                    0 <= j < z_it && in_cell(ends, j, k) ==> {
                        &&& lf[k] == front_grad_array[j]
                        &&& rf[k] == front_grad_array[j + 1]
                        &&& lb[k] == back_grad_array[j]
                        &&& rb[k] == back_grad_array[j + 1]
                    },
            decreases cells - z_it,
        {
            let z_next_index: usize = z_cells.end(z_it);
            let lf_grad: u8 = front_grad_array[z_it];
            let rf_grad: u8 = front_grad_array[z_it + 1];
            let lb_grad: u8 = back_grad_array[z_it];
            let rb_grad: u8 = back_grad_array[z_it + 1];
            store_run(lf, lf_grad, z_cur_index, z_next_index);
            store_run(rf, rf_grad, z_cur_index, z_next_index);
            store_run(lb, lb_grad, z_cur_index, z_next_index);
            store_run(rb, rb_grad, z_cur_index, z_next_index);
            assert forall|j: int, k: int| 0 <= j < z_it + 1 && in_cell(ends, j, k) implies {
                &&& lf[k] == front_grad_array[j]
                &&& rf[k] == front_grad_array[j + 1]
                &&& lb[k] == back_grad_array[j]
                &&& rb[k] == back_grad_array[j + 1]
            } by {
                if j < z_it {
                    assert(ends[j] <= ends[z_it - 1]);
                }
            }
            z_cur_index = z_next_index;
            z_it += 1;
        }
    }
}

} // verus!

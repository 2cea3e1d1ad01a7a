use vstd::prelude::*;
use vstd::wrapping::i32_specs;
use crate::noise::perlin::constants::ROW_SIZE;
use crate::noise::perlin::error::NoiseError;

verus! {

/// Lattice coordinate of the `j`-th cell counted from `start`. Coordinates
/// advance by one per cell and wrap around at the ends of the `i32` range.
pub open spec fn lattice(start: i32, j: nat) -> i32
    decreases j,
{
    if j == 0 {
        start
    } else {
        i32_specs::wrapping_add(lattice(start, (j - 1) as nat), 1)
    }
}

/// First sample of cell `j`: where the cell before it ends.
pub open spec fn cell_begin(ends: Seq<u32>, j: int) -> int {
    if j <= 0 {
        0
    } else {
        ends[j - 1] as int
    }
}

/// Whether `ends` splits the samples `0..ROW_SIZE` of one axis into cells:
/// there is at least one cell, the boundaries never go back, every cell but
/// the last ends inside the row, and the last ends exactly at its end. The
/// cells have one lattice point more than there are cells, and that number
/// has to fit the machine word.
pub open spec fn valid_ends(ends: Seq<u32>) -> bool {
    &&& 1 <= ends.len() < usize::MAX
    &&& ends[ends.len() - 1] == ROW_SIZE
    &&& forall|j: int| 0 <= j < ends.len() - 1 ==> ends[j] < ROW_SIZE
    &&& forall|i: int, j: int| 0 <= i <= j < ends.len() ==> ends[i] <= ends[j]
}

/// Whether sample `k` belongs to cell `j`.
pub open spec fn in_cell(ends: Seq<u32>, j: int, k: int) -> bool {
    0 <= j < ends.len() && cell_begin(ends, j) <= k < ends[j]
}

/// From cell `from` on, some cell holds sample `k`, if `k` does not lie
/// before that cell.
proof fn lemma_cover_from(ends: Seq<u32>, k: int, from: int) -> (j: int)
    requires
        valid_ends(ends),
        0 <= k < ROW_SIZE,
        0 <= from < ends.len(),
        cell_begin(ends, from) <= k,
    ensures
        in_cell(ends, j, k),
    decreases ends.len() - from,
{
    if k < ends[from] {
        from
    } else {
        lemma_cover_from(ends, k, from + 1)
    }
}

/// Every sample of the row lies in a cell.
pub proof fn lemma_cells_cover(ends: Seq<u32>, k: int) -> (j: int)
    requires
        valid_ends(ends),
        0 <= k < ROW_SIZE,
    ensures
        in_cell(ends, j, k),
{
    lemma_cover_from(ends, k, 0)
}

/// No sample lies in two cells.
pub proof fn lemma_cells_disjoint(ends: Seq<u32>, i: int, j: int, k: int)
    requires
        valid_ends(ends),
        in_cell(ends, i, k),
        in_cell(ends, j, k),
    ensures
        i == j,
{
    if i < j {
        assert(ends[i] <= ends[j - 1]);
    }
    if j < i {
        assert(ends[j] <= ends[i - 1]);
    }
}

/// The cell of an axis that holds sample `k`.
pub open spec fn sample_cell(ends: Seq<u32>, k: int) -> int {
    choose|j: int| in_cell(ends, j, k)
}

/// A sample's cell is the one whose range holds it.
pub proof fn lemma_sample_cell(ends: Seq<u32>, j: int, k: int)
    requires
        valid_ends(ends),
        in_cell(ends, j, k),
    ensures
        sample_cell(ends, k) == j,
{
    lemma_cells_disjoint(ends, sample_cell(ends, k), j, k);
}

/// As long as the sum stays in range, the lattice coordinate of cell `j` is
/// `start + j`.
pub proof fn lemma_lattice_in_range(start: i32, j: nat)
    requires
        start + j <= i32::MAX,
    ensures
        lattice(start, j) == start + j,
    decreases j,
{
    if j > 0 {
        lemma_lattice_in_range(start, (j - 1) as nat);
    }
}

/// Stepping one cell further is the same as starting one cell later.
pub proof fn lemma_lattice_step(start: i32, j: nat)
    ensures
        lattice(lattice(start, j), 1) == lattice(start, j + 1),
{
    assert(lattice(lattice(start, j), 1) == i32_specs::wrapping_add(
        lattice(lattice(start, j), 0),
        1,
    ));
}

/// Going `k` cells on from cell `j` is one wrapping addition of `k`.
pub proof fn lemma_lattice_advance(start: i32, j: nat, k: nat)
    requires
        k <= i32::MAX,
    ensures
        lattice(start, j + k) == i32_specs::wrapping_add(lattice(start, j), k as i32),
    decreases k,
{
    if k > 0 {
        lemma_lattice_advance(start, j, (k - 1) as nat);
        assert(lattice(start, j + k) == i32_specs::wrapping_add(
            lattice(start, (j + k - 1) as nat),
            1,
        ));
    }
}

/// The lattice cells that the samples of one tile axis fall into.
///
/// Cell `j` has the lattice coordinate `lattice(start, j)` and holds the
/// samples from the end of cell `j - 1` (from 0 for the first cell) up to,
/// but not including, `ends[j]`. A cell may be empty.
pub struct AxisCells {
    start: i32,
    ends: Vec<u32>,
}

impl AxisCells {
    /// Lattice coordinate of the first cell.
    pub closed spec fn spec_start(&self) -> i32 {
        self.start
    }

    /// End of each cell, in order.
    pub closed spec fn spec_ends(&self) -> Seq<u32> {
        self.ends@
    }

    /// The ends split the row into cells.
    #[verifier::type_invariant]
    pub open spec fn wf(&self) -> bool {
        valid_ends(self.spec_ends())
    }

    /// Number of cells.
    pub open spec fn spec_len(&self) -> nat {
        self.spec_ends().len()
    }

    /// Takes the first cell's lattice coordinate and the cell ends.
    /// Fails exactly when the ends do not split the row into cells.
    pub fn new(start: i32, ends: Vec<u32>) -> (made: Result<AxisCells, NoiseError>)
        ensures
            made is Ok <==> valid_ends(ends@),
            made matches Ok(cells) ==> cells.spec_start() == start && cells.spec_ends() == ends@
                && valid_ends(cells.spec_ends()),
            made matches Err(e) ==> e == NoiseError::InvalidParameter,
    {
        let n: usize = ends.len();
        if n == 0 || n == usize::MAX {
            return Err(NoiseError::InvalidParameter);
        }
        if ends[n - 1] != ROW_SIZE as u32 {
            return Err(NoiseError::InvalidParameter);
        }
        let mut j: usize = 0;
        let mut previous: u32 = 0;
        while j < n - 1
            invariant
                n == ends.len(),
                1 <= n,
                0 <= j <= n - 1,
                ends[n - 1] == ROW_SIZE,
                j > 0 ==> previous == ends[j - 1],
                forall|i: int| 0 <= i < j ==> ends[i] < ROW_SIZE,
                forall|a: int, b: int| 0 <= a <= b < j ==> ends[a] <= ends[b],
            decreases n - j,
        {
            let end: u32 = ends[j];
            if end >= ROW_SIZE as u32 || (j > 0 && end < previous) {
                proof {
                    if end < ROW_SIZE {
                        assert(!(ends[j - 1] <= ends[j as int]));
                    }
                }
                return Err(NoiseError::InvalidParameter);
            }
            assert forall|a: int, b: int| 0 <= a <= b < j + 1 implies ends[a] <= ends[b] by {
                if b == j && a < j {
                    assert(ends[a] <= ends[j - 1]);
                }
            }
            previous = end;
            j += 1;
        }
        Ok(AxisCells { start, ends })
    }

    /// Lattice coordinate of the first cell.
    #[verifier::when_used_as_spec(spec_start)]
    pub fn start(&self) -> (start: i32)
        ensures
            start == self.spec_start(),
    {
        self.start
    }

    /// Number of cells.
    pub fn len(&self) -> (len: usize)
        ensures
            len == self.spec_len(),
            valid_ends(self.spec_ends()),
    {
        proof {
            use_type_invariant(self);
        }
        self.ends.len()
    }

    /// First sample of cell `j`.
    pub fn begin(&self, j: usize) -> (begin: usize)
        requires
            j < self.spec_len(),
        ensures
            begin == cell_begin(self.spec_ends(), j as int),
            begin < ROW_SIZE,
    {
        proof {
            use_type_invariant(self);
        }
        if j == 0 {
            0
        } else {
            self.ends[j - 1] as usize
        }
    }

    /// First sample beyond cell `j`.
    pub fn end(&self, j: usize) -> (end: usize)
        requires
            j < self.spec_len(),
        ensures
            end == self.spec_ends()[j as int],
            cell_begin(self.spec_ends(), j as int) <= end <= ROW_SIZE,
    {
        proof {
            use_type_invariant(self);
            if j > 0 {
                assert(self.ends@[j - 1] <= self.ends@[j as int]);
            }
        }
        self.ends[j] as usize
    }

    /// The cell that sample `k` belongs to.
    pub fn cell_of(&self, k: usize) -> (j: usize)
        requires
            k < ROW_SIZE,
        ensures
            in_cell(self.spec_ends(), j as int, k as int),
            j == sample_cell(self.spec_ends(), k as int),
    {
        proof {
            use_type_invariant(self);
        }
        let mut j: usize = 0;
        while self.ends[j] as usize <= k
            invariant
                valid_ends(self.ends@),
                0 <= j < self.ends.len(),
                k < ROW_SIZE,
                cell_begin(self.ends@, j as int) <= k,
            decreases self.ends.len() - j,
        {
            j += 1;
        }
        proof {
            lemma_sample_cell(self.ends@, j as int, k as int);
        }
        j
    }

    /// Lattice coordinate of cell `j`; `j` may be one past the last cell,
    /// which names the far edge of the last cell.
    pub fn coordinate(&self, j: usize) -> (at: i32)
        requires
            j <= self.spec_len(),
        ensures
            at == lattice(self.spec_start(), j as nat),
    {
        let mut at: i32 = self.start;
        let mut i: usize = 0;
        while i < j
            invariant
                i <= j,
                at == lattice(self.start, i as nat),
            decreases j - i,
        {
            at = at.wrapping_add(1);
            i += 1;
        }
        at
    }
}

} // verus!

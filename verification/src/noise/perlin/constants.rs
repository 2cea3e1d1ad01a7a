use vstd::prelude::*;
use crate::math::vec::Vec3;

verus! {

/// Number of samples along one axis of a tile.
pub const ROW_SIZE: usize = 32;

/// Number of samples in a two-dimensional tile.
pub const MAP_SIZE: usize = 1024;

/// Number of samples in a three-dimensional tile.
pub const VOL_SIZE: usize = 32768;

/// Number of rows in a gradient table.
pub const NUM_DIRECTIONS: usize = 16;

/// Position of sample `(x, y)` in the row-major buffer of a tile of the
/// plane.
pub open spec fn spec_map_index(x: int, y: int) -> int {
    x * ROW_SIZE + y
}

/// Position of sample `(x, y, z)` in the row-major buffer of a tile of
/// space.
pub open spec fn spec_vol_index(x: int, y: int, z: int) -> int {
    x * MAP_SIZE + y * ROW_SIZE + z
}

/// Position of sample `(x, y)` in the buffer of a tile of the plane.
pub fn map_index(x: usize, y: usize) -> (index: usize)
    requires
        x < ROW_SIZE,
        y < ROW_SIZE,
    ensures
        index == spec_map_index(x as int, y as int),
        index < MAP_SIZE,
{
    x * ROW_SIZE + y
}

/// Position of sample `(x, y, z)` in the buffer of a tile of space.
pub fn vol_index(x: usize, y: usize, z: usize) -> (index: usize)
    requires
        x < ROW_SIZE,
        y < ROW_SIZE,
        z < ROW_SIZE,
    ensures
        index == spec_vol_index(x as int, y as int, z as int),
        index < VOL_SIZE,
{
    x * MAP_SIZE + y * ROW_SIZE + z
}

/// Different samples of a tile of the plane have different positions.
pub proof fn lemma_map_index_injective(x: int, y: int, x2: int, y2: int)
    requires
        0 <= y < ROW_SIZE,
        0 <= y2 < ROW_SIZE,
        spec_map_index(x, y) == spec_map_index(x2, y2),
    ensures
        x == x2,
        y == y2,
{
}

/// Different samples of a tile of space have different positions.
pub proof fn lemma_vol_index_injective(x: int, y: int, z: int, x2: int, y2: int, z2: int)
    requires
        0 <= y < ROW_SIZE,
        0 <= y2 < ROW_SIZE,
        0 <= z < ROW_SIZE,
        0 <= z2 < ROW_SIZE,
        spec_vol_index(x, y, z) == spec_vol_index(x2, y2, z2),
    ensures
        x == x2,
        y == y2,
        z == z2,
{
}

/// The twelve directions from the centre of a cube to the midpoints of its
/// edges.
pub const GRADIENTS_3D_LOOKUP: [(i8, i8, i8); 12] = [
    (1, 1, 0),
    (-1, 1, 0),
    (1, -1, 0),
    (-1, -1, 0),
    (1, 0, 1),
    (-1, 0, 1),
    (1, 0, -1),
    (-1, 0, -1),
    (0, 1, 1),
    (0, -1, 1),
    (0, 1, -1),
    (0, -1, -1),
];

/// Row `index` of the spatial gradient table: the twelve edge directions,
/// repeated from the start to fill the table.
pub open spec fn spec_gradient_3d(index: int) -> Vec3<i8> {
    let row = GRADIENTS_3D_LOOKUP[index % 12];
    Vec3 { x: row.0, y: row.1, z: row.2 }
}

/// Row `index` of the spatial gradient table.
pub fn gradient_3d(index: usize) -> (direction: Vec3<i8>)
    requires
        index < NUM_DIRECTIONS,
    ensures
        direction == spec_gradient_3d(index as int),
{
    let row = GRADIENTS_3D_LOOKUP[index % 12];
    Vec3::new(row.0, row.1, row.2)
}

/// Whether `d` points from the centre of a cube to the midpoint of one of
/// its edges: exactly one component is zero, the other two are 1 or -1, so
/// the squared length is 2.
pub open spec fn is_edge_direction(d: Vec3<i8>) -> bool {
    &&& d.x * d.x + d.y * d.y + d.z * d.z == 2
    &&& -1 <= d.x <= 1 && -1 <= d.y <= 1 && -1 <= d.z <= 1
    &&& (d.x == 0 && d.y != 0 && d.z != 0) || (d.x != 0 && d.y == 0 && d.z != 0) || (d.x != 0
        && d.y != 0 && d.z == 0)
}

/// Every row of the spatial gradient table is an edge direction.
pub proof fn lemma_gradient_3d_is_edge_direction(index: int)
    requires
        0 <= index < NUM_DIRECTIONS,
    ensures
        is_edge_direction(spec_gradient_3d(index)),
{
    let row = index % 12;
    if row == 0 {
        let d = spec_gradient_3d(0);
        assert(d.x == 1 && d.y == 1 && d.z == 0);
        assert(is_edge_direction(d));
    } else if row == 1 {
        let d = spec_gradient_3d(1);
        assert(d.x == -1 && d.y == 1 && d.z == 0);
        assert(is_edge_direction(d));
    } else if row == 2 {
        let d = spec_gradient_3d(2);
        assert(d.x == 1 && d.y == -1 && d.z == 0);
        assert(is_edge_direction(d));
    } else if row == 3 {
        let d = spec_gradient_3d(3);
        assert(d.x == -1 && d.y == -1 && d.z == 0);
        assert(is_edge_direction(d));
    } else if row == 4 {
        let d = spec_gradient_3d(4);
        assert(d.x == 1 && d.y == 0 && d.z == 1);
        assert(is_edge_direction(d));
    } else if row == 5 {
        let d = spec_gradient_3d(5);
        assert(d.x == -1 && d.y == 0 && d.z == 1);
        assert(is_edge_direction(d));
    } else if row == 6 {
        let d = spec_gradient_3d(6);
        assert(d.x == 1 && d.y == 0 && d.z == -1);
        assert(is_edge_direction(d));
    } else if row == 7 {
        let d = spec_gradient_3d(7);
        assert(d.x == -1 && d.y == 0 && d.z == -1);
        assert(is_edge_direction(d));
    } else if row == 8 {
        let d = spec_gradient_3d(8);
        assert(d.x == 0 && d.y == 1 && d.z == 1);
        assert(is_edge_direction(d));
    } else if row == 9 {
        let d = spec_gradient_3d(9);
        assert(d.x == 0 && d.y == -1 && d.z == 1);
        assert(is_edge_direction(d));
    } else if row == 10 {
        let d = spec_gradient_3d(10);
        assert(d.x == 0 && d.y == 1 && d.z == -1);
        assert(is_edge_direction(d));
    } else {
        let d = spec_gradient_3d(11);
        assert(d.x == 0 && d.y == -1 && d.z == -1);
        assert(is_edge_direction(d));
    }
    assert(spec_gradient_3d(index) == spec_gradient_3d(row));
}

} // verus!

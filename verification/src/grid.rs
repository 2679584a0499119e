use vstd::prelude::*;

verus! {

/// Elements handled by one workgroup of the elementwise kernels.
pub const GROUP_WIDTH: usize = 64;

/// Workgroups in one row of an elementwise dispatch.
pub const ROW_GROUPS: u32 = 1024;

/// A workgroup grid.
#[derive(Debug, Clone, Copy, PartialEq, Eq, Structural)]
pub struct Grid {
    pub x: u32,
    pub y: u32,
    pub z: u32,
}

/// Workgroups needed for `elements` elements: the quotient by the group
/// width, rounded up.
pub open spec fn workgroups(elements: nat) -> nat {
    (elements + 63) / 64
}

/// Rows of 1024 workgroups needed for `elements` elements, rounded up.
pub open spec fn grid_rows(elements: nat) -> nat {
    (workgroups(elements) + 1023) / 1024
}

/// The grid of an elementwise kernel over `elements` elements.
pub open spec fn linear_grid_of(elements: nat) -> Grid {
    Grid { x: 1024, y: grid_rows(elements) as u32, z: 1 }
}

/// Number of workgroups in a grid.
pub open spec fn groups_in(g: Grid) -> nat {
    (g.x * g.y * g.z) as nat
}

/// The grid of an elementwise kernel over `elements` elements: 1024 groups
/// per row and as many rows as needed. `None` when the row count does not
/// fit a dispatch dimension.
pub fn linear_grid(elements: usize) -> (r: Option<Grid>)
    ensures
        r.is_some() <==> grid_rows(elements as nat) <= u32::MAX,
        r.is_some() ==> r.unwrap() == linear_grid_of(elements as nat),
{
    let groups: usize = elements / GROUP_WIDTH + (if elements % GROUP_WIDTH != 0 {
        1usize
    } else {
        0usize
    });
    assert(groups == workgroups(elements as nat));
    let rows: usize = groups / 1024 + (if groups % 1024 != 0 {
        1usize
    } else {
        0usize
    });
    assert(rows == grid_rows(elements as nat));
    if rows > 0xffff_ffff {
        None
    } else {
        Some(Grid { x: ROW_GROUPS, y: rows as u32, z: 1 })
    }
}

/// The rows cover every element and none is spare: the grid has room for
/// all the elements, and with one row less it would not.
pub proof fn linear_grid_covers(elements: nat)
    ensures
        1024 * grid_rows(elements) * 64 >= elements,
        elements > 0 ==> 1024 * (grid_rows(elements) - 1) * 64 < elements,
        elements == 0 ==> grid_rows(elements) == 0,
{
}

/// The grid of a matrix product with `m` rows and `n` columns: one
/// workgroup per output element.
pub open spec fn matmul_grid_of(m: nat, n: nat) -> Grid {
    Grid { x: m as u32, y: n as u32, z: 1 }
}

} // verus!

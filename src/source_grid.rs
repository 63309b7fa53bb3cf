use vstd::arithmetic::div_mod::lemma_fundamental_div_mod_converse;
use vstd::prelude::*;

verus! {

/// A source point of the grass field, in grid cells from the field's
/// centre on the XZ plane. Its normal is straight up; the spacing of the
/// cells is applied where the points are uploaded.
#[derive(Debug, Clone, Copy, PartialEq, Eq, Structural)]
pub struct GridPoint {
    pub x: i32,
    pub z: i32,
}

/// Number of points along an axis of half-extent `half`.
pub open spec fn grid_width(half: nat) -> nat {
    2 * half + 1
}

/// Point `k` of the grid of half-extents `half_x` and `half_z`, rows of
/// constant `z` one after another.
pub open spec fn grid_point(half_x: nat, half_z: nat, k: nat) -> GridPoint {
    let w = grid_width(half_x);
    GridPoint { x: (k % w - half_x) as i32, z: (k / w - half_z) as i32 }
}

/// The source points of a square grid reaching `x_size` cells either side
/// of the centre along X and `z_size` along Z, row by row from the most
/// negative Z.
pub fn create_source(x_size: usize, z_size: usize) -> (r: Vec<GridPoint>)
    requires
        2 * x_size + 1 <= i32::MAX,
        2 * z_size + 1 <= i32::MAX,
        grid_width(x_size as nat) * grid_width(z_size as nat) <= usize::MAX,
    ensures
        r@.len() == grid_width(x_size as nat) * grid_width(z_size as nat),
        forall|k: int|
            0 <= k < r@.len() ==> #[trigger] r@[k] == grid_point(
                x_size as nat,
                z_size as nat,
                k as nat,
            ),
{
    let width: usize = 2 * x_size + 1;
    let depth: usize = 2 * z_size + 1;
    let ghost (hx, hz) = (x_size as nat, z_size as nat);
    let mut points: Vec<GridPoint> = Vec::new();
    let mut z: usize = 0;
    while z < depth
        invariant
            0 <= z <= depth,
            width == grid_width(hx),
            depth == grid_width(hz),
            hx == x_size,
            hz == z_size,
            2 * x_size + 1 <= i32::MAX,
            2 * z_size + 1 <= i32::MAX,
            points@.len() == z * width,
            forall|k: int| 0 <= k < points@.len() ==> #[trigger] points@[k] == grid_point(hx, hz, k as nat),
        decreases depth - z,
    {
        let mut x: usize = 0;
        while x < width
            invariant
                0 <= x <= width,
                z < depth,
                width == grid_width(hx),
                depth == grid_width(hz),
                hx == x_size,
                hz == z_size,
                2 * x_size + 1 <= i32::MAX,
                2 * z_size + 1 <= i32::MAX,
                points@.len() == z * width + x,
                forall|k: int|
                    0 <= k < points@.len() ==> #[trigger] points@[k] == grid_point(hx, hz, k as nat),
            decreases width - x,
        {
            proof {
                lemma_fundamental_div_mod_converse(
                    (z * width + x) as int,
                    width as int,
                    z as int,
                    x as int,
                );
            }
            points.push(GridPoint { x: x as i32 - x_size as i32, z: z as i32 - z_size as i32 });
            x = x + 1;
        }
        proof {
            assert((z + 1) * width == z * width + width) by (nonlinear_arith);
        }
        z = z + 1;
    }
    proof {
        assert(depth * width == width * depth) by (nonlinear_arith);
    }
    points
}

} // verus!

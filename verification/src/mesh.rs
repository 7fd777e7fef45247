//! Integer vertex data for the surface grids.
//!
//! The surface shaders take, for every vertex, a pair of indices — its
//! polar slice and its azimuth slice — and derive the actual position on
//! the GPU. The library generates this interleaved index grid exactly;
//! the floating-point surface formulas themselves are the shaders'
//! business.

use vstd::prelude::*;

verus! {

/// The interleaved index grid for `slices_count` slices along each axis:
/// `slices_count * slices_count` vertices, each contributing its polar
/// index followed by its azimuth index, polar-major.
pub fn angle_index_grid(slices_count: u32) -> (r: Vec<u32>)
    requires
        slices_count * slices_count <= u32::MAX,
        2 * (slices_count * slices_count) <= usize::MAX,
    ensures
        r@.len() == 2 * (slices_count * slices_count),
        forall|k: int|
            0 <= k < slices_count * slices_count ==> #[trigger] r@[2 * k] == k / (
            slices_count as int) && r@[2 * k + 1] == k % (slices_count as int),
{
    let total: u32 = slices_count * slices_count;
    let mut grid: Vec<u32> = Vec::new();
    let mut k: u32 = 0;
    while k < total
        invariant
            k <= total,
            total == slices_count * slices_count,
            2 * total <= usize::MAX,
            grid@.len() == 2 * k,
            forall|j: int|
                0 <= j < k ==> #[trigger] grid@[2 * j] == j / (slices_count as int) && grid@[2 * j
                    + 1] == j % (slices_count as int),
        decreases total - k,
    {
        let ghost before = grid@;
        grid.push(k / slices_count);
        grid.push(k % slices_count);
        proof {
            assert forall|j: int|
                0 <= j < k + 1 implies #[trigger] grid@[2 * j] == j / (slices_count as int)
                && grid@[2 * j + 1] == j % (slices_count as int) by {
                if j < k {
                    assert(grid@[2 * j] == before[2 * j]);
                    assert(grid@[2 * j + 1] == before[2 * j + 1]);
                } else {
                    assert(grid@[2 * j] == k / slices_count);
                    assert(grid@[2 * j + 1] == k % slices_count);
                }
            }
        }
        k += 1;
    }
    grid
}

} // verus!

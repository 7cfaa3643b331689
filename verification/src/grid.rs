use vstd::prelude::*;

use crate::geometry::{Size, Voxel};

verus! {

/// Number of cells in a grid of the given dimensions.
pub open spec fn volume(size: Size) -> int {
    size.x * size.y * size.z
}

/// Row-major linear index of a cell: x varies fastest, then y, then z.
pub open spec fn linear_index(x: int, y: int, z: int, size: Size) -> int {
    x + y * size.x + z * size.x * size.y
}

/// A coordinate triple lies inside the grid's bounding box.
pub open spec fn in_bounds(v: Voxel, size: Size) -> bool {
    v.x < size.x && v.y < size.y && v.z < size.z
}

/// Every voxel of the list lies inside the bounding box.
pub open spec fn all_in_bounds(vs: Seq<Voxel>, size: Size) -> bool {
    forall|k: int| 0 <= k < vs.len() ==> in_bounds(vs[k], size)
}

/// The occupancy grid is well formed: it has one entry per cell, and each
/// occupied entry sits at the linear index computed from its own coordinates.
pub open spec fn grid_wf(g: Seq<Option<Voxel>>, size: Size) -> bool {
    &&& g.len() == volume(size)
    &&& forall|i: int|
        0 <= i < g.len() ==> (#[trigger] g[i] matches Some(v) ==> in_bounds(v, size)
            && linear_index(v.x as int, v.y as int, v.z as int, size) == i)
}

/// The linear index of an in-bounds cell is below the grid volume, and each
/// of its partial products is bounded by it.
pub proof fn lemma_linear_index_bound(x: int, y: int, z: int, size: Size)
    requires
        0 <= x < size.x,
        0 <= y < size.y,
        0 <= z < size.z,
    ensures
        0 <= linear_index(x, y, z, size) < volume(size),
        0 <= y * size.x <= linear_index(x, y, z, size),
        0 <= z * size.x <= z * size.x * size.y <= linear_index(x, y, z, size),
        size.x * size.y <= volume(size),
{
    assert(0 <= x + y * size.x + z * size.x * size.y
        && x + y * size.x + z * size.x * size.y < size.x * size.y * size.z
        && 0 <= y * size.x
        && y * size.x <= x + y * size.x + z * size.x * size.y
        && 0 <= z * size.x
        && z * size.x <= z * size.x * size.y
        && z * size.x * size.y <= x + y * size.x + z * size.x * size.y
        && size.x * size.y <= size.x * size.y * size.z) by (nonlinear_arith)
        requires
            0 <= x < size.x,
            0 <= y < size.y,
            0 <= z < size.z,
    ;
}

/// The dense grid that a sparse voxel list denotes: start from an empty grid
/// and write each voxel at its linear index, in list order, so that a later
/// duplicate coordinate overwrites an earlier one.
pub open spec fn grid_of_voxels(vs: Seq<Voxel>, size: Size) -> Seq<Option<Voxel>>
    decreases vs.len(),
{
    if vs.len() == 0 {
        Seq::new(volume(size) as nat, |i: int| None)
    } else {
        let v = vs.last();
        grid_of_voxels(vs.drop_last(), size).update(
            linear_index(v.x as int, v.y as int, v.z as int, size),
            Some(v),
        )
    }
}

/// The denoted grid always has one entry per cell and is well formed
/// whenever every voxel of the list is in bounds.
pub proof fn lemma_grid_of_voxels_wf(vs: Seq<Voxel>, size: Size)
    requires
        all_in_bounds(vs, size),
    ensures
        grid_of_voxels(vs, size).len() == volume(size),
        grid_wf(grid_of_voxels(vs, size), size),
    decreases vs.len(),
{
    if vs.len() == 0 {
    } else {
        let v = vs.last();
        assert(in_bounds(v, size));
        lemma_grid_of_voxels_wf(vs.drop_last(), size);
        lemma_linear_index_bound(v.x as int, v.y as int, v.z as int, size);
    }
}

/// Computes the row-major linear index of a voxel's cell.
pub fn get_voxel_idx(vox: &Voxel, size: &Size) -> (idx: usize)
    requires
        in_bounds(*vox, *size),
        volume(*size) <= usize::MAX,
    ensures
        idx == linear_index(vox.x as int, vox.y as int, vox.z as int, *size),
{
    let x = vox.x as usize;
    let y = vox.y as usize;
    let z = vox.z as usize;
    let sx = size.x as usize;
    let sy = size.y as usize;
    proof {
        lemma_linear_index_bound(x as int, y as int, z as int, *size);
    }
    x + y * sx + z * sx * sy
}

/// A grid of the given length with every cell unoccupied.
fn empty_grid(len: usize) -> (g: Vec<Option<Voxel>>)
    ensures
        g@ == Seq::new(len as nat, |i: int| None::<Voxel>),
{
    let mut g: Vec<Option<Voxel>> = Vec::new();
    let mut j: usize = 0;
    while j < len
        invariant
            j <= len,
            g@ =~= Seq::new(j as nat, |i: int| None::<Voxel>),
        decreases len - j,
    {
        g.push(None);
        j = j + 1;
    }
    proof {
        assert(g@ =~= Seq::new(len as nat, |i: int| None::<Voxel>));
    }
    g
}

/// Builds the dense occupancy grid from the sparse voxel list: each voxel is
/// written at its linear index, a later duplicate coordinate overwriting an
/// earlier one.
pub fn reorder_voxels(voxels: &Vec<Voxel>, size: &Size) -> (g: Vec<Option<Voxel>>)
    requires
        all_in_bounds(voxels@, *size),
        size.x * size.y <= usize::MAX,
        volume(*size) <= usize::MAX,
    ensures
        g@ == grid_of_voxels(voxels@, *size),
        grid_wf(g@, *size),
{
    let len: usize = (size.x as usize) * (size.y as usize) * (size.z as usize);
    let mut g: Vec<Option<Voxel>> = empty_grid(len);
    assert(g@ =~= grid_of_voxels(voxels@.take(0), *size));
    let n: usize = voxels.len();
    let mut k: usize = 0;
    while k < n
        invariant
            k <= n,
            n == voxels@.len(),
            all_in_bounds(voxels@, *size),
            volume(*size) <= usize::MAX,
            g@.len() == volume(*size),
            g@ == grid_of_voxels(voxels@.take(k as int), *size),
        decreases n - k,
    {
        let v = voxels[k];
        let idx = get_voxel_idx(&v, size);
        proof {
            lemma_linear_index_bound(v.x as int, v.y as int, v.z as int, *size);
        }
        g.set(idx, Some(v));
        proof {
            let pre = voxels@.take(k as int);
            let post = voxels@.take(k + 1);
            assert(post.drop_last() =~= pre);
            assert(post.last() == v);
        }
        k = k + 1;
    }
    proof {
        assert(voxels@.take(n as int) =~= voxels@);
        lemma_grid_of_voxels_wf(voxels@, *size);
    }
    g
}

} // verus!

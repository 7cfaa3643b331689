use vstd::prelude::*;

use crate::geometry::{any_visible, FaceMask, MetaVoxel, Size, Triangle, Voxel};
use crate::grid::{grid_wf, in_bounds, lemma_linear_index_bound, linear_index, volume};
use crate::triangulate::cell_opt_triangles;

verus! {

/// The cell at the given coordinates exists and is occupied.
pub open spec fn occupied(g: Seq<Option<Voxel>>, size: Size, x: int, y: int, z: int) -> bool {
    &&& 0 <= x < size.x
    &&& 0 <= y < size.y
    &&& 0 <= z < size.z
    &&& g[linear_index(x, y, z, size)] is Some
}

/// Which faces of an occupied cell are externally visible: a face is visible
/// exactly when the cell lies on that boundary of the grid or the adjacent
/// cell in that direction is unoccupied.
pub open spec fn face_mask_of(g: Seq<Option<Voxel>>, size: Size, v: Voxel) -> FaceMask {
    FaceMask {
        left: v.x == 0 || !occupied(g, size, v.x - 1, v.y as int, v.z as int),
        back: v.y == 0 || !occupied(g, size, v.x as int, v.y - 1, v.z as int),
        bottom: v.z == 0 || !occupied(g, size, v.x as int, v.y as int, v.z - 1),
        right: v.x + 1 == size.x || !occupied(g, size, v.x + 1, v.y as int, v.z as int),
        front: v.y + 1 == size.y || !occupied(g, size, v.x as int, v.y + 1, v.z as int),
        top: v.z + 1 == size.z || !occupied(g, size, v.x as int, v.y as int, v.z + 1),
    }
}

/// What the face culler records for one cell of the occupancy grid: nothing
/// for an unoccupied cell, and nothing for a cell with all six faces
/// occluded; otherwise the cell with its visibility record.
pub open spec fn meta_of_cell(g: Seq<Option<Voxel>>, size: Size, c: Option<Voxel>) -> Option<
    MetaVoxel,
> {
    match c {
        None => None,
        Some(v) => {
            let m = face_mask_of(g, size, v);
            if any_visible(m) {
                Some(MetaVoxel { voxel: v, faces: m })
            } else {
                None
            }
        },
    }
}

/// The annotated grid: the face culler's record for every cell, in the
/// linear scan order of the occupancy grid.
pub open spec fn meta_grid(g: Seq<Option<Voxel>>, size: Size) -> Seq<Option<MetaVoxel>> {
    Seq::new(g.len(), |i: int| meta_of_cell(g, size, g[i]))
}

/// Whether the grid holds an occupied cell at the given offset from a voxel.
pub fn has_neighbor(
    voxels: &Vec<Option<Voxel>>,
    voxel: &Voxel,
    size: &Size,
    x: i16,
    y: i16,
    z: i16,
) -> (r: bool)
    requires
        grid_wf(voxels@, *size),
        0 <= voxel.x + x < size.x,
        0 <= voxel.y + y < size.y,
        0 <= voxel.z + z < size.z,
    ensures
        r == occupied(voxels@, *size, voxel.x + x, voxel.y + y, voxel.z + z),
{
    let nx = (voxel.x as i64 + x as i64) as usize;
    let ny = (voxel.y as i64 + y as i64) as usize;
    let nz = (voxel.z as i64 + z as i64) as usize;
    let sx = size.x as usize;
    let sy = size.y as usize;
    let glen: usize = voxels.len();
    proof {
        lemma_linear_index_bound(nx as int, ny as int, nz as int, *size);
        assert(nx == voxel.x + x && ny == voxel.y + y && nz == voxel.z + z);
        assert(sx == size.x && sy == size.y);
        assert(glen == volume(*size));
    }
    let idx: usize = nx + ny * sx + nz * sx * sy;
    voxels[idx].is_some()
}

/// Runs the face culler over the occupancy grid: for every occupied cell,
/// records which of its six faces are visible, and drops cells that are
/// unoccupied or fully occluded.
pub fn convert_meta_voxels(voxels: &Vec<Option<Voxel>>, size: &Size) -> (mg: Vec<
    Option<MetaVoxel>,
>)
    requires
        grid_wf(voxels@, *size),
    ensures
        mg@ == meta_grid(voxels@, *size),
{
    let len: usize = voxels.len();
    let mut mg: Vec<Option<MetaVoxel>> = Vec::new();
    let mut i: usize = 0;
    while i < len
        invariant
            i <= len,
            len == voxels@.len(),
            grid_wf(voxels@, *size),
            mg@.len() == i,
            forall|j: int| 0 <= j < i ==> mg@[j] == meta_of_cell(voxels@, *size, voxels@[j]),
        decreases len - i,
    {
        match voxels[i] {
            Some(voxel) => {
                proof {
                    assert(voxels@[i as int] matches Some(v) && v == voxel);
                    assert(in_bounds(voxel, *size));
                }
                let left = voxel.x == 0 || !has_neighbor(voxels, &voxel, size, -1, 0, 0);
                let back = voxel.y == 0 || !has_neighbor(voxels, &voxel, size, 0, -1, 0);
                let bottom = voxel.z == 0 || !has_neighbor(voxels, &voxel, size, 0, 0, -1);
                let right = (voxel.x as u32) + 1 == size.x || !has_neighbor(
                    voxels,
                    &voxel,
                    size,
                    1,
                    0,
                    0,
                );
                let front = (voxel.y as u32) + 1 == size.y || !has_neighbor(
                    voxels,
                    &voxel,
                    size,
                    0,
                    1,
                    0,
                );
                let top = (voxel.z as u32) + 1 == size.z || !has_neighbor(
                    voxels,
                    &voxel,
                    size,
                    0,
                    0,
                    1,
                );
                let mask = FaceMask { left, back, bottom, right, front, top };
                proof {
                    assert(mask == face_mask_of(voxels@, *size, voxel));
                }
                if left || back || bottom || right || front || top {
                    mg.push(Some(MetaVoxel { voxel, faces: mask }));
                } else {
                    mg.push(None);
                }
            },
            None => {
                mg.push(None);
            },
        }
        i = i + 1;
    }
    proof {
        assert(mg@ =~= meta_grid(voxels@, *size));
    }
    mg
}

/// Boundary rule: whatever the occupancy elsewhere in the grid, a cell with a
/// coordinate at 0 has the corresponding negative face visible, and a cell
/// with a coordinate at its dimension minus one has the corresponding
/// positive face visible. A cell touching any boundary is therefore never
/// dropped by the face culler.
pub proof fn lemma_boundary_faces(g: Seq<Option<Voxel>>, size: Size, v: Voxel)
    ensures
        v.x == 0 ==> face_mask_of(g, size, v).left,
        v.y == 0 ==> face_mask_of(g, size, v).back,
        v.z == 0 ==> face_mask_of(g, size, v).bottom,
        v.x + 1 == size.x ==> face_mask_of(g, size, v).right,
        v.y + 1 == size.y ==> face_mask_of(g, size, v).front,
        v.z + 1 == size.z ==> face_mask_of(g, size, v).top,
        (v.x == 0 || v.y == 0 || v.z == 0 || v.x + 1 == size.x || v.y + 1 == size.y || v.z + 1
            == size.z) ==> meta_of_cell(g, size, Some(v)) == Some(
            MetaVoxel { voxel: v, faces: face_mask_of(g, size, v) },
        ),
{
}

/// Occlusion: a cell whose six face-neighbors are all occupied has every
/// face occluded, so the face culler drops it and it contributes no
/// annotated cell.
pub proof fn lemma_occluded_cell_dropped(g: Seq<Option<Voxel>>, size: Size, v: Voxel)
    requires
        occupied(g, size, v.x - 1, v.y as int, v.z as int),
        occupied(g, size, v.x as int, v.y - 1, v.z as int),
        occupied(g, size, v.x as int, v.y as int, v.z - 1),
        occupied(g, size, v.x + 1, v.y as int, v.z as int),
        occupied(g, size, v.x as int, v.y + 1, v.z as int),
        occupied(g, size, v.x as int, v.y as int, v.z + 1),
    ensures
        !any_visible(face_mask_of(g, size, v)),
        meta_of_cell(g, size, Some(v)) == None::<MetaVoxel>,
        cell_opt_triangles(meta_of_cell(g, size, Some(v))) == Seq::<Triangle>::empty(),
{
    assert(v.x >= 1 && v.y >= 1 && v.z >= 1);
    assert(v.x + 1 < size.x && v.y + 1 < size.y && v.z + 1 < size.z);
}

} // verus!

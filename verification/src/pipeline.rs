use vstd::prelude::*;

use crate::culler::{convert_meta_voxels, meta_grid};
use crate::geometry::{IndexedTriangle, MetaVoxel, Normal, Size, Triangle, Vertex, Voxel};
use crate::grid::{all_in_bounds, grid_of_voxels, in_bounds, reorder_voxels, volume};
use crate::indexer::{index_all, index_triangles};
use crate::triangulate::{convert_triangles, triangles_of_meta};

verus! {

/// The triangle soup that a model denotes: the grid indexer, face culler and
/// triangulator composed.
pub open spec fn mesh_triangles(voxels: Seq<Voxel>, size: Size) -> Seq<Triangle> {
    triangles_of_meta(meta_grid(grid_of_voxels(voxels, size), size))
}

/// The indexed mesh that a model denotes: its triangle soup run through the
/// indexer starting from empty pools.
pub open spec fn mesh_indexed(voxels: Seq<Voxel>, size: Size) -> (
    Seq<Vertex>,
    Seq<Normal>,
    Seq<IndexedTriangle>,
) {
    index_all(Seq::empty(), Seq::empty(), Seq::empty(), mesh_triangles(voxels, size))
}

/// A converted model: its triangle soup and its indexed form.
pub struct Mesh {
    pub triangles: Vec<Triangle>,
    pub vertices: Vec<Vertex>,
    pub normals: Vec<Normal>,
    pub indexed_triangles: Vec<IndexedTriangle>,
}

/// Why a model's conversion was aborted: the grid indexer found a cell
/// coordinate at or beyond the declared grid dimensions.
#[derive(Copy, Clone, PartialEq, Eq, Structural, Debug)]
pub enum ConvertError {
    OutOfRange { cell: Voxel },
}

/// How many entries at the front of the voxel list lie inside the bounding
/// box; when some entry lies outside, this is the index of the first one.
pub open spec fn first_out_of_range(vs: Seq<Voxel>, size: Size) -> int
    decreases vs.len(),
{
    if vs.len() == 0 {
        0
    } else if !in_bounds(vs[0], size) {
        0
    } else {
        1 + first_out_of_range(vs.drop_first(), size)
    }
}

/// An out-of-bounds entry whose predecessors are all in bounds is the first
/// out-of-range entry of the list.
pub proof fn lemma_first_out_of_range(vs: Seq<Voxel>, size: Size, k: int)
    requires
        0 <= k < vs.len(),
        !in_bounds(vs[k], size),
        forall|j: int| 0 <= j < k ==> in_bounds(vs[j], size),
    ensures
        first_out_of_range(vs, size) == k,
    decreases k,
{
    if k == 0 {
    } else {
        assert(in_bounds(vs[0], size));
        assert(vs.drop_first()[k - 1] == vs[k]);
        assert forall|j: int| 0 <= j < k - 1 implies in_bounds(vs.drop_first()[j], size) by {
            assert(vs.drop_first()[j] == vs[j + 1]);
        }
        lemma_first_out_of_range(vs.drop_first(), size, k - 1);
    }
}

/// Converts one model: validates every coordinate against the declared
/// dimensions, builds the dense occupancy grid, culls occluded faces,
/// triangulates the visible ones and deduplicates the result into indexed
/// form. A coordinate outside the bounding box aborts the conversion, and
/// the error names the first such cell.
pub fn convert_model(voxels: &Vec<Voxel>, size: &Size) -> (r: Result<Mesh, ConvertError>)
    requires
        size.x * size.y <= usize::MAX,
        volume(*size) <= usize::MAX,
    ensures
        r is Ok <==> all_in_bounds(voxels@, *size),
        r matches Ok(mesh) ==> {
            &&& mesh.triangles@ == mesh_triangles(voxels@, *size)
            &&& mesh.vertices@ == mesh_indexed(voxels@, *size).0
            &&& mesh.normals@ == mesh_indexed(voxels@, *size).1
            &&& mesh.indexed_triangles@ == mesh_indexed(voxels@, *size).2
        },
        r matches Err(ConvertError::OutOfRange { cell }) ==> ({
            let k = first_out_of_range(voxels@, *size);
            &&& 0 <= k < voxels@.len()
            &&& cell == voxels@[k]
            &&& !in_bounds(cell, *size)
        }),
{
    let n: usize = voxels.len();
    let mut k: usize = 0;
    while k < n
        invariant
            k <= n,
            n == voxels@.len(),
            forall|j: int| 0 <= j < k ==> in_bounds(voxels@[j], *size),
        decreases n - k,
    {
        let v = voxels[k];
        if !((v.x as u32) < size.x && (v.y as u32) < size.y && (v.z as u32) < size.z) {
            proof {
                lemma_first_out_of_range(voxels@, *size, k as int);
                assert(!in_bounds(voxels@[k as int], *size));
                assert(!all_in_bounds(voxels@, *size));
            }
            return Err(ConvertError::OutOfRange { cell: v });
        }
        k = k + 1;
    }
    let grid = reorder_voxels(voxels, size);
    let mvoxels = convert_meta_voxels(&grid, size);
    let triangles = convert_triangles(&mvoxels);
    let mut vertices: Vec<Vertex> = Vec::new();
    let mut normals: Vec<Normal> = Vec::new();
    let mut indexed_triangles: Vec<IndexedTriangle> = Vec::new();
    index_triangles(&triangles, &mut vertices, &mut normals, &mut indexed_triangles);
    Ok(Mesh { triangles, vertices, normals, indexed_triangles })
}

/// Determinism: the mesh is a function of the voxel list and the dimensions
/// alone, so converting the same model twice yields identical triangle
/// lists, identical pools and identical index triples.
pub proof fn lemma_conversion_deterministic(
    voxels1: Seq<Voxel>,
    size1: Size,
    voxels2: Seq<Voxel>,
    size2: Size,
)
    requires
        voxels1 == voxels2,
        size1 == size2,
    ensures
        mesh_triangles(voxels1, size1) == mesh_triangles(voxels2, size2),
        mesh_indexed(voxels1, size1) == mesh_indexed(voxels2, size2),
{
}

/// In a grid where every cell is unoccupied, the face culler annotates
/// nothing and the triangulator emits nothing.
pub proof fn lemma_triangles_of_all_none(mg: Seq<Option<MetaVoxel>>)
    requires
        forall|i: int| 0 <= i < mg.len() ==> mg[i] is None,
    ensures
        triangles_of_meta(mg) == Seq::<Triangle>::empty(),
    decreases mg.len(),
{
    if mg.len() == 0 {
    } else {
        lemma_triangles_of_all_none(mg.drop_last());
        assert(triangles_of_meta(mg) =~= Seq::<Triangle>::empty());
    }
}

/// An empty voxel list is not a fault: it denotes a grid with no occupied
/// cell, which yields no annotated cell, no triangle, empty vertex and
/// normal pools and no indexed triangle.
pub proof fn lemma_empty_model(voxels: Seq<Voxel>, size: Size)
    requires
        voxels.len() == 0,
    ensures
        forall|i: int|
            0 <= i < volume(size) ==> #[trigger] grid_of_voxels(voxels, size)[i] is None,
        forall|i: int| 0 <= i < volume(size) ==> #[trigger] meta_grid(
            grid_of_voxels(voxels, size),
            size,
        )[i] is None,
        mesh_triangles(voxels, size) == Seq::<Triangle>::empty(),
        mesh_indexed(voxels, size).0 == Seq::<Vertex>::empty(),
        mesh_indexed(voxels, size).1 == Seq::<Normal>::empty(),
        mesh_indexed(voxels, size).2 == Seq::<IndexedTriangle>::empty(),
{
    let g = grid_of_voxels(voxels, size);
    assert(g == Seq::new(volume(size) as nat, |i: int| None::<Voxel>));
    let mg = meta_grid(g, size);
    lemma_triangles_of_all_none(mg);
}

} // verus!

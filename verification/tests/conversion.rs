use voxport::culler::convert_meta_voxels;
use voxport::geometry::{FaceMask, MetaVoxel, Normal, Size, Triangle, Vertex, Voxel};
use voxport::grid::{get_voxel_idx, reorder_voxels};
use voxport::palette::Color;
use voxport::pipeline::{convert_model, ConvertError};
use voxport::triangulate::convert_triangles;

fn vox(x: u8, y: u8, z: u8) -> Voxel {
    Voxel { x, y, z, i: 0 }
}

fn vert(x: u16, y: u16, z: u16) -> Vertex {
    Vertex { x, y, z }
}

fn tri(n: (i8, i8, i8), a: (u16, u16, u16), b: (u16, u16, u16), c: (u16, u16, u16)) -> Triangle {
    Triangle {
        normal: Normal { x: n.0, y: n.1, z: n.2 },
        a: vert(a.0, a.1, a.2),
        b: vert(b.0, b.1, b.2),
        c: vert(c.0, c.1, c.2),
    }
}

#[test]
fn linear_index_formula() {
    let size = Size { x: 4, y: 5, z: 6 };
    assert_eq!(get_voxel_idx(&vox(0, 0, 0), &size), 0);
    assert_eq!(get_voxel_idx(&vox(1, 2, 3), &size), 1 + 2 * 4 + 3 * 4 * 5);
    assert_eq!(get_voxel_idx(&vox(3, 4, 5), &size), 4 * 5 * 6 - 1);
}

#[test]
fn reorder_places_voxels_at_linear_index() {
    let size = Size { x: 2, y: 2, z: 1 };
    let voxels = vec![vox(1, 0, 0), vox(0, 1, 0)];
    let grid = reorder_voxels(&voxels, &size);
    assert_eq!(grid.len(), 4);
    assert_eq!(grid[0], None);
    assert_eq!(grid[1], Some(vox(1, 0, 0)));
    assert_eq!(grid[2], Some(vox(0, 1, 0)));
    assert_eq!(grid[3], None);
}

#[test]
fn reorder_duplicate_coordinate_last_write_wins() {
    let size = Size { x: 1, y: 1, z: 1 };
    let first = Voxel { x: 0, y: 0, z: 0, i: 1 };
    let second = Voxel { x: 0, y: 0, z: 0, i: 2 };
    let grid = reorder_voxels(&vec![first, second], &size);
    assert_eq!(grid.len(), 1);
    assert_eq!(grid[0], Some(second));
}

#[test]
fn face_mask_accessors() {
    let mv = MetaVoxel {
        voxel: vox(0, 0, 0),
        faces: FaceMask {
            left: true,
            back: false,
            bottom: true,
            right: false,
            front: true,
            top: false,
        },
    };
    assert!(mv.has_left());
    assert!(!mv.has_back());
    assert!(mv.has_bottom());
    assert!(!mv.has_right());
    assert!(mv.has_front());
    assert!(!mv.has_top());
}

#[test]
fn single_cube_emits_twelve_triangles() {
    let size = Size { x: 1, y: 1, z: 1 };
    let mesh = convert_model(&vec![vox(0, 0, 0)], &size).unwrap();
    let expected = vec![
        // left face, normal +X
        tri((1, 0, 0), (0, 0, 1), (0, 0, 0), (0, 1, 0)),
        tri((1, 0, 0), (0, 0, 1), (0, 1, 1), (0, 1, 0)),
        // back face, normal +Y
        tri((0, 1, 0), (0, 0, 1), (1, 0, 1), (1, 0, 0)),
        tri((0, 1, 0), (0, 0, 1), (0, 0, 0), (1, 0, 0)),
        // bottom face, normal +Z
        tri((0, 0, 1), (0, 0, 0), (0, 1, 0), (1, 1, 0)),
        tri((0, 0, 1), (0, 0, 0), (1, 0, 0), (1, 1, 0)),
        // right face, normal -X
        tri((-1, 0, 0), (1, 0, 1), (1, 0, 0), (1, 1, 0)),
        tri((-1, 0, 0), (1, 0, 1), (1, 1, 1), (1, 1, 0)),
        // front face, normal -Y
        tri((0, -1, 0), (0, 1, 1), (1, 1, 1), (1, 1, 0)),
        tri((0, -1, 0), (0, 1, 1), (0, 1, 0), (1, 1, 0)),
        // top face, normal -Z
        tri((0, 0, -1), (0, 0, 1), (0, 1, 1), (1, 1, 1)),
        tri((0, 0, -1), (0, 0, 1), (1, 0, 1), (1, 1, 1)),
    ];
    assert_eq!(mesh.triangles.len(), 12);
    assert_eq!(mesh.triangles, expected);
    // every vertex is one of the eight unit-cube corners
    for t in &mesh.triangles {
        for v in [t.a, t.b, t.c] {
            assert!(v.x <= 1 && v.y <= 1 && v.z <= 1);
        }
    }
    assert_eq!(mesh.vertices.len(), 8);
    assert_eq!(mesh.normals.len(), 6);
    assert_eq!(mesh.indexed_triangles.len(), 12);
}

#[test]
fn two_adjacent_cubes_cull_the_shared_face() {
    let size = Size { x: 2, y: 1, z: 1 };
    let mesh = convert_model(&vec![vox(0, 0, 0), vox(1, 0, 0)], &size).unwrap();
    assert_eq!(mesh.triangles.len(), 20);
    // the shared interior face is culled on both sides: no -X face at x == 1,
    // and no +X face at x == 1 either
    for t in &mesh.triangles {
        if t.normal == (Normal { x: -1, y: 0, z: 0 }) {
            assert_eq!((t.a.x, t.b.x, t.c.x), (2, 2, 2));
        }
        if t.normal == (Normal { x: 1, y: 0, z: 0 }) {
            assert_eq!((t.a.x, t.b.x, t.c.x), (0, 0, 0));
        }
    }
}

#[test]
fn fully_enclosed_cell_is_dropped() {
    // a center cell whose six face-neighbors are all occupied contributes
    // no annotated cell and no triangles
    let size = Size { x: 3, y: 3, z: 3 };
    let voxels = vec![
        vox(1, 1, 1),
        vox(0, 1, 1),
        vox(2, 1, 1),
        vox(1, 0, 1),
        vox(1, 2, 1),
        vox(1, 1, 0),
        vox(1, 1, 2),
    ];
    let grid = reorder_voxels(&voxels, &size);
    let mvoxels = convert_meta_voxels(&grid, &size);
    let center = get_voxel_idx(&vox(1, 1, 1), &size);
    assert_eq!(mvoxels[center], None);
    // and the six neighbors still emit geometry
    let triangles = convert_triangles(&mvoxels);
    assert!(!triangles.is_empty());
}

#[test]
fn boundary_faces_are_visible_regardless_of_occupancy() {
    // a full 2x2x2 grid: every cell touches every boundary of its octant,
    // so each cell keeps exactly its three boundary faces
    let size = Size { x: 2, y: 2, z: 2 };
    let mut voxels = Vec::new();
    for z in 0..2 {
        for y in 0..2 {
            for x in 0..2 {
                voxels.push(vox(x, y, z));
            }
        }
    }
    let grid = reorder_voxels(&voxels, &size);
    let mvoxels = convert_meta_voxels(&grid, &size);
    for cell in &voxels {
        let idx = get_voxel_idx(cell, &size);
        let mv = mvoxels[idx].expect("boundary cell must stay annotated");
        assert_eq!(mv.has_left(), cell.x == 0);
        assert_eq!(mv.has_right(), cell.x == 1);
        assert_eq!(mv.has_back(), cell.y == 0);
        assert_eq!(mv.has_front(), cell.y == 1);
        assert_eq!(mv.has_bottom(), cell.z == 0);
        assert_eq!(mv.has_top(), cell.z == 1);
    }
}

#[test]
fn empty_grid_is_not_a_fault() {
    let size = Size { x: 4, y: 4, z: 4 };
    let mesh = convert_model(&Vec::new(), &size).unwrap();
    assert_eq!(mesh.triangles.len(), 0);
    assert_eq!(mesh.vertices.len(), 0);
    assert_eq!(mesh.normals.len(), 0);
    assert_eq!(mesh.indexed_triangles.len(), 0);
}

#[test]
fn conversion_is_deterministic() {
    let size = Size { x: 3, y: 2, z: 2 };
    let voxels = vec![vox(0, 0, 0), vox(1, 0, 0), vox(1, 1, 1), vox(2, 1, 0)];
    let first = convert_model(&voxels, &size).unwrap();
    let second = convert_model(&voxels, &size).unwrap();
    assert_eq!(first.triangles, second.triangles);
    assert_eq!(first.vertices, second.vertices);
    assert_eq!(first.normals, second.normals);
    assert_eq!(first.indexed_triangles, second.indexed_triangles);
}

#[test]
fn out_of_range_coordinate_aborts_the_conversion() {
    let size = Size { x: 2, y: 2, z: 2 };
    let bad = vox(0, 5, 0);
    let voxels = vec![vox(1, 1, 1), bad, vox(7, 7, 7)];
    match convert_model(&voxels, &size) {
        Ok(_) => panic!("a coordinate beyond the dimensions must be rejected"),
        Err(ConvertError::OutOfRange { cell }) => assert_eq!(cell, bad),
    }
}

#[test]
fn largest_coordinate_meshes_without_truncation() {
    // a cell at the top of the coordinate range: its far corners lie at 256,
    // one past the largest coordinate a cell can have
    let size = Size { x: 256, y: 1, z: 1 };
    let mesh = convert_model(&vec![vox(255, 0, 0)], &size).unwrap();
    assert_eq!(mesh.triangles.len(), 12);
    let max_x = mesh.triangles.iter().flat_map(|t| [t.a.x, t.b.x, t.c.x]).max().unwrap();
    assert_eq!(max_x, 256);
    let min_x = mesh.triangles.iter().flat_map(|t| [t.a.x, t.b.x, t.c.x]).min().unwrap();
    assert_eq!(min_x, 255);
}

#[test]
fn column_culls_interior_faces_only() {
    // a 1x1x3 column: each end cell keeps five faces, the middle cell keeps
    // four (its top and bottom neighbors occlude it)
    let size = Size { x: 1, y: 1, z: 3 };
    let mesh = convert_model(&vec![vox(0, 0, 0), vox(0, 0, 1), vox(0, 0, 2)], &size).unwrap();
    assert_eq!(mesh.triangles.len(), 2 * (5 + 4 + 5));
}

#[test]
fn color_decodes_packed_channels() {
    let c = Color::from_rgba_u32(0x11223344);
    assert_eq!((c.r, c.g, c.b, c.a), (0x44, 0x33, 0x22, 0x11));
    let opaque_red = Color::from_rgba_u32(0xFF0000FF);
    assert_eq!((opaque_red.r, opaque_red.g, opaque_red.b, opaque_red.a), (255, 0, 0, 255));
    let zero = Color::from_rgba_u32(0);
    assert_eq!((zero.r, zero.g, zero.b, zero.a), (0, 0, 0, 0));
}

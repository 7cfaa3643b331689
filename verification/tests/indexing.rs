use voxport::geometry::{Normal, Size, Triangle, Vertex, Voxel};
use voxport::indexer::index_triangles;
use voxport::pipeline::convert_model;

fn vert(x: u16, y: u16, z: u16) -> Vertex {
    Vertex { x, y, z }
}

#[test]
fn indexing_deduplicates_under_exact_equality() {
    let n = Normal { x: 0, y: 0, z: 1 };
    let t1 = Triangle { normal: n, a: vert(0, 0, 0), b: vert(1, 0, 0), c: vert(1, 1, 0) };
    let t2 = Triangle { normal: n, a: vert(0, 0, 0), b: vert(1, 1, 0), c: vert(0, 1, 0) };
    let triangles = vec![t1, t2];
    let mut vertices: Vec<Vertex> = Vec::new();
    let mut normals: Vec<Normal> = Vec::new();
    let mut indexed: Vec<voxport::geometry::IndexedTriangle> = Vec::new();
    index_triangles(&triangles, &mut vertices, &mut normals, &mut indexed);
    // four distinct corners and one normal across the two triangles
    assert_eq!(vertices, vec![vert(0, 0, 0), vert(1, 0, 0), vert(1, 1, 0), vert(0, 1, 0)]);
    assert_eq!(normals, vec![n]);
    assert_eq!(indexed.len(), 2);
    assert_eq!((indexed[0].a, indexed[0].b, indexed[0].c, indexed[0].normal_index), (0, 1, 2, 0));
    assert_eq!((indexed[1].a, indexed[1].b, indexed[1].c, indexed[1].normal_index), (0, 2, 3, 0));
    assert_eq!(indexed[0].normal, n);
    assert_eq!(indexed[1].normal, n);
}

#[test]
fn indexing_round_trip_reproduces_the_triangles() {
    let size = Size { x: 2, y: 2, z: 2 };
    let voxels = vec![
        Voxel { x: 0, y: 0, z: 0, i: 0 },
        Voxel { x: 1, y: 0, z: 0, i: 0 },
        Voxel { x: 0, y: 1, z: 1, i: 0 },
    ];
    let mesh = convert_model(&voxels, &size).unwrap();
    assert_eq!(mesh.indexed_triangles.len(), mesh.triangles.len());
    // no two vertex-pool entries are equal, and none of the normal pool either
    for i in 0..mesh.vertices.len() {
        for j in (i + 1)..mesh.vertices.len() {
            assert_ne!(mesh.vertices[i], mesh.vertices[j]);
        }
    }
    for i in 0..mesh.normals.len() {
        for j in (i + 1)..mesh.normals.len() {
            assert_ne!(mesh.normals[i], mesh.normals[j]);
        }
    }
    // expanding every indexed triangle through the pools reproduces the
    // original triangle data exactly
    for (it, t) in mesh.indexed_triangles.iter().zip(mesh.triangles.iter()) {
        assert_eq!(mesh.vertices[it.a], t.a);
        assert_eq!(mesh.vertices[it.b], t.b);
        assert_eq!(mesh.vertices[it.c], t.c);
        assert_eq!(mesh.normals[it.normal_index], t.normal);
        assert_eq!(it.normal, t.normal);
    }
}

use vstd::prelude::*;

use crate::geometry::{MetaVoxel, Normal, Triangle, Vertex, Voxel};

verus! {

/// A corner of the unit cube that a cell occupies: the cell's minimum corner
/// plus an offset of 0 or 1 along each axis.
pub open spec fn corner(v: Voxel, dx: int, dy: int, dz: int) -> Vertex {
    Vertex { x: (v.x + dx) as u16, y: (v.y + dy) as u16, z: (v.z + dz) as u16 }
}

/// The two triangles of the left face (x = cell minimum), normal +X.
pub open spec fn left_face(v: Voxel) -> Seq<Triangle> {
    let n = Normal { x: 1, y: 0, z: 0 };
    seq![
        Triangle { normal: n, a: corner(v, 0, 0, 1), b: corner(v, 0, 0, 0), c: corner(v, 0, 1, 0) },
        Triangle { normal: n, a: corner(v, 0, 0, 1), b: corner(v, 0, 1, 1), c: corner(v, 0, 1, 0) },
    ]
}

/// The two triangles of the back face (y = cell minimum), normal +Y.
pub open spec fn back_face(v: Voxel) -> Seq<Triangle> {
    let n = Normal { x: 0, y: 1, z: 0 };
    seq![
        Triangle { normal: n, a: corner(v, 0, 0, 1), b: corner(v, 1, 0, 1), c: corner(v, 1, 0, 0) },
        Triangle { normal: n, a: corner(v, 0, 0, 1), b: corner(v, 0, 0, 0), c: corner(v, 1, 0, 0) },
    ]
}

/// The two triangles of the bottom face (z = cell minimum), normal +Z.
pub open spec fn bottom_face(v: Voxel) -> Seq<Triangle> {
    let n = Normal { x: 0, y: 0, z: 1 };
    seq![
        Triangle { normal: n, a: corner(v, 0, 0, 0), b: corner(v, 0, 1, 0), c: corner(v, 1, 1, 0) },
        Triangle { normal: n, a: corner(v, 0, 0, 0), b: corner(v, 1, 0, 0), c: corner(v, 1, 1, 0) },
    ]
}

/// The two triangles of the right face (x = cell minimum + 1), normal -X.
pub open spec fn right_face(v: Voxel) -> Seq<Triangle> {
    let n = Normal { x: -1i8, y: 0, z: 0 };
    seq![
        Triangle { normal: n, a: corner(v, 1, 0, 1), b: corner(v, 1, 0, 0), c: corner(v, 1, 1, 0) },
        Triangle { normal: n, a: corner(v, 1, 0, 1), b: corner(v, 1, 1, 1), c: corner(v, 1, 1, 0) },
    ]
}

/// The two triangles of the front face (y = cell minimum + 1), normal -Y.
pub open spec fn front_face(v: Voxel) -> Seq<Triangle> {
    let n = Normal { x: 0, y: -1i8, z: 0 };
    seq![
        Triangle { normal: n, a: corner(v, 0, 1, 1), b: corner(v, 1, 1, 1), c: corner(v, 1, 1, 0) },
        Triangle { normal: n, a: corner(v, 0, 1, 1), b: corner(v, 0, 1, 0), c: corner(v, 1, 1, 0) },
    ]
}

/// The two triangles of the top face (z = cell minimum + 1), normal -Z.
pub open spec fn top_face(v: Voxel) -> Seq<Triangle> {
    let n = Normal { x: 0, y: 0, z: -1i8 };
    seq![
        Triangle { normal: n, a: corner(v, 0, 0, 1), b: corner(v, 0, 1, 1), c: corner(v, 1, 1, 1) },
        Triangle { normal: n, a: corner(v, 0, 0, 1), b: corner(v, 1, 0, 1), c: corner(v, 1, 1, 1) },
    ]
}

/// All triangles of one annotated cell, two per visible face, in the fixed
/// face order left, back, bottom, right, front, top.
pub open spec fn cell_triangles(mv: MetaVoxel) -> Seq<Triangle> {
    (if mv.faces.left {
        left_face(mv.voxel)
    } else {
        Seq::empty()
    }) + (if mv.faces.back {
        back_face(mv.voxel)
    } else {
        Seq::empty()
    }) + (if mv.faces.bottom {
        bottom_face(mv.voxel)
    } else {
        Seq::empty()
    }) + (if mv.faces.right {
        right_face(mv.voxel)
    } else {
        Seq::empty()
    }) + (if mv.faces.front {
        front_face(mv.voxel)
    } else {
        Seq::empty()
    }) + (if mv.faces.top {
        top_face(mv.voxel)
    } else {
        Seq::empty()
    })
}

/// The triangles of one entry of the annotated grid: none for a dropped cell.
pub open spec fn cell_opt_triangles(c: Option<MetaVoxel>) -> Seq<Triangle> {
    match c {
        Some(mv) => cell_triangles(mv),
        None => Seq::empty(),
    }
}

/// The triangles of the whole annotated grid, cells in linear scan order.
pub open spec fn triangles_of_meta(mg: Seq<Option<MetaVoxel>>) -> Seq<Triangle>
    decreases mg.len(),
{
    if mg.len() == 0 {
        Seq::empty()
    } else {
        triangles_of_meta(mg.drop_last()) + cell_opt_triangles(mg.last())
    }
}

/// Appends the left face's two triangles.
fn push_left_face(triangles: &mut Vec<Triangle>, v: Voxel)
    ensures
        final(triangles)@ == old(triangles)@ + left_face(v),
{
    let normal = Normal { x: 1, y: 0, z: 0 };
    let a = Vertex { x: v.x as u16, y: v.y as u16, z: v.z as u16 + 1 };
    let t1 = Triangle {
        normal,
        a,
        b: Vertex { x: v.x as u16, y: v.y as u16, z: v.z as u16 },
        c: Vertex { x: v.x as u16, y: v.y as u16 + 1, z: v.z as u16 },
    };
    let t2 = Triangle {
        normal,
        a,
        b: Vertex { x: v.x as u16, y: v.y as u16 + 1, z: v.z as u16 + 1 },
        c: Vertex { x: v.x as u16, y: v.y as u16 + 1, z: v.z as u16 },
    };
    triangles.push(t1);
    triangles.push(t2);
    proof {
        assert(triangles@ =~= old(triangles)@ + left_face(v));
    }
}

/// Appends the back face's two triangles.
fn push_back_face(triangles: &mut Vec<Triangle>, v: Voxel)
    ensures
        final(triangles)@ == old(triangles)@ + back_face(v),
{
    let normal = Normal { x: 0, y: 1, z: 0 };
    let a = Vertex { x: v.x as u16, y: v.y as u16, z: v.z as u16 + 1 };
    let t1 = Triangle {
        normal,
        a,
        b: Vertex { x: v.x as u16 + 1, y: v.y as u16, z: v.z as u16 + 1 },
        c: Vertex { x: v.x as u16 + 1, y: v.y as u16, z: v.z as u16 },
    };
    let t2 = Triangle {
        normal,
        a,
        b: Vertex { x: v.x as u16, y: v.y as u16, z: v.z as u16 },
        c: Vertex { x: v.x as u16 + 1, y: v.y as u16, z: v.z as u16 },
    };
    triangles.push(t1);
    triangles.push(t2);
    proof {
        assert(triangles@ =~= old(triangles)@ + back_face(v));
    }
}

/// Appends the bottom face's two triangles.
fn push_bottom_face(triangles: &mut Vec<Triangle>, v: Voxel)
    ensures
        final(triangles)@ == old(triangles)@ + bottom_face(v),
{
    let normal = Normal { x: 0, y: 0, z: 1 };
    let a = Vertex { x: v.x as u16, y: v.y as u16, z: v.z as u16 };
    let t1 = Triangle {
        normal,
        a,
        b: Vertex { x: v.x as u16, y: v.y as u16 + 1, z: v.z as u16 },
        c: Vertex { x: v.x as u16 + 1, y: v.y as u16 + 1, z: v.z as u16 },
    };
    let t2 = Triangle {
        normal,
        a,
        b: Vertex { x: v.x as u16 + 1, y: v.y as u16, z: v.z as u16 },
        c: Vertex { x: v.x as u16 + 1, y: v.y as u16 + 1, z: v.z as u16 },
    };
    triangles.push(t1);
    triangles.push(t2);
    proof {
        assert(triangles@ =~= old(triangles)@ + bottom_face(v));
    }
}

/// Appends the right face's two triangles.
fn push_right_face(triangles: &mut Vec<Triangle>, v: Voxel)
    ensures
        final(triangles)@ == old(triangles)@ + right_face(v),
{
    let normal = Normal { x: -1, y: 0, z: 0 };
    let a = Vertex { x: v.x as u16 + 1, y: v.y as u16, z: v.z as u16 + 1 };
    let t1 = Triangle {
        normal,
        a,
        b: Vertex { x: v.x as u16 + 1, y: v.y as u16, z: v.z as u16 },
        c: Vertex { x: v.x as u16 + 1, y: v.y as u16 + 1, z: v.z as u16 },
    };
    let t2 = Triangle {
        normal,
        a,
        b: Vertex { x: v.x as u16 + 1, y: v.y as u16 + 1, z: v.z as u16 + 1 },
        c: Vertex { x: v.x as u16 + 1, y: v.y as u16 + 1, z: v.z as u16 },
    };
    triangles.push(t1);
    triangles.push(t2);
    proof {
        assert(triangles@ =~= old(triangles)@ + right_face(v));
    }
}

/// Appends the front face's two triangles.
fn push_front_face(triangles: &mut Vec<Triangle>, v: Voxel)
    ensures
        final(triangles)@ == old(triangles)@ + front_face(v),
{
    let normal = Normal { x: 0, y: -1, z: 0 };
    let a = Vertex { x: v.x as u16, y: v.y as u16 + 1, z: v.z as u16 + 1 };
    let t1 = Triangle {
        normal,
        a,
        b: Vertex { x: v.x as u16 + 1, y: v.y as u16 + 1, z: v.z as u16 + 1 },
        c: Vertex { x: v.x as u16 + 1, y: v.y as u16 + 1, z: v.z as u16 },
    };
    let t2 = Triangle {
        normal,
        a,
        b: Vertex { x: v.x as u16, y: v.y as u16 + 1, z: v.z as u16 },
        c: Vertex { x: v.x as u16 + 1, y: v.y as u16 + 1, z: v.z as u16 },
    };
    triangles.push(t1);
    triangles.push(t2);
    proof {
        assert(triangles@ =~= old(triangles)@ + front_face(v));
    }
}

/// Appends the top face's two triangles.
fn push_top_face(triangles: &mut Vec<Triangle>, v: Voxel)
    ensures
        final(triangles)@ == old(triangles)@ + top_face(v),
{
    let normal = Normal { x: 0, y: 0, z: -1 };
    let a = Vertex { x: v.x as u16, y: v.y as u16, z: v.z as u16 + 1 };
    let t1 = Triangle {
        normal,
        a,
        b: Vertex { x: v.x as u16, y: v.y as u16 + 1, z: v.z as u16 + 1 },
        c: Vertex { x: v.x as u16 + 1, y: v.y as u16 + 1, z: v.z as u16 + 1 },
    };
    let t2 = Triangle {
        normal,
        a,
        b: Vertex { x: v.x as u16 + 1, y: v.y as u16, z: v.z as u16 + 1 },
        c: Vertex { x: v.x as u16 + 1, y: v.y as u16 + 1, z: v.z as u16 + 1 },
    };
    triangles.push(t1);
    triangles.push(t2);
    proof {
        assert(triangles@ =~= old(triangles)@ + top_face(v));
    }
}

/// Appends the triangles of one annotated cell, two per visible face, faces
/// in the fixed order left, back, bottom, right, front, top.
#[verifier::rlimit(50)]
fn push_cell_triangles(triangles: &mut Vec<Triangle>, mvoxel: &MetaVoxel)
    ensures
        final(triangles)@ == old(triangles)@ + cell_triangles(*mvoxel),
{
    let v = mvoxel.voxel;
    if mvoxel.has_left() {
        push_left_face(triangles, v);
    }
    if mvoxel.has_back() {
        push_back_face(triangles, v);
    }
    if mvoxel.has_bottom() {
        push_bottom_face(triangles, v);
    }
    if mvoxel.has_right() {
        push_right_face(triangles, v);
    }
    if mvoxel.has_front() {
        push_front_face(triangles, v);
    }
    if mvoxel.has_top() {
        push_top_face(triangles, v);
    }
    proof {
        assert(triangles@ =~= old(triangles)@ + cell_triangles(*mvoxel));
    }
}

/// Runs the triangulator: expands every annotated cell into explicit
/// triangles, cells in the linear scan order of the annotated grid.
pub fn convert_triangles(mvoxels: &Vec<Option<MetaVoxel>>) -> (triangles: Vec<Triangle>)
    ensures
        triangles@ == triangles_of_meta(mvoxels@),
{
    let mut triangles: Vec<Triangle> = Vec::new();
    let len: usize = mvoxels.len();
    let mut i: usize = 0;
    assert(triangles@ =~= triangles_of_meta(mvoxels@.take(0)));
    while i < len
        invariant
            i <= len,
            len == mvoxels@.len(),
            triangles@ == triangles_of_meta(mvoxels@.take(i as int)),
        decreases len - i,
    {
        let ghost before = triangles@;
        match mvoxels[i] {
            Some(mvoxel) => {
                push_cell_triangles(&mut triangles, &mvoxel);
            },
            None => {
            },
        }
        proof {
            let pre = mvoxels@.take(i as int);
            let post = mvoxels@.take(i + 1);
            assert(post.drop_last() =~= pre);
            assert(post.last() == mvoxels@[i as int]);
            assert(triangles@ =~= triangles_of_meta(post));
        }
        i = i + 1;
    }
    proof {
        assert(mvoxels@.take(len as int) =~= mvoxels@);
    }
    triangles
}

} // verus!

use vstd::prelude::*;

verus! {

/// An occupied cell of the voxel grid: its coordinates and the index of its
/// material in the model's palette. A cell occupies the closed unit cube whose
/// minimum corner is (x, y, z) in model space.
#[derive(Copy, Clone, PartialEq, Eq, Structural, Debug)]
pub struct Voxel {
    pub x: u8,
    pub y: u8,
    pub z: u8,
    pub i: u8,
}

/// The dimensions of the grid's bounding box: width, depth and height.
#[derive(Copy, Clone, PartialEq, Eq, Structural, Debug)]
pub struct Size {
    pub x: u32,
    pub y: u32,
    pub z: u32,
}

/// Which of a cell's six axis-aligned faces are externally visible.
#[derive(Copy, Clone, PartialEq, Eq, Structural, Debug)]
pub struct FaceMask {
    pub left: bool,
    pub back: bool,
    pub bottom: bool,
    pub right: bool,
    pub front: bool,
    pub top: bool,
}

/// At least one face is visible.
pub open spec fn any_visible(m: FaceMask) -> bool {
    m.left || m.back || m.bottom || m.right || m.front || m.top
}

/// An occupied cell together with its face-visibility record.
#[derive(Copy, Clone, PartialEq, Eq, Structural, Debug)]
pub struct MetaVoxel {
    pub voxel: Voxel,
    pub faces: FaceMask,
}

impl MetaVoxel {
    pub fn has_left(&self) -> (r: bool)
        ensures
            r == self.faces.left,
    {
        self.faces.left
    }

    pub fn has_back(&self) -> (r: bool)
        ensures
            r == self.faces.back,
    {
        self.faces.back
    }

    pub fn has_bottom(&self) -> (r: bool)
        ensures
            r == self.faces.bottom,
    {
        self.faces.bottom
    }

    pub fn has_right(&self) -> (r: bool)
        ensures
            r == self.faces.right,
    {
        self.faces.right
    }

    pub fn has_front(&self) -> (r: bool)
        ensures
            r == self.faces.front,
    {
        self.faces.front
    }

    pub fn has_top(&self) -> (r: bool)
        ensures
            r == self.faces.top,
    {
        self.faces.top
    }
}

/// A vertex position in model space. Every vertex the pipeline emits lies on
/// an integer lattice point (a corner of some unit cube), so positions are
/// held exactly as integers; exporters may widen them to floating point.
#[derive(Copy, Clone, PartialEq, Eq, Structural, Debug)]
pub struct Vertex {
    pub x: u16,
    pub y: u16,
    pub z: u16,
}

/// A face normal: one of the six axis directions, held exactly with
/// components in {-1, 0, 1}.
#[derive(Copy, Clone, PartialEq, Eq, Structural, Debug)]
pub struct Normal {
    pub x: i8,
    pub y: i8,
    pub z: i8,
}

/// One triangle of the surface mesh: an outward normal and three vertex
/// positions held by value.
#[derive(Copy, Clone, PartialEq, Eq, Structural, Debug)]
pub struct Triangle {
    pub normal: Normal,
    pub a: Vertex,
    pub b: Vertex,
    pub c: Vertex,
}

/// A triangle in indexed form: the normal both by value (for triangle-soup
/// consumers) and as an index into the normal pool, and three indices into
/// the vertex pool.
#[derive(Copy, Clone, PartialEq, Eq, Structural, Debug)]
pub struct IndexedTriangle {
    pub normal: Normal,
    pub normal_index: usize,
    pub a: usize,
    pub b: usize,
    pub c: usize,
}

} // verus!

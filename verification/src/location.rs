//! Topological attachment points and the validity matrix per mesh kind.

use vstd::prelude::*;

verus! {

/// A topological location at which an attribute may be attached.
#[allow(non_camel_case_types)]
#[derive(Clone, Copy, PartialEq, Eq, Structural, Debug)]
pub enum AttribLocation {
    VERTEX,
    FACE,
    CELL,
    FACEVERTEX,
    CELLVERTEX,
}

/// Discriminant telling which variant a `Mesh` holds.
#[derive(Clone, Copy, PartialEq, Eq, Structural, Debug)]
pub enum MeshTag {
    TetMesh,
    PolyMesh,
    PointCloud,
    Empty,
}

/// The validity matrix: a point cloud carries only vertex attributes, a
/// polygon mesh carries vertex, face and face-vertex attributes, and a
/// tetrahedral mesh carries vertex, cell and cell-vertex attributes.
pub open spec fn location_valid(tag: MeshTag, loc: AttribLocation) -> bool {
    match tag {
        MeshTag::PointCloud => loc is VERTEX,
        MeshTag::PolyMesh => loc is VERTEX || loc is FACE || loc is FACEVERTEX,
        MeshTag::TetMesh => loc is VERTEX || loc is CELL || loc is CELLVERTEX,
        MeshTag::Empty => false,
    }
}

/// Decides whether `loc` is a valid attachment point for a mesh of kind `tag`.
pub fn is_valid_location(tag: MeshTag, loc: AttribLocation) -> (r: bool)
    ensures
        r == location_valid(tag, loc),
{
    match tag {
        MeshTag::PointCloud => matches!(loc, AttribLocation::VERTEX),
        MeshTag::PolyMesh => matches!(
            loc,
            AttribLocation::VERTEX | AttribLocation::FACE | AttribLocation::FACEVERTEX
        ),
        MeshTag::TetMesh => matches!(
            loc,
            AttribLocation::VERTEX | AttribLocation::CELL | AttribLocation::CELLVERTEX
        ),
        MeshTag::Empty => false,
    }
}

} // verus!

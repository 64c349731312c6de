//! The mesh container: a tagged union over the three mesh kinds and an
//! empty marker, with probing and unwrapping entry points.

use vstd::prelude::*;

use crate::location::MeshTag;
use crate::pointcloud::PointCloud;
use crate::polymesh::PolyMesh;
use crate::tetmesh::TetMesh;

verus! {

/// A mesh of one of the supported kinds, or nothing.
pub enum Mesh {
    TetMesh(TetMesh),
    PolyMesh(PolyMesh),
    PointCloud(PointCloud),
    Empty,
}

impl Mesh {
    /// The kind tag of this mesh.
    pub open spec fn tag_spec(self) -> MeshTag {
        match self {
            Mesh::TetMesh(_) => MeshTag::TetMesh,
            Mesh::PolyMesh(_) => MeshTag::PolyMesh,
            Mesh::PointCloud(_) => MeshTag::PointCloud,
            Mesh::Empty => MeshTag::Empty,
        }
    }

    /// Probes for a tetrahedral mesh.
    pub fn is_tetmesh(&self) -> (r: bool)
        ensures
            r == (self is TetMesh),
    {
        matches!(self, Mesh::TetMesh(_))
    }

    /// Probes for a polygon mesh.
    pub fn is_polymesh(&self) -> (r: bool)
        ensures
            r == (self is PolyMesh),
    {
        matches!(self, Mesh::PolyMesh(_))
    }

    /// Probes for a point cloud.
    pub fn is_pointcloud(&self) -> (r: bool)
        ensures
            r == (self is PointCloud),
    {
        matches!(self, Mesh::PointCloud(_))
    }

    /// The kind tag of this mesh.
    pub fn tag(&self) -> (r: MeshTag)
        ensures
            r == self.tag_spec(),
    {
        match self {
            Mesh::TetMesh(_) => MeshTag::TetMesh,
            Mesh::PolyMesh(_) => MeshTag::PolyMesh,
            Mesh::PointCloud(_) => MeshTag::PointCloud,
            Mesh::Empty => MeshTag::Empty,
        }
    }

    /// This mesh, or `b` when this mesh is empty.
    pub fn or(self, b: Mesh) -> (r: Mesh)
        ensures
            r == if self is Empty {
                b
            } else {
                self
            },
    {
        match self {
            Mesh::Empty => b,
            _ => self,
        }
    }

    /// This mesh, or the mesh produced by `f` when this mesh is empty.
    pub fn or_else<F: FnOnce() -> Mesh>(self, f: F) -> (r: Mesh)
        requires
            self is Empty ==> call_requires(f, ()),
        ensures
            !(self is Empty) ==> r == self,
            self is Empty ==> call_ensures(f, (), r),
    {
        match self {
            Mesh::Empty => f(),
            _ => self,
        }
    }
}

/// Unwraps a mesh known to hold a tetrahedral mesh.
pub fn into_tetmesh(mesh: Box<Mesh>) -> (r: Box<TetMesh>)
    requires
        (*mesh) is TetMesh,
    ensures
        *mesh == Mesh::TetMesh(*r),
{
    match *mesh {
        Mesh::TetMesh(m) => Box::new(m),
        _ => vstd::pervasive::unreached(),
    }
}

/// Unwraps a mesh known to hold a polygon mesh.
pub fn into_polymesh(mesh: Box<Mesh>) -> (r: Box<PolyMesh>)
    requires
        (*mesh) is PolyMesh,
    ensures
        *mesh == Mesh::PolyMesh(*r),
{
    match *mesh {
        Mesh::PolyMesh(m) => Box::new(m),
        _ => vstd::pervasive::unreached(),
    }
}

/// Unwraps a mesh known to hold a point cloud.
pub fn into_pointcloud(mesh: Box<Mesh>) -> (r: Box<PointCloud>)
    requires
        (*mesh) is PointCloud,
    ensures
        *mesh == Mesh::PointCloud(*r),
{
    match *mesh {
        Mesh::PointCloud(m) => Box::new(m),
        _ => vstd::pervasive::unreached(),
    }
}

} // verus!

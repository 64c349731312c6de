//! A typed, location-aware attribute store for mesh-like data.
//!
//! Meshes (point clouds, polygon meshes, tetrahedral meshes) carry named
//! attributes attached to topological locations (vertices, faces, cells,
//! face-vertices, cell-vertices).  Each attribute holds either a dense
//! buffer of fixed-arity scalar tuples or per-element optional strings.
//! The flattening layer converts attributes to and from flat, contiguous
//! arrays tagged with their tuple arity, so that a caller with no notion
//! of generics can enumerate, read and write attributes without losing
//! type information.
//!
//! Floating-point scalars are carried as their IEEE 754 bit patterns
//! (`u32` for 32-bit floats, `u64` for 64-bit floats); converting to and
//! from native float types is left to unverified edge code.

pub mod attrib;
pub mod cook;
pub mod dict;
pub mod error;
pub mod interop;
pub mod iter;
pub mod laws;
pub mod location;
pub mod mesh;
pub mod pointcloud;
pub mod polymesh;
pub mod tetmesh;
pub mod tuple_vec;
mod util;

pub use attrib::AttribValues;
pub use attrib::Attribute;
pub use attrib::DataType;
pub use cook::CookResult;
pub use cook::CookResultTag;
pub use dict::AttribDict;
pub use error::AttribError;
pub use error::Error;
pub use error::MeshError;
pub use iter::AttribIter;
pub use location::AttribLocation;
pub use location::MeshTag;
pub use location::is_valid_location;
pub use mesh::Mesh;
pub use mesh::into_pointcloud;
pub use mesh::into_polymesh;
pub use mesh::into_tetmesh;
pub use pointcloud::PointCloud;
pub use pointcloud::make_pointcloud;
pub use polymesh::PolyMesh;
pub use polymesh::make_polymesh;
pub use tetmesh::TetMesh;
pub use tetmesh::make_tetmesh;
pub use tuple_vec::TupleVec;
pub use tuple_vec::TupleVecI8;
pub use tuple_vec::TupleVecI32;
pub use tuple_vec::TupleVecI64;
pub use tuple_vec::TupleVecF32Bits;
pub use tuple_vec::TupleVecF64Bits;
pub use tuple_vec::TupleVecStr;

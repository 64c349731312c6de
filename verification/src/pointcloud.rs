//! The point cloud: vertex positions and one attribute dictionary for
//! the vertex location, the only location valid for this mesh kind.

use vstd::prelude::*;

use crate::attrib::AttrData;
use crate::attrib::AttrView;
use crate::attrib::AttribValues;
use crate::attrib::Attribute;
use crate::dict::AttribDict;
use crate::dict::dict_insert;
use crate::dict::dict_wf;
use crate::dict::pool_view;
use crate::dict::resolve_strings;
use crate::dict::str_indices_ok;
use crate::error::AttribError;
use crate::error::MeshError;
use crate::iter::AttribIter;
use crate::location::AttribLocation;
use crate::location::MeshTag;
use crate::location::location_valid;
use crate::util::slice_to_vec;

verus! {

/// A point cloud with a vertex attribute dictionary.
#[derive(Debug)]
pub struct PointCloud {
    pub coords: Vec<u64>,
    pub vertex_attribs: AttribDict,
}

impl PointCloud {
    /// Number of vertices (three coordinate bit patterns per vertex).
    pub open spec fn num_verts(self) -> nat {
        self.coords@.len() / 3
    }

    /// The element count of a location of this mesh.
    pub open spec fn card_at(self, loc: AttribLocation) -> nat {
        match loc {
            AttribLocation::VERTEX => self.num_verts(),
            _ => 0,
        }
    }

    /// Structural well-formedness: coordinates come in triples and the
    /// vertex dictionary is well-formed for the vertex count.
    pub open spec fn wf(self) -> bool {
        &&& self.coords@.len() % 3 == 0
        &&& dict_wf(self.vertex_attribs@, self.num_verts())
    }

    /// The contract of every direct (numeric) attribute add: on success
    /// the attribute `a` is inserted into the vertex dictionary and
    /// nothing else changes; each rejection is a no-op and is reported
    /// if and only if its condition holds, checked in the order
    /// location, arity, cardinality.
    pub open spec fn direct_add_ensures(
        pre: PointCloud,
        post: PointCloud,
        loc: AttribLocation,
        a: AttrView,
        r: Result<(), AttribError>,
    ) -> bool {
        match r {
            Ok(()) => location_valid(MeshTag::PointCloud, loc) && 1 <= a.tuple_size <= 16
                && a.data.len() == pre.card_at(loc) * a.tuple_size && post.vertex_attribs@
                == dict_insert(pre.vertex_attribs@, a) && post.coords == pre.coords,
            Err(AttribError::InvalidLocation) => post == pre && !location_valid(
                MeshTag::PointCloud,
                loc,
            ),
            Err(AttribError::InvalidTupleSize) => post == pre && location_valid(
                MeshTag::PointCloud,
                loc,
            ) && !(1 <= a.tuple_size <= 16),
            Err(AttribError::CardinalityMismatch) => post == pre && location_valid(
                MeshTag::PointCloud,
                loc,
            ) && 1 <= a.tuple_size <= 16 && a.data.len() != pre.card_at(loc) * a.tuple_size,
            Err(_) => false,
        }
    }

    /// The contract of the string attribute add: as `direct_add_ensures`
    /// but for the indirect attribute resolved from `data` and `pool`,
    /// with arity fixed at 1 and in-range indices also required,
    /// checked in the order location, arity, cardinality, indices.
    pub open spec fn str_add_ensures(
        pre: PointCloud,
        post: PointCloud,
        loc: AttribLocation,
        name: Seq<char>,
        tuple_size: nat,
        pool: Seq<Seq<char>>,
        data: Seq<i64>,
        r: Result<(), AttribError>,
    ) -> bool {
        match r {
            Ok(()) => location_valid(MeshTag::PointCloud, loc) && tuple_size == 1 && data.len()
                == pre.card_at(loc) && str_indices_ok(data, pool.len()) && post.vertex_attribs@
                == dict_insert(
                pre.vertex_attribs@,
                (AttrView { name, tuple_size: 1, data: AttrData::Str(resolve_strings(data, pool)) }),
            ) && post.coords == pre.coords,
            Err(AttribError::InvalidLocation) => post == pre && !location_valid(
                MeshTag::PointCloud,
                loc,
            ),
            Err(AttribError::InvalidTupleSize) => post == pre && location_valid(
                MeshTag::PointCloud,
                loc,
            ) && tuple_size != 1,
            Err(AttribError::CardinalityMismatch) => post == pre && location_valid(
                MeshTag::PointCloud,
                loc,
            ) && tuple_size == 1 && data.len() != pre.card_at(loc),
            Err(AttribError::StringIndexOutOfBounds) => post == pre && location_valid(
                MeshTag::PointCloud,
                loc,
            ) && tuple_size == 1 && data.len() == pre.card_at(loc) && !str_indices_ok(
                data,
                pool.len(),
            ),
        }
    }

    /// Number of vertices.
    pub fn num_vertices(&self) -> (r: usize)
        ensures
            r as nat == self.num_verts(),
    {
        self.coords.len() / 3
    }

    /// The vertex positions as a flat coordinate buffer, three 64-bit
    /// float bit patterns per vertex.
    pub fn get_point_coords(&self) -> (r: Vec<u64>)
        ensures
            r@ == self.coords@,
    {
        crate::util::copy_vec(&self.coords)
    }

    /// Opens a cursor over the attributes at `loc`; the cursor is empty
    /// when `loc` is not the vertex location.
    pub fn attrib_iter(&self, loc: AttribLocation) -> (it: AttribIter<'_>)
        ensures
            it.pos == 0,
            it.entries_seq() == if location_valid(MeshTag::PointCloud, loc) {
                self.vertex_attribs.entries@
            } else {
                Seq::<Attribute>::empty()
            },
    {
        match loc {
            AttribLocation::VERTEX => AttribIter::over(&self.vertex_attribs.entries),
            _ => AttribIter::empty(),
        }
    }

    /// Adds a direct attribute of 8-bit integers at `loc`.
    pub fn add_attrib_i8(
        &mut self,
        loc: AttribLocation,
        name: &str,
        tuple_size: usize,
        data: &[i8],
    ) -> (r: Result<(), AttribError>)
        requires
            old(self).wf(),
        ensures
            final(self).wf(),
            PointCloud::direct_add_ensures(
                *old(self),
                *final(self),
                loc,
                (AttrView { name: name@, tuple_size: tuple_size as nat, data: AttrData::I8(data@) }),
                r,
            ),
    {
        match loc {
            AttribLocation::VERTEX => {
                let card = self.coords.len() / 3;
                self.vertex_attribs.add_direct(
                    card,
                    name,
                    tuple_size,
                    AttribValues::I8(slice_to_vec(data)),
                )
            },
            _ => Err(AttribError::InvalidLocation),
        }
    }

    /// Adds a direct attribute of 32-bit integers at `loc`.
    pub fn add_attrib_i32(
        &mut self,
        loc: AttribLocation,
        name: &str,
        tuple_size: usize,
        data: &[i32],
    ) -> (r: Result<(), AttribError>)
        requires
            old(self).wf(),
        ensures
            final(self).wf(),
            PointCloud::direct_add_ensures(
                *old(self),
                *final(self),
                loc,
                (AttrView {
                    name: name@,
                    tuple_size: tuple_size as nat,
                    data: AttrData::I32(data@),
                }),
                r,
            ),
    {
        match loc {
            AttribLocation::VERTEX => {
                let card = self.coords.len() / 3;
                self.vertex_attribs.add_direct(
                    card,
                    name,
                    tuple_size,
                    AttribValues::I32(slice_to_vec(data)),
                )
            },
            _ => Err(AttribError::InvalidLocation),
        }
    }

    /// Adds a direct attribute of 64-bit integers at `loc`.
    pub fn add_attrib_i64(
        &mut self,
        loc: AttribLocation,
        name: &str,
        tuple_size: usize,
        data: &[i64],
    ) -> (r: Result<(), AttribError>)
        requires
            old(self).wf(),
        ensures
            final(self).wf(),
            PointCloud::direct_add_ensures(
                *old(self),
                *final(self),
                loc,
                (AttrView {
                    name: name@,
                    tuple_size: tuple_size as nat,
                    data: AttrData::I64(data@),
                }),
                r,
            ),
    {
        match loc {
            AttribLocation::VERTEX => {
                let card = self.coords.len() / 3;
                self.vertex_attribs.add_direct(
                    card,
                    name,
                    tuple_size,
                    AttribValues::I64(slice_to_vec(data)),
                )
            },
            _ => Err(AttribError::InvalidLocation),
        }
    }

    /// Adds a direct attribute of 32-bit floats at `loc`; the scalars
    /// are handed over as IEEE 754 bit patterns.
    pub fn add_attrib_f32(
        &mut self,
        loc: AttribLocation,
        name: &str,
        tuple_size: usize,
        data: &[u32],
    ) -> (r: Result<(), AttribError>)
        requires
            old(self).wf(),
        ensures
            final(self).wf(),
            PointCloud::direct_add_ensures(
                *old(self),
                *final(self),
                loc,
                (AttrView {
                    name: name@,
                    tuple_size: tuple_size as nat,
                    data: AttrData::F32(data@),
                }),
                r,
            ),
    {
        match loc {
            AttribLocation::VERTEX => {
                let card = self.coords.len() / 3;
                self.vertex_attribs.add_direct(
                    card,
                    name,
                    tuple_size,
                    AttribValues::F32(slice_to_vec(data)),
                )
            },
            _ => Err(AttribError::InvalidLocation),
        }
    }

    /// Adds a direct attribute of 64-bit floats at `loc`; the scalars
    /// are handed over as IEEE 754 bit patterns.
    pub fn add_attrib_f64(
        &mut self,
        loc: AttribLocation,
        name: &str,
        tuple_size: usize,
        data: &[u64],
    ) -> (r: Result<(), AttribError>)
        requires
            old(self).wf(),
        ensures
            final(self).wf(),
            PointCloud::direct_add_ensures(
                *old(self),
                *final(self),
                loc,
                (AttrView {
                    name: name@,
                    tuple_size: tuple_size as nat,
                    data: AttrData::F64(data@),
                }),
                r,
            ),
    {
        match loc {
            AttribLocation::VERTEX => {
                let card = self.coords.len() / 3;
                self.vertex_attribs.add_direct(
                    card,
                    name,
                    tuple_size,
                    AttribValues::F64(slice_to_vec(data)),
                )
            },
            _ => Err(AttribError::InvalidLocation),
        }
    }

    /// Adds an indirect string attribute at `loc`: `data` holds one
    /// pool index per element, a negative index meaning "no value".
    pub fn add_attrib_str(
        &mut self,
        loc: AttribLocation,
        name: &str,
        tuple_size: usize,
        strings: &[&str],
        data: &[i64],
    ) -> (r: Result<(), AttribError>)
        requires
            old(self).wf(),
        ensures
            final(self).wf(),
            PointCloud::str_add_ensures(
                *old(self),
                *final(self),
                loc,
                name@,
                tuple_size as nat,
                pool_view(strings@),
                data@,
                r,
            ),
    {
        match loc {
            AttribLocation::VERTEX => {
                let card = self.coords.len() / 3;
                self.vertex_attribs.add_str(card, name, tuple_size, strings, data)
            },
            _ => Err(AttribError::InvalidLocation),
        }
    }
}

/// Builds a point cloud from a flat coordinate buffer, three 64-bit
/// float bit patterns per vertex; rejects a buffer whose length is not
/// a multiple of 3, leaving no mesh behind.
pub fn make_pointcloud(coords: &[u64]) -> (r: Result<PointCloud, MeshError>)
    ensures
        match r {
            Ok(m) => coords@.len() % 3 == 0 && m.coords@ == coords@ && m.vertex_attribs@
                == Seq::<AttrView>::empty() && m.wf(),
            Err(MeshError::CoordsNotTriples) => coords@.len() % 3 != 0,
            Err(_) => false,
        },
{
    if coords.len() % 3 != 0 {
        return Err(MeshError::CoordsNotTriples);
    }
    Ok(PointCloud { coords: slice_to_vec(coords), vertex_attribs: AttribDict::new() })
}

} // verus!

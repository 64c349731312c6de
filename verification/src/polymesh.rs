//! The polygon mesh: vertex positions, run-length-encoded polygon
//! connectivity (`n, i_1, ..., i_n` per face), and one attribute
//! dictionary each for the vertex, face and face-vertex locations.

use vstd::prelude::*;

use crate::attrib::AttrData;
use crate::attrib::AttrView;
use crate::attrib::AttribValues;
use crate::attrib::Attribute;
use crate::dict::AttribDict;
use crate::dict::dict_insert;
use crate::dict::dict_wf;
use crate::dict::pool_view;
use crate::dict::resolve_strings;
use crate::dict::str_indices_ok;
use crate::error::AttribError;
use crate::error::MeshError;
use crate::iter::AttribIter;
use crate::location::AttribLocation;
use crate::location::MeshTag;
use crate::location::location_valid;
use crate::util::slice_to_vec;

verus! {

/// Whether `s` is a well-formed sequence of length-prefixed index runs:
/// either empty, or a count `n` followed by `n` indices and another
/// well-formed sequence of runs.
pub open spec fn runs_wf(s: Seq<usize>) -> bool
    decreases s.len(),
{
    if s.len() == 0 {
        true
    } else {
        s[0] + 1 <= s.len() && runs_wf(s.subrange(s[0] as int + 1, s.len() as int))
    }
}

/// The number of runs in `s` (each malformed tail counts as one run, so
/// the function is total; it is meaningful when `runs_wf(s)` holds).
pub open spec fn run_count(s: Seq<usize>) -> nat
    decreases s.len(),
{
    if s.len() == 0 {
        0
    } else if s[0] + 1 <= s.len() {
        1 + run_count(s.subrange(s[0] as int + 1, s.len() as int))
    } else {
        1
    }
}

/// Validates a run-length-encoded polygon index buffer and counts its
/// runs; yields the face count and the total number of face vertices,
/// or nothing when the buffer is malformed.
#[verifier::loop_isolation(false)]
fn scan_runs(indices: &[usize]) -> (r: Option<(usize, usize)>)
    ensures
        match r {
            Some(counts) => runs_wf(indices@) && counts.0 as nat == run_count(indices@)
                && counts.1 == indices@.len() - counts.0,
            None => !runs_wf(indices@),
        },
{
    let n = indices.len();
    proof {
        assert(indices@.subrange(0, n as int) =~= indices@);
    }
    let mut p: usize = 0;
    let mut faces: usize = 0;
    while p < n
        invariant
            p <= n,
            faces <= p,
            runs_wf(indices@) <==> runs_wf(indices@.subrange(p as int, n as int)),
            runs_wf(indices@) ==> run_count(indices@) == faces + run_count(
                indices@.subrange(p as int, n as int),
            ),
        decreases n - p,
    {
        let ghost t = indices@.subrange(p as int, n as int);
        let k = indices[p];
        if k >= n - p {
            proof {
                assert(t.len() > 0 && t[0] == k);
                assert(!runs_wf(t));
            }
            return None;
        }
        proof {
            assert(t.len() > 0 && t[0] == k && k + 1 <= t.len());
            assert(t.subrange(k as int + 1, t.len() as int) =~= indices@.subrange(
                p + k + 1,
                n as int,
            ));
        }
        p = p + 1 + k;
        faces = faces + 1;
    }
    proof {
        assert(indices@.subrange(n as int, n as int) =~= Seq::<usize>::empty());
    }
    Some((faces, n - faces))
}

/// A polygon mesh with per-location attribute dictionaries.
#[derive(Debug)]
pub struct PolyMesh {
    pub coords: Vec<u64>,
    pub indices: Vec<usize>,
    pub num_faces: usize,
    pub num_face_verts: usize,
    pub vertex_attribs: AttribDict,
    pub face_attribs: AttribDict,
    pub face_vertex_attribs: AttribDict,
}

impl PolyMesh {
    /// Number of vertices (three coordinate bit patterns per vertex).
    pub open spec fn num_verts(self) -> nat {
        self.coords@.len() / 3
    }

    /// The element count of a location of this mesh.
    pub open spec fn card_at(self, loc: AttribLocation) -> nat {
        match loc {
            AttribLocation::VERTEX => self.num_verts(),
            AttribLocation::FACE => self.num_faces as nat,
            AttribLocation::FACEVERTEX => self.num_face_verts as nat,
            _ => 0,
        }
    }

    /// The dictionary owned by a location of this mesh.
    pub open spec fn dict_at(self, loc: AttribLocation) -> AttribDict {
        match loc {
            AttribLocation::FACE => self.face_attribs,
            AttribLocation::FACEVERTEX => self.face_vertex_attribs,
            _ => self.vertex_attribs,
        }
    }

    /// Structural well-formedness: coordinates come in triples, the
    /// index buffer is a well-formed run sequence, the cached counts
    /// agree with it, and every dictionary is well-formed for its
    /// location's cardinality.
    pub open spec fn wf(self) -> bool {
        &&& self.coords@.len() % 3 == 0
        &&& runs_wf(self.indices@)
        &&& self.num_faces as nat == run_count(self.indices@)
        &&& self.num_face_verts as int == self.indices@.len() - self.num_faces as int
        &&& dict_wf(self.vertex_attribs@, self.num_verts())
        &&& dict_wf(self.face_attribs@, self.num_faces as nat)
        &&& dict_wf(self.face_vertex_attribs@, self.num_face_verts as nat)
    }

    /// Everything but the dictionary at `loc` is unchanged.
    pub open spec fn only_dict_changed(pre: PolyMesh, post: PolyMesh, loc: AttribLocation) -> bool {
        &&& post.coords == pre.coords
        &&& post.indices == pre.indices
        &&& post.num_faces == pre.num_faces
        &&& post.num_face_verts == pre.num_face_verts
        &&& (loc is VERTEX || post.vertex_attribs == pre.vertex_attribs)
        &&& (loc is FACE || post.face_attribs == pre.face_attribs)
        &&& (loc is FACEVERTEX || post.face_vertex_attribs == pre.face_vertex_attribs)
    }

    /// The contract of every direct (numeric) attribute add: on success
    /// the attribute `a` is inserted into the dictionary at `loc` and
    /// nothing else changes; each rejection is a no-op and is reported
    /// if and only if its condition holds, checked in the order
    /// location, arity, cardinality.
    pub open spec fn direct_add_ensures(
        pre: PolyMesh,
        post: PolyMesh,
        loc: AttribLocation,
        a: AttrView,
        r: Result<(), AttribError>,
    ) -> bool {
        match r {
            Ok(()) => location_valid(MeshTag::PolyMesh, loc) && 1 <= a.tuple_size <= 16
                && a.data.len() == pre.card_at(loc) * a.tuple_size && post.dict_at(loc)@
                == dict_insert(pre.dict_at(loc)@, a) && PolyMesh::only_dict_changed(
                pre,
                post,
                loc,
            ),
            Err(AttribError::InvalidLocation) => post == pre && !location_valid(
                MeshTag::PolyMesh,
                loc,
            ),
            Err(AttribError::InvalidTupleSize) => post == pre && location_valid(
                MeshTag::PolyMesh,
                loc,
            ) && !(1 <= a.tuple_size <= 16),
            Err(AttribError::CardinalityMismatch) => post == pre && location_valid(
                MeshTag::PolyMesh,
                loc,
            ) && 1 <= a.tuple_size <= 16 && a.data.len() != pre.card_at(loc) * a.tuple_size,
            Err(_) => false,
        }
    }

    /// The contract of the string attribute add: as `direct_add_ensures`
    /// but for the indirect attribute resolved from `data` and `pool`,
    /// with arity fixed at 1 and in-range indices also required,
    /// checked in the order location, arity, cardinality, indices.
    pub open spec fn str_add_ensures(
        pre: PolyMesh,
        post: PolyMesh,
        loc: AttribLocation,
        name: Seq<char>,
        tuple_size: nat,
        pool: Seq<Seq<char>>,
        data: Seq<i64>,
        r: Result<(), AttribError>,
    ) -> bool {
        match r {
            Ok(()) => location_valid(MeshTag::PolyMesh, loc) && tuple_size == 1 && data.len()
                == pre.card_at(loc) && str_indices_ok(data, pool.len()) && post.dict_at(loc)@
                == dict_insert(
                pre.dict_at(loc)@,
                (AttrView { name, tuple_size: 1, data: AttrData::Str(resolve_strings(data, pool)) }),
            ) && PolyMesh::only_dict_changed(pre, post, loc),
            Err(AttribError::InvalidLocation) => post == pre && !location_valid(
                MeshTag::PolyMesh,
                loc,
            ),
            Err(AttribError::InvalidTupleSize) => post == pre && location_valid(
                MeshTag::PolyMesh,
                loc,
            ) && tuple_size != 1,
            Err(AttribError::CardinalityMismatch) => post == pre && location_valid(
                MeshTag::PolyMesh,
                loc,
            ) && tuple_size == 1 && data.len() != pre.card_at(loc),
            Err(AttribError::StringIndexOutOfBounds) => post == pre && location_valid(
                MeshTag::PolyMesh,
                loc,
            ) && tuple_size == 1 && data.len() == pre.card_at(loc) && !str_indices_ok(
                data,
                pool.len(),
            ),
        }
    }

    /// Number of vertices.
    pub fn num_vertices(&self) -> (r: usize)
        ensures
            r as nat == self.num_verts(),
    {
        self.coords.len() / 3
    }

    /// Number of faces.
    pub fn face_count(&self) -> (r: usize)
        ensures
            r == self.num_faces,
    {
        self.num_faces
    }

    /// Number of face-vertex slots over all faces.
    pub fn face_vertex_count(&self) -> (r: usize)
        ensures
            r == self.num_face_verts,
    {
        self.num_face_verts
    }

    /// The vertex positions as a flat coordinate buffer, three 64-bit
    /// float bit patterns per vertex.
    pub fn get_point_coords(&self) -> (r: Vec<u64>)
        ensures
            r@ == self.coords@,
    {
        crate::util::copy_vec(&self.coords)
    }

    /// The polygon connectivity as a contiguous run-length buffer: each
    /// face contributes `n, i_1, ..., i_n` where `n` is its side count.
    pub fn get_indices(&self) -> (r: Vec<usize>)
        ensures
            r@ == self.indices@,
    {
        crate::util::copy_vec(&self.indices)
    }

    /// Opens a cursor over the attributes at `loc`; the cursor is empty
    /// when `loc` is not valid for a polygon mesh.
    pub fn attrib_iter(&self, loc: AttribLocation) -> (it: AttribIter<'_>)
        ensures
            it.pos == 0,
            it.entries_seq() == if location_valid(MeshTag::PolyMesh, loc) {
                self.dict_at(loc).entries@
            } else {
                Seq::<Attribute>::empty()
            },
    {
        match loc {
            AttribLocation::VERTEX => AttribIter::over(&self.vertex_attribs.entries),
            AttribLocation::FACE => AttribIter::over(&self.face_attribs.entries),
            AttribLocation::FACEVERTEX => AttribIter::over(&self.face_vertex_attribs.entries),
            _ => AttribIter::empty(),
        }
    }

    /// Adds a direct attribute of 8-bit integers at `loc`.
    pub fn add_attrib_i8(
        &mut self,
        loc: AttribLocation,
        name: &str,
        tuple_size: usize,
        data: &[i8],
    ) -> (r: Result<(), AttribError>)
        requires
            old(self).wf(),
        ensures
            final(self).wf(),
            PolyMesh::direct_add_ensures(
                *old(self),
                *final(self),
                loc,
                (AttrView { name: name@, tuple_size: tuple_size as nat, data: AttrData::I8(data@) }),
                r,
            ),
    {
        match loc {
            AttribLocation::VERTEX => {
                let card = self.coords.len() / 3;
                self.vertex_attribs.add_direct(
                    card,
                    name,
                    tuple_size,
                    AttribValues::I8(slice_to_vec(data)),
                )
            },
            AttribLocation::FACE => {
                let card = self.num_faces;
                self.face_attribs.add_direct(
                    card,
                    name,
                    tuple_size,
                    AttribValues::I8(slice_to_vec(data)),
                )
            },
            AttribLocation::FACEVERTEX => {
                let card = self.num_face_verts;
                self.face_vertex_attribs.add_direct(
                    card,
                    name,
                    tuple_size,
                    AttribValues::I8(slice_to_vec(data)),
                )
            },
            _ => Err(AttribError::InvalidLocation),
        }
    }

    /// Adds a direct attribute of 32-bit integers at `loc`.
    pub fn add_attrib_i32(
        &mut self,
        loc: AttribLocation,
        name: &str,
        tuple_size: usize,
        data: &[i32],
    ) -> (r: Result<(), AttribError>)
        requires
            old(self).wf(),
        ensures
            final(self).wf(),
            PolyMesh::direct_add_ensures(
                *old(self),
                *final(self),
                loc,
                (AttrView {
                    name: name@,
                    tuple_size: tuple_size as nat,
                    data: AttrData::I32(data@),
                }),
                r,
            ),
    {
        match loc {
            AttribLocation::VERTEX => {
                let card = self.coords.len() / 3;
                self.vertex_attribs.add_direct(
                    card,
                    name,
                    tuple_size,
                    AttribValues::I32(slice_to_vec(data)),
                )
            },
            AttribLocation::FACE => {
                let card = self.num_faces;
                self.face_attribs.add_direct(
                    card,
                    name,
                    tuple_size,
                    AttribValues::I32(slice_to_vec(data)),
                )
            },
            AttribLocation::FACEVERTEX => {
                let card = self.num_face_verts;
                self.face_vertex_attribs.add_direct(
                    card,
                    name,
                    tuple_size,
                    AttribValues::I32(slice_to_vec(data)),
                )
            },
            _ => Err(AttribError::InvalidLocation),
        }
    }

    /// Adds a direct attribute of 64-bit integers at `loc`.
    pub fn add_attrib_i64(
        &mut self,
        loc: AttribLocation,
        name: &str,
        tuple_size: usize,
        data: &[i64],
    ) -> (r: Result<(), AttribError>)
        requires
            old(self).wf(),
        ensures
            final(self).wf(),
            PolyMesh::direct_add_ensures(
                *old(self),
                *final(self),
                loc,
                (AttrView {
                    name: name@,
                    tuple_size: tuple_size as nat,
                    data: AttrData::I64(data@),
                }),
                r,
            ),
    {
        match loc {
            AttribLocation::VERTEX => {
                let card = self.coords.len() / 3;
                self.vertex_attribs.add_direct(
                    card,
                    name,
                    tuple_size,
                    AttribValues::I64(slice_to_vec(data)),
                )
            },
            AttribLocation::FACE => {
                let card = self.num_faces;
                self.face_attribs.add_direct(
                    card,
                    name,
                    tuple_size,
                    AttribValues::I64(slice_to_vec(data)),
                )
            },
            AttribLocation::FACEVERTEX => {
                let card = self.num_face_verts;
                self.face_vertex_attribs.add_direct(
                    card,
                    name,
                    tuple_size,
                    AttribValues::I64(slice_to_vec(data)),
                )
            },
            _ => Err(AttribError::InvalidLocation),
        }
    }

    /// Adds a direct attribute of 32-bit floats at `loc`; the scalars
    /// are handed over as IEEE 754 bit patterns.
    pub fn add_attrib_f32(
        &mut self,
        loc: AttribLocation,
        name: &str,
        tuple_size: usize,
        data: &[u32],
    ) -> (r: Result<(), AttribError>)
        requires
            old(self).wf(),
        ensures
            final(self).wf(),
            PolyMesh::direct_add_ensures(
                *old(self),
                *final(self),
                loc,
                (AttrView {
                    name: name@,
                    tuple_size: tuple_size as nat,
                    data: AttrData::F32(data@),
                }),
                r,
            ),
    {
        match loc {
            AttribLocation::VERTEX => {
                let card = self.coords.len() / 3;
                self.vertex_attribs.add_direct(
                    card,
                    name,
                    tuple_size,
                    AttribValues::F32(slice_to_vec(data)),
                )
            },
            AttribLocation::FACE => {
                let card = self.num_faces;
                self.face_attribs.add_direct(
                    card,
                    name,
                    tuple_size,
                    AttribValues::F32(slice_to_vec(data)),
                )
            },
            AttribLocation::FACEVERTEX => {
                let card = self.num_face_verts;
                self.face_vertex_attribs.add_direct(
                    card,
                    name,
                    tuple_size,
                    AttribValues::F32(slice_to_vec(data)),
                )
            },
            _ => Err(AttribError::InvalidLocation),
        }
    }

    /// Adds a direct attribute of 64-bit floats at `loc`; the scalars
    /// are handed over as IEEE 754 bit patterns.
    pub fn add_attrib_f64(
        &mut self,
        loc: AttribLocation,
        name: &str,
        tuple_size: usize,
        data: &[u64],
    ) -> (r: Result<(), AttribError>)
        requires
            old(self).wf(),
        ensures
            final(self).wf(),
            PolyMesh::direct_add_ensures(
                *old(self),
                *final(self),
                loc,
                (AttrView {
                    name: name@,
                    tuple_size: tuple_size as nat,
                    data: AttrData::F64(data@),
                }),
                r,
            ),
    {
        match loc {
            AttribLocation::VERTEX => {
                let card = self.coords.len() / 3;
                self.vertex_attribs.add_direct(
                    card,
                    name,
                    tuple_size,
                    AttribValues::F64(slice_to_vec(data)),
                )
            },
            AttribLocation::FACE => {
                let card = self.num_faces;
                self.face_attribs.add_direct(
                    card,
                    name,
                    tuple_size,
                    AttribValues::F64(slice_to_vec(data)),
                )
            },
            AttribLocation::FACEVERTEX => {
                let card = self.num_face_verts;
                self.face_vertex_attribs.add_direct(
                    card,
                    name,
                    tuple_size,
                    AttribValues::F64(slice_to_vec(data)),
                )
            },
            _ => Err(AttribError::InvalidLocation),
        }
    }

    /// Adds an indirect string attribute at `loc`: `data` holds one
    /// pool index per element, a negative index meaning "no value".
    pub fn add_attrib_str(
        &mut self,
        loc: AttribLocation,
        name: &str,
        tuple_size: usize,
        strings: &[&str],
        data: &[i64],
    ) -> (r: Result<(), AttribError>)
        requires
            old(self).wf(),
        ensures
            final(self).wf(),
            PolyMesh::str_add_ensures(
                *old(self),
                *final(self),
                loc,
                name@,
                tuple_size as nat,
                pool_view(strings@),
                data@,
                r,
            ),
    {
        match loc {
            AttribLocation::VERTEX => {
                let card = self.coords.len() / 3;
                self.vertex_attribs.add_str(card, name, tuple_size, strings, data)
            },
            AttribLocation::FACE => {
                let card = self.num_faces;
                self.face_attribs.add_str(card, name, tuple_size, strings, data)
            },
            AttribLocation::FACEVERTEX => {
                let card = self.num_face_verts;
                self.face_vertex_attribs.add_str(card, name, tuple_size, strings, data)
            },
            _ => Err(AttribError::InvalidLocation),
        }
    }
}

/// Builds a polygon mesh from a flat coordinate buffer (three 64-bit
/// float bit patterns per vertex) and a run-length-encoded polygon
/// index buffer; rejects buffers whose shape is malformed, leaving no
/// mesh behind.
pub fn make_polymesh(coords: &[u64], indices: &[usize]) -> (r: Result<PolyMesh, MeshError>)
    ensures
        match r {
            Ok(m) => coords@.len() % 3 == 0 && runs_wf(indices@) && m.coords@ == coords@
                && m.indices@ == indices@ && m.num_faces as nat == run_count(indices@)
                && m.num_face_verts as int == indices@.len() - run_count(indices@)
                && m.vertex_attribs@ == Seq::<AttrView>::empty() && m.face_attribs@
                == Seq::<AttrView>::empty() && m.face_vertex_attribs@ == Seq::<AttrView>::empty()
                && m.wf(),
            Err(MeshError::CoordsNotTriples) => coords@.len() % 3 != 0,
            Err(MeshError::MalformedPolygonRuns) => coords@.len() % 3 == 0 && !runs_wf(indices@),
            Err(_) => false,
        },
{
    if coords.len() % 3 != 0 {
        return Err(MeshError::CoordsNotTriples);
    }
    match scan_runs(indices) {
        Some(counts) => {
            let m = PolyMesh {
                coords: slice_to_vec(coords),
                indices: slice_to_vec(indices),
                num_faces: counts.0,
                num_face_verts: counts.1,
                vertex_attribs: AttribDict::new(),
                face_attribs: AttribDict::new(),
                face_vertex_attribs: AttribDict::new(),
            };
            Ok(m)
        },
        None => Err(MeshError::MalformedPolygonRuns),
    }
}

} // verus!

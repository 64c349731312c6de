//! Structured diagnostics for rejected operations.  Validation failures
//! are local and non-fatal: the rejected operation is a no-op and the
//! caller's other data is unaffected.

use vstd::prelude::*;

verus! {

/// Why an attribute-add operation was rejected.
#[derive(Clone, Copy, PartialEq, Eq, Structural, Debug)]
pub enum AttribError {
    /// The requested location is not valid for the mesh kind.
    InvalidLocation,
    /// The tuple arity is outside `[1, 16]` (or is not 1 for strings).
    InvalidTupleSize,
    /// The flat buffer does not hold exactly one entry group per element
    /// of the location.
    CardinalityMismatch,
    /// A non-negative string index points outside the string pool.
    StringIndexOutOfBounds,
}

/// Why a mesh could not be constructed from raw buffers.
#[derive(Clone, Copy, PartialEq, Eq, Structural, Debug)]
pub enum MeshError {
    /// The coordinate buffer length is not a multiple of 3.
    CoordsNotTriples,
    /// The polygon index buffer is not a well-formed sequence of
    /// length-prefixed runs.
    MalformedPolygonRuns,
    /// The cell index buffer length is not a multiple of 4.
    CellsNotQuadruples,
}

/// Top-level error type of the library.
#[derive(Clone, Copy, PartialEq, Eq, Structural, Debug)]
pub enum Error {
    /// An attribute operation was rejected.
    Attrib(AttribError),
    /// A cursor was advanced past its last attribute.
    AttribNotFound,
}

impl From<AttribError> for Error {
    fn from(a: AttribError) -> (r: Error) {
        Error::Attrib(a)
    }
}

impl vstd::std_specs::convert::FromSpecImpl<AttribError> for Error {
    open spec fn obeys_from_spec() -> bool {
        true
    }

    open spec fn from_spec(a: AttribError) -> Error {
        Error::Attrib(a)
    }
}

} // verus!

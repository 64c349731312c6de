//! Flat, caller-facing array shapes: a contiguous scalar buffer together
//! with the tuple arity it was flattened with.

use vstd::prelude::*;

verus! {

/// A flat buffer of scalars of some element type, `tuple_size` scalars
/// per logical element.
pub struct TupleVec<T> {
    pub vec: Vec<T>,
    pub tuple_size: usize,
}

/// Flat buffer of 8-bit signed integers.
#[derive(Debug)]
pub struct TupleVecI8 {
    pub vec: Vec<i8>,
    pub tuple_size: usize,
}

/// Flat buffer of 32-bit signed integers.
#[derive(Debug)]
pub struct TupleVecI32 {
    pub vec: Vec<i32>,
    pub tuple_size: usize,
}

/// Flat buffer of 64-bit signed integers.
#[derive(Debug)]
pub struct TupleVecI64 {
    pub vec: Vec<i64>,
    pub tuple_size: usize,
}

/// Flat buffer of 32-bit floats, carried as IEEE 754 bit patterns.
#[derive(Debug)]
pub struct TupleVecF32Bits {
    pub vec: Vec<u32>,
    pub tuple_size: usize,
}

/// Flat buffer of 64-bit floats, carried as IEEE 754 bit patterns.
#[derive(Debug)]
pub struct TupleVecF64Bits {
    pub vec: Vec<u64>,
    pub tuple_size: usize,
}

/// Flat buffer of per-element optional strings.  A `None` entry means the
/// element has no value, which is distinct from holding an empty string.
#[derive(Debug)]
pub struct TupleVecStr {
    pub vec: Vec<Option<String>>,
    pub tuple_size: usize,
}

impl TupleVecStr {
    /// Number of elements in the buffer.
    pub fn len(&self) -> (r: usize)
        ensures
            r == self.vec@.len(),
    {
        self.vec.len()
    }

    /// The tuple arity the buffer was flattened with.
    pub fn tuple_size(&self) -> (r: usize)
        ensures
            r == self.tuple_size,
    {
        self.tuple_size
    }

    /// The string content at element `i`; an element without a value reads
    /// as the empty string.
    pub fn at(&self, i: usize) -> (r: &str)
        requires
            i < self.vec@.len(),
        ensures
            r@ == match self.vec@[i as int] {
                Some(s) => s@,
                None => Seq::<char>::empty(),
            },
    {
        match &self.vec[i] {
            Some(s) => s.as_str(),
            None => {
                proof {
                    reveal_strlit("");
                }
                ""
            },
        }
    }
}

impl From<TupleVec<i8>> for TupleVecI8 {
    fn from(t: TupleVec<i8>) -> (r: TupleVecI8) {
        TupleVecI8 { vec: t.vec, tuple_size: t.tuple_size }
    }
}

impl vstd::std_specs::convert::FromSpecImpl<TupleVec<i8>> for TupleVecI8 {
    open spec fn obeys_from_spec() -> bool {
        true
    }

    open spec fn from_spec(t: TupleVec<i8>) -> TupleVecI8 {
        (TupleVecI8 { vec: t.vec, tuple_size: t.tuple_size })
    }
}

impl From<TupleVec<i32>> for TupleVecI32 {
    fn from(t: TupleVec<i32>) -> (r: TupleVecI32) {
        TupleVecI32 { vec: t.vec, tuple_size: t.tuple_size }
    }
}

impl vstd::std_specs::convert::FromSpecImpl<TupleVec<i32>> for TupleVecI32 {
    open spec fn obeys_from_spec() -> bool {
        true
    }

    open spec fn from_spec(t: TupleVec<i32>) -> TupleVecI32 {
        (TupleVecI32 { vec: t.vec, tuple_size: t.tuple_size })
    }
}

impl From<TupleVec<i64>> for TupleVecI64 {
    fn from(t: TupleVec<i64>) -> (r: TupleVecI64) {
        TupleVecI64 { vec: t.vec, tuple_size: t.tuple_size }
    }
}

impl vstd::std_specs::convert::FromSpecImpl<TupleVec<i64>> for TupleVecI64 {
    open spec fn obeys_from_spec() -> bool {
        true
    }

    open spec fn from_spec(t: TupleVec<i64>) -> TupleVecI64 {
        (TupleVecI64 { vec: t.vec, tuple_size: t.tuple_size })
    }
}

impl From<TupleVec<u32>> for TupleVecF32Bits {
    fn from(t: TupleVec<u32>) -> (r: TupleVecF32Bits) {
        TupleVecF32Bits { vec: t.vec, tuple_size: t.tuple_size }
    }
}

impl vstd::std_specs::convert::FromSpecImpl<TupleVec<u32>> for TupleVecF32Bits {
    open spec fn obeys_from_spec() -> bool {
        true
    }

    open spec fn from_spec(t: TupleVec<u32>) -> TupleVecF32Bits {
        (TupleVecF32Bits { vec: t.vec, tuple_size: t.tuple_size })
    }
}

impl From<TupleVec<u64>> for TupleVecF64Bits {
    fn from(t: TupleVec<u64>) -> (r: TupleVecF64Bits) {
        TupleVecF64Bits { vec: t.vec, tuple_size: t.tuple_size }
    }
}

impl vstd::std_specs::convert::FromSpecImpl<TupleVec<u64>> for TupleVecF64Bits {
    open spec fn obeys_from_spec() -> bool {
        true
    }

    open spec fn from_spec(t: TupleVec<u64>) -> TupleVecF64Bits {
        (TupleVecF64Bits { vec: t.vec, tuple_size: t.tuple_size })
    }
}

impl From<TupleVec<Option<String>>> for TupleVecStr {
    fn from(t: TupleVec<Option<String>>) -> (r: TupleVecStr) {
        TupleVecStr { vec: t.vec, tuple_size: t.tuple_size }
    }
}

impl vstd::std_specs::convert::FromSpecImpl<TupleVec<Option<String>>> for TupleVecStr {
    open spec fn obeys_from_spec() -> bool {
        true
    }

    open spec fn from_spec(t: TupleVec<Option<String>>) -> TupleVecStr {
        (TupleVecStr { vec: t.vec, tuple_size: t.tuple_size })
    }
}

} // verus!

//! The type-erased attribute: a named value store holding either a dense
//! buffer of fixed-arity scalar tuples (direct storage) or per-element
//! optional strings (indirect storage), together with the flattening
//! entry points that hand its contents out as flat arrays.

use vstd::prelude::*;

use crate::tuple_vec::TupleVecF32Bits;
use crate::tuple_vec::TupleVecF64Bits;
use crate::tuple_vec::TupleVecI32;
use crate::tuple_vec::TupleVecI64;
use crate::tuple_vec::TupleVecI8;
use crate::tuple_vec::TupleVecStr;
use crate::util::copy_str_values;
use crate::util::copy_vec;

verus! {

/// The element type tag a caller probes before choosing a flatten entry
/// point.
#[derive(Clone, Copy, PartialEq, Eq, Structural, Debug)]
pub enum DataType {
    I8,
    I32,
    I64,
    F32,
    F64,
    STR,
    UNSUPPORTED,
}

/// Mathematical model of an attribute's stored values: one sequence per
/// supported element type.  Float kinds are modelled by their bit patterns.
pub enum AttrData {
    I8(Seq<i8>),
    I32(Seq<i32>),
    I64(Seq<i64>),
    F32(Seq<u32>),
    F64(Seq<u64>),
    Str(Seq<Option<Seq<char>>>),
}

impl AttrData {
    /// The number of scalars (or string slots) held.
    pub open spec fn len(self) -> nat {
        match self {
            AttrData::I8(v) => v.len(),
            AttrData::I32(v) => v.len(),
            AttrData::I64(v) => v.len(),
            AttrData::F32(v) => v.len(),
            AttrData::F64(v) => v.len(),
            AttrData::Str(v) => v.len(),
        }
    }

    /// Whether the attribute uses indirect (string) storage.
    pub open spec fn is_string(self) -> bool {
        self is Str
    }

    /// The element type tag for this storage.
    pub open spec fn data_type(self) -> DataType {
        match self {
            AttrData::I8(_) => DataType::I8,
            AttrData::I32(_) => DataType::I32,
            AttrData::I64(_) => DataType::I64,
            AttrData::F32(_) => DataType::F32,
            AttrData::F64(_) => DataType::F64,
            AttrData::Str(_) => DataType::STR,
        }
    }
}

/// Mathematical model of a whole attribute.
pub struct AttrView {
    pub name: Seq<char>,
    pub tuple_size: nat,
    pub data: AttrData,
}

impl AttrView {
    /// Well-formedness at a location with `card` elements: a string
    /// attribute holds exactly one optional string per element and has
    /// arity 1; a direct attribute has arity in `[1, 16]` and holds
    /// `card * tuple_size` scalars.
    pub open spec fn wf_for(self, card: nat) -> bool {
        if self.data.is_string() {
            self.tuple_size == 1 && self.data.len() == card
        } else {
            1 <= self.tuple_size <= 16 && self.data.len() == card * self.tuple_size
        }
    }
}

/// What the 8-bit-integer flatten entry point yields for an attribute:
/// the stored scalars and arity when the element type matches, and an
/// empty buffer with arity 0 otherwise.
pub open spec fn flatten_i8(a: AttrView) -> (Seq<i8>, nat) {
    match a.data {
        AttrData::I8(v) => (v, a.tuple_size),
        _ => (Seq::empty(), 0),
    }
}

/// See `flatten_i8`; the 32-bit-integer entry point.
pub open spec fn flatten_i32(a: AttrView) -> (Seq<i32>, nat) {
    match a.data {
        AttrData::I32(v) => (v, a.tuple_size),
        _ => (Seq::empty(), 0),
    }
}

/// See `flatten_i8`; the 64-bit-integer entry point.
pub open spec fn flatten_i64(a: AttrView) -> (Seq<i64>, nat) {
    match a.data {
        AttrData::I64(v) => (v, a.tuple_size),
        _ => (Seq::empty(), 0),
    }
}

/// See `flatten_i8`; the 32-bit-float entry point (bit patterns).
pub open spec fn flatten_f32(a: AttrView) -> (Seq<u32>, nat) {
    match a.data {
        AttrData::F32(v) => (v, a.tuple_size),
        _ => (Seq::empty(), 0),
    }
}

/// See `flatten_i8`; the 64-bit-float entry point (bit patterns).
pub open spec fn flatten_f64(a: AttrView) -> (Seq<u64>, nat) {
    match a.data {
        AttrData::F64(v) => (v, a.tuple_size),
        _ => (Seq::empty(), 0),
    }
}

/// See `flatten_i8`; the string entry point yields the indirect value
/// list, one optional string per element.
pub open spec fn flatten_str(a: AttrView) -> (Seq<Option<Seq<char>>>, nat) {
    match a.data {
        AttrData::Str(v) => (v, a.tuple_size),
        _ => (Seq::empty(), 0),
    }
}

/// Runtime value storage of one attribute.
#[derive(Debug)]
pub enum AttribValues {
    I8(Vec<i8>),
    I32(Vec<i32>),
    I64(Vec<i64>),
    F32(Vec<u32>),
    F64(Vec<u64>),
    Str(Vec<Option<String>>),
}

impl View for AttribValues {
    type V = AttrData;

    open spec fn view(&self) -> AttrData {
        match self {
            AttribValues::I8(v) => AttrData::I8(v@),
            AttribValues::I32(v) => AttrData::I32(v@),
            AttribValues::I64(v) => AttrData::I64(v@),
            AttribValues::F32(v) => AttrData::F32(v@),
            AttribValues::F64(v) => AttrData::F64(v@),
            AttribValues::Str(v) => AttrData::Str(v.deep_view()),
        }
    }
}

impl AttribValues {
    /// The number of scalars (or string slots) held.
    pub fn scalar_len(&self) -> (r: usize)
        ensures
            r as nat == self@.len(),
    {
        match self {
            AttribValues::I8(v) => v.len(),
            AttribValues::I32(v) => v.len(),
            AttribValues::I64(v) => v.len(),
            AttribValues::F32(v) => v.len(),
            AttribValues::F64(v) => v.len(),
            AttribValues::Str(v) => v.len(),
        }
    }
}

/// A single named, type-erased attribute.
#[derive(Debug)]
pub struct Attribute {
    pub name: String,
    pub tuple_size: usize,
    pub values: AttribValues,
}

impl View for Attribute {
    type V = AttrView;

    open spec fn view(&self) -> AttrView {
        AttrView { name: self.name@, tuple_size: self.tuple_size as nat, data: self.values@ }
    }
}

impl Attribute {
    /// The attribute's name.
    pub fn name(&self) -> (r: &str)
        ensures
            r@ == self@.name,
    {
        self.name.as_str()
    }

    /// The arity the attribute stores its values with.
    pub fn tuple_size(&self) -> (r: usize)
        ensures
            r as nat == self@.tuple_size,
    {
        self.tuple_size
    }

    /// Probes the attribute's element type.
    pub fn data_type(&self) -> (r: DataType)
        ensures
            r == self@.data.data_type(),
    {
        match &self.values {
            AttribValues::I8(_) => DataType::I8,
            AttribValues::I32(_) => DataType::I32,
            AttribValues::I64(_) => DataType::I64,
            AttribValues::F32(_) => DataType::F32,
            AttribValues::F64(_) => DataType::F64,
            AttribValues::Str(_) => DataType::STR,
        }
    }

    /// Flattens the attribute as 8-bit integers; an attribute of any
    /// other element type yields an empty buffer with arity 0.
    pub fn get_data_i8(&self) -> (r: TupleVecI8)
        ensures
            (r.vec@, r.tuple_size as nat) == flatten_i8(self@),
    {
        match &self.values {
            AttribValues::I8(v) => TupleVecI8 { vec: copy_vec(v), tuple_size: self.tuple_size },
            _ => TupleVecI8 { vec: Vec::new(), tuple_size: 0 },
        }
    }

    /// Flattens the attribute as 32-bit integers; see `get_data_i8`.
    pub fn get_data_i32(&self) -> (r: TupleVecI32)
        ensures
            (r.vec@, r.tuple_size as nat) == flatten_i32(self@),
    {
        match &self.values {
            AttribValues::I32(v) => TupleVecI32 { vec: copy_vec(v), tuple_size: self.tuple_size },
            _ => TupleVecI32 { vec: Vec::new(), tuple_size: 0 },
        }
    }

    /// Flattens the attribute as 64-bit integers; see `get_data_i8`.
    pub fn get_data_i64(&self) -> (r: TupleVecI64)
        ensures
            (r.vec@, r.tuple_size as nat) == flatten_i64(self@),
    {
        match &self.values {
            AttribValues::I64(v) => TupleVecI64 { vec: copy_vec(v), tuple_size: self.tuple_size },
            _ => TupleVecI64 { vec: Vec::new(), tuple_size: 0 },
        }
    }

    /// Flattens the attribute as 32-bit-float bit patterns; see
    /// `get_data_i8`.
    pub fn get_data_f32(&self) -> (r: TupleVecF32Bits)
        ensures
            (r.vec@, r.tuple_size as nat) == flatten_f32(self@),
    {
        match &self.values {
            AttribValues::F32(v) => TupleVecF32Bits {
                vec: copy_vec(v),
                tuple_size: self.tuple_size,
            },
            _ => TupleVecF32Bits { vec: Vec::new(), tuple_size: 0 },
        }
    }

    /// Flattens the attribute as 64-bit-float bit patterns; see
    /// `get_data_i8`.
    pub fn get_data_f64(&self) -> (r: TupleVecF64Bits)
        ensures
            (r.vec@, r.tuple_size as nat) == flatten_f64(self@),
    {
        match &self.values {
            AttribValues::F64(v) => TupleVecF64Bits {
                vec: copy_vec(v),
                tuple_size: self.tuple_size,
            },
            _ => TupleVecF64Bits { vec: Vec::new(), tuple_size: 0 },
        }
    }

    /// Hands out the indirect value list of a string attribute, one
    /// optional string per element; see `get_data_i8` for the policy on
    /// mismatched element types.
    pub fn get_data_str(&self) -> (r: TupleVecStr)
        ensures
            (r.vec.deep_view(), r.tuple_size as nat) == flatten_str(self@),
    {
        match &self.values {
            AttribValues::Str(v) => TupleVecStr {
                vec: copy_str_values(v),
                tuple_size: self.tuple_size,
            },
            _ => TupleVecStr { vec: Vec::new(), tuple_size: 0 },
        }
    }
}

} // verus!

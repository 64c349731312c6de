//! Library-wide laws, stated over the attribute model and proved once
//! for all inputs.

use vstd::prelude::*;

use crate::attrib::AttrData;
use crate::attrib::AttrView;
use crate::attrib::flatten_f32;
use crate::attrib::flatten_f64;
use crate::attrib::flatten_i32;
use crate::attrib::flatten_i64;
use crate::attrib::flatten_i8;
use crate::attrib::flatten_str;

verus! {

/// Round-trip for 8-bit-integer attributes: rebuilding a direct
/// attribute from the flattened buffer and arity yields the original
/// attribute, values and arity preserved; being equal to the original
/// it is also well-formed for the same cardinality, so it passes the
/// add-side validation.
pub proof fn lemma_roundtrip_i8(a: AttrView, card: nat)
    requires
        a.wf_for(card),
        a.data is I8,
    ensures
        (AttrView {
            name: a.name,
            tuple_size: flatten_i8(a).1,
            data: AttrData::I8(flatten_i8(a).0),
        }) == a,
{
}

/// Round-trip for 32-bit-integer attributes; see `lemma_roundtrip_i8`.
pub proof fn lemma_roundtrip_i32(a: AttrView, card: nat)
    requires
        a.wf_for(card),
        a.data is I32,
    ensures
        (AttrView {
            name: a.name,
            tuple_size: flatten_i32(a).1,
            data: AttrData::I32(flatten_i32(a).0),
        }) == a,
{
}

/// Round-trip for 64-bit-integer attributes; see `lemma_roundtrip_i8`.
pub proof fn lemma_roundtrip_i64(a: AttrView, card: nat)
    requires
        a.wf_for(card),
        a.data is I64,
    ensures
        (AttrView {
            name: a.name,
            tuple_size: flatten_i64(a).1,
            data: AttrData::I64(flatten_i64(a).0),
        }) == a,
{
}

/// Round-trip for 32-bit-float attributes (bit patterns); see
/// `lemma_roundtrip_i8`.
pub proof fn lemma_roundtrip_f32(a: AttrView, card: nat)
    requires
        a.wf_for(card),
        a.data is F32,
    ensures
        (AttrView {
            name: a.name,
            tuple_size: flatten_f32(a).1,
            data: AttrData::F32(flatten_f32(a).0),
        }) == a,
{
}

/// Round-trip for 64-bit-float attributes (bit patterns); see
/// `lemma_roundtrip_i8`.
pub proof fn lemma_roundtrip_f64(a: AttrView, card: nat)
    requires
        a.wf_for(card),
        a.data is F64,
    ensures
        (AttrView {
            name: a.name,
            tuple_size: flatten_f64(a).1,
            data: AttrData::F64(flatten_f64(a).0),
        }) == a,
{
}

/// Round-trip for string attributes: rebuilding an indirect attribute
/// from the flattened value list yields the original attribute.
pub proof fn lemma_roundtrip_str(a: AttrView, card: nat)
    requires
        a.wf_for(card),
        a.data is Str,
    ensures
        (AttrView {
            name: a.name,
            tuple_size: flatten_str(a).1,
            data: AttrData::Str(flatten_str(a).0),
        }) == a,
{
}

/// Shape invariant for the 8-bit-integer flatten entry point: the
/// buffer handed out always holds `cardinality * tuple_size` scalars
/// for the arity handed out with it — also when the element type does
/// not match and both are zero.
pub proof fn lemma_flatten_shape_i8(a: AttrView, card: nat)
    requires
        a.wf_for(card),
    ensures
        flatten_i8(a).0.len() == card * flatten_i8(a).1,
{
    if !(a.data is I8) {
        assert(card * 0 == 0);
    }
}

/// Shape invariant for the 32-bit-integer entry point; see
/// `lemma_flatten_shape_i8`.
pub proof fn lemma_flatten_shape_i32(a: AttrView, card: nat)
    requires
        a.wf_for(card),
    ensures
        flatten_i32(a).0.len() == card * flatten_i32(a).1,
{
    if !(a.data is I32) {
        assert(card * 0 == 0);
    }
}

/// Shape invariant for the 64-bit-integer entry point; see
/// `lemma_flatten_shape_i8`.
pub proof fn lemma_flatten_shape_i64(a: AttrView, card: nat)
    requires
        a.wf_for(card),
    ensures
        flatten_i64(a).0.len() == card * flatten_i64(a).1,
{
    if !(a.data is I64) {
        assert(card * 0 == 0);
    }
}

/// Shape invariant for the 32-bit-float entry point; see
/// `lemma_flatten_shape_i8`.
pub proof fn lemma_flatten_shape_f32(a: AttrView, card: nat)
    requires
        a.wf_for(card),
    ensures
        flatten_f32(a).0.len() == card * flatten_f32(a).1,
{
    if !(a.data is F32) {
        assert(card * 0 == 0);
    }
}

/// Shape invariant for the 64-bit-float entry point; see
/// `lemma_flatten_shape_i8`.
pub proof fn lemma_flatten_shape_f64(a: AttrView, card: nat)
    requires
        a.wf_for(card),
    ensures
        flatten_f64(a).0.len() == card * flatten_f64(a).1,
{
    if !(a.data is F64) {
        assert(card * 0 == 0);
    }
}

/// Shape invariant for the string entry point: one value slot per
/// element (arity 1) when the attribute holds strings, and an empty
/// buffer with arity 0 otherwise.
pub proof fn lemma_flatten_shape_str(a: AttrView, card: nat)
    requires
        a.wf_for(card),
    ensures
        flatten_str(a).0.len() == card * flatten_str(a).1,
{
    if !(a.data is Str) {
        assert(card * 0 == 0);
    } else {
        assert(card * 1 == card);
    }
}

} // verus!

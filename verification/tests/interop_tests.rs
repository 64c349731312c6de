use hdkrs::AttribError;
use hdkrs::CookResult;
use hdkrs::CookResultTag;
use hdkrs::Error;
use hdkrs::TupleVec;
use hdkrs::TupleVecF32Bits;
use hdkrs::TupleVecF64Bits;
use hdkrs::TupleVecI32;
use hdkrs::TupleVecI64;
use hdkrs::TupleVecI8;
use hdkrs::TupleVecStr;
use hdkrs::interop;

#[test]
fn cook_result_conversion_keeps_message_and_tag() {
    let r = CookResult::from(interop::CookResult::Success(String::from("done")));
    assert_eq!(r.message(), "done");
    assert_eq!(r.tag(), CookResultTag::SUCCESS);
    let r = CookResult::from(interop::CookResult::Warning(String::from("odd input")));
    assert_eq!(r.message(), "odd input");
    assert_eq!(r.tag(), CookResultTag::WARNING);
    let r = CookResult::from(interop::CookResult::Error(String::from("bad input")));
    assert_eq!(r.message(), "bad input");
    assert_eq!(r.tag(), CookResultTag::ERROR);
}

#[test]
fn error_from_attrib_error() {
    let e = Error::from(AttribError::InvalidLocation);
    assert_eq!(e, Error::Attrib(AttribError::InvalidLocation));
    let e: Error = AttribError::CardinalityMismatch.into();
    assert_eq!(e, Error::Attrib(AttribError::CardinalityMismatch));
}

#[test]
fn tuple_vec_conversions_move_fields() {
    let t: TupleVecI8 = TupleVec { vec: vec![1i8, 2], tuple_size: 2 }.into();
    assert_eq!(t.vec, vec![1, 2]);
    assert_eq!(t.tuple_size, 2);
    let t: TupleVecI32 = TupleVec { vec: vec![3i32], tuple_size: 1 }.into();
    assert_eq!(t.vec, vec![3]);
    let t: TupleVecI64 = TupleVec { vec: vec![4i64], tuple_size: 1 }.into();
    assert_eq!(t.vec, vec![4]);
    let t: TupleVecF32Bits = TupleVec { vec: vec![1.5f32.to_bits()], tuple_size: 1 }.into();
    assert_eq!(f32::from_bits(t.vec[0]), 1.5);
    let t: TupleVecF64Bits = TupleVec { vec: vec![2.5f64.to_bits()], tuple_size: 1 }.into();
    assert_eq!(f64::from_bits(t.vec[0]), 2.5);
    let t: TupleVecStr = TupleVec {
        vec: vec![Some(String::from("a")), None],
        tuple_size: 1,
    }
        .into();
    assert_eq!(t.len(), 2);
    assert_eq!(t.at(0), "a");
    assert_eq!(t.at(1), "");
}

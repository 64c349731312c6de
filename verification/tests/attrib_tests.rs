use hdkrs::AttribLocation;
use hdkrs::AttribValues;
use hdkrs::Attribute;
use hdkrs::DataType;
use hdkrs::make_pointcloud;
use hdkrs::make_polymesh;

fn quad_mesh() -> hdkrs::PolyMesh {
    let coords: Vec<u64> = vec![
        0.0f64.to_bits(),
        0.0f64.to_bits(),
        0.0f64.to_bits(),
        1.0f64.to_bits(),
        0.0f64.to_bits(),
        0.0f64.to_bits(),
        1.0f64.to_bits(),
        1.0f64.to_bits(),
        0.0f64.to_bits(),
        0.0f64.to_bits(),
        1.0f64.to_bits(),
        0.0f64.to_bits(),
    ];
    let indices: Vec<usize> = vec![4, 0, 1, 2, 3];
    make_polymesh(&coords, &indices).unwrap()
}

#[test]
fn data_type_probing_each_kind() {
    let a = Attribute {
        name: String::from("x"),
        tuple_size: 1,
        values: AttribValues::I8(vec![1]),
    };
    assert_eq!(a.data_type(), DataType::I8);
    let a = Attribute {
        name: String::from("x"),
        tuple_size: 1,
        values: AttribValues::I32(vec![1]),
    };
    assert_eq!(a.data_type(), DataType::I32);
    let a = Attribute {
        name: String::from("x"),
        tuple_size: 1,
        values: AttribValues::I64(vec![1]),
    };
    assert_eq!(a.data_type(), DataType::I64);
    let a = Attribute {
        name: String::from("x"),
        tuple_size: 1,
        values: AttribValues::F32(vec![1.5f32.to_bits()]),
    };
    assert_eq!(a.data_type(), DataType::F32);
    let a = Attribute {
        name: String::from("x"),
        tuple_size: 1,
        values: AttribValues::F64(vec![2.5f64.to_bits()]),
    };
    assert_eq!(a.data_type(), DataType::F64);
    let a = Attribute {
        name: String::from("x"),
        tuple_size: 1,
        values: AttribValues::Str(vec![Some(String::from("s"))]),
    };
    assert_eq!(a.data_type(), DataType::STR);
}

#[test]
fn type_probe_mismatch_yields_empty_not_error() {
    // A float64-backed attribute probed as int32 hands back an empty
    // buffer with tuple size 0.
    let a = Attribute {
        name: String::from("speed"),
        tuple_size: 3,
        values: AttribValues::F64(vec![1.0f64.to_bits(); 6]),
    };
    assert_eq!(a.data_type(), DataType::F64);
    let flat = a.get_data_i32();
    assert_eq!(flat.vec.len(), 0);
    assert_eq!(flat.tuple_size, 0);
    let flat = a.get_data_f64();
    assert_eq!(flat.vec.len(), 6);
    assert_eq!(flat.tuple_size, 3);
}

#[test]
fn flatten_preserves_row_major_order() {
    let a = Attribute {
        name: String::from("uv"),
        tuple_size: 2,
        values: AttribValues::I32(vec![10, 11, 20, 21, 30, 31]),
    };
    let flat = a.get_data_i32();
    assert_eq!(flat.vec, vec![10, 11, 20, 21, 30, 31]);
    assert_eq!(flat.tuple_size, 2);
}

#[test]
fn roundtrip_i8_every_arity() {
    // One element per attribute, arity k in [1, 16]: flatten then add
    // back and flatten again; values and arity survive.
    for k in 1..=16usize {
        let coords: Vec<u64> = vec![0; 3];
        let mut m = make_pointcloud(&coords).unwrap();
        let data: Vec<i8> = (0..k as i8).collect();
        m.add_attrib_i8(AttribLocation::VERTEX, "a", k, &data).unwrap();
        let mut it = m.attrib_iter(AttribLocation::VERTEX);
        let a = it.next().unwrap();
        let flat = a.get_data_i8();
        assert_eq!(flat.tuple_size, k);
        assert_eq!(flat.vec, data);
        let mut m2 = make_pointcloud(&coords).unwrap();
        m2.add_attrib_i8(AttribLocation::VERTEX, "a", flat.tuple_size, &flat.vec).unwrap();
        let mut it2 = m2.attrib_iter(AttribLocation::VERTEX);
        let a2 = it2.next().unwrap();
        let flat2 = a2.get_data_i8();
        assert_eq!(flat2.tuple_size, k);
        assert_eq!(flat2.vec, data);
    }
}

#[test]
fn roundtrip_i32_and_i64() {
    let mut m = quad_mesh();
    let data32: Vec<i32> = vec![1, 2, 3, 4];
    m.add_attrib_i32(AttribLocation::FACEVERTEX, "c32", 1, &data32).unwrap();
    let data64: Vec<i64> = vec![-5, 6, -7, 8];
    m.add_attrib_i64(AttribLocation::FACEVERTEX, "c64", 1, &data64).unwrap();
    let mut it = m.attrib_iter(AttribLocation::FACEVERTEX);
    let a = it.next().unwrap();
    assert_eq!(a.name(), "c32");
    assert_eq!(a.get_data_i32().vec, data32);
    let b = it.next().unwrap();
    assert_eq!(b.name(), "c64");
    assert_eq!(b.get_data_i64().vec, data64);
}

#[test]
fn roundtrip_f32_and_f64_bits() {
    let mut m = quad_mesh();
    let f32s = [0.5f32, -1.25, 3.75, 100.0];
    let bits32: Vec<u32> = f32s.iter().map(|x| x.to_bits()).collect();
    m.add_attrib_f32(AttribLocation::VERTEX, "w", 1, &bits32).unwrap();
    let f64s = [0.5f64, -1.25, 3.75, 100.0];
    let bits64: Vec<u64> = f64s.iter().map(|x| x.to_bits()).collect();
    m.add_attrib_f64(AttribLocation::VERTEX, "z", 1, &bits64).unwrap();
    let mut it = m.attrib_iter(AttribLocation::VERTEX);
    let a = it.next().unwrap();
    assert_eq!(a.data_type(), DataType::F32);
    let back: Vec<f32> = a.get_data_f32().vec.iter().map(|b| f32::from_bits(*b)).collect();
    assert_eq!(back, f32s.to_vec());
    let b = it.next().unwrap();
    assert_eq!(b.data_type(), DataType::F64);
    let back: Vec<f64> = b.get_data_f64().vec.iter().map(|b| f64::from_bits(*b)).collect();
    assert_eq!(back, f64s.to_vec());
}

#[test]
fn flatten_shape_matches_cardinality_times_arity() {
    let mut m = quad_mesh();
    let data: Vec<i32> = (0..12).collect();
    m.add_attrib_i32(AttribLocation::VERTEX, "v3", 3, &data).unwrap();
    let mut it = m.attrib_iter(AttribLocation::VERTEX);
    let a = it.next().unwrap();
    let flat = a.get_data_i32();
    // 4 vertices times arity 3.
    assert_eq!(flat.vec.len(), 4 * flat.tuple_size);
    assert_eq!(flat.tuple_size, 3);
}

#[test]
fn tuple_size_out_of_range_rejected() {
    let mut m = quad_mesh();
    let err = m.add_attrib_i32(AttribLocation::VERTEX, "bad", 0, &[]).unwrap_err();
    assert_eq!(err, hdkrs::AttribError::InvalidTupleSize);
    let data: Vec<i32> = (0..(4 * 17)).collect();
    let err = m.add_attrib_i32(AttribLocation::VERTEX, "bad", 17, &data).unwrap_err();
    assert_eq!(err, hdkrs::AttribError::InvalidTupleSize);
    assert_eq!(m.vertex_attribs.len(), 0);
}

#[test]
fn cardinality_mismatch_rejected() {
    let mut m = quad_mesh();
    // 4 vertices, arity 1, but 5 values.
    let err = m.add_attrib_i32(AttribLocation::VERTEX, "bad", 1, &[1, 2, 3, 4, 5]).unwrap_err();
    assert_eq!(err, hdkrs::AttribError::CardinalityMismatch);
    assert_eq!(m.vertex_attribs.len(), 0);
}

#[test]
fn readding_same_name_replaces_in_place() {
    let mut m = quad_mesh();
    m.add_attrib_i32(AttribLocation::VERTEX, "first", 1, &[1, 2, 3, 4]).unwrap();
    m.add_attrib_i32(AttribLocation::VERTEX, "second", 1, &[5, 6, 7, 8]).unwrap();
    m.add_attrib_i32(AttribLocation::VERTEX, "first", 1, &[9, 9, 9, 9]).unwrap();
    assert_eq!(m.vertex_attribs.len(), 2);
    let mut it = m.attrib_iter(AttribLocation::VERTEX);
    let a = it.next().unwrap();
    assert_eq!(a.name(), "first");
    assert_eq!(a.get_data_i32().vec, vec![9, 9, 9, 9]);
    let b = it.next().unwrap();
    assert_eq!(b.name(), "second");
    assert_eq!(b.get_data_i32().vec, vec![5, 6, 7, 8]);
}

#[test]
fn attribute_name_and_tuple_size_accessors() {
    let a = Attribute {
        name: String::from("density"),
        tuple_size: 2,
        values: AttribValues::I64(vec![1, 2, 3, 4]),
    };
    assert_eq!(a.name(), "density");
    assert_eq!(a.tuple_size(), 2);
    assert_eq!(a.values.scalar_len(), 4);
}

#[test]
fn readding_same_name_replaces_across_kinds() {
    let mut m = quad_mesh();
    m.add_attrib_str(AttribLocation::VERTEX, "label", 1, &["x"], &[0, 0, 0, 0]).unwrap();
    m.add_attrib_i64(AttribLocation::VERTEX, "label", 1, &[1, 2, 3, 4]).unwrap();
    assert_eq!(m.vertex_attribs.len(), 1);
    let mut it = m.attrib_iter(AttribLocation::VERTEX);
    let a = it.next().unwrap();
    assert_eq!(a.data_type(), DataType::I64);
    assert_eq!(a.get_data_i64().vec, vec![1, 2, 3, 4]);
}

use hdkrs::AttribError;
use hdkrs::AttribLocation;
use hdkrs::DataType;
use hdkrs::make_pointcloud;

fn cloud_of(n: usize) -> hdkrs::PointCloud {
    let coords: Vec<u64> = vec![0; 3 * n];
    make_pointcloud(&coords).unwrap()
}

#[test]
fn string_indirection_resolves_pool_indices() {
    // Pool ["a", "b"], index buffer [0, -1, 1, 0]: the reconstructed
    // attribute reads "a", <none>, "b", "a", equal by content.
    let mut pc = cloud_of(4);
    pc.add_attrib_str(AttribLocation::VERTEX, "names", 1, &["a", "b"], &[0, -1, 1, 0]).unwrap();
    let mut it = pc.attrib_iter(AttribLocation::VERTEX);
    let a = it.next().unwrap();
    assert_eq!(a.data_type(), DataType::STR);
    let flat = a.get_data_str();
    assert_eq!(flat.len(), 4);
    assert_eq!(flat.tuple_size(), 1);
    assert_eq!(flat.at(0), "a");
    assert_eq!(flat.at(2), "b");
    assert_eq!(flat.at(3), "a");
    assert_eq!(flat.at(0), flat.at(3));
    // The element without a value is distinct from one holding an
    // empty string, and reads as empty text.
    assert!(flat.vec[1].is_none());
    assert_eq!(flat.at(1), "");
}

#[test]
fn string_attribute_arity_other_than_one_rejected() {
    let mut pc = cloud_of(2);
    let err = pc
        .add_attrib_str(AttribLocation::VERTEX, "names", 2, &["a"], &[0, 0])
        .unwrap_err();
    assert_eq!(err, AttribError::InvalidTupleSize);
    assert_eq!(pc.vertex_attribs.len(), 0);
}

#[test]
fn string_attribute_invalid_location_rejected() {
    let mut pc = cloud_of(2);
    let err = pc
        .add_attrib_str(AttribLocation::FACE, "names", 1, &["a"], &[0, 0])
        .unwrap_err();
    assert_eq!(err, AttribError::InvalidLocation);
    assert_eq!(pc.vertex_attribs.len(), 0);
}

#[test]
fn string_attribute_cardinality_mismatch_rejected() {
    let mut pc = cloud_of(3);
    let err = pc
        .add_attrib_str(AttribLocation::VERTEX, "names", 1, &["a"], &[0, 0])
        .unwrap_err();
    assert_eq!(err, AttribError::CardinalityMismatch);
    assert_eq!(pc.vertex_attribs.len(), 0);
}

#[test]
fn string_index_out_of_pool_bounds_is_checked() {
    let mut pc = cloud_of(2);
    let err = pc
        .add_attrib_str(AttribLocation::VERTEX, "names", 1, &["a", "b"], &[0, 2])
        .unwrap_err();
    assert_eq!(err, AttribError::StringIndexOutOfBounds);
    assert_eq!(pc.vertex_attribs.len(), 0);
}

#[test]
fn string_flatten_on_numeric_probe_is_empty() {
    let mut pc = cloud_of(2);
    pc.add_attrib_str(AttribLocation::VERTEX, "names", 1, &["x"], &[0, 0]).unwrap();
    let mut it = pc.attrib_iter(AttribLocation::VERTEX);
    let a = it.next().unwrap();
    let flat = a.get_data_i64();
    assert_eq!(flat.vec.len(), 0);
    assert_eq!(flat.tuple_size, 0);
}

#[test]
fn numeric_flatten_on_string_probe_is_empty() {
    let mut pc = cloud_of(2);
    pc.add_attrib_i32(AttribLocation::VERTEX, "vals", 1, &[1, 2]).unwrap();
    let mut it = pc.attrib_iter(AttribLocation::VERTEX);
    let a = it.next().unwrap();
    let flat = a.get_data_str();
    assert_eq!(flat.len(), 0);
    assert_eq!(flat.tuple_size(), 0);
}

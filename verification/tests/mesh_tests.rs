use hdkrs::AttribError;
use hdkrs::AttribLocation;
use hdkrs::Mesh;
use hdkrs::MeshError;
use hdkrs::MeshTag;
use hdkrs::into_pointcloud;
use hdkrs::into_polymesh;
use hdkrs::into_tetmesh;
use hdkrs::make_pointcloud;
use hdkrs::make_polymesh;
use hdkrs::make_tetmesh;

fn bits(vals: &[f64]) -> Vec<u64> {
    vals.iter().map(|x| x.to_bits()).collect()
}

#[test]
fn pointcloud_geometry_roundtrip() {
    let coords = bits(&[0.0, 0.5, 1.0, -1.0, 2.0, 3.0]);
    let pc = make_pointcloud(&coords).unwrap();
    assert_eq!(pc.num_vertices(), 2);
    assert_eq!(pc.get_point_coords(), coords);
}

#[test]
fn pointcloud_rejects_bad_coords() {
    let err = make_pointcloud(&[1, 2, 3, 4]).unwrap_err();
    assert_eq!(err, MeshError::CoordsNotTriples);
}

#[test]
fn polymesh_counts_and_indices() {
    let coords = bits(&[0.0; 15]);
    // A triangle and a quad: 2 faces, 7 face vertices.
    let indices: Vec<usize> = vec![3, 0, 1, 2, 4, 1, 2, 3, 4];
    let m = make_polymesh(&coords, &indices).unwrap();
    assert_eq!(m.num_vertices(), 5);
    assert_eq!(m.face_count(), 2);
    assert_eq!(m.face_vertex_count(), 7);
    assert_eq!(m.get_indices(), indices);
    assert_eq!(m.get_point_coords(), coords);
}

#[test]
fn polymesh_rejects_malformed_runs() {
    let coords = bits(&[0.0; 9]);
    // The run claims 4 indices but only 2 follow.
    let err = make_polymesh(&coords, &[4, 0, 1]).unwrap_err();
    assert_eq!(err, MeshError::MalformedPolygonRuns);
    let err = make_polymesh(&[1, 2], &[3, 0, 1, 2]).unwrap_err();
    assert_eq!(err, MeshError::CoordsNotTriples);
}

#[test]
fn polymesh_empty_buffers_are_valid() {
    let m = make_polymesh(&[], &[]).unwrap();
    assert_eq!(m.num_vertices(), 0);
    assert_eq!(m.face_count(), 0);
    assert_eq!(m.face_vertex_count(), 0);
}

#[test]
fn tetmesh_counts_and_indices() {
    let coords = bits(&[0.0; 12]);
    let indices: Vec<usize> = vec![0, 1, 2, 3];
    let m = make_tetmesh(&coords, &indices).unwrap();
    assert_eq!(m.num_vertices(), 4);
    assert_eq!(m.cell_count(), 1);
    assert_eq!(m.get_indices(), indices);
    assert_eq!(m.get_point_coords(), coords);
}

#[test]
fn tetmesh_rejects_bad_shapes() {
    let err = make_tetmesh(&[1, 2], &[0, 1, 2, 3]).unwrap_err();
    assert_eq!(err, MeshError::CoordsNotTriples);
    let coords = bits(&[0.0; 12]);
    let err = make_tetmesh(&coords, &[0, 1, 2]).unwrap_err();
    assert_eq!(err, MeshError::CellsNotQuadruples);
}

#[test]
fn invalid_location_never_mutates_pointcloud() {
    let coords = bits(&[0.0; 6]);
    let mut pc = make_pointcloud(&coords).unwrap();
    for loc in [
        AttribLocation::FACE,
        AttribLocation::CELL,
        AttribLocation::FACEVERTEX,
        AttribLocation::CELLVERTEX,
    ] {
        let err = pc.add_attrib_i32(loc, "a", 1, &[1, 2]).unwrap_err();
        assert_eq!(err, AttribError::InvalidLocation);
        assert_eq!(pc.vertex_attribs.len(), 0);
    }
    pc.add_attrib_i32(AttribLocation::VERTEX, "a", 1, &[1, 2]).unwrap();
    assert_eq!(pc.vertex_attribs.len(), 1);
}

#[test]
fn invalid_location_never_mutates_polymesh() {
    let coords = bits(&[0.0; 9]);
    let mut m = make_polymesh(&coords, &[3, 0, 1, 2]).unwrap();
    for loc in [AttribLocation::CELL, AttribLocation::CELLVERTEX] {
        let err = m.add_attrib_i64(loc, "a", 1, &[1]).unwrap_err();
        assert_eq!(err, AttribError::InvalidLocation);
        assert_eq!(m.vertex_attribs.len(), 0);
        assert_eq!(m.face_attribs.len(), 0);
        assert_eq!(m.face_vertex_attribs.len(), 0);
    }
}

#[test]
fn invalid_location_never_mutates_tetmesh() {
    let coords = bits(&[0.0; 12]);
    let mut m = make_tetmesh(&coords, &[0, 1, 2, 3]).unwrap();
    for loc in [AttribLocation::FACE, AttribLocation::FACEVERTEX] {
        let err = m.add_attrib_i8(loc, "a", 1, &[1]).unwrap_err();
        assert_eq!(err, AttribError::InvalidLocation);
        assert_eq!(m.vertex_attribs.len(), 0);
        assert_eq!(m.cell_attribs.len(), 0);
        assert_eq!(m.cell_vertex_attribs.len(), 0);
    }
}

#[test]
fn tetmesh_cell_and_cellvertex_attribs() {
    let coords = bits(&[0.0; 12]);
    let mut m = make_tetmesh(&coords, &[0, 1, 2, 3]).unwrap();
    m.add_attrib_i32(AttribLocation::CELL, "mat", 1, &[42]).unwrap();
    m.add_attrib_i32(AttribLocation::CELLVERTEX, "corner", 1, &[0, 1, 2, 3]).unwrap();
    let mut it = m.attrib_iter(AttribLocation::CELL);
    let a = it.next().unwrap();
    assert_eq!(a.name(), "mat");
    assert_eq!(a.get_data_i32().vec, vec![42]);
    let mut it = m.attrib_iter(AttribLocation::CELLVERTEX);
    let a = it.next().unwrap();
    assert_eq!(a.get_data_i32().vec, vec![0, 1, 2, 3]);
}

#[test]
fn mesh_union_probing_and_tags() {
    let coords = bits(&[0.0; 3]);
    let pc = make_pointcloud(&coords).unwrap();
    let m = Mesh::PointCloud(pc);
    assert!(m.is_pointcloud());
    assert!(!m.is_polymesh());
    assert!(!m.is_tetmesh());
    assert_eq!(m.tag(), MeshTag::PointCloud);
    assert_eq!(Mesh::Empty.tag(), MeshTag::Empty);
}

#[test]
fn mesh_union_or_and_or_else() {
    let coords = bits(&[0.0; 3]);
    let a = Mesh::PointCloud(make_pointcloud(&coords).unwrap());
    let chosen = a.or(Mesh::Empty);
    assert!(chosen.is_pointcloud());
    let chosen = Mesh::Empty.or(chosen);
    assert!(chosen.is_pointcloud());
    let built = Mesh::Empty.or_else(|| Mesh::PointCloud(make_pointcloud(&[]).unwrap()));
    assert!(built.is_pointcloud());
    let kept = built.or_else(|| Mesh::Empty);
    assert!(kept.is_pointcloud());
}

#[test]
fn mesh_union_unwrapping() {
    let coords = bits(&[0.0; 12]);
    let tm = make_tetmesh(&coords, &[0, 1, 2, 3]).unwrap();
    let boxed = into_tetmesh(Box::new(Mesh::TetMesh(tm)));
    assert_eq!(boxed.cell_count(), 1);
    let pm = make_polymesh(&coords, &[4, 0, 1, 2, 3]).unwrap();
    let boxed = into_polymesh(Box::new(Mesh::PolyMesh(pm)));
    assert_eq!(boxed.face_count(), 1);
    let pc = make_pointcloud(&coords).unwrap();
    let boxed = into_pointcloud(Box::new(Mesh::PointCloud(pc)));
    assert_eq!(boxed.num_vertices(), 4);
}

#[test]
fn end_to_end_quad_face_attribute() {
    // Four coplanar points, one quad face, a per-face int32 attribute
    // "region" of arity 1 and value [7].
    let coords = bits(&[0.0, 0.0, 0.0, 1.0, 0.0, 0.0, 1.0, 1.0, 0.0, 0.0, 1.0, 0.0]);
    let indices: Vec<usize> = vec![4, 0, 1, 2, 3];
    let mut m = make_polymesh(&coords, &indices).unwrap();
    m.add_attrib_i32(AttribLocation::FACE, "region", 1, &[7]).unwrap();
    let mut it = m.attrib_iter(AttribLocation::FACE);
    assert!(it.has_next());
    let a = it.next().unwrap();
    assert_eq!(a.name(), "region");
    assert_eq!(a.data_type(), hdkrs::DataType::I32);
    let flat = a.get_data_i32();
    assert_eq!(flat.vec, vec![7]);
    assert_eq!(flat.tuple_size, 1);
    assert!(!it.has_next());
    assert!(it.next().is_err());
}

#[test]
fn location_validity_matrix() {
    let all = [
        AttribLocation::VERTEX,
        AttribLocation::FACE,
        AttribLocation::CELL,
        AttribLocation::FACEVERTEX,
        AttribLocation::CELLVERTEX,
    ];
    let valid_pc = [true, false, false, false, false];
    let valid_poly = [true, true, false, true, false];
    let valid_tet = [true, false, true, false, true];
    for (i, loc) in all.iter().enumerate() {
        assert_eq!(hdkrs::is_valid_location(MeshTag::PointCloud, *loc), valid_pc[i]);
        assert_eq!(hdkrs::is_valid_location(MeshTag::PolyMesh, *loc), valid_poly[i]);
        assert_eq!(hdkrs::is_valid_location(MeshTag::TetMesh, *loc), valid_tet[i]);
        assert!(!hdkrs::is_valid_location(MeshTag::Empty, *loc));
    }
}

use hdkrs::AttribLocation;
use hdkrs::Error;
use hdkrs::make_polymesh;

fn bits(vals: &[f64]) -> Vec<u64> {
    vals.iter().map(|x| x.to_bits()).collect()
}

#[test]
fn cursor_yields_exactly_n_then_exhausts() {
    let coords = bits(&[0.0; 9]);
    let mut m = make_polymesh(&coords, &[3, 0, 1, 2]).unwrap();
    let n = 5;
    for i in 0..n {
        let name = format!("attr{}", i);
        m.add_attrib_i32(AttribLocation::VERTEX, &name, 1, &[i, i, i]).unwrap();
    }
    let mut it = m.attrib_iter(AttribLocation::VERTEX);
    let mut yielded = 0;
    while it.has_next() {
        let a = it.next().unwrap();
        assert_eq!(a.name(), format!("attr{}", yielded));
        yielded += 1;
    }
    assert_eq!(yielded, n);
    // The exhausted cursor keeps reporting "no more data", not a panic.
    assert_eq!(it.next().unwrap_err(), Error::AttribNotFound);
    assert_eq!(it.next().unwrap_err(), Error::AttribNotFound);
}

#[test]
fn cursor_on_empty_dictionary_yields_nothing() {
    let coords = bits(&[0.0; 9]);
    let m = make_polymesh(&coords, &[3, 0, 1, 2]).unwrap();
    let mut it = m.attrib_iter(AttribLocation::FACE);
    assert!(!it.has_next());
    assert!(it.next().is_err());
}

#[test]
fn cursor_on_invalid_location_yields_nothing() {
    let coords = bits(&[0.0; 9]);
    let mut m = make_polymesh(&coords, &[3, 0, 1, 2]).unwrap();
    m.add_attrib_i32(AttribLocation::VERTEX, "a", 1, &[1, 2, 3]).unwrap();
    // CELL is not a polygon-mesh location, even though the mesh holds
    // vertex attributes.
    let mut it = m.attrib_iter(AttribLocation::CELL);
    assert!(!it.has_next());
    assert!(it.next().is_err());
}

#[test]
fn cursor_preserves_insertion_order() {
    let coords = bits(&[0.0; 9]);
    let mut m = make_polymesh(&coords, &[3, 0, 1, 2]).unwrap();
    m.add_attrib_i32(AttribLocation::VERTEX, "zeta", 1, &[1, 1, 1]).unwrap();
    m.add_attrib_i32(AttribLocation::VERTEX, "alpha", 1, &[2, 2, 2]).unwrap();
    m.add_attrib_i32(AttribLocation::VERTEX, "mid", 1, &[3, 3, 3]).unwrap();
    let mut it = m.attrib_iter(AttribLocation::VERTEX);
    assert_eq!(it.next().unwrap().name(), "zeta");
    assert_eq!(it.next().unwrap().name(), "alpha");
    assert_eq!(it.next().unwrap().name(), "mid");
}

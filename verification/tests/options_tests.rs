use pdal::Options;

#[test]
fn test_new_options() {
    let mut o = Options::new();
    o.add("foo", "bar");
}

#[test]
fn test_options_entries() {
    let mut o = Options::new();
    assert_eq!(o.len(), 0);
    o.add("filename", "cloud.las");
    o.add("spatialreference", "EPSG:2993");
    assert_eq!(o.len(), 2);
    let (name, value) = o.get(0);
    assert_eq!(name, "filename");
    assert_eq!(value, "cloud.las");
    let (name, value) = o.get(1);
    assert_eq!(name, "spatialreference");
    assert_eq!(value, "EPSG:2993");
}

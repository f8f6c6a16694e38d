use pdal::{DimType, DimTypeEncoding, DimTypeId, Error, PointLayout};

fn las_dims() -> Vec<DimType> {
    vec![
        DimType { id: DimTypeId::X, encoding: DimTypeEncoding::Double },
        DimType { id: DimTypeId::Y, encoding: DimTypeEncoding::Double },
        DimType { id: DimTypeId::Z, encoding: DimTypeEncoding::Double },
        DimType { id: DimTypeId::Intensity, encoding: DimTypeEncoding::Unsigned16 },
        DimType { id: DimTypeId::ReturnNumber, encoding: DimTypeEncoding::Unsigned8 },
        DimType { id: DimTypeId::NumberOfReturns, encoding: DimTypeEncoding::Unsigned8 },
        DimType { id: DimTypeId::ScanDirectionFlag, encoding: DimTypeEncoding::Unsigned8 },
        DimType { id: DimTypeId::EdgeOfFlightLine, encoding: DimTypeEncoding::Unsigned8 },
        DimType { id: DimTypeId::Classification, encoding: DimTypeEncoding::Unsigned8 },
        DimType { id: DimTypeId::Synthetic, encoding: DimTypeEncoding::Unsigned8 },
        DimType { id: DimTypeId::KeyPoint, encoding: DimTypeEncoding::Unsigned8 },
        DimType { id: DimTypeId::Withheld, encoding: DimTypeEncoding::Unsigned8 },
        DimType { id: DimTypeId::Overlap, encoding: DimTypeEncoding::Unsigned8 },
        DimType { id: DimTypeId::ScanAngleRank, encoding: DimTypeEncoding::Float },
        DimType { id: DimTypeId::UserData, encoding: DimTypeEncoding::Unsigned8 },
        DimType { id: DimTypeId::PointSourceId, encoding: DimTypeEncoding::Unsigned16 },
        DimType { id: DimTypeId::GpsTime, encoding: DimTypeEncoding::Double },
        DimType { id: DimTypeId::Red, encoding: DimTypeEncoding::Unsigned16 },
        DimType { id: DimTypeId::Green, encoding: DimTypeEncoding::Unsigned16 },
        DimType { id: DimTypeId::Blue, encoding: DimTypeEncoding::Unsigned16 },
    ]
}

#[test]
fn test_layout_accounting() {
    let layout = PointLayout::new(&las_dims()).expect("layout");
    assert_eq!(layout.dimension_count(), 20);
    assert_eq!(layout.point_size(), 56);
    // Summing each dimension's encoded byte size gives the point size.
    let total: usize = layout.dimension_types().iter().map(|d| d.size_bytes()).sum();
    assert_eq!(layout.point_size(), total);
}

#[test]
fn test_layout_lookup() {
    let layout = PointLayout::new(&las_dims()).expect("layout");
    let dim = layout
        .dimension_types()
        .into_iter()
        .find(|dt| dt.id() == DimTypeId::Blue)
        .ok_or("Blue dimension not found")
        .unwrap();
    assert_eq!(dim.encoding(), DimTypeEncoding::Unsigned16);
    assert_eq!(dim.size_bytes(), 2);

    assert_eq!(layout.dimension_offset(DimTypeId::X), 0);
    assert_eq!(layout.dimension_size(DimTypeId::X), 8);
    assert_eq!(layout.dimension_offset(DimTypeId::Y), 8);
    assert_eq!(layout.dimension_offset(DimTypeId::Intensity), 24);
    assert_eq!(layout.dimension_size(DimTypeId::Infrared), 0);
    assert!(layout.dimension_type(DimTypeId::Infrared).is_none());
    let ids = layout.dimension_ids();
    assert_eq!(ids.len(), 20);
    assert_eq!(ids[0], DimTypeId::X);
    assert_eq!(ids[19], DimTypeId::Blue);
}

#[test]
fn test_layout_duplicate() {
    let dims = vec![
        DimType { id: DimTypeId::X, encoding: DimTypeEncoding::Double },
        DimType { id: DimTypeId::X, encoding: DimTypeEncoding::Float },
    ];
    let r = PointLayout::new(&dims);
    assert!(r.is_err());
    assert!(matches!(r.err().unwrap(), Error::DuplicateDimension));
}

#[test]
fn test_layout_unspecified() {
    let dims = vec![DimType { id: DimTypeId::X, encoding: DimTypeEncoding::Unspecified }];
    let r = PointLayout::new(&dims);
    assert!(r.is_err());
    assert!(matches!(r.err().unwrap(), Error::UnspecifiedEncoding));
}

#[test]
fn test_dimension_accessors() {
    let layout = PointLayout::new(&las_dims()).expect("layout");
    let d = layout.dimension_type(DimTypeId::GpsTime).expect("GpsTime");
    assert_eq!(d.id(), DimTypeId::GpsTime);
    assert_eq!(d.offset(), 42);
    assert_eq!(d.size_bytes(), 8);
    assert_eq!(d.encoding(), DimTypeEncoding::Double);
}

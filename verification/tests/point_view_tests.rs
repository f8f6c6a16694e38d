use pdal::{DimType, DimTypeEncoding, DimTypeId, Error, PdalValue, PointLayout, PointView};

fn las_dims() -> Vec<DimType> {
    vec![
        DimType { id: DimTypeId::X, encoding: DimTypeEncoding::Double },
        DimType { id: DimTypeId::Y, encoding: DimTypeEncoding::Double },
        DimType { id: DimTypeId::Z, encoding: DimTypeEncoding::Double },
        DimType { id: DimTypeId::Intensity, encoding: DimTypeEncoding::Unsigned16 },
        DimType { id: DimTypeId::ReturnNumber, encoding: DimTypeEncoding::Unsigned8 },
        DimType { id: DimTypeId::NumberOfReturns, encoding: DimTypeEncoding::Unsigned8 },
        DimType { id: DimTypeId::ScanDirectionFlag, encoding: DimTypeEncoding::Unsigned8 },
        DimType { id: DimTypeId::EdgeOfFlightLine, encoding: DimTypeEncoding::Unsigned8 },
        DimType { id: DimTypeId::Classification, encoding: DimTypeEncoding::Unsigned8 },
        DimType { id: DimTypeId::Synthetic, encoding: DimTypeEncoding::Unsigned8 },
        DimType { id: DimTypeId::KeyPoint, encoding: DimTypeEncoding::Unsigned8 },
        DimType { id: DimTypeId::Withheld, encoding: DimTypeEncoding::Unsigned8 },
        DimType { id: DimTypeId::Overlap, encoding: DimTypeEncoding::Unsigned8 },
        DimType { id: DimTypeId::ScanAngleRank, encoding: DimTypeEncoding::Float },
        DimType { id: DimTypeId::UserData, encoding: DimTypeEncoding::Unsigned8 },
        DimType { id: DimTypeId::PointSourceId, encoding: DimTypeEncoding::Unsigned16 },
        DimType { id: DimTypeId::GpsTime, encoding: DimTypeEncoding::Double },
        DimType { id: DimTypeId::Red, encoding: DimTypeEncoding::Unsigned16 },
        DimType { id: DimTypeId::Green, encoding: DimTypeEncoding::Unsigned16 },
        DimType { id: DimTypeId::Blue, encoding: DimTypeEncoding::Unsigned16 },
    ]
}

/// The values of the example point, in layout order, encoded little-endian.
fn example_point_bytes() -> Vec<u8> {
    let mut b: Vec<u8> = Vec::new();
    b.extend_from_slice(&637174.33f64.to_le_bytes());
    b.extend_from_slice(&849407.37f64.to_le_bytes());
    b.extend_from_slice(&411.38f64.to_le_bytes());
    b.extend_from_slice(&15u16.to_le_bytes());
    b.push(1); // ReturnNumber
    b.push(1); // NumberOfReturns
    b.push(1); // ScanDirectionFlag
    b.push(0); // EdgeOfFlightLine
    b.push(1); // Classification
    b.push(0); // Synthetic
    b.push(0); // KeyPoint
    b.push(0); // Withheld
    b.push(0); // Overlap
    b.extend_from_slice(&(-18.0f32).to_le_bytes());
    b.push(130); // UserData
    b.extend_from_slice(&7326u16.to_le_bytes());
    b.extend_from_slice(&245379.4008614817f64.to_le_bytes());
    b.extend_from_slice(&78u16.to_le_bytes());
    b.extend_from_slice(&94u16.to_le_bytes());
    b.extend_from_slice(&89u16.to_le_bytes());
    b
}

fn fixture_view() -> PointView {
    let layout = PointLayout::new(&las_dims()).expect("layout");
    let psize = layout.point_size();
    let mut data: Vec<u8> = vec![0; psize * 4];
    data.extend_from_slice(&example_point_bytes());
    PointView::from_parts(
        1,
        5,
        String::from(
            "+proj=lcc +lat_0=41.75 +lon_0=-120.5 +lat_1=43 +lat_2=45.5 +x_0=400000 +y_0=0 +ellps=GRS80 +units=ft +no_defs",
        ),
        String::from("PROJCS[\"NAD_1983_HARN_Lambert_Conformal_Conic\"]"),
        layout,
        data,
    )
    .expect("view")
}

#[test]
fn test_read_point() {
    let view = fixture_view();

    // Manually extracted point values.
    let example: u64 = 4;
    let expected = [
        (DimTypeId::X, PdalValue::Double(637174.33f64.to_bits())),
        (DimTypeId::Y, PdalValue::Double(849407.37f64.to_bits())),
        (DimTypeId::Z, PdalValue::Double(411.38f64.to_bits())),
        (DimTypeId::Intensity, PdalValue::Unsigned16(15)),
        (DimTypeId::ReturnNumber, PdalValue::Unsigned8(1)),
        (DimTypeId::NumberOfReturns, PdalValue::Unsigned8(1)),
        (DimTypeId::ScanDirectionFlag, PdalValue::Unsigned8(1)),
        (DimTypeId::EdgeOfFlightLine, PdalValue::Unsigned8(0)),
        (DimTypeId::Classification, PdalValue::Unsigned8(1)),
        (DimTypeId::Synthetic, PdalValue::Unsigned8(0)),
        (DimTypeId::KeyPoint, PdalValue::Unsigned8(0)),
        (DimTypeId::Withheld, PdalValue::Unsigned8(0)),
        (DimTypeId::Overlap, PdalValue::Unsigned8(0)),
        (DimTypeId::ScanAngleRank, PdalValue::Float((-18.0f32).to_bits())),
        (DimTypeId::UserData, PdalValue::Unsigned8(130)),
        (DimTypeId::PointSourceId, PdalValue::Unsigned16(7326)),
        (DimTypeId::GpsTime, PdalValue::Double(245379.4008614817f64.to_bits())),
        (DimTypeId::Red, PdalValue::Unsigned16(78)),
        (DimTypeId::Green, PdalValue::Unsigned16(94)),
        (DimTypeId::Blue, PdalValue::Unsigned16(89)),
    ];

    for (dim, expected_value) in expected {
        let dim_val = view.point_value(dim, example);
        assert!(dim_val.is_ok(), "Failed to read dimension {dim:?} as PdalValue");
        let pt_value = dim_val.unwrap();
        assert_eq!(pt_value, expected_value, "Unexpected value for dimension {dim:?}");
    }

    let x = view
        .point_value_as(DimTypeId::X, example, DimTypeEncoding::Double)
        .expect("x coord");
    assert_eq!(f64::from_bits(x.as_f64_bits().unwrap()), 637174.33);
}

#[test]
fn test_point_value_type_mismatch() {
    let view = fixture_view();
    let r = view.point_value_as(DimTypeId::Intensity, 4, DimTypeEncoding::Unsigned8);
    assert!(r.is_err());
    assert!(matches!(r.err().unwrap(), Error::TypeMismatch { want: DimTypeEncoding::Unsigned8 }));
    // The unspecified encoding places no constraint.
    let r = view.point_value_as(DimTypeId::Intensity, 4, DimTypeEncoding::Unspecified);
    assert_eq!(r.unwrap(), PdalValue::Unsigned16(15));
}

#[test]
fn test_point_value_unknown_dimension() {
    let view = fixture_view();
    let r = view.point_value(DimTypeId::Infrared, 0);
    assert!(r.is_err());
    assert!(matches!(r.err().unwrap(), Error::UnknownDimension));
}

#[test]
fn test_point_value_out_of_range() {
    let view = fixture_view();
    let r = view.point_value(DimTypeId::X, 5);
    assert!(r.is_err());
    assert!(matches!(r.err().unwrap(), Error::PointOutOfRange { index: 5, len: 5 }));
}

#[test]
fn test_signed_decoding() {
    let dims = vec![
        DimType { id: DimTypeId::Flag, encoding: DimTypeEncoding::Signed8 },
        DimType { id: DimTypeId::Mark, encoding: DimTypeEncoding::Signed16 },
        DimType { id: DimTypeId::Deviation, encoding: DimTypeEncoding::Signed32 },
        DimType { id: DimTypeId::OffsetTime, encoding: DimTypeEncoding::Signed64 },
        DimType { id: DimTypeId::ClusterID, encoding: DimTypeEncoding::Unsigned64 },
    ];
    let layout = PointLayout::new(&dims).expect("layout");
    let mut data: Vec<u8> = Vec::new();
    data.extend_from_slice(&(-128i8).to_le_bytes());
    data.extend_from_slice(&(-1i16).to_le_bytes());
    data.extend_from_slice(&(-2147483648i32).to_le_bytes());
    data.extend_from_slice(&(-9007199254740993i64).to_le_bytes());
    data.extend_from_slice(&u64::MAX.to_le_bytes());
    let view =
        PointView::from_parts(7, 1, String::new(), String::new(), layout, data).expect("view");
    assert_eq!(view.point_value(DimTypeId::Flag, 0).unwrap(), PdalValue::Signed8(-128));
    assert_eq!(view.point_value(DimTypeId::Mark, 0).unwrap(), PdalValue::Signed16(-1));
    assert_eq!(
        view.point_value(DimTypeId::Deviation, 0).unwrap(),
        PdalValue::Signed32(-2147483648)
    );
    assert_eq!(
        view.point_value(DimTypeId::OffsetTime, 0).unwrap(),
        PdalValue::Signed64(-9007199254740993)
    );
    assert_eq!(
        view.point_value(DimTypeId::ClusterID, 0).unwrap(),
        PdalValue::Unsigned64(u64::MAX)
    );
}

#[test]
fn test_view_basics() {
    let view = fixture_view();
    assert_eq!(view.id(), 1);
    assert_eq!(view.len(), 5);
    assert!(!view.is_empty());
    assert_eq!(view.point_ids(), vec![0, 1, 2, 3, 4]);
    assert!(view.proj4().unwrap().starts_with("+proj=lcc"));
    assert!(view.wkt().unwrap().contains("NAD_1983_HARN_Lambert_Conformal_Conic"));
    assert_eq!(view.layout().point_size(), 56);
}

#[test]
fn test_point_view_set() {
    let set = pdal::PointViewSet::from_views(vec![fixture_view()]);
    assert_eq!(set.len(), 1);
    assert!(!set.is_empty());
    assert_eq!(set.get(0).len(), 5);
}

#[test]
fn test_data_size_mismatch() {
    let layout = PointLayout::new(&las_dims()).expect("layout");
    let r = PointView::from_parts(0, 2, String::new(), String::new(), layout, vec![0; 56]);
    assert!(r.is_err());
    assert!(matches!(r.err().unwrap(), Error::DataSizeMismatch { actual: 56 }));
}

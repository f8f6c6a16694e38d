use pdal::{decimal_string, elided, Conv, DimType, DimTypeEncoding, DimTypeId, Error, PdalValue};

#[test]
fn test_get_views() {
    assert_eq!(DimTypeId::Anisotropy.name(), "Anisotropy");
    assert!(DimTypeId::Anisotropy.description().contains("variance"));
}

#[test]
fn test_dim_names() {
    assert_eq!(DimTypeId::X.name(), "X");
    assert_eq!(DimTypeId::GpsTime.name(), "GpsTime");
    assert_eq!(DimTypeId::PointSourceId.name(), "PointSourceId");
    assert_eq!(DimTypeId::default(), DimTypeId::Unknown);
    assert!(!DimTypeId::Classification.description().is_empty());
}

#[test]
fn test_encoding_tags() {
    assert_eq!(DimTypeEncoding::Unspecified.ordinal(), 0);
    assert_eq!(DimTypeEncoding::Unsigned8.ordinal(), 513);
    assert_eq!(DimTypeEncoding::Signed8.ordinal(), 257);
    assert_eq!(DimTypeEncoding::Unsigned16.ordinal(), 514);
    assert_eq!(DimTypeEncoding::Signed16.ordinal(), 258);
    assert_eq!(DimTypeEncoding::Unsigned32.ordinal(), 516);
    assert_eq!(DimTypeEncoding::Signed32.ordinal(), 260);
    assert_eq!(DimTypeEncoding::Unsigned64.ordinal(), 520);
    assert_eq!(DimTypeEncoding::Signed64.ordinal(), 264);
    assert_eq!(DimTypeEncoding::Float.ordinal(), 1028);
    assert_eq!(DimTypeEncoding::Double.ordinal(), 1032);
}

#[test]
fn test_encoding_roundtrip() {
    let all = [
        DimTypeEncoding::Unsigned8,
        DimTypeEncoding::Signed8,
        DimTypeEncoding::Unsigned16,
        DimTypeEncoding::Signed16,
        DimTypeEncoding::Unsigned32,
        DimTypeEncoding::Signed32,
        DimTypeEncoding::Unsigned64,
        DimTypeEncoding::Signed64,
        DimTypeEncoding::Float,
        DimTypeEncoding::Double,
    ];
    for e in all {
        assert_eq!(DimTypeEncoding::from_ordinal(e.ordinal()), Some(e));
    }
    assert_eq!(DimTypeEncoding::from_ordinal(999), None);
}

#[test]
fn test_encoding_names() {
    assert_eq!(DimTypeEncoding::Unsigned16.name(), "Unsigned16");
    assert_eq!(DimTypeEncoding::Unsigned16.interpretation(), "uint16_t");
    assert_eq!(DimTypeEncoding::Double.interpretation(), "double");
    assert_eq!(DimTypeEncoding::Unsigned16.size_bytes(), 2);
    assert_eq!(DimTypeEncoding::Double.size_bytes(), 8);
    assert_eq!(DimTypeEncoding::Unspecified.size_bytes(), 0);
}

#[test]
fn test_dim_type_pair() {
    let dt = DimType { id: DimTypeId::Blue, encoding: DimTypeEncoding::Unsigned16 };
    assert_eq!(dt.id(), DimTypeId::Blue);
    assert_eq!(dt.encoding(), DimTypeEncoding::Unsigned16);
}

#[test]
fn test_value_extractors() {
    let v = PdalValue::Unsigned16(15);
    assert_eq!(v.encoding(), DimTypeEncoding::Unsigned16);
    assert_eq!(v.as_u16(), Some(15));
    assert_eq!(v.as_u8(), None);
    assert_eq!(v.as_i64(), None);
    let d = PdalValue::Double(245379.4008614817f64.to_bits());
    assert_eq!(d.encoding(), DimTypeEncoding::Double);
    assert_eq!(f64::from_bits(d.as_f64_bits().unwrap()), 245379.4008614817);
    let f = PdalValue::Float((-18.0f32).to_bits());
    assert_eq!(f64::from(f32::from_bits(f.as_f32_bits().unwrap())), -18.0);
}

#[test]
fn test_error_messages() {
    assert_eq!(
        Error::NoReaderStage.message(),
        "couldn't infer a reader for the first pipeline stage"
    );
    assert_eq!(Error::EmptyPipeline.message(), "pipeline contains no stages");
    assert_eq!(Error::PipelineSyntax.message(), "invalid pipeline JSON");
    assert_eq!(
        Error::PointOutOfRange { index: 7, len: 5 }.message(),
        "point index 7 is out of range for a view of 5 points"
    );
    assert_eq!(
        Error::TypeMismatch { want: DimTypeEncoding::Unsigned16 }.message(),
        "failed to convert value to type Unsigned16"
    );
    assert_eq!(
        Error::DataSizeMismatch { actual: 12 }.message(),
        "point buffer of 12 bytes does not match the layout and point count"
    );
}

#[test]
fn test_decimal_string() {
    assert_eq!(decimal_string(0), "0");
    assert_eq!(decimal_string(7), "7");
    assert_eq!(decimal_string(12345), "12345");
    assert_eq!(decimal_string(u64::MAX), "18446744073709551615");
}

#[test]
fn test_elided() {
    assert_eq!(elided("hello", 15), "hello");
    assert_eq!(elided("abcdefghijklmnopqrstuvwxyz", 10), "abcde … vwxyz");
}

#[test]
fn test_conv() {
    let c = Conv(41u32);
    assert_eq!(*c.inner(), 41);
    assert_eq!(c.take(), 41);
}

#[test]
fn test_marshalled_bytes() {
    let buf = b"+proj=lcc +lat_0=41.75\0\0\0\0\0\0\0\0".to_vec();
    let taken = pdal::marshalled_bytes(&buf, 22).expect("fits");
    assert_eq!(taken, b"+proj=lcc +lat_0=41.75".to_vec());
    let r = pdal::marshalled_bytes(&buf, 256);
    assert!(r.is_err());
    let e = r.err().unwrap();
    assert!(matches!(e, pdal::Error::BufferTooSmall { needed: 256, capacity: 30 }));
    assert_eq!(
        e.message(),
        "native string of 256 bytes exceeds the marshalling buffer of 30 bytes"
    );
}

use pdal::{Config, Error, Feature};

fn sample_config() -> Config {
    Config::new(
        2,
        6,
        2,
        String::from("6537ff2731e44b9b9b95350fdf6cdeb84b23d64c"),
        String::from("/usr/local/lib/pdal/plugins"),
        vec![Feature::LAZPERF, Feature::ZSTD],
    )
    .expect("config")
}

#[test]
fn test_version() {
    let conf = sample_config();
    let major = conf.major;
    let minor = conf.minor;
    let patch = conf.patch;
    let ver_int = conf.version_integer();
    assert_eq!(ver_int, major * 10000 + minor * 100 + patch);
}

#[test]
fn test_version_string() {
    let conf = sample_config();
    let full_version = conf.full_version_string();
    let version = conf.version.clone();
    let sha1 = conf.sha.clone();
    assert!(!full_version.is_empty());
    assert!(!version.is_empty());
    assert!(!sha1.is_empty());
    assert!(full_version.contains(&sha1));
}

#[test]
fn test_feature() {
    let conf = sample_config();
    // Expect at least one of these to be true
    assert!(
        conf.has_feature(Feature::LAZPERF)
            || conf.has_feature(Feature::ZSTD)
            || conf.has_feature(Feature::ZLIB)
            || conf.has_feature(Feature::LZMA)
            || conf.has_feature(Feature::LIBXML2)
    );
}

#[test]
fn test_pdal_config() {
    let conf = Config::new(
        2,
        6,
        2,
        String::from("abc123"),
        String::from("/usr/local/lib/pdal/plugins"),
        Vec::new(),
    )
    .expect("PDAL Config");
    assert_eq!(conf.major, 2);
}

#[test]
fn test_version_rendering() {
    let conf = sample_config();
    assert_eq!(conf.version, "2.6.2");
    assert_eq!(conf.version_integer(), 20602);
    let full = conf.full_version_string();
    assert_eq!(full, "2.6.2 (git-version: 6537ff2731e44b9b9b95350fdf6cdeb84b23d64c)");
}

#[test]
fn test_version_out_of_range() {
    let r = Config::new(2, 600, 2, String::new(), String::new(), Vec::new());
    assert!(r.is_err());
    assert!(matches!(r.err().unwrap(), Error::VersionOutOfRange));
    let r = Config::new(-1, 0, 0, String::new(), String::new(), Vec::new());
    assert!(r.is_err());
    let r = Config::new(214747, 99, 99, String::new(), String::new(), Vec::new());
    assert!(r.is_ok());
}

#[test]
fn test_missing_feature() {
    let conf = Config::new(2, 6, 2, String::from("x"), String::from("y"), vec![Feature::ZLIB])
        .expect("config");
    assert!(conf.has_feature(Feature::ZLIB));
    assert!(!conf.has_feature(Feature::LZMA));
}

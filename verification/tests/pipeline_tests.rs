use pdal::{Error, ExecutedPipeline, PdalJson, Pipeline, PointViewSet};

#[test]
fn test_parse_pipeline() {
    let good = r#"{ "pipeline": [ {"filename":"foobar.las", "spatialreference":"EPSG:2993" } ] }"#;
    let bad = r#"{"pipeline":[{"blah":"foobar.las"}]}"#;

    let r = Pipeline::new(good);
    assert!(r.is_ok(), "Error: {:?}", r.err());

    let r = Pipeline::new(bad);
    assert!(r.is_err());
    assert!(r.err().unwrap().message().contains("reader"));
}

#[test]
fn test_parse_pipeline_array_root() {
    let r = Pipeline::new(r#"[ "autzen_trim.laz", {"type":"filters.stats"} ]"#);
    assert!(r.is_ok(), "Error: {:?}", r.err());
    assert_eq!(r.unwrap().stage_count(), 2);
}

#[test]
fn test_parse_pipeline_explicit_reader() {
    let r = Pipeline::new(r#"{"pipeline":[{"type":"readers.las","filename":"whatever.bin"}]}"#);
    assert!(r.is_ok(), "Error: {:?}", r.err());
    let r = Pipeline::new(r#"{"pipeline":[{"type":"filters.stats","filename":"cloud.las"}]}"#);
    assert!(r.is_err());
    assert!(matches!(r.err().unwrap(), Error::NoReaderStage));
}

#[test]
fn test_parse_pipeline_empty() {
    let r = Pipeline::new(r#"{"pipeline":[]}"#);
    assert!(r.is_err());
    assert!(matches!(r.err().unwrap(), Error::EmptyPipeline));
}

#[test]
fn test_parse_pipeline_unknown_extension() {
    let r = Pipeline::new(r#"{"pipeline":[{"filename":"foobar.xyz"}]}"#);
    assert!(r.is_err());
    assert!(matches!(r.err().unwrap(), Error::NoReaderStage));
}

#[test]
fn test_parse_pipeline_later_stage_unknown() {
    let r = Pipeline::new(r#"{"pipeline":[{"filename":"a.las"},{"count":12}]}"#);
    assert!(r.is_err());
    assert!(matches!(r.err().unwrap(), Error::StageTypeUnknown));
}

#[test]
fn test_parse_pipeline_bad_json() {
    for bad in [
        "",
        "pipeline",
        r#"{"pipeline":"#,
        r#"{"pipeline":[}"#,
        r#"{"pipeline":[{"filename":"a.las"}]} trailing"#,
        r#"{"pipeline":{}}"#,
        r#"{"pipeline":[{"filename":"a.las"}],}"#,
    ] {
        let r = Pipeline::new(bad);
        assert!(r.is_err(), "accepted: {bad}");
        assert!(matches!(r.err().unwrap(), Error::PipelineSyntax), "wrong error for: {bad}");
    }
}

#[test]
fn test_parse_pipeline_rich_options() {
    let text = r#"
    {
      "schema": 7,
      "pipeline": [
        {
          "filename": "autzen_trim.laz",
          "spatialreference": "EPSG:2993"
        },
        {
          "type": "filters.stats",
          "dimensions": ["X", "Y", "Z"],
          "enumerate": null,
          "advanced": { "nested": [1, -2.5e3, true, false] }
        },
        {
          "type": "writers.las",
          "filename": "out.las"
        }
      ]
    }"#;
    let r = Pipeline::new(text);
    assert!(r.is_ok(), "Error: {:?}", r.err());
    let p = r.unwrap();
    assert_eq!(p.stage_count(), 3);
    assert_eq!(p.json(), text);
}

#[test]
fn test_pdal_json() {
    let j = PdalJson::new(r#"{"pipeline":[]}"#);
    assert_eq!(j.as_str(), r#"{"pipeline":[]}"#);
}

#[test]
fn test_executed_pipeline_results() {
    let p = Pipeline::new(r#"{"pipeline":[{"filename":"autzen_trim.laz"}]}"#).unwrap();
    let views = PointViewSet::from_views(Vec::new());
    let done = ExecutedPipeline::from_results(
        p,
        110000,
        views,
        String::from("{\"metadata\":{\"average\":102.5}}"),
        String::from("{\"dimensions\":[]}"),
        String::from("{\"pipeline\":[{\"filename\":\"autzen_trim.laz\"}]}"),
    );
    assert_eq!(done.point_count(), 110000);
    assert!(done.metadata().unwrap().contains("average"));
    assert!(done.schema().unwrap().contains("dimensions"));
    assert!(done.pipeline_json().unwrap().contains("autzen_trim.laz"));
    assert!(done.point_views().is_empty());
}

#[test]
fn test_pdal_json_from_string() {
    let j: PdalJson = String::from(r#"{"pipeline":["a.las"]}"#).into();
    assert_eq!(j.as_str(), r#"{"pipeline":["a.las"]}"#);
}

#[test]
fn test_parsed_stage_contents() {
    let p = Pipeline::new(
        r#"{ "pipeline": [ {"filename":"foobar.las", "spatialreference":"EPSG:2993" },
                           {"type":"filters.stats"} ] }"#,
    )
    .expect("pipeline");
    let stages = p.stages();
    assert_eq!(stages.len(), 2);
    assert_eq!(stages[0].stage_type, None);
    assert_eq!(stages[0].filename, Some(b"foobar.las".to_vec()));
    assert_eq!(stages[1].stage_type, Some(b"filters.stats".to_vec()));
    assert_eq!(stages[1].filename, None);
}

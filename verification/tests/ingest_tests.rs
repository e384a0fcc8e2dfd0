use runner::assemble::{from_measurements, observe, samples_from_measurements};
use runner::discovery::Listing;
use runner::errors::{IOError, RunnerError};
use runner::ingest::{from_json_files, has_json_extension, json_files, Decoded, ResultEntry, ResultFile};
use runner::metric::Metric;
use runner::types::{Measurement, Measurements, Timestamp, Version};

fn file(stem: &str, extension: Option<&str>) -> ResultFile {
    let name = match extension {
        Some(e) => format!("{}.{}", stem, e),
        None => stem.to_string(),
    };
    ResultFile {
        path: format!("out/{}", name),
        stem: stem.to_string(),
        extension: extension.map(|e| e.to_string()),
    }
}

fn measurement(command: &str, mean: f64) -> Measurement {
    Measurement {
        command: command.to_string(),
        mean: mean.to_bits(),
        stddev: 0.25f64.to_bits(),
        median: mean.to_bits(),
        user: 1.0f64.to_bits(),
        system: 0.5f64.to_bits(),
        min: 1.0f64.to_bits(),
        max: 2.0f64.to_bits(),
        times: vec![1.0f64.to_bits(), 2.0f64.to_bits()],
    }
}

fn report(command: &str, mean: f64) -> Measurements {
    Measurements { results: vec![measurement(command, mean)] }
}

fn json_diagnostic(text: &str) -> Option<String> {
    match serde_json::from_str::<serde_json::Value>(text) {
        Ok(_) => None,
        Err(e) => Some(e.to_string()),
    }
}

#[test]
fn the_extension_is_tested_by_its_end() {
    assert!(has_json_extension(&file("a___b", Some("json"))));
    assert!(has_json_extension(&file("a___b", Some("xjson"))));
    assert!(!has_json_extension(&file("a___b", Some("json5"))));
    assert!(!has_json_extension(&file("a___b", Some("JSON"))));
    assert!(!has_json_extension(&file("a___b", Some("txt"))));
    assert!(!has_json_extension(&file("a___b", None)));
}

#[test]
fn the_reports_of_a_listing_keep_their_order() {
    let listing = Listing::Entries(vec![
        ResultEntry::File(file("z___p", Some("json"))),
        ResultEntry::File(file("notes", Some("txt"))),
        ResultEntry::File(file("a___p", Some("json"))),
        ResultEntry::File(file("README", None)),
    ]);
    assert_eq!(
        json_files("out", &listing),
        Ok(vec![file("z___p", Some("json")), file("a___p", Some("json"))])
    );
}

#[test]
fn an_empty_listing_has_no_reports() {
    let listing: Listing<ResultEntry> = Listing::Entries(vec![]);
    assert_eq!(json_files("out", &listing), Ok(vec![]));
}

#[test]
fn a_results_directory_that_cannot_be_listed_is_a_read_error() {
    let listing: Listing<ResultEntry> = Listing::Failed(Some("no such directory".to_string()));
    assert_eq!(
        json_files("out", &listing),
        Err(RunnerError::RunnerIOError(IOError::ReadErr(
            "out".to_string(),
            Some("no such directory".to_string())
        )))
    );
}

#[test]
fn an_unreadable_entry_fails_the_listing_even_after_reports() {
    let listing = Listing::Entries(vec![
        ResultEntry::File(file("a___p", Some("json"))),
        ResultEntry::Unreadable(Some("gone".to_string())),
    ]);
    assert_eq!(
        json_files("out", &listing),
        Err(RunnerError::RunnerIOError(IOError::ReadErr("out".to_string(), Some("gone".to_string()))))
    );
}

#[test]
fn every_decoded_file_is_kept_in_order() {
    let read = vec![
        (file("b___p", Some("json")), Decoded::Parsed(report("b", 2.0))),
        (file("a___p", Some("json")), Decoded::Parsed(report("a", 1.0))),
    ];
    assert_eq!(
        from_json_files(read),
        Ok(vec![
            (file("b___p", Some("json")), report("b", 2.0)),
            (file("a___p", Some("json")), report("a", 1.0)),
        ])
    );
    let none: Vec<(ResultFile, Decoded<Measurements>)> = vec![];
    assert_eq!(from_json_files(none), Ok(vec![]));
}

#[test]
fn one_file_with_invalid_json_fails_the_ingestion() {
    let diagnostic = json_diagnostic("{ \"results\": [ ");
    assert!(diagnostic.is_some());
    let read = vec![
        (file("a___p", Some("json")), Decoded::Parsed(report("a", 1.0))),
        (file("b___p", Some("json")), Decoded::Malformed(diagnostic.clone())),
        (file("c___p", Some("json")), Decoded::Parsed(report("c", 3.0))),
    ];
    assert_eq!(
        from_json_files(read),
        Err(RunnerError::BadJSONErr("out/b___p.json".to_string(), diagnostic))
    );
}

#[test]
fn one_invalid_file_alone_fails_the_ingestion() {
    let read: Vec<(ResultFile, Decoded<Measurements>)> =
        vec![(file("a___p", Some("json")), Decoded::Malformed(Some("expected value".to_string())))];
    assert_eq!(
        from_json_files(read),
        Err(RunnerError::BadJSONErr("out/a___p.json".to_string(), Some("expected value".to_string())))
    );
}

#[test]
fn a_file_that_is_no_text_fails_the_ingestion() {
    let read = vec![
        (file("a___p", Some("json")), Decoded::Unreadable(Some("invalid utf-8".to_string()))),
        (file("b___p", Some("json")), Decoded::Malformed(None)),
        (file("c___p", Some("json")), Decoded::Parsed(report("c", 3.0))),
    ];
    assert_eq!(
        from_json_files(read),
        Err(RunnerError::RunnerIOError(IOError::BadFileContentsErr(
            "out/a___p.json".to_string(),
            Some("invalid utf-8".to_string())
        )))
    );
}

#[test]
fn a_report_observes_its_metric_and_first_result() {
    let two = Measurements { results: vec![measurement("first", 1.0), measurement("second", 2.0)] };
    assert_eq!(
        observe(file("parse___proj_a", Some("json")), two),
        Ok((
            Metric { name: "parse".to_string(), project_name: "proj_a".to_string() },
            measurement("first", 1.0)
        ))
    );
}

#[test]
fn a_stem_that_names_no_metric_is_an_error() {
    assert_eq!(
        observe(file("parse_proj_a", Some("json")), report("x", 1.0)),
        Err(RunnerError::MetricFilenameParseErr("parse_proj_a".to_string()))
    );
    assert_eq!(
        observe(file("parse_proj_a", Some("json")), Measurements { results: vec![] }),
        Err(RunnerError::MetricFilenameParseErr("parse_proj_a".to_string()))
    );
}

#[test]
fn a_report_without_results_is_an_error() {
    assert_eq!(
        observe(file("parse___proj_a", Some("json")), Measurements { results: vec![] }),
        Err(RunnerError::NoResultsErr("out/parse___proj_a.json".to_string()))
    );
}

#[test]
fn samples_of_one_batch_share_the_timestamp() {
    let ts = Timestamp { secs: 1_620_840_662, nanos: 123_456_789 };
    let ingested = vec![
        (file("parse___b", Some("json")), report("b", 2.0)),
        (file("parse___a", Some("json")), report("a", 1.0)),
        (file("parse___c", Some("json")), report("c", 3.0)),
    ];
    let samples = samples_from_measurements(ingested, ts).unwrap();
    assert_eq!(samples.len(), 3);
    for s in &samples {
        assert_eq!(s.ts, ts);
    }
    assert_eq!(samples[0].metric.project_name, "b");
    assert_eq!(samples[1].metric.project_name, "a");
    assert_eq!(samples[2].metric.project_name, "c");
    assert_eq!(samples[1].measurement, measurement("a", 1.0));
    assert_eq!(f64::from_bits(samples[2].measurement.mean), 3.0);
}

#[test]
fn the_first_bad_report_fails_the_samples() {
    let ts = Timestamp { secs: 1, nanos: 0 };
    let ingested = vec![
        (file("parse___a", Some("json")), report("a", 1.0)),
        (file("parse___b", Some("json")), Measurements { results: vec![] }),
        (file("nothing", Some("json")), report("c", 3.0)),
    ];
    assert_eq!(
        samples_from_measurements(ingested, ts),
        Err(RunnerError::NoResultsErr("out/parse___b.json".to_string()))
    );
}

#[test]
fn no_report_gives_no_sample() {
    assert_eq!(samples_from_measurements(vec![], Timestamp { secs: 1, nanos: 0 }), Ok(vec![]));
}

#[test]
fn a_baseline_without_measurements_is_refused() {
    assert_eq!(
        from_measurements(Version::new(1, 0, 0), vec![], Timestamp { secs: 1, nanos: 0 }),
        Err(RunnerError::BaselineWithNoModelsErr())
    );
}

#[test]
fn models_of_one_baseline_share_the_timestamp() {
    let ts = Timestamp { secs: 1_620_840_662, nanos: 5 };
    let ingested = vec![
        (file("parse___a", Some("json")), report("a", 1.0)),
        (file("parse___b", Some("json")), report("b", 2.0)),
    ];
    let baseline = from_measurements(Version::new(1, 2, 0), ingested, ts).unwrap();
    assert_eq!(baseline.version, Version::new(1, 2, 0));
    assert_eq!(baseline.models.len(), 2);
    for m in &baseline.models {
        assert_eq!(m.ts, ts);
    }
    assert_eq!(baseline.models[0].metric.project_name, "a");
    assert_eq!(baseline.models[1].measurement, measurement("b", 2.0));
}

#[test]
fn a_bad_report_fails_the_baseline() {
    let ingested = vec![(file("parse_a", Some("json")), report("a", 1.0))];
    assert_eq!(
        from_measurements(Version::new(1, 2, 0), ingested, Timestamp { secs: 1, nanos: 0 }),
        Err(RunnerError::MetricFilenameParseErr("parse_a".to_string()))
    );
}

#[test]
fn ingestion_takes_any_decoded_value() {
    let read: Vec<(ResultFile, Decoded<u32>)> = vec![
        (file("a___p", Some("json")), Decoded::Parsed(7)),
        (file("b___p", Some("json")), Decoded::Parsed(3)),
    ];
    assert_eq!(
        from_json_files(read),
        Ok(vec![(file("a___p", Some("json")), 7), (file("b___p", Some("json")), 3)])
    );
    let read: Vec<(ResultFile, Decoded<String>)> = vec![
        (file("a___p", Some("json")), Decoded::Parsed("x".to_string())),
        (file("b___p", Some("json")), Decoded::Unreadable(None)),
    ];
    assert_eq!(
        from_json_files(read),
        Err(RunnerError::RunnerIOError(IOError::BadFileContentsErr(
            "out/b___p.json".to_string(),
            None
        )))
    );
}

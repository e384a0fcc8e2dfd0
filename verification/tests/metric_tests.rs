use runner::catalog::metrics;
use runner::errors::RunnerError;
use runner::metric::Metric;
use runner::text::{decimal_string, ends_with, join3};
use runner::types::Version;

fn metric(name: &str, project_name: &str) -> Metric {
    Metric { name: name.to_string(), project_name: project_name.to_string() }
}

#[test]
fn separator_is_three_underscores() {
    assert_eq!(Metric::sep(), "___");
}

#[test]
fn filename_joins_name_and_project() {
    assert_eq!(metric("parse", "proj_a").filename(), "parse___proj_a");
    assert_eq!(metric("", "").filename(), "___");
}

#[test]
fn json_filename_adds_the_extension() {
    assert_eq!(metric("parse", "proj_a").json_filename(), "parse___proj_a.json");
    assert_eq!(metric("parse", "my.proj").json_filename(), "parse___my.proj.json");
}

#[test]
fn parse_undoes_filename() {
    let m = metric("parse", "2000_models");
    assert_eq!(Metric::from_str(&m.filename()), Ok(m));
    let m = metric("_lead", "_lead");
    assert_eq!(Metric::from_str(&m.filename()), Ok(m));
    let m = metric("a__b", "c__d_");
    assert_eq!(Metric::from_str(&m.filename()), Ok(m));
    let m = metric("", "");
    assert_eq!(Metric::from_str(&m.filename()), Ok(m));
    let m = metric("mesure", "projet_\u{e9}t\u{e9}");
    assert_eq!(Metric::from_str(&m.filename()), Ok(m));
}

#[test]
fn parse_reads_a_stem() {
    assert_eq!(Metric::from_str("parse___proj_a"), Ok(metric("parse", "proj_a")));
    assert_eq!(Metric::from_str("___"), Ok(metric("", "")));
    assert_eq!(Metric::from_str("a___"), Ok(metric("a", "")));
    assert_eq!(Metric::from_str("___b"), Ok(metric("", "b")));
}

#[test]
fn a_stem_parses_as_text_does() {
    assert_eq!("parse___proj_a".parse::<Metric>(), Ok(metric("parse", "proj_a")));
    assert_eq!(
        "parse".parse::<Metric>(),
        Err(RunnerError::MetricFilenameParseErr("parse".to_string()))
    );
}

#[test]
fn parse_refuses_a_stem_without_separator() {
    assert_eq!(
        Metric::from_str("parse_proj"),
        Err(RunnerError::MetricFilenameParseErr("parse_proj".to_string()))
    );
    assert_eq!(Metric::from_str(""), Err(RunnerError::MetricFilenameParseErr(String::new())));
    assert_eq!(Metric::from_str("a__b"), Err(RunnerError::MetricFilenameParseErr("a__b".to_string())));
}

#[test]
fn parse_refuses_a_stem_with_two_separators() {
    assert_eq!(
        Metric::from_str("a___b___c"),
        Err(RunnerError::MetricFilenameParseErr("a___b___c".to_string()))
    );
    assert_eq!(
        Metric::from_str("a______b"),
        Err(RunnerError::MetricFilenameParseErr("a______b".to_string()))
    );
}

#[test]
fn parse_cuts_at_the_leftmost_separator() {
    assert_eq!(Metric::from_str("a____b"), Ok(metric("a", "_b")));
    assert_eq!(Metric::from_str("a_____b"), Ok(metric("a", "__b")));
}

#[test]
fn trailing_underscore_in_a_name_is_not_recovered() {
    let m = metric("a_", "b");
    assert_eq!(m.filename(), "a____b");
    assert_eq!(Metric::from_str(&m.filename()), Ok(metric("a", "_b")));
    assert_ne!(Metric::from_str(&m.filename()), Ok(m));
}

#[test]
fn catalog_holds_the_parse_metric() {
    let catalog = metrics();
    assert_eq!(catalog.len(), 1);
    assert_eq!(catalog[0].name, "parse");
    assert_eq!(catalog[0].prepare, "rm -rf target/");
    assert_eq!(catalog[0].cmd, "dbt parse --no-version-check");
}

#[test]
fn decimal_notation() {
    assert_eq!(decimal_string(0), "0");
    assert_eq!(decimal_string(7), "7");
    assert_eq!(decimal_string(10), "10");
    assert_eq!(decimal_string(20), "20");
    assert_eq!(decimal_string(-1), "-1");
    assert_eq!(decimal_string(-305), "-305");
    assert_eq!(decimal_string(i32::MAX), "2147483647");
    assert_eq!(decimal_string(i32::MIN), "-2147483648");
}

#[test]
fn decimal_notation_agrees_with_std() {
    let mut n: i32 = -5000;
    while n <= 5000 {
        assert_eq!(decimal_string(n), n.to_string());
        n += 7;
    }
}

#[test]
fn version_as_text() {
    assert_eq!(Version::new(1, 2, 0).to_string(), "1.2.0");
    assert_eq!(Version::new(0, 21, 13).to_string(), "0.21.13");
    assert_eq!(Version { major: 10, minor: 0, patch: -1 }.to_string(), "10.0.-1");
}

#[test]
fn versions_are_ordered_by_their_numbers() {
    assert!(Version::new(1, 2, 0) < Version::new(1, 10, 0));
    assert!(Version::new(1, 2, 3) < Version::new(2, 0, 0));
    assert!(Version::new(1, 2, 3) < Version::new(1, 2, 4));
    assert_eq!(Version::new(1, 2, 3), Version::new(1, 2, 3));
}

#[test]
fn suffix_test() {
    assert!(ends_with("json", "json"));
    assert!(ends_with("xjson", "json"));
    assert!(ends_with("anything", ""));
    assert!(!ends_with("json5", "json"));
    assert!(!ends_with("son", "json"));
    assert!(!ends_with("", "json"));
    assert!(!ends_with("JSON", "json"));
}

#[test]
fn joining_three_texts() {
    assert_eq!(join3("a", "___", "b"), "a___b");
    assert_eq!(join3("", "", ""), "");
}

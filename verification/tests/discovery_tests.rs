use runner::catalog::{metrics, HyperfineCmd};
use runner::discovery::{get_projects, Listing, ProjectEntry, WorkUnit};
use runner::engine::{check_engine, invocation, Argument, EngineOutcome};
use runner::errors::{IOError, RunnerError};

fn project(name: &str) -> ProjectEntry {
    ProjectEntry::Project(format!("projects/{}", name), name.to_string())
}

fn unit(name: &str, cmd: HyperfineCmd<'static>) -> WorkUnit<'static> {
    WorkUnit { project_path: format!("projects/{}", name), project_name: name.to_string(), cmd }
}

fn two_metrics() -> Vec<HyperfineCmd<'static>> {
    vec![
        HyperfineCmd { name: "parse", prepare: "rm -rf target/", cmd: "dbt parse" },
        HyperfineCmd { name: "compile", prepare: "true", cmd: "dbt compile" },
    ]
}

#[test]
fn one_unit_for_each_project_and_metric() {
    let catalog = two_metrics();
    let listing = Listing::Entries(vec![project("a"), project("b"), project("c")]);
    let units = get_projects("projects", &listing, &catalog).unwrap();
    assert_eq!(units.len(), 3 * 2);
    let names = ["a", "b", "c"];
    for i in 0..3 {
        for j in 0..2 {
            assert_eq!(units[i * 2 + j], unit(names[i], catalog[j]));
        }
    }
}

#[test]
fn one_project_and_the_catalog_give_one_unit() {
    let listing = Listing::Entries(vec![project("proj_a")]);
    let units = get_projects("projects", &listing, &metrics()).unwrap();
    assert_eq!(units.len(), 1);
    assert_eq!(units[0].project_path, "projects/proj_a");
    assert_eq!(units[0].project_name, "proj_a");
    assert_eq!(units[0].cmd.name, "parse");
}

#[test]
fn no_project_or_no_metric_gives_no_unit() {
    let empty: Listing<ProjectEntry> = Listing::Entries(vec![]);
    assert_eq!(get_projects("projects", &empty, &metrics()), Ok(vec![]));
    let listing = Listing::Entries(vec![project("a"), project("b")]);
    assert_eq!(get_projects("projects", &listing, &vec![]), Ok(vec![]));
}

#[test]
fn entries_that_are_no_directories_are_passed_over() {
    let listing = Listing::Entries(vec![
        ProjectEntry::NotDirectory,
        project("a"),
        ProjectEntry::NotDirectory,
        project("b"),
    ]);
    let units = get_projects("projects", &listing, &metrics()).unwrap();
    assert_eq!(units.len(), 2);
    assert_eq!(units[0].project_name, "a");
    assert_eq!(units[1].project_name, "b");
}

#[test]
fn a_directory_that_cannot_be_listed_is_a_read_error() {
    let listing: Listing<ProjectEntry> = Listing::Failed(Some("denied".to_string()));
    assert_eq!(
        get_projects("projects", &listing, &metrics()),
        Err(IOError::ReadErr("projects".to_string(), Some("denied".to_string())))
    );
    let listing: Listing<ProjectEntry> = Listing::Failed(None);
    assert_eq!(
        get_projects("projects", &listing, &metrics()),
        Err(IOError::ReadErr("projects".to_string(), None))
    );
}

#[test]
fn an_entry_that_cannot_be_read_is_a_read_error() {
    let listing = Listing::Entries(vec![
        project("a"),
        ProjectEntry::Unreadable(Some("gone".to_string())),
        project("b"),
    ]);
    assert_eq!(
        get_projects("projects", &listing, &metrics()),
        Err(IOError::ReadErr("projects".to_string(), Some("gone".to_string())))
    );
}

#[test]
fn a_directory_without_a_name_is_an_error() {
    let listing = Listing::Entries(vec![project("a"), ProjectEntry::NoFileName("projects/..".to_string())]);
    assert_eq!(
        get_projects("projects", &listing, &metrics()),
        Err(IOError::MissingFilenameErr("projects/..".to_string()))
    );
}

#[test]
fn a_name_that_is_not_unicode_is_an_error_and_not_passed_over() {
    let listing = Listing::Entries(vec![
        project("a"),
        ProjectEntry::NotUnicode("projects/\u{fffd}".to_string()),
        project("b"),
    ]);
    assert_eq!(
        get_projects("projects", &listing, &metrics()),
        Err(IOError::FilenameNotUnicodeErr("projects/\u{fffd}".to_string()))
    );
}

#[test]
fn the_first_entry_that_cannot_be_used_decides() {
    let listing = Listing::Entries(vec![
        ProjectEntry::NotUnicode("x".to_string()),
        ProjectEntry::Unreadable(None),
        ProjectEntry::NoFileName("y".to_string()),
    ]);
    assert_eq!(
        get_projects("projects", &listing, &metrics()),
        Err(IOError::FilenameNotUnicodeErr("x".to_string()))
    );
}

#[test]
fn invocation_of_the_parse_metric() {
    let inv = invocation(&unit("proj_a", metrics()[0]), 1);
    assert_eq!(inv.run_dir, "projects/proj_a");
    assert_eq!(inv.command, "dbt parse --no-version-check --profiles-dir ../../project_config/");
    assert_eq!(inv.prepare, "rm -rf target/");
    assert_eq!(inv.runs, 1);
    assert_eq!(inv.output_file, "parse___proj_a.json");
}

#[test]
fn arguments_pin_both_repetition_counts() {
    let inv = invocation(&unit("proj_a", metrics()[0]), 20);
    let text = |t: &str| Argument::Text(t.to_string());
    assert_eq!(
        inv.arguments(),
        vec![
            text("--warmup"),
            text("1"),
            text("--min-runs"),
            text("20"),
            text("--max-runs"),
            text("20"),
            text("--prepare"),
            text("rm -rf target/"),
            text("dbt parse --no-version-check --profiles-dir ../../project_config/"),
            text("--export-json"),
            Argument::ExportPath,
            text("--show-output"),
        ]
    );
}

#[test]
fn the_export_path_stands_once_after_its_option() {
    let inv = invocation(&unit("proj_a", metrics()[0]), -3);
    let args = inv.arguments();
    assert_eq!(args.iter().filter(|a| **a == Argument::ExportPath).count(), 1);
    assert_eq!(args[3], Argument::Text("-3".to_string()));
    assert_eq!(args[5], Argument::Text("-3".to_string()));
}

#[test]
fn an_exit_code_other_than_zero_is_an_error_with_the_code() {
    assert_eq!(
        check_engine(EngineOutcome::Exited(Some(2))),
        Err(RunnerError::HyperfineNonZeroExitCode(2))
    );
    assert_eq!(
        check_engine(EngineOutcome::Exited(Some(-1))),
        Err(RunnerError::HyperfineNonZeroExitCode(-1))
    );
}

#[test]
fn an_exit_with_zero_or_without_code_is_no_error() {
    assert_eq!(check_engine(EngineOutcome::Exited(Some(0))), Ok(()));
    assert_eq!(check_engine(EngineOutcome::Exited(None)), Ok(()));
}

#[test]
fn a_launch_that_failed_is_a_command_error() {
    assert_eq!(
        check_engine(EngineOutcome::LaunchFailed(Some("not found".to_string()))),
        Err(RunnerError::RunnerIOError(IOError::CommandErr(Some("not found".to_string()))))
    );
}

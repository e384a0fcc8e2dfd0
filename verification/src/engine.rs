//! How the benchmarking engine is called for one work unit, and what its
//! exit means for the run.

use crate::discovery::{WorkUnit, WorkUnitView};
use crate::errors::{IOError, IOErrorView, RunnerError, RunnerErrorView};
use crate::catalog::catalog;
use crate::metric::{
    canonical_filename, has_separator, json_suffix, lemma_parse_filename_round_trip,
    parse_filename, separator_at, Metric, MetricView,
};
use crate::text::{decimal, decimal_string};
use vstd::prelude::*;
use vstd::string::*;

verus! {

/// One call of the engine: the directory to run in, the command to time,
/// the command to run before each repetition, the number of repetitions,
/// and the name of the file that the report goes to.
#[derive(Debug, Clone, PartialEq, Eq)]
pub struct Invocation {
    pub run_dir: String,
    pub command: String,
    pub prepare: String,
    pub runs: i32,
    pub output_file: String,
}

/// The mathematical view of [`Invocation`]: every text as its sequence of characters.
pub struct InvocationView {
    pub run_dir: Seq<char>,
    pub command: Seq<char>,
    pub prepare: Seq<char>,
    pub runs: i32,
    pub output_file: Seq<char>,
}

impl View for Invocation {
    type V = InvocationView;

    open spec fn view(&self) -> InvocationView {
        InvocationView {
            run_dir: self.run_dir@,
            command: self.command@,
            prepare: self.prepare@,
            runs: self.runs,
            output_file: self.output_file@,
        }
    }
}

impl DeepView for Invocation {
    type V = InvocationView;

    open spec fn deep_view(&self) -> InvocationView {
        self.view()
    }
}

/// What is appended to a catalog command: the profile directory, two levels
/// above the project.
pub open spec fn profiles_option() -> Seq<char> {
    " --profiles-dir ../../project_config/"@
}

/// The metric that a work unit measures.
pub open spec fn metric_of(unit: WorkUnitView) -> MetricView {
    MetricView { name: unit.cmd.name, project_name: unit.project_name }
}

/// The call of the engine for `unit`, with `runs` repetitions: it runs in
/// the project's directory, and the report goes to the file named after
/// the unit's metric.
pub open spec fn invocation_of(unit: WorkUnitView, runs: i32) -> InvocationView {
    InvocationView {
        run_dir: unit.project_path,
        command: unit.cmd.cmd + profiles_option(),
        prepare: unit.cmd.prepare,
        runs,
        output_file: canonical_filename(metric_of(unit)) + json_suffix(),
    }
}

/// One argument of the engine.
#[derive(Debug, Clone, PartialEq, Eq)]
pub enum Argument {
    Text(String),
    /// The path of the file that the report is exported to: that of
    /// `output_file` in the directory that takes the reports. It is put in
    /// by whoever launches the engine, as the system has it.
    ExportPath,
}

/// The mathematical view of [`Argument`]: every text as its sequence of characters.
pub enum ArgumentView {
    Text(Seq<char>),
    ExportPath,
}

impl View for Argument {
    type V = ArgumentView;

    open spec fn view(&self) -> ArgumentView {
        match self {
            Argument::Text(text) => ArgumentView::Text(text@),
            Argument::ExportPath => ArgumentView::ExportPath,
        }
    }
}

impl DeepView for Argument {
    type V = ArgumentView;

    open spec fn deep_view(&self) -> ArgumentView {
        self.view()
    }
}

/// The arguments of the engine: one warm-up run that is not counted, the
/// least and the greatest number of repetitions both set to `runs`, the
/// command to run before each repetition, the timed command, the file to
/// export to, and the commands' output shown.
pub open spec fn hyperfine_arguments(inv: InvocationView) -> Seq<ArgumentView> {
    seq![
        ArgumentView::Text("--warmup"@),
        ArgumentView::Text("1"@),
        ArgumentView::Text("--min-runs"@),
        ArgumentView::Text(decimal(inv.runs as int)),
        ArgumentView::Text("--max-runs"@),
        ArgumentView::Text(decimal(inv.runs as int)),
        ArgumentView::Text("--prepare"@),
        ArgumentView::Text(inv.prepare),
        ArgumentView::Text(inv.command),
        ArgumentView::Text("--export-json"@),
        ArgumentView::ExportPath,
        ArgumentView::Text("--show-output"@),
    ]
}

/// The names of the catalog are safe in file names: for every entry of the
/// catalog and every project whose name holds no separator, the metric is
/// read back from the stem of its report.
pub proof fn lemma_catalog_metrics_are_recovered(unit: WorkUnitView)
    requires
        catalog().contains(unit.cmd),
        !has_separator(unit.project_name),
    ensures
        parse_filename(canonical_filename(metric_of(unit))) == Some(metric_of(unit)),
{
    reveal_strlit("parse");
    let name = unit.cmd.name;
    assert(name == "parse"@) by {
        let i = choose|i: int| 0 <= i < catalog().len() && catalog()[i] == unit.cmd;
        assert(i == 0);
    }
    assert(!has_separator(name)) by {
        assert forall|i: int| !separator_at(name, i) by {}
    }
    assert(name.last() == 'e');
    lemma_parse_filename_round_trip(metric_of(unit));
}

/// The call of the engine for `unit`, with `runs` repetitions.
pub fn invocation(unit: &WorkUnit<'_>, runs: i32) -> (r: Invocation)
    ensures
        r@ == invocation_of(unit@, runs),
{
    let metric = Metric {
        name: String::from_str(unit.cmd.name),
        project_name: unit.project_name.clone(),
    };
    let mut command = String::from_str(unit.cmd.cmd);
    command.append(" --profiles-dir ../../project_config/");
    Invocation {
        run_dir: unit.project_path.clone(),
        command,
        prepare: String::from_str(unit.cmd.prepare),
        runs,
        output_file: metric.json_filename(),
    }
}

impl Invocation {
    /// The engine's arguments for this call, in order.
    pub fn arguments(&self) -> (r: Vec<Argument>)
        ensures
            r.deep_view() == hyperfine_arguments(self@),
    {
        let mut r: Vec<Argument> = Vec::new();
        r.push(Argument::Text(String::from_str("--warmup")));
        r.push(Argument::Text(String::from_str("1")));
        r.push(Argument::Text(String::from_str("--min-runs")));
        r.push(Argument::Text(decimal_string(self.runs)));
        r.push(Argument::Text(String::from_str("--max-runs")));
        r.push(Argument::Text(decimal_string(self.runs)));
        r.push(Argument::Text(String::from_str("--prepare")));
        r.push(Argument::Text(self.prepare.clone()));
        r.push(Argument::Text(self.command.clone()));
        r.push(Argument::Text(String::from_str("--export-json")));
        r.push(Argument::ExportPath);
        r.push(Argument::Text(String::from_str("--show-output")));
        assert(r.deep_view() =~= hyperfine_arguments(self@));
        r
    }
}

/// How a call of the engine ended: it could not be launched, or it ran and
/// exited, with a code unless a signal ended it.
#[derive(Debug, Clone, PartialEq, Eq)]
pub enum EngineOutcome {
    LaunchFailed(Option<String>),
    Exited(Option<i32>),
}

/// The mathematical view of [`EngineOutcome`]: every text as its sequence of characters.
pub enum EngineOutcomeView {
    LaunchFailed(Option<Seq<char>>),
    Exited(Option<i32>),
}

impl View for EngineOutcome {
    type V = EngineOutcomeView;

    open spec fn view(&self) -> EngineOutcomeView {
        match self {
            EngineOutcome::LaunchFailed(cause) => EngineOutcomeView::LaunchFailed(
                cause.deep_view(),
            ),
            EngineOutcome::Exited(code) => EngineOutcomeView::Exited(*code),
        }
    }
}

impl DeepView for EngineOutcome {
    type V = EngineOutcomeView;

    open spec fn deep_view(&self) -> EngineOutcomeView {
        self.view()
    }
}

/// The error that an outcome of the engine ends the run with, if any: a
/// failed launch, or an exit code other than zero.
pub open spec fn engine_failure(outcome: EngineOutcomeView) -> Option<RunnerErrorView> {
    match outcome {
        EngineOutcomeView::LaunchFailed(cause) => Some(
            RunnerErrorView::RunnerIOError(IOErrorView::CommandErr(cause)),
        ),
        EngineOutcomeView::Exited(Some(code)) => if code != 0 {
            Some(RunnerErrorView::HyperfineNonZeroExitCode(code))
        } else {
            None
        },
        EngineOutcomeView::Exited(None) => None,
    }
}

/// Judges how a call of the engine ended. A failed launch and an exit code
/// other than zero are errors; the latter carries the code.
pub fn check_engine(outcome: EngineOutcome) -> (r: Result<(), RunnerError>)
    ensures
        match engine_failure(outcome@) {
            Some(e) => r is Err && r->Err_0@ == e,
            None => r is Ok,
        },
{
    match outcome {
        EngineOutcome::LaunchFailed(cause) => Err(
            RunnerError::RunnerIOError(IOError::CommandErr(cause)),
        ),
        EngineOutcome::Exited(Some(code)) => {
            if code != 0 {
                Err(RunnerError::HyperfineNonZeroExitCode(code))
            } else {
                Ok(())
            }
        },
        EngineOutcome::Exited(None) => Ok(()),
    }
}

} // verus!

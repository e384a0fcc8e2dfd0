//! The two runs, sampling and modeling, as state machines. A run says what
//! is to be done next; whoever drives it does that and reports what came of
//! it. The run itself touches nothing but the clock.

use crate::assemble::{baseline_of, from_measurements, samples_from_measurements, samples_of};
use crate::catalog::{HyperfineCmd, HyperfineCmdView};
use crate::discovery::{discover, get_projects, WorkUnit, WorkUnitView};
use crate::engine::{check_engine, engine_failure, invocation, invocation_of, EngineOutcomeView};
use crate::errors::{IOError, IOErrorView, RunnerError, RunnerErrorView};
use crate::events::{
    Action, ActionView, CreateOutcome, CreateOutcomeView, Event, EventView, RemoveOutcome,
    RemoveOutcomeView, WriteOutcome, WriteOutcomeView,
};
use crate::ingest::{
    decoded_views, files_kept, files_read, from_json_files, ingest, json_files, json_listing,
    kept_views, lemma_ingest_of_views, DecodedView, ResultFile, ResultFileView,
};
use crate::metric::{canonical_filename, json_suffix};
use crate::text::deep_result;
use crate::types::{
    version_text, Baseline, BaselineView, Measurements, MeasurementsView, Sample, SampleView,
    Timestamp, Version,
};
use vstd::prelude::*;
use vstd::string::*;

verus! {

/// What stays the same through a run: the projects directory and the
/// directory that takes the engine's reports, both as text for error
/// reports, the catalog, and the number of timed repetitions.
#[derive(Debug, Clone, PartialEq, Eq)]
pub struct Settings<'a> {
    pub projects_dir: String,
    pub results_dir: String,
    pub catalog: Vec<HyperfineCmd<'a>>,
    pub runs: i32,
}

/// The mathematical view of [`Settings`]: every text as its sequence of characters.
pub struct SettingsView {
    pub projects_dir: Seq<char>,
    pub results_dir: Seq<char>,
    pub catalog: Seq<HyperfineCmdView>,
    pub runs: i32,
}

impl<'a> View for Settings<'a> {
    type V = SettingsView;

    open spec fn view(&self) -> SettingsView {
        SettingsView {
            projects_dir: self.projects_dir@,
            results_dir: self.results_dir@,
            catalog: self.catalog.deep_view(),
            runs: self.runs,
        }
    }
}

/// Where the part that both runs share stands: from the listing of the
/// projects to the reports read.
#[derive(Debug, Clone, PartialEq, Eq)]
pub enum Collecting<'a> {
    /// The projects are being listed.
    Discovering,
    /// The engine runs on the first of these units; the others wait.
    Running(Vec<WorkUnit<'a>>),
    /// The results directory is being listed.
    Listing,
    /// The reports are being read.
    Reading,
}

/// The mathematical view of [`Collecting`]: every text as its sequence of characters.
pub enum CollectingView {
    Discovering,
    Running(Seq<WorkUnitView>),
    Listing,
    Reading,
}

impl<'a> View for Collecting<'a> {
    type V = CollectingView;

    open spec fn view(&self) -> CollectingView {
        match self {
            Collecting::Discovering => CollectingView::Discovering,
            Collecting::Running(units) => CollectingView::Running(units.deep_view()),
            Collecting::Listing => CollectingView::Listing,
            Collecting::Reading => CollectingView::Reading,
        }
    }
}

/// What one step of the shared part comes to.
pub enum Collected<'a> {
    /// It goes on, with this action.
    Next(Collecting<'a>, Action),
    /// Every report is read.
    Done(Vec<(ResultFile, Measurements)>),
    Failed(RunnerError),
}

/// The mathematical view of [`Collected`]: every text as its sequence of characters.
pub enum CollectedView {
    Next(CollectingView, ActionView),
    Done(Seq<(ResultFileView, MeasurementsView)>),
    Failed(RunnerErrorView),
}

impl<'a> View for Collected<'a> {
    type V = CollectedView;

    open spec fn view(&self) -> CollectedView {
        match self {
            Collected::Next(stage, action) => CollectedView::Next(stage@, action@),
            Collected::Done(ingested) => CollectedView::Done(ingested.deep_view()),
            Collected::Failed(e) => CollectedView::Failed(e@),
        }
    }
}

/// With `units` still to run: the engine is called on the first, or, when
/// none is left, the results are listed.
pub open spec fn run_or_list(settings: SettingsView, units: Seq<WorkUnitView>) -> CollectedView {
    if units.len() == 0 {
        CollectedView::Next(CollectingView::Listing, ActionView::ListResults)
    } else {
        CollectedView::Next(
            CollectingView::Running(units),
            ActionView::RunEngine(invocation_of(units[0], settings.runs)),
        )
    }
}

/// One step of the part that both runs share.
///
/// The projects listed, the engine is run on each work unit in turn, and a
/// unit is started only when the one before it has ended well: a launch
/// that failed or an exit code other than zero ends the run. The last unit
/// done, the results directory is listed and its reports are read. An
/// event that does not answer the pending action ends the run.
pub open spec fn collect_step(settings: SettingsView, stage: CollectingView, event: EventView) -> CollectedView {
    match stage {
        CollectingView::Discovering => match event {
            EventView::ProjectsListed(listing) => match discover(
                settings.projects_dir,
                listing,
                settings.catalog,
            ) {
                Err(e) => CollectedView::Failed(RunnerErrorView::RunnerIOError(e)),
                Ok(units) => run_or_list(settings, units),
            },
            _ => CollectedView::Failed(RunnerErrorView::UnexpectedEventErr()),
        },
        CollectingView::Running(units) => match event {
            EventView::EngineExited(outcome) => match engine_failure(outcome) {
                Some(e) => CollectedView::Failed(e),
                None => run_or_list(
                    settings,
                    if units.len() == 0 {
                        units
                    } else {
                        units.drop_first()
                    },
                ),
            },
            _ => CollectedView::Failed(RunnerErrorView::UnexpectedEventErr()),
        },
        CollectingView::Listing => match event {
            EventView::ResultsListed(listing) => match json_listing(settings.results_dir, listing) {
                Err(e) => CollectedView::Failed(e),
                Ok(files) => CollectedView::Next(
                    CollectingView::Reading,
                    ActionView::ReadResults(files),
                ),
            },
            _ => CollectedView::Failed(RunnerErrorView::UnexpectedEventErr()),
        },
        CollectingView::Reading => match event {
            EventView::ResultsRead(read) => match ingest(read) {
                Err(e) => CollectedView::Failed(e),
                Ok(ingested) => CollectedView::Done(ingested),
            },
            _ => CollectedView::Failed(RunnerErrorView::UnexpectedEventErr()),
        },
    }
}

fn next_unit<'a>(settings: &Settings<'a>, units: Vec<WorkUnit<'a>>) -> (r: Collected<'a>)
    ensures
        r@ == run_or_list(settings@, units.deep_view()),
{
    if units.len() == 0 {
        Collected::Next(Collecting::Listing, Action::ListResults)
    } else {
        let inv = invocation(&units[0], settings.runs);
        Collected::Next(Collecting::Running(units), Action::RunEngine(inv))
    }
}

/// One step of the part that both runs share: see `collect_step`.
pub fn collect<'a>(settings: &Settings<'a>, stage: Collecting<'a>, event: Event) -> (r: Collected<
    'a,
>)
    ensures
        r@ == collect_step(settings@, stage@, event@),
{
    match stage {
        Collecting::Discovering => match event {
            Event::ProjectsListed(listing) => {
                match get_projects(settings.projects_dir.as_str(), &listing, &settings.catalog) {
                    Err(e) => Collected::Failed(RunnerError::RunnerIOError(e)),
                    Ok(units) => next_unit(settings, units),
                }
            },
            _ => Collected::Failed(RunnerError::UnexpectedEventErr()),
        },
        Collecting::Running(units) => match event {
            Event::EngineExited(outcome) => {
                match check_engine(outcome) {
                    Err(e) => Collected::Failed(e),
                    Ok(_) => {
                        let mut rest = units;
                        if rest.len() > 0 {
                            rest.remove(0);
                            assert(rest.deep_view() =~= units.deep_view().drop_first());
                        }
                        next_unit(settings, rest)
                    },
                }
            },
            _ => Collected::Failed(RunnerError::UnexpectedEventErr()),
        },
        Collecting::Listing => match event {
            Event::ResultsListed(listing) => {
                match json_files(settings.results_dir.as_str(), &listing) {
                    Err(e) => Collected::Failed(e),
                    Ok(files) => Collected::Next(Collecting::Reading, Action::ReadResults(files)),
                }
            },
            _ => Collected::Failed(RunnerError::UnexpectedEventErr()),
        },
        Collecting::Reading => match event {
            Event::ResultsRead(read) => {
                proof {
                    lemma_ingest_of_views(files_read(read@));
                    assert(read.deep_view() =~= decoded_views(files_read(read@)));
                }
                match from_json_files(read) {
                    Err(e) => Collected::Failed(e),
                    Ok(ingested) => {
                        assert(ingested.deep_view() =~= kept_views(files_kept(ingested@)));
                        Collected::Done(ingested)
                    },
                }
            },
            _ => Collected::Failed(RunnerError::UnexpectedEventErr()),
        },
    }
}

/// Where a sampling run stands.
#[derive(Debug)]
pub enum SampleStage<'a> {
    /// The output directory is being removed.
    Removing,
    /// The output directory is being created.
    Creating,
    /// The reports are being collected; the time is that of the batch.
    Collecting(Timestamp, Collecting<'a>),
    Finished(Result<Vec<Sample>, RunnerError>),
}

/// The mathematical view of [`SampleStage`]: every text as its sequence of characters.
pub enum SampleStageView {
    Removing,
    Creating,
    Collecting(Timestamp, CollectingView),
    Finished(Result<Seq<SampleView>, RunnerErrorView>),
}

impl<'a> View for SampleStage<'a> {
    type V = SampleStageView;

    open spec fn view(&self) -> SampleStageView {
        match self {
            SampleStage::Removing => SampleStageView::Removing,
            SampleStage::Creating => SampleStageView::Creating,
            SampleStage::Collecting(ts, stage) => SampleStageView::Collecting(*ts, stage@),
            SampleStage::Finished(r) => SampleStageView::Finished(deep_result(*r)),
        }
    }
}

/// A sampling run: the output directory is made afresh, the engine times
/// every work unit once, and each report becomes a sample.
///
/// A run begins with `new` and goes on by `take_samples`, so that it is
/// always well formed.
#[derive(Debug)]
pub struct SampleRun<'a> {
    settings: Settings<'a>,
    stage: SampleStage<'a>,
}

/// The mathematical view of [`SampleRun`]: every text as its sequence of characters.
pub struct SampleRunView {
    pub settings: SettingsView,
    pub stage: SampleStageView,
}

impl<'a> View for SampleRun<'a> {
    type V = SampleRunView;

    closed spec fn view(&self) -> SampleRunView {
        SampleRunView { settings: self.settings@, stage: self.stage@ }
    }
}

impl SampleRunView {
    /// A sampling run times every unit once, and the samples it ends with
    /// are of one batch: they all carry the same time.
    pub open spec fn well_formed(self) -> bool {
        &&& self.settings.runs == 1
        &&& self.stage matches SampleStageView::Finished(Ok(samples)) ==> forall|i: int, j: int|
            0 <= i < samples.len() && 0 <= j < samples.len() ==> (#[trigger] samples[i]).ts == (
            #[trigger] samples[j]).ts
    }
}

/// The run ends, with this result.
pub open spec fn sampling_ends(run: SampleRunView, result: Result<Seq<SampleView>, RunnerErrorView>) -> (
    SampleRunView,
    ActionView,
) {
    (SampleRunView { settings: run.settings, stage: SampleStageView::Finished(result) }, ActionView::Done)
}

/// The run cannot have its output directory.
pub open spec fn no_output_dir(run: SampleRunView, cause: Seq<char>) -> (SampleRunView, ActionView) {
    sampling_ends(
        run,
        Err(
            RunnerErrorView::RunnerIOError(
                IOErrorView::CannotRecreateTempDirErr(run.settings.results_dir, cause),
            ),
        ),
    )
}

/// One step of a sampling run: where it stands after `event`, and what it
/// asks for next. `now` is the time at the step; it becomes the time of the
/// batch when the output directory has just been created, and is not used
/// otherwise.
///
/// The output directory is removed, which may find none, and created; a
/// removal or a creation that fails ends the run. Then the reports are
/// collected, and each becomes a sample with the time of the batch. A
/// finished run stays as it is.
pub open spec fn sample_step(run: SampleRunView, event: EventView, now: Timestamp) -> (
    SampleRunView,
    ActionView,
) {
    match run.stage {
        SampleStageView::Removing => match event {
            EventView::DirRemoved(RemoveOutcomeView::Failed(cause)) => no_output_dir(run, cause),
            EventView::DirRemoved(_) => (
                SampleRunView { settings: run.settings, stage: SampleStageView::Creating },
                ActionView::CreateOutputDir,
            ),
            _ => sampling_ends(run, Err(RunnerErrorView::UnexpectedEventErr())),
        },
        SampleStageView::Creating => match event {
            EventView::DirCreated(CreateOutcomeView::Created) => (
                SampleRunView {
                    settings: run.settings,
                    stage: SampleStageView::Collecting(now, CollectingView::Discovering),
                },
                ActionView::ListProjects,
            ),
            EventView::DirCreated(CreateOutcomeView::AlreadyExists(cause)) => no_output_dir(
                run,
                cause,
            ),
            EventView::DirCreated(CreateOutcomeView::Failed(_, cause)) => no_output_dir(
                run,
                cause,
            ),
            _ => sampling_ends(run, Err(RunnerErrorView::UnexpectedEventErr())),
        },
        SampleStageView::Collecting(ts, stage) => match collect_step(run.settings, stage, event) {
            CollectedView::Next(next, action) => (
                SampleRunView {
                    settings: run.settings,
                    stage: SampleStageView::Collecting(ts, next),
                },
                action,
            ),
            CollectedView::Done(ingested) => sampling_ends(run, samples_of(ingested, ts)),
            CollectedView::Failed(e) => sampling_ends(run, Err(e)),
        },
        SampleStageView::Finished(_) => (run, ActionView::Done),
    }
}

/// Reads the system's clock (`std::time::SystemTime::now`), has chrono
/// turn the reading into a date and time (`DateTime::<Utc>::from`), and
/// gives that as the seconds since the epoch (`timestamp`) and the
/// nanoseconds within the second (`timestamp_subsec_nanos`). A clock that
/// stands before the epoch gives negative seconds. Nothing is claimed of
/// the reading.
#[verifier::external_body]
fn now() -> Timestamp {
    let t = chrono::DateTime::<chrono::Utc>::from(std::time::SystemTime::now());
    Timestamp { secs: t.timestamp(), nanos: t.timestamp_subsec_nanos() }
}

fn end_sampling<'a>(settings: Settings<'a>, result: Result<Vec<Sample>, RunnerError>) -> (r: (
    SampleRun<'a>,
    Action,
))
    requires
        (SampleRunView {
            settings: settings@,
            stage: SampleStageView::Finished(deep_result(result)),
        }).well_formed(),
    ensures
        (r.0@, r.1@) == (
            SampleRunView { settings: settings@, stage: SampleStageView::Finished(deep_result(result)) },
            ActionView::Done,
        ),
{
    (SampleRun { settings, stage: SampleStage::Finished(result) }, Action::Done)
}

fn fail_output_dir<'a>(settings: Settings<'a>, cause: String) -> (r: (SampleRun<'a>, Action))
    requires
        settings.runs == 1,
    ensures
        (r.0@, r.1@) == no_output_dir(
            SampleRunView { settings: settings@, stage: SampleStageView::Removing },
            cause@,
        ),
{
    let dir = settings.results_dir.clone();
    end_sampling(
        settings,
        Err(RunnerError::RunnerIOError(IOError::CannotRecreateTempDirErr(dir, cause))),
    )
}

impl<'a> SampleRun<'a> {
    #[verifier::type_invariant]
    spec fn is_well_formed(self) -> bool {
        self@.well_formed()
    }

    /// Where the run stands.
    pub fn stage(&self) -> (r: &SampleStage<'a>)
        ensures
            r@ == self@.stage,
            self@.well_formed(),
    {
        proof {
            use_type_invariant(self);
        }
        &self.stage
    }

    /// What stays the same through the run.
    pub fn settings(&self) -> (r: &Settings<'a>)
        ensures
            r@ == self@.settings,
            r.runs == 1,
    {
        proof {
            use_type_invariant(self);
        }
        &self.settings
    }

    /// What the run has come to, once it is finished: its samples, which
    /// all carry the same time, or the error that ended it.
    pub fn into_result(self) -> (r: Option<Result<Vec<Sample>, RunnerError>>)
        ensures
            match self@.stage {
                SampleStageView::Finished(result) => r is Some && deep_result(r->Some_0) == result,
                _ => r is None,
            },
            self@.well_formed(),
    {
        proof {
            use_type_invariant(&self);
        }
        match self.stage {
            SampleStage::Finished(result) => Some(result),
            _ => None,
        }
    }

    /// A sampling run over the projects of `projects_dir`, with its reports
    /// in `out_dir`, and the first thing it asks for: the removal of the
    /// output directory. Every unit is timed once.
    pub fn new(projects_dir: &str, out_dir: &str, catalog: Vec<HyperfineCmd<'a>>) -> (r: (
        SampleRun<'a>,
        Action,
    ))
        ensures
            r.0@ == (SampleRunView {
                settings: SettingsView {
                    projects_dir: projects_dir@,
                    results_dir: out_dir@,
                    catalog: catalog.deep_view(),
                    runs: 1,
                },
                stage: SampleStageView::Removing,
            }),
            r.1@ == ActionView::RemoveOutputDir,
            r.0@.well_formed(),
    {
        let settings = Settings {
            projects_dir: String::from_str(projects_dir),
            results_dir: String::from_str(out_dir),
            catalog,
            runs: 1,
        };
        (SampleRun { settings, stage: SampleStage::Removing }, Action::RemoveOutputDir)
    }
}

/// One step of a sampling run, at the time `now`: see `sample_step`.
pub fn take_samples_at<'a>(run: SampleRun<'a>, event: Event, now: Timestamp) -> (r: (
    SampleRun<'a>,
    Action,
))
    ensures
        (r.0@, r.1@) == sample_step(run@, event@, now),
        r.0@.well_formed(),
{
    proof {
        use_type_invariant(&run);
    }
    let SampleRun { settings, stage } = run;
    match stage {
        SampleStage::Removing => match event {
            Event::DirRemoved(RemoveOutcome::Failed(cause)) => fail_output_dir(settings, cause),
            Event::DirRemoved(_) => (
                SampleRun { settings, stage: SampleStage::Creating },
                Action::CreateOutputDir,
            ),
            _ => end_sampling(settings, Err(RunnerError::UnexpectedEventErr())),
        },
        SampleStage::Creating => match event {
            Event::DirCreated(CreateOutcome::Created) => (
                SampleRun { settings, stage: SampleStage::Collecting(now, Collecting::Discovering) },
                Action::ListProjects,
            ),
            Event::DirCreated(CreateOutcome::AlreadyExists(cause)) => fail_output_dir(
                settings,
                cause,
            ),
            Event::DirCreated(CreateOutcome::Failed(_, cause)) => fail_output_dir(settings, cause),
            _ => end_sampling(settings, Err(RunnerError::UnexpectedEventErr())),
        },
        SampleStage::Collecting(ts, collecting) => match collect(&settings, collecting, event) {
            Collected::Next(next, action) => (
                SampleRun { settings, stage: SampleStage::Collecting(ts, next) },
                action,
            ),
            Collected::Done(ingested) => {
                let samples = samples_from_measurements(ingested, ts);
                end_sampling(settings, samples)
            },
            Collected::Failed(e) => end_sampling(settings, Err(e)),
        },
        SampleStage::Finished(result) => (
            SampleRun { settings, stage: SampleStage::Finished(result) },
            Action::Done,
        ),
    }
}

/// One step of a sampling run: where it stands after `event`, and what it
/// asks for next. The clock is read when the run is told that the output
/// directory has been created, and at no other step; its reading is the
/// time of every sample of the run.
pub fn take_samples<'a>(run: SampleRun<'a>, event: Event) -> (r: (SampleRun<'a>, Action))
    ensures
        exists|now: Timestamp| (r.0@, r.1@) == sample_step(run@, event@, now),
        r.0@.well_formed(),
{
    let at = match (&run.stage, &event) {
        (SampleStage::Creating, Event::DirCreated(CreateOutcome::Created)) => now(),
        _ => Timestamp { secs: 0, nanos: 0 },
    };
    let r = take_samples_at(run, event, at);
    assert((r.0@, r.1@) == sample_step(run@, event@, at));
    r
}

/// Where a modeling run stands.
#[derive(Debug)]
pub enum ModelStage<'a> {
    /// The reports are being collected.
    Collecting(Collecting<'a>),
    /// The directory of the version is being created, for the model at this
    /// index.
    MakingDir(Baseline, usize),
    /// The baseline is being written to the file of the model at this
    /// index.
    Writing(Baseline, usize),
    Finished(Result<Baseline, RunnerError>),
}

/// The mathematical view of [`ModelStage`]: every text as its sequence of characters.
pub enum ModelStageView {
    Collecting(CollectingView),
    MakingDir(BaselineView, nat),
    Writing(BaselineView, nat),
    Finished(Result<BaselineView, RunnerErrorView>),
}

impl<'a> View for ModelStage<'a> {
    type V = ModelStageView;

    open spec fn view(&self) -> ModelStageView {
        match self {
            ModelStage::Collecting(stage) => ModelStageView::Collecting(stage@),
            ModelStage::MakingDir(baseline, index) => ModelStageView::MakingDir(
                baseline@,
                *index as nat,
            ),
            ModelStage::Writing(baseline, index) => ModelStageView::Writing(
                baseline@,
                *index as nat,
            ),
            ModelStage::Finished(r) => ModelStageView::Finished(deep_result(*r)),
        }
    }
}

/// A modeling run: the engine times every work unit, the reports become
/// the baseline of a version, and the baseline is written to one file for
/// each of its models.
///
/// A run begins with `new` and goes on by `model`, so that it is always
/// well formed.
#[derive(Debug)]
pub struct ModelRun<'a> {
    version: Version,
    settings: Settings<'a>,
    stage: ModelStage<'a>,
}

/// The mathematical view of [`ModelRun`]: every text as its sequence of characters.
pub struct ModelRunView {
    pub version: Version,
    pub settings: SettingsView,
    pub stage: ModelStageView,
}

impl<'a> View for ModelRun<'a> {
    type V = ModelRunView;

    closed spec fn view(&self) -> ModelRunView {
        ModelRunView { version: self.version, settings: self.settings@, stage: self.stage@ }
    }
}

impl ModelRunView {
    /// The baseline `baseline` can be held by this run: it is well formed
    /// and of the run's version.
    pub open spec fn holds(self, baseline: BaselineView) -> bool {
        baseline.well_formed() && baseline.version == self.version
    }

    /// The baseline that a modeling run writes or ends with is well formed
    /// and of the run's version, and the model whose file is being written
    /// is one of its models.
    pub open spec fn well_formed(self) -> bool {
        match self.stage {
            ModelStageView::Collecting(_) => true,
            ModelStageView::MakingDir(baseline, index) => self.holds(baseline) && index
                < baseline.models.len(),
            ModelStageView::Writing(baseline, index) => self.holds(baseline) && index
                < baseline.models.len(),
            ModelStageView::Finished(Ok(baseline)) => self.holds(baseline),
            ModelStageView::Finished(Err(_)) => true,
        }
    }
}

/// The run ends, with this result.
pub open spec fn modeling_ends(run: ModelRunView, result: Result<BaselineView, RunnerErrorView>) -> (
    ModelRunView,
    ActionView,
) {
    (
        ModelRunView {
            version: run.version,
            settings: run.settings,
            stage: ModelStageView::Finished(result),
        },
        ActionView::Done,
    )
}

/// With the models before `index` written: the directory of the version is
/// asked for, for the model at `index`; or, when no model is left, the run
/// ends with the baseline.
pub open spec fn persist_from(run: ModelRunView, baseline: BaselineView, index: nat) -> (
    ModelRunView,
    ActionView,
) {
    if index < baseline.models.len() {
        (
            ModelRunView {
                version: run.version,
                settings: run.settings,
                stage: ModelStageView::MakingDir(baseline, index),
            },
            ActionView::CreateVersionDir(version_text(baseline.version)),
        )
    } else {
        modeling_ends(run, Ok(baseline))
    }
}

/// One step of a modeling run: where it stands after `event`, and what it
/// asks for next. `now` is the time at the step; it becomes the time of the
/// baseline when the reports have just been read, and is not used
/// otherwise.
///
/// The reports are collected and become the baseline of the run's version;
/// without a report the run ends with `BaselineWithNoModelsErr`. Then, for
/// each model in turn, the directory named after the version is created,
/// where one that is there already is no error and any other failure ends
/// the run with `WriteErr` and the directory's path; and the whole
/// baseline is written to the file named after the model's metric, where a
/// failure ends the run. A finished run stays as it is.
pub open spec fn model_step(run: ModelRunView, event: EventView, now: Timestamp) -> (
    ModelRunView,
    ActionView,
) {
    match run.stage {
        ModelStageView::Collecting(stage) => match collect_step(run.settings, stage, event) {
            CollectedView::Next(next, action) => (
                ModelRunView {
                    version: run.version,
                    settings: run.settings,
                    stage: ModelStageView::Collecting(next),
                },
                action,
            ),
            CollectedView::Done(ingested) => match baseline_of(run.version, ingested, now) {
                Err(e) => modeling_ends(run, Err(e)),
                Ok(baseline) => persist_from(run, baseline, 0),
            },
            CollectedView::Failed(e) => modeling_ends(run, Err(e)),
        },
        ModelStageView::MakingDir(baseline, index) => match event {
            EventView::DirCreated(CreateOutcomeView::Failed(path, cause)) => modeling_ends(
                run,
                Err(RunnerErrorView::RunnerIOError(IOErrorView::WriteErr(path, Some(cause)))),
            ),
            EventView::DirCreated(_) => if index < baseline.models.len() {
                (
                    ModelRunView {
                        version: run.version,
                        settings: run.settings,
                        stage: ModelStageView::Writing(baseline, index),
                    },
                    ActionView::WriteBaseline {
                        dir: version_text(baseline.version),
                        file: canonical_filename(baseline.models[index as int].metric)
                            + json_suffix(),
                    },
                )
            } else {
                modeling_ends(run, Ok(baseline))
            },
            _ => modeling_ends(run, Err(RunnerErrorView::UnexpectedEventErr())),
        },
        ModelStageView::Writing(baseline, index) => match event {
            EventView::BaselineWritten(WriteOutcomeView::Written) => persist_from(
                run,
                baseline,
                index + 1,
            ),
            EventView::BaselineWritten(WriteOutcomeView::NotSerialized(diagnostic)) => modeling_ends(
                run,
                Err(RunnerErrorView::SerializationErr(diagnostic)),
            ),
            EventView::BaselineWritten(WriteOutcomeView::NotWritten(path, cause)) => modeling_ends(
                run,
                Err(RunnerErrorView::RunnerIOError(IOErrorView::WriteErr(path, cause))),
            ),
            _ => modeling_ends(run, Err(RunnerErrorView::UnexpectedEventErr())),
        },
        ModelStageView::Finished(_) => (run, ActionView::Done),
    }
}

fn end_modeling<'a>(
    version: Version,
    settings: Settings<'a>,
    result: Result<Baseline, RunnerError>,
) -> (r: (ModelRun<'a>, Action))
    requires
        result matches Ok(baseline) ==> baseline@.well_formed() && baseline.version == version,
    ensures
        (r.0@, r.1@) == (
            ModelRunView {
                version,
                settings: settings@,
                stage: ModelStageView::Finished(deep_result(result)),
            },
            ActionView::Done,
        ),
{
    (ModelRun { version, settings, stage: ModelStage::Finished(result) }, Action::Done)
}

fn persist<'a>(version: Version, settings: Settings<'a>, baseline: Baseline, index: usize) -> (r: (
    ModelRun<'a>,
    Action,
))
    requires
        baseline@.well_formed(),
        baseline.version == version,
    ensures
        (r.0@, r.1@) == persist_from(
            ModelRunView {
                version,
                settings: settings@,
                stage: ModelStageView::Finished(Ok(baseline@)),
            },
            baseline@,
            index as nat,
        ),
{
    if index < baseline.models.len() {
        let dir = baseline.version.to_string();
        (
            ModelRun { version, settings, stage: ModelStage::MakingDir(baseline, index) },
            Action::CreateVersionDir(dir),
        )
    } else {
        end_modeling(version, settings, Ok(baseline))
    }
}

impl<'a> ModelRun<'a> {
    #[verifier::type_invariant]
    spec fn is_well_formed(self) -> bool {
        self@.well_formed()
    }

    /// Where the run stands.
    pub fn stage(&self) -> (r: &ModelStage<'a>)
        ensures
            r@ == self@.stage,
            self@.well_formed(),
    {
        proof {
            use_type_invariant(self);
        }
        &self.stage
    }

    /// What stays the same through the run.
    pub fn settings(&self) -> (r: &Settings<'a>)
        ensures
            r@ == self@.settings,
    {
        &self.settings
    }

    /// The version that the run makes the baseline of.
    pub fn version(&self) -> (r: Version)
        ensures
            r == self@.version,
    {
        self.version
    }

    /// What the run has come to, once it is finished: the baseline of its
    /// version, which is well formed, or the error that ended it.
    pub fn into_result(self) -> (r: Option<Result<Baseline, RunnerError>>)
        ensures
            match self@.stage {
                ModelStageView::Finished(result) => r is Some && deep_result(r->Some_0) == result,
                _ => r is None,
            },
            r matches Some(Ok(baseline)) ==> baseline@.well_formed() && baseline.version
                == self@.version,
    {
        proof {
            use_type_invariant(&self);
        }
        match self.stage {
            ModelStage::Finished(result) => Some(result),
            _ => None,
        }
    }

    /// A modeling run for `version` over the projects of `projects_dir`,
    /// with the engine's reports in `tmp_dir` and `n_runs` timed repetitions
    /// of every unit; and the first thing it asks for: the listing of the
    /// projects.
    pub fn new(
        version: Version,
        projects_dir: &str,
        tmp_dir: &str,
        n_runs: i32,
        catalog: Vec<HyperfineCmd<'a>>,
    ) -> (r: (ModelRun<'a>, Action))
        ensures
            r.0@ == (ModelRunView {
                version,
                settings: SettingsView {
                    projects_dir: projects_dir@,
                    results_dir: tmp_dir@,
                    catalog: catalog.deep_view(),
                    runs: n_runs,
                },
                stage: ModelStageView::Collecting(CollectingView::Discovering),
            }),
            r.1@ == ActionView::ListProjects,
            r.0@.well_formed(),
    {
        let settings = Settings {
            projects_dir: String::from_str(projects_dir),
            results_dir: String::from_str(tmp_dir),
            catalog,
            runs: n_runs,
        };
        (
            ModelRun { version, settings, stage: ModelStage::Collecting(Collecting::Discovering) },
            Action::ListProjects,
        )
    }

    /// The baseline that is being written, while the run asks for its
    /// directory or for one of its files.
    pub fn baseline(&self) -> (r: Option<&Baseline>)
        ensures
            match self@.stage {
                ModelStageView::MakingDir(baseline, _) => r is Some && r->Some_0@ == baseline,
                ModelStageView::Writing(baseline, _) => r is Some && r->Some_0@ == baseline,
                _ => r is None,
            },
            r matches Some(baseline) ==> baseline@.well_formed() && baseline.version
                == self@.version,
    {
        proof {
            use_type_invariant(self);
        }
        match &self.stage {
            ModelStage::MakingDir(baseline, _) => Some(baseline),
            ModelStage::Writing(baseline, _) => Some(baseline),
            _ => None,
        }
    }
}

/// One step of a modeling run, at the time `now`: see `model_step`.
pub fn model_at<'a>(run: ModelRun<'a>, event: Event, now: Timestamp) -> (r: (ModelRun<'a>, Action))
    ensures
        (r.0@, r.1@) == model_step(run@, event@, now),
        r.0@.well_formed(),
{
    proof {
        use_type_invariant(&run);
    }
    let ModelRun { version, settings, stage } = run;
    match stage {
        ModelStage::Collecting(collecting) => match collect(&settings, collecting, event) {
            Collected::Next(next, action) => (
                ModelRun { version, settings, stage: ModelStage::Collecting(next) },
                action,
            ),
            Collected::Done(ingested) => match from_measurements(version, ingested, now) {
                Err(e) => end_modeling(version, settings, Err(e)),
                Ok(baseline) => persist(version, settings, baseline, 0),
            },
            Collected::Failed(e) => end_modeling(version, settings, Err(e)),
        },
        ModelStage::MakingDir(baseline, index) => match event {
            Event::DirCreated(CreateOutcome::Failed(path, cause)) => end_modeling(
                version,
                settings,
                Err(RunnerError::RunnerIOError(IOError::WriteErr(path, Some(cause)))),
            ),
            Event::DirCreated(_) => {
                if index < baseline.models.len() {
                    let dir = baseline.version.to_string();
                    let file = baseline.models[index].metric.json_filename();
                    (
                        ModelRun { version, settings, stage: ModelStage::Writing(baseline, index) },
                        Action::WriteBaseline { dir, file },
                    )
                } else {
                    end_modeling(version, settings, Ok(baseline))
                }
            },
            _ => end_modeling(version, settings, Err(RunnerError::UnexpectedEventErr())),
        },
        ModelStage::Writing(baseline, index) => match event {
            Event::BaselineWritten(WriteOutcome::Written) => {
                if index < baseline.models.len() {
                    persist(version, settings, baseline, index + 1)
                } else {
                    end_modeling(version, settings, Ok(baseline))
                }
            },
            Event::BaselineWritten(WriteOutcome::NotSerialized(diagnostic)) => end_modeling(
                version,
                settings,
                Err(RunnerError::SerializationErr(diagnostic)),
            ),
            Event::BaselineWritten(WriteOutcome::NotWritten(path, cause)) => end_modeling(
                version,
                settings,
                Err(RunnerError::RunnerIOError(IOError::WriteErr(path, cause))),
            ),
            _ => end_modeling(version, settings, Err(RunnerError::UnexpectedEventErr())),
        },
        ModelStage::Finished(result) => (
            ModelRun { version, settings, stage: ModelStage::Finished(result) },
            Action::Done,
        ),
    }
}

/// One step of a modeling run: where it stands after `event`, and what it
/// asks for next. The clock is read when the run is told what the reports
/// hold, and at no other step; its reading is the time of every model of
/// the baseline.
pub fn model<'a>(run: ModelRun<'a>, event: Event) -> (r: (ModelRun<'a>, Action))
    ensures
        exists|now: Timestamp| (r.0@, r.1@) == model_step(run@, event@, now),
        r.0@.well_formed(),
{
    let at = match (&run.stage, &event) {
        (ModelStage::Collecting(Collecting::Reading), Event::ResultsRead(_)) => now(),
        _ => Timestamp { secs: 0, nanos: 0 },
    };
    let r = model_at(run, event, at);
    assert((r.0@, r.1@) == model_step(run@, event@, at));
    r
}

/// A directory that was not there when it was to be removed is no error:
/// the run goes on as if it had been removed.
pub proof fn lemma_missing_output_dir_is_no_error(run: SampleRunView, now: Timestamp)
    requires
        run.stage is Removing,
    ensures
        sample_step(run, EventView::DirRemoved(RemoveOutcomeView::Missing), now) == sample_step(
            run,
            EventView::DirRemoved(RemoveOutcomeView::Removed),
            now,
        ),
        sample_step(run, EventView::DirRemoved(RemoveOutcomeView::Missing), now).0.stage
            is Creating,
        sample_step(run, EventView::DirRemoved(RemoveOutcomeView::Missing), now).1
            is CreateOutputDir,
{
}

/// Where the engine exits with a code other than zero while a sampling
/// run has units to run, the run ends there with that code: the units that
/// wait are not run, and there are no samples.
pub proof fn lemma_sampling_stops_at_failed_unit(
    run: SampleRunView,
    code: i32,
    now: Timestamp,
)
    requires
        run.stage matches SampleStageView::Collecting(_, stage) && stage is Running,
        code != 0,
    ensures
        sample_step(run, EventView::EngineExited(EngineOutcomeView::Exited(Some(code))), now)
            == sampling_ends(run, Err(RunnerErrorView::HyperfineNonZeroExitCode(code))),
{
}

/// Where the engine exits with a code other than zero while a modeling
/// run has units to run, the run ends there with that code: the units that
/// wait are not run, and there is no baseline.
pub proof fn lemma_modeling_stops_at_failed_unit(run: ModelRunView, code: i32, now: Timestamp)
    requires
        run.stage matches ModelStageView::Collecting(stage) && stage is Running,
        code != 0,
    ensures
        model_step(run, EventView::EngineExited(EngineOutcomeView::Exited(Some(code))), now)
            == modeling_ends(run, Err(RunnerErrorView::HyperfineNonZeroExitCode(code))),
{
}

/// A finished run asks for nothing more, whatever it is told.
pub proof fn lemma_finished_run_stays(
    sampling: SampleRunView,
    modeling: ModelRunView,
    event: EventView,
    now: Timestamp,
)
    ensures
        sampling.stage is Finished ==> sample_step(sampling, event, now) == (
            sampling,
            ActionView::Done,
        ),
        modeling.stage is Finished ==> model_step(modeling, event, now) == (
            modeling,
            ActionView::Done,
        ),
{
}

/// All samples that a sampling run ends with carry the time of the run:
/// the one that was taken when the output directory had been created.
pub proof fn lemma_samples_of_a_run_share_its_time(
    run: SampleRunView,
    event: EventView,
    now: Timestamp,
)
    requires
        run.stage is Collecting,
    ensures
        ({
            let ts = run.stage->Collecting_0;
            let next = sample_step(run, event, now).0.stage;
            &&& next matches SampleStageView::Collecting(kept, _) ==> kept == ts
            &&& next matches SampleStageView::Finished(Ok(samples)) ==> forall|i: int|
                0 <= i < samples.len() ==> (#[trigger] samples[i]).ts == ts
        }),
{
}

/// The engine runs on the units in their order, one for each exit that
/// was well: after such an exit the run asks for the next unit that waits,
/// and for the listing of the results when none is left.
pub proof fn lemma_units_run_in_order(
    settings: SettingsView,
    units: Seq<WorkUnitView>,
    outcome: EngineOutcomeView,
)
    requires
        units.len() > 0,
        engine_failure(outcome) is None,
    ensures
        units.len() > 1 ==> collect_step(
            settings,
            CollectingView::Running(units),
            EventView::EngineExited(outcome),
        ) == CollectedView::Next(
            CollectingView::Running(units.drop_first()),
            ActionView::RunEngine(invocation_of(units[1], settings.runs)),
        ),
        units.len() == 1 ==> collect_step(
            settings,
            CollectingView::Running(units),
            EventView::EngineExited(outcome),
        ) == CollectedView::Next(CollectingView::Listing, ActionView::ListResults),
{
}

/// A step of a well-formed run leaves a well-formed run: a sampling run
/// times every unit once and ends with samples of one time, and the
/// baseline that a modeling run writes or ends with has a model, has
/// models of one time, and is of the run's version.
pub proof fn lemma_runs_stay_well_formed(
    sampling: SampleRunView,
    modeling: ModelRunView,
    event: EventView,
    now: Timestamp,
)
    ensures
        sampling.well_formed() ==> sample_step(sampling, event, now).0.well_formed(),
        modeling.well_formed() ==> model_step(modeling, event, now).0.well_formed(),
{
}

/// Once a modeling run has its baseline, every step hands the same
/// baseline on: it is the one whose directory is made, the one that is
/// written, and the one that the run ends with where it ends well.
pub proof fn lemma_modeling_keeps_its_baseline(run: ModelRunView, event: EventView, now: Timestamp)
    requires
        run.stage is MakingDir || run.stage is Writing,
    ensures
        ({
            let baseline = match run.stage {
                ModelStageView::MakingDir(baseline, _) => baseline,
                ModelStageView::Writing(baseline, _) => baseline,
                _ => arbitrary(),
            };
            match model_step(run, event, now).0.stage {
                ModelStageView::Collecting(_) => false,
                ModelStageView::MakingDir(next, _) => next == baseline,
                ModelStageView::Writing(next, _) => next == baseline,
                ModelStageView::Finished(Ok(next)) => next == baseline,
                ModelStageView::Finished(Err(_)) => true,
            }
        }),
{
}

/// When the reports have been read, a modeling run has its baseline or has
/// ended with an error: the baseline is of the run's version, is not
/// empty, and every model of it has the time at which the reports were
/// read.
pub proof fn lemma_modeling_gives_no_empty_baseline(
    run: ModelRunView,
    read: Seq<(ResultFileView, DecodedView<MeasurementsView>)>,
    now: Timestamp,
)
    requires
        run.stage == ModelStageView::Collecting(CollectingView::Reading),
    ensures
        ({
            let next = model_step(run, EventView::ResultsRead(read), now).0.stage;
            &&& !(next is Collecting)
            &&& !(next is Writing)
            &&& next matches ModelStageView::MakingDir(baseline, index) ==> index == 0
                && baseline.version == run.version && baseline.models.len() > 0 && forall|i: int|
                0 <= i < baseline.models.len() ==> (#[trigger] baseline.models[i]).ts == now
            &&& next matches ModelStageView::Finished(result) ==> result is Err
        }),
{
}

} // verus!

//! What a run asks of whoever drives it, and what it is told in return.

use crate::discovery::{Listing, ListingView, ProjectEntry, ProjectEntryView};
use crate::engine::{EngineOutcome, EngineOutcomeView, Invocation, InvocationView};
use crate::ingest::{
    Decoded, DecodedView, ResultEntry, ResultEntryView, ResultFile, ResultFileView,
};
use crate::types::{Measurements, MeasurementsView};
use vstd::prelude::*;

verus! {

/// What came of removing a directory with all that it holds.
#[derive(Debug, Clone, PartialEq, Eq)]
pub enum RemoveOutcome {
    Removed,
    /// There was no such directory.
    Missing,
    /// The directory is there and could not be removed; the cause.
    Failed(String),
}

/// The mathematical view of [`RemoveOutcome`]: every text as its sequence of characters.
pub enum RemoveOutcomeView {
    Removed,
    Missing,
    Failed(Seq<char>),
}

impl View for RemoveOutcome {
    type V = RemoveOutcomeView;

    open spec fn view(&self) -> RemoveOutcomeView {
        match self {
            RemoveOutcome::Removed => RemoveOutcomeView::Removed,
            RemoveOutcome::Missing => RemoveOutcomeView::Missing,
            RemoveOutcome::Failed(cause) => RemoveOutcomeView::Failed(cause@),
        }
    }
}

/// What came of creating a directory.
#[derive(Debug, Clone, PartialEq, Eq)]
pub enum CreateOutcome {
    Created,
    /// The directory was there already; what the system said.
    AlreadyExists(String),
    /// The directory could not be created; its path, and the cause.
    Failed(String, String),
}

/// The mathematical view of [`CreateOutcome`]: every text as its sequence of characters.
pub enum CreateOutcomeView {
    Created,
    AlreadyExists(Seq<char>),
    Failed(Seq<char>, Seq<char>),
}

impl View for CreateOutcome {
    type V = CreateOutcomeView;

    open spec fn view(&self) -> CreateOutcomeView {
        match self {
            CreateOutcome::Created => CreateOutcomeView::Created,
            CreateOutcome::AlreadyExists(cause) => CreateOutcomeView::AlreadyExists(cause@),
            CreateOutcome::Failed(path, cause) => CreateOutcomeView::Failed(path@, cause@),
        }
    }
}

/// What came of writing the baseline to a file.
#[derive(Debug, Clone, PartialEq, Eq)]
pub enum WriteOutcome {
    Written,
    /// The baseline could not be turned into text; the diagnostic.
    NotSerialized(String),
    /// The file could not be written; its path, and the cause if known.
    NotWritten(String, Option<String>),
}

/// The mathematical view of [`WriteOutcome`]: every text as its sequence of characters.
pub enum WriteOutcomeView {
    Written,
    NotSerialized(Seq<char>),
    NotWritten(Seq<char>, Option<Seq<char>>),
}

impl View for WriteOutcome {
    type V = WriteOutcomeView;

    open spec fn view(&self) -> WriteOutcomeView {
        match self {
            WriteOutcome::Written => WriteOutcomeView::Written,
            WriteOutcome::NotSerialized(diagnostic) => WriteOutcomeView::NotSerialized(diagnostic@),
            WriteOutcome::NotWritten(path, cause) => WriteOutcomeView::NotWritten(
                path@,
                cause.deep_view(),
            ),
        }
    }
}

/// What came of the action that a run asked for.
#[derive(Debug, Clone, PartialEq, Eq)]
pub enum Event {
    DirRemoved(RemoveOutcome),
    DirCreated(CreateOutcome),
    ProjectsListed(Listing<ProjectEntry>),
    EngineExited(EngineOutcome),
    ResultsListed(Listing<ResultEntry>),
    /// Each file that was to be read, with what was decoded from it.
    ResultsRead(Vec<(ResultFile, Decoded<Measurements>)>),
    BaselineWritten(WriteOutcome),
}

/// The mathematical view of [`Event`]: every text as its sequence of characters.
pub enum EventView {
    DirRemoved(RemoveOutcomeView),
    DirCreated(CreateOutcomeView),
    ProjectsListed(ListingView<ProjectEntryView>),
    EngineExited(EngineOutcomeView),
    ResultsListed(ListingView<ResultEntryView>),
    ResultsRead(Seq<(ResultFileView, DecodedView<MeasurementsView>)>),
    BaselineWritten(WriteOutcomeView),
}

impl View for Event {
    type V = EventView;

    open spec fn view(&self) -> EventView {
        match self {
            Event::DirRemoved(outcome) => EventView::DirRemoved(outcome@),
            Event::DirCreated(outcome) => EventView::DirCreated(outcome@),
            Event::ProjectsListed(listing) => EventView::ProjectsListed(listing@),
            Event::EngineExited(outcome) => EventView::EngineExited(outcome@),
            Event::ResultsListed(listing) => EventView::ResultsListed(listing@),
            Event::ResultsRead(read) => EventView::ResultsRead(read.deep_view()),
            Event::BaselineWritten(outcome) => EventView::BaselineWritten(outcome@),
        }
    }
}

/// What a run asks for next.
#[derive(Debug, Clone, PartialEq, Eq)]
pub enum Action {
    /// Remove the output directory with all that it holds; answered by
    /// `DirRemoved`.
    RemoveOutputDir,
    /// Create the output directory; answered by `DirCreated`.
    CreateOutputDir,
    /// List the projects directory; answered by `ProjectsListed`.
    ListProjects,
    /// Run the engine in the directory it names, exporting to the named
    /// file of the results directory; answered by `EngineExited`.
    RunEngine(Invocation),
    /// List the results directory; answered by `ResultsListed`.
    ListResults,
    /// Read and decode these files; answered by `ResultsRead`.
    ReadResults(Vec<ResultFile>),
    /// Create the directory of this name under the output directory;
    /// answered by `DirCreated`.
    CreateVersionDir(String),
    /// Write the whole baseline to the file `file` of the directory `dir`
    /// under the output directory; answered by `BaselineWritten`.
    WriteBaseline { dir: String, file: String },
    /// Nothing: the run is finished.
    Done,
}

/// The mathematical view of [`Action`]: every text as its sequence of characters.
pub enum ActionView {
    RemoveOutputDir,
    CreateOutputDir,
    ListProjects,
    RunEngine(InvocationView),
    ListResults,
    ReadResults(Seq<ResultFileView>),
    CreateVersionDir(Seq<char>),
    WriteBaseline { dir: Seq<char>, file: Seq<char> },
    Done,
}

impl View for Action {
    type V = ActionView;

    open spec fn view(&self) -> ActionView {
        match self {
            Action::RemoveOutputDir => ActionView::RemoveOutputDir,
            Action::CreateOutputDir => ActionView::CreateOutputDir,
            Action::ListProjects => ActionView::ListProjects,
            Action::RunEngine(inv) => ActionView::RunEngine(inv@),
            Action::ListResults => ActionView::ListResults,
            Action::ReadResults(files) => ActionView::ReadResults(files.deep_view()),
            Action::CreateVersionDir(dir) => ActionView::CreateVersionDir(dir@),
            Action::WriteBaseline { dir, file } => ActionView::WriteBaseline {
                dir: dir@,
                file: file@,
            },
            Action::Done => ActionView::Done,
        }
    }
}

} // verus!

//! What can go wrong in a measurement run.

use vstd::prelude::*;

verus! {

/// A failure of the file system or of launching the engine. Paths and
/// causes are carried as text.
#[derive(Debug, Clone, PartialEq, Eq)]
pub enum IOError {
    /// A directory, or one of its entries, could not be read.
    ReadErr(String, Option<String>),
    /// A path has no final component.
    MissingFilenameErr(String),
    /// A file name is not valid Unicode.
    FilenameNotUnicodeErr(String),
    /// A file could not be read as text.
    BadFileContentsErr(String, Option<String>),
    /// The engine could not be launched.
    CommandErr(Option<String>),
    /// The output directory could not be emptied and created afresh.
    CannotRecreateTempDirErr(String, String),
    /// A file or directory could not be written.
    WriteErr(String, Option<String>),
}

/// Why a sampling or modeling run failed.
#[derive(Debug, Clone, PartialEq, Eq)]
pub enum RunnerError {
    RunnerIOError(IOError),
    /// A report file does not hold a measurement document.
    BadJSONErr(String, Option<String>),
    /// The engine ran and exited with this code, which is not zero.
    HyperfineNonZeroExitCode(i32),
    /// A file stem is not of the form `<name>___<project_name>`.
    MetricFilenameParseErr(String),
    /// A report file holds no result entry.
    NoResultsErr(String),
    /// A baseline could not be turned into text.
    SerializationErr(String),
    /// A baseline was asked for and no measurement was at hand.
    BaselineWithNoModelsErr(),
    /// The run was handed an event that does not answer what it asked for.
    UnexpectedEventErr(),
}

/// The mathematical view of [`IOError`]: every text as its sequence of characters.
pub enum IOErrorView {
    ReadErr(Seq<char>, Option<Seq<char>>),
    MissingFilenameErr(Seq<char>),
    FilenameNotUnicodeErr(Seq<char>),
    BadFileContentsErr(Seq<char>, Option<Seq<char>>),
    CommandErr(Option<Seq<char>>),
    CannotRecreateTempDirErr(Seq<char>, Seq<char>),
    WriteErr(Seq<char>, Option<Seq<char>>),
}

/// The mathematical view of [`RunnerError`]: every text as its sequence of characters.
pub enum RunnerErrorView {
    RunnerIOError(IOErrorView),
    BadJSONErr(Seq<char>, Option<Seq<char>>),
    HyperfineNonZeroExitCode(i32),
    MetricFilenameParseErr(Seq<char>),
    NoResultsErr(Seq<char>),
    SerializationErr(Seq<char>),
    BaselineWithNoModelsErr(),
    UnexpectedEventErr(),
}

impl View for IOError {
    type V = IOErrorView;

    open spec fn view(&self) -> IOErrorView {
        match self {
            IOError::ReadErr(p, c) => IOErrorView::ReadErr(p@, c.deep_view()),
            IOError::MissingFilenameErr(p) => IOErrorView::MissingFilenameErr(p@),
            IOError::FilenameNotUnicodeErr(p) => IOErrorView::FilenameNotUnicodeErr(p@),
            IOError::BadFileContentsErr(p, c) => IOErrorView::BadFileContentsErr(
                p@,
                c.deep_view(),
            ),
            IOError::CommandErr(c) => IOErrorView::CommandErr(c.deep_view()),
            IOError::CannotRecreateTempDirErr(p, c) => IOErrorView::CannotRecreateTempDirErr(
                p@,
                c@,
            ),
            IOError::WriteErr(p, c) => IOErrorView::WriteErr(p@, c.deep_view()),
        }
    }
}

impl DeepView for IOError {
    type V = IOErrorView;

    open spec fn deep_view(&self) -> IOErrorView {
        self.view()
    }
}

impl View for RunnerError {
    type V = RunnerErrorView;

    open spec fn view(&self) -> RunnerErrorView {
        match self {
            RunnerError::RunnerIOError(e) => RunnerErrorView::RunnerIOError(e@),
            RunnerError::BadJSONErr(p, c) => RunnerErrorView::BadJSONErr(p@, c.deep_view()),
            RunnerError::HyperfineNonZeroExitCode(code) => RunnerErrorView::HyperfineNonZeroExitCode(
                *code,
            ),
            RunnerError::MetricFilenameParseErr(s) => RunnerErrorView::MetricFilenameParseErr(s@),
            RunnerError::NoResultsErr(p) => RunnerErrorView::NoResultsErr(p@),
            RunnerError::SerializationErr(c) => RunnerErrorView::SerializationErr(c@),
            RunnerError::BaselineWithNoModelsErr() => RunnerErrorView::BaselineWithNoModelsErr(),
            RunnerError::UnexpectedEventErr() => RunnerErrorView::UnexpectedEventErr(),
        }
    }
}

impl DeepView for RunnerError {
    type V = RunnerErrorView;

    open spec fn deep_view(&self) -> RunnerErrorView {
        self.view()
    }
}

} // verus!

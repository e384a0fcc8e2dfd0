//! The records that a run produces.

use crate::metric::{Metric, MetricView};
use crate::text::{decimal, push_decimal};
use vstd::prelude::*;
use vstd::string::*;

verus! {

/// A point in time: whole seconds since the Unix epoch and the nanoseconds
/// within that second.
#[derive(Debug, Clone, Copy, PartialEq, Eq, Structural)]
pub struct Timestamp {
    pub secs: i64,
    pub nanos: u32,
}

/// The version of the tool that a baseline belongs to.
#[derive(Debug, Clone, Copy, PartialEq, Eq, Structural, PartialOrd, Ord, Hash)]
pub struct Version {
    pub major: i32,
    pub minor: i32,
    pub patch: i32,
}

/// `major.minor.patch`, each number in decimal notation.
pub open spec fn version_text(v: Version) -> Seq<char> {
    decimal(v.major as int) + seq!['.'] + decimal(v.minor as int) + seq!['.'] + decimal(
        v.patch as int,
    )
}

impl Version {
    pub fn new(major: i32, minor: i32, patch: i32) -> (v: Version)
        ensures
            v == (Version { major, minor, patch }),
    {
        Version { major, minor, patch }
    }

    /// The version as text, which is also the name of the directory that
    /// holds its baseline.
    pub fn to_string(&self) -> (r: String)
        ensures
            r@ == version_text(*self),
    {
        proof {
            reveal_strlit(".");
        }
        let mut r = String::new();
        push_decimal(self.major, &mut r);
        r.append(".");
        push_decimal(self.minor, &mut r);
        r.append(".");
        push_decimal(self.patch, &mut r);
        assert(r@ =~= version_text(*self));
        r
    }
}

/// What the engine reports of one timed command. Each figure is the bit
/// pattern of the binary64 number in the report; nothing here computes with
/// the figures.
#[derive(Debug, Clone, PartialEq, Eq)]
pub struct Measurement {
    pub command: String,
    pub mean: u64,
    pub stddev: u64,
    pub median: u64,
    pub user: u64,
    pub system: u64,
    pub min: u64,
    pub max: u64,
    pub times: Vec<u64>,
}

/// The mathematical view of [`Measurement`]: every text as its sequence of characters.
pub struct MeasurementView {
    pub command: Seq<char>,
    pub mean: u64,
    pub stddev: u64,
    pub median: u64,
    pub user: u64,
    pub system: u64,
    pub min: u64,
    pub max: u64,
    pub times: Seq<u64>,
}

impl View for Measurement {
    type V = MeasurementView;

    open spec fn view(&self) -> MeasurementView {
        MeasurementView {
            command: self.command@,
            mean: self.mean,
            stddev: self.stddev,
            median: self.median,
            user: self.user,
            system: self.system,
            min: self.min,
            max: self.max,
            times: self.times@,
        }
    }
}

impl DeepView for Measurement {
    type V = MeasurementView;

    open spec fn deep_view(&self) -> MeasurementView {
        self.view()
    }
}

/// One report of the engine: a result entry for each timed command.
#[derive(Debug, Clone, PartialEq, Eq)]
pub struct Measurements {
    pub results: Vec<Measurement>,
}

/// The mathematical view of [`Measurements`]: every text as its sequence of characters.
pub struct MeasurementsView {
    pub results: Seq<MeasurementView>,
}

impl View for Measurements {
    type V = MeasurementsView;

    open spec fn view(&self) -> MeasurementsView {
        MeasurementsView { results: self.results.deep_view() }
    }
}

impl DeepView for Measurements {
    type V = MeasurementsView;

    open spec fn deep_view(&self) -> MeasurementsView {
        self.view()
    }
}

/// One observation outside any baseline.
#[derive(Debug, Clone, PartialEq, Eq)]
pub struct Sample {
    pub metric: Metric,
    pub ts: Timestamp,
    pub measurement: Measurement,
}

/// The mathematical view of [`Sample`]: every text as its sequence of characters.
pub struct SampleView {
    pub metric: MetricView,
    pub ts: Timestamp,
    pub measurement: MeasurementView,
}

impl View for Sample {
    type V = SampleView;

    open spec fn view(&self) -> SampleView {
        SampleView { metric: self.metric@, ts: self.ts, measurement: self.measurement@ }
    }
}

impl DeepView for Sample {
    type V = SampleView;

    open spec fn deep_view(&self) -> SampleView {
        self.view()
    }
}

impl Sample {
    pub fn from_measurement(metric: Metric, ts: Timestamp, measurement: Measurement) -> (s:
        Sample)
        ensures
            s@ == (SampleView { metric: metric@, ts, measurement: measurement@ }),
    {
        Sample { metric, ts, measurement }
    }
}

/// One observation that belongs to a baseline.
#[derive(Debug, Clone, PartialEq, Eq)]
pub struct MetricModel {
    pub metric: Metric,
    pub ts: Timestamp,
    pub measurement: Measurement,
}

/// The mathematical view of [`MetricModel`]: every text as its sequence of characters.
pub struct MetricModelView {
    pub metric: MetricView,
    pub ts: Timestamp,
    pub measurement: MeasurementView,
}

impl View for MetricModel {
    type V = MetricModelView;

    open spec fn view(&self) -> MetricModelView {
        MetricModelView { metric: self.metric@, ts: self.ts, measurement: self.measurement@ }
    }
}

impl DeepView for MetricModel {
    type V = MetricModelView;

    open spec fn deep_view(&self) -> MetricModelView {
        self.view()
    }
}

/// The expected performance as of one version: at least one model, all
/// taken in one session.
#[derive(Debug, Clone, PartialEq, Eq)]
pub struct Baseline {
    pub version: Version,
    pub models: Vec<MetricModel>,
}

/// The mathematical view of [`Baseline`]: every text as its sequence of characters.
pub struct BaselineView {
    pub version: Version,
    pub models: Seq<MetricModelView>,
}

impl BaselineView {
    /// A baseline has at least one model, and its models are of one
    /// session: they all carry the same time.
    pub open spec fn well_formed(self) -> bool {
        &&& self.models.len() > 0
        &&& forall|i: int, j: int|
            0 <= i < self.models.len() && 0 <= j < self.models.len() ==> (
            #[trigger] self.models[i]).ts == (#[trigger] self.models[j]).ts
    }
}

impl View for Baseline {
    type V = BaselineView;

    open spec fn view(&self) -> BaselineView {
        BaselineView { version: self.version, models: self.models.deep_view() }
    }
}

impl DeepView for Baseline {
    type V = BaselineView;

    open spec fn deep_view(&self) -> BaselineView {
        self.view()
    }
}

} // verus!

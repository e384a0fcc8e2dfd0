//! From ingested reports to samples and to a baseline.

use crate::errors::{RunnerError, RunnerErrorView};
use crate::ingest::{ResultFile, ResultFileView};
use crate::metric::{parse_filename, Metric, MetricView};
use crate::text::deep_result;
use crate::types::{
    Baseline, BaselineView, Measurement, MeasurementView, Measurements, MeasurementsView,
    MetricModel, MetricModelView, Sample, SampleView, Timestamp, Version,
};
use vstd::prelude::*;

verus! {

/// What one report observes: the metric that the file's stem names, and
/// the first result entry of the report.
pub open spec fn observation(file: ResultFileView, report: MeasurementsView) -> Result<
    (MetricView, MeasurementView),
    RunnerErrorView,
> {
    match parse_filename(file.stem) {
        None => Err(RunnerErrorView::MetricFilenameParseErr(file.stem)),
        Some(metric) => if report.results.len() == 0 {
            Err(RunnerErrorView::NoResultsErr(file.path))
        } else {
            Ok((metric, report.results[0]))
        },
    }
}

/// What the reports observe, in order; or the error of the first report
/// that observes nothing.
pub open spec fn observations(ingested: Seq<(ResultFileView, MeasurementsView)>) -> Result<
    Seq<(MetricView, MeasurementView)>,
    RunnerErrorView,
>
    decreases ingested.len(),
{
    if ingested.len() == 0 {
        Ok(Seq::empty())
    } else {
        match observations(ingested.drop_last()) {
            Err(e) => Err(e),
            Ok(front) => match observation(ingested.last().0, ingested.last().1) {
                Err(e) => Err(e),
                Ok(o) => Ok(front.push(o)),
            },
        }
    }
}

/// One sample for each observation, all with the time `ts`.
pub open spec fn samples_at(observed: Seq<(MetricView, MeasurementView)>, ts: Timestamp) -> Seq<
    SampleView,
> {
    Seq::new(
        observed.len(),
        |i: int| SampleView { metric: observed[i].0, ts, measurement: observed[i].1 },
    )
}

/// One model for each observation, all with the time `ts`.
pub open spec fn models_at(observed: Seq<(MetricView, MeasurementView)>, ts: Timestamp) -> Seq<
    MetricModelView,
> {
    Seq::new(
        observed.len(),
        |i: int| MetricModelView { metric: observed[i].0, ts, measurement: observed[i].1 },
    )
}

/// The samples of a batch of reports taken at `ts`.
pub open spec fn samples_of(ingested: Seq<(ResultFileView, MeasurementsView)>, ts: Timestamp) -> Result<
    Seq<SampleView>,
    RunnerErrorView,
> {
    match observations(ingested) {
        Err(e) => Err(e),
        Ok(observed) => Ok(samples_at(observed, ts)),
    }
}

/// The baseline of `version` from a batch of reports taken at `ts`: there
/// is none without a report.
pub open spec fn baseline_of(
    version: Version,
    ingested: Seq<(ResultFileView, MeasurementsView)>,
    ts: Timestamp,
) -> Result<BaselineView, RunnerErrorView> {
    match observations(ingested) {
        Err(e) => Err(e),
        Ok(observed) => if observed.len() == 0 {
            Err(RunnerErrorView::BaselineWithNoModelsErr())
        } else {
            Ok(BaselineView { version, models: models_at(observed, ts) })
        },
    }
}

proof fn lemma_observation_error_stays(ingested: Seq<(ResultFileView, MeasurementsView)>, k: int)
    requires
        0 <= k <= ingested.len(),
        observations(ingested.take(k)) is Err,
    ensures
        observations(ingested) == observations(ingested.take(k)),
    decreases ingested.len() - k,
{
    if k == ingested.len() {
        assert(ingested.take(k) =~= ingested);
    } else {
        assert(ingested.take(k + 1).drop_last() =~= ingested.take(k));
        lemma_observation_error_stays(ingested, k + 1);
    }
}

/// Reports that all observe something give one observation each.
pub proof fn lemma_one_observation_per_report(ingested: Seq<(ResultFileView, MeasurementsView)>)
    requires
        observations(ingested) is Ok,
    ensures
        observations(ingested)->Ok_0.len() == ingested.len(),
    decreases ingested.len(),
{
    if ingested.len() > 0 {
        lemma_one_observation_per_report(ingested.drop_last());
    }
}

/// All samples of one batch carry the same time, the one the batch was
/// taken at, and there is one for each report.
pub proof fn lemma_samples_share_timestamp(
    ingested: Seq<(ResultFileView, MeasurementsView)>,
    ts: Timestamp,
)
    requires
        samples_of(ingested, ts) is Ok,
    ensures
        samples_of(ingested, ts)->Ok_0.len() == ingested.len(),
        forall|i: int|
            0 <= i < ingested.len() ==> (#[trigger] samples_of(ingested, ts)->Ok_0[i]).ts == ts,
{
    lemma_one_observation_per_report(ingested);
}

/// All models of one baseline carry the same time, the one the batch was
/// taken at, and there is one for each report.
pub proof fn lemma_models_share_timestamp(
    version: Version,
    ingested: Seq<(ResultFileView, MeasurementsView)>,
    ts: Timestamp,
)
    requires
        baseline_of(version, ingested, ts) is Ok,
    ensures
        baseline_of(version, ingested, ts)->Ok_0.models.len() == ingested.len(),
        forall|i: int|
            0 <= i < ingested.len() ==> (#[trigger] baseline_of(
                version,
                ingested,
                ts,
            )->Ok_0.models[i]).ts == ts,
{
    lemma_one_observation_per_report(ingested);
}

/// No baseline is empty: without a report there is the error
/// `BaselineWithNoModelsErr`, and a baseline that is made is well formed.
pub proof fn lemma_no_empty_baseline(
    version: Version,
    ingested: Seq<(ResultFileView, MeasurementsView)>,
    ts: Timestamp,
)
    ensures
        ingested.len() == 0 ==> baseline_of(version, ingested, ts) == Err::<
            BaselineView,
            RunnerErrorView,
        >(RunnerErrorView::BaselineWithNoModelsErr()),
        baseline_of(version, ingested, ts) is Ok ==> baseline_of(
            version,
            ingested,
            ts,
        )->Ok_0.well_formed(),
{
}

/// What one report observes: the metric named by the stem of its file, and
/// its first result entry.
///
/// Fails with `MetricFilenameParseErr` where the stem names no metric, else
/// with `NoResultsErr` where the report has no result entry.
pub fn observe(file: ResultFile, report: Measurements) -> (r: Result<
    (Metric, Measurement),
    RunnerError,
>)
    ensures
        deep_result(r) == observation(file@, report@),
{
    match Metric::from_str(file.stem.as_str()) {
        Err(e) => Err(e),
        Ok(metric) => {
            let mut results = report.results;
            if results.len() == 0 {
                Err(RunnerError::NoResultsErr(file.path))
            } else {
                let first = results.remove(0);
                Ok((metric, first))
            }
        },
    }
}

/// What the reports observe, in order; fails with the error of the first
/// report that observes nothing.
pub fn observe_all(ingested: Vec<(ResultFile, Measurements)>) -> (r: Result<
    Vec<(Metric, Measurement)>,
    RunnerError,
>)
    ensures
        deep_result(r) == observations(ingested.deep_view()),
{
    let ghost all = ingested.deep_view();
    let mut observed: Vec<(Metric, Measurement)> = Vec::new();
    assert(all.take(0) =~= Seq::empty());
    assert(observed.deep_view() =~= Seq::empty());
    for entry in it: ingested.into_iter()
        invariant
            all == ingested.deep_view(),
            it.seq() == ingested@,
            observations(all.take(it.index() as int)) == Ok::<
                Seq<(MetricView, MeasurementView)>,
                RunnerErrorView,
            >(observed.deep_view()),
    {
        proof {
            let i = it.index() as int;
            assert(all.take(i + 1).drop_last() =~= all.take(i));
            assert(all.take(i + 1).last() == entry.deep_view());
        }
        let (file, report) = entry;
        match observe(file, report) {
            Err(e) => {
                proof {
                    lemma_observation_error_stays(all, it.index() + 1);
                }
                return Err(e);
            },
            Ok(o) => {
                let ghost before = observed.deep_view();
                observed.push(o);
                assert(observed.deep_view() =~= before.push(o.deep_view()));
            },
        }
    }
    assert(all.take(all.len() as int) =~= all);
    Ok(observed)
}

/// One sample for each report of a batch, in the order of the reports, all
/// with the time `ts`.
///
/// Fails with the error of the first report that observes nothing.
pub fn samples_from_measurements(ingested: Vec<(ResultFile, Measurements)>, ts: Timestamp) -> (r:
    Result<Vec<Sample>, RunnerError>)
    ensures
        deep_result(r) == samples_of(ingested.deep_view(), ts),
        r matches Ok(samples) ==> samples.len() == ingested.len() && forall|i: int|
            0 <= i < samples.len() ==> (#[trigger] samples[i]).ts == ts,
{
    match observe_all(ingested) {
        Err(e) => Err(e),
        Ok(observed) => {
            let ghost all = observed.deep_view();
            proof {
                lemma_one_observation_per_report(ingested.deep_view());
            }
            let mut samples: Vec<Sample> = Vec::new();
            for o in it: observed.into_iter()
                invariant
                    all == observed.deep_view(),
                    it.seq() == observed@,
                    samples.len() == it.index(),
                    forall|i: int|
                        0 <= i < samples.len() ==> (#[trigger] samples[i])@ == samples_at(
                            all,
                            ts,
                        )[i],
            {
                assert(all[it.index() as int] == o.deep_view());
                let (metric, measurement) = o;
                samples.push(Sample::from_measurement(metric, ts, measurement));
            }
            assert(samples.deep_view() =~= samples_at(all, ts));
            Ok(samples)
        },
    }
}

/// The baseline of `version`: one model for each report of a batch, in the
/// order of the reports, all with the time `ts`.
///
/// Fails with the error of the first report that observes nothing, and
/// with `BaselineWithNoModelsErr` where there is no report.
pub fn from_measurements(
    version: Version,
    ingested: Vec<(ResultFile, Measurements)>,
    ts: Timestamp,
) -> (r: Result<Baseline, RunnerError>)
    ensures
        deep_result(r) == baseline_of(version, ingested.deep_view(), ts),
        ingested.len() == 0 ==> r is Err && r->Err_0@ == RunnerErrorView::BaselineWithNoModelsErr(),
        r matches Ok(baseline) ==> baseline@.well_formed() && baseline.version == version
            && baseline.models.len() == ingested.len() && forall|i: int|
            0 <= i < baseline.models.len() ==> (#[trigger] baseline.models[i]).ts == ts,
{
    match observe_all(ingested) {
        Err(e) => Err(e),
        Ok(observed) => {
            let ghost all = observed.deep_view();
            proof {
                lemma_one_observation_per_report(ingested.deep_view());
            }
            let mut models: Vec<MetricModel> = Vec::new();
            for o in it: observed.into_iter()
                invariant
                    all == observed.deep_view(),
                    it.seq() == observed@,
                    models.len() == it.index(),
                    forall|i: int|
                        0 <= i < models.len() ==> (#[trigger] models[i])@ == models_at(all, ts)[i],
            {
                assert(all[it.index() as int] == o.deep_view());
                let (metric, measurement) = o;
                models.push(MetricModel { metric, ts, measurement });
            }
            assert(models.deep_view() =~= models_at(all, ts));
            if models.len() == 0 {
                Err(RunnerError::BaselineWithNoModelsErr())
            } else {
                Ok(Baseline { version, models })
            }
        },
    }
}

} // verus!

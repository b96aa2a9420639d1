//! Per-tick decisions of the three recurring jobs.
//!
//! The scheduler around these functions (timers, fetching, persistence,
//! fan-out) performs the outside work; everything a tick decides — which
//! anomalies a tenant's series yields, which of them deserve an alert,
//! what a forecast record holds, how a budget stands — is computed here,
//! verified, from plain values.

use vstd::prelude::*;

use crate::anomaly::{
    anomaly_indices, lemma_anomaly_indices_in_range, matches_finding, threshold_centi_for,
    AnomalyDetector, DetectedAnomaly, VALUE_LIMIT,
};
use crate::dates::{next_day, spec_plus_days, Date, YEAR_MAX};
use crate::forecast::{
    fit_shape_ok, generate_forecast, spec_confidence_centi, spec_scale_pct, EtsFit, ForecastError,
    ForecastResult, PREDICTION_LIMIT,
};
use crate::models::Severity;

verus! {

/// Sensitivity, in hundredths, that the recurring anomaly job runs with.
pub const JOB_SENSITIVITY_CENTI: i64 = 10;

/// Fewest daily totals before a tenant's series is scanned for anomalies.
pub const MIN_ANOMALY_POINTS: usize = 15;

/// Days predicted by the recurring forecast job.
pub const FORECAST_HORIZON: usize = 30;

/// Fewest daily totals before a tenant's series is forecast.
pub const MIN_FORECAST_HISTORY: usize = 14;

/// An anomaly bound to the calendar date it was observed on.
#[derive(Clone, Copy, Debug, PartialEq, Eq, Structural)]
pub struct DatedAnomaly {
    pub date: Date,
    pub finding: DetectedAnomaly,
}

/// Whether a finding is worth an immediate alert.
pub open spec fn is_severe(f: DetectedAnomaly) -> bool {
    f.severity == Severity::High || f.severity == Severity::Critical
}

/// The records whose findings are severe, in order.
pub open spec fn severe_alerts(s: Seq<DatedAnomaly>) -> Seq<DatedAnomaly>
    decreases s.len(),
{
    if s.len() == 0 {
        Seq::empty()
    } else if is_severe(s.last().finding) {
        severe_alerts(s.drop_last()).push(s.last())
    } else {
        severe_alerts(s.drop_last())
    }
}

/// What one anomaly tick found for a tenant: the records to persist and
/// the severe ones to publish as alerts.
pub struct AnomalyTickOutcome {
    pub records: Vec<DatedAnomaly>,
    pub alerts: Vec<DatedAnomaly>,
}

/// One anomaly-job tick for a tenant: scan its dated daily totals with
/// the job's fixed sensitivity, skip a short series, and single out the
/// high and critical findings for alerting.
pub fn run_anomaly_detection(dates: &Vec<Date>, values: &Vec<i64>) -> (r: AnomalyTickOutcome)
    requires
        dates@.len() == values@.len(),
        forall|k: int| 0 <= k < values@.len() ==> -VALUE_LIMIT <= #[trigger] values@[k] <= VALUE_LIMIT,
    ensures
        values@.len() < MIN_ANOMALY_POINTS ==> r.records@.len() == 0,
        values@.len() >= MIN_ANOMALY_POINTS ==> {
            let idxs = anomaly_indices(values@, threshold_centi_for(JOB_SENSITIVITY_CENTI as int));
            &&& r.records@.len() == idxs.len()
            &&& forall|k: int|
                0 <= k < idxs.len() ==> matches_finding(
                    values@,
                    idxs[k],
                    #[trigger] r.records@[k].finding,
                ) && r.records@[k].date == dates@[idxs[k]]
        },
        r.alerts@ == severe_alerts(r.records@),
{
    if values.len() < MIN_ANOMALY_POINTS {
        return AnomalyTickOutcome { records: Vec::new(), alerts: Vec::new() };
    }
    let detector = AnomalyDetector::new(JOB_SENSITIVITY_CENTI);
    let findings = detector.detect(values);
    let ghost idxs = anomaly_indices(values@, detector.z_threshold_centi as int);
    proof {
        lemma_anomaly_indices_in_range(
            values@,
            detector.z_threshold_centi as int,
            values@.len() as int,
        );
    }
    let mut records: Vec<DatedAnomaly> = Vec::new();
    let mut alerts: Vec<DatedAnomaly> = Vec::new();
    let mut i: usize = 0;
    while i < findings.len()
        invariant
            0 <= i <= findings@.len(),
            dates@.len() == values@.len(),
            findings@.len() == idxs.len(),
            forall|k: int| 0 <= k < idxs.len() ==> 14 <= #[trigger] idxs[k] < values@.len(),
            forall|k: int|
                0 <= k < idxs.len() ==> matches_finding(values@, idxs[k], #[trigger] findings@[k]),
            records@.len() == i,
            forall|k: int| 0 <= k < i ==> #[trigger] records@[k].finding == findings@[k],
            forall|k: int| 0 <= k < i ==> #[trigger] records@[k].date == dates@[idxs[k]],
            alerts@ == severe_alerts(records@),
        decreases findings@.len() - i,
    {
        let f = findings[i];
        proof {
            assert(matches_finding(values@, idxs[i as int], f));
        }
        let entry = DatedAnomaly { date: dates[f.index], finding: f };
        let ghost pre = records@;
        records.push(entry);
        if matches!(f.severity, Severity::High | Severity::Critical) {
            alerts.push(entry);
        }
        proof {
            assert(records@.drop_last() =~= pre);
            assert(records@.last() == entry);
        }
        i = i + 1;
    }
    AnomalyTickOutcome { records, alerts }
}

/// A forecast point bound to its calendar date.
#[derive(Clone, Copy, Debug, PartialEq, Eq, Structural)]
pub struct ForecastPoint {
    pub date: Date,
    pub predicted: i64,
    pub lower_bound: i64,
    pub upper_bound: i64,
}

/// What one forecast tick produces for a tenant: the dated points and
/// the figures persisted with them.
pub struct ForecastRecord {
    pub points: Vec<ForecastPoint>,
    pub total_cents: i128,
    pub confidence_centi: u32,
}

/// Sum of a series of cents.
pub open spec fn sum_cents(s: Seq<i64>) -> int
    decreases s.len(),
{
    if s.len() == 0 {
        0
    } else {
        sum_cents(s.drop_last()) + s.last()
    }
}

/// Whether a tenant's history is long enough for the forecast job.
pub fn should_run_forecast(series_len: usize) -> (r: bool)
    ensures
        r == (series_len >= MIN_FORECAST_HISTORY),
{
    series_len >= MIN_FORECAST_HISTORY
}

/// One forecast-job tick for a tenant: assemble the forecast from the
/// fit, date each point starting the day after the last historical date,
/// and total the predictions.
pub fn build_forecast_record(
    last_date: Date,
    series_len: usize,
    horizon: usize,
    fit: Result<EtsFit, String>,
) -> (r: Result<ForecastRecord, ForecastError>)
    requires
        last_date.wf(),
        last_date.year + horizon <= YEAR_MAX,
        fit matches Ok(f) ==> forall|i: int|
            0 <= i < f.point@.len() ==> -PREDICTION_LIMIT <= #[trigger] f.point@[i]
                <= PREDICTION_LIMIT,
    ensures
        series_len < crate::forecast::MIN_FORECAST_POINTS <==> r matches Err(
            ForecastError::InsufficientData,
        ),
        fit is Err && series_len >= crate::forecast::MIN_FORECAST_POINTS ==> r is Err
            && r->Err_0 is ModelFit && r->Err_0->ModelFit_0@ == fit->Err_0@,
        fit is Ok && series_len >= crate::forecast::MIN_FORECAST_POINTS && !fit_shape_ok(
            fit->Ok_0,
            horizon as int,
        ) ==> r matches Err(ForecastError::MalformedFit),
        fit is Ok && series_len >= crate::forecast::MIN_FORECAST_POINTS && fit_shape_ok(
            fit->Ok_0,
            horizon as int,
        ) ==> {
            let f = fit->Ok_0;
            let rec = r->Ok_0;
            &&& r is Ok
            &&& rec.points@.len() == horizon
            &&& forall|k: int|
                0 <= k < horizon ==> (#[trigger] rec.points@[k]).date == spec_plus_days(
                    last_date,
                    (k + 1) as nat,
                ) && rec.points@[k].date.wf()
            &&& forall|k: int| 0 <= k < horizon ==> (#[trigger] rec.points@[k]).predicted == f.point@[k]
            &&& f.intervals is Some ==> forall|k: int|
                0 <= k < horizon ==> (#[trigger] rec.points@[k]).lower_bound
                    == f.intervals.unwrap().lower@[k] && rec.points@[k].upper_bound
                    == f.intervals.unwrap().upper@[k]
            &&& f.intervals is None ==> forall|k: int|
                0 <= k < horizon ==> (#[trigger] rec.points@[k]).lower_bound == spec_scale_pct(
                    f.point@[k] as int,
                    85,
                ) && rec.points@[k].upper_bound == spec_scale_pct(f.point@[k] as int, 115)
            &&& rec.total_cents == sum_cents(f.point@)
            &&& rec.confidence_centi == spec_confidence_centi(series_len as int)
        },
{
    let ghost fit0 = fit;
    let result: ForecastResult = match generate_forecast(series_len, horizon, fit) {
        Ok(res) => res,
        Err(e) => {
            return Err(e);
        },
    };
    let mut points: Vec<ForecastPoint> = Vec::new();
    let mut total: i128 = 0;
    let mut date = last_date;
    let mut i: usize = 0;
    proof {
        assert(result.predicted@ == fit0->Ok_0.point@);
    }
    while i < horizon
        invariant
            0 <= i <= horizon,
            last_date.wf(),
            last_date.year + horizon <= YEAR_MAX,
            result.predicted@.len() == horizon,
            result.lower@.len() == horizon,
            result.upper@.len() == horizon,
            forall|k: int|
                0 <= k < horizon ==> -PREDICTION_LIMIT <= #[trigger] result.predicted@[k]
                    <= PREDICTION_LIMIT,
            date == spec_plus_days(last_date, i as nat),
            date.wf(),
            date.year <= last_date.year + i,
            points@.len() == i,
            forall|k: int|
                0 <= k < i ==> (#[trigger] points@[k]).date == spec_plus_days(
                    last_date,
                    (k + 1) as nat,
                ) && points@[k].date.wf(),
            forall|k: int|
                0 <= k < i ==> (#[trigger] points@[k]).predicted == result.predicted@[k]
                    && points@[k].lower_bound == result.lower@[k] && points@[k].upper_bound
                    == result.upper@[k],
            total == sum_cents(result.predicted@.take(i as int)),
            -(i as int) * (PREDICTION_LIMIT as int) <= total <= (i as int) * (
            PREDICTION_LIMIT as int),
        decreases horizon - i,
    {
        date = next_day(date);
        let p = result.predicted[i];
        let entry = ForecastPoint {
            date,
            predicted: p,
            lower_bound: result.lower[i],
            upper_bound: result.upper[i],
        };
        points.push(entry);
        total = total + (p as i128);
        proof {
            assert(result.predicted@.take(i + 1).drop_last() =~= result.predicted@.take(i as int));
            assert(result.predicted@.take(i + 1).last() == p);
        }
        i = i + 1;
    }
    proof {
        assert(result.predicted@.take(horizon as int) =~= result.predicted@);
    }
    Ok(
        ForecastRecord {
            points,
            total_cents: total,
            confidence_centi: result.confidence_centi,
        },
    )
}

} // verus!

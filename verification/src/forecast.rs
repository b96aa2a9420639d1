//! Interval forecasting around an exponential-smoothing fit.
//!
//! The numeric fit itself runs outside the library (it is floating-point
//! work); this module owns every decision around it: the minimum-history
//! gate, the shape checks, the fallback interval of ±15% and the
//! sample-size confidence score. Amounts are integer cents; the
//! confidence is in hundredths (80 stands for 0.80).

use vstd::prelude::*;

verus! {

/// Fewest history points a forecast may be fitted on.
pub const MIN_FORECAST_POINTS: usize = 7;

/// Largest magnitude (in cents) a fitted prediction may have; keeps the
/// ±15% fallback bounds inside `i64`.
pub const PREDICTION_LIMIT: i64 = 8_000_000_000_000_000_000;

/// Point predictions handed back by the fit, with interval bounds when
/// the model produced them (both bounds or neither).
pub struct EtsFit {
    pub point: Vec<i64>,
    pub intervals: Option<FitIntervals>,
}

/// Interval bounds produced by the fit.
pub struct FitIntervals {
    pub lower: Vec<i64>,
    pub upper: Vec<i64>,
}

/// Why no forecast was produced.
#[derive(Clone, Debug)]
pub enum ForecastError {
    /// The history is shorter than `MIN_FORECAST_POINTS`.
    InsufficientData,
    /// The model could not be fitted; carries the fitter's message.
    ModelFit(String),
    /// The fit came back with arrays of the wrong length.
    MalformedFit,
}

/// A forecast: `horizon` point predictions with interval bounds and a
/// confidence score in hundredths.
pub struct ForecastResult {
    pub predicted: Vec<i64>,
    pub lower: Vec<i64>,
    pub upper: Vec<i64>,
    pub confidence_centi: u32,
}

/// Confidence in hundredths: `min(0.95, 0.5 + 0.01 * n)` scaled by 100.
/// A function of the sample size alone, by design.
pub open spec fn spec_confidence_centi(series_len: int) -> int {
    if 50 + series_len <= 95 {
        50 + series_len
    } else {
        95
    }
}

pub fn confidence_centi(series_len: usize) -> (r: u32)
    ensures
        r == spec_confidence_centi(series_len as int),
{
    if series_len <= 45 {
        50 + (series_len as u32)
    } else {
        95
    }
}

/// `v` scaled by `pct` percent, rounded toward zero to the cent.
pub open spec fn spec_scale_pct(v: int, pct: int) -> int {
    if v >= 0 {
        v * pct / 100
    } else {
        -((-v) * pct / 100)
    }
}

fn scale_pct(v: i64, pct: u32) -> (r: i64)
    requires
        -PREDICTION_LIMIT <= v <= PREDICTION_LIMIT,
        pct == 85 || pct == 115,
    ensures
        r == spec_scale_pct(v as int, pct as int),
{
    let m: u128 = if v >= 0 {
        v as u128
    } else {
        (-v) as u128
    };
    assert(m * (pct as u128) <= 920_000_000_000_000_000_000) by (nonlinear_arith)
        requires
            m <= 8_000_000_000_000_000_000,
            pct <= 115,
    ;
    assert(m * (pct as u128) / 100 <= 9_200_000_000_000_000_000) by (nonlinear_arith)
        requires
            m * (pct as u128) <= 920_000_000_000_000_000_000,
    ;
    let scaled: u128 = m * (pct as u128) / 100;
    if v >= 0 {
        scaled as i64
    } else {
        -(scaled as i64)
    }
}

/// What a well-shaped fit for `horizon` looks like.
pub open spec fn fit_shape_ok(fit: EtsFit, horizon: int) -> bool {
    &&& fit.point@.len() == horizon
    &&& match fit.intervals {
        Option::None => true,
        Option::Some(iv) => iv.lower@.len() == horizon && iv.upper@.len() == horizon,
    }
}

/// What `generate_forecast` promises when it succeeds.
pub open spec fn forecast_ok(r: ForecastResult, fit: EtsFit, series_len: int, horizon: int) -> bool {
    &&& r.predicted@ == fit.point@
    &&& r.lower@.len() == horizon
    &&& r.upper@.len() == horizon
    &&& match fit.intervals {
        Option::Some(iv) => r.lower@ == iv.lower@ && r.upper@ == iv.upper@,
        Option::None => forall|i: int|
            0 <= i < horizon ==> #[trigger] r.lower@[i] == spec_scale_pct(fit.point@[i] as int, 85)
                && r.upper@[i] == spec_scale_pct(fit.point@[i] as int, 115),
    }
    &&& r.confidence_centi == spec_confidence_centi(series_len)
}

/// Assemble the forecast for a history of `series_len` points: reject a
/// short history, pass a fit failure through, check the fit's shape, and
/// fall back to ±15% bounds when the model gave no intervals.
pub fn generate_forecast(series_len: usize, horizon: usize, fit: Result<EtsFit, String>) -> (r:
    Result<ForecastResult, ForecastError>)
    requires
        fit matches Ok(f) ==> forall|i: int|
            0 <= i < f.point@.len() ==> -PREDICTION_LIMIT <= #[trigger] f.point@[i]
                <= PREDICTION_LIMIT,
    ensures
        series_len < MIN_FORECAST_POINTS <==> r matches Err(ForecastError::InsufficientData),
        fit is Err && series_len >= MIN_FORECAST_POINTS ==> r is Err && r->Err_0 is ModelFit
            && r->Err_0->ModelFit_0@ == fit->Err_0@,
        fit is Ok && series_len >= MIN_FORECAST_POINTS && !fit_shape_ok(fit->Ok_0, horizon as int)
            ==> r matches Err(ForecastError::MalformedFit),
        fit is Ok && series_len >= MIN_FORECAST_POINTS && fit_shape_ok(fit->Ok_0, horizon as int)
            ==> r is Ok && forecast_ok(r->Ok_0, fit->Ok_0, series_len as int, horizon as int),
{
    if series_len < MIN_FORECAST_POINTS {
        return Err(ForecastError::InsufficientData);
    }
    let fitted = match fit {
        Ok(f) => f,
        Err(m) => {
            return Err(ForecastError::ModelFit(m));
        },
    };
    if fitted.point.len() != horizon {
        return Err(ForecastError::MalformedFit);
    }
    let confidence = confidence_centi(series_len);
    match fitted.intervals {
        Some(iv) => {
            if iv.lower.len() != horizon || iv.upper.len() != horizon {
                return Err(ForecastError::MalformedFit);
            }
            Ok(
                ForecastResult {
                    predicted: fitted.point,
                    lower: iv.lower,
                    upper: iv.upper,
                    confidence_centi: confidence,
                },
            )
        },
        None => {
            let mut lower: Vec<i64> = Vec::new();
            let mut upper: Vec<i64> = Vec::new();
            let mut i: usize = 0;
            while i < fitted.point.len()
                invariant
                    0 <= i <= fitted.point@.len(),
                    forall|k: int|
                        0 <= k < fitted.point@.len() ==> -PREDICTION_LIMIT
                            <= #[trigger] fitted.point@[k] <= PREDICTION_LIMIT,
                    lower@.len() == i,
                    upper@.len() == i,
                    forall|k: int|
                        0 <= k < i ==> #[trigger] lower@[k] == spec_scale_pct(
                            fitted.point@[k] as int,
                            85,
                        ) && upper@[k] == spec_scale_pct(fitted.point@[k] as int, 115),
                decreases fitted.point@.len() - i,
            {
                let p = fitted.point[i];
                lower.push(scale_pct(p, 85));
                upper.push(scale_pct(p, 115));
                i = i + 1;
            }
            Ok(
                ForecastResult {
                    predicted: fitted.point,
                    lower,
                    upper,
                    confidence_centi: confidence,
                },
            )
        },
    }
}

/// On any history long enough to forecast, the confidence lies strictly
/// above 0.5 and at most 0.95.
pub proof fn lemma_confidence_bounds(series_len: int)
    requires
        series_len >= MIN_FORECAST_POINTS,
    ensures
        50 < spec_confidence_centi(series_len) <= 95,
{
}

} // verus!

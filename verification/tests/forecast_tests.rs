use augurs::ets::AutoETS;
use augurs::prelude::{Fit, Predict};

use finops_engine::dates::Date;
use finops_engine::forecast::{generate_forecast, EtsFit, FitIntervals, ForecastError};
use finops_engine::jobs::build_forecast_record;

/// Fit the series (in dollars) with the ETS model and hand the result
/// over in cents, as the library takes it.
fn fit_cents(data: &[f64], horizon: usize) -> Result<EtsFit, String> {
    let model = AutoETS::non_seasonal()
        .fit(data)
        .map_err(|e| format!("ETS fit error: {e}"))?;
    let forecast = model
        .predict(horizon, 0.95)
        .map_err(|e| format!("ETS predict error: {e}"))?;
    let to_cents = |v: &f64| (v * 100.0).round() as i64;
    let point: Vec<i64> = forecast.point.iter().map(to_cents).collect();
    let intervals = forecast.intervals.map(|iv| FitIntervals {
        lower: iv.lower.iter().map(to_cents).collect(),
        upper: iv.upper.iter().map(to_cents).collect(),
    });
    Ok(EtsFit { point, intervals })
}

#[test]
fn test_forecast_basic() {
    let data: Vec<f64> = (0..30).map(|i| 100.0 + (i as f64 * 0.5)).collect();

    let result = generate_forecast(data.len(), 7, fit_cents(&data, 7)).unwrap();
    assert_eq!(result.predicted.len(), 7);
    assert_eq!(result.lower.len(), 7);
    assert_eq!(result.upper.len(), 7);
    assert!(result.confidence_centi > 50);
}

#[test]
fn test_forecast_insufficient_data() {
    let data: Vec<f64> = (0..5).map(|i| 100.0 + i as f64).collect();
    let result = generate_forecast(data.len(), 7, fit_cents(&data, 7));
    assert!(matches!(result, Err(ForecastError::InsufficientData)));
    // A short history is rejected before the fit is examined.
    let result = generate_forecast(6, 7, Err("never fitted".to_string()));
    assert!(matches!(result, Err(ForecastError::InsufficientData)));
}

#[test]
fn test_forecast_confidence_from_sample_size() {
    let fit = || Ok(EtsFit { point: vec![1000; 7], intervals: None });
    // min(0.95, 0.5 + 0.01 * len), in hundredths.
    assert_eq!(generate_forecast(30, 7, fit()).unwrap().confidence_centi, 80);
    assert_eq!(generate_forecast(7, 7, fit()).unwrap().confidence_centi, 57);
    assert_eq!(generate_forecast(45, 7, fit()).unwrap().confidence_centi, 95);
    assert_eq!(generate_forecast(500, 7, fit()).unwrap().confidence_centi, 95);
}

#[test]
fn test_forecast_fallback_intervals() {
    // Without model intervals the bounds fall back to +/- 15%.
    let fit = Ok(EtsFit { point: vec![10000, 20000, -10000], intervals: None });
    let result = generate_forecast(30, 3, fit).unwrap();
    assert_eq!(result.lower, vec![8500, 17000, -8500]);
    assert_eq!(result.upper, vec![11500, 23000, -11500]);
}

#[test]
fn test_forecast_model_intervals_kept() {
    let fit = Ok(EtsFit {
        point: vec![10000, 20000],
        intervals: Some(FitIntervals { lower: vec![9000, 19000], upper: vec![11000, 21000] }),
    });
    let result = generate_forecast(30, 2, fit).unwrap();
    assert_eq!(result.predicted, vec![10000, 20000]);
    assert_eq!(result.lower, vec![9000, 19000]);
    assert_eq!(result.upper, vec![11000, 21000]);
}

#[test]
fn test_forecast_fit_error_passed_through() {
    let result = generate_forecast(30, 7, Err("model blew up".to_string()));
    match result {
        Err(ForecastError::ModelFit(m)) => assert_eq!(m, "model blew up"),
        other => panic!("expected a fit error, got {:?}", other.map(|_| ())),
    }
}

#[test]
fn test_forecast_malformed_fit() {
    let fit = Ok(EtsFit { point: vec![1000; 5], intervals: None });
    assert!(matches!(generate_forecast(30, 7, fit), Err(ForecastError::MalformedFit)));
    let fit = Ok(EtsFit {
        point: vec![1000; 7],
        intervals: Some(FitIntervals { lower: vec![900; 6], upper: vec![1100; 7] }),
    });
    assert!(matches!(generate_forecast(30, 7, fit), Err(ForecastError::MalformedFit)));
}

#[test]
fn test_forecast_record_dates_and_total() {
    let last = Date { year: 2024, month: 12, day: 30 };
    let fit = Ok(EtsFit { point: vec![1000, 2000, 3000], intervals: None });
    let record = build_forecast_record(last, 30, 3, fit).unwrap();
    assert_eq!(record.points.len(), 3);
    assert_eq!(record.points[0].date, Date { year: 2024, month: 12, day: 31 });
    assert_eq!(record.points[1].date, Date { year: 2025, month: 1, day: 1 });
    assert_eq!(record.points[2].date, Date { year: 2025, month: 1, day: 2 });
    assert_eq!(record.points[0].predicted, 1000);
    assert_eq!(record.points[0].lower_bound, 850);
    assert_eq!(record.points[0].upper_bound, 1150);
    assert_eq!(record.total_cents, 6000);
    assert_eq!(record.confidence_centi, 80);
}

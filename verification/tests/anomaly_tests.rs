use finops_engine::anomaly::{classify_severity, AnomalyDetector};
use finops_engine::models::Severity;

/// 20 points cycling 100/101/102 dollars, then one 500-dollar spike.
fn spike_series_cents() -> Vec<i64> {
    let mut data: Vec<i64> = (0..20).map(|i| 10000 + (i % 3) * 100).collect();
    data.push(50000);
    data
}

#[test]
fn test_detect_spike() {
    // Sensitivity 0.30 (threshold 2.1 z-score units).
    let detector = AnomalyDetector::new(30);
    let anomalies = detector.detect(&spike_series_cents());

    assert!(!anomalies.is_empty());
    assert_eq!(anomalies[0].index, 20);
}

#[test]
fn test_spike_is_only_finding() {
    let detector = AnomalyDetector::new(30);
    let anomalies = detector.detect(&spike_series_cents());

    assert_eq!(anomalies.len(), 1);
    assert_eq!(anomalies[0].value, 50000);
    // Window sum of indices 6..=19: 14 * 10000 + 5 * 100 + 4 * 200.
    assert_eq!(anomalies[0].window_sum, 141300);
    // The spike sits almost 400% above the window mean.
    assert_eq!(anomalies[0].severity, Severity::Critical);
    // |z| is far beyond 5, so the score saturates.
    assert_eq!(anomalies[0].score_milli, 1000);
}

#[test]
fn test_no_anomaly_stable() {
    let data: Vec<i64> = (0..30).map(|_| 10000).collect();
    let detector = AnomalyDetector::new(10);
    let anomalies = detector.detect(&data);
    assert!(anomalies.is_empty());
}

#[test]
fn test_short_series_returns_empty() {
    // Up to 14 points there is nothing to compare against.
    let detector = AnomalyDetector::new(50);
    let data: Vec<i64> = (0..14).map(|i| 10000 + (i % 5) * 700).collect();
    assert!(detector.detect(&data).is_empty());
    let short: Vec<i64> = vec![1, 1000000, 3];
    assert!(detector.detect(&short).is_empty());
    assert!(detector.detect(&Vec::new()).is_empty());
}

#[test]
fn test_constant_series_returns_empty() {
    // Population std-dev of every window stays below the 0.001 floor.
    let detector = AnomalyDetector::new(100);
    for len in [15usize, 40, 100] {
        let data: Vec<i64> = (0..len).map(|_| 123456).collect();
        assert!(detector.detect(&data).is_empty(), "length {len}");
    }
}

#[test]
fn test_threshold_mapping() {
    // sensitivity 0 -> 3.0; 1 -> 1.5; 2 -> 1.5 (clamped); linear between.
    assert_eq!(AnomalyDetector::new(0).z_threshold_centi, 300);
    assert_eq!(AnomalyDetector::new(-5).z_threshold_centi, 300);
    assert_eq!(AnomalyDetector::new(100).z_threshold_centi, 150);
    assert_eq!(AnomalyDetector::new(200).z_threshold_centi, 150);
    assert_eq!(AnomalyDetector::new(30).z_threshold_centi, 210);
    assert_eq!(AnomalyDetector::new(10).z_threshold_centi, 270);
    assert_eq!(AnomalyDetector::new(99).z_threshold_centi, 150);
}

#[test]
fn test_small_deviation_is_low_severity() {
    // A 3-dollar bump over a ~101-dollar mean: anomalous at the lowest
    // threshold, but only ~3% off, far under the 25% medium band.
    let mut data: Vec<i64> = (0..20).map(|i| 10000 + (i % 3) * 100).collect();
    data.push(10400);
    let detector = AnomalyDetector::new(100);
    let anomalies = detector.detect(&data);
    assert_eq!(anomalies.len(), 1);
    assert_eq!(anomalies[0].index, 20);
    assert_eq!(anomalies[0].severity, Severity::Low);
}

#[test]
fn test_multiple_anomalies_in_ascending_order() {
    // Two spikes, a few days apart; both are reported, oldest first.
    let mut data: Vec<i64> = (0..20).map(|i| 10000 + (i % 3) * 100).collect();
    data.push(50000);
    data.push(10000);
    data.push(10100);
    data.push(60000);
    let detector = AnomalyDetector::new(30);
    let anomalies = detector.detect(&data);
    assert_eq!(anomalies.len(), 2);
    assert_eq!(anomalies[0].index, 20);
    assert_eq!(anomalies[1].index, 23);
}

#[test]
fn test_classify_severity_bands() {
    assert_eq!(classify_severity(10000), Severity::Critical);
    assert_eq!(classify_severity(25000), Severity::Critical);
    assert_eq!(classify_severity(9999), Severity::High);
    assert_eq!(classify_severity(5000), Severity::High);
    assert_eq!(classify_severity(4999), Severity::Medium);
    assert_eq!(classify_severity(2500), Severity::Medium);
    assert_eq!(classify_severity(2499), Severity::Low);
    assert_eq!(classify_severity(0), Severity::Low);
}

#[test]
fn test_window_size_is_fixed() {
    assert_eq!(AnomalyDetector::new(30).window_size, 14);
}

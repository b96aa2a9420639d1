//! Rolling-window z-score anomaly detection over a daily spend series.
//!
//! Amounts are integer cents. The classifier slides a fixed 14-point window
//! over the series; for each later point it compares the point's distance
//! from the window mean against a threshold expressed in z-score units.
//! All comparisons are carried out exactly on integers by clearing
//! denominators: with `S` the window sum, `Q` the window sum of squares and
//! `N = 14`, the window's population variance is `(N*Q - S*S) / N^2` square
//! cents, so every test on the mean, the standard deviation or the z-score
//! becomes a polynomial comparison on `S`, `Q` and the observed value.

use vstd::prelude::*;

use crate::models::Severity;
use crate::numeric::{isqrt_small, lemma_isqrt_bounds, spec_isqrt};

verus! {

/// Number of preceding points whose mean and deviation classify a point.
pub const WINDOW_SIZE: usize = 14;

/// Largest magnitude (in cents) a series value may have; keeps every
/// intermediate polynomial comparison inside `i128`.
pub const VALUE_LIMIT: i64 = 100_000_000_000_000;

/// Sum of `s[lo..hi]` as a mathematical integer.
pub open spec fn sum_vals(s: Seq<i64>, lo: int, hi: int) -> int
    decreases hi - lo,
{
    if hi <= lo {
        0
    } else {
        sum_vals(s, lo, hi - 1) + s[hi - 1]
    }
}

/// Sum of the squares of `s[lo..hi]` as a mathematical integer.
pub open spec fn sum_squares(s: Seq<i64>, lo: int, hi: int) -> int
    decreases hi - lo,
{
    if hi <= lo {
        0
    } else {
        sum_squares(s, lo, hi - 1) + s[hi - 1] * s[hi - 1]
    }
}

/// Sum of the 14 values preceding index `i`.
pub open spec fn window_sum(s: Seq<i64>, i: int) -> int {
    sum_vals(s, i - 14, i)
}

/// Sum of squares of the 14 values preceding index `i`.
pub open spec fn window_sq_sum(s: Seq<i64>, i: int) -> int {
    sum_squares(s, i - 14, i)
}

/// `N^2` times the population variance of the window before `i`:
/// `N*Q - S*S`. Nonnegative for any real window; zero exactly when the
/// window is constant.
pub open spec fn dispersion(s: Seq<i64>, i: int) -> int {
    14 * window_sq_sum(s, i) - window_sum(s, i) * window_sum(s, i)
}

/// `N` times the deviation of `s[i]` from the window mean.
pub open spec fn deviation_num(s: Seq<i64>, i: int) -> int {
    14 * s[i] - window_sum(s, i)
}

/// The degenerate-window test: the population standard deviation is below
/// 0.001 currency units. In cents, `sqrt(D)/(100*N) < 1/1000`, which clears
/// to `100*D < N^2 = 196`.
pub open spec fn is_flat_window(s: Seq<i64>, i: int) -> bool {
    100 * dispersion(s, i) < 196
}

/// Whether index `i` is reported for threshold `t` (in hundredths of a
/// z-score unit): the window is not degenerate and `|z| > t/100`, cleared
/// of denominators to `10000 * (N*dev)^2 > t^2 * D`.
pub open spec fn is_anomalous(s: Seq<i64>, i: int, t: int) -> bool {
    &&& 14 <= i < s.len()
    &&& !is_flat_window(s, i)
    &&& 10000 * (deviation_num(s, i) * deviation_num(s, i)) > (t * t) * dispersion(s, i)
}

/// Severity band for index `i`, from the deviation as a percentage of the
/// window mean: at least 100% is critical, 50% high, 25% medium, else low.
/// When the mean is within 0.001 currency units of zero the percentage is
/// taken as zero. With `a = N*dev` and `m = S` the guard `|S/(100*N)| >
/// 1/1000` clears to `10*|m| > 14`, and `|100*a/m| >= p` clears to
/// `100*|a| >= p*|m|`.
pub open spec fn severity_for(s: Seq<i64>, i: int) -> Severity {
    let a = vstd::math::abs(deviation_num(s, i));
    let m = vstd::math::abs(window_sum(s, i));
    if !(10 * m > 14) {
        Severity::Low
    } else if a >= m {
        Severity::Critical
    } else if 2 * a >= m {
        Severity::High
    } else if 4 * a >= m {
        Severity::Medium
    } else {
        Severity::Low
    }
}

/// Anomaly score in thousandths, rounded down: `min(|z|/5, 1)` scaled to
/// `[0, 1000]`. Since `z^2 = (N*dev)^2 / D`, the floor of `1000*|z|/5` is
/// the integer square root of `40000*(N*dev)^2 / D`.
pub open spec fn score_milli_for(s: Seq<i64>, i: int) -> int {
    let q = 40000 * (deviation_num(s, i) * deviation_num(s, i)) / dispersion(s, i);
    if spec_isqrt(q) >= 1000 {
        1000
    } else {
        spec_isqrt(q)
    }
}

/// The reported indices among `[14, n)`, in ascending order.
pub open spec fn anomaly_indices_upto(s: Seq<i64>, t: int, n: int) -> Seq<int>
    decreases n,
{
    if n <= 14 {
        Seq::empty()
    } else if is_anomalous(s, n - 1, t) {
        anomaly_indices_upto(s, t, n - 1).push(n - 1)
    } else {
        anomaly_indices_upto(s, t, n - 1)
    }
}

/// All reported indices of the series, in ascending order.
pub open spec fn anomaly_indices(s: Seq<i64>, t: int) -> Seq<int> {
    anomaly_indices_upto(s, t, s.len() as int)
}

/// One reported point: the observed value, the window sum it was judged
/// against (the expected value is `window_sum / 14` cents), the score in
/// thousandths and the severity band.
#[derive(Clone, Copy, Debug, PartialEq, Eq, Structural)]
pub struct DetectedAnomaly {
    pub index: usize,
    pub value: i64,
    pub window_sum: i64,
    pub score_milli: u32,
    pub severity: Severity,
}

/// What `detect` promises of each reported entry.
pub open spec fn matches_finding(s: Seq<i64>, i: int, e: DetectedAnomaly) -> bool {
    &&& e.index == i
    &&& e.value == s[i]
    &&& e.window_sum == window_sum(s, i)
    &&& e.severity == severity_for(s, i)
    &&& e.score_milli == score_milli_for(s, i)
}

/// Severity band for an absolute deviation percentage given in
/// hundredths of a percent: at least 100% is critical, 50% high, 25%
/// medium, anything less low.
pub open spec fn severity_for_pct_centi(pct_centi: int) -> Severity {
    if pct_centi >= 10000 {
        Severity::Critical
    } else if pct_centi >= 5000 {
        Severity::High
    } else if pct_centi >= 2500 {
        Severity::Medium
    } else {
        Severity::Low
    }
}

/// Severity band for an absolute deviation percentage in hundredths of a
/// percent (so 10000 stands for 100%).
pub fn classify_severity(deviation_pct_centi: i64) -> (r: Severity)
    ensures
        r == severity_for_pct_centi(deviation_pct_centi as int),
{
    if deviation_pct_centi >= 10000 {
        Severity::Critical
    } else if deviation_pct_centi >= 5000 {
        Severity::High
    } else if deviation_pct_centi >= 2500 {
        Severity::Medium
    } else {
        Severity::Low
    }
}

/// Threshold (hundredths of a z-score unit) for a sensitivity given in
/// hundredths: `3.0 - 3.0 * sensitivity`, clamped to `[1.5, 3.0]`.
pub open spec fn threshold_centi_for(sensitivity_centi: int) -> int {
    if sensitivity_centi <= 0 {
        300
    } else if sensitivity_centi >= 100 {
        150
    } else if 300 - 3 * sensitivity_centi >= 150 {
        300 - 3 * sensitivity_centi
    } else {
        150
    }
}

/// Rolling z-score classifier. The threshold is in hundredths of a z-score
/// unit (so 300 stands for 3.0).
pub struct AnomalyDetector {
    pub window_size: usize,
    pub z_threshold_centi: i64,
}

impl AnomalyDetector {
    pub open spec fn wf(&self) -> bool {
        &&& self.window_size == 14
        &&& 150 <= self.z_threshold_centi <= 300
    }

    /// Build a detector from a sensitivity in hundredths (30 stands for
    /// 0.30). Higher sensitivity means a lower threshold, hence more
    /// reported anomalies.
    pub fn new(sensitivity_centi: i64) -> (r: Self)
        ensures
            r.wf(),
            r.z_threshold_centi == threshold_centi_for(sensitivity_centi as int),
    {
        let t: i64 = if sensitivity_centi <= 0 {
            300
        } else if sensitivity_centi >= 100 {
            150
        } else {
            let linear = 300 - 3 * sensitivity_centi;
            if linear >= 150 {
                linear
            } else {
                150
            }
        };
        AnomalyDetector { window_size: WINDOW_SIZE, z_threshold_centi: t }
    }

    /// Scan the series and report every anomalous index in ascending order.
    /// A series no longer than the window yields an empty report.
    pub fn detect(&self, data: &Vec<i64>) -> (r: Vec<DetectedAnomaly>)
        requires
            self.wf(),
            forall|k: int|
                0 <= k < data@.len() ==> -VALUE_LIMIT <= #[trigger] data@[k] <= VALUE_LIMIT,
        ensures
            r@.len() == anomaly_indices(data@, self.z_threshold_centi as int).len(),
            forall|k: int|
                0 <= k < r@.len() ==> matches_finding(
                    data@,
                    anomaly_indices(data@, self.z_threshold_centi as int)[k],
                    #[trigger] r@[k],
                ),
            data@.len() <= 14 ==> r@.len() == 0,
    {
        let ghost s = data@;
        let t: i64 = self.z_threshold_centi;
        let mut out: Vec<DetectedAnomaly> = Vec::new();
        if data.len() < 15 {
            assert(anomaly_indices(s, t as int).len() == 0);
            return out;
        }
        let mut i: usize = 14;
        while i < data.len()
            invariant
                14 <= i <= s.len(),
                s == data@,
                s.len() >= 15,
                150 <= t <= 300,
                forall|k: int| 0 <= k < s.len() ==> -VALUE_LIMIT <= #[trigger] s[k] <= VALUE_LIMIT,
                out@.len() == anomaly_indices_upto(s, t as int, i as int).len(),
                forall|k: int|
                    0 <= k < out@.len() ==> matches_finding(
                        s,
                        anomaly_indices_upto(s, t as int, i as int)[k],
                        #[trigger] out@[k],
                    ),
            decreases s.len() - i,
        {
            // Window sums: S in cents, Q in square cents.
            let mut s_acc: i64 = 0;
            let mut q_acc: i128 = 0;
            let mut j: usize = i - 14;
            while j < i
                invariant
                    14 <= i <= s.len(),
                    s == data@,
                    i - 14 <= j <= i,
                    forall|k: int|
                        0 <= k < s.len() ==> -VALUE_LIMIT <= #[trigger] s[k] <= VALUE_LIMIT,
                    s_acc == sum_vals(s, i - 14, j as int),
                    q_acc == sum_squares(s, i - 14, j as int),
                    -((j - i + 14) as int) * (VALUE_LIMIT as int) <= s_acc as int <= ((j - i
                        + 14) as int) * (VALUE_LIMIT as int),
                    0 <= q_acc as int <= ((j - i + 14) as int)
                        * 10_000_000_000_000_000_000_000_000_000,
                decreases i - j,
            {
                let v: i64 = data[j];
                assert(0 <= (v as i128) * (v as i128) <= 10_000_000_000_000_000_000_000_000_000)
                    by (nonlinear_arith)
                    requires
                        -VALUE_LIMIT <= v <= VALUE_LIMIT,
                ;
                s_acc = s_acc + v;
                q_acc = q_acc + (v as i128) * (v as i128);
                j = j + 1;
            }
            let sw: i128 = s_acc as i128;
            assert(0 <= sw * sw <= 2_000_000_000_000_000_000_000_000_000_000) by (nonlinear_arith)
                requires
                    -1_400_000_000_000_000 <= sw <= 1_400_000_000_000_000,
            ;
            let d: i128 = 14 * q_acc - sw * sw;
            assert(d == dispersion(s, i as int));
            if 100 * d >= 196 {
                let vi: i64 = data[i];
                let a: i128 = 14 * (vi as i128) - sw;
                assert(a == deviation_num(s, i as int));
                assert(0 <= a * a <= 7_840_000_000_000_000_000_000_000_000_000)
                    by (nonlinear_arith)
                    requires
                        -2_800_000_000_000_000 <= a <= 2_800_000_000_000_000,
                ;
                let lhs: i128 = 10000 * (a * a);
                assert(0 <= (t as i128) * (t as i128) <= 90_000) by (nonlinear_arith)
                    requires
                        150 <= t <= 300,
                ;
                let tt: i128 = (t as i128) * (t as i128);
                assert(-190_000_000_000_000_000_000_000_000_000_000_000 <= tt * d
                    <= 190_000_000_000_000_000_000_000_000_000_000_000) by (nonlinear_arith)
                    requires
                        0 <= tt <= 90_000,
                        -2_100_000_000_000_000_000_000_000_000_000 <= d
                            <= 2_100_000_000_000_000_000_000_000_000_000,
                ;
                let rhs: i128 = tt * d;
                if lhs > rhs {
                    assert(is_anomalous(s, i as int, t as int));
                    // Severity from the deviation as a percentage of the mean.
                    let abs_a: i128 = if a >= 0 {
                        a
                    } else {
                        -a
                    };
                    let abs_m: i128 = if sw >= 0 {
                        sw
                    } else {
                        -sw
                    };
                    let sev: Severity = if !(10 * abs_m > 14) {
                        Severity::Low
                    } else if abs_a >= abs_m {
                        Severity::Critical
                    } else if 2 * abs_a >= abs_m {
                        Severity::High
                    } else if 4 * abs_a >= abs_m {
                        Severity::Medium
                    } else {
                        Severity::Low
                    };
                    assert(sev == severity_for(s, i as int));
                    // Score: isqrt(40000 * a^2 / D), capped at 1000.
                    let num: i128 = 40000 * (a * a);
                    let qn: u128 = (num as u128) / (d as u128);
                    let ghost qi = 40000 * (deviation_num(s, i as int) * deviation_num(
                        s,
                        i as int,
                    )) / dispersion(s, i as int);
                    assert(qn as int == qi);
                    let score: u32 = if qn >= 1_000_000 {
                        proof {
                            lemma_isqrt_bounds(qi);
                            if spec_isqrt(qi) < 1000 {
                                assert((spec_isqrt(qi) + 1) * (spec_isqrt(qi) + 1) <= 1_000_000)
                                    by (nonlinear_arith)
                                    requires
                                        0 <= spec_isqrt(qi) < 1000,
                                ;
                            }
                        }
                        1000
                    } else {
                        let r0 = isqrt_small(qn as u64);
                        proof {
                            lemma_isqrt_bounds(qi);
                            if spec_isqrt(qi) >= 1000 {
                                assert(spec_isqrt(qi) * spec_isqrt(qi) >= 1_000_000)
                                    by (nonlinear_arith)
                                    requires
                                        spec_isqrt(qi) >= 1000,
                                ;
                            }
                        }
                        r0 as u32
                    };
                    assert(score == score_milli_for(s, i as int));
                    let entry = DetectedAnomaly {
                        index: i,
                        value: vi,
                        window_sum: s_acc,
                        score_milli: score,
                        severity: sev,
                    };
                    out.push(entry);
                } else {
                    assert(!is_anomalous(s, i as int, t as int));
                }
            } else {
                assert(is_flat_window(s, i as int));
            }
            i = i + 1;
        }
        out
    }
}

/// Every reported index lies in `[14, n)`.
pub proof fn lemma_anomaly_indices_in_range(s: Seq<i64>, t: int, n: int)
    ensures
        forall|k: int|
            0 <= k < anomaly_indices_upto(s, t, n).len() ==> 14 <= #[trigger] anomaly_indices_upto(
                s,
                t,
                n,
            )[k] < n,
    decreases n,
{
    if n > 14 {
        lemma_anomaly_indices_in_range(s, t, n - 1);
        let prev = anomaly_indices_upto(s, t, n - 1);
        let cur = anomaly_indices_upto(s, t, n);
        assert forall|k: int| 0 <= k < cur.len() implies 14 <= #[trigger] cur[k] < n by {
            if is_anomalous(s, n - 1, t) {
                assert(cur == prev.push(n - 1));
                if k < prev.len() {
                    assert(cur[k] == prev[k]);
                } else {
                    assert(cur[k] == n - 1);
                }
            } else {
                assert(cur == prev);
            }
        }
    }
}

/// On a window whose mean clears the degenerate-mean guard, the severity
/// assigned by the detector is exactly the band of the deviation
/// percentage, taken in hundredths of a percent and rounded down.
pub proof fn lemma_severity_agrees_with_bands(s: Seq<i64>, i: int)
    requires
        10 * vstd::math::abs(window_sum(s, i)) > 14,
    ensures
        severity_for(s, i) == severity_for_pct_centi(
            (10000 * vstd::math::abs(deviation_num(s, i)) / vstd::math::abs(
                window_sum(s, i),
            )) as int,
        ),
{
    let a = vstd::math::abs(deviation_num(s, i));
    let m = vstd::math::abs(window_sum(s, i));
    assert(m >= 2);
    let p = 10000 * a / m;
    assert(p >= 10000 <==> a >= m) by (nonlinear_arith)
        requires
            m >= 2,
            a >= 0,
            p == 10000 * a / m,
    ;
    assert(p >= 5000 <==> 2 * a >= m) by (nonlinear_arith)
        requires
            m >= 2,
            a >= 0,
            p == 10000 * a / m,
    ;
    assert(p >= 2500 <==> 4 * a >= m) by (nonlinear_arith)
        requires
            m >= 2,
            a >= 0,
            p == 10000 * a / m,
    ;
}

/// The report is ordered: indices strictly ascend.
pub proof fn lemma_anomaly_indices_ascending(s: Seq<i64>, t: int, n: int)
    ensures
        forall|k1: int, k2: int|
            0 <= k1 < k2 < anomaly_indices_upto(s, t, n).len() ==> #[trigger] anomaly_indices_upto(
                s,
                t,
                n,
            )[k1] < #[trigger] anomaly_indices_upto(s, t, n)[k2],
    decreases n,
{
    if n > 14 {
        lemma_anomaly_indices_ascending(s, t, n - 1);
        lemma_anomaly_indices_in_range(s, t, n - 1);
        let prev = anomaly_indices_upto(s, t, n - 1);
        let cur = anomaly_indices_upto(s, t, n);
        assert forall|k1: int, k2: int|
            0 <= k1 < k2 < cur.len() implies #[trigger] cur[k1] < #[trigger] cur[k2] by {
            if is_anomalous(s, n - 1, t) {
                assert(cur == prev.push(n - 1));
                if k2 < prev.len() {
                    assert(cur[k1] == prev[k1] && cur[k2] == prev[k2]);
                } else {
                    assert(cur[k2] == n - 1);
                    assert(cur[k1] == prev[k1] && prev[k1] < n - 1);
                }
            } else {
                assert(cur == prev);
            }
        }
    }
}

/// A series no longer than the rolling window yields no anomalies.
pub proof fn lemma_no_anomalies_in_short_series(s: Seq<i64>, t: int)
    requires
        s.len() <= 14,
    ensures
        anomaly_indices(s, t).len() == 0,
{
}

proof fn lemma_sums_of_constant_window(s: Seq<i64>, lo: int, hi: int, c: i64)
    requires
        0 <= lo <= hi <= s.len(),
        forall|k: int| lo <= k < hi ==> s[k] == c,
    ensures
        sum_vals(s, lo, hi) == (hi - lo) * c,
        sum_squares(s, lo, hi) == (hi - lo) * (c * c),
    decreases hi - lo,
{
    if hi <= lo {
        assert((hi - lo) * c == 0) by (nonlinear_arith)
            requires
                hi - lo == 0,
        ;
        assert((hi - lo) * (c * c) == 0) by (nonlinear_arith)
            requires
                hi - lo == 0,
        ;
    } else {
        lemma_sums_of_constant_window(s, lo, hi - 1, c);
        assert((hi - 1 - lo) * c + c == (hi - lo) * c) by (nonlinear_arith);
        assert((hi - 1 - lo) * (c * c) + c * c == (hi - lo) * (c * c)) by (nonlinear_arith);
    }
}

proof fn lemma_no_anomalous_index_means_empty(s: Seq<i64>, t: int, n: int)
    requires
        forall|i: int| 14 <= i < n ==> !is_anomalous(s, i, t),
    ensures
        anomaly_indices_upto(s, t, n).len() == 0,
    decreases n,
{
    if n > 14 {
        lemma_no_anomalous_index_means_empty(s, t, n - 1);
    }
}

/// A constant series yields no anomalies: every window has zero
/// dispersion, so every index is skipped by the degenerate-window test.
pub proof fn lemma_no_anomalies_in_constant_series(s: Seq<i64>, t: int)
    requires
        forall|i: int, j: int| 0 <= i < s.len() && 0 <= j < s.len() ==> s[i] == s[j],
    ensures
        anomaly_indices(s, t).len() == 0,
{
    if s.len() <= 14 {
        lemma_no_anomalies_in_short_series(s, t);
    } else {
        let c = s[0];
        assert forall|i: int| 14 <= i < s.len() implies !is_anomalous(s, i, t) by {
            lemma_sums_of_constant_window(s, i - 14, i, c);
            assert(window_sum(s, i) == 14 * c);
            assert(window_sq_sum(s, i) == 14 * (c * c));
            assert((14 * c) * (14 * c) == 14 * (14 * (c * c))) by (nonlinear_arith);
            assert(dispersion(s, i) == 0);
            assert(is_flat_window(s, i));
        }
        lemma_no_anomalous_index_means_empty(s, t, s.len() as int);
    }
}

} // verus!

//! Analytics-and-notification engine for multi-tenant cloud-spend data.
//!
//! The library holds the verified core: rolling z-score anomaly detection,
//! interval forecasting around an exponential-smoothing fit, budget-period
//! evaluation, rule-based auto-approval of remediation proposals, and a
//! per-tenant publish/subscribe alert hub. Monetary amounts are carried as
//! integer cents, ratios as fixed-point integers, so every rule is exact.

pub mod anomaly;
pub mod approval;
pub mod budget;
pub mod config;
pub mod crypto;
pub mod dates;
pub mod forecast;
pub mod hub;
pub mod intent;
pub mod jobs;
pub mod models;
pub mod numeric;

//! Plain data types shared across the engine: severity bands, provider
//! kinds, pagination, per-tenant settings and the request/query shapes that
//! callers hand in at the API edge.

use vstd::prelude::*;

verus! {

/// Severity band assigned to a detected anomaly, derived from how far the
/// observed value deviates from the rolling-window mean.
#[derive(Clone, Copy, Debug, PartialEq, Eq, Structural)]
pub enum Severity {
    Low,
    Medium,
    High,
    Critical,
}

/// Supported cloud providers.
#[derive(Clone, Copy, Debug, PartialEq, Eq, Structural)]
pub enum CloudProviderType {
    Aws,
    Azure,
    Gcp,
}

/// Page bookkeeping for list endpoints.
#[derive(Clone, Copy, Debug)]
pub struct Pagination {
    pub page: i64,
    pub page_size: i64,
    pub total: i64,
}

impl Pagination {
    pub fn new(page: i64, page_size: i64, total: i64) -> (r: Self)
        ensures
            r.page == page,
            r.page_size == page_size,
            r.total == total,
    {
        Self { page, page_size, total }
    }

    /// Number of rows to skip for this page: `(page - 1) * page_size`.
    pub fn offset(&self) -> (r: i64)
        requires
            i64::MIN <= (self.page - 1) * self.page_size <= i64::MAX,
        ensures
            r == (self.page - 1) * self.page_size,
    {
        let wide: i128 = (self.page as i128 - 1) * (self.page_size as i128);
        wide as i64
    }
}

/// Per-tenant preferences, with the defaults applied when a field is absent.
#[derive(Clone, Debug)]
pub struct OrganizationSettings {
    pub default_currency: String,
    pub timezone: String,
    pub fiscal_year_start: i32,
    pub alerts_enabled: bool,
    pub slack_webhook_url: Option<String>,
    pub email_recipients: Vec<String>,
}

impl Default for OrganizationSettings {
    /// Defaults: USD, UTC, fiscal year starting in January, alerts on.
    fn default() -> (r: Self)
        ensures
            r.default_currency@ == "USD"@,
            r.timezone@ == "UTC"@,
            r.fiscal_year_start == 1,
            r.alerts_enabled == true,
            r.slack_webhook_url is None,
            r.email_recipients@.len() == 0,
    {
        OrganizationSettings {
            default_currency: "USD".to_owned(),
            timezone: "UTC".to_owned(),
            fiscal_year_start: 1,
            alerts_enabled: true,
            slack_webhook_url: None,
            email_recipients: Vec::new(),
        }
    }
}

/// Filters accepted by the anomaly listing endpoint.
#[derive(Clone, Debug)]
pub struct AnomalyQueryParams {
    pub severity: Option<String>,
    pub status: Option<String>,
    pub provider: Option<String>,
    pub service: Option<String>,
    pub page: Option<i64>,
    pub page_size: Option<i64>,
}

/// Fields a caller may change on a stored anomaly.
#[derive(Clone, Debug)]
pub struct UpdateAnomalyRequest {
    pub status: Option<String>,
    pub notes: Option<String>,
    pub root_cause: Option<String>,
}

/// Filters accepted by the forecast listing endpoint.
#[derive(Clone, Debug)]
pub struct ForecastQueryParams {
    pub page: Option<i64>,
    pub page_size: Option<i64>,
    pub service: Option<String>,
    pub account_id: Option<String>,
}

/// Filters accepted by the policy listing endpoint.
#[derive(Clone, Debug)]
pub struct PolicyQueryParams {
    pub policy_type: Option<String>,
    pub enabled: Option<bool>,
    pub page: Option<i64>,
    pub page_size: Option<i64>,
}

/// Filters accepted by the recommendation listing endpoint.
#[derive(Clone, Debug)]
pub struct RecommendationQueryParams {
    pub status: Option<String>,
    pub rec_type: Option<String>,
    pub impact: Option<String>,
    pub provider: Option<String>,
    pub page: Option<i64>,
    pub page_size: Option<i64>,
}

/// Status change requested for a recommendation.
#[derive(Clone, Debug)]
pub struct UpdateRecommendationStatusRequest {
    pub status: String,
    pub notes: Option<String>,
}

/// Reason given when rejecting a remediation action.
#[derive(Clone, Debug)]
pub struct RejectRemediationRequest {
    pub reason: String,
}

/// AWS account credentials, held encrypted at rest.
#[derive(Clone, Debug)]
pub struct AwsCredentials {
    pub access_key_id: String,
    pub secret_key: String,
    pub region: String,
    pub assume_role_arn: Option<String>,
    pub external_id: Option<String>,
}

/// Azure service-principal credentials, held encrypted at rest.
#[derive(Clone, Debug)]
pub struct AzureCredentials {
    pub tenant_id: String,
    pub client_id: String,
    pub client_secret: String,
    pub subscription_id: String,
}

/// Query parameters of the live-alert socket endpoint.
#[derive(Clone, Debug)]
pub struct WsParams {
    pub token: String,
}

/// Credentials presented at login.
#[derive(Clone, Debug)]
pub struct LoginRequest {
    pub email: String,
    pub password: String,
}

/// Fields required to create an account and its tenant.
#[derive(Clone, Debug)]
pub struct SignupRequest {
    pub email: String,
    pub password: String,
    pub first_name: String,
    pub last_name: String,
    pub organization_name: String,
}

/// A freshly generated API key, shown to the caller exactly once.
#[derive(Clone, Debug)]
pub struct ApiKeyResponse {
    pub key: String,
    pub message: String,
}

} // verus!

use vstd::prelude::*;

pub mod aggregator;
pub mod analyzer;

verus! {

/// How grave an anomaly is.
#[derive(Debug, Clone, Copy, PartialEq, Eq, Structural)]
pub enum AnomalySeverity {
    Low,
    Medium,
    High,
    Critical,
}

/// What a request for analytics may select by.
#[derive(Debug, Clone)]
pub struct AnalyticsQueryParams {
    /// The name of the time window to aggregate by.
    pub window: Option<String>,
    /// The name of the metric.
    pub metric: Option<String>,
}

} // verus!

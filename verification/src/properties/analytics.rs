//! Property analytics value objects.

use vstd::prelude::*;

verus! {

/// How a property's usage changes over time.
#[derive(Debug, Clone, Copy, PartialEq, Eq, Structural)]
pub enum TrendDirection {
    /// Used more than before.
    Rising,
    /// Used about as much as before.
    Stable,
    /// Used less than before.
    Declining,
    /// Not used before.
    New,
}

/// Limits for analytics queries.
#[derive(Debug, Clone)]
pub struct AnalyticsParams {
    /// How many co-occurrences to report.
    pub co_occurrence_limit: usize,
    /// How many trends to report.
    pub trend_limit: usize,
    /// The trend period, in days.
    pub trend_period_days: u32,
}

impl Default for AnalyticsParams {
    /// Twenty co-occurrences, twenty trends, over thirty days.
    fn default() -> (res: Self)
        ensures
            res.co_occurrence_limit == 20,
            res.trend_limit == 20,
            res.trend_period_days == 30,
    {
        AnalyticsParams { co_occurrence_limit: 20, trend_limit: 20, trend_period_days: 30 }
    }
}

} // verus!

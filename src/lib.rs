//! Load generation and measurement for an HTTP load tester: the pacer that
//! schedules requests, the samples that workers report, the running report
//! that folds them, and the latency percentiles shown on the dashboard.

pub mod aggregator;
pub mod config;
pub mod dashboard;
pub mod pacer;
pub mod percentile;
pub mod report;

//! The aggregator's decisions: each sample is folded into the report, and
//! everything the next repaint needs is computed from it.

use vstd::prelude::*;
use crate::dashboard::{chart_bounds, chart_bounds_spec, progress_ppm, progress_ppm_spec};
use crate::percentile::percentile_of;
use crate::report::{tally_step, Report, Sample};

verus! {

/// What one repaint of the dashboard shows besides the report itself.
#[derive(Clone, Copy, Debug, PartialEq, Eq)]
pub struct Frame {
    /// Latency percentiles, in nanoseconds.
    pub p99: u64,
    pub p95: u64,
    pub p90: u64,
    /// Upper bound of the chart's time axis, in whole seconds.
    pub x_max: u64,
    /// Upper bound of the chart's latency axis, in whole seconds.
    pub y_max: u64,
    /// Progress of the test, in parts per million.
    pub progress_ppm: u64,
}

/// The aggregator's state: the report it alone writes, and the test length.
pub struct Aggregator {
    pub report: Report,
    /// Length of the test, in nanoseconds.
    pub test_duration: u64,
}

impl Aggregator {
    pub open spec fn wf(&self) -> bool {
        &&& self.report.wf()
        &&& self.test_duration > 0
    }

    /// An aggregator with an empty report, for a test of `test_duration`
    /// nanoseconds.
    pub fn new(test_duration: u64) -> (r: Aggregator)
        requires
            test_duration > 0,
        ensures
            r.wf(),
            r.test_duration == test_duration,
            r.report.counters() == crate::report::zero_counters(),
            r.report.elapsed == 0,
            r.report.latency_samples@.len() == 0,
            r.report.latency_series@.len() == 0,
    {
        Aggregator { report: Report::new(), test_duration }
    }

    /// Folds `sample`, received `elapsed` nanoseconds after the start, into
    /// the report and returns what the repaint shows.
    pub fn on_sample(&mut self, sample: &Sample, elapsed: u64) -> (r: Frame)
        requires
            old(self).wf(),
            sample.wf(),
            old(self).report.total_requests < i64::MAX,
            old(self).report.elapsed <= elapsed,
        ensures
            final(self).wf(),
            final(self).test_duration == old(self).test_duration,
            final(self).report.counters() == tally_step(old(self).report.counters(), *sample),
            final(self).report.elapsed == elapsed,
            final(self).report.latency_samples@ == (if sample.duration > 0 {
                old(self).report.latency_samples@.push(sample.duration)
            } else {
                old(self).report.latency_samples@
            }),
            final(self).report.latency_series@ == old(self).report.latency_series@.push(
                (elapsed, r.p99),
            ),
            r.p99 == percentile_of(final(self).report.latency_samples@, 99),
            r.p95 == percentile_of(final(self).report.latency_samples@, 95),
            r.p90 == percentile_of(final(self).report.latency_samples@, 90),
            (r.x_max as int, r.y_max as int) == chart_bounds_spec(elapsed as int, r.p99 as int),
            r.progress_ppm == progress_ppm_spec(elapsed as int, old(self).test_duration as int),
    {
        let (p99, p95, p90) = self.report.record_sample(sample, elapsed);
        let (x_max, y_max) = chart_bounds(elapsed, p99);
        let progress = progress_ppm(elapsed, self.test_duration);
        Frame { p99, p95, p90, x_max, y_max, progress_ppm: progress }
    }
}

} // verus!

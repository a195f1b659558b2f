use loadtest::aggregator::Aggregator;
use loadtest::dashboard::{Number, RequestWrapper};
use loadtest::report::{Report, Sample};

const MS: u64 = 1_000_000;
const SEC: u64 = 1_000_000_000;

fn fold(samples: &[Sample]) -> Report {
    let mut r = Report::new();
    for (k, s) in samples.iter().enumerate() {
        r.record_sample(s, (k as u64 + 1) * 100 * MS);
    }
    r
}

#[test]
fn sample_of_ok_response_succeeds() {
    let s = Sample::from_outcome(Some(200), 10 * MS);
    assert_eq!((s.succeeded, s.failed, s.total_requests), (1, 0, 1));
    assert_eq!(s.duration, 10 * MS);
    assert_eq!(s.status_code, Some(200));
}

#[test]
fn sample_of_error_status_fails() {
    let s = Sample::from_outcome(Some(500), 3 * MS);
    assert_eq!((s.succeeded, s.failed, s.total_requests), (0, 1, 1));
    assert_eq!(s.status_code, Some(500));
    let s = Sample::from_outcome(Some(201), 3 * MS);
    assert_eq!((s.succeeded, s.failed), (0, 1));
}

#[test]
fn sample_of_transport_error_fails_without_code() {
    let s = Sample::from_outcome(None, 2 * MS);
    assert_eq!((s.succeeded, s.failed, s.total_requests), (0, 1, 1));
    assert_eq!(s.status_code, None);
}

#[test]
fn new_report_is_empty() {
    let r = Report::new();
    assert_eq!((r.succeeded, r.failed, r.total_requests), (0, 0, 0));
    assert_eq!((r.elapsed, r.transaction_rate), (0, 0));
    assert!(r.latency_samples.is_empty());
    assert!(r.latency_series.is_empty());
    assert!(r.status_code_counts.is_empty());
}

#[test]
fn add_report_adds_counts_and_sets_clock() {
    let mut r = Report::new();
    r.add_report(3, 2, 5, 7 * SEC);
    r.add_report(1, 0, 1, 8 * SEC);
    assert_eq!((r.succeeded, r.failed, r.total_requests, r.elapsed), (4, 2, 6, 8 * SEC));
}

#[test]
fn all_ok_run_counts_every_request_as_success() {
    // 30 requests answered 200 in 10 ms
    let samples: Vec<Sample> = (0..30).map(|_| Sample::from_outcome(Some(200), 10 * MS)).collect();
    let mut r = Report::new();
    let mut last = (0, 0, 0);
    for (k, s) in samples.iter().enumerate() {
        last = r.record_sample(s, (k as u64 + 1) * 100 * MS);
    }
    assert!(r.total_requests >= 27 && r.total_requests <= 31);
    assert_eq!(r.succeeded, r.total_requests);
    assert_eq!(r.failed, 0);
    assert!(last.0 >= 8 * MS && last.0 <= 50 * MS);
    assert_eq!(r.status_code_counts.get(&200), Some(&30));
}

#[test]
fn all_errors_run_counts_every_request_as_failure() {
    let samples: Vec<Sample> = (0..30).map(|_| Sample::from_outcome(Some(500), 10 * MS)).collect();
    let r = fold(&samples);
    assert_eq!(r.succeeded, 0);
    assert_eq!(r.failed, r.total_requests);
    assert_eq!(r.status_code_counts.len(), 1);
    assert_eq!(r.status_code_counts.get(&500), Some(&30));
}

#[test]
fn alternating_run_balances_successes_and_failures() {
    let samples: Vec<Sample> = (0..21)
        .map(|k| Sample::from_outcome(Some(if k % 2 == 0 { 200 } else { 500 }), 10 * MS))
        .collect();
    let r = fold(&samples);
    assert!((r.succeeded - r.failed).abs() <= 1);
    assert_eq!(r.succeeded + r.failed, 21);
}

#[test]
fn transport_errors_leave_code_counts_empty() {
    let samples: Vec<Sample> = (0..10).map(|_| Sample::from_outcome(None, 1 * MS)).collect();
    let r = fold(&samples);
    assert_eq!(r.failed, r.total_requests);
    assert_eq!(r.total_requests, 10);
    assert!(r.status_code_counts.is_empty());
}

#[test]
fn counters_balance_after_every_sample() {
    let mut r = Report::new();
    for k in 0..50u64 {
        let code = match k % 3 {
            0 => Some(200),
            1 => Some(404),
            _ => None,
        };
        r.record_sample(&Sample::from_outcome(code, k * MS), k * SEC);
        assert_eq!(r.succeeded + r.failed, r.total_requests);
    }
}

#[test]
fn zero_durations_are_not_kept() {
    let mut r = Report::new();
    r.record_sample(&Sample::from_outcome(Some(200), 0), 1 * SEC);
    r.record_sample(&Sample::from_outcome(Some(200), 5 * MS), 2 * SEC);
    assert_eq!(r.total_requests, 2);
    assert_eq!(r.latency_samples, vec![5 * MS]);
    assert!(r.latency_samples.iter().all(|d| *d > 0));
}

#[test]
fn positive_durations_keep_one_sample_per_request() {
    let samples: Vec<Sample> = (1..=12).map(|k| Sample::from_outcome(Some(200), k * MS)).collect();
    let r = fold(&samples);
    assert_eq!(r.latency_samples.len() as i64, r.total_requests);
}

#[test]
fn latency_series_follows_the_clock() {
    let mut r = Report::new();
    let times = [SEC, SEC, 2 * SEC, 5 * SEC];
    for t in times {
        r.record_sample(&Sample::from_outcome(Some(200), 10 * MS), t);
    }
    let xs: Vec<u64> = r.latency_series.iter().map(|p| p.0).collect();
    assert_eq!(xs, times.to_vec());
    assert!(xs.windows(2).all(|w| w[0] <= w[1]));
}

#[test]
fn transaction_rate_is_elapsed_per_request() {
    let mut r = Report::new();
    r.record_sample(&Sample::from_outcome(Some(200), MS), SEC);
    assert_eq!(r.transaction_rate, SEC);
    r.record_sample(&Sample::from_outcome(Some(200), MS), SEC);
    r.record_sample(&Sample::from_outcome(Some(200), MS), 3 * SEC);
    assert_eq!(r.transaction_rate, SEC);
    r.record_sample(&Sample::from_outcome(Some(200), MS), 5 * SEC);
    assert_eq!(r.transaction_rate, 5 * SEC / 4);
}

#[test]
fn fold_order_does_not_change_counters() {
    let samples: Vec<Sample> = vec![
        Sample::from_outcome(Some(200), 4 * MS),
        Sample::from_outcome(Some(500), 2 * MS),
        Sample::from_outcome(None, 9 * MS),
        Sample::from_outcome(Some(404), 1 * MS),
        Sample::from_outcome(Some(500), 3 * MS),
    ];
    let mut reversed = samples.clone();
    reversed.reverse();
    let a = fold(&samples);
    let b = fold(&reversed);
    assert_eq!((a.succeeded, a.failed, a.total_requests), (b.succeeded, b.failed, b.total_requests));
    assert_eq!(a.status_code_counts, b.status_code_counts);
    assert_eq!(a.status_code_counts.get(&500), Some(&2));
}

#[test]
fn aggregator_frame_matches_report() {
    let mut agg = Aggregator::new(10 * SEC);
    let f = agg.on_sample(&Sample::from_outcome(Some(200), 1200 * MS), 2500 * MS);
    assert_eq!((f.p99, f.p95, f.p90), (1200 * MS, 1200 * MS, 1200 * MS));
    assert_eq!(f.x_max, 2);
    assert_eq!(f.y_max, 2);
    assert_eq!(f.progress_ppm, 250_000);
    assert_eq!(agg.report.latency_series, vec![(2500 * MS, 1200 * MS)]);
}

#[test]
fn request_rows_follow_report() {
    let mut r = Report::new();
    r.record_sample(&Sample::from_outcome(Some(200), MS), 4 * SEC);
    r.record_sample(&Sample::from_outcome(Some(503), MS), 4 * SEC);
    let rows = RequestWrapper::of_report(&r);
    let labels: Vec<&str> = rows.events.iter().map(|e| e.0).collect();
    assert_eq!(labels, vec!["Total Requests", "Succeeded", "Failed", "Transaction Rate"]);
    assert_eq!(rows.events[0].1, Number::Int(2));
    assert_eq!(rows.events[1].1, Number::Int(1));
    assert_eq!(rows.events[2].1, Number::Int(1));
    assert_eq!(rows.events[3].1, Number::Nanos(2 * SEC));
}

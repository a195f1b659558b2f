use loadtest::percentile::calculate_percentile;

const MS: u64 = 1_000_000;

#[test]
fn empty_history_gives_zero_percentiles() {
    let mut d: Vec<u64> = Vec::new();
    assert_eq!(calculate_percentile(&mut d), (0, 0, 0));
    assert!(d.is_empty());
}

#[test]
fn only_zero_durations_give_zero_percentiles() {
    let mut d: Vec<u64> = vec![0, 0, 0];
    assert_eq!(calculate_percentile(&mut d), (0, 0, 0));
    assert!(d.is_empty());
}

#[test]
fn hundred_step_vector_gives_nearest_rank_percentiles() {
    // 0.01 s, 0.02 s, ..., 1.00 s, shuffled
    let mut d: Vec<u64> = (1..=100u64).rev().map(|k| k * 10 * MS).collect();
    d.swap(3, 77);
    let (p99, p95, p90) = calculate_percentile(&mut d);
    assert_eq!(p99, 990 * MS);
    assert_eq!(p95, 950 * MS);
    assert_eq!(p90, 900 * MS);
}

#[test]
fn constant_vector_gives_constant_percentiles() {
    let v = 42 * MS;
    let mut d: Vec<u64> = vec![v; 100];
    assert_eq!(calculate_percentile(&mut d), (v, v, v));
    let mut d: Vec<u64> = vec![v; 250];
    assert_eq!(calculate_percentile(&mut d), (v, v, v));
}

#[test]
fn single_duration_is_every_percentile() {
    let mut d: Vec<u64> = vec![0, 7, 0];
    assert_eq!(calculate_percentile(&mut d), (7, 7, 7));
    assert_eq!(d, vec![7]);
}

#[test]
fn zeros_are_dropped_and_rest_sorted() {
    let mut d: Vec<u64> = vec![5, 0, 3, 9, 0, 1];
    let (p99, p95, p90) = calculate_percentile(&mut d);
    assert_eq!(d, vec![1, 3, 5, 9]);
    // ceil(p * 4 / 100) = 4 for p = 90, 95, 99
    assert_eq!((p99, p95, p90), (9, 9, 9));
}

#[test]
fn twenty_samples_keep_percentiles_ordered() {
    let mut d: Vec<u64> = (1..=20u64).collect();
    let (p99, p95, p90) = calculate_percentile(&mut d);
    assert_eq!((p99, p95, p90), (20, 19, 18));
    assert!(p90 <= p95 && p95 <= p99);
}

#[test]
fn percentiles_ordered_on_uneven_lengths() {
    for n in 1..=300u64 {
        let mut d: Vec<u64> = (0..n).map(|k| (k * 7919) % 1000 + 1).collect();
        let (p99, p95, p90) = calculate_percentile(&mut d);
        assert!(p90 <= p95 && p95 <= p99, "n = {}", n);
    }
}

use llm_registry_benchmarks::compare::{classify, duration_change_bp};
use llm_registry_benchmarks::time::now;
use llm_registry_benchmarks::{
    compare_results, BenchmarkMetrics, BenchmarkResult, BenchmarkStatus, Change,
};

fn create_test_result(id: &str, duration_us: u64) -> BenchmarkResult {
    BenchmarkResult {
        target_id: id.to_string(),
        metrics: BenchmarkMetrics::new(duration_us),
        timestamp: now(),
        metadata: None,
        status: BenchmarkStatus::Success,
        error: None,
    }
}

#[test]
fn test_compare_results() {
    let baseline = vec![
        create_test_result("test1", 100_000),
        create_test_result("test2", 200_000),
    ];

    let current = vec![
        create_test_result("test1", 80_000),  // 20% improvement
        create_test_result("test2", 220_000), // 10% regression
    ];

    let summary = compare_results(&baseline, &current);

    assert_eq!(summary.comparisons.len(), 2);
    assert_eq!(summary.improvements().len(), 1);
    assert_eq!(summary.regressions().len(), 1);
}

#[test]
fn change_percentages_exact_values() {
    assert_eq!(duration_change_bp(100_000, 80_000), -2000);
    assert_eq!(duration_change_bp(100_000, 120_000), 2000);
    assert_eq!(duration_change_bp(0, 50_000), 0);
    // Relative to the baseline, so swapping does not simply negate.
    assert_eq!(duration_change_bp(80_000, 100_000), 2500);
    // Rounded away from zero.
    assert_eq!(duration_change_bp(3, 4), 3334);
    assert_eq!(duration_change_bp(3, 2), -3334);
}

#[test]
fn tolerance_band_boundaries_are_unchanged() {
    assert_eq!(duration_change_bp(100_000, 105_000), 500);
    assert_eq!(duration_change_bp(100_000, 95_000), -500);
    assert_eq!(classify(500), Change::Unchanged);
    assert_eq!(classify(-500), Change::Unchanged);
    assert_eq!(classify(501), Change::Regression);
    assert_eq!(classify(-501), Change::Improvement);
    assert_eq!(classify(duration_change_bp(100_000, 105_001)), Change::Regression);
    assert_eq!(classify(duration_change_bp(100_000, 94_999)), Change::Improvement);
}

#[test]
fn end_to_end_two_benchmarks() {
    let baseline = vec![create_test_result("a", 100_000), create_test_result("b", 200_000)];
    let current = vec![create_test_result("a", 80_000), create_test_result("b", 220_000)];
    let summary = compare_results(&baseline, &current);
    assert_eq!(summary.comparisons.len(), 2);
    let imps = summary.improvements();
    let regs = summary.regressions();
    assert_eq!(imps.len(), 1);
    assert_eq!(imps[0].target_id, "a");
    assert_eq!(imps[0].duration_change_bp, -2000);
    assert_eq!(regs.len(), 1);
    assert_eq!(regs[0].target_id, "b");
    assert_eq!(regs[0].duration_change_bp, 1000);
    assert_eq!(summary.unchanged().len(), 0);
}

#[test]
fn partitions_cover_every_comparison() {
    let baseline = vec![
        create_test_result("a", 100),
        create_test_result("b", 100),
        create_test_result("c", 100),
        create_test_result("d", 0),
    ];
    let current = vec![
        create_test_result("a", 50),
        create_test_result("b", 103),
        create_test_result("c", 400),
        create_test_result("d", 7),
    ];
    let s = compare_results(&baseline, &current);
    assert_eq!(s.comparisons.len(), 4);
    assert_eq!(
        s.improvements().len() + s.regressions().len() + s.unchanged().len(),
        s.comparisons.len()
    );
    assert_eq!(s.unchanged().len(), 2);
}

#[test]
fn unmatched_dropped_and_last_baseline_wins() {
    let baseline = vec![
        create_test_result("x", 100),
        create_test_result("only_base", 5),
        create_test_result("x", 200),
    ];
    let current = vec![
        create_test_result("new", 10),
        create_test_result("x", 300),
    ];
    let s = compare_results(&baseline, &current);
    assert_eq!(s.comparisons.len(), 1);
    assert_eq!(s.comparisons[0].target_id, "x");
    assert_eq!(s.comparisons[0].baseline_duration_us, 200);
    assert_eq!(s.comparisons[0].current_duration_us, 300);
    assert_eq!(s.comparisons[0].duration_change_bp, 5000);
}

#[test]
fn comparisons_keep_current_order() {
    let baseline = vec![create_test_result("a", 10), create_test_result("b", 10)];
    let current = vec![create_test_result("b", 20), create_test_result("a", 5)];
    let s = compare_results(&baseline, &current);
    let ids: Vec<&str> = s.comparisons.iter().map(|c| c.target_id.as_str()).collect();
    assert_eq!(ids, vec!["b", "a"]);
}

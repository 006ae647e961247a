use llm_registry_benchmarks::time::now;
use llm_registry_benchmarks::{
    generate_comparison_report, generate_pr_comment, generate_report, generate_summary,
    render_comparison_report, render_report, BenchmarkComparison, BenchmarkMetadata,
    BenchmarkMetrics, BenchmarkResult, BenchmarkStatus, ComparisonSummary,
};

fn create_test_result(id: &str, duration_us: u64, status: BenchmarkStatus) -> BenchmarkResult {
    BenchmarkResult {
        target_id: id.to_string(),
        metrics: BenchmarkMetrics::new(duration_us),
        timestamp: now(),
        metadata: Some(BenchmarkMetadata::collect(
            "1.75.0",
            "x86_64-unknown-linux-gnu",
            "linux",
            "x86_64",
        )),
        status,
        error: if status == BenchmarkStatus::Failed {
            Some("Test error".to_string())
        } else {
            None
        },
    }
}

fn comparison(id: &str, baseline_us: u64, current_us: u64, bp: i128) -> BenchmarkComparison {
    BenchmarkComparison {
        target_id: id.to_string(),
        baseline_duration_us: baseline_us,
        current_duration_us: current_us,
        duration_change_bp: bp,
    }
}

#[test]
fn test_generate_report() {
    let results = vec![
        create_test_result("test1", 100_000, BenchmarkStatus::Success),
        create_test_result("test2", 200_000, BenchmarkStatus::Success),
        create_test_result("test3", 150_000, BenchmarkStatus::Failed),
    ];

    let report = generate_report(&results);

    assert!(report.contains("# Benchmark Results"));
    assert!(report.contains("Total Benchmarks: 3"));
    assert!(report.contains("Successful: 2"));
    assert!(report.contains("Failed: 1"));
    assert!(report.contains("test1"));
    assert!(report.contains("test2"));
    assert!(report.contains("test3"));
}

#[test]
fn test_generate_comparison_report() {
    let comparisons = vec![
        comparison("test1", 100_000, 80_000, -2000),
        comparison("test2", 100_000, 120_000, 2000),
    ];

    let summary = ComparisonSummary { comparisons };
    let report = generate_comparison_report(&summary, "baseline", "current");

    assert!(report.contains("# Benchmark Comparison Report"));
    assert!(report.contains("Improvements: 1"));
    assert!(report.contains("Regressions: 1"));
}

#[test]
fn test_generate_pr_comment() {
    let comparisons = vec![comparison("test", 100_000, 90_000, -1000)];

    let summary = ComparisonSummary { comparisons };
    let comment = generate_pr_comment(&summary);

    assert!(comment.contains("📊 Benchmark Results"));
    assert!(comment.contains("🚀 Performance Improvements"));
}

#[test]
fn single_result_report_exact_text() {
    let metrics = BenchmarkMetrics::new(1234)
        .with_throughput(2_500_000)
        .with_memory(1_572_864);
    let results = vec![BenchmarkResult::success("a", metrics)];
    let expected = "# Benchmark Results\n\n**Generated:** T\n\n## Summary\n\n\
- Total Benchmarks: 1\n- Successful: 1 ✓\n\n## Results\n\n\
| Benchmark | Status | Duration (ms) | Throughput (ops/sec) | Memory (MB) |\n\
|-----------|--------|---------------|----------------------|-------------|\n\
| a | ✓ | 1.23 | 2500.00 | 1.50 |\n\n## Performance Insights\n\n\
**Fastest:** a (1.23ms)\n**Slowest:** a (1.23ms)\n**Average Duration:** 1.23ms\n\n";
    assert_eq!(render_report(&results, "T"), expected);
}

#[test]
fn empty_report_still_has_header_and_summary() {
    let report = render_report(&[], "T");
    assert_eq!(
        report,
        "# Benchmark Results\n\n**Generated:** T\n\n## Summary\n\n- Total Benchmarks: 0\n- Successful: 0 ✓\n\n"
    );
    let live = generate_report(&[]);
    assert!(live.starts_with("# Benchmark Results\n\n**Generated:** "));
    assert!(live.contains("Total Benchmarks: 0"));
}

#[test]
fn failed_result_without_throughput_renders_dash() {
    let results = vec![BenchmarkResult::failed("broken", "disk on fire")];
    let report = render_report(&results, "T");
    assert!(report.contains("| broken | ✗ | 0.00 | - | - |\n"));
    assert!(report.contains("## Failed Benchmarks\n\n### broken\n\n```\ndisk on fire\n```\n\n"));
    assert!(report.contains("- Failed: 1 ✗\n"));
    assert!(!report.contains("Performance Insights"));
}

#[test]
fn fastest_and_slowest_break_ties_by_order() {
    let results = vec![
        create_test_result("x", 100, BenchmarkStatus::Success),
        create_test_result("y", 50, BenchmarkStatus::Success),
        create_test_result("z", 50, BenchmarkStatus::Success),
        create_test_result("w", 100, BenchmarkStatus::Success),
        create_test_result("s", 1, BenchmarkStatus::Skipped),
        create_test_result("f", 1, BenchmarkStatus::Failed),
    ];
    let report = render_report(&results, "T");
    assert!(report.contains("**Fastest:** y (0.05ms)\n"));
    assert!(report.contains("**Slowest:** w (0.10ms)\n"));
    assert!(report.contains("**Average Duration:** 0.08ms\n"));
    assert!(report.contains("- Skipped: 1 ⊘\n"));
}

#[test]
fn environment_block_from_first_result_with_metadata() {
    let mut meta = BenchmarkMetadata::new();
    meta.os_info = Some("plan9 mips".to_string());
    meta.cpu_cores = Some(8);
    meta.total_memory = Some(3 * 1024 * 1024 * 1024 / 2);
    let results = vec![
        BenchmarkResult::success("a", BenchmarkMetrics::new(10)),
        BenchmarkResult::success("b", BenchmarkMetrics::new(10)).with_metadata(meta),
    ];
    let report = render_report(&results, "T");
    assert!(report.ends_with(
        "## System Information\n\n- **Operating System:** plan9 mips\n- **CPU Cores:** 8\n- **Total Memory:** 1.50 GB\n\n"
    ));
}

#[test]
fn comparison_report_sorted_by_change() {
    let comparisons = vec![
        comparison("r1", 100_000, 110_000, 1000),
        comparison("i1", 100_000, 80_000, -2000),
        comparison("r2", 100_000, 150_000, 5000),
        comparison("u", 100_000, 100_000, 0),
        comparison("i2", 100_000, 90_000, -1000),
    ];
    let summary = ComparisonSummary { comparisons };
    let report = render_comparison_report(&summary, "old", "new", "T");
    let table = "| r2 | 100.00 | 150.00 | +50.00 | +50.0% 🐌 |\n\
| r1 | 100.00 | 110.00 | +10.00 | +10.0% 🐌 |\n\
| u | 100.00 | 100.00 | +0.00 | +0.0% ≈ |\n\
| i2 | 100.00 | 90.00 | -10.00 | -10.0% 🚀 |\n\
| i1 | 100.00 | 80.00 | -20.00 | -20.0% 🚀 |\n";
    assert!(report.contains(table));
    assert!(report.contains("**Baseline:** old\n**Current:** new\n\n"));
    assert!(report.contains("- Unchanged: 1 ≈\n"));
    assert!(report.contains(
        "## 🐌 Performance Regressions\n\n- **r2**: 100.00ms → 150.00ms (+50.0%)\n- **r1**: 100.00ms → 110.00ms (+10.0%)\n\n"
    ));
    assert!(report.contains(
        "## 🚀 Performance Improvements\n\n- **i2**: 100.00ms → 90.00ms (-10.0%)\n- **i1**: 100.00ms → 80.00ms (-20.0%)\n\n"
    ));
}

#[test]
fn pr_comment_exact_lines() {
    let summary = ComparisonSummary { comparisons: vec![comparison("test", 100_000, 90_000, -1000)] };
    let comment = generate_pr_comment(&summary);
    assert_eq!(
        comment,
        "## 📊 Benchmark Results\n\n### 🚀 Performance Improvements\n\n\
- `test`: 10.0% faster (100.00ms → 90.00ms)\n\n\
<details><summary>View full benchmark results</summary>\n\n\
| Benchmark | Change |\n|-----------|--------|\n| test | -10.0% |\n\n</details>\n"
    );
}

#[test]
fn pr_comment_without_changes_and_top_five() {
    let quiet = ComparisonSummary { comparisons: vec![comparison("q", 100, 102, 200)] };
    let c = generate_pr_comment(&quiet);
    assert!(c.contains("✅ No significant performance changes detected.\n"));
    assert!(c.contains("| q | +2.0% |\n"));

    let many: Vec<BenchmarkComparison> = (0..7)
        .map(|i| comparison(&format!("s{}", i), 100, 200, 10000))
        .collect();
    let loud = ComparisonSummary { comparisons: many };
    let c = generate_pr_comment(&loud);
    assert_eq!(c.matches("% slower").count(), 5);
    assert!(c.contains("- `s0`: +100.0% slower (0.10ms → 0.20ms)\n"));
    assert!(!c.contains("`s5`"));
    assert!(c.contains("| s6 | +100.0% |\n"));
}

#[test]
fn plain_summary_text() {
    let results = vec![
        create_test_result("a", 100_000, BenchmarkStatus::Success),
        create_test_result("b", 200_000, BenchmarkStatus::Success),
        create_test_result("c", 5, BenchmarkStatus::Failed),
    ];
    assert_eq!(
        generate_summary(&results),
        "=== Benchmark Summary ===\n\nTotal:      3\nSuccessful: 2 ✓\nFailed:     1 ✗\n\nAverage Duration: 150.00ms\n"
    );
    assert_eq!(
        generate_summary(&[]),
        "=== Benchmark Summary ===\n\nTotal:      0\nSuccessful: 0 ✓\n"
    );
}

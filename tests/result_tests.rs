use llm_registry_benchmarks::time::now;
use llm_registry_benchmarks::{BenchmarkMetadata, BenchmarkMetrics, BenchmarkResult, BenchmarkStatus};

#[test]
fn test_success_result() {
    let metrics = BenchmarkMetrics::new(123_450);
    let result = BenchmarkResult::success("test_benchmark", metrics);

    assert!(result.is_success());
    assert!(!result.is_failed());
    assert_eq!(result.target_id, "test_benchmark");
    assert_eq!(result.metrics.duration_us, 123_450);
}

#[test]
fn test_failed_result() {
    let result = BenchmarkResult::failed("test_benchmark", "Something went wrong");

    assert!(result.is_failed());
    assert!(!result.is_success());
    assert_eq!(result.error, Some("Something went wrong".to_string()));
}

#[test]
fn test_metrics_builder() {
    let metrics = BenchmarkMetrics::new(100_000)
        .with_throughput(1_000_000)
        .with_memory(1024 * 1024)
        .with_counts(50, 2)
        .with_custom_metric("latency_p99", 250_000);

    assert_eq!(metrics.duration_us, 100_000);
    assert_eq!(metrics.throughput_milli_ops_per_sec, Some(1_000_000));
    assert_eq!(metrics.memory_bytes, Some(1024 * 1024));
    assert_eq!(metrics.success_count, Some(50));
    assert_eq!(metrics.error_count, Some(2));
    assert_eq!(metrics.custom_metric("latency_p99"), Some(250_000));
}

#[test]
fn error_present_exactly_for_failed_results() {
    let ok = BenchmarkResult::success("a", BenchmarkMetrics::new(5));
    let failed = BenchmarkResult::failed("b", "boom");
    let skipped = BenchmarkResult::skipped("c");
    for r in [&ok, &failed, &skipped] {
        assert_eq!(r.status == BenchmarkStatus::Failed, r.error.is_some());
    }
    assert_eq!(failed.metrics.duration_us, 0);
    assert_eq!(failed.metrics.error_count, Some(1));
    assert_eq!(skipped.status, BenchmarkStatus::Skipped);
    assert_eq!(skipped.metrics.error_count, None);
}

#[test]
fn custom_metric_last_write_wins() {
    let metrics = BenchmarkMetrics::new(1)
        .with_custom_metric("p50", 10)
        .with_custom_metric("p99", 20)
        .with_custom_metric("p50", 30);
    assert_eq!(metrics.custom_metric("p50"), Some(30));
    assert_eq!(metrics.custom_metric("p99"), Some(20));
    assert_eq!(metrics.custom_metric("p90"), None);
    assert_eq!(metrics.custom.as_ref().map(|v| v.len()), Some(2));
}

#[test]
fn metadata_attached_and_collected() {
    let meta = BenchmarkMetadata::collect("1.75.0", "x86_64-unknown-linux-gnu", "linux", "x86_64");
    assert_eq!(meta.os_info.as_deref(), Some("linux x86_64"));
    assert_eq!(meta.rust_version.as_deref(), Some("1.75.0"));
    assert!(meta.cpu_cores.unwrap() >= 1);
    let r = BenchmarkResult::skipped("x").with_metadata(meta);
    assert!(r.metadata.is_some());
    let empty = BenchmarkMetadata::default();
    assert!(empty.os_info.is_none() && empty.cpu_cores.is_none());
}

#[test]
fn current_time_is_after_epoch() {
    let t = now();
    assert!(t.secs > 1_600_000_000);
    assert!(t.nanos < 1_000_000_000);
}

use llm_registry_benchmarks::adapters::throughput_milli_ops;
use llm_registry_benchmarks::{
    ApiRequestBenchmark, AuthBenchmark, CacheLookupBenchmark, DbAssetCreateBenchmark,
    DbAssetReadBenchmark, EventPublishBenchmark, SearchBenchmark,
};

#[test]
fn test_db_asset_create_benchmark() {
    let bench = DbAssetCreateBenchmark::new(10);
    let result = bench.record(1_234);

    assert!(result.is_success());
    assert_eq!(result.target_id, "db.asset_create");
    assert!(result.metrics.duration_us > 0);
    assert!(result.metrics.throughput_milli_ops_per_sec.is_some());
}

#[test]
fn test_cache_lookup_benchmark() {
    let bench = CacheLookupBenchmark::new(10);
    let result = bench.record(100);

    assert!(result.is_success());
    assert_eq!(result.target_id, "cache.lookup");
}

#[test]
fn identities_and_descriptions() {
    assert_eq!(DbAssetReadBenchmark::new(3).id(), "db.asset_read");
    assert_eq!(EventPublishBenchmark::new(3).id(), "event.publish");
    assert_eq!(AuthBenchmark::new(3).id(), "auth.validate_token");
    assert_eq!(SearchBenchmark::new("q", 3).id(), "search.query");
    assert_eq!(ApiRequestBenchmark::new("/api/assets", 100).id(), "api._api_assets");
    assert_eq!(
        DbAssetCreateBenchmark::new(100).description(),
        "Database asset creation (100 iterations)"
    );
    assert_eq!(
        SearchBenchmark::new("test query", 50).description(),
        "Search query 'test query' (50 iterations)"
    );
    assert_eq!(
        ApiRequestBenchmark::new("/api/assets", 100).description(),
        "API endpoint /api/assets (100 iterations)"
    );
    assert_eq!(AuthBenchmark::new(200).operation_cost_us(), 75);
}

#[test]
fn throughput_from_iterations_and_duration() {
    // 100 operations in 50 ms: 2000 operations per second.
    assert_eq!(throughput_milli_ops(100, 50_000), Some(2_000_000));
    // 1 operation in 3 us: 333333.333... per second.
    assert_eq!(throughput_milli_ops(1, 3), Some(333_333_333));
    assert_eq!(throughput_milli_ops(5, 0), None);
    assert_eq!(throughput_milli_ops(u64::MAX, 1), None);
}

#[test]
fn recorded_trial_counts_every_iteration() {
    let r = ApiRequestBenchmark::new("/v1/x", 4).record(2_000);
    assert_eq!(r.target_id, "api._v1_x");
    assert_eq!(r.metrics.success_count, Some(4));
    assert_eq!(r.metrics.error_count, Some(0));
    assert_eq!(r.metrics.throughput_milli_ops_per_sec, Some(2_000_000));
    assert!(r.error.is_none());
}

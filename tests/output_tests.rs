use llm_registry_benchmarks::output::{
    file_stamp, raw_file_name, results_csv, results_file_name, underscore_separators,
};
use llm_registry_benchmarks::{
    BenchmarkMetrics, BenchmarkResult, BenchmarkStatus, OutputFormat, Timestamp,
};

#[test]
fn format_names_and_extensions() {
    assert_eq!(OutputFormat::from_name("json"), Some(OutputFormat::Json));
    assert_eq!(OutputFormat::from_name("json-pretty"), Some(OutputFormat::JsonPretty));
    assert_eq!(OutputFormat::from_name("csv"), Some(OutputFormat::Csv));
    assert_eq!(OutputFormat::from_name("xml"), None);
    assert_eq!(OutputFormat::JsonPretty.extension(), "json");
    assert_eq!(OutputFormat::Csv.extension(), "csv");
}

#[test]
fn file_names() {
    assert_eq!(file_stamp(0), "19700101_000000");
    assert_eq!(file_stamp(1_700_000_000), "20231114_221320");
    assert_eq!(
        results_file_name("20240102_030405", OutputFormat::Csv),
        "benchmark_results_20240102_030405.csv"
    );
    assert_eq!(raw_file_name("a/b:c\\d", "S"), "a_b_c_d_S.json");
    assert_eq!(underscore_separators("a/b:c", false), "a_b:c");
}

#[test]
fn csv_rows() {
    let mut ok = BenchmarkResult::success(
        "db.read",
        BenchmarkMetrics::new(123_450).with_throughput(1_500).with_counts(3, 0),
    );
    ok.timestamp = Timestamp { secs: 0, nanos: 0 };
    let mut bad = BenchmarkResult::failed("db.write", "oops");
    bad.timestamp = Timestamp { secs: 86_400, nanos: 0 };
    let csv = results_csv(&[ok, bad]);
    assert_eq!(
        csv,
        "target_id,status,duration_ms,throughput_ops_per_sec,memory_bytes,success_count,error_count,timestamp,error\n\
db.read,Success,123.45,1.5,,3,0,1970-01-01T00:00:00+00:00,\n\
db.write,Failed,0,,,,1,1970-01-02T00:00:00+00:00,oops\n"
    );
    let skipped = BenchmarkResult::skipped("s");
    assert_eq!(skipped.status, BenchmarkStatus::Skipped);
    assert!(results_csv(&[skipped]).contains("\ns,Skipped,0,,,,,"));
}

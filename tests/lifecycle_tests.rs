use llm_registry_benchmarks::{advance, BenchmarkMetrics, BenchmarkResult, BenchmarkStatus, Outcome, Phase};

#[test]
fn prepare_failure_ends_with_failed_result() {
    let t = advance("db.x", Phase::Preparing, Outcome::Prepared(Err("no db".to_string())));
    assert!(t.warning.is_none());
    match t.next {
        Phase::Finished(r) => {
            assert_eq!(r.status, BenchmarkStatus::Failed);
            assert_eq!(r.target_id, "db.x");
            assert_eq!(r.error.as_deref(), Some("Setup failed: no db"));
        }
        _ => panic!("expected a finished execution"),
    }
}

#[test]
fn full_cycle_keeps_measured_result() {
    let t = advance("b", Phase::Preparing, Outcome::Prepared(Ok(())));
    assert!(matches!(t.next, Phase::Measuring));
    let measured = BenchmarkResult::success("b", BenchmarkMetrics::new(42));
    let t = advance("b", t.next, Outcome::Measured(measured));
    assert!(matches!(t.next, Phase::CleaningUp(_)));
    let t = advance("b", t.next, Outcome::CleanedUp(Err("leak".to_string())));
    assert_eq!(t.warning.as_deref(), Some("Teardown failed for b: leak"));
    match t.next {
        Phase::Finished(r) => {
            assert_eq!(r.status, BenchmarkStatus::Success);
            assert_eq!(r.metrics.duration_us, 42);
        }
        _ => panic!("expected a finished execution"),
    }
}

#[test]
fn mismatched_outcome_leaves_phase() {
    let t = advance("b", Phase::Measuring, Outcome::CleanedUp(Ok(())));
    assert!(matches!(t.next, Phase::Measuring));
    assert!(t.warning.is_none());
}

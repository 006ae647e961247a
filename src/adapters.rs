//! The benchmark targets of the registry: each names itself, describes
//! itself, tells how long one simulated operation takes, and turns the time
//! measured for its iterations into a result.

use crate::decimal::{decimal, decimal_string, round_div, round_div_exec};
use crate::output::{underscore_separators, underscored};
use crate::result::{BenchmarkMetrics, BenchmarkResult, BenchmarkStatus};
use vstd::prelude::*;

verus! {

/// Operations per second, in thousandths, of `iterations` operations that
/// took `duration_us` microseconds, rounded to the nearest (halves up);
/// absent for a zero duration or a rate beyond `u64`.
pub open spec fn throughput_of(iterations: nat, duration_us: nat) -> Option<u64> {
    if duration_us == 0 {
        None
    } else {
        let t = round_div(iterations * 1_000_000_000, duration_us);
        if t <= u64::MAX {
            Some(t as u64)
        } else {
            None
        }
    }
}

/// Operations per second, in thousandths, of `iterations` operations that
/// took `duration_us` microseconds.
pub fn throughput_milli_ops(iterations: u64, duration_us: u64) -> (r: Option<u64>)
    ensures
        r == throughput_of(iterations as nat, duration_us as nat),
{
    if duration_us == 0 {
        None
    } else {
        let t = round_div_exec(iterations as u128 * 1_000_000_000, duration_us as u128);
        if t <= u64::MAX as u128 {
            Some(t as u64)
        } else {
            None
        }
    }
}

/// The result of a trial of `iterations` operations, all successful, that
/// took `duration_us` microseconds.
pub open spec fn is_trial_result(
    r: BenchmarkResult,
    id: Seq<char>,
    iterations: nat,
    duration_us: u64,
) -> bool {
    &&& r.wf()
    &&& r.target_id@ == id
    &&& r.status == BenchmarkStatus::Success
    &&& r.error is None
    &&& r.metadata is None
    &&& r.metrics.duration_us == duration_us
    &&& r.metrics.throughput_milli_ops_per_sec == throughput_of(iterations, duration_us as nat)
    &&& r.metrics.success_count == Some(iterations as u64)
    &&& r.metrics.error_count == Some(0u64)
    &&& r.metrics.memory_bytes is None
    &&& r.metrics.custom is None
}

/// The result of a trial of `iterations` operations, all successful, that
/// took `duration_us` microseconds.
pub fn trial_result(id: &str, iterations: usize, duration_us: u64) -> (r: BenchmarkResult)
    ensures
        is_trial_result(r, id@, iterations as nat, duration_us),
{
    let metrics = BenchmarkMetrics::new(duration_us);
    let metrics = match throughput_milli_ops(iterations as u64, duration_us) {
        Some(t) => metrics.with_throughput(t),
        None => metrics,
    };
    let metrics = metrics.with_counts(iterations as u64, 0);
    BenchmarkResult::success(id, metrics)
}

/// A description: a label, then the number of iterations in parentheses.
pub open spec fn described(label: Seq<char>, iterations: nat) -> Seq<char> {
    label + " ("@ + decimal(iterations) + " iterations)"@
}

fn described_string(label: &str, iterations: usize) -> (r: String)
    ensures
        r@ == described(label@, iterations as nat),
{
    let mut s = String::from_str(label);
    s.append(" (");
    s.append(decimal_string(iterations as u128).as_str());
    s.append(" iterations)");
    s
}

/// Benchmark of database asset creation.
pub struct DbAssetCreateBenchmark {
    pub iterations: usize,
}

impl DbAssetCreateBenchmark {
    /// A benchmark of `iterations` operations.
    pub fn new(iterations: usize) -> (r: Self)
        ensures
            r.iterations == iterations,
    {
        DbAssetCreateBenchmark { iterations }
    }

    /// The stable identity, `db.asset_create`.
    pub fn id(&self) -> (r: String)
        ensures
            r@ == "db.asset_create"@,
    {
        String::from_str("db.asset_create")
    }

    /// `Database asset creation (<iterations> iterations)`.
    pub fn description(&self) -> (r: String)
        ensures
            r@ == described("Database asset creation"@, self.iterations as nat),
    {
        described_string("Database asset creation", self.iterations)
    }

    /// Duration of one simulated operation, in microseconds.
    pub fn operation_cost_us(&self) -> (r: u64)
        ensures
            r == 100,
    {
        100
    }

    /// The result of a run of all iterations that took `duration_us`.
    pub fn record(&self, duration_us: u64) -> (r: BenchmarkResult)
        ensures
            is_trial_result(r, "db.asset_create"@, self.iterations as nat, duration_us),
    {
        trial_result("db.asset_create", self.iterations, duration_us)
    }
}

/// Benchmark of database asset reads.
pub struct DbAssetReadBenchmark {
    pub iterations: usize,
}

impl DbAssetReadBenchmark {
    /// A benchmark of `iterations` operations.
    pub fn new(iterations: usize) -> (r: Self)
        ensures
            r.iterations == iterations,
    {
        DbAssetReadBenchmark { iterations }
    }

    /// The stable identity, `db.asset_read`.
    pub fn id(&self) -> (r: String)
        ensures
            r@ == "db.asset_read"@,
    {
        String::from_str("db.asset_read")
    }

    /// `Database asset read (<iterations> iterations)`.
    pub fn description(&self) -> (r: String)
        ensures
            r@ == described("Database asset read"@, self.iterations as nat),
    {
        described_string("Database asset read", self.iterations)
    }

    /// Duration of one simulated operation, in microseconds.
    pub fn operation_cost_us(&self) -> (r: u64)
        ensures
            r == 50,
    {
        50
    }

    /// The result of a run of all iterations that took `duration_us`.
    pub fn record(&self, duration_us: u64) -> (r: BenchmarkResult)
        ensures
            is_trial_result(r, "db.asset_read"@, self.iterations as nat, duration_us),
    {
        trial_result("db.asset_read", self.iterations, duration_us)
    }
}

/// Benchmark of cache lookups.
pub struct CacheLookupBenchmark {
    pub iterations: usize,
}

impl CacheLookupBenchmark {
    /// A benchmark of `iterations` operations.
    pub fn new(iterations: usize) -> (r: Self)
        ensures
            r.iterations == iterations,
    {
        CacheLookupBenchmark { iterations }
    }

    /// The stable identity, `cache.lookup`.
    pub fn id(&self) -> (r: String)
        ensures
            r@ == "cache.lookup"@,
    {
        String::from_str("cache.lookup")
    }

    /// `Cache lookup operations (<iterations> iterations)`.
    pub fn description(&self) -> (r: String)
        ensures
            r@ == described("Cache lookup operations"@, self.iterations as nat),
    {
        described_string("Cache lookup operations", self.iterations)
    }

    /// Duration of one simulated operation, in microseconds.
    pub fn operation_cost_us(&self) -> (r: u64)
        ensures
            r == 10,
    {
        10
    }

    /// The result of a run of all iterations that took `duration_us`.
    pub fn record(&self, duration_us: u64) -> (r: BenchmarkResult)
        ensures
            is_trial_result(r, "cache.lookup"@, self.iterations as nat, duration_us),
    {
        trial_result("cache.lookup", self.iterations, duration_us)
    }
}

/// Benchmark of event publishing.
pub struct EventPublishBenchmark {
    pub iterations: usize,
}

impl EventPublishBenchmark {
    /// A benchmark of `iterations` operations.
    pub fn new(iterations: usize) -> (r: Self)
        ensures
            r.iterations == iterations,
    {
        EventPublishBenchmark { iterations }
    }

    /// The stable identity, `event.publish`.
    pub fn id(&self) -> (r: String)
        ensures
            r@ == "event.publish"@,
    {
        String::from_str("event.publish")
    }

    /// `Event publishing (<iterations> iterations)`.
    pub fn description(&self) -> (r: String)
        ensures
            r@ == described("Event publishing"@, self.iterations as nat),
    {
        described_string("Event publishing", self.iterations)
    }

    /// Duration of one simulated operation, in microseconds.
    pub fn operation_cost_us(&self) -> (r: u64)
        ensures
            r == 150,
    {
        150
    }

    /// The result of a run of all iterations that took `duration_us`.
    pub fn record(&self, duration_us: u64) -> (r: BenchmarkResult)
        ensures
            is_trial_result(r, "event.publish"@, self.iterations as nat, duration_us),
    {
        trial_result("event.publish", self.iterations, duration_us)
    }
}

/// Benchmark of token validation.
pub struct AuthBenchmark {
    pub iterations: usize,
}

impl AuthBenchmark {
    /// A benchmark of `iterations` operations.
    pub fn new(iterations: usize) -> (r: Self)
        ensures
            r.iterations == iterations,
    {
        AuthBenchmark { iterations }
    }

    /// The stable identity, `auth.validate_token`.
    pub fn id(&self) -> (r: String)
        ensures
            r@ == "auth.validate_token"@,
    {
        String::from_str("auth.validate_token")
    }

    /// `Token validation (<iterations> iterations)`.
    pub fn description(&self) -> (r: String)
        ensures
            r@ == described("Token validation"@, self.iterations as nat),
    {
        described_string("Token validation", self.iterations)
    }

    /// Duration of one simulated operation, in microseconds.
    pub fn operation_cost_us(&self) -> (r: u64)
        ensures
            r == 75,
    {
        75
    }

    /// The result of a run of all iterations that took `duration_us`.
    pub fn record(&self, duration_us: u64) -> (r: BenchmarkResult)
        ensures
            is_trial_result(r, "auth.validate_token"@, self.iterations as nat, duration_us),
    {
        trial_result("auth.validate_token", self.iterations, duration_us)
    }
}

/// Benchmark of search queries.
pub struct SearchBenchmark {
    pub query: String,
    pub iterations: usize,
}

impl SearchBenchmark {
    /// A benchmark of `iterations` runs of `query`.
    pub fn new(query: &str, iterations: usize) -> (r: Self)
        ensures
            r.query@ == query@,
            r.iterations == iterations,
    {
        SearchBenchmark { query: String::from_str(query), iterations }
    }

    /// The stable identity, `search.query`.
    pub fn id(&self) -> (r: String)
        ensures
            r@ == "search.query"@,
    {
        String::from_str("search.query")
    }

    /// `Search query '<query>' (<iterations> iterations)`.
    pub fn description(&self) -> (r: String)
        ensures
            r@ == described("Search query '"@ + self.query@ + "'"@, self.iterations as nat),
    {
        let mut label = String::from_str("Search query '");
        label.append(self.query.as_str());
        label.append("'");
        described_string(label.as_str(), self.iterations)
    }

    /// Duration of one simulated operation, in microseconds.
    pub fn operation_cost_us(&self) -> (r: u64)
        ensures
            r == 200,
    {
        200
    }

    /// The result of a run of all iterations that took `duration_us`.
    pub fn record(&self, duration_us: u64) -> (r: BenchmarkResult)
        ensures
            is_trial_result(r, "search.query"@, self.iterations as nat, duration_us),
    {
        trial_result("search.query", self.iterations, duration_us)
    }
}

/// Benchmark of the handling of requests to one API endpoint.
pub struct ApiRequestBenchmark {
    pub endpoint: String,
    pub iterations: usize,
}

impl ApiRequestBenchmark {
    /// A benchmark of `iterations` requests to `endpoint`.
    pub fn new(endpoint: &str, iterations: usize) -> (r: Self)
        ensures
            r.endpoint@ == endpoint@,
            r.iterations == iterations,
    {
        ApiRequestBenchmark { endpoint: String::from_str(endpoint), iterations }
    }

    /// The identity of an endpoint's benchmark: `api.` and the endpoint with
    /// each `/` replaced by `_`.
    pub open spec fn id_text(&self) -> Seq<char> {
        "api."@ + underscored(self.endpoint@, false)
    }

    /// The stable identity: `api.` and the endpoint with each `/` replaced
    /// by `_`.
    pub fn id(&self) -> (r: String)
        ensures
            r@ == self.id_text(),
    {
        let mut s = String::from_str("api.");
        s.append(underscore_separators(self.endpoint.as_str(), false).as_str());
        s
    }

    /// `API endpoint <endpoint> (<iterations> iterations)`.
    pub fn description(&self) -> (r: String)
        ensures
            r@ == described("API endpoint "@ + self.endpoint@, self.iterations as nat),
    {
        let mut label = String::from_str("API endpoint ");
        label.append(self.endpoint.as_str());
        described_string(label.as_str(), self.iterations)
    }

    /// Duration of one simulated operation, in microseconds.
    pub fn operation_cost_us(&self) -> (r: u64)
        ensures
            r == 500,
    {
        500
    }

    /// The result of a run of all iterations that took `duration_us`.
    pub fn record(&self, duration_us: u64) -> (r: BenchmarkResult)
        ensures
            is_trial_result(r, self.id_text(), self.iterations as nat, duration_us),
    {
        let id = self.id();
        trial_result(id.as_str(), self.iterations, duration_us)
    }
}

} // verus!

//! The result model: one measured outcome, its metrics, optional facts about
//! the environment, and a three-way status.

use crate::time::{now, Timestamp};
use vstd::prelude::*;

verus! {

/// Outcome of one benchmark execution.
#[derive(Clone, Copy, Debug, PartialEq, Eq, Structural)]
pub enum BenchmarkStatus {
    /// The benchmark completed.
    Success,
    /// The benchmark failed; the result carries an error text.
    Failed,
    /// The benchmark was not run.
    Skipped,
}

/// Numeric facts about one trial, in fixed point where the quantity is
/// fractional: durations in microseconds (milliseconds to three decimals),
/// rates and custom values in thousandths.
#[derive(Clone, Debug)]
pub struct BenchmarkMetrics {
    /// Wall-clock cost of the measured operation, in microseconds.
    pub duration_us: u64,
    /// Operations per second, in thousandths of an operation.
    pub throughput_milli_ops_per_sec: Option<u64>,
    /// Memory used, in bytes.
    pub memory_bytes: Option<u64>,
    /// Number of operations that succeeded.
    pub success_count: Option<u64>,
    /// Number of operations that failed.
    pub error_count: Option<u64>,
    /// Named extra measurements, in thousandths; each name occurs once.
    pub custom: Option<Vec<(String, i64)>>,
}

/// Descriptive facts about the machine a benchmark ran on.
#[derive(Clone, Debug)]
pub struct BenchmarkMetadata {
    pub rust_version: Option<String>,
    pub target_triple: Option<String>,
    pub cpu_model: Option<String>,
    pub cpu_cores: Option<usize>,
    /// Total system memory, in bytes.
    pub total_memory: Option<u64>,
    pub os_info: Option<String>,
    pub git_commit: Option<String>,
    /// Further named facts; each name occurs once.
    pub custom: Option<Vec<(String, String)>>,
}

/// One measured outcome of a benchmark.
#[derive(Clone, Debug)]
pub struct BenchmarkResult {
    /// Stable dotted identifier (`category.operation`) used to match runs.
    pub target_id: String,
    pub metrics: BenchmarkMetrics,
    /// When the result was captured.
    pub timestamp: Timestamp,
    pub metadata: Option<BenchmarkMetadata>,
    pub status: BenchmarkStatus,
    /// The error text; present exactly when the status is `Failed`.
    pub error: Option<String>,
}

/// No two entries share a name.
pub open spec fn keys_unique<V>(entries: Seq<(String, V)>) -> bool {
    forall|i: int, j: int|
        0 <= i < entries.len() && 0 <= j < entries.len() && i != j ==> #[trigger] entries[i].0@
            != #[trigger] entries[j].0@
}

/// The value recorded under `key`, if any.
pub open spec fn lookup<V>(entries: Seq<(String, V)>, key: Seq<char>) -> Option<V> {
    if exists|i: int| 0 <= i < entries.len() && entries[i].0@ == key {
        let i = choose|i: int| 0 <= i < entries.len() && entries[i].0@ == key;
        Some(entries[i].1)
    } else {
        None
    }
}

/// Metrics with no optional measurement.
pub open spec fn bare_metrics(m: BenchmarkMetrics, duration_us: u64) -> bool {
    &&& m.duration_us == duration_us
    &&& m.throughput_milli_ops_per_sec is None
    &&& m.memory_bytes is None
    &&& m.success_count is None
    &&& m.error_count is None
    &&& m.custom is None
}

/// The position of the entry named `key`, if any.
pub(crate) fn find_key<V>(entries: &Vec<(String, V)>, key: &String) -> (r: Option<usize>)
    requires
        keys_unique(entries@),
    ensures
        match r {
            Some(i) => i < entries@.len() && entries@[i as int].0@ == key@ && lookup(entries@, key@)
                == Some(entries@[i as int].1),
            None => lookup(entries@, key@) is None && forall|j: int|
                0 <= j < entries@.len() ==> entries@[j].0@ != key@,
        },
{
    let mut i: usize = 0;
    while i < entries.len()
        invariant
            keys_unique(entries@),
            i <= entries.len(),
            forall|j: int| 0 <= j < i ==> entries@[j].0@ != key@,
        decreases entries.len() - i,
    {
        let same = entries[i].0 == *key;
        if same {
            proof {
                let c = choose|j: int| 0 <= j < entries@.len() && entries@[j].0@ == key@;
                assert(entries@[i as int].0@ == key@);
                assert(0 <= c < entries@.len() && entries@[c].0@ == key@);
                if c != i {
                    assert(entries@[c].0@ != entries@[i as int].0@);
                }
            }
            return Some(i);
        }
        i = i + 1;
    }
    None
}

impl BenchmarkMetrics {
    /// The custom names are unique.
    pub open spec fn wf(&self) -> bool {
        self.custom matches Some(v) ==> keys_unique(v@)
    }

    /// The custom measurement recorded under `key`.
    pub open spec fn custom_value(&self, key: Seq<char>) -> Option<i64> {
        match self.custom {
            Some(v) => lookup(v@, key),
            None => None,
        }
    }

    /// Metrics that hold only a duration.
    pub fn new(duration_us: u64) -> (r: Self)
        ensures
            bare_metrics(r, duration_us),
            r.wf(),
    {
        BenchmarkMetrics {
            duration_us,
            throughput_milli_ops_per_sec: None,
            memory_bytes: None,
            success_count: None,
            error_count: None,
            custom: None,
        }
    }

    /// Records the throughput, in thousandths of an operation per second.
    pub fn with_throughput(self, milli_ops_per_sec: u64) -> (r: Self)
        ensures
            r == (BenchmarkMetrics { throughput_milli_ops_per_sec: Some(milli_ops_per_sec), ..self }),
    {
        let mut m = self;
        m.throughput_milli_ops_per_sec = Some(milli_ops_per_sec);
        m
    }

    /// Records the memory used, in bytes.
    pub fn with_memory(self, bytes: u64) -> (r: Self)
        ensures
            r == (BenchmarkMetrics { memory_bytes: Some(bytes), ..self }),
    {
        let mut m = self;
        m.memory_bytes = Some(bytes);
        m
    }

    /// Records the operation counts.
    pub fn with_counts(self, success: u64, errors: u64) -> (r: Self)
        ensures
            r == (BenchmarkMetrics { success_count: Some(success), error_count: Some(errors), ..self }),
    {
        let mut m = self;
        m.success_count = Some(success);
        m.error_count = Some(errors);
        m
    }

    /// Records a custom measurement (in thousandths); a later value under the
    /// same name replaces an earlier one.
    pub fn with_custom_metric(self, key: &str, value: i64) -> (r: Self)
        requires
            self.wf(),
        ensures
            r.wf(),
            r.custom_value(key@) == Some(value),
            forall|k: Seq<char>| k != key@ ==> r.custom_value(k) == self.custom_value(k),
            r.duration_us == self.duration_us,
            r.throughput_milli_ops_per_sec == self.throughput_milli_ops_per_sec,
            r.memory_bytes == self.memory_bytes,
            r.success_count == self.success_count,
            r.error_count == self.error_count,
    {
        let mut m = self;
        let mut entries: Vec<(String, i64)> = match m.custom {
            Some(v) => v,
            None => Vec::new(),
        };
        let ghost old_entries = entries@;
        let k = String::from_str(key);
        let found = find_key(&entries, &k);
        if let Some(i) = found {
            entries.set(i, (k, value));
            proof {
                assert(entries@[i as int].0@ == key@);
                assert forall|a: int, b: int|
                    0 <= a < entries@.len() && 0 <= b < entries@.len() && a != b implies entries@[a].0@
                    != entries@[b].0@ by {
                    if a != i && b != i {
                        assert(entries@[a] == old_entries[a]);
                        assert(entries@[b] == old_entries[b]);
                    } else {
                        assert(old_entries[i as int].0@ == key@);
                    }
                }
                assert forall|kk: Seq<char>| kk != key@ implies lookup(entries@, kk) == lookup(old_entries, kk) by {
                    if exists|j: int| 0 <= j < entries@.len() && entries@[j].0@ == kk {
                        let j = choose|j: int| 0 <= j < entries@.len() && entries@[j].0@ == kk;
                        assert(old_entries[j].0@ == kk);
                    }
                    if exists|j: int| 0 <= j < old_entries.len() && old_entries[j].0@ == kk {
                        let j = choose|j: int| 0 <= j < old_entries.len() && old_entries[j].0@ == kk;
                        assert(entries@[j].0@ == kk);
                    }
                }
            }
        } else {
            entries.push((k, value));
            proof {
                let n = old_entries.len() as int;
                assert(entries@[n].0@ == key@);
                assert forall|kk: Seq<char>| kk != key@ implies lookup(entries@, kk) == lookup(old_entries, kk) by {
                    if exists|j: int| 0 <= j < entries@.len() && entries@[j].0@ == kk {
                        let j = choose|j: int| 0 <= j < entries@.len() && entries@[j].0@ == kk;
                        assert(old_entries[j].0@ == kk);
                    }
                    if exists|j: int| 0 <= j < old_entries.len() && old_entries[j].0@ == kk {
                        let j = choose|j: int| 0 <= j < old_entries.len() && old_entries[j].0@ == kk;
                        assert(entries@[j].0@ == kk);
                    }
                }
            }
        }
        proof {
            if self.custom is None {
                assert forall|kk: Seq<char>| kk != key@ implies lookup(entries@, kk) == self.custom_value(kk) by {
                    if exists|j: int| 0 <= j < entries@.len() && entries@[j].0@ == kk {
                        let j = choose|j: int| 0 <= j < entries@.len() && entries@[j].0@ == kk;
                        assert(j == 0);
                    }
                }
            }
        }
        m.custom = Some(entries);
        m
    }

    /// The custom measurement recorded under `key`, in thousandths.
    pub fn custom_metric(&self, key: &str) -> (r: Option<i64>)
        requires
            self.wf(),
        ensures
            r == self.custom_value(key@),
    {
        match &self.custom {
            None => None,
            Some(entries) => {
                let k = String::from_str(key);
                match find_key(entries, &k) {
                    Some(i) => Some(entries[i].1),
                    None => None,
                }
            },
        }
    }
}

impl BenchmarkMetadata {
    /// Metadata with every fact absent.
    pub open spec fn is_empty(&self) -> bool {
        &&& self.rust_version is None
        &&& self.target_triple is None
        &&& self.cpu_model is None
        &&& self.cpu_cores is None
        &&& self.total_memory is None
        &&& self.os_info is None
        &&& self.git_commit is None
        &&& self.custom is None
    }

    /// Metadata with every fact absent.
    pub fn new() -> (r: Self)
        ensures
            r.is_empty(),
    {
        BenchmarkMetadata {
            rust_version: None,
            target_triple: None,
            cpu_model: None,
            cpu_cores: None,
            total_memory: None,
            os_info: None,
            git_commit: None,
            custom: None,
        }
    }

    /// Metadata for the running machine: the given toolchain version and
    /// target, the operating system and architecture names joined by a
    /// space, and the number of CPUs available to this process.
    pub fn collect(rust_version: &str, target_triple: &str, os: &str, arch: &str) -> (r: Self)
        ensures
            r.rust_version matches Some(v) && v@ == rust_version@,
            r.target_triple matches Some(t) && t@ == target_triple@,
            r.os_info matches Some(o) && o@ == os@ + " "@ + arch@,
            r.cpu_cores matches Some(c) && c >= 1,
            r.cpu_model is None,
            r.total_memory is None,
            r.git_commit is None,
            r.custom is None,
    {
        let mut os_info = String::from_str(os);
        os_info.append(" ");
        os_info.append(arch);
        BenchmarkMetadata {
            rust_version: Some(String::from_str(rust_version)),
            target_triple: Some(String::from_str(target_triple)),
            cpu_model: None,
            cpu_cores: Some(cpu_count()),
            total_memory: None,
            os_info: Some(os_info),
            git_commit: None,
            custom: None,
        }
    }
}

impl Default for BenchmarkMetadata {
    fn default() -> (r: Self)
        ensures
            r.is_empty(),
    {
        Self::new()
    }
}

/// Relies on `num_cpus::get`: the number of CPUs available to this process,
/// which the crate documents as always at least one.
#[verifier::external_body]
fn cpu_count() -> (r: usize)
    ensures
        r >= 1,
{
    num_cpus::get()
}

impl BenchmarkResult {
    /// The error text is present exactly when the status is `Failed`, and
    /// the custom metric names are unique.
    pub open spec fn wf(&self) -> bool {
        &&& (self.status == BenchmarkStatus::Failed) == (self.error is Some)
        &&& self.metrics.wf()
    }

    /// A successful result, stamped with the current time.
    pub fn success(target_id: &str, metrics: BenchmarkMetrics) -> (r: Self)
        requires
            metrics.wf(),
        ensures
            r.wf(),
            r.target_id@ == target_id@,
            r.metrics == metrics,
            r.metadata is None,
            r.status == BenchmarkStatus::Success,
            r.error is None,
    {
        BenchmarkResult {
            target_id: String::from_str(target_id),
            metrics,
            timestamp: now(),
            metadata: None,
            status: BenchmarkStatus::Success,
            error: None,
        }
    }

    /// A failed result carrying `error`: zero duration and one error.
    pub fn failed(target_id: &str, error: &str) -> (r: Self)
        ensures
            r.wf(),
            r.target_id@ == target_id@,
            r.metrics.duration_us == 0,
            r.metrics.error_count == Some(1u64),
            r.metrics.throughput_milli_ops_per_sec is None,
            r.metrics.memory_bytes is None,
            r.metrics.success_count is None,
            r.metrics.custom is None,
            r.metadata is None,
            r.status == BenchmarkStatus::Failed,
            r.error matches Some(e) && e@ == error@,
    {
        let metrics = BenchmarkMetrics::new(0);
        BenchmarkResult {
            target_id: String::from_str(target_id),
            metrics: BenchmarkMetrics { error_count: Some(1), ..metrics },
            timestamp: now(),
            metadata: None,
            status: BenchmarkStatus::Failed,
            error: Some(String::from_str(error)),
        }
    }

    /// A skipped result: zero duration and no other measurement.
    pub fn skipped(target_id: &str) -> (r: Self)
        ensures
            r.wf(),
            r.target_id@ == target_id@,
            bare_metrics(r.metrics, 0),
            r.metadata is None,
            r.status == BenchmarkStatus::Skipped,
            r.error is None,
    {
        BenchmarkResult {
            target_id: String::from_str(target_id),
            metrics: BenchmarkMetrics::new(0),
            timestamp: now(),
            metadata: None,
            status: BenchmarkStatus::Skipped,
            error: None,
        }
    }

    /// Attaches environment metadata.
    pub fn with_metadata(self, metadata: BenchmarkMetadata) -> (r: Self)
        ensures
            r == (BenchmarkResult { metadata: Some(metadata), ..self }),
            r.wf() == self.wf(),
    {
        let mut r = self;
        r.metadata = Some(metadata);
        r
    }

    /// Whether the status is `Success`.
    pub fn is_success(&self) -> (r: bool)
        ensures
            r == (self.status == BenchmarkStatus::Success),
    {
        self.status == BenchmarkStatus::Success
    }

    /// Whether the status is `Failed`.
    pub fn is_failed(&self) -> (r: bool)
        ensures
            r == (self.status == BenchmarkStatus::Failed),
    {
        self.status == BenchmarkStatus::Failed
    }
}

} // verus!

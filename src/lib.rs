//! Core of a benchmark harness: the result model, the execution lifecycle
//! of one benchmark, the comparison engine that matches two runs and
//! classifies each change, and the renderers that turn results and
//! comparisons into Markdown and tabular text.
//!
//! Fractional quantities are held in fixed point: durations in
//! microseconds, rates and custom measurements in thousandths, relative
//! changes in basis points.

pub mod adapters;
pub mod change_report;
pub mod compare;
pub mod decimal;
pub mod lifecycle;
pub mod output;
pub mod report;
pub mod result;
pub mod time;

pub use adapters::{
    ApiRequestBenchmark, AuthBenchmark, CacheLookupBenchmark, DbAssetCreateBenchmark,
    DbAssetReadBenchmark, EventPublishBenchmark, SearchBenchmark,
};
pub use change_report::{generate_comparison_report, generate_pr_comment, render_comparison_report};
pub use compare::{compare_results, BenchmarkComparison, Change, ComparisonSummary};
pub use lifecycle::{advance, Outcome, Phase, Transition};
pub use output::{OutputFormat, DEFAULT_OUTPUT_DIR, DEFAULT_RAW_DIR};
pub use report::{generate_report, generate_summary, render_report};
pub use result::{BenchmarkMetadata, BenchmarkMetrics, BenchmarkResult, BenchmarkStatus};
pub use time::Timestamp;

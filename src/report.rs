//! Markdown reports: one for a single run, one for a comparison of two
//! runs, a short notification for a comparison, and a plain-text summary.

use crate::decimal::{
    decimal, decimal_string, fixed, fixed_string, point_string, round_div, round_div_exec,
};
use crate::result::{BenchmarkMetadata, BenchmarkResult, BenchmarkStatus};
use crate::time::{now, utc_format, utc_format_text};
use vstd::arithmetic::div_mod::lemma_div_multiples_vanish_quotient;
use vstd::prelude::*;

verus! {

/// Number of results of `rs` with status `st`.
pub open spec fn count_status(rs: Seq<BenchmarkResult>, st: BenchmarkStatus) -> nat
    decreases rs.len(),
{
    if rs.len() == 0 {
        0
    } else {
        count_status(rs.drop_last(), st) + if rs.last().status == st {
            1nat
        } else {
            0nat
        }
    }
}

/// Sum of the durations of the successful results of `rs`, in microseconds.
pub open spec fn success_total_us(rs: Seq<BenchmarkResult>) -> nat
    decreases rs.len(),
{
    if rs.len() == 0 {
        0
    } else {
        success_total_us(rs.drop_last()) + if rs.last().status == BenchmarkStatus::Success {
            rs.last().metrics.duration_us as nat
        } else {
            0nat
        }
    }
}

/// Position of the fastest successful result: the first of those with the
/// least duration; -1 when no result succeeded.
pub open spec fn fastest_success(rs: Seq<BenchmarkResult>) -> int
    decreases rs.len(),
{
    if rs.len() == 0 {
        -1
    } else {
        let k = fastest_success(rs.drop_last());
        if rs.last().status == BenchmarkStatus::Success && (k < 0
            || rs.last().metrics.duration_us < rs[k].metrics.duration_us) {
            rs.len() - 1
        } else {
            k
        }
    }
}

/// Position of the slowest successful result: the last of those with the
/// greatest duration; -1 when no result succeeded.
pub open spec fn slowest_success(rs: Seq<BenchmarkResult>) -> int
    decreases rs.len(),
{
    if rs.len() == 0 {
        -1
    } else {
        let k = slowest_success(rs.drop_last());
        if rs.last().status == BenchmarkStatus::Success && (k < 0
            || rs.last().metrics.duration_us >= rs[k].metrics.duration_us) {
            rs.len() - 1
        } else {
            k
        }
    }
}

/// The glyph of a status.
pub open spec fn status_icon(st: BenchmarkStatus) -> Seq<char> {
    match st {
        BenchmarkStatus::Success => "✓"@,
        BenchmarkStatus::Failed => "✗"@,
        BenchmarkStatus::Skipped => "⊘"@,
    }
}

/// A duration in microseconds written as milliseconds with two decimals.
pub open spec fn ms_text(us: u64) -> Seq<char> {
    fixed(us as nat, 1000, 2)
}

/// An optional quantity divided by `den`, with two decimals, or a dash.
pub open spec fn opt_text(v: Option<u64>, den: nat) -> Seq<char> {
    match v {
        Some(x) => fixed(x as nat, den, 2),
        None => "-"@,
    }
}

/// Bytes in one mebibyte.
pub const MIB: u64 = 1048576;

/// Bytes in one gibibyte.
pub const GIB: u64 = 1073741824;

/// One row of the results table.
pub open spec fn result_row(r: BenchmarkResult) -> Seq<char> {
    "| "@ + r.target_id@ + " | "@ + status_icon(r.status) + " | "@ + ms_text(r.metrics.duration_us)
        + " | "@ + opt_text(r.metrics.throughput_milli_ops_per_sec, 1000) + " | "@ + opt_text(
        r.metrics.memory_bytes,
        MIB as nat,
    ) + " |\n"@
}

/// The rows of the results table, one per result, in order.
pub open spec fn result_rows(rs: Seq<BenchmarkResult>) -> Seq<char>
    decreases rs.len(),
{
    if rs.len() == 0 {
        Seq::empty()
    } else {
        result_rows(rs.drop_last()) + result_row(rs.last())
    }
}

/// The details of one result in the failures section (nothing unless it failed).
pub open spec fn failure_text(r: BenchmarkResult) -> Seq<char> {
    if r.status == BenchmarkStatus::Failed {
        "### "@ + r.target_id@ + "\n\n"@ + match r.error {
            Some(e) => "```\n"@ + e@ + "\n```\n\n"@,
            None => Seq::empty(),
        }
    } else {
        Seq::empty()
    }
}

/// The details of the failed results, in order.
pub open spec fn failure_texts(rs: Seq<BenchmarkResult>) -> Seq<char>
    decreases rs.len(),
{
    if rs.len() == 0 {
        Seq::empty()
    } else {
        failure_texts(rs.drop_last()) + failure_text(rs.last())
    }
}

/// The metadata of the first result that carries any.
pub open spec fn first_metadata(rs: Seq<BenchmarkResult>) -> Option<BenchmarkMetadata>
    decreases rs.len(),
{
    if rs.len() == 0 {
        None
    } else {
        match first_metadata(rs.drop_last()) {
            Some(m) => Some(m),
            None => rs.last().metadata,
        }
    }
}

/// A labelled line of the environment block, present when the text is.
pub open spec fn opt_line(label: Seq<char>, v: Option<String>) -> Seq<char> {
    match v {
        Some(t) => label + t@ + "\n"@,
        None => Seq::empty(),
    }
}

/// The environment block for the given metadata.
pub open spec fn metadata_block(m: Option<BenchmarkMetadata>) -> Seq<char> {
    match m {
        None => Seq::empty(),
        Some(m) => "## System Information\n\n"@ + opt_line("- **Rust Version:** "@, m.rust_version)
            + opt_line("- **Operating System:** "@, m.os_info) + opt_line("- **CPU:** "@, m.cpu_model)
            + match m.cpu_cores {
            Some(c) => "- **CPU Cores:** "@ + decimal(c as nat) + "\n"@,
            None => Seq::empty(),
        } + match m.total_memory {
            Some(b) => "- **Total Memory:** "@ + fixed(b as nat, GIB as nat, 2) + " GB\n"@,
            None => Seq::empty(),
        } + "\n"@,
    }
}

/// The mean of `total_us` over `n` results, as milliseconds with two decimals.
pub open spec fn mean_text(total_us: nat, n: nat) -> Seq<char> {
    fixed(total_us, n * 1000, 2)
}

/// A count in decimal between a label and a suffix.
pub open spec fn count_line(label: Seq<char>, n: nat, suffix: Seq<char>) -> Seq<char> {
    label + decimal(n) + suffix
}

/// The summary counts of a single-run report.
pub open spec fn summary_block(rs: Seq<BenchmarkResult>) -> Seq<char> {
    let failed = count_status(rs, BenchmarkStatus::Failed);
    let skipped = count_status(rs, BenchmarkStatus::Skipped);
    "## Summary\n\n"@ + count_line("- Total Benchmarks: "@, rs.len(), "\n"@) + count_line(
        "- Successful: "@,
        count_status(rs, BenchmarkStatus::Success),
        " ✓\n"@,
    ) + (if failed > 0 {
        count_line("- Failed: "@, failed, " ✗\n"@)
    } else {
        Seq::empty()
    }) + (if skipped > 0 {
        count_line("- Skipped: "@, skipped, " ⊘\n"@)
    } else {
        Seq::empty()
    }) + "\n"@
}

/// The results table of a single-run report; nothing for no results.
pub open spec fn results_block(rs: Seq<BenchmarkResult>) -> Seq<char> {
    if rs.len() == 0 {
        Seq::empty()
    } else {
        "## Results\n\n"@
            + "| Benchmark | Status | Duration (ms) | Throughput (ops/sec) | Memory (MB) |\n"@
            + "|-----------|--------|---------------|----------------------|-------------|\n"@
            + result_rows(rs) + "\n"@
    }
}

/// A named duration line of the insights block.
pub open spec fn named_ms_line(label: Seq<char>, r: BenchmarkResult) -> Seq<char> {
    label + r.target_id@ + " ("@ + ms_text(r.metrics.duration_us) + "ms)\n"@
}

/// The insights block: fastest, slowest and mean duration over the
/// successful results; nothing when none succeeded.
pub open spec fn insights_block(rs: Seq<BenchmarkResult>) -> Seq<char> {
    let n = count_status(rs, BenchmarkStatus::Success);
    if n == 0 {
        Seq::empty()
    } else {
        "## Performance Insights\n\n"@ + named_ms_line("**Fastest:** "@, rs[fastest_success(rs)])
            + named_ms_line("**Slowest:** "@, rs[slowest_success(rs)]) + "**Average Duration:** "@
            + mean_text(success_total_us(rs), n) + "ms\n"@ + "\n"@
    }
}

/// The failures section; nothing when none failed.
pub open spec fn failures_block(rs: Seq<BenchmarkResult>) -> Seq<char> {
    if count_status(rs, BenchmarkStatus::Failed) > 0 {
        "## Failed Benchmarks\n\n"@ + failure_texts(rs)
    } else {
        Seq::empty()
    }
}

/// The single-run report, with `generated` as its generation time.
pub open spec fn report_text(rs: Seq<BenchmarkResult>, generated: Seq<char>) -> Seq<char> {
    "# Benchmark Results\n\n"@ + "**Generated:** "@ + generated + "\n\n"@ + summary_block(rs)
        + results_block(rs) + insights_block(rs) + failures_block(rs) + metadata_block(
        first_metadata(rs),
    )
}

/// Pattern of the generation time in report headers.
pub open spec fn generated_pattern() -> Seq<char> {
    "%Y-%m-%d %H:%M:%S UTC"@
}

/// The plain-text summary of a run: counts, and the mean duration over
/// the successes.
pub open spec fn summary_text(rs: Seq<BenchmarkResult>) -> Seq<char> {
    let n = count_status(rs, BenchmarkStatus::Success);
    let failed = count_status(rs, BenchmarkStatus::Failed);
    "=== Benchmark Summary ===\n\n"@ + count_line("Total:      "@, rs.len(), "\n"@) + count_line(
        "Successful: "@,
        n,
        " ✓\n"@,
    ) + (if failed > 0 {
        count_line("Failed:     "@, failed, " ✗\n"@)
    } else {
        Seq::empty()
    }) + (if n > 0 {
        "\nAverage Duration: "@ + mean_text(success_total_us(rs), n) + "ms\n"@
    } else {
        Seq::empty()
    })
}

/// Rendering is total, and a collection without results still yields the
/// title, the generation line and a summary that counts zero benchmarks.
pub proof fn lemma_empty_report(generated: Seq<char>)
    ensures
        report_text(Seq::empty(), generated) == "# Benchmark Results\n\n"@ + "**Generated:** "@
            + generated + "\n\n"@ + "## Summary\n\n"@ + "- Total Benchmarks: "@ + seq!['0'] + "\n"@
            + "- Successful: "@ + seq!['0'] + " ✓\n"@ + "\n"@,
        report_text(Seq::empty(), generated).len() > 0,
{
    let e = Seq::<BenchmarkResult>::empty();
    assert(decimal(0) =~= seq!['0']);
    reveal_strlit("# Benchmark Results\n\n");
    assert(report_text(e, generated) =~= "# Benchmark Results\n\n"@ + "**Generated:** "@ + generated
        + "\n\n"@ + "## Summary\n\n"@ + "- Total Benchmarks: "@ + seq!['0'] + "\n"@ + "- Successful: "@
        + seq!['0'] + " ✓\n"@ + "\n"@);
}

proof fn lemma_extremes(rs: Seq<BenchmarkResult>)
    ensures
        -1 <= fastest_success(rs) < rs.len(),
        -1 <= slowest_success(rs) < rs.len(),
        fastest_success(rs) >= 0 <==> count_status(rs, BenchmarkStatus::Success) > 0,
        slowest_success(rs) >= 0 <==> count_status(rs, BenchmarkStatus::Success) > 0,
        fastest_success(rs) >= 0 ==> rs[fastest_success(rs)].status == BenchmarkStatus::Success,
        slowest_success(rs) >= 0 ==> rs[slowest_success(rs)].status == BenchmarkStatus::Success,
    decreases rs.len(),
{
    if rs.len() > 0 {
        lemma_extremes(rs.drop_last());
    }
}

/// The fastest successful result is the first of the successes with the
/// least duration, and the slowest the last of those with the greatest:
/// what a stable ascending sort of the successes puts first and last.
pub proof fn lemma_fastest_slowest(rs: Seq<BenchmarkResult>)
    requires
        count_status(rs, BenchmarkStatus::Success) > 0,
    ensures
        ({
            let f = fastest_success(rs);
            &&& 0 <= f < rs.len()
            &&& rs[f].status == BenchmarkStatus::Success
            &&& forall|j: int|
                0 <= j < rs.len() && rs[j].status == BenchmarkStatus::Success
                    ==> rs[f].metrics.duration_us <= (#[trigger] rs[j]).metrics.duration_us
            &&& forall|j: int|
                0 <= j < f && rs[j].status == BenchmarkStatus::Success
                    ==> rs[f].metrics.duration_us < (#[trigger] rs[j]).metrics.duration_us
        }),
        ({
            let l = slowest_success(rs);
            &&& 0 <= l < rs.len()
            &&& rs[l].status == BenchmarkStatus::Success
            &&& forall|j: int|
                0 <= j < rs.len() && rs[j].status == BenchmarkStatus::Success
                    ==> rs[l].metrics.duration_us >= (#[trigger] rs[j]).metrics.duration_us
            &&& forall|j: int|
                l < j < rs.len() && rs[j].status == BenchmarkStatus::Success
                    ==> rs[l].metrics.duration_us > (#[trigger] rs[j]).metrics.duration_us
        }),
    decreases rs.len(),
{
    lemma_extremes(rs);
    let p = rs.drop_last();
    lemma_extremes(p);
    if count_status(p, BenchmarkStatus::Success) > 0 {
        lemma_fastest_slowest(p);
        assert forall|j: int| 0 <= j < p.len() implies #[trigger] rs[j] == p[j] by {}
    } else {
        assert forall|j: int| 0 <= j < p.len() implies (#[trigger] rs[j]).status
            != BenchmarkStatus::Success by {
            lemma_no_success(p, j);
        }
    }
}

proof fn lemma_no_success(rs: Seq<BenchmarkResult>, j: int)
    requires
        count_status(rs, BenchmarkStatus::Success) == 0,
        0 <= j < rs.len(),
    ensures
        rs[j].status != BenchmarkStatus::Success,
    decreases rs.len(),
{
    if j < rs.len() - 1 {
        lemma_no_success(rs.drop_last(), j);
    }
}

proof fn lemma_counts_sum(rs: Seq<BenchmarkResult>)
    ensures
        count_status(rs, BenchmarkStatus::Success) + count_status(rs, BenchmarkStatus::Failed)
            + count_status(rs, BenchmarkStatus::Skipped) == rs.len(),
    decreases rs.len(),
{
    if rs.len() > 0 {
        lemma_counts_sum(rs.drop_last());
    }
}

/// Counts per status and the total duration of the successes.
struct Tally {
    successful: usize,
    failed: usize,
    skipped: usize,
    success_total_us: u128,
}

fn tally(rs: &[BenchmarkResult]) -> (t: Tally)
    ensures
        t.successful == count_status(rs@, BenchmarkStatus::Success),
        t.failed == count_status(rs@, BenchmarkStatus::Failed),
        t.skipped == count_status(rs@, BenchmarkStatus::Skipped),
        t.success_total_us == success_total_us(rs@),
        t.success_total_us <= t.successful * 0xffff_ffff_ffff_ffff,
{
    let mut t = Tally { successful: 0, failed: 0, skipped: 0, success_total_us: 0 };
    let mut i: usize = 0;
    while i < rs.len()
        invariant
            i <= rs@.len(),
            t.successful == count_status(rs@.subrange(0, i as int), BenchmarkStatus::Success),
            t.failed == count_status(rs@.subrange(0, i as int), BenchmarkStatus::Failed),
            t.skipped == count_status(rs@.subrange(0, i as int), BenchmarkStatus::Skipped),
            t.success_total_us == success_total_us(rs@.subrange(0, i as int)),
            t.successful + t.failed + t.skipped == i,
            t.success_total_us <= t.successful * 0xffff_ffff_ffff_ffff,
        decreases rs@.len() - i,
    {
        proof {
            assert(rs@.subrange(0, i as int + 1).drop_last() =~= rs@.subrange(0, i as int));
        }
        match rs[i].status {
            BenchmarkStatus::Success => {
                proof {
                    assert((t.successful + 1) * 0xffff_ffff_ffff_ffff == t.successful
                        * 0xffff_ffff_ffff_ffff + 0xffff_ffff_ffff_ffff) by (nonlinear_arith);
                    assert(t.successful * 0xffff_ffff_ffff_ffff <= 0xffff_ffff_ffff_ffff
                        * 0xffff_ffff_ffff_ffff) by (nonlinear_arith)
                        requires
                            t.successful <= 0xffff_ffff_ffff_ffff,
                    ;
                }
                t.successful = t.successful + 1;
                t.success_total_us = t.success_total_us + rs[i].metrics.duration_us as u128;
            },
            BenchmarkStatus::Failed => {
                t.failed = t.failed + 1;
            },
            BenchmarkStatus::Skipped => {
                t.skipped = t.skipped + 1;
            },
        }
        i = i + 1;
    }
    proof {
        assert(rs@.subrange(0, rs@.len() as int) =~= rs@);
    }
    t
}

/// Positions of the fastest and of the slowest successful result.
fn extremes(rs: &[BenchmarkResult]) -> (r: (usize, usize))
    requires
        count_status(rs@, BenchmarkStatus::Success) > 0,
    ensures
        r.0 == fastest_success(rs@),
        r.1 == slowest_success(rs@),
{
    let mut fast: usize = 0;
    let mut slow: usize = 0;
    let mut found = false;
    let mut i: usize = 0;
    while i < rs.len()
        invariant
            i <= rs@.len(),
            found == (fastest_success(rs@.subrange(0, i as int)) >= 0),
            found ==> fast == fastest_success(rs@.subrange(0, i as int)),
            found ==> slow == slowest_success(rs@.subrange(0, i as int)),
            found ==> fast < i && slow < i,
            found == (slowest_success(rs@.subrange(0, i as int)) >= 0),
        decreases rs@.len() - i,
    {
        proof {
            assert(rs@.subrange(0, i as int + 1).drop_last() =~= rs@.subrange(0, i as int));
            lemma_extremes(rs@.subrange(0, i as int));
        }
        if rs[i].status == BenchmarkStatus::Success {
            if !found || rs[i].metrics.duration_us < rs[fast].metrics.duration_us {
                fast = i;
            }
            if !found || rs[i].metrics.duration_us >= rs[slow].metrics.duration_us {
                slow = i;
            }
            found = true;
        }
        i = i + 1;
    }
    proof {
        assert(rs@.subrange(0, rs@.len() as int) =~= rs@);
        lemma_extremes(rs@);
    }
    (fast, slow)
}

fn status_icon_str(st: BenchmarkStatus) -> (r: &'static str)
    ensures
        r@ == status_icon(st),
{
    match st {
        BenchmarkStatus::Success => "✓",
        BenchmarkStatus::Failed => "✗",
        BenchmarkStatus::Skipped => "⊘",
    }
}

fn ms_string(us: u64) -> (r: String)
    ensures
        r@ == ms_text(us),
{
    fixed_string(us as u128, 1000, 2)
}

fn opt_string(v: Option<u64>, den: u64) -> (r: String)
    requires
        den > 0,
    ensures
        r@ == opt_text(v, den as nat),
{
    match v {
        Some(x) => fixed_string(x as u128, den as u128, 2),
        None => String::from_str("-"),
    }
}

fn result_row_string(r: &BenchmarkResult) -> (s: String)
    ensures
        s@ == result_row(*r),
{
    let mut s = String::from_str("| ");
    s.append(r.target_id.as_str());
    s.append(" | ");
    s.append(status_icon_str(r.status));
    s.append(" | ");
    s.append(ms_string(r.metrics.duration_us).as_str());
    s.append(" | ");
    s.append(opt_string(r.metrics.throughput_milli_ops_per_sec, 1000).as_str());
    s.append(" | ");
    s.append(opt_string(r.metrics.memory_bytes, MIB).as_str());
    s.append(" |\n");
    assert(s@ =~= result_row(*r));
    s
}

fn failure_string(r: &BenchmarkResult) -> (s: String)
    ensures
        s@ == failure_text(*r),
{
    let mut s = String::new();
    if r.status == BenchmarkStatus::Failed {
        s.append("### ");
        s.append(r.target_id.as_str());
        s.append("\n\n");
        match &r.error {
            Some(e) => {
                s.append("```\n");
                s.append(e.as_str());
                s.append("\n```\n\n");
            },
            None => {},
        }
    }
    assert(s@ =~= failure_text(*r));
    s
}

fn rows_and_failures(rs: &[BenchmarkResult]) -> (r: (String, String))
    ensures
        r.0@ == result_rows(rs@),
        r.1@ == failure_texts(rs@),
{
    let mut rows = String::new();
    let mut fails = String::new();
    let mut i: usize = 0;
    while i < rs.len()
        invariant
            i <= rs@.len(),
            rows@ == result_rows(rs@.subrange(0, i as int)),
            fails@ == failure_texts(rs@.subrange(0, i as int)),
        decreases rs@.len() - i,
    {
        proof {
            assert(rs@.subrange(0, i as int + 1).drop_last() =~= rs@.subrange(0, i as int));
        }
        rows.append(result_row_string(&rs[i]).as_str());
        fails.append(failure_string(&rs[i]).as_str());
        i = i + 1;
    }
    proof {
        assert(rs@.subrange(0, rs@.len() as int) =~= rs@);
    }
    (rows, fails)
}

fn first_metadata_of(rs: &[BenchmarkResult]) -> (r: Option<&BenchmarkMetadata>)
    ensures
        match r {
            Some(m) => first_metadata(rs@) == Some(*m),
            None => first_metadata(rs@) is None,
        },
{
    let mut i: usize = 0;
    while i < rs.len()
        invariant
            i <= rs@.len(),
            first_metadata(rs@.subrange(0, i as int)) is None,
        decreases rs@.len() - i,
    {
        proof {
            assert(rs@.subrange(0, i as int + 1).drop_last() =~= rs@.subrange(0, i as int));
        }
        match &rs[i].metadata {
            Some(m) => {
                proof {
                    lemma_first_metadata_prefix(rs@, i as int + 1);
                }
                return Some(m);
            },
            None => {},
        }
        i = i + 1;
    }
    proof {
        assert(rs@.subrange(0, rs@.len() as int) =~= rs@);
    }
    None
}

proof fn lemma_first_metadata_prefix(rs: Seq<BenchmarkResult>, n: int)
    requires
        0 <= n <= rs.len(),
        first_metadata(rs.subrange(0, n)) is Some,
    ensures
        first_metadata(rs) == first_metadata(rs.subrange(0, n)),
    decreases rs.len() - n,
{
    if n < rs.len() {
        assert(rs.subrange(0, n + 1).drop_last() =~= rs.subrange(0, n));
        lemma_first_metadata_prefix(rs, n + 1);
    } else {
        assert(rs.subrange(0, n) =~= rs);
    }
}

fn opt_line_string(label: &str, v: &Option<String>) -> (r: String)
    ensures
        r@ == opt_line(label@, *v),
{
    match v {
        Some(t) => {
            let mut s = String::from_str(label);
            s.append(t.as_str());
            s.append("\n");
            s
        },
        None => String::new(),
    }
}

fn metadata_string(m: Option<&BenchmarkMetadata>) -> (r: String)
    ensures
        r@ == metadata_block(
            match m {
                Some(x) => Some(*x),
                None => None,
            },
        ),
{
    match m {
        None => String::new(),
        Some(m) => {
            let mut s = String::from_str("## System Information\n\n");
            s.append(opt_line_string("- **Rust Version:** ", &m.rust_version).as_str());
            s.append(opt_line_string("- **Operating System:** ", &m.os_info).as_str());
            s.append(opt_line_string("- **CPU:** ", &m.cpu_model).as_str());
            let ghost before_cores = s@;
            match m.cpu_cores {
                Some(c) => {
                    s.append("- **CPU Cores:** ");
                    s.append(decimal_string(c as u128).as_str());
                    s.append("\n");
                },
                None => {},
            }
            let ghost before_memory = s@;
            match m.total_memory {
                Some(b) => {
                    s.append("- **Total Memory:** ");
                    s.append(fixed_string(b as u128, GIB as u128, 2).as_str());
                    s.append(" GB\n");
                },
                None => {},
            }
            s.append("\n");
            assert(s@ =~= metadata_block(Some(*m)));
            s
        },
    }
}

/// The mean of `total_us` over `n` results, as milliseconds with two decimals.
fn mean_string(total_us: u128, n: usize) -> (r: String)
    requires
        n > 0,
    ensures
        r@ == mean_text(total_us as nat, n as nat),
{
    let den: u128 = n as u128 * 10;
    let v = round_div_exec(total_us, den);
    proof {
        reveal_with_fuel(crate::decimal::pow10, 3);
        lemma_div_multiples_vanish_quotient(100, (2 * total_us + den) as int, (2 * den) as int);
        assert(100 * (2 * total_us + den) == 2 * (total_us * 100) + n * 1000) by (nonlinear_arith)
            requires
                den == n * 10,
        ;
        assert(100 * (2 * den) == 2 * (n * 1000)) by (nonlinear_arith)
            requires
                den == n * 10,
        ;
        assert(v == round_div(total_us as nat * 100, n as nat * 1000));
    }
    point_string(v, 2)
}

pub(crate) fn count_line_string(label: &str, n: usize, suffix: &str) -> (r: String)
    ensures
        r@ == count_line(label@, n as nat, suffix@),
{
    let mut s = String::from_str(label);
    s.append(decimal_string(n as u128).as_str());
    s.append(suffix);
    s
}

fn named_ms_line_string(label: &str, r: &BenchmarkResult) -> (s: String)
    ensures
        s@ == named_ms_line(label@, *r),
{
    let mut s = String::from_str(label);
    s.append(r.target_id.as_str());
    s.append(" (");
    s.append(ms_string(r.metrics.duration_us).as_str());
    s.append("ms)\n");
    assert(s@ =~= named_ms_line(label@, *r));
    s
}

fn summary_string(results: &[BenchmarkResult], t: &Tally) -> (s: String)
    requires
        t.successful == count_status(results@, BenchmarkStatus::Success),
        t.failed == count_status(results@, BenchmarkStatus::Failed),
        t.skipped == count_status(results@, BenchmarkStatus::Skipped),
    ensures
        s@ == summary_block(results@),
{
    let mut s = String::from_str("## Summary\n\n");
    s.append(count_line_string("- Total Benchmarks: ", results.len(), "\n").as_str());
    s.append(count_line_string("- Successful: ", t.successful, " ✓\n").as_str());
    if t.failed > 0 {
        s.append(count_line_string("- Failed: ", t.failed, " ✗\n").as_str());
    }
    if t.skipped > 0 {
        s.append(count_line_string("- Skipped: ", t.skipped, " ⊘\n").as_str());
    }
    s.append("\n");
    assert(s@ =~= summary_block(results@));
    s
}

fn results_string(results: &[BenchmarkResult], rows: &String) -> (s: String)
    requires
        rows@ == result_rows(results@),
    ensures
        s@ == results_block(results@),
{
    let mut s = String::new();
    if results.len() > 0 {
        s.append("## Results\n\n");
        s.append("| Benchmark | Status | Duration (ms) | Throughput (ops/sec) | Memory (MB) |\n");
        s.append("|-----------|--------|---------------|----------------------|-------------|\n");
        s.append(rows.as_str());
        s.append("\n");
    }
    assert(s@ =~= results_block(results@));
    s
}

fn insights_string(results: &[BenchmarkResult], t: &Tally) -> (s: String)
    requires
        t.successful == count_status(results@, BenchmarkStatus::Success),
        t.success_total_us == success_total_us(results@),
    ensures
        s@ == insights_block(results@),
{
    let mut s = String::new();
    if t.successful > 0 {
        proof {
            lemma_extremes(results@);
        }
        let (fast, slow) = extremes(results);
        s.append("## Performance Insights\n\n");
        s.append(named_ms_line_string("**Fastest:** ", &results[fast]).as_str());
        s.append(named_ms_line_string("**Slowest:** ", &results[slow]).as_str());
        s.append("**Average Duration:** ");
        s.append(mean_string(t.success_total_us, t.successful).as_str());
        s.append("ms\n");
        s.append("\n");
    }
    assert(s@ =~= insights_block(results@));
    s
}

fn failures_string(results: &[BenchmarkResult], t: &Tally, failures: &String) -> (s: String)
    requires
        t.failed == count_status(results@, BenchmarkStatus::Failed),
        failures@ == failure_texts(results@),
    ensures
        s@ == failures_block(results@),
{
    let mut s = String::new();
    if t.failed > 0 {
        s.append("## Failed Benchmarks\n\n");
        s.append(failures.as_str());
    }
    assert(s@ =~= failures_block(results@));
    s
}

/// The single-run report of `results`, headed with `generated` as its
/// generation time: summary counts, a table with one row per result, the
/// fastest, slowest and mean duration over the successes, the error text of
/// each failure, and the environment of the first result that carries one.
pub fn render_report(results: &[BenchmarkResult], generated: &str) -> (r: String)
    ensures
        r@ == report_text(results@, generated@),
{
    let t = tally(results);
    let (rows, failures) = rows_and_failures(results);
    let mut s = String::from_str("# Benchmark Results\n\n");
    s.append("**Generated:** ");
    s.append(generated);
    s.append("\n\n");
    s.append(summary_string(results, &t).as_str());
    s.append(results_string(results, &rows).as_str());
    s.append(insights_string(results, &t).as_str());
    s.append(failures_string(results, &t, &failures).as_str());
    s.append(metadata_string(first_metadata_of(results)).as_str());
    assert(s@ =~= report_text(results@, generated@));
    s
}

/// The single-run report of `results`, headed with the current time.
pub fn generate_report(results: &[BenchmarkResult]) -> (r: String)
    ensures
        exists|secs: i64| r@ == report_text(results@, utc_format_text(secs, generated_pattern())),
{
    let t = now();
    let generated = utc_format(t.secs, "%Y-%m-%d %H:%M:%S UTC");
    let r = render_report(results, generated.as_str());
    assert(r@ == report_text(results@, utc_format_text(t.secs, generated_pattern())));
    r
}

/// The plain-text summary of a run: total, successful and (when any)
/// failed counts, and the mean duration over the successes (when any).
pub fn generate_summary(results: &[BenchmarkResult]) -> (r: String)
    ensures
        r@ == summary_text(results@),
{
    let t = tally(results);
    let mut s = String::from_str("=== Benchmark Summary ===\n\n");
    s.append(count_line_string("Total:      ", results.len(), "\n").as_str());
    s.append(count_line_string("Successful: ", t.successful, " ✓\n").as_str());
    if t.failed > 0 {
        s.append(count_line_string("Failed:     ", t.failed, " ✗\n").as_str());
    }
    if t.successful > 0 {
        s.append("\nAverage Duration: ");
        s.append(mean_string(t.success_total_us, t.successful).as_str());
        s.append("ms\n");
    }
    assert(s@ =~= summary_text(results@));
    s
}

} // verus!

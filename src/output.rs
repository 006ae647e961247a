//! What the persisted files are called and what the tabular format holds.

use crate::decimal::{decimal, decimal_string, digit_char, digit_str};
use crate::result::{BenchmarkResult, BenchmarkStatus};
use crate::time::{rfc3339_string, rfc3339_text, utc_format, utc_format_text};
use vstd::prelude::*;

verus! {

/// Default directory for result files.
pub const DEFAULT_OUTPUT_DIR: &'static str = "benchmarks/output";

/// Default directory for the per-benchmark result files.
pub const DEFAULT_RAW_DIR: &'static str = "benchmarks/output/raw";

/// Format of a results file.
#[derive(Clone, Copy, Debug, PartialEq, Eq, Structural)]
pub enum OutputFormat {
    /// Compact JSON.
    Json,
    /// Indented JSON.
    JsonPretty,
    /// Comma-separated rows.
    Csv,
}

/// The file extension of a format.
pub open spec fn extension_text(f: OutputFormat) -> Seq<char> {
    match f {
        OutputFormat::Csv => "csv"@,
        _ => "json"@,
    }
}

/// The format that a name selects, if any.
pub open spec fn format_named(name: Seq<char>) -> Option<OutputFormat> {
    if name == "json"@ {
        Some(OutputFormat::Json)
    } else if name == "json-pretty"@ {
        Some(OutputFormat::JsonPretty)
    } else if name == "csv"@ {
        Some(OutputFormat::Csv)
    } else {
        None
    }
}

impl OutputFormat {
    /// The format named `json`, `json-pretty` or `csv`.
    pub fn from_name(name: &str) -> (r: Option<OutputFormat>)
        ensures
            r == format_named(name@),
    {
        let n = String::from_str(name);
        if n == String::from_str("json") {
            Some(OutputFormat::Json)
        } else if n == String::from_str("json-pretty") {
            Some(OutputFormat::JsonPretty)
        } else if n == String::from_str("csv") {
            Some(OutputFormat::Csv)
        } else {
            None
        }
    }

    /// The file extension of the format.
    pub fn extension(&self) -> (r: &'static str)
        ensures
            r@ == extension_text(*self),
    {
        match self {
            OutputFormat::Csv => "csv",
            _ => "json",
        }
    }
}

/// Whether `c` separates path components: `/` always, and `\` and `:` when
/// `strict`.
pub open spec fn separator(c: char, strict: bool) -> bool {
    c == '/' || (strict && (c == '\\' || c == ':'))
}

/// `s` with every separator replaced by `_`.
pub open spec fn underscored(s: Seq<char>, strict: bool) -> Seq<char> {
    Seq::new(
        s.len(),
        |i: int|
            if separator(s[i], strict) {
                '_'
            } else {
                s[i]
            },
    )
}

/// `s` with every `/` replaced by `_`, and with `\` and `:` too when `strict`.
pub fn underscore_separators(s: &str, strict: bool) -> (r: String)
    ensures
        r@ == underscored(s@, strict),
{
    let n = s.unicode_len();
    let mut out = String::new();
    let mut i: usize = 0;
    while i < n
        invariant
            n == s@.len(),
            i <= n,
            out@ =~= underscored(s@, strict).subrange(0, i as int),
        decreases n - i,
    {
        let c = s.get_char(i);
        let ghost before = out@;
        if c == '/' || (strict && (c == '\\' || c == ':')) {
            out.append("_");
            proof {
                reveal_strlit("_");
            }
            assert("_"@ =~= seq!['_']);
        } else {
            out.append(s.substring_char(i, i + 1));
            assert(s@.subrange(i as int, i + 1) =~= seq![c]);
        }
        assert(out@ =~= before + seq![underscored(s@, strict)[i as int]]);
        i = i + 1;
    }
    out
}

/// Pattern of the time stamp in file names.
pub open spec fn stamp_pattern() -> Seq<char> {
    "%Y%m%d_%H%M%S"@
}

/// The time stamp of file names for the instant `secs`.
pub fn file_stamp(secs: i64) -> (r: String)
    ensures
        r@ == utc_format_text(secs, stamp_pattern()),
{
    utc_format(secs, "%Y%m%d_%H%M%S")
}

/// The name of a results file: `benchmark_results_<stamp>.<extension>`.
pub fn results_file_name(stamp: &str, format: OutputFormat) -> (r: String)
    ensures
        r@ == "benchmark_results_"@ + stamp@ + "."@ + extension_text(format),
{
    let mut s = String::from_str("benchmark_results_");
    s.append(stamp);
    s.append(".");
    s.append(format.extension());
    s
}

/// The name of a per-benchmark file: the identity with `/`, `\` and `:`
/// replaced by `_`, then `_<stamp>.json`.
pub fn raw_file_name(target_id: &str, stamp: &str) -> (r: String)
    ensures
        r@ == underscored(target_id@, true) + "_"@ + stamp@ + ".json"@,
{
    let mut s = underscore_separators(target_id, true);
    s.append("_");
    s.append(stamp);
    s.append(".json");
    s
}

/// The shortest decimals of a fraction in thousandths (`frac` below 1000,
/// not zero): trailing zeros dropped.
pub open spec fn frac_digits(frac: nat) -> Seq<char> {
    let d1 = frac / 100;
    let d2 = (frac / 10) % 10;
    let d3 = frac % 10;
    if d3 != 0 {
        seq![digit_char(d1), digit_char(d2), digit_char(d3)]
    } else if d2 != 0 {
        seq![digit_char(d1), digit_char(d2)]
    } else {
        seq![digit_char(d1)]
    }
}

/// A quantity in thousandths written in plain decimal: no fraction when it
/// is whole, else the fraction without trailing zeros.
pub open spec fn thousandths_text(v: nat) -> Seq<char> {
    if v % 1000 == 0 {
        decimal(v / 1000)
    } else {
        decimal(v / 1000) + "."@ + frac_digits(v % 1000)
    }
}

/// The textual name of a status.
pub open spec fn status_name(st: BenchmarkStatus) -> Seq<char> {
    match st {
        BenchmarkStatus::Success => "Success"@,
        BenchmarkStatus::Failed => "Failed"@,
        BenchmarkStatus::Skipped => "Skipped"@,
    }
}

/// An optional count in decimal, or nothing.
pub open spec fn opt_count(v: Option<u64>) -> Seq<char> {
    match v {
        Some(x) => decimal(x as nat),
        None => Seq::empty(),
    }
}

/// The header line of the tabular format.
pub open spec fn csv_header() -> Seq<char> {
    "target_id,status,duration_ms,throughput_ops_per_sec,memory_bytes,success_count,error_count,timestamp,error\n"@
}

/// One row of the tabular format. The error text is written as it is.
pub open spec fn csv_row(r: BenchmarkResult) -> Seq<char> {
    r.target_id@ + ","@ + status_name(r.status) + ","@ + thousandths_text(
        r.metrics.duration_us as nat,
    ) + ","@ + match r.metrics.throughput_milli_ops_per_sec {
        Some(t) => thousandths_text(t as nat),
        None => Seq::empty(),
    } + ","@ + opt_count(r.metrics.memory_bytes) + ","@ + opt_count(r.metrics.success_count) + ","@
        + opt_count(r.metrics.error_count) + ","@ + rfc3339_text(r.timestamp.secs, r.timestamp.nanos)
        + ","@ + match r.error {
        Some(e) => e@,
        None => Seq::empty(),
    } + "\n"@
}

/// The rows of the tabular format, one per result, in order.
pub open spec fn csv_rows(rs: Seq<BenchmarkResult>) -> Seq<char>
    decreases rs.len(),
{
    if rs.len() == 0 {
        Seq::empty()
    } else {
        csv_rows(rs.drop_last()) + csv_row(rs.last())
    }
}

fn thousandths_string(v: u64) -> (r: String)
    ensures
        r@ == thousandths_text(v as nat),
{
    let whole = v / 1000;
    let frac = v % 1000;
    let mut s = decimal_string(whole as u128);
    if frac != 0 {
        s.append(".");
        let d1 = (frac / 100) as u128;
        let d2 = ((frac / 10) % 10) as u128;
        let d3 = (frac % 10) as u128;
        s.append(digit_str(d1));
        if d2 != 0 || d3 != 0 {
            s.append(digit_str(d2));
        }
        if d3 != 0 {
            s.append(digit_str(d3));
        }
        assert(s@ =~= thousandths_text(v as nat));
    }
    s
}

fn status_name_str(st: BenchmarkStatus) -> (r: &'static str)
    ensures
        r@ == status_name(st),
{
    match st {
        BenchmarkStatus::Success => "Success",
        BenchmarkStatus::Failed => "Failed",
        BenchmarkStatus::Skipped => "Skipped",
    }
}

fn opt_count_string(v: Option<u64>) -> (r: String)
    ensures
        r@ == opt_count(v),
{
    match v {
        Some(x) => decimal_string(x as u128),
        None => String::new(),
    }
}

fn csv_row_string(r: &BenchmarkResult) -> (s: String)
    ensures
        s@ == csv_row(*r),
{
    let mut s = String::from_str(r.target_id.as_str());
    s.append(",");
    s.append(status_name_str(r.status));
    s.append(",");
    s.append(thousandths_string(r.metrics.duration_us).as_str());
    s.append(",");
    match r.metrics.throughput_milli_ops_per_sec {
        Some(t) => s.append(thousandths_string(t).as_str()),
        None => {},
    }
    s.append(",");
    s.append(opt_count_string(r.metrics.memory_bytes).as_str());
    s.append(",");
    s.append(opt_count_string(r.metrics.success_count).as_str());
    s.append(",");
    s.append(opt_count_string(r.metrics.error_count).as_str());
    s.append(",");
    s.append(rfc3339_string(r.timestamp).as_str());
    s.append(",");
    match &r.error {
        Some(e) => s.append(e.as_str()),
        None => {},
    }
    s.append("\n");
    assert(s@ =~= csv_row(*r));
    s
}

/// The results in the tabular format: a header line, then one row per
/// result with its identity, status, duration in milliseconds, throughput,
/// memory, counts, RFC 3339 time stamp and error text; absent values are
/// empty.
pub fn results_csv(results: &[BenchmarkResult]) -> (r: String)
    ensures
        r@ == csv_header() + csv_rows(results@),
{
    let mut s = String::from_str(
        "target_id,status,duration_ms,throughput_ops_per_sec,memory_bytes,success_count,error_count,timestamp,error\n",
    );
    let mut i: usize = 0;
    while i < results.len()
        invariant
            i <= results@.len(),
            s@ == csv_header() + csv_rows(results@.subrange(0, i as int)),
        decreases results@.len() - i,
    {
        proof {
            assert(results@.subrange(0, i as int + 1).drop_last() =~= results@.subrange(0, i as int));
        }
        s.append(csv_row_string(&results[i]).as_str());
        i = i + 1;
        assert(s@ =~= csv_header() + csv_rows(results@.subrange(0, i as int)));
    }
    proof {
        assert(results@.subrange(0, results@.len() as int) =~= results@);
    }
    s
}

} // verus!

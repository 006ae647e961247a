//! Reports on a comparison of two runs: the full Markdown report, sorted by
//! change, and the short notification.

use crate::compare::{
    change_bp, change_of, classify, lemma_change_bounded, of_kind, refs_of, BenchmarkComparison,
    Change, ComparisonSummary,
};
use crate::decimal::{fixed_string, signed_fixed, signed_fixed_string};
use crate::report::{count_line, count_line_string, generated_pattern, ms_text};
use crate::time::{now, utc_format, utc_format_text};
use vstd::prelude::*;

verus! {

/// Position at which a comparison with change `v` goes into `t`: before
/// the first comparison whose change is smaller, else at the end.
pub open spec fn insert_pos(t: Seq<BenchmarkComparison>, v: int) -> int
    decreases t.len(),
{
    if t.len() == 0 {
        0
    } else if (t[0].duration_change_bp as int) < v {
        0
    } else {
        1 + insert_pos(t.drop_first(), v)
    }
}

/// The comparisons ordered by change, largest first; comparisons with
/// equal changes keep their order (a stable insertion sort).
pub open spec fn sort_by_change(s: Seq<BenchmarkComparison>) -> Seq<BenchmarkComparison>
    decreases s.len(),
{
    if s.len() == 0 {
        s
    } else {
        let t = sort_by_change(s.drop_last());
        t.insert(insert_pos(t, s.last().duration_change_bp as int), s.last())
    }
}

/// The icon of a class of change.
pub open spec fn change_icon(k: Change) -> Seq<char> {
    match k {
        Change::Improvement => "🚀"@,
        Change::Regression => "🐌"@,
        Change::Unchanged => "≈"@,
    }
}

/// A change in basis points as a signed percentage with one decimal.
pub open spec fn pct_text(bp: i128) -> Seq<char> {
    signed_fixed(bp as int, 100, 1, true)
}

/// One row of the detailed comparison table.
pub open spec fn comparison_row(c: BenchmarkComparison) -> Seq<char> {
    "| "@ + c.target_id@ + " | "@ + ms_text(c.baseline_duration_us) + " | "@ + ms_text(
        c.current_duration_us,
    ) + " | "@ + signed_fixed(c.current_duration_us - c.baseline_duration_us, 1000, 2, true)
        + " | "@ + pct_text(c.duration_change_bp) + "% "@ + change_icon(
        change_of(c.duration_change_bp as int),
    ) + " |\n"@
}

/// The rows of the detailed comparison table, in order.
pub open spec fn comparison_rows(s: Seq<BenchmarkComparison>) -> Seq<char>
    decreases s.len(),
{
    if s.len() == 0 {
        Seq::empty()
    } else {
        comparison_rows(s.drop_last()) + comparison_row(s.last())
    }
}

/// One line of a highlighted section.
pub open spec fn highlight_line(c: BenchmarkComparison) -> Seq<char> {
    "- **"@ + c.target_id@ + "**: "@ + ms_text(c.baseline_duration_us) + "ms → "@ + ms_text(
        c.current_duration_us,
    ) + "ms ("@ + pct_text(c.duration_change_bp) + "%)\n"@
}

/// The lines of a highlighted section, in order.
pub open spec fn highlight_lines(s: Seq<BenchmarkComparison>) -> Seq<char>
    decreases s.len(),
{
    if s.len() == 0 {
        Seq::empty()
    } else {
        highlight_lines(s.drop_last()) + highlight_line(s.last())
    }
}

/// A highlighted section under `title`; nothing when it has no entry.
pub open spec fn highlight_block(title: Seq<char>, s: Seq<BenchmarkComparison>) -> Seq<char> {
    if s.len() == 0 {
        Seq::empty()
    } else {
        title + highlight_lines(s) + "\n"@
    }
}

/// The counts per class of a comparison report.
pub open spec fn comparison_summary_block(cs: Seq<BenchmarkComparison>) -> Seq<char> {
    "## Summary\n\n"@ + count_line("- Total Benchmarks: "@, cs.len(), "\n"@) + count_line(
        "- Improvements: "@,
        of_kind(cs, Change::Improvement).len(),
        " 🚀\n"@,
    ) + count_line("- Regressions: "@, of_kind(cs, Change::Regression).len(), " 🐌\n"@)
        + count_line("- Unchanged: "@, of_kind(cs, Change::Unchanged).len(), " ≈\n"@) + "\n"@
}

/// The detailed table, sorted by change with the largest first.
pub open spec fn comparison_table_block(cs: Seq<BenchmarkComparison>) -> Seq<char> {
    "## Detailed Comparison\n\n"@ + "| Benchmark | Baseline (ms) | Current (ms) | Change | % Change |\n"@
        + "|-----------|---------------|--------------|--------|----------|\n"@ + comparison_rows(
        sort_by_change(cs),
    ) + "\n"@
}

/// The comparison report of `cs` between runs named `baseline` and
/// `current`, with `generated` as its generation time. The regressions and
/// improvements sections list their entries in the order of the sorted
/// table.
pub open spec fn comparison_report_text(
    cs: Seq<BenchmarkComparison>,
    baseline: Seq<char>,
    current: Seq<char>,
    generated: Seq<char>,
) -> Seq<char> {
    comparison_head(baseline, current, generated) + comparison_summary_block(cs)
        + comparison_table_block(cs) + highlight_block(
        "## 🐌 Performance Regressions\n\n"@,
        of_kind(sort_by_change(cs), Change::Regression),
    ) + highlight_block(
        "## 🚀 Performance Improvements\n\n"@,
        of_kind(sort_by_change(cs), Change::Improvement),
    )
}

/// How many entries of each class the notification lists.
pub const NOTIFY_TOP: usize = 5;

/// The first `n` entries of `s` (all of them when there are fewer).
pub open spec fn leading(s: Seq<BenchmarkComparison>, n: nat) -> Seq<BenchmarkComparison> {
    if s.len() <= n {
        s
    } else {
        s.subrange(0, n as int)
    }
}

/// A regression line of the notification.
pub open spec fn slower_line(c: BenchmarkComparison) -> Seq<char> {
    "- `"@ + c.target_id@ + "`: "@ + pct_text(c.duration_change_bp) + "% slower ("@ + ms_text(
        c.baseline_duration_us,
    ) + "ms → "@ + ms_text(c.current_duration_us) + "ms)\n"@
}

/// An improvement line of the notification: the change negated, unsigned.
pub open spec fn faster_line(c: BenchmarkComparison) -> Seq<char> {
    "- `"@ + c.target_id@ + "`: "@ + signed_fixed(-(c.duration_change_bp as int), 100, 1, false)
        + "% faster ("@ + ms_text(c.baseline_duration_us) + "ms → "@ + ms_text(c.current_duration_us)
        + "ms)\n"@
}

/// The notification lines of `s`, slower or faster ones, in order.
pub open spec fn notify_lines(s: Seq<BenchmarkComparison>, slower: bool) -> Seq<char>
    decreases s.len(),
{
    if s.len() == 0 {
        Seq::empty()
    } else {
        notify_lines(s.drop_last(), slower) + if slower {
            slower_line(s.last())
        } else {
            faster_line(s.last())
        }
    }
}

/// One row of the notification's full table.
pub open spec fn appendix_row(c: BenchmarkComparison) -> Seq<char> {
    "| "@ + c.target_id@ + " | "@ + pct_text(c.duration_change_bp) + "% |\n"@
}

/// The rows of the notification's full table, in order.
pub open spec fn appendix_rows(s: Seq<BenchmarkComparison>) -> Seq<char>
    decreases s.len(),
{
    if s.len() == 0 {
        Seq::empty()
    } else {
        appendix_rows(s.drop_last()) + appendix_row(s.last())
    }
}

/// The highlights of the notification: the first few regressions and
/// improvements in the order of the summary, or a line saying that nothing
/// changed significantly.
pub open spec fn notify_highlights(cs: Seq<BenchmarkComparison>) -> Seq<char> {
    let regs = of_kind(cs, Change::Regression);
    let imps = of_kind(cs, Change::Improvement);
    if regs.len() == 0 && imps.len() == 0 {
        "✅ No significant performance changes detected.\n"@
    } else {
        (if regs.len() > 0 {
            "### 🐌 Performance Regressions\n\n"@ + notify_lines(leading(regs, NOTIFY_TOP as nat), true)
                + "\n"@
        } else {
            Seq::empty()
        }) + (if imps.len() > 0 {
            "### 🚀 Performance Improvements\n\n"@ + notify_lines(
                leading(imps, NOTIFY_TOP as nat),
                false,
            ) + "\n"@
        } else {
            Seq::empty()
        })
    }
}

/// The short notification of a comparison: highlights, then a collapsible
/// table of every comparison's change in the order of the summary.
pub open spec fn pr_comment_text(cs: Seq<BenchmarkComparison>) -> Seq<char> {
    "## 📊 Benchmark Results\n\n"@ + notify_highlights(cs)
        + "<details><summary>View full benchmark results</summary>\n\n"@
        + "| Benchmark | Change |\n"@ + "|-----------|--------|\n"@ + appendix_rows(cs)
        + "\n</details>\n"@
}

proof fn lemma_insert_pos_bounds(t: Seq<BenchmarkComparison>, v: int)
    ensures
        0 <= insert_pos(t, v) <= t.len(),
    decreases t.len(),
{
    if t.len() > 0 {
        lemma_insert_pos_bounds(t.drop_first(), v);
    }
}

proof fn lemma_sort_len(s: Seq<BenchmarkComparison>)
    ensures
        sort_by_change(s).len() == s.len(),
    decreases s.len(),
{
    if s.len() > 0 {
        lemma_sort_len(s.drop_last());
        let t = sort_by_change(s.drop_last());
        lemma_insert_pos_bounds(t, s.last().duration_change_bp as int);
    }
}

/// The changes of `t` never increase from one position to a later one.
pub open spec fn sorted_desc(t: Seq<BenchmarkComparison>) -> bool {
    forall|i: int, j: int|
        0 <= i < j < t.len() ==> (#[trigger] t[i]).duration_change_bp >= (#[trigger] t[j]).duration_change_bp
}

proof fn lemma_insert_pos_split(t: Seq<BenchmarkComparison>, v: int)
    ensures
        forall|i: int| 0 <= i < insert_pos(t, v) ==> (#[trigger] t[i]).duration_change_bp >= v,
        insert_pos(t, v) < t.len() ==> t[insert_pos(t, v)].duration_change_bp < v,
    decreases t.len(),
{
    if t.len() > 0 && t[0].duration_change_bp >= v {
        lemma_insert_pos_split(t.drop_first(), v);
        lemma_insert_pos_bounds(t.drop_first(), v);
        let q = insert_pos(t.drop_first(), v);
        if q < t.drop_first().len() {
            assert(t[q + 1] == t.drop_first()[q]);
        }
        assert forall|i: int| 0 <= i < insert_pos(t, v) implies (#[trigger] t[i]).duration_change_bp
            >= v by {
            if i > 0 {
                assert(t[i] == t.drop_first()[i - 1]);
            }
        }
    }
}

/// Ordering by change gives the same comparisons, each as often as before,
/// with changes that never increase along the sequence.
pub proof fn lemma_sort_by_change(s: Seq<BenchmarkComparison>)
    ensures
        sorted_desc(sort_by_change(s)),
        sort_by_change(s).to_multiset() == s.to_multiset(),
    decreases s.len(),
{
    broadcast use vstd::seq_lib::to_multiset_insert, vstd::seq_lib::to_multiset_build;

    if s.len() > 0 {
        lemma_sort_by_change(s.drop_last());
        let t = sort_by_change(s.drop_last());
        let x = s.last();
        let v = x.duration_change_bp as int;
        let p = insert_pos(t, v);
        lemma_insert_pos_bounds(t, v);
        lemma_insert_pos_split(t, v);
        let u = t.insert(p, x);
        assert(s.drop_last().push(x) =~= s);
        assert forall|i: int, j: int| 0 <= i < j < u.len() implies (#[trigger] u[i]).duration_change_bp
            >= (#[trigger] u[j]).duration_change_bp by {
            if j < p {
                assert(u[i] == t[i] && u[j] == t[j]);
            } else if j == p {
                assert(u[i] == t[i]);
            } else if i < p {
                assert(u[i] == t[i] && u[j] == t[j - 1]);
                assert(t[i].duration_change_bp >= t[p].duration_change_bp || t[i].duration_change_bp >= v);
            } else if i == p {
                assert(u[j] == t[j - 1]);
                assert(t[p].duration_change_bp >= t[j - 1].duration_change_bp || j - 1 == p);
            } else {
                assert(u[i] == t[i - 1] && u[j] == t[j - 1]);
            }
        }
    }
}

/// The comparisons of `s` whose change is `v` basis points, in order.
pub open spec fn with_change(s: Seq<BenchmarkComparison>, v: int) -> Seq<BenchmarkComparison>
    decreases s.len(),
{
    if s.len() == 0 {
        s
    } else if s.last().duration_change_bp == v {
        with_change(s.drop_last(), v).push(s.last())
    } else {
        with_change(s.drop_last(), v)
    }
}

proof fn lemma_with_change_add(a: Seq<BenchmarkComparison>, b: Seq<BenchmarkComparison>, v: int)
    ensures
        with_change(a + b, v) == with_change(a, v) + with_change(b, v),
    decreases b.len(),
{
    if b.len() == 0 {
        assert(a + b =~= a);
        assert(with_change(a, v) + with_change(b, v) =~= with_change(a, v));
    } else {
        lemma_with_change_add(a, b.drop_last(), v);
        assert((a + b).drop_last() =~= a + b.drop_last());
        assert((a + b).last() == b.last());
        if b.last().duration_change_bp == v {
            assert(with_change(a, v) + with_change(b.drop_last(), v).push(b.last()) =~= (with_change(
                a,
                v,
            ) + with_change(b.drop_last(), v)).push(b.last()));
        }
    }
}

proof fn lemma_with_change_none(s: Seq<BenchmarkComparison>, v: int)
    requires
        forall|i: int| 0 <= i < s.len() ==> (#[trigger] s[i]).duration_change_bp < v,
    ensures
        with_change(s, v) == Seq::<BenchmarkComparison>::empty(),
    decreases s.len(),
{
    if s.len() > 0 {
        assert(s.last() == s[s.len() - 1]);
        assert forall|i: int| 0 <= i < s.drop_last().len() implies (#[trigger] s.drop_last()[i]).duration_change_bp
            < v by {
            assert(s.drop_last()[i] == s[i]);
        }
        lemma_with_change_none(s.drop_last(), v);
    }
}

/// Ordering by change is stable: the comparisons with any one change come
/// out in the order they went in.
pub proof fn lemma_sort_stable(s: Seq<BenchmarkComparison>, v: int)
    ensures
        with_change(sort_by_change(s), v) == with_change(s, v),
    decreases s.len(),
{
    if s.len() > 0 {
        let s0 = s.drop_last();
        let x = s.last();
        lemma_sort_stable(s0, v);
        lemma_sort_by_change(s0);
        let t = sort_by_change(s0);
        let w = x.duration_change_bp as int;
        let p = insert_pos(t, w);
        lemma_insert_pos_bounds(t, w);
        lemma_insert_pos_split(t, w);
        let head = t.subrange(0, p);
        let tail = t.subrange(p, t.len() as int);
        assert(t =~= head + tail);
        assert(t.insert(p, x) =~= head + seq![x] + tail);
        lemma_with_change_add(head, tail, v);
        lemma_with_change_add(head + seq![x], tail, v);
        lemma_with_change_add(head, seq![x], v);
        assert(seq![x].drop_last() =~= Seq::<BenchmarkComparison>::empty());
        if w == v {
            assert forall|i: int| 0 <= i < tail.len() implies (#[trigger] tail[i]).duration_change_bp
                < v by {
                assert(tail[i] == t[p + i]);
                assert(t[p].duration_change_bp >= t[p + i].duration_change_bp || i == 0);
            }
            lemma_with_change_none(tail, v);
            assert(with_change(tail, v) + Seq::<BenchmarkComparison>::empty() =~= with_change(tail, v));
        }
        assert(seq![x].last() == x);
        assert(with_change(seq![x].drop_last(), v) =~= Seq::<BenchmarkComparison>::empty());
        assert(Seq::<BenchmarkComparison>::empty().push(x) =~= seq![x]);
        assert(with_change(seq![x], v) =~= (if w == v {
            seq![x]
        } else {
            Seq::<BenchmarkComparison>::empty()
        }));
        assert(with_change(head, v) + Seq::<BenchmarkComparison>::empty() =~= with_change(head, v));
        assert(with_change(head, v) + seq![x] =~= with_change(head, v).push(x));
        assert(with_change(t, v).push(x) =~= (with_change(head, v) + with_change(tail, v)).push(x));
    }
}

fn copy_of(c: &BenchmarkComparison) -> (r: BenchmarkComparison)
    ensures
        r == *c,
{
    BenchmarkComparison {
        target_id: c.target_id.clone(),
        baseline_duration_us: c.baseline_duration_us,
        current_duration_us: c.current_duration_us,
        duration_change_bp: c.duration_change_bp,
    }
}

fn find_insert_pos(t: &Vec<BenchmarkComparison>, v: i128) -> (p: usize)
    ensures
        p == insert_pos(t@, v as int),
{
    let mut p: usize = 0;
    proof {
        assert(t@.subrange(0, t@.len() as int) =~= t@);
    }
    while p < t.len() && t[p].duration_change_bp >= v
        invariant
            p <= t@.len(),
            insert_pos(t@, v as int) == p + insert_pos(t@.subrange(p as int, t@.len() as int), v as int),
        decreases t@.len() - p,
    {
        proof {
            assert(t@.subrange(p as int, t@.len() as int).drop_first() =~= t@.subrange(
                p as int + 1,
                t@.len() as int,
            ));
        }
        p = p + 1;
    }
    p
}

/// The comparisons ordered by change, largest first, equal changes in
/// the order they came in.
pub fn sorted_by_change(cs: &Vec<BenchmarkComparison>) -> (r: Vec<BenchmarkComparison>)
    ensures
        r@ == sort_by_change(cs@),
        sorted_desc(r@),
        r@.to_multiset() == cs@.to_multiset(),
        forall|v: int| with_change(r@, v) == with_change(cs@, v),
{
    proof {
        lemma_sort_by_change(cs@);
        assert forall|v: int| with_change(sort_by_change(cs@), v) == with_change(cs@, v) by {
            lemma_sort_stable(cs@, v);
        }
    }
    let mut out: Vec<BenchmarkComparison> = Vec::new();
    let mut i: usize = 0;
    while i < cs.len()
        invariant
            i <= cs@.len(),
            out@ == sort_by_change(cs@.subrange(0, i as int)),
        decreases cs@.len() - i,
    {
        proof {
            assert(cs@.subrange(0, i as int + 1).drop_last() =~= cs@.subrange(0, i as int));
            lemma_insert_pos_bounds(out@, cs@[i as int].duration_change_bp as int);
        }
        let x = copy_of(&cs[i]);
        let p = find_insert_pos(&out, x.duration_change_bp);
        out.insert(p, x);
        i = i + 1;
    }
    proof {
        assert(cs@.subrange(0, cs@.len() as int) =~= cs@);
    }
    out
}

/// Each comparison holds the change between its own durations.
pub open spec fn all_consistent(s: Seq<BenchmarkComparison>) -> bool {
    forall|i: int|
        0 <= i < s.len() ==> (#[trigger] s[i]).duration_change_bp == change_bp(
            s[i].baseline_duration_us,
            s[i].current_duration_us,
        )
}

proof fn lemma_sort_consistent(s: Seq<BenchmarkComparison>)
    requires
        all_consistent(s),
    ensures
        all_consistent(sort_by_change(s)),
    decreases s.len(),
{
    if s.len() > 0 {
        assert(all_consistent(s.drop_last()));
        lemma_sort_consistent(s.drop_last());
        let t = sort_by_change(s.drop_last());
        let p = insert_pos(t, s.last().duration_change_bp as int);
        lemma_insert_pos_bounds(t, s.last().duration_change_bp as int);
        let u = t.insert(p, s.last());
        assert forall|i: int| 0 <= i < u.len() implies (#[trigger] u[i]).duration_change_bp
            == change_bp(u[i].baseline_duration_us, u[i].current_duration_us) by {
            if i < p {
                assert(u[i] == t[i]);
            } else if i > p {
                assert(u[i] == t[i - 1]);
            }
        }
    }
}

fn change_icon_str(k: Change) -> (r: &'static str)
    ensures
        r@ == change_icon(k),
{
    match k {
        Change::Improvement => "🚀",
        Change::Regression => "🐌",
        Change::Unchanged => "≈",
    }
}

fn pct_string(bp: i128) -> (r: String)
    requires
        -0x1_0000_0000_0000_0000_0000_0000_0000 < bp < 0x1_0000_0000_0000_0000_0000_0000_0000,
    ensures
        r@ == pct_text(bp),
{
    signed_fixed_string(bp, 100, 1, true)
}

fn ms_str(us: u64) -> (r: String)
    ensures
        r@ == ms_text(us),
{
    fixed_string(us as u128, 1000, 2)
}

fn comparison_row_string(c: &BenchmarkComparison) -> (s: String)
    requires
        c.duration_change_bp == change_bp(c.baseline_duration_us, c.current_duration_us),
    ensures
        s@ == comparison_row(*c),
{
    proof {
        lemma_change_bounded(c.baseline_duration_us, c.current_duration_us);
    }
    let delta: i128 = c.current_duration_us as i128 - c.baseline_duration_us as i128;
    let mut s = String::from_str("| ");
    s.append(c.target_id.as_str());
    s.append(" | ");
    s.append(ms_str(c.baseline_duration_us).as_str());
    s.append(" | ");
    s.append(ms_str(c.current_duration_us).as_str());
    s.append(" | ");
    s.append(signed_fixed_string(delta, 1000, 2, true).as_str());
    s.append(" | ");
    s.append(pct_string(c.duration_change_bp).as_str());
    s.append("% ");
    s.append(change_icon_str(classify(c.duration_change_bp)));
    s.append(" |\n");
    assert(s@ =~= comparison_row(*c));
    s
}

fn highlight_line_string(c: &BenchmarkComparison) -> (s: String)
    requires
        c.duration_change_bp == change_bp(c.baseline_duration_us, c.current_duration_us),
    ensures
        s@ == highlight_line(*c),
{
    proof {
        lemma_change_bounded(c.baseline_duration_us, c.current_duration_us);
    }
    let mut s = String::from_str("- **");
    s.append(c.target_id.as_str());
    s.append("**: ");
    s.append(ms_str(c.baseline_duration_us).as_str());
    s.append("ms → ");
    s.append(ms_str(c.current_duration_us).as_str());
    s.append("ms (");
    s.append(pct_string(c.duration_change_bp).as_str());
    s.append("%)\n");
    assert(s@ =~= highlight_line(*c));
    s
}

/// The table rows of `sorted` and the lines of its regressions and of its
/// improvements.
fn table_and_highlights(sorted: &Vec<BenchmarkComparison>) -> (r: (
    String,
    String,
    String,
    usize,
    usize,
))
    requires
        all_consistent(sorted@),
    ensures
        r.0@ == comparison_rows(sorted@),
        r.1@ == highlight_lines(of_kind(sorted@, Change::Regression)),
        r.2@ == highlight_lines(of_kind(sorted@, Change::Improvement)),
        r.3 == of_kind(sorted@, Change::Regression).len(),
        r.4 == of_kind(sorted@, Change::Improvement).len(),
{
    let mut n_regs: usize = 0;
    let mut n_imps: usize = 0;
    let mut rows = String::new();
    let mut regs = String::new();
    let mut imps = String::new();
    let mut i: usize = 0;
    while i < sorted.len()
        invariant
            i <= sorted@.len(),
            all_consistent(sorted@),
            rows@ == comparison_rows(sorted@.subrange(0, i as int)),
            regs@ == highlight_lines(of_kind(sorted@.subrange(0, i as int), Change::Regression)),
            imps@ == highlight_lines(of_kind(sorted@.subrange(0, i as int), Change::Improvement)),
            n_regs == of_kind(sorted@.subrange(0, i as int), Change::Regression).len(),
            n_imps == of_kind(sorted@.subrange(0, i as int), Change::Improvement).len(),
            n_regs + n_imps <= i,
        decreases sorted@.len() - i,
    {
        let ghost pre = sorted@.subrange(0, i as int);
        let c = &sorted[i];
        proof {
            assert(sorted@.subrange(0, i as int + 1).drop_last() =~= pre);
            assert(of_kind(pre, Change::Regression).push(*c).drop_last() =~= of_kind(
                pre,
                Change::Regression,
            ));
            assert(of_kind(pre, Change::Improvement).push(*c).drop_last() =~= of_kind(
                pre,
                Change::Improvement,
            ));
        }
        rows.append(comparison_row_string(c).as_str());
        let k = classify(c.duration_change_bp);
        if k == Change::Regression {
            regs.append(highlight_line_string(c).as_str());
            n_regs = n_regs + 1;
        } else if k == Change::Improvement {
            imps.append(highlight_line_string(c).as_str());
            n_imps = n_imps + 1;
        }
        i = i + 1;
    }
    proof {
        assert(sorted@.subrange(0, sorted@.len() as int) =~= sorted@);
    }
    (rows, regs, imps, n_regs, n_imps)
}

fn comparison_summary_string(summary: &ComparisonSummary) -> (s: String)
    ensures
        s@ == comparison_summary_block(summary.comparisons@),
{
    let n_imp = summary.improvements().len();
    let n_reg = summary.regressions().len();
    let n_unch = summary.unchanged().len();
    let mut s = String::from_str("## Summary\n\n");
    s.append(count_line_string("- Total Benchmarks: ", summary.comparisons.len(), "\n").as_str());
    s.append(count_line_string("- Improvements: ", n_imp, " 🚀\n").as_str());
    s.append(count_line_string("- Regressions: ", n_reg, " 🐌\n").as_str());
    s.append(count_line_string("- Unchanged: ", n_unch, " ≈\n").as_str());
    s.append("\n");
    assert(s@ =~= comparison_summary_block(summary.comparisons@));
    s
}

/// The head of a comparison report.
pub open spec fn comparison_head(baseline: Seq<char>, current: Seq<char>, generated: Seq<char>) -> Seq<
    char,
> {
    "# Benchmark Comparison Report\n\n"@ + "**Generated:** "@ + generated + "\n\n"@ + "**Baseline:** "@
        + baseline + "\n"@ + "**Current:** "@ + current + "\n\n"@
}

fn comparison_head_string(baseline_name: &str, current_name: &str, generated: &str) -> (s: String)
    ensures
        s@ == comparison_head(baseline_name@, current_name@, generated@),
{
    let mut s = String::from_str("# Benchmark Comparison Report\n\n");
    s.append("**Generated:** ");
    s.append(generated);
    s.append("\n\n");
    s.append("**Baseline:** ");
    s.append(baseline_name);
    s.append("\n");
    s.append("**Current:** ");
    s.append(current_name);
    s.append("\n\n");
    assert(s@ =~= comparison_head(baseline_name@, current_name@, generated@));
    s
}

fn comparison_table_string(summary: &ComparisonSummary, rows: &String) -> (s: String)
    requires
        rows@ == comparison_rows(sort_by_change(summary.comparisons@)),
    ensures
        s@ == comparison_table_block(summary.comparisons@),
{
    let mut s = String::from_str("## Detailed Comparison\n\n");
    s.append("| Benchmark | Baseline (ms) | Current (ms) | Change | % Change |\n");
    s.append("|-----------|---------------|--------------|--------|----------|\n");
    s.append(rows.as_str());
    s.append("\n");
    assert(s@ =~= comparison_table_block(summary.comparisons@));
    s
}

fn highlight_string(title: &str, lines: &String, n: usize, Ghost(picked): Ghost<
    Seq<BenchmarkComparison>,
>) -> (s: String)
    requires
        lines@ == highlight_lines(picked),
        n == picked.len(),
    ensures
        s@ == highlight_block(title@, picked),
{
    let mut s = String::new();
    if n > 0 {
        s.append(title);
        s.append(lines.as_str());
        s.append("\n");
    }
    assert(s@ =~= highlight_block(title@, picked));
    s
}

/// The comparison report of `summary` between the runs named `baseline_name`
/// and `current_name`, headed with `generated` as its generation time:
/// counts per class, a table of every comparison sorted by change with the
/// largest first, then the regressions and the improvements in the order of
/// that table.
pub fn render_comparison_report(
    summary: &ComparisonSummary,
    baseline_name: &str,
    current_name: &str,
    generated: &str,
) -> (r: String)
    requires
        summary.wf(),
    ensures
        r@ == comparison_report_text(summary.comparisons@, baseline_name@, current_name@, generated@),
{
    let sorted = sorted_by_change(&summary.comparisons);
    proof {
        assert(all_consistent(summary.comparisons@));
        lemma_sort_consistent(summary.comparisons@);
    }
    let (rows, regs, imps, n_regs, n_imps) = table_and_highlights(&sorted);
    let mut s = comparison_head_string(baseline_name, current_name, generated);
    s.append(comparison_summary_string(summary).as_str());
    s.append(comparison_table_string(summary, &rows).as_str());
    s.append(highlight_string("## 🐌 Performance Regressions\n\n", &regs, n_regs, Ghost(of_kind(sorted@, Change::Regression))).as_str());
    s.append(highlight_string("## 🚀 Performance Improvements\n\n", &imps, n_imps, Ghost(of_kind(sorted@, Change::Improvement))).as_str());
    assert(s@ =~= comparison_report_text(
        summary.comparisons@,
        baseline_name@,
        current_name@,
        generated@,
    ));
    s
}

/// The comparison report of `summary` between the runs named `baseline_name`
/// and `current_name`, headed with the current time.
pub fn generate_comparison_report(
    summary: &ComparisonSummary,
    baseline_name: &str,
    current_name: &str,
) -> (r: String)
    requires
        summary.wf(),
    ensures
        exists|secs: i64|
            r@ == comparison_report_text(
                summary.comparisons@,
                baseline_name@,
                current_name@,
                utc_format_text(secs, generated_pattern()),
            ),
{
    let t = now();
    let generated = utc_format(t.secs, "%Y-%m-%d %H:%M:%S UTC");
    let r = render_comparison_report(summary, baseline_name, current_name, generated.as_str());
    assert(r@ == comparison_report_text(
        summary.comparisons@,
        baseline_name@,
        current_name@,
        utc_format_text(t.secs, generated_pattern()),
    ));
    r
}

fn notify_line_string(c: &BenchmarkComparison, slower: bool) -> (s: String)
    requires
        c.duration_change_bp == change_bp(c.baseline_duration_us, c.current_duration_us),
    ensures
        s@ == (if slower {
            slower_line(*c)
        } else {
            faster_line(*c)
        }),
{
    proof {
        lemma_change_bounded(c.baseline_duration_us, c.current_duration_us);
    }
    let mut s = String::from_str("- `");
    s.append(c.target_id.as_str());
    s.append("`: ");
    if slower {
        s.append(pct_string(c.duration_change_bp).as_str());
        s.append("% slower (");
    } else {
        s.append(signed_fixed_string(-c.duration_change_bp, 100, 1, false).as_str());
        s.append("% faster (");
    }
    s.append(ms_str(c.baseline_duration_us).as_str());
    s.append("ms → ");
    s.append(ms_str(c.current_duration_us).as_str());
    s.append("ms)\n");
    if slower {
        assert(s@ =~= slower_line(*c));
    } else {
        assert(s@ =~= faster_line(*c));
    }
    s
}

/// The notification lines of the first few entries of `picked`.
fn notify_lines_string(picked: &Vec<&BenchmarkComparison>, slower: bool, Ghost(all): Ghost<
    Seq<BenchmarkComparison>,
>) -> (s: String)
    requires
        refs_of(picked@, all),
        all_consistent(all),
    ensures
        s@ == notify_lines(leading(all, NOTIFY_TOP as nat), slower),
{
    let n: usize = if picked.len() < NOTIFY_TOP {
        picked.len()
    } else {
        NOTIFY_TOP
    };
    let ghost lead = leading(all, NOTIFY_TOP as nat);
    proof {
        assert(lead =~= all.subrange(0, n as int));
    }
    let mut s = String::new();
    let mut i: usize = 0;
    while i < n
        invariant
            i <= n <= picked@.len(),
            refs_of(picked@, all),
            all_consistent(all),
            lead =~= all.subrange(0, n as int),
            s@ == notify_lines(all.subrange(0, i as int), slower),
        decreases n - i,
    {
        proof {
            assert(all.subrange(0, i as int + 1).drop_last() =~= all.subrange(0, i as int));
            assert(picked@[i as int] == all[i as int]);
        }
        let c: &BenchmarkComparison = picked[i];
        s.append(notify_line_string(c, slower).as_str());
        i = i + 1;
    }
    s
}

fn appendix_rows_string(cs: &Vec<BenchmarkComparison>) -> (s: String)
    requires
        all_consistent(cs@),
    ensures
        s@ == appendix_rows(cs@),
{
    let mut s = String::new();
    let mut i: usize = 0;
    while i < cs.len()
        invariant
            i <= cs@.len(),
            all_consistent(cs@),
            s@ == appendix_rows(cs@.subrange(0, i as int)),
        decreases cs@.len() - i,
    {
        proof {
            assert(cs@.subrange(0, i as int + 1).drop_last() =~= cs@.subrange(0, i as int));
            lemma_change_bounded(cs@[i as int].baseline_duration_us, cs@[i as int].current_duration_us);
        }
        let c = &cs[i];
        s.append("| ");
        s.append(c.target_id.as_str());
        s.append(" | ");
        s.append(pct_string(c.duration_change_bp).as_str());
        s.append("% |\n");
        i = i + 1;
    }
    proof {
        assert(cs@.subrange(0, cs@.len() as int) =~= cs@);
    }
    s
}

proof fn lemma_of_kind_consistent(s: Seq<BenchmarkComparison>, k: Change)
    requires
        all_consistent(s),
    ensures
        all_consistent(of_kind(s, k)),
    decreases s.len(),
{
    if s.len() > 0 {
        assert(all_consistent(s.drop_last()));
        lemma_of_kind_consistent(s.drop_last(), k);
    }
}

fn notify_highlights_string(summary: &ComparisonSummary) -> (s: String)
    requires
        all_consistent(summary.comparisons@),
    ensures
        s@ == notify_highlights(summary.comparisons@),
{
    let ghost cs = summary.comparisons@;
    proof {
        lemma_of_kind_consistent(cs, Change::Regression);
        lemma_of_kind_consistent(cs, Change::Improvement);
    }
    let regs = summary.regressions();
    let imps = summary.improvements();
    let mut s = String::new();
    if regs.len() == 0 && imps.len() == 0 {
        s.append("✅ No significant performance changes detected.\n");
    } else {
        if regs.len() > 0 {
            s.append("### 🐌 Performance Regressions\n\n");
            s.append(notify_lines_string(&regs, true, Ghost(of_kind(cs, Change::Regression))).as_str());
            s.append("\n");
        }
        if imps.len() > 0 {
            s.append("### 🚀 Performance Improvements\n\n");
            s.append(notify_lines_string(&imps, false, Ghost(of_kind(cs, Change::Improvement))).as_str());
            s.append("\n");
        }
    }
    assert(s@ =~= notify_highlights(cs));
    s
}

/// The short notification of `summary`: up to five regressions and up to
/// five improvements, the first in the order of the summary, or a line
/// saying that nothing changed significantly; then a collapsible table of
/// every comparison's change.
pub fn generate_pr_comment(summary: &ComparisonSummary) -> (r: String)
    requires
        summary.wf(),
    ensures
        r@ == pr_comment_text(summary.comparisons@),
{
    let ghost cs = summary.comparisons@;
    proof {
        assert(all_consistent(cs));
    }
    let mut s = String::from_str("## 📊 Benchmark Results\n\n");
    s.append(notify_highlights_string(summary).as_str());
    s.append("<details><summary>View full benchmark results</summary>\n\n");
    s.append("| Benchmark | Change |\n");
    s.append("|-----------|--------|\n");
    s.append(appendix_rows_string(&summary.comparisons).as_str());
    s.append("\n</details>\n");
    assert(s@ =~= pr_comment_text(cs));
    s
}

} // verus!

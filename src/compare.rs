//! The comparison engine: matches two runs by target identity, computes the
//! relative change of each matched pair and classifies it against a fixed
//! tolerance band.

use crate::result::BenchmarkResult;
use vstd::arithmetic::div_mod::lemma_fundamental_div_mod;
use vstd::prelude::*;

verus! {

/// Half-width of the tolerance band, in basis points (five percent).
pub const TOLERANCE_BP: i128 = 500;

/// Comparison of one benchmark across two runs.
#[derive(Clone, Debug)]
pub struct BenchmarkComparison {
    pub target_id: String,
    pub baseline_duration_us: u64,
    pub current_duration_us: u64,
    /// `(current - baseline) / baseline` in basis points (hundredths of a
    /// percent), rounded away from zero; zero when the baseline is zero.
    pub duration_change_bp: i128,
}

/// The comparisons of two runs, in the order of the current run.
#[derive(Clone, Debug)]
pub struct ComparisonSummary {
    pub comparisons: Vec<BenchmarkComparison>,
}

/// How a relative change is classified.
#[derive(Clone, Copy, Debug, PartialEq, Eq, Structural)]
pub enum Change {
    /// Faster by more than the tolerance.
    Improvement,
    /// Slower by more than the tolerance.
    Regression,
    /// Within the tolerance band, both ends included.
    Unchanged,
}

/// `a / d` rounded up.
pub open spec fn ceil_div(a: nat, d: nat) -> nat {
    if d == 0 {
        0
    } else {
        ((a + d - 1) as nat / d) as nat
    }
}

/// The relative change from `baseline` to `current` in basis points,
/// rounded away from zero; zero when `baseline` is zero.
pub open spec fn change_bp(baseline: u64, current: u64) -> int {
    if baseline == 0 {
        0
    } else if current >= baseline {
        ceil_div((10000 * (current - baseline)) as nat, baseline as nat) as int
    } else {
        -(ceil_div((10000 * (baseline - current)) as nat, baseline as nat) as int)
    }
}

/// The class of a change of `bp` basis points.
pub open spec fn change_of(bp: int) -> Change {
    if bp < -TOLERANCE_BP {
        Change::Improvement
    } else if bp > TOLERANCE_BP {
        Change::Regression
    } else {
        Change::Unchanged
    }
}

/// The comparisons of `s` whose change is of class `k`, in order.
pub open spec fn of_kind(s: Seq<BenchmarkComparison>, k: Change) -> Seq<BenchmarkComparison>
    decreases s.len(),
{
    if s.len() == 0 {
        s
    } else {
        let rest = of_kind(s.drop_last(), k);
        if change_of(s.last().duration_change_bp as int) == k {
            rest.push(s.last())
        } else {
            rest
        }
    }
}

/// `r` refers, position by position, to the comparisons of `s`.
pub open spec fn refs_of(r: Seq<&BenchmarkComparison>, s: Seq<BenchmarkComparison>) -> bool {
    &&& r.len() == s.len()
    &&& forall|i: int| 0 <= i < r.len() ==> r[i] == s[i]
}

/// Position of the last result in `rs` with identity `id`, or -1.
pub open spec fn last_index_of(rs: Seq<BenchmarkResult>, id: Seq<char>) -> int
    decreases rs.len(),
{
    if rs.len() == 0 {
        -1
    } else if rs.last().target_id@ == id {
        rs.len() - 1
    } else {
        last_index_of(rs.drop_last(), id)
    }
}

/// The matched pairs of two runs: for each result of `current`, in order,
/// whose identity occurs in `baseline`, its identity, the duration of the
/// last such baseline result and its own duration.
pub open spec fn matched(baseline: Seq<BenchmarkResult>, current: Seq<BenchmarkResult>) -> Seq<
    (Seq<char>, u64, u64),
>
    decreases current.len(),
{
    if current.len() == 0 {
        seq![]
    } else {
        let rest = matched(baseline, current.drop_last());
        let r = current.last();
        let k = last_index_of(baseline, r.target_id@);
        if k >= 0 {
            rest.push((r.target_id@, baseline[k].metrics.duration_us, r.metrics.duration_us))
        } else {
            rest
        }
    }
}

/// `c` compares the pair `p` and holds its relative change.
pub open spec fn describes(c: BenchmarkComparison, p: (Seq<char>, u64, u64)) -> bool {
    &&& c.target_id@ == p.0
    &&& c.baseline_duration_us == p.1
    &&& c.current_duration_us == p.2
    &&& c.duration_change_bp == change_bp(p.1, p.2)
}

proof fn lemma_last_index_bounds(rs: Seq<BenchmarkResult>, id: Seq<char>)
    ensures
        -1 <= last_index_of(rs, id) < rs.len(),
        last_index_of(rs, id) >= 0 ==> rs[last_index_of(rs, id)].target_id@ == id,
    decreases rs.len(),
{
    if rs.len() > 0 {
        lemma_last_index_bounds(rs.drop_last(), id);
    }
}

/// The relative change from `baseline` to `current` in basis points,
/// rounded away from zero; zero when `baseline` is zero.
pub fn duration_change_bp(baseline: u64, current: u64) -> (r: i128)
    ensures
        r == change_bp(baseline, current),
{
    if baseline == 0 {
        0
    } else if current >= baseline {
        let a: u128 = (current - baseline) as u128 * 10000;
        ((a + baseline as u128 - 1) / baseline as u128) as i128
    } else {
        let a: u128 = (baseline - current) as u128 * 10000;
        -(((a + baseline as u128 - 1) / baseline as u128) as i128)
    }
}

/// The class of a change of `bp` basis points.
pub fn classify(bp: i128) -> (r: Change)
    ensures
        r == change_of(bp as int),
{
    if bp < -TOLERANCE_BP {
        Change::Improvement
    } else if bp > TOLERANCE_BP {
        Change::Regression
    } else {
        Change::Unchanged
    }
}

fn last_index(baseline: &[BenchmarkResult], id: &String) -> (r: Option<usize>)
    ensures
        match r {
            Some(k) => k as int == last_index_of(baseline@, id@),
            None => last_index_of(baseline@, id@) == -1,
        },
{
    let mut j: usize = baseline.len();
    proof {
        assert(baseline@.subrange(0, j as int) =~= baseline@);
    }
    while j > 0
        invariant
            j <= baseline@.len(),
            last_index_of(baseline@, id@) == last_index_of(baseline@.subrange(0, j as int), id@),
        decreases j,
    {
        let ghost prefix = baseline@.subrange(0, j as int);
        j = j - 1;
        proof {
            assert(prefix.drop_last() =~= baseline@.subrange(0, j as int));
        }
        if baseline[j].target_id == *id {
            return Some(j);
        }
    }
    None
}

/// Compares two runs. Each result of `current` whose identity occurs in
/// `baseline` is paired with the last baseline result of that identity;
/// the others, and the baseline results never matched, are left out. The
/// comparisons keep the order of `current`.
pub fn compare_results(baseline: &[BenchmarkResult], current: &[BenchmarkResult]) -> (r:
    ComparisonSummary)
    ensures
        r.wf(),
        r.comparisons@.len() == matched(baseline@, current@).len(),
        forall|i: int|
            0 <= i < r.comparisons@.len() ==> describes(
                #[trigger] r.comparisons@[i],
                matched(baseline@, current@)[i],
            ),
{
    let mut comparisons: Vec<BenchmarkComparison> = Vec::new();
    let mut i: usize = 0;
    while i < current.len()
        invariant
            i <= current@.len(),
            comparisons@.len() == matched(baseline@, current@.subrange(0, i as int)).len(),
            forall|j: int|
                0 <= j < comparisons@.len() ==> describes(
                    #[trigger] comparisons@[j],
                    matched(baseline@, current@.subrange(0, i as int))[j],
                ),
        decreases current@.len() - i,
    {
        let ghost before = matched(baseline@, current@.subrange(0, i as int));
        proof {
            assert(current@.subrange(0, i as int + 1).drop_last() =~= current@.subrange(0, i as int));
            lemma_last_index_bounds(baseline@, current@[i as int].target_id@);
        }
        let r = &current[i];
        match last_index(baseline, &r.target_id) {
            Some(k) => {
                let b = baseline[k].metrics.duration_us;
                let c = r.metrics.duration_us;
                comparisons.push(
                    BenchmarkComparison {
                        target_id: r.target_id.clone(),
                        baseline_duration_us: b,
                        current_duration_us: c,
                        duration_change_bp: duration_change_bp(b, c),
                    },
                );
            },
            None => {},
        }
        i = i + 1;
        proof {
            let now_m = matched(baseline@, current@.subrange(0, i as int));
            assert forall|j: int| 0 <= j < comparisons@.len() implies describes(
                #[trigger] comparisons@[j],
                now_m[j],
            ) by {
                if j < before.len() {
                    assert(now_m[j] == before[j]);
                }
            }
        }
    }
    proof {
        assert(current@.subrange(0, current@.len() as int) =~= current@);
    }
    ComparisonSummary { comparisons }
}

fn of_kind_refs(s: &Vec<BenchmarkComparison>, k: Change) -> (r: Vec<&BenchmarkComparison>)
    ensures
        refs_of(r@, of_kind(s@, k)),
{
    let mut out: Vec<&BenchmarkComparison> = Vec::new();
    let mut i: usize = 0;
    while i < s.len()
        invariant
            i <= s@.len(),
            refs_of(out@, of_kind(s@.subrange(0, i as int), k)),
        decreases s@.len() - i,
    {
        proof {
            assert(s@.subrange(0, i as int + 1).drop_last() =~= s@.subrange(0, i as int));
        }
        if classify(s[i].duration_change_bp) == k {
            out.push(&s[i]);
        }
        i = i + 1;
    }
    proof {
        assert(s@.subrange(0, s@.len() as int) =~= s@);
    }
    out
}

proof fn lemma_ceil_at_most(a: nat, d: nat)
    requires
        d > 0,
    ensures
        ceil_div(a, d) <= a,
{
    let x = (a + d - 1) as nat;
    lemma_fundamental_div_mod(x as int, d as int);
    let q = x / d;
    let r = x % d;
    assert(q <= a) by (nonlinear_arith)
        requires
            x == d * q + r,
            0 <= r < d,
            x == a + d - 1,
            d > 0,
    ;
}

/// A change in basis points is at most ten thousand times the larger
/// duration in magnitude.
pub proof fn lemma_change_bounded(baseline: u64, current: u64)
    ensures
        -10000 * 0x1_0000_0000_0000_0000 < change_bp(baseline, current) < 10000
            * 0x1_0000_0000_0000_0000,
{
    if baseline > 0 {
        if current >= baseline {
            lemma_ceil_at_most((10000 * (current - baseline)) as nat, baseline as nat);
        } else {
            lemma_ceil_at_most((10000 * (baseline - current)) as nat, baseline as nat);
        }
    }
}

impl ComparisonSummary {
    /// Each comparison holds the change between its own two durations, as
    /// the comparison engine computes it.
    pub open spec fn wf(&self) -> bool {
        forall|i: int|
            0 <= i < self.comparisons@.len() ==> (#[trigger] self.comparisons@[i]).duration_change_bp
                == change_bp(
                self.comparisons@[i].baseline_duration_us,
                self.comparisons@[i].current_duration_us,
            )
    }

    /// The comparisons that got faster by more than the tolerance, in order.
    pub fn improvements(&self) -> (r: Vec<&BenchmarkComparison>)
        ensures
            refs_of(r@, of_kind(self.comparisons@, Change::Improvement)),
    {
        of_kind_refs(&self.comparisons, Change::Improvement)
    }

    /// The comparisons that got slower by more than the tolerance, in order.
    pub fn regressions(&self) -> (r: Vec<&BenchmarkComparison>)
        ensures
            refs_of(r@, of_kind(self.comparisons@, Change::Regression)),
    {
        of_kind_refs(&self.comparisons, Change::Regression)
    }

    /// The comparisons within the tolerance band, in order.
    pub fn unchanged(&self) -> (r: Vec<&BenchmarkComparison>)
        ensures
            refs_of(r@, of_kind(self.comparisons@, Change::Unchanged)),
    {
        of_kind_refs(&self.comparisons, Change::Unchanged)
    }
}

/// Every comparison falls in exactly one of the three classes, so the
/// improvements, regressions and unchanged comparisons of a collection
/// together number as many as the collection.
pub proof fn lemma_partition_total(s: Seq<BenchmarkComparison>)
    ensures
        of_kind(s, Change::Improvement).len() + of_kind(s, Change::Regression).len() + of_kind(
            s,
            Change::Unchanged,
        ).len() == s.len(),
    decreases s.len(),
{
    if s.len() > 0 {
        lemma_partition_total(s.drop_last());
    }
}

proof fn lemma_ceil_above(a: nat, d: nat, k: nat)
    requires
        d > 0,
    ensures
        ceil_div(a, d) > k <==> a > k * d,
{
    let x = (a + d - 1) as nat;
    lemma_fundamental_div_mod(x as int, d as int);
    let q = x / d;
    let r = x % d;
    assert(x == d * q + r);
    assert(q > k <==> a > k * d) by (nonlinear_arith)
        requires
            x == d * q + r,
            0 <= r < d,
            x == a + d - 1,
            d > 0,
    ;
}

/// Rounding the change to basis points never moves it across the
/// tolerance band: for a positive baseline, the change is a regression
/// exactly when `current` exceeds `baseline` by more than five percent, an
/// improvement exactly when it falls short by more than five percent, and
/// unchanged otherwise (both ends of the band included).
pub proof fn lemma_change_class_exact(baseline: u64, current: u64)
    requires
        baseline > 0,
    ensures
        change_of(change_bp(baseline, current)) == Change::Regression <==> 20 * current > 21
            * baseline,
        change_of(change_bp(baseline, current)) == Change::Improvement <==> 20 * current < 19
            * baseline,
        change_of(change_bp(baseline, current)) == Change::Unchanged <==> 19 * baseline <= 20
            * current <= 21 * baseline,
{
    if current >= baseline {
        lemma_ceil_above((10000 * (current - baseline)) as nat, baseline as nat, 500);
    } else {
        lemma_ceil_above((10000 * (baseline - current)) as nat, baseline as nat, 500);
    }
}

/// Swapping the two runs of a pair with positive durations flips the sign
/// of the change (the magnitudes differ, as each is relative to its own
/// baseline), and the change is zero exactly when the durations are equal.
pub proof fn lemma_change_sign_swaps(a: u64, b: u64)
    requires
        a > 0,
        b > 0,
    ensures
        change_bp(a, b) > 0 <==> change_bp(b, a) < 0,
        change_bp(a, b) == 0 <==> a == b,
        change_bp(a, b) == 0 <==> change_bp(b, a) == 0,
{
    if b > a {
        lemma_ceil_above((10000 * (b - a)) as nat, a as nat, 0);
        lemma_ceil_above((10000 * (b - a)) as nat, b as nat, 0);
    } else if a > b {
        lemma_ceil_above((10000 * (a - b)) as nat, a as nat, 0);
        lemma_ceil_above((10000 * (a - b)) as nat, b as nat, 0);
    } else {
        lemma_ceil_above(0, a as nat, 0);
    }
}

} // verus!

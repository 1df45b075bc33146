//! One reading per logical CPU, and the aggregate percentage of a snapshot.
use vstd::prelude::*;

verus! {

/// Hundredths of a percent in one percent.
pub const HUNDREDTHS_PER_PERCENT: u16 = 100;

/// The largest usage a core can report: 100%, in hundredths of a percent.
pub const FULL_USAGE: u16 = 10000;

/// One logical CPU at the moment a snapshot was taken.
#[derive(Debug, Clone)]
pub struct Cpu {
    /// The label the host gives the core (such as `cpu0`).
    pub name: String,
    /// Share of the sampling window the core spent busy, in hundredths of a
    /// percent: `5190` stands for 51.90%. At most `FULL_USAGE`.
    pub usage: u16,
}

impl Cpu {
    /// A reading is well formed when its usage is at most 100%.
    pub open spec fn wf(self) -> bool {
        self.usage <= FULL_USAGE
    }

    /// The usage truncated toward zero to a whole percentage.
    pub open spec fn whole_percent_spec(self) -> nat {
        (self.usage / HUNDREDTHS_PER_PERCENT) as nat
    }

    /// The usage truncated toward zero to a whole percentage, as the popup
    /// shows it next to each core.
    pub fn whole_percent(&self) -> (r: u16)
        ensures
            r == self.whole_percent_spec(),
            self.wf() ==> r <= 100,
    {
        self.usage / HUNDREDTHS_PER_PERCENT
    }
}

/// Every reading of the snapshot is well formed.
pub open spec fn snapshot_wf(s: Seq<Cpu>) -> bool {
    forall|i: int| 0 <= i < s.len() ==> #[trigger] s[i].wf()
}

/// The sum of the truncated whole percentages of the readings.
pub open spec fn sum_whole(s: Seq<Cpu>) -> nat
    decreases s.len(),
{
    if s.len() == 0 {
        0
    } else {
        sum_whole(s.drop_last()) + s.last().whole_percent_spec()
    }
}

/// The aggregate percentage of a snapshot: the truncated per-core
/// percentages summed, then divided by the number of cores with truncating
/// division. An empty snapshot has the aggregate 0.
pub open spec fn aggregate(s: Seq<Cpu>) -> nat {
    if s.len() == 0 {
        0
    } else {
        sum_whole(s) / s.len()
    }
}

proof fn lemma_sum_whole_bound(s: Seq<Cpu>)
    requires
        snapshot_wf(s),
    ensures
        sum_whole(s) <= 100 * s.len(),
    decreases s.len(),
{
    if s.len() > 0 {
        assert(s.last().wf());
        lemma_sum_whole_bound(s.drop_last());
    }
}

proof fn lemma_sum_whole_uniform(s: Seq<Cpu>, v: u16)
    requires
        forall|i: int| 0 <= i < s.len() ==> #[trigger] s[i].usage == v,
    ensures
        sum_whole(s) == s.len() * (v / HUNDREDTHS_PER_PERCENT) as nat,
    decreases s.len(),
{
    if s.len() > 0 {
        assert(s.last().usage == v);
        lemma_sum_whole_uniform(s.drop_last(), v);
        let k = (v / HUNDREDTHS_PER_PERCENT) as nat;
        assert(s.len() * k == (s.len() - 1) * k + k) by (nonlinear_arith);
    }
}

/// The aggregate of a non-empty snapshot of well-formed readings is a
/// percentage: it lies between 0 and 100.
pub proof fn lemma_aggregate_in_range(s: Seq<Cpu>)
    requires
        s.len() >= 1,
        snapshot_wf(s),
    ensures
        0 <= aggregate(s) <= 100,
{
    lemma_sum_whole_bound(s);
    let n = s.len();
    let t = sum_whole(s);
    assert(t / n <= 100) by (nonlinear_arith)
        requires
            t <= 100 * n,
            n >= 1,
    ;
}

/// A snapshot whose cores all report the same usage `v` has the aggregate
/// `v` truncated to a whole percentage: truncating `n` equal readings and
/// dividing their sum by `n` gives the truncated reading back.
pub proof fn lemma_aggregate_uniform(s: Seq<Cpu>, v: u16)
    requires
        s.len() >= 1,
        forall|i: int| 0 <= i < s.len() ==> #[trigger] s[i].usage == v,
    ensures
        aggregate(s) == v / HUNDREDTHS_PER_PERCENT,
{
    lemma_sum_whole_uniform(s, v);
    let n = s.len();
    let k = (v / HUNDREDTHS_PER_PERCENT) as nat;
    assert((n * k) / n == k) by (nonlinear_arith)
        requires
            n >= 1,
    ;
}

/// The percentage shown on the panel for a snapshot: each core's usage is
/// truncated to a whole percentage, the results are summed, and the sum is
/// divided by the number of cores, truncating. An empty snapshot gives 0.
pub fn get_cpu_percentage(cpus: &Vec<Cpu>) -> (r: u8)
    requires
        snapshot_wf(cpus@),
    ensures
        r == aggregate(cpus@),
        cpus@.len() == 0 ==> r == 0,
        r <= 100,
{
    let n = cpus.len();
    if n == 0 {
        return 0;
    }
    let mut sum: u128 = 0;
    let mut i: usize = 0;
    while i < n
        invariant
            n == cpus@.len(),
            i <= n,
            snapshot_wf(cpus@),
            sum == sum_whole(cpus@.subrange(0, i as int)),
            sum <= 100 * i,
        decreases n - i,
    {
        let c = &cpus[i];
        assert(c.wf());
        assert(cpus@.subrange(0, i + 1).drop_last() =~= cpus@.subrange(0, i as int));
        sum = sum + c.whole_percent() as u128;
        i = i + 1;
    }
    assert(cpus@.subrange(0, n as int) =~= cpus@);
    proof {
        lemma_aggregate_in_range(cpus@);
    }
    (sum / n as u128) as u8
}

} // verus!

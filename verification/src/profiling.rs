//! Tick profiling of a world: last and average tick duration, the maximum
//! over the last 60 ticks, and the 99th percentile over the last 100 ticks.

use std::collections::VecDeque;
use vstd::prelude::*;
use vstd::relations::{sorted_by, total_ordering};

verus! {

/// Ticks kept for the maximum.
pub const HISTORY_LEN: usize = 60;
/// Ticks kept for the 99th percentile.
pub const SAMPLE_LEN: usize = 100;

/// Ascending order on durations.
pub open spec fn ascending(a: u64, b: u64) -> bool {
    a <= b
}

/// Largest element (0 for none).
pub open spec fn seq_max(s: Seq<u64>) -> u64
    decreases s.len(),
{
    if s.len() == 0 {
        0
    } else {
        let m = seq_max(s.drop_last());
        if s.last() > m { s.last() } else { m }
    }
}

/// `s` with `x` appended, keeping only the last `cap` elements (given `s.len() <= cap`).
pub open spec fn push_capped(s: Seq<u64>, x: u64, cap: nat) -> Seq<u64> {
    let t = s.push(x);
    if t.len() > cap {
        t.drop_first()
    } else {
        t
    }
}

/// Index of the 99th percentile in `n` sorted samples: `ceil(0.99 n) - 1`.
pub open spec fn p99_index(n: nat) -> int {
    (99 * n + 99) / 100 - 1
}

/// The 99th-percentile sample (0 for none).
pub open spec fn percentile_99(samples: Seq<u64>) -> u64 {
    if samples.len() == 0 {
        0
    } else {
        samples.sort_by(|a: u64, b: u64| ascending(a, b))[p99_index(samples.len())]
    }
}

/// Exponential moving average with weight 0.1 for the new duration.
pub open spec fn next_average(prev: u64, d: u64) -> u64 {
    if prev == 0 {
        d
    } else {
        ((prev * 9 + d) / 10) as u64
    }
}

/// Sorts durations ascending (`slice::sort_unstable`).
#[verifier::external_body]
fn sort_durations(v: &mut Vec<u64>)
    ensures
        sorted_by(final(v)@, |a: u64, b: u64| ascending(a, b)),
        final(v)@.to_multiset() == old(v)@.to_multiset(),
{
    v.sort_unstable();
}

/// Tick-duration statistics of a world.
pub struct TickStats {
    last_tick_us: u64,
    avg_tick_us: u64,
    history: VecDeque<u64>,
    max_tick_us: u64,
    p99_tick_us: u64,
    samples: VecDeque<u64>,
}

/// Mathematical form of the statistics.
pub struct TickStatsView {
    pub last_tick_us: u64,
    pub avg_tick_us: u64,
    pub history: Seq<u64>,
    pub max_tick_us: u64,
    pub p99_tick_us: u64,
    pub samples: Seq<u64>,
}

impl TickStatsView {
    /// The windows stay within their lengths and the average within range.
    pub open spec fn wf(self) -> bool {
        &&& self.history.len() <= HISTORY_LEN
        &&& self.samples.len() <= SAMPLE_LEN
    }
}

impl View for TickStats {
    type V = TickStatsView;

    closed spec fn view(&self) -> TickStatsView {
        TickStatsView {
            last_tick_us: self.last_tick_us,
            avg_tick_us: self.avg_tick_us,
            history: self.history@,
            max_tick_us: self.max_tick_us,
            p99_tick_us: self.p99_tick_us,
            samples: self.samples@,
        }
    }
}

fn max_of(d: &VecDeque<u64>) -> (m: u64)
    ensures
        m == seq_max(d@),
{
    let mut m: u64 = 0;
    let mut i: usize = 0;
    while i < d.len()
        invariant
            i <= d@.len(),
            m == seq_max(d@.take(i as int)),
        decreases d@.len() - i,
    {
        assert(d@.take(i + 1).drop_last() =~= d@.take(i as int));
        if d[i] > m {
            m = d[i];
        }
        i += 1;
    }
    assert(d@.take(d@.len() as int) =~= d@);
    m
}

fn to_vec(d: &VecDeque<u64>) -> (v: Vec<u64>)
    ensures
        v@ == d@,
{
    let mut v: Vec<u64> = Vec::new();
    let mut i: usize = 0;
    while i < d.len()
        invariant
            i <= d@.len(),
            v@ == d@.take(i as int),
        decreases d@.len() - i,
    {
        v.push(d[i]);
        assert(d@.take(i + 1) =~= d@.take(i as int).push(d@[i as int]));
        i += 1;
    }
    assert(d@.take(d@.len() as int) =~= d@);
    v
}

fn percentile_of(samples: &VecDeque<u64>) -> (p: u64)
    requires
        samples@.len() <= SAMPLE_LEN,
    ensures
        p == percentile_99(samples@),
{
    let mut sorted = to_vec(samples);
    sort_durations(&mut sorted);
    let ghost leq = |a: u64, b: u64| ascending(a, b);
    proof {
        broadcast use vstd::seq_lib::group_to_multiset_ensures;
        assert(total_ordering(leq));
        samples@.lemma_sort_by_ensures(leq);
        vstd::seq_lib::lemma_sorted_unique(sorted@, samples@.sort_by(leq), leq);
        assert(sorted@.len() == sorted@.to_multiset().len());
        assert(samples@.len() == samples@.to_multiset().len());
    }
    let n = sorted.len();
    assert(n == samples@.len());
    if n == 0 {
        return 0;
    }
    let idx = ((99 * n + 99) / 100 - 1).min(n - 1);
    sorted[idx]
}

impl TickStats {
    /// Empty statistics.
    pub fn new() -> (r: TickStats)
        ensures
            r@.wf(),
            r@.last_tick_us == 0,
            r@.avg_tick_us == 0,
            r@.history.len() == 0,
            r@.max_tick_us == 0,
            r@.p99_tick_us == 0,
            r@.samples.len() == 0,
    {
        TickStats {
            last_tick_us: 0,
            avg_tick_us: 0,
            history: VecDeque::new(),
            max_tick_us: 0,
            p99_tick_us: 0,
            samples: VecDeque::new(),
        }
    }

    /// Duration of the last tick (microseconds).
    pub fn last_tick_us(&self) -> (r: u64)
        ensures
            r == self@.last_tick_us,
    {
        self.last_tick_us
    }

    /// Moving average of tick durations (microseconds).
    pub fn avg_tick_us(&self) -> (r: u64)
        ensures
            r == self@.avg_tick_us,
    {
        self.avg_tick_us
    }

    /// Longest of the last 60 ticks (microseconds).
    pub fn max_tick_us(&self) -> (r: u64)
        ensures
            r == self@.max_tick_us,
    {
        self.max_tick_us
    }

    /// 99th percentile of the last 100 ticks (microseconds).
    pub fn p99_tick_us(&self) -> (r: u64)
        ensures
            r == self@.p99_tick_us,
    {
        self.p99_tick_us
    }

    /// The durations of the last 60 ticks, oldest first (microseconds).
    pub fn history(&self) -> (r: Vec<u64>)
        ensures
            r@ == self@.history,
    {
        to_vec(&self.history)
    }

    /// Record a tick duration and update the average, the maximum over the
    /// last 60 ticks and the 99th percentile over the last 100.
    pub fn record_tick_duration(&mut self, duration_us: u64)
        requires
            old(self)@.wf(),
            old(self)@.avg_tick_us == 0 || old(self)@.avg_tick_us * 9 + duration_us <= u64::MAX,
        ensures
            final(self)@.wf(),
            final(self)@.last_tick_us == duration_us,
            final(self)@.avg_tick_us == next_average(old(self)@.avg_tick_us, duration_us),
            final(self)@.history == push_capped(old(self)@.history, duration_us, HISTORY_LEN as nat),
            final(self)@.max_tick_us == seq_max(final(self)@.history),
            final(self)@.samples == push_capped(old(self)@.samples, duration_us, SAMPLE_LEN as nat),
            final(self)@.p99_tick_us == percentile_99(final(self)@.samples),
    {
        self.last_tick_us = duration_us;
        let prev = self.avg_tick_us;
        let new_avg = if prev == 0 {
            duration_us
        } else {
            (prev * 9 + duration_us) / 10
        };
        self.avg_tick_us = new_avg;

        self.history.push_back(duration_us);
        if self.history.len() > HISTORY_LEN {
            self.history.pop_front();
        }
        self.max_tick_us = max_of(&self.history);

        self.samples.push_back(duration_us);
        if self.samples.len() > SAMPLE_LEN {
            self.samples.pop_front();
        }
        self.p99_tick_us = percentile_of(&self.samples);
    }
}

/// The recorded maximum bounds every duration in the window and is one of them.
pub proof fn max_is_attained(s: Seq<u64>)
    requires
        s.len() > 0,
    ensures
        forall|i: int| 0 <= i < s.len() ==> #[trigger] s[i] <= seq_max(s),
        s.contains(seq_max(s)),
    decreases s.len(),
{
    if s.len() > 1 {
        max_is_attained(s.drop_last());
        assert forall|i: int| 0 <= i < s.len() implies #[trigger] s[i] <= seq_max(s) by {
            if i < s.len() - 1 {
                assert(s[i] == s.drop_last()[i]);
            }
        }
        if seq_max(s) != s.last() {
            let j = choose|j: int| 0 <= j < s.drop_last().len() && s.drop_last()[j] == seq_max(s.drop_last());
            assert(s[j] == seq_max(s));
        }
    } else {
        assert(s.drop_last().len() == 0);
        assert(s.last() == s[0]);
        assert(seq_max(s.drop_last()) == 0);
        assert(s[0] == seq_max(s));
    }
}

/// The moving average lies between the previous average and the new duration.
pub proof fn average_stays_between(prev: u64, d: u64)
    requires
        prev == 0 || prev * 9 + d <= u64::MAX,
    ensures
        prev > 0 ==> (prev <= d ==> prev <= next_average(prev, d) <= d),
        prev > 0 ==> (d <= prev ==> d <= next_average(prev, d) <= prev),
        prev == 0 ==> next_average(prev, d) == d,
{
}

} // verus!

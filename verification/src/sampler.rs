use vstd::prelude::*;
use crate::rate::{Tps, NANOS_PER_SEC, lemma_exceeds_irreflexive, lemma_exceeds_transitive};

verus! {

/// The best throughput seen on one node and the transactions it processed since
/// the benchmark began.
#[derive(Clone, Copy, Debug)]
pub struct NodeStats {
    pub tps: Tps,
    pub tx: u64,
}

/// What one sampling round reports for a node.
#[derive(Clone, Copy, Debug)]
pub struct Sample {
    /// The throughput over the round.
    pub tps: Tps,
    /// The transactions processed during the round.
    pub processed: u64,
    /// The transactions processed since the benchmark began.
    pub total: u64,
}

/// The state that a node's sampler keeps from one round to the next.
#[derive(Clone, Copy, Debug)]
pub struct TxSampler {
    /// The node's transaction count when the benchmark began.
    pub first_tx_count: u64,
    /// The node's transaction count at the end of the last round.
    pub last_tx_count: u64,
    /// The best throughput of any round so far.
    pub max_tps: Tps,
    /// The transactions processed since the benchmark began, as of the last round.
    pub total: u64,
}

/// Elapsed time in nanoseconds from whole seconds and the nanoseconds beyond them.
pub open spec fn spec_elapsed_nanos(secs: u64, subsec_nanos: u32) -> int {
    secs * NANOS_PER_SEC + subsec_nanos
}

/// Elapsed time in nanoseconds from whole seconds and the nanoseconds beyond them.
pub fn elapsed_nanos(secs: u64, subsec_nanos: u32) -> (ns: u64)
    requires
        spec_elapsed_nanos(secs, subsec_nanos) <= u64::MAX,
    ensures
        ns == spec_elapsed_nanos(secs, subsec_nanos),
        ns == secs * 1_000_000_000 + subsec_nanos,
{
    secs * NANOS_PER_SEC + subsec_nanos as u64
}

/// Transactions processed since the benchmark began: the count above the first
/// count, and zero when the count has not risen above it.
pub open spec fn total_since(first_tx_count: u64, tx_count: u64) -> u64 {
    if tx_count > first_tx_count { (tx_count - first_tx_count) as u64 } else { 0 }
}

impl TxSampler {
    /// The sampler's invariant: the best throughput is always a number.
    pub open spec fn wf(self) -> bool {
        !self.max_tps.is_undefined()
    }

    /// A round with `tx_count` transactions on the node after `elapsed_nanos` is admissible:
    /// the count does not go back, and the processed count times 10^9 fits in a `u64`.
    pub open spec fn admits(self, tx_count: u64) -> bool {
        &&& tx_count >= self.last_tx_count
        &&& (tx_count - self.last_tx_count) * NANOS_PER_SEC <= u64::MAX
    }

    /// What a round reports.
    pub open spec fn sample_of(self, tx_count: u64, elapsed_nanos: u64) -> Sample {
        let processed = (tx_count - self.last_tx_count) as u64;
        Sample {
            tps: Tps { transactions: processed, nanos: elapsed_nanos },
            processed,
            total: total_since(self.first_tx_count, tx_count),
        }
    }

    /// The state after a round.
    pub open spec fn step(self, tx_count: u64, elapsed_nanos: u64) -> TxSampler {
        let s = self.sample_of(tx_count, elapsed_nanos);
        TxSampler {
            first_tx_count: self.first_tx_count,
            last_tx_count: tx_count,
            max_tps: if s.tps.exceeds(self.max_tps) { s.tps } else { self.max_tps },
            total: s.total,
        }
    }

    /// Starts sampling a node whose count was `first_tx_count` when the benchmark
    /// began and is `initial_tx_count` now.
    pub fn new(first_tx_count: u64, initial_tx_count: u64) -> (s: TxSampler)
        ensures
            s.first_tx_count == first_tx_count,
            s.last_tx_count == initial_tx_count,
            s.max_tps == Tps::spec_zero(),
            s.total == 0,
            s.wf(),
    {
        TxSampler { first_tx_count, last_tx_count: initial_tx_count, max_tps: Tps::zero(), total: 0 }
    }

    /// Records a round: the node's count is now `tx_count`, and `elapsed_nanos`
    /// passed since the last round.
    pub fn observe(&mut self, tx_count: u64, elapsed_nanos: u64) -> (s: Sample)
        requires
            old(self).admits(tx_count),
        ensures
            s == old(self).sample_of(tx_count, elapsed_nanos),
            *final(self) == old(self).step(tx_count, elapsed_nanos),
            old(self).wf() ==> final(self).wf(),
            s.processed == tx_count - old(self).last_tx_count,
            s.tps.transactions == tx_count - old(self).last_tx_count,
            s.tps.nanos == elapsed_nanos,
            s.total == (if tx_count > old(self).first_tx_count { tx_count - old(self).first_tx_count } else { 0 }),
            final(self).total == s.total,
            final(self).last_tx_count == tx_count,
            final(self).first_tx_count == old(self).first_tx_count,
            final(self).max_tps == (if s.tps.exceeds(old(self).max_tps) { s.tps } else { old(self).max_tps }),
    {
        let processed = tx_count - self.last_tx_count;
        let tps = Tps { transactions: processed, nanos: elapsed_nanos };
        if tps.greater_than(&self.max_tps) {
            self.max_tps = tps;
        }
        let total = if tx_count > self.first_tx_count { tx_count - self.first_tx_count } else { 0 };
        self.last_tx_count = tx_count;
        self.total = total;
        Sample { tps, processed, total }
    }

    /// What the node reports when sampling ends: its best throughput and its total.
    pub fn finish(&self) -> (stats: NodeStats)
        ensures
            stats.tps == self.max_tps,
            stats.tx == self.total,
    {
        NodeStats { tps: self.max_tps, tx: self.total }
    }
}

/// A round reports the transactions processed since the last round over the time
/// elapsed: for a positive duration the rate is a number, and it is zero exactly
/// when nothing was processed. The state then counts from the new transaction
/// count, keeps the greater of the old peak and the round's rate, and totals the
/// rise above the first count.
pub proof fn lemma_round_rate(s: TxSampler, tx_count: u64, elapsed_nanos: u64)
    requires
        s.admits(tx_count),
    ensures
        s.sample_of(tx_count, elapsed_nanos).processed == tx_count - s.last_tx_count,
        s.sample_of(tx_count, elapsed_nanos).tps.transactions == tx_count - s.last_tx_count,
        s.sample_of(tx_count, elapsed_nanos).tps.nanos == elapsed_nanos,
        elapsed_nanos > 0 ==> !s.sample_of(tx_count, elapsed_nanos).tps.is_undefined(),
        elapsed_nanos > 0 ==> (s.sample_of(tx_count, elapsed_nanos).tps.is_zero() <==> tx_count == s.last_tx_count),
        s.sample_of(tx_count, elapsed_nanos).total
            == (if tx_count > s.first_tx_count { tx_count - s.first_tx_count } else { 0 }),
        s.step(tx_count, elapsed_nanos).last_tx_count == tx_count,
        s.step(tx_count, elapsed_nanos).total == s.sample_of(tx_count, elapsed_nanos).total,
        !s.step(tx_count, elapsed_nanos).max_tps.exceeds(s.max_tps) || s.step(tx_count, elapsed_nanos).max_tps
            == (Tps { transactions: (tx_count - s.last_tx_count) as u64, nanos: elapsed_nanos }),
{
}

/// The state after a sequence of rounds, each a pair of the node's count and the
/// time elapsed since the previous round.
pub open spec fn run(s: TxSampler, rounds: Seq<(u64, u64)>) -> TxSampler
    decreases rounds.len(),
{
    if rounds.len() == 0 {
        s
    } else {
        let r = rounds.last();
        run(s, rounds.drop_last()).step(r.0, r.1)
    }
}

/// What the `i`-th of a sequence of rounds reports.
pub open spec fn sample_at(s: TxSampler, rounds: Seq<(u64, u64)>, i: int) -> Sample {
    run(s, rounds.take(i)).sample_of(rounds[i].0, rounds[i].1)
}

/// Every round of the sequence is admissible in the state it meets.
pub open spec fn admissible(s: TxSampler, rounds: Seq<(u64, u64)>) -> bool {
    forall|i: int| 0 <= i < rounds.len() ==> #[trigger] run(s, rounds.take(i)).admits(rounds[i].0)
}

/// The sum of the transactions processed over the rounds.
pub open spec fn processed_sum(s: TxSampler, rounds: Seq<(u64, u64)>) -> int
    decreases rounds.len(),
{
    if rounds.len() == 0 {
        0
    } else {
        processed_sum(s, rounds.drop_last()) + sample_at(s, rounds, rounds.len() - 1).processed
    }
}

proof fn lemma_take_drop_last(rounds: Seq<(u64, u64)>, i: int)
    requires
        0 <= i < rounds.len(),
    ensures
        rounds.drop_last().take(i) == rounds.take(i),
        i == rounds.len() - 1 ==> rounds.take(i) == rounds.drop_last(),
{
    assert(rounds.drop_last().take(i) =~= rounds.take(i));
    if i == rounds.len() - 1 {
        assert(rounds.take(i) =~= rounds.drop_last());
    }
}

/// The node's count after the rounds is that of the last round.
pub proof fn lemma_run_last_count(s: TxSampler, rounds: Seq<(u64, u64)>)
    ensures
        run(s, rounds).last_tx_count == if rounds.len() == 0 { s.last_tx_count } else { rounds.last().0 },
        run(s, rounds).first_tx_count == s.first_tx_count,
    decreases rounds.len(),
{
    if rounds.len() > 0 {
        lemma_run_last_count(s, rounds.drop_last());
    }
}

/// The transactions reported as processed by the rounds add up to the rise of the
/// node's count over them: no transaction is counted twice or missed.
pub proof fn lemma_processed_telescopes(s: TxSampler, rounds: Seq<(u64, u64)>)
    requires
        admissible(s, rounds),
    ensures
        processed_sum(s, rounds) == run(s, rounds).last_tx_count - s.last_tx_count,
    decreases rounds.len(),
{
    if rounds.len() > 0 {
        let n = rounds.len() - 1;
        let prefix = rounds.drop_last();
        assert forall|i: int| 0 <= i < prefix.len() implies #[trigger] run(s, prefix.take(i)).admits(prefix[i].0) by {
            lemma_take_drop_last(rounds, i);
            assert(run(s, rounds.take(i)).admits(rounds[i].0));
        }
        lemma_processed_telescopes(s, prefix);
        lemma_take_drop_last(rounds, n);
        assert(run(s, rounds.take(n)).admits(rounds[n].0));
        lemma_run_last_count(s, prefix);
    }
}

/// The state invariant holds after any admissible rounds.
pub proof fn lemma_run_wf(s: TxSampler, rounds: Seq<(u64, u64)>)
    requires
        s.wf(),
    ensures
        run(s, rounds).wf(),
    decreases rounds.len(),
{
    if rounds.len() > 0 {
        lemma_run_wf(s, rounds.drop_last());
    }
}

/// The best throughput after the rounds is at least the throughput of every round.
pub proof fn lemma_peak_dominates(s: TxSampler, rounds: Seq<(u64, u64)>)
    requires
        s.wf(),
    ensures
        forall|i: int| 0 <= i < rounds.len() ==> !(#[trigger] sample_at(s, rounds, i)).tps.exceeds(run(s, rounds).max_tps),
        !s.max_tps.exceeds(run(s, rounds).max_tps),
    decreases rounds.len(),
{
    if rounds.len() > 0 {
        let n = rounds.len() - 1;
        let prefix = rounds.drop_last();
        lemma_peak_dominates(s, prefix);
        let m = run(s, prefix).max_tps;
        lemma_take_drop_last(rounds, n);
        let last = sample_at(s, rounds, n).tps;
        let m2 = run(s, rounds).max_tps;
        assert forall|i: int| 0 <= i < rounds.len() implies !(#[trigger] sample_at(s, rounds, i)).tps.exceeds(m2) by {
            lemma_take_drop_last(rounds, i);
            if i < n {
                assert(sample_at(s, rounds, i) == sample_at(s, prefix, i));
                assert(!sample_at(s, prefix, i).tps.exceeds(m));
                if sample_at(s, rounds, i).tps.exceeds(m2) {
                    lemma_exceeds_transitive(sample_at(s, rounds, i).tps, m2, m);
                }
            } else {
                lemma_exceeds_irreflexive(last);
            }
        }
        if s.max_tps.exceeds(m2) {
            lemma_exceeds_transitive(s.max_tps, m2, m);
        }
    }
}

/// The best throughput after the rounds is the starting one or that of one of the rounds.
pub proof fn lemma_peak_attained(s: TxSampler, rounds: Seq<(u64, u64)>)
    ensures
        run(s, rounds).max_tps == s.max_tps
            || exists|i: int| 0 <= i < rounds.len() && (#[trigger] sample_at(s, rounds, i)).tps == run(s, rounds).max_tps,
    decreases rounds.len(),
{
    if rounds.len() > 0 {
        let n = rounds.len() - 1;
        let prefix = rounds.drop_last();
        lemma_peak_attained(s, prefix);
        lemma_take_drop_last(rounds, n);
        if run(s, rounds).max_tps != run(s, prefix).max_tps {
            assert(sample_at(s, rounds, n).tps == run(s, rounds).max_tps);
        } else if run(s, prefix).max_tps != s.max_tps {
            let i = choose|i: int| 0 <= i < prefix.len() && (#[trigger] sample_at(s, prefix, i)).tps == run(s, prefix).max_tps;
            lemma_take_drop_last(rounds, i);
            assert(sample_at(s, rounds, i) == sample_at(s, prefix, i));
        }
    }
}

} // verus!

use vstd::prelude::*;
use crate::rate::{Tps, lemma_exceeds_irreflexive, lemma_exceeds_transitive};
use crate::sampler::NodeStats;

verus! {

/// The figures of the final report over the nodes' statistics.
#[derive(Clone, Copy, Debug)]
pub struct Summary {
    /// The best throughput of any node, or zero.
    pub peak: Tps,
    /// The most transactions that any node processed, or zero.
    pub max_tx: u64,
    /// How many nodes had a throughput of exactly zero.
    pub zero_tps_nodes: usize,
    /// How many nodes had a throughput other than exactly zero.
    pub nodes_with_tps: usize,
    /// Whether the throughputs add up to more than zero: none is undefined and one is positive.
    pub has_normal_tps: bool,
}

/// The best throughput among the nodes, starting from zero and taking a node's
/// throughput only where it is strictly greater.
pub open spec fn peak_of(stats: Seq<NodeStats>) -> Tps
    decreases stats.len(),
{
    if stats.len() == 0 {
        Tps::spec_zero()
    } else {
        let m = peak_of(stats.drop_last());
        if stats.last().tps.exceeds(m) { stats.last().tps } else { m }
    }
}

/// The most transactions processed by a node, or zero.
pub open spec fn max_tx_of(stats: Seq<NodeStats>) -> u64
    decreases stats.len(),
{
    if stats.len() == 0 {
        0
    } else {
        let m = max_tx_of(stats.drop_last());
        if stats.last().tx > m { stats.last().tx } else { m }
    }
}

/// How many nodes had a throughput of exactly zero.
pub open spec fn zero_tps_count(stats: Seq<NodeStats>) -> nat
    decreases stats.len(),
{
    if stats.len() == 0 {
        0
    } else {
        zero_tps_count(stats.drop_last()) + if stats.last().tps.is_zero() { 1nat } else { 0nat }
    }
}

/// The throughputs add up to more than zero.
pub open spec fn has_normal_tps(stats: Seq<NodeStats>) -> bool {
    &&& forall|i: int| 0 <= i < stats.len() ==> !(#[trigger] stats[i]).tps.is_undefined()
    &&& exists|i: int| 0 <= i < stats.len() && (#[trigger] stats[i]).tps.is_positive()
}

impl NodeStats {
    /// The mark shown beside a node that processed no transaction.
    pub fn zero_tx_flag(&self) -> (s: &'static str)
        ensures
            self.tx == 0 ==> s@ == "!!!!!"@,
            self.tx != 0 ==> s@ == ""@,
    {
        if self.tx == 0 { "!!!!!" } else { "" }
    }
}

/// Computes the figures of the final report over the nodes' statistics.
pub fn summarize(stats: &Vec<NodeStats>) -> (s: Summary)
    ensures
        s.peak == peak_of(stats@),
        s.max_tx == max_tx_of(stats@),
        s.zero_tps_nodes == zero_tps_count(stats@),
        s.nodes_with_tps == stats@.len() - zero_tps_count(stats@),
        s.has_normal_tps == has_normal_tps(stats@),
        s.zero_tps_nodes == stats@.filter(|x: NodeStats| x.tps.is_zero()).len(),
        forall|i: int| 0 <= i < stats@.len() ==> !(#[trigger] stats@[i]).tps.exceeds(s.peak),
        forall|i: int| 0 <= i < stats@.len() ==> (#[trigger] stats@[i]).tx <= s.max_tx,
{
    let mut peak = Tps::zero();
    let mut max_tx: u64 = 0;
    let mut zeros: usize = 0;
    let mut any_undefined = false;
    let mut any_positive = false;
    let zero = Tps::zero();
    let mut i: usize = 0;
    while i < stats.len()
        invariant
            i <= stats@.len(),
            zero == Tps::spec_zero(),
            peak == peak_of(stats@.take(i as int)),
            max_tx == max_tx_of(stats@.take(i as int)),
            zeros == zero_tps_count(stats@.take(i as int)),
            zeros <= i,
            any_undefined == exists|j: int| 0 <= j < i && (#[trigger] stats@[j]).tps.is_undefined(),
            any_positive == exists|j: int| 0 <= j < i && (#[trigger] stats@[j]).tps.is_positive(),
        decreases stats.len() - i,
    {
        let st = stats[i];
        proof {
            assert(stats@.take(i + 1).drop_last() =~= stats@.take(i as int));
            assert(stats@.take(i + 1).last() == st);
        }
        if st.tps.equals_zero() {
            zeros = zeros + 1;
        }
        if st.tps.transactions == 0 && st.tps.nanos == 0 {
            any_undefined = true;
        }
        if st.tps.greater_than(&zero) {
            any_positive = true;
        }
        if st.tps.greater_than(&peak) {
            peak = st.tps;
        }
        if st.tx > max_tx {
            max_tx = st.tx;
        }
        i += 1;
    }
    assert(stats@.take(stats@.len() as int) =~= stats@);
    proof {
        lemma_zero_count_counts_zero_nodes(stats@);
        lemma_peak_dominates(stats@);
        lemma_max_tx_is_max(stats@);
    }
    Summary {
        peak,
        max_tx,
        zero_tps_nodes: zeros,
        nodes_with_tps: stats.len() - zeros,
        has_normal_tps: !any_undefined && any_positive,
    }
}

/// The nodes counted as idle are exactly those whose throughput is zero.
pub proof fn lemma_zero_count_counts_zero_nodes(stats: Seq<NodeStats>)
    ensures
        zero_tps_count(stats) == stats.filter(|x: NodeStats| x.tps.is_zero()).len(),
    decreases stats.len(),
{
    reveal(Seq::filter);
    if stats.len() > 0 {
        lemma_zero_count_counts_zero_nodes(stats.drop_last());
    }
}

/// The reported peak is at least every node's throughput.
pub proof fn lemma_peak_dominates(stats: Seq<NodeStats>)
    ensures
        forall|i: int| 0 <= i < stats.len() ==> !(#[trigger] stats[i]).tps.exceeds(peak_of(stats)),
    decreases stats.len(),
{
    if stats.len() > 0 {
        let prefix = stats.drop_last();
        lemma_peak_dominates(prefix);
        let m = peak_of(prefix);
        let m2 = peak_of(stats);
        assert forall|i: int| 0 <= i < stats.len() implies !(#[trigger] stats[i]).tps.exceeds(m2) by {
            if i < stats.len() - 1 {
                assert(stats[i] == prefix[i]);
                if stats[i].tps.exceeds(m2) {
                    lemma_exceeds_transitive(stats[i].tps, m2, m);
                }
            } else {
                lemma_exceeds_irreflexive(stats.last().tps);
            }
        }
    }
}

/// The reported peak is zero or the throughput of one of the nodes.
pub proof fn lemma_peak_attained(stats: Seq<NodeStats>)
    ensures
        peak_of(stats) == Tps::spec_zero()
            || exists|i: int| 0 <= i < stats.len() && (#[trigger] stats[i]).tps == peak_of(stats),
    decreases stats.len(),
{
    if stats.len() > 0 {
        let prefix = stats.drop_last();
        lemma_peak_attained(prefix);
        if peak_of(stats) != peak_of(prefix) {
            assert(stats[stats.len() - 1].tps == peak_of(stats));
        } else if peak_of(prefix) != Tps::spec_zero() {
            let i = choose|i: int| 0 <= i < prefix.len() && (#[trigger] prefix[i]).tps == peak_of(prefix);
            assert(stats[i] == prefix[i]);
        }
    }
}

/// The reported transaction count is the largest of the nodes', or zero when there is no node.
pub proof fn lemma_max_tx_is_max(stats: Seq<NodeStats>)
    ensures
        forall|i: int| 0 <= i < stats.len() ==> (#[trigger] stats[i]).tx <= max_tx_of(stats),
        max_tx_of(stats) == 0 || exists|i: int| 0 <= i < stats.len() && (#[trigger] stats[i]).tx == max_tx_of(stats),
    decreases stats.len(),
{
    if stats.len() > 0 {
        let prefix = stats.drop_last();
        lemma_max_tx_is_max(prefix);
        assert forall|i: int| 0 <= i < stats.len() implies (#[trigger] stats[i]).tx <= max_tx_of(stats) by {
            if i < stats.len() - 1 {
                assert(stats[i] == prefix[i]);
            }
        }
        if max_tx_of(stats) != max_tx_of(prefix) {
            assert(stats[stats.len() - 1].tx == max_tx_of(stats));
        } else if max_tx_of(prefix) != 0 {
            let i = choose|i: int| 0 <= i < prefix.len() && (#[trigger] prefix[i]).tx == max_tx_of(prefix);
            assert(stats[i] == prefix[i]);
        }
    }
}

} // verus!

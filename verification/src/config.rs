use vstd::prelude::*;

verus! {

/// Sender threads when none is asked for.
pub const DEFAULT_THREADS: usize = 4;

/// Nodes to wait for when none is asked for.
pub const DEFAULT_NUM_NODES: usize = 1;

/// Transactions per batch when none is asked for.
pub const DEFAULT_TX_COUNT: i64 = 500_000;

/// Seconds between two samples of a node's transaction count.
pub const SAMPLE_PERIOD_SECS: u64 = 1;

/// The settings of a benchmark run.
#[derive(Clone, Copy, Debug)]
pub struct BenchConfig {
    /// Sender threads, which is also the number of batches per round.
    pub threads: usize,
    /// Nodes that the network must have.
    pub num_nodes: usize,
    /// Seconds that the benchmark runs; without a limit, the largest duration.
    pub duration_secs: u64,
    /// Transactions per round.
    pub tx_count: i64,
    /// Whether signing overlaps with sending.
    pub sustained: bool,
    /// Whether more nodes than `num_nodes` are refused.
    pub reject_extra_nodes: bool,
    /// Whether the run stops once the network has converged.
    pub converge_only: bool,
}

impl BenchConfig {
    /// The settings from what was asked for, with the defaults for what was not.
    pub fn resolve(
        threads: Option<usize>,
        num_nodes: Option<usize>,
        duration_secs: Option<u64>,
        tx_count: Option<i64>,
        sustained: bool,
        reject_extra_nodes: bool,
        converge_only: bool,
    ) -> (c: BenchConfig)
        ensures
            c.threads == match threads { Some(t) => t, None => DEFAULT_THREADS },
            c.num_nodes == match num_nodes { Some(n) => n, None => DEFAULT_NUM_NODES },
            c.duration_secs == match duration_secs { Some(d) => d, None => u64::MAX },
            c.tx_count == match tx_count { Some(n) => n, None => DEFAULT_TX_COUNT },
            c.sustained == sustained,
            c.reject_extra_nodes == reject_extra_nodes,
            c.converge_only == converge_only,
    {
        BenchConfig {
            threads: match threads { Some(t) => t, None => DEFAULT_THREADS },
            num_nodes: match num_nodes { Some(n) => n, None => DEFAULT_NUM_NODES },
            duration_secs: match duration_secs { Some(d) => d, None => u64::MAX },
            tx_count: match tx_count { Some(n) => n, None => DEFAULT_TX_COUNT },
            sustained,
            reject_extra_nodes,
            converge_only,
        }
    }

    /// How many accounts to generate: one for every two transactions, rounded toward zero.
    pub fn keypair_count(&self) -> (n: i64)
        ensures
            n == crate::rounds::trunc_div(self.tx_count as int, 2),
            self.tx_count >= 0 ==> n == self.tx_count / 2,
            self.tx_count >= 0 ==> n + n <= self.tx_count <= n + n + 1,
            self.tx_count < 0 ==> n + n >= self.tx_count >= n + n - 1,
    {
        self.tx_count / 2
    }
}

} // verus!

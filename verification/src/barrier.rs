use vstd::prelude::*;

verus! {

/// How long, in milliseconds, a barrier transaction may stay unconfirmed before the
/// benchmark gives up.
pub const BARRIER_TIMEOUT_MS: u64 = 180_000;

/// Every this many retries, a last id that does not advance is reported.
pub const STALL_REPORT_EVERY: i64 = 8;

/// The state of the wait for a barrier transaction: how many times it was retried.
#[derive(Clone, Copy, Debug)]
pub struct BarrierProbe {
    pub sample_cnt: i64,
}

/// What to do after a barrier transaction was not confirmed.
#[derive(Clone, Copy, Debug, PartialEq, Eq, Structural)]
pub enum BarrierStep {
    /// The wait lasted too long: report it and stop the benchmark.
    TimedOut,
    /// Send the barrier transaction again.
    Retry {
        /// Report that the last id is not advancing.
        warn_stalled: bool,
        /// Adopt the new last id that was fetched.
        adopt_last_id: bool,
    },
}

/// The step that follows an unconfirmed barrier transaction.
pub open spec fn barrier_step(sample_cnt: i64, duration_ms: u64, last_id_advanced: bool) -> BarrierStep {
    if duration_ms > BARRIER_TIMEOUT_MS {
        BarrierStep::TimedOut
    } else {
        BarrierStep::Retry {
            warn_stalled: !last_id_advanced && sample_cnt > 0 && sample_cnt % STALL_REPORT_EVERY == 0,
            adopt_last_id: last_id_advanced,
        }
    }
}

/// A wait longer than three minutes ends the benchmark whatever the last id did;
/// a shorter one is retried, adopting the last id exactly when it advanced and
/// warning of a stall exactly on every eighth retry that saw none.
pub proof fn lemma_barrier_timeout(sample_cnt: i64, duration_ms: u64, last_id_advanced: bool)
    ensures
        duration_ms > 180_000 ==> barrier_step(sample_cnt, duration_ms, last_id_advanced) == BarrierStep::TimedOut,
        duration_ms <= 180_000 ==> barrier_step(sample_cnt, duration_ms, last_id_advanced) == (BarrierStep::Retry {
            warn_stalled: !last_id_advanced && sample_cnt > 0 && sample_cnt % 8 == 0,
            adopt_last_id: last_id_advanced,
        }),
{
}

impl BarrierProbe {
    /// A wait that has not retried yet.
    pub fn new() -> (p: BarrierProbe)
        ensures
            p.sample_cnt == 0,
    {
        BarrierProbe { sample_cnt: 0 }
    }

    /// Whether the last id is fetched anew before the next attempt: on every
    /// eighth retry, not on the first attempt.
    pub fn refresh_last_id(&self) -> (refresh: bool)
        ensures
            refresh == (self.sample_cnt > 0 && self.sample_cnt % STALL_REPORT_EVERY == 0),
    {
        self.sample_cnt > 0 && self.sample_cnt % STALL_REPORT_EVERY == 0
    }

    /// Decides what follows a barrier transaction that was not confirmed after
    /// `duration_ms`; `last_id_advanced` tells whether a new last id was seen.
    /// A retry counts one more sample.
    pub fn on_unconfirmed(&mut self, duration_ms: u64, last_id_advanced: bool) -> (step: BarrierStep)
        requires
            duration_ms > BARRIER_TIMEOUT_MS || old(self).sample_cnt < i64::MAX,
        ensures
            step == barrier_step(old(self).sample_cnt, duration_ms, last_id_advanced),
            step is TimedOut ==> final(self).sample_cnt == old(self).sample_cnt,
            step is Retry ==> final(self).sample_cnt == old(self).sample_cnt + 1,
            duration_ms > BARRIER_TIMEOUT_MS ==> step == BarrierStep::TimedOut,
            duration_ms <= BARRIER_TIMEOUT_MS ==> step == (BarrierStep::Retry {
                warn_stalled: !last_id_advanced && old(self).sample_cnt > 0 && old(self).sample_cnt % 8 == 0,
                adopt_last_id: last_id_advanced,
            }),
    {
        if duration_ms > BARRIER_TIMEOUT_MS {
            return BarrierStep::TimedOut;
        }
        let warn_stalled = !last_id_advanced && self.sample_cnt > 0 && self.sample_cnt % STALL_REPORT_EVERY == 0;
        self.sample_cnt = self.sample_cnt + 1;
        BarrierStep::Retry { warn_stalled, adopt_last_id: last_id_advanced }
    }
}

/// A confirmed barrier transaction must leave exactly one token on its account.
pub fn barrier_balance_ok(balance: i64) -> (ok: bool)
    ensures
        ok == (balance == 1),
{
    balance == 1
}

} // verus!

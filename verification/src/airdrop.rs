use vstd::prelude::*;

verus! {

/// How many times the balance is polled after an airdrop request.
pub const AIRDROP_POLLS: u32 = 20;

/// The tokens each generated account should hold.
pub const NUM_TOKENS_PER_ACCOUNT: i64 = 20;

/// The airdrop that tops an account holding `starting_balance` up to `wanted`, if it
/// holds less.
pub fn airdrop_amount(starting_balance: i64, wanted: i64) -> (amount: Option<i64>)
    requires
        starting_balance < wanted ==> wanted - starting_balance <= i64::MAX,
    ensures
        amount == if starting_balance < wanted { Some((wanted - starting_balance) as i64) } else { None::<i64> },
{
    if starting_balance < wanted {
        Some(wanted - starting_balance)
    } else {
        None
    }
}

/// The tokens that the funding account should ask for before a run: when the first
/// generated account holds fewer than `tokens_per_account`, the shortfall for each of
/// `tx_count` transactions.
pub fn funding_target(tokens_per_account: i64, first_account_balance: i64, tx_count: i64) -> (target: Option<i64>)
    requires
        tokens_per_account > first_account_balance ==> tokens_per_account - first_account_balance <= i64::MAX,
        tokens_per_account > first_account_balance ==>
            i64::MIN <= (tokens_per_account - first_account_balance) * tx_count <= i64::MAX,
    ensures
        target == if tokens_per_account > first_account_balance {
            Some(((tokens_per_account - first_account_balance) * tx_count) as i64)
        } else {
            None::<i64>
        },
{
    if tokens_per_account > first_account_balance {
        let short = tokens_per_account - first_account_balance;
        proof {
            assert(short > 0);
            assert(i64::MIN <= short * tx_count <= i64::MAX);
        }
        Some(short * tx_count)
    } else {
        None
    }
}

/// The result of one poll of the balance after an airdrop request.
#[derive(Clone, Copy, Debug, PartialEq, Eq, Structural)]
pub enum AirdropPoll {
    /// The balance moved: stop polling.
    Settled,
    /// The balance has not moved yet: poll again.
    Waiting,
    /// The balance has not moved and no poll is left.
    Exhausted,
}

/// The wait for an airdrop of `amount` tokens to an account that held `starting_balance`.
#[derive(Clone, Copy, Debug)]
pub struct AirdropWatch {
    pub starting_balance: i64,
    pub amount: i64,
    pub polls: u32,
}

impl AirdropWatch {
    /// Starts waiting for an airdrop.
    pub fn new(starting_balance: i64, amount: i64) -> (w: AirdropWatch)
        ensures
            w.starting_balance == starting_balance,
            w.amount == amount,
            w.polls == 0,
    {
        AirdropWatch { starting_balance, amount, polls: 0 }
    }

    /// Records a poll that saw `current_balance`.
    pub fn poll(&mut self, current_balance: i64) -> (p: AirdropPoll)
        requires
            old(self).polls < AIRDROP_POLLS,
        ensures
            final(self).polls == old(self).polls + 1,
            final(self).starting_balance == old(self).starting_balance,
            final(self).amount == old(self).amount,
            p == if current_balance != old(self).starting_balance {
                AirdropPoll::Settled
            } else if final(self).polls == AIRDROP_POLLS {
                AirdropPoll::Exhausted
            } else {
                AirdropPoll::Waiting
            },
    {
        self.polls = self.polls + 1;
        if current_balance != self.starting_balance {
            AirdropPoll::Settled
        } else if self.polls == AIRDROP_POLLS {
            AirdropPoll::Exhausted
        } else {
            AirdropPoll::Waiting
        }
    }

    /// Whether the balance `current_balance` shows the whole airdrop.
    pub fn landed(&self, current_balance: i64) -> (ok: bool)
        requires
            i64::MIN <= current_balance - self.starting_balance <= i64::MAX,
        ensures
            ok == (current_balance - self.starting_balance == self.amount),
    {
        current_balance - self.starting_balance == self.amount
    }
}

/// An airdrop that landed tops the account up to exactly the wanted balance.
pub proof fn lemma_landed_airdrop_reaches_target(starting_balance: i64, wanted: i64, current_balance: i64)
    requires
        starting_balance < wanted,
        wanted - starting_balance <= i64::MAX,
        current_balance - starting_balance == wanted - starting_balance,
    ensures
        current_balance == wanted,
{
}

} // verus!

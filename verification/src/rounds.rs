use vstd::prelude::*;

verus! {

/// Quotient of `a` by `b` rounded toward zero, as Rust's `/` on signed integers computes it.
pub open spec fn trunc_div(a: int, b: int) -> int {
    if a >= 0 { a / b } else { -((-a) / b) }
}

/// The spacing between direction switches for `tokens_per_account` tokens per account.
pub open spec fn switch_period(tokens_per_account: int) -> int {
    trunc_div(tokens_per_account, 4)
}

/// The first round at which the direction may switch.
pub open spec fn switch_threshold(tokens_per_account: int) -> int {
    trunc_div(3 * tokens_per_account, 4)
}

/// Round `i` switches direction when it is a multiple of the period and has reached
/// three quarters of the tokens per account.
pub open spec fn is_switch_round(tokens_per_account: int, i: int) -> bool {
    &&& i % switch_period(tokens_per_account) == 0
    &&& i >= switch_threshold(tokens_per_account)
}

/// The inputs on which the decision is defined: a nonzero period, no overflow of
/// the remainder, and, where `i` is a multiple of the period so that the threshold
/// is computed, no overflow of `3 * tokens_per_account`.
pub open spec fn switch_inputs_ok(tokens_per_account: int, i: int) -> bool {
    &&& switch_period(tokens_per_account) != 0
    &&& !(i == i64::MIN && switch_period(tokens_per_account) == -1)
    &&& (i % switch_period(tokens_per_account) == 0 ==> i64::MIN <= 3 * tokens_per_account <= i64::MAX)
}

/// Decides whether the benchmark flips the direction of its transfers after round `i`.
pub fn should_switch_directions(num_tokens_per_account: i64, i: i64) -> (switch: bool)
    requires
        switch_inputs_ok(num_tokens_per_account as int, i as int),
    ensures
        switch == is_switch_round(num_tokens_per_account as int, i as int),
        num_tokens_per_account >= 4 ==> (switch <==> (
            (i as int) % ((num_tokens_per_account as int) / 4) == 0
            && i as int >= (3 * (num_tokens_per_account as int)) / 4)),
{
    let period = num_tokens_per_account / 4;
    let r = i % period;
    proof {
        let p = period as int;
        if i >= 0 {
            assert(r == (i as int) % p);
        } else {
            assert(r == -((-(i as int)) % p));
            lemma_neg_divisible(i as int, p);
        }
    }
    if r != 0 {
        return false;
    }
    let threshold = (3 * num_tokens_per_account) / 4;
    i >= threshold
}

/// The direction in which the round's transfers go.
#[derive(Clone, Copy, Debug, PartialEq, Eq, Structural)]
pub enum TransferDirection {
    /// The funding account pays each generated account.
    FromSource,
    /// Each generated account pays the funding account back.
    ToSource,
}

/// Tokens moved by each transfer of a round.
pub const TOKENS_PER_TRANSFER: i64 = 1;

/// The benchmark's rounds: the round counter, and whether tokens flow back to the
/// funding account.
#[derive(Clone, Copy, Debug)]
pub struct TransferRounds {
    pub tokens_per_account: i64,
    pub round: i64,
    pub reclaim: bool,
}

impl TransferRounds {
    /// The state after one more round.
    pub open spec fn next(self) -> TransferRounds {
        TransferRounds {
            tokens_per_account: self.tokens_per_account,
            round: (self.round + 1) as i64,
            reclaim: self.reclaim != is_switch_round(self.tokens_per_account as int, self.round + 1),
        }
    }

    /// Rounds start at `start_round`, with tokens flowing out of the funding account.
    pub fn new(tokens_per_account: i64, start_round: i64) -> (r: TransferRounds)
        ensures
            r.tokens_per_account == tokens_per_account,
            r.round == start_round,
            !r.reclaim,
    {
        TransferRounds { tokens_per_account, round: start_round, reclaim: false }
    }

    /// Ends a round: counts it, and flips the direction when the new round is a
    /// switch round.
    pub fn advance(&mut self)
        requires
            old(self).round < i64::MAX,
            switch_inputs_ok(old(self).tokens_per_account as int, old(self).round + 1),
        ensures
            *final(self) == old(self).next(),
            final(self).round == old(self).round + 1,
            final(self).tokens_per_account == old(self).tokens_per_account,
            old(self).tokens_per_account >= 4 ==> (final(self).reclaim != old(self).reclaim <==> (
                (old(self).round + 1) % ((old(self).tokens_per_account as int) / 4) == 0
                && old(self).round + 1 >= (3 * (old(self).tokens_per_account as int)) / 4)),
    {
        self.round = self.round + 1;
        if should_switch_directions(self.tokens_per_account, self.round) {
            self.reclaim = !self.reclaim;
        }
    }

    /// The direction of the transfers in the current round.
    pub fn direction(&self) -> (d: TransferDirection)
        ensures
            d == if self.reclaim { TransferDirection::ToSource } else { TransferDirection::FromSource },
    {
        if self.reclaim { TransferDirection::ToSource } else { TransferDirection::FromSource }
    }
}

/// The state after `k` more rounds.
pub open spec fn after_rounds(r: TransferRounds, k: nat) -> TransferRounds
    decreases k,
{
    if k == 0 { r } else { after_rounds(r, (k - 1) as nat).next() }
}

/// How many of the rounds `from + 1` to `from + k` are switch rounds.
pub open spec fn switches_within(tokens_per_account: int, from: int, k: nat) -> nat
    decreases k,
{
    if k == 0 {
        0
    } else {
        switches_within(tokens_per_account, from, (k - 1) as nat)
            + if is_switch_round(tokens_per_account, from + k) { 1nat } else { 0nat }
    }
}

/// After `k` rounds the direction has flipped once for each switch round passed:
/// tokens flow back exactly when the starting direction and the parity of the
/// number of switch rounds disagree.
pub proof fn lemma_direction_follows_switch_parity(r: TransferRounds, k: nat)
    requires
        r.round + k <= i64::MAX,
    ensures
        after_rounds(r, k).round == r.round + k,
        after_rounds(r, k).tokens_per_account == r.tokens_per_account,
        after_rounds(r, k).reclaim == (r.reclaim != (switches_within(r.tokens_per_account as int, r.round as int, k) % 2 == 1)),
    decreases k,
{
    if k > 0 {
        lemma_direction_follows_switch_parity(r, (k - 1) as nat);
    }
}

/// Once past the threshold, direction switches come exactly one period apart: a
/// switch round is followed by `period - 1` rounds that are not, then by another.
pub proof fn lemma_switches_are_periodic(tokens_per_account: int, i: int)
    requires
        switch_period(tokens_per_account) > 0,
        is_switch_round(tokens_per_account, i),
    ensures
        is_switch_round(tokens_per_account, i + switch_period(tokens_per_account)),
        forall|k: int| 0 < k < switch_period(tokens_per_account) ==> !#[trigger] is_switch_round(tokens_per_account, i + k),
{
    let p = switch_period(tokens_per_account);
    vstd::arithmetic::div_mod::lemma_fundamental_div_mod(i, p);
    let q = i / p;
    assert(i == q * p) by (nonlinear_arith) requires i == p * q + 0;
    assert(i + p == (q + 1) * p + 0) by (nonlinear_arith) requires i == q * p;
    vstd::arithmetic::div_mod::lemma_fundamental_div_mod_converse_mod(i + p, p, q + 1, 0);
    assert forall|k: int| 0 < k < p implies !#[trigger] is_switch_round(tokens_per_account, i + k) by {
        vstd::arithmetic::div_mod::lemma_fundamental_div_mod_converse_mod(i + k, p, q, k);
    }
}

/// No round before the threshold switches the direction.
pub proof fn lemma_no_switch_before_threshold(tokens_per_account: int, i: int)
    requires
        i < switch_threshold(tokens_per_account),
    ensures
        !is_switch_round(tokens_per_account, i),
{
}

/// A number divides `a` exactly when it divides `-a`.
proof fn lemma_neg_divisible(a: int, d: int)
    requires
        d != 0,
    ensures
        ((-a) % d == 0) <==> (a % d == 0),
{
    vstd::arithmetic::div_mod::lemma_fundamental_div_mod(a, d);
    vstd::arithmetic::div_mod::lemma_fundamental_div_mod(-a, d);
    if a % d == 0 {
        let q = a / d;
        assert((-a) == d * (-q) + 0) by (nonlinear_arith)
            requires a == d * q + 0;
        lemma_mod_unique(-a, d, -q, 0);
    }
    if (-a) % d == 0 {
        let q = (-a) / d;
        assert(a == d * (-q) + 0) by (nonlinear_arith)
            requires -a == d * q + 0;
        lemma_mod_unique(a, d, -q, 0);
    }
}

/// The Euclidean remainder is the unique `r` with `a == d * q + r` and `0 <= r < |d|`.
proof fn lemma_mod_unique(a: int, d: int, q: int, r: int)
    requires
        d != 0,
        a == d * q + r,
        0 <= r,
        r < if d > 0 { d } else { -d },
    ensures
        a % d == r,
{
    vstd::arithmetic::div_mod::lemma_fundamental_div_mod(a, d);
    let q2 = a / d;
    let r2 = a % d;
    assert(0 <= r2 < if d > 0 { d } else { -d });
    assert(d * (q - q2) == r2 - r) by (nonlinear_arith)
        requires a == d * q + r, a == d * q2 + r2;
    if q != q2 {
        if d > 0 {
            if q > q2 {
                assert(d * (q - q2) >= d) by (nonlinear_arith) requires d > 0, q - q2 >= 1;
            } else {
                assert(d * (q - q2) <= -d) by (nonlinear_arith) requires d > 0, q - q2 <= -1;
            }
        } else {
            if q > q2 {
                assert(d * (q - q2) <= d) by (nonlinear_arith) requires d < 0, q - q2 >= 1;
            } else {
                assert(d * (q - q2) >= -d) by (nonlinear_arith) requires d < 0, q - q2 <= -1;
            }
        }
    }
}

} // verus!

use vstd::prelude::*;

verus! {

/// Nanoseconds in one second.
pub const NANOS_PER_SEC: u64 = 1_000_000_000;

/// A throughput: `transactions` processed in `nanos` nanoseconds, that is
/// `transactions * 10^9 / nanos` transactions per second.
///
/// The rate is kept exact. A zero duration gives an infinite rate when some
/// transactions were processed, and no number at all when none were.
#[derive(Clone, Copy, Debug)]
pub struct Tps {
    pub transactions: u64,
    pub nanos: u64,
}

impl Tps {
    /// The rate has no value: nothing processed in no time.
    pub open spec fn is_undefined(self) -> bool {
        self.transactions == 0 && self.nanos == 0
    }

    /// The rate is infinite: something processed in no time.
    pub open spec fn is_infinite(self) -> bool {
        self.transactions > 0 && self.nanos == 0
    }

    /// The rate is exactly zero.
    pub open spec fn is_zero(self) -> bool {
        self.transactions == 0 && self.nanos > 0
    }

    /// `self` is a strictly greater rate than `other`. An undefined rate is
    /// greater than nothing and nothing is greater than it.
    pub open spec fn exceeds(self, other: Tps) -> bool {
        if self.is_undefined() || other.is_undefined() {
            false
        } else if other.is_infinite() {
            false
        } else if self.is_infinite() {
            true
        } else {
            self.transactions * other.nanos > other.transactions * self.nanos
        }
    }

    /// The rate is strictly greater than zero.
    pub open spec fn is_positive(self) -> bool {
        self.exceeds(Tps::spec_zero())
    }

    pub open spec fn spec_zero() -> Tps {
        Tps { transactions: 0, nanos: 1 }
    }

    /// The rate zero.
    pub fn zero() -> (r: Tps)
        ensures
            r == Tps::spec_zero(),
            r.is_zero(),
    {
        Tps { transactions: 0, nanos: 1 }
    }

    /// Whether `self` is a strictly greater rate than `other`.
    pub fn greater_than(&self, other: &Tps) -> (r: bool)
        ensures
            r == self.exceeds(*other),
    {
        if (self.transactions == 0 && self.nanos == 0) || (other.transactions == 0 && other.nanos == 0) {
            false
        } else if other.nanos == 0 {
            false
        } else if self.nanos == 0 {
            true
        } else {
            let a = self.transactions as u128;
            let b = other.nanos as u128;
            let c = other.transactions as u128;
            let d = self.nanos as u128;
            proof {
                lemma_product_fits(a, b);
                lemma_product_fits(c, d);
            }
            a * b > c * d
        }
    }

    /// Whether the rate is exactly zero.
    pub fn equals_zero(&self) -> (r: bool)
        ensures
            r == self.is_zero(),
    {
        self.transactions == 0 && self.nanos > 0
    }
}

/// The product of two values below 2^64 fits in a `u128`.
proof fn lemma_product_fits(a: u128, b: u128)
    requires
        a <= u64::MAX,
        b <= u64::MAX,
    ensures
        a * b <= u128::MAX,
{
    assert(a * b <= (u64::MAX as int) * (u64::MAX as int)) by (nonlinear_arith)
        requires 0 <= a <= u64::MAX, 0 <= b <= u64::MAX;
}

/// Over the same positive time, more transactions make a greater rate; for the
/// same positive number of transactions, less time makes a greater rate; a
/// positive count over a positive time exceeds zero; something done in no time
/// exceeds every rate that is a number.
pub proof fn lemma_exceeds_orders_rates(t1: u64, t2: u64, n1: u64, n2: u64)
    ensures
        n1 > 0 ==> ((Tps { transactions: t1, nanos: n1 }).exceeds(Tps { transactions: t2, nanos: n1 }) <==> t1 > t2),
        t1 > 0 && n1 > 0 && n2 > 0 ==> ((Tps { transactions: t1, nanos: n1 }).exceeds(Tps { transactions: t1, nanos: n2 }) <==> n1 < n2),
        n1 > 0 ==> ((Tps { transactions: t1, nanos: n1 }).exceeds(Tps::spec_zero()) <==> t1 > 0),
        t1 > 0 && n2 > 0 ==> (Tps { transactions: t1, nanos: 0 }).exceeds(Tps { transactions: t2, nanos: n2 }),
        n2 > 0 ==> !(Tps { transactions: t2, nanos: n2 }).exceeds(Tps { transactions: t1, nanos: 0 }),
{
    if n1 > 0 {
        assert((t1 * n1 > t2 * n1) <==> t1 > t2) by (nonlinear_arith) requires n1 > 0;
    }
    if t1 > 0 && n1 > 0 && n2 > 0 {
        assert((t1 * n2 > t1 * n1) <==> n1 < n2) by (nonlinear_arith) requires t1 > 0;
    }
}

/// No rate is strictly greater than itself.
pub proof fn lemma_exceeds_irreflexive(a: Tps)
    ensures
        !a.exceeds(a),
{
}

/// Two rates are never each strictly greater than the other.
pub proof fn lemma_exceeds_asymmetric(a: Tps, b: Tps)
    ensures
        !(a.exceeds(b) && b.exceeds(a)),
{
    if a.exceeds(b) && b.exceeds(a) && !a.is_infinite() && !b.is_infinite() {
        assert(false);
    }
}

/// Being a strictly greater rate is transitive.
pub proof fn lemma_exceeds_transitive(a: Tps, b: Tps, c: Tps)
    requires
        a.exceeds(b),
        b.exceeds(c),
    ensures
        a.exceeds(c),
{
    if !a.is_infinite() && !b.is_infinite() && !c.is_infinite() {
        let x = a.transactions as int;
        let p = a.nanos as int;
        let y = b.transactions as int;
        let q = b.nanos as int;
        let z = c.transactions as int;
        let r = c.nanos as int;
        assert(x * r > z * p) by (nonlinear_arith)
            requires
                x * q > y * p,
                y * r > z * q,
                p > 0,
                q > 0,
                r > 0,
                x >= 0,
                y >= 0,
                z >= 0,
        ;
    }
}

} // verus!

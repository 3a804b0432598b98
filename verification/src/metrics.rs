use vstd::prelude::*;
use influx_db_client::Point;
use crate::influx::{add_integer_field, add_string_tag, new_point, point_field_names, point_integer_fields, point_measurement, point_string_tags, point_tag_names, point_timestamp};

verus! {

/// A measurement that the benchmark reports to its metrics store. Every one is
/// recorded under the measurement `"bench-tps"`, tagged with the operation it
/// comes from.
#[derive(Clone, Copy, Debug, PartialEq, Eq, Structural)]
pub enum Metric {
    /// The balance of the funding account.
    TokenBalance { balance: i64 },
    /// A barrier transaction was confirmed after `sample_cnt` retries and `duration_ms`.
    /// It is recorded under the operation `token_balance`, with the retry count in
    /// the field `balance`.
    BarrierTransaction { sample_cnt: i64, duration_ms: i64 },
    /// Signing a round of transactions took `duration_ms`.
    GenerateTxs { duration_ms: i64 },
    /// Sending a batch of `count` transactions took `duration_ms`.
    SendTransaction { duration_ms: i64, count: i64 },
}

/// The measurement name under which every metric is recorded.
pub fn measurement() -> (s: &'static str)
    ensures
        s@ == "bench-tps"@,
{
    "bench-tps"
}

/// The name of the operation that a metric comes from.
pub open spec fn op_name(m: Metric) -> Seq<char> {
    match m {
        Metric::TokenBalance { .. } => "token_balance"@,
        Metric::BarrierTransaction { .. } => "token_balance"@,
        Metric::GenerateTxs { .. } => "generate_txs"@,
        Metric::SendTransaction { .. } => "send_transaction"@,
    }
}

/// The integer fields that a metric records, by name.
pub open spec fn field_map(m: Metric) -> Map<Seq<char>, i64> {
    match m {
        Metric::TokenBalance { balance } => map!["balance"@ => balance],
        Metric::BarrierTransaction { sample_cnt, duration_ms } => map!["balance"@ => sample_cnt, "duration"@ => duration_ms],
        Metric::GenerateTxs { duration_ms } => map!["duration"@ => duration_ms],
        Metric::SendTransaction { duration_ms, count } => map!["duration"@ => duration_ms, "count"@ => count],
    }
}

impl Metric {
    /// The balance of the funding account.
    pub fn token_balance(balance: i64) -> (m: Metric)
        ensures
            m == (Metric::TokenBalance { balance }),
    {
        Metric::TokenBalance { balance }
    }

    /// A confirmed barrier transaction; the duration is carried as a signed integer,
    /// wrapping as a cast does.
    pub fn barrier_transaction(sample_cnt: i64, duration_ms: u64) -> (m: Metric)
        ensures
            m == (Metric::BarrierTransaction { sample_cnt, duration_ms: duration_ms as i64 }),
    {
        Metric::BarrierTransaction { sample_cnt, duration_ms: duration_ms as i64 }
    }

    /// The time spent signing a round of transactions.
    pub fn generate_txs(duration_ms: u64) -> (m: Metric)
        ensures
            m == (Metric::GenerateTxs { duration_ms: duration_ms as i64 }),
    {
        Metric::GenerateTxs { duration_ms: duration_ms as i64 }
    }

    /// The time spent sending a batch, and its size.
    pub fn send_transaction(duration_ms: u64, count: usize) -> (m: Metric)
        ensures
            m == (Metric::SendTransaction { duration_ms: duration_ms as i64, count: count as i64 }),
    {
        Metric::SendTransaction { duration_ms: duration_ms as i64, count: count as i64 }
    }

    /// The value of the `op` tag.
    pub fn op(&self) -> (s: &'static str)
        ensures
            s@ == op_name(*self),
    {
        match self {
            Metric::TokenBalance { .. } => "token_balance",
            Metric::BarrierTransaction { .. } => "token_balance",
            Metric::GenerateTxs { .. } => "generate_txs",
            Metric::SendTransaction { .. } => "send_transaction",
        }
    }

    /// The point that records the metric: measurement `"bench-tps"`, the one tag
    /// `op`, the metric's integer fields and no other field, and no timestamp.
    pub fn to_point(&self) -> (p: Point)
        ensures
            point_measurement(p) == "bench-tps"@,
            point_string_tags(p) == map!["op"@ => op_name(*self)],
            point_integer_fields(p) == field_map(*self),
            point_tag_names(p) == set!["op"@],
            point_field_names(p) == field_map(*self).dom(),
            point_timestamp(p) == None::<i64>,
    {
        let mut p = new_point(measurement());
        add_string_tag(&mut p, "op", self.op());
        match self {
            Metric::TokenBalance { balance } => {
                add_integer_field(&mut p, "balance", *balance);
            },
            Metric::BarrierTransaction { sample_cnt, duration_ms } => {
                add_integer_field(&mut p, "balance", *sample_cnt);
                add_integer_field(&mut p, "duration", *duration_ms);
            },
            Metric::GenerateTxs { duration_ms } => {
                add_integer_field(&mut p, "duration", *duration_ms);
            },
            Metric::SendTransaction { duration_ms, count } => {
                add_integer_field(&mut p, "duration", *duration_ms);
                add_integer_field(&mut p, "count", *count);
            },
        }
        assert(point_string_tags(p) =~= map!["op"@ => op_name(*self)]);
        assert(point_integer_fields(p) =~= field_map(*self));
        assert(point_tag_names(p) =~= set!["op"@]);
        assert(point_field_names(p) =~= field_map(*self).dom());
        p
    }
}

} // verus!

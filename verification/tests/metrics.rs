use benchbot::metrics::{measurement, Metric};

#[test]
fn metrics_carry_their_op_and_fields() {
    assert_eq!(measurement(), "bench-tps");
    let m = Metric::token_balance(-1);
    assert_eq!(m.op(), "token_balance");
    let m = Metric::barrier_transaction(3, 250);
    assert_eq!(m.op(), "token_balance");
    let m = Metric::generate_txs(42);
    assert_eq!(m.op(), "generate_txs");
    let m = Metric::send_transaction(7, 1000);
    assert_eq!(m.op(), "send_transaction");
}

#[test]
fn large_durations_wrap_like_a_cast() {
    assert_eq!(Metric::generate_txs(u64::MAX), Metric::GenerateTxs { duration_ms: -1 });
}

fn integer_field(p: &influx_db_client::Point, name: &str) -> Option<i64> {
    match p.fields.get(name) {
        Some(influx_db_client::Value::Integer(v)) => Some(*v),
        _ => None,
    }
}

fn string_tag(p: &influx_db_client::Point, name: &str) -> Option<String> {
    match p.tags.get(name) {
        Some(influx_db_client::Value::String(v)) => Some(v.clone()),
        _ => None,
    }
}

#[test]
fn points_record_measurement_tag_and_fields() {
    let p = Metric::barrier_transaction(4, 1500).to_point();
    assert_eq!(p.measurement, "bench-tps");
    assert_eq!(p.tags.len(), 1);
    assert_eq!(string_tag(&p, "op"), Some("token_balance".to_string()));
    assert_eq!(p.fields.len(), 2);
    assert_eq!(integer_field(&p, "balance"), Some(4));
    assert_eq!(integer_field(&p, "duration"), Some(1500));
    assert_eq!(p.timestamp, None);

    let p = Metric::token_balance(77).to_point();
    assert_eq!(string_tag(&p, "op"), Some("token_balance".to_string()));
    assert_eq!(p.fields.len(), 1);
    assert_eq!(integer_field(&p, "balance"), Some(77));

    let p = Metric::send_transaction(9, 12).to_point();
    assert_eq!(integer_field(&p, "duration"), Some(9));
    assert_eq!(integer_field(&p, "count"), Some(12));
}

use benchbot::config::BenchConfig;

#[test]
fn defaults_fill_what_is_missing() {
    let c = BenchConfig::resolve(None, None, None, None, false, false, false);
    assert_eq!(c.threads, 4);
    assert_eq!(c.num_nodes, 1);
    assert_eq!(c.duration_secs, u64::MAX);
    assert_eq!(c.tx_count, 500_000);
    assert_eq!(c.keypair_count(), 250_000);
}

#[test]
fn given_values_win() {
    let c = BenchConfig::resolve(Some(8), Some(5), Some(60), Some(7), true, true, true);
    assert_eq!((c.threads, c.num_nodes, c.duration_secs, c.tx_count), (8, 5, 60, 7));
    assert!(c.sustained && c.reject_extra_nodes && c.converge_only);
    assert_eq!(c.keypair_count(), 3);
    let c = BenchConfig::resolve(None, None, None, Some(-7), false, false, false);
    assert_eq!(c.keypair_count(), -3);
}

use benchbot::rate::Tps;
use benchbot::report::summarize;
use benchbot::sampler::NodeStats;

fn stats(t: u64, n: u64, tx: u64) -> NodeStats {
    NodeStats { tps: Tps { transactions: t, nanos: n }, tx }
}

#[test]
fn summary_over_no_node() {
    let s = summarize(&vec![]);
    assert_eq!((s.peak.transactions, s.peak.nanos), (0, 1));
    assert_eq!(s.max_tx, 0);
    assert_eq!(s.zero_tps_nodes, 0);
    assert_eq!(s.nodes_with_tps, 0);
    assert!(!s.has_normal_tps);
}

#[test]
fn summary_takes_peaks_and_counts_zero_nodes() {
    let all = vec![stats(0, 5, 0), stats(30, 10, 7), stats(20, 4, 3), stats(0, 1, 9)];
    let s = summarize(&all);
    assert_eq!((s.peak.transactions, s.peak.nanos), (20, 4));
    assert_eq!(s.max_tx, 9);
    assert_eq!(s.zero_tps_nodes, 2);
    assert_eq!(s.nodes_with_tps, 2);
    assert!(s.has_normal_tps);
}

#[test]
fn summary_with_an_undefined_rate_has_no_normal_tps() {
    let all = vec![stats(10, 1, 1), stats(0, 0, 1)];
    let s = summarize(&all);
    assert!(!s.has_normal_tps);
    assert_eq!(s.zero_tps_nodes, 0);
    assert_eq!((s.peak.transactions, s.peak.nanos), (10, 1));
}

#[test]
fn zero_tx_flag_marks_idle_nodes() {
    assert_eq!(stats(0, 1, 0).zero_tx_flag(), "!!!!!");
    assert_eq!(stats(0, 1, 3).zero_tx_flag(), "");
}

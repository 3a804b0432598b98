use benchbot::rate::Tps;
use benchbot::sampler::{elapsed_nanos, TxSampler};

#[test]
fn elapsed_nanos_joins_seconds_and_fraction() {
    assert_eq!(elapsed_nanos(0, 0), 0);
    assert_eq!(elapsed_nanos(2, 500), 2_000_000_500);
}

#[test]
fn sampler_reports_each_round_and_keeps_the_peak() {
    let mut s = TxSampler::new(100, 150);
    let a = s.observe(250, 1_000_000_000);
    assert_eq!(a.processed, 100);
    assert_eq!(a.total, 150);
    assert_eq!((a.tps.transactions, a.tps.nanos), (100, 1_000_000_000));
    let b = s.observe(260, 500_000_000);
    assert_eq!(b.processed, 10);
    assert_eq!(b.total, 160);
    // 10 in half a second is less than 100 in one second: the peak stays.
    assert_eq!((s.max_tps.transactions, s.max_tps.nanos), (100, 1_000_000_000));
    let c = s.observe(560, 1_000_000_000);
    assert_eq!(c.processed, 300);
    assert_eq!((s.max_tps.transactions, s.max_tps.nanos), (300, 1_000_000_000));
    let stats = s.finish();
    assert_eq!(stats.tx, 460);
    assert_eq!(stats.tps.transactions, 300);
}

#[test]
fn sampler_total_is_zero_below_first_count() {
    let mut s = TxSampler::new(1000, 10);
    let a = s.observe(20, 1_000);
    assert_eq!(a.total, 0);
    assert_eq!(a.processed, 10);
    let b = s.observe(1000, 1_000);
    assert_eq!(b.total, 0);
    let c = s.observe(1001, 1_000);
    assert_eq!(c.total, 1);
}

#[test]
fn sampler_peak_ignores_undefined_rates() {
    let mut s = TxSampler::new(0, 0);
    // nothing in no time: no rate, the peak stays zero
    s.observe(0, 0);
    assert_eq!((s.max_tps.transactions, s.max_tps.nanos), (0, 1));
    // something in no time: infinite rate, which becomes the peak
    s.observe(5, 0);
    assert_eq!((s.max_tps.transactions, s.max_tps.nanos), (5, 0));
    s.observe(1_000_005, 1);
    assert_eq!((s.max_tps.transactions, s.max_tps.nanos), (5, 0));
}

#[test]
fn rates_compare_exactly() {
    let a = Tps { transactions: 1, nanos: 3 };
    let b = Tps { transactions: 333_333_333, nanos: 1_000_000_000 };
    assert!(a.greater_than(&b));
    assert!(!b.greater_than(&a));
    assert!(!a.greater_than(&a));
    let nan = Tps { transactions: 0, nanos: 0 };
    assert!(!nan.greater_than(&Tps::zero()));
    assert!(!Tps::zero().greater_than(&nan));
    let inf = Tps { transactions: 1, nanos: 0 };
    assert!(inf.greater_than(&b));
    assert!(!inf.greater_than(&inf));
    assert!(Tps::zero().equals_zero());
    assert!(!nan.equals_zero());
}

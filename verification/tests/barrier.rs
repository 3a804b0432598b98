use benchbot::barrier::{barrier_balance_ok, BarrierProbe, BarrierStep};

#[test]
fn barrier_retries_and_warns_every_eighth_stalled_sample() {
    let mut p = BarrierProbe::new();
    let mut warnings = Vec::new();
    for _ in 0..20 {
        let cnt = p.sample_cnt;
        match p.on_unconfirmed(1_000, false) {
            BarrierStep::Retry { warn_stalled, adopt_last_id } => {
                assert!(!adopt_last_id);
                if warn_stalled {
                    warnings.push(cnt);
                }
            }
            BarrierStep::TimedOut => panic!("no timeout expected"),
        }
    }
    assert_eq!(warnings, vec![8, 16]);
    assert_eq!(p.sample_cnt, 20);
}

#[test]
fn barrier_adopts_an_advancing_last_id_without_warning() {
    let mut p = BarrierProbe { sample_cnt: 8 };
    assert_eq!(p.on_unconfirmed(0, true), BarrierStep::Retry { warn_stalled: false, adopt_last_id: true });
    assert_eq!(p.sample_cnt, 9);
}

#[test]
fn barrier_times_out_after_three_minutes() {
    let mut p = BarrierProbe::new();
    assert_eq!(p.on_unconfirmed(180_000, false), BarrierStep::Retry { warn_stalled: false, adopt_last_id: false });
    assert_eq!(p.on_unconfirmed(180_001, false), BarrierStep::TimedOut);
    assert_eq!(p.sample_cnt, 1);
}

#[test]
fn barrier_balance_must_be_one() {
    assert!(barrier_balance_ok(1));
    assert!(!barrier_balance_ok(0));
    assert!(!barrier_balance_ok(2));
}

#[test]
fn last_id_is_refreshed_on_every_eighth_retry() {
    let refreshed: Vec<i64> = (0..25)
        .filter(|&c| BarrierProbe { sample_cnt: c }.refresh_last_id())
        .collect();
    assert_eq!(refreshed, vec![8, 16, 24]);
}

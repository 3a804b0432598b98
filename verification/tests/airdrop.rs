use benchbot::airdrop::{airdrop_amount, funding_target, AirdropPoll, AirdropWatch, NUM_TOKENS_PER_ACCOUNT};

#[test]
fn airdrop_tops_up_only_short_accounts() {
    assert_eq!(airdrop_amount(3, 10), Some(7));
    assert_eq!(airdrop_amount(-2, 1), Some(3));
    assert_eq!(airdrop_amount(10, 10), None);
    assert_eq!(airdrop_amount(11, 10), None);
}

#[test]
fn funding_covers_the_shortfall_of_every_transaction() {
    assert_eq!(funding_target(NUM_TOKENS_PER_ACCOUNT, 0, 500_000), Some(10_000_000));
    assert_eq!(funding_target(20, 15, 4), Some(20));
    assert_eq!(funding_target(20, 20, 4), None);
    assert_eq!(funding_target(20, 25, 4), None);
}

#[test]
fn watch_stops_when_balance_moves() {
    let mut w = AirdropWatch::new(5, 10);
    assert_eq!(w.poll(5), AirdropPoll::Waiting);
    assert_eq!(w.poll(15), AirdropPoll::Settled);
    assert_eq!(w.polls, 2);
    assert!(w.landed(15));
    assert!(!w.landed(14));
}

#[test]
fn watch_gives_up_after_twenty_polls() {
    let mut w = AirdropWatch::new(0, 1);
    for _ in 0..19 {
        assert_eq!(w.poll(0), AirdropPoll::Waiting);
    }
    assert_eq!(w.poll(0), AirdropPoll::Exhausted);
    assert!(!w.landed(0));
}

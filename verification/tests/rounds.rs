use benchbot::rounds::{should_switch_directions, TransferDirection, TransferRounds};

#[test]
fn test_switch_directions() {
    assert_eq!(should_switch_directions(20, 0), false);
    assert_eq!(should_switch_directions(20, 1), false);
    assert_eq!(should_switch_directions(20, 14), false);
    assert_eq!(should_switch_directions(20, 15), true);
    assert_eq!(should_switch_directions(20, 16), false);
    assert_eq!(should_switch_directions(20, 19), false);
    assert_eq!(should_switch_directions(20, 20), true);
    assert_eq!(should_switch_directions(20, 21), false);
    assert_eq!(should_switch_directions(20, 99), false);
    assert_eq!(should_switch_directions(20, 100), true);
    assert_eq!(should_switch_directions(20, 101), false);
}

#[test]
fn switch_rounds_with_negative_inputs_follow_truncating_arithmetic() {
    // period -5 / 4 == -1, threshold -15 / 4 == -3
    assert_eq!(should_switch_directions(-5, -3), true);
    assert_eq!(should_switch_directions(-5, -4), false);
    assert_eq!(should_switch_directions(-5, 7), true);
    // period 5, threshold 15: a negative multiple of the period is below the threshold
    assert_eq!(should_switch_directions(20, -20), false);
    assert_eq!(should_switch_directions(7, 5), true);
    assert_eq!(should_switch_directions(7, 4), false);
}

#[test]
fn rounds_flip_direction_at_each_switch_round() {
    let mut r = TransferRounds::new(20, 0);
    assert_eq!(r.direction(), TransferDirection::FromSource);
    let mut flips = Vec::new();
    for _ in 0..30 {
        let before = r.reclaim;
        r.advance();
        if r.reclaim != before {
            flips.push(r.round);
        }
    }
    assert_eq!(r.round, 30);
    assert_eq!(flips, vec![15, 20, 25, 30]);
    assert_eq!(r.direction(), TransferDirection::FromSource);
}

#[test]
fn rounds_start_from_the_given_round() {
    let mut r = TransferRounds::new(20, 14);
    r.advance();
    assert_eq!(r.round, 15);
    assert!(r.reclaim);
    assert_eq!(r.direction(), TransferDirection::ToSource);
}

#[test]
fn threshold_is_only_computed_on_multiples_of_the_period() {
    // 3 * n does not fit in an i64, but 1 is no multiple of the period.
    assert_eq!(should_switch_directions(3074457345618258603, 1), false);
}

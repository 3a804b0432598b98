use benchbot::network::{check_convergence, converged, ConvergeError};

#[test]
fn convergence_needs_leader_and_enough_nodes() {
    assert!(converged(true, 3, 3));
    assert!(converged(true, 4, 3));
    assert!(!converged(true, 2, 3));
    assert!(!converged(false, 5, 3));
}

#[test]
fn convergence_errors_in_order() {
    assert_eq!(check_convergence(2, 3, true, false), Err(ConvergeError::InsufficientNodes));
    assert_eq!(check_convergence(4, 3, true, false), Err(ConvergeError::ExtraNodes));
    assert_eq!(check_convergence(4, 3, false, false), Err(ConvergeError::NoLeader));
    assert_eq!(check_convergence(4, 3, false, true), Ok(()));
    assert_eq!(check_convergence(3, 3, true, true), Ok(()));
}

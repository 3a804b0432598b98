use vstd::prelude::*;

verus! {

/// How many times the network is inspected while waiting for it to converge.
pub const CONVERGE_ATTEMPTS: u32 = 30;

/// Whether the wait for the network is over: the leader is known and enough nodes
/// with valid addresses were discovered.
pub fn converged(leader_known: bool, valid_nodes: usize, num_nodes: usize) -> (done: bool)
    ensures
        done == (leader_known && valid_nodes >= num_nodes),
{
    leader_known && valid_nodes >= num_nodes
}

/// Why the network found is not fit for the benchmark.
#[derive(Clone, Copy, Debug, PartialEq, Eq, Structural)]
pub enum ConvergeError {
    /// Fewer nodes than asked for.
    InsufficientNodes,
    /// More nodes than asked for, where exactly that many were required.
    ExtraNodes,
    /// No leader was found.
    NoLeader,
}

/// The verdict on the network found: `found` nodes, `num_nodes` wanted, whether extra
/// nodes are refused, and whether a leader is known. The checks are made in that order.
pub open spec fn spec_check_convergence(found: usize, num_nodes: usize, reject_extra: bool, has_leader: bool) -> Result<(), ConvergeError> {
    if found < num_nodes {
        Err(ConvergeError::InsufficientNodes)
    } else if reject_extra && found > num_nodes {
        Err(ConvergeError::ExtraNodes)
    } else if !has_leader {
        Err(ConvergeError::NoLeader)
    } else {
        Ok(())
    }
}

/// Judges the network found against what the benchmark needs.
pub fn check_convergence(found: usize, num_nodes: usize, reject_extra: bool, has_leader: bool) -> (r: Result<(), ConvergeError>)
    ensures
        r == spec_check_convergence(found, num_nodes, reject_extra, has_leader),
        r is Ok <==> (found >= num_nodes && !(reject_extra && found > num_nodes) && has_leader),
        found < num_nodes ==> r == Err::<(), ConvergeError>(ConvergeError::InsufficientNodes),
        found >= num_nodes && reject_extra && found > num_nodes ==> r == Err::<(), ConvergeError>(ConvergeError::ExtraNodes),
        found >= num_nodes && !(reject_extra && found > num_nodes) && !has_leader
            ==> r == Err::<(), ConvergeError>(ConvergeError::NoLeader),
{
    if found < num_nodes {
        Err(ConvergeError::InsufficientNodes)
    } else if reject_extra && found > num_nodes {
        Err(ConvergeError::ExtraNodes)
    } else if !has_leader {
        Err(ConvergeError::NoLeader)
    } else {
        Ok(())
    }
}

} // verus!

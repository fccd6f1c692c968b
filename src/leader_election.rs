//! Leader events handed to the consensus layer.
use vstd::prelude::*;

verus! {

/// Rounds are totally ordered.
pub trait Round: Clone + core::fmt::Debug + Ord + Default + Send + 'static {

}

impl Round for crate::ballot::Ballot {

}

/// Event that announces an elected leader: the pid of the leader and the
/// round in which it was elected.
#[derive(Copy, Clone, Debug, PartialEq, Eq)]
pub struct Leader<R> where R: Round {
    /// The pid of the elected leader.
    pub pid: u64,
    /// The round in which `pid` is elected.
    pub round: R,
}

impl<R> Leader<R> where R: Round {
    /// Creates a leader event.
    pub fn with(pid: u64, round: R) -> (r: Self)
        ensures
            r.pid == pid,
            r.round == round,
    {
        Leader { pid, round }
    }
}

} // verus!

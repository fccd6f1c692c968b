//! The messages that replicas exchange.
use crate::ballot::Ballot;
use vstd::prelude::*;

verus! {

/// The content of a message: a heartbeat request or a reply to one.
#[derive(Clone, Copy, Debug, PartialEq, Eq, Structural)]
pub enum HeartbeatMsg {
    Request(HeartbeatRequest),
    Reply(HeartbeatReply),
}

/// Asks the receiver for its ballot.
#[derive(Clone, Copy, Debug, PartialEq, Eq, Structural)]
pub struct HeartbeatRequest {
    /// Number of the round of the sender.
    pub round: u32,
}

impl HeartbeatRequest {
    /// Creates a request for round `round`.
    pub fn with(round: u32) -> (r: HeartbeatRequest)
        ensures
            r == (HeartbeatRequest { round }),
    {
        HeartbeatRequest { round }
    }
}

/// Answers a request.
#[derive(Clone, Copy, Debug, PartialEq, Eq, Structural)]
pub struct HeartbeatReply {
    /// Number of the round of the request, echoed.
    pub round: u32,
    /// Ballot of the replying replica.
    pub ballot: Ballot,
    /// Whether the replying replica observes a majority, and so is a candidate.
    pub majority_connected: bool,
}

impl HeartbeatReply {
    /// Creates a reply.
    pub fn with(round: u32, ballot: Ballot, majority_connected: bool) -> (r: HeartbeatReply)
        ensures
            r == (HeartbeatReply { round, ballot, majority_connected }),
    {
        HeartbeatReply { round, ballot, majority_connected }
    }
}

/// A message together with its sender and receiver.
#[derive(Clone, Copy, Debug, PartialEq, Eq, Structural)]
pub struct BLEMessage {
    /// Sender of `msg`.
    pub from: u64,
    /// Receiver of `msg`.
    pub to: u64,
    /// The message content.
    pub msg: HeartbeatMsg,
}

impl BLEMessage {
    /// Creates a message from `from` to `to`.
    pub fn with(from: u64, to: u64, msg: HeartbeatMsg) -> (r: Self)
        ensures
            r == (BLEMessage { from, to, msg }),
    {
        BLEMessage { from, to, msg }
    }
}

} // verus!

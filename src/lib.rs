//! Ballot leader election: a tick-driven heartbeat state machine that elects
//! the replica holding the greatest ballot among those that observe a majority.
pub mod ballot;
pub mod ble;
pub mod laws;
pub mod leader_election;
pub mod messages;

pub use ballot::Ballot;
pub use ble::BallotLeaderElection;
pub use leader_election::{Leader, Round};
pub use messages::{BLEMessage, HeartbeatMsg, HeartbeatReply, HeartbeatRequest};

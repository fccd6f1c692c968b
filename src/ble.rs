//! The ballot leader election state machine of one replica.
//!
//! `BleState` is the abstract state of a replica; the spec functions below
//! give each operation as a step from state to state. `BallotLeaderElection`
//! is the executable machine, and each of its operations is proved to take
//! exactly the corresponding step on its view.
use crate::ballot::{lex_lt, zero_ballot, Ballot};
use crate::leader_election::Leader;
use crate::messages::{BLEMessage, HeartbeatMsg, HeartbeatReply, HeartbeatRequest};
use vstd::prelude::*;

verus! {

/// Abstract state of a replica's election.
pub struct BleState {
    /// This replica's identity.
    pub pid: u64,
    /// The other replicas.
    pub peers: Seq<u64>,
    /// The current heartbeat round.
    pub hb_round: u32,
    /// `(ballot, candidate)` pairs collected during the current round.
    pub ballots: Seq<(Ballot, bool)>,
    /// This replica's own ballot.
    pub current_ballot: Ballot,
    /// Whether this replica currently observes a majority.
    pub majority_connected: bool,
    /// The ballot of the leader this replica believes in, if any.
    pub leader: Option<Ballot>,
    /// Number of ticks after which the present round closes.
    pub hb_current_delay: u64,
    /// Base number of ticks per round.
    pub hb_delay: u64,
    /// Ticks added to `hb_delay` for each reply of another round.
    pub increment_delay: u64,
    /// Number of replicas, this one included, that make a majority.
    pub majority: nat,
    /// Whether rounds are still shortened, before a first leader is known.
    pub quick_timeout: bool,
    /// Divisor of `hb_delay` while rounds are shortened.
    pub initial_delay_factor: u64,
    /// Ticks counted in the present round.
    pub ticks_elapsed: u64,
    /// Messages waiting to be sent, oldest first.
    pub outgoing: Seq<BLEMessage>,
}

/// Majority of a cluster of `n_peers + 1` replicas.
pub open spec fn majority_of(n_peers: nat) -> nat {
    (n_peers + 1) / 2 + 1
}

impl BleState {
    /// Well-formedness of a replica's state.
    pub open spec fn wf(self) -> bool {
        &&& self.current_ballot.pid == self.pid
        &&& self.majority == majority_of(self.peers.len())
        &&& self.initial_delay_factor >= 1
        &&& (self.ticks_elapsed == 0 || self.ticks_elapsed < self.hb_current_delay)
    }
}

/// The leader ballot, with "no leader" read as the ballot `(0, 0)`.
pub open spec fn leader_or_zero(l: Option<Ballot>) -> Ballot {
    match l {
        Some(b) => b,
        None => zero_ballot(),
    }
}

/// The greatest ballot of the bag among those whose candidate flag is set,
/// or `(0, 0)` where no entry is a candidate.
pub open spec fn top_candidate(bag: Seq<(Ballot, bool)>) -> Ballot
    decreases bag.len(),
{
    if bag.len() == 0 {
        zero_ballot()
    } else {
        let rest = top_candidate(bag.drop_last());
        let last = bag.last();
        if last.1 && lex_lt(rest, last.0) {
            last.0
        } else {
            rest
        }
    }
}

/// The round after `r` (the counter wraps around after `u32::MAX`).
pub open spec fn next_round(r: u32) -> u32 {
    if r == u32::MAX {
        0
    } else {
        (r + 1) as u32
    }
}

/// The ballot number after `n`, saturating at `u32::MAX`.
pub open spec fn next_ballot_number(n: u32) -> u32 {
    if n == u32::MAX {
        u32::MAX
    } else {
        (n + 1) as u32
    }
}

/// The own ballot number after leader `leader_n` is lost: past the lost
/// leader's number, and never below the own number `own_n`.
pub open spec fn bumped_ballot_number(own_n: u32, leader_n: u32) -> u32 {
    if own_n >= next_ballot_number(leader_n) {
        own_n
    } else {
        next_ballot_number(leader_n)
    }
}

/// `d + inc`, saturating at `u64::MAX`.
pub open spec fn widened(d: u64, inc: u64) -> u64 {
    if d + inc <= u64::MAX {
        (d + inc) as u64
    } else {
        u64::MAX
    }
}

/// The length of a round that opens in state `s`.
pub open spec fn round_delay(s: BleState) -> u64 {
    if s.quick_timeout {
        (s.hb_delay / s.initial_delay_factor) as u64
    } else {
        s.hb_delay
    }
}

/// The heartbeat request of round `round` from `from` to `to`.
pub open spec fn request_msg(from: u64, to: u64, round: u32) -> BLEMessage {
    BLEMessage { from, to, msg: HeartbeatMsg::Request(HeartbeatRequest { round }) }
}

/// One request of round `round` from `pid` to each peer, in the order of `peers`.
pub open spec fn round_requests(pid: u64, round: u32, peers: Seq<u64>) -> Seq<BLEMessage> {
    peers.map_values(|p: u64| request_msg(pid, p, round))
}

/// The reply of a replica in state `s` to a request of round `round` from `to`.
pub open spec fn reply_msg(s: BleState, to: u64, round: u32) -> BLEMessage {
    BLEMessage {
        from: s.pid,
        to,
        msg: HeartbeatMsg::Reply(
            HeartbeatReply { round, ballot: s.current_ballot, majority_connected: s.majority_connected },
        ),
    }
}

/// The leader event for ballot `b`.
pub open spec fn leader_event(b: Ballot) -> Leader<Ballot> {
    Leader { pid: b.pid, round: b }
}

/// The leader that a replica in state `s` believes in.
pub open spec fn leader_view(s: BleState) -> Option<Leader<Ballot>> {
    match s.leader {
        Some(b) => Some(leader_event(b)),
        None => None,
    }
}

/// The state a replica starts in.
pub open spec fn initial_state(
    peers: Seq<u64>,
    pid: u64,
    hb_delay: u64,
    increment_delay: u64,
    quick_timeout: bool,
    initial_leader: Option<Leader<Ballot>>,
    initial_delay_factor: Option<u64>,
) -> BleState {
    let factor = match initial_delay_factor {
        Some(f) => f,
        None => 1,
    };
    let own = Ballot { n: 0, pid };
    let (leader, ballot, connected) = match initial_leader {
        Some(l) => if l.pid == pid {
            (Some(Ballot { n: l.round.n, pid }), Ballot { n: l.round.n, pid }, true)
        } else {
            (Some(Ballot { n: l.round.n, pid: l.pid }), own, false)
        },
        None => (None, own, true),
    };
    BleState {
        pid,
        peers,
        hb_round: 0,
        ballots: Seq::empty(),
        current_ballot: ballot,
        majority_connected: connected,
        leader,
        hb_current_delay: if quick_timeout {
            (hb_delay / factor) as u64
        } else {
            hb_delay
        },
        hb_delay,
        increment_delay,
        majority: majority_of(peers.len()),
        quick_timeout,
        initial_delay_factor: factor,
        ticks_elapsed: 0,
        outgoing: Seq::empty(),
    }
}

/// Seeds state `s`, which has no leader, with leader `l`.
pub open spec fn seed_leader(s: BleState, l: Leader<Ballot>) -> BleState {
    let b = Ballot { n: l.round.n, pid: l.pid };
    if l.pid == s.pid {
        BleState {
            leader: Some(b),
            current_ballot: b,
            majority_connected: true,
            quick_timeout: false,
            ..s
        }
    } else {
        BleState {
            leader: Some(b),
            current_ballot: Ballot { n: 0, pid: s.pid },
            majority_connected: false,
            quick_timeout: false,
            ..s
        }
    }
}

/// Leader evaluation: the bag is consumed and its top candidate compared with
/// the known leader. A lower top means the leader was lost; a higher one is
/// the new leader.
pub open spec fn evaluate(s: BleState) -> (BleState, Option<Leader<Ballot>>) {
    let top = top_candidate(s.ballots);
    let prev = leader_or_zero(s.leader);
    let s0 = BleState { ballots: Seq::empty(), ..s };
    if lex_lt(top, prev) {
        (
            BleState {
                current_ballot: Ballot {
                    n: bumped_ballot_number(s.current_ballot.n, prev.n),
                    pid: s.current_ballot.pid,
                },
                leader: None,
                majority_connected: true,
                ..s0
            },
            None,
        )
    } else if lex_lt(prev, top) {
        (
            BleState {
                quick_timeout: false,
                leader: Some(top),
                majority_connected: top.pid == s.pid,
                ..s0
            },
            Some(leader_event(top)),
        )
    } else {
        (s0, None)
    }
}

/// Opens the next round: sets its length, advances the round number and
/// queues a request to each peer.
pub open spec fn open_round(s: BleState) -> BleState {
    let r = next_round(s.hb_round);
    BleState {
        hb_current_delay: round_delay(s),
        hb_round: r,
        outgoing: s.outgoing + round_requests(s.pid, r, s.peers),
        ..s
    }
}

/// Whether the replies of the present round, with this replica itself, make
/// a majority.
pub open spec fn has_majority(s: BleState) -> bool {
    s.ballots.len() + 1 >= s.majority
}

/// Closes the present round and opens the next one.
pub open spec fn close_round(s: BleState) -> (BleState, Option<Leader<Ballot>>) {
    let (s1, ev) = if has_majority(s) {
        evaluate(
            BleState { ballots: s.ballots.push((s.current_ballot, s.majority_connected)), ..s },
        )
    } else {
        (BleState { ballots: Seq::empty(), majority_connected: false, ..s }, None)
    };
    (open_round(s1), ev)
}

/// Whether the next tick in state `s` closes the round.
pub open spec fn tick_closes(s: BleState) -> bool {
    s.ticks_elapsed + 1 >= s.hb_current_delay
}

/// One tick of time.
pub open spec fn tick_step(s: BleState) -> (BleState, Option<Leader<Ballot>>) {
    if tick_closes(s) {
        close_round(BleState { ticks_elapsed: 0, ..s })
    } else {
        (BleState { ticks_elapsed: (s.ticks_elapsed + 1) as u64, ..s }, None)
    }
}

/// The handling of an incoming message.
pub open spec fn handle_step(s: BleState, m: BLEMessage) -> BleState {
    match m.msg {
        HeartbeatMsg::Request(req) => BleState {
            outgoing: s.outgoing.push(reply_msg(s, m.from, req.round)),
            ..s
        },
        HeartbeatMsg::Reply(rep) => if rep.round == s.hb_round {
            BleState { ballots: s.ballots.push((rep.ballot, rep.majority_connected)), ..s }
        } else {
            BleState { hb_delay: widened(s.hb_delay, s.increment_delay), ..s }
        },
    }
}

/// A Ballot Leader Election component. Together with Omni-Paxos it elects a
/// leader among a group of replicas. It handles incoming messages and
/// produces outgoing ones, which the user takes and sends over a network.
pub struct BallotLeaderElection {
    pid: u64,
    peers: Vec<u64>,
    hb_round: u32,
    ballots: Vec<(Ballot, bool)>,
    current_ballot: Ballot,
    majority_connected: bool,
    leader: Option<Ballot>,
    hb_current_delay: u64,
    hb_delay: u64,
    increment_delay: u64,
    /// The majority of replicas inside a cluster.
    majority: usize,
    quick_timeout: bool,
    /// Divisor of `hb_delay` until the first leader is elected, so that a
    /// leader is elected faster when starting up.
    initial_delay_factor: u64,
    ticks_elapsed: u64,
    outgoing: Vec<BLEMessage>,
}

impl View for BallotLeaderElection {
    type V = BleState;

    closed spec fn view(&self) -> BleState {
        BleState {
            pid: self.pid,
            peers: self.peers@,
            hb_round: self.hb_round,
            ballots: self.ballots@,
            current_ballot: self.current_ballot,
            majority_connected: self.majority_connected,
            leader: self.leader,
            hb_current_delay: self.hb_current_delay,
            hb_delay: self.hb_delay,
            increment_delay: self.increment_delay,
            majority: self.majority as nat,
            quick_timeout: self.quick_timeout,
            initial_delay_factor: self.initial_delay_factor,
            ticks_elapsed: self.ticks_elapsed,
            outgoing: self.outgoing@,
        }
    }
}

impl BallotLeaderElection {
    /// Constructs the election component of replica `pid` among `peers`.
    pub fn with(
        peers: Vec<u64>,
        pid: u64,
        hb_delay: u64,
        increment_delay: u64,
        quick_timeout: bool,
        initial_leader: Option<Leader<Ballot>>,
        initial_delay_factor: Option<u64>,
    ) -> (r: BallotLeaderElection)
        requires
            initial_delay_factor matches Some(f) ==> f >= 1,
        ensures
            r@ == initial_state(
                peers@,
                pid,
                hb_delay,
                increment_delay,
                quick_timeout,
                initial_leader,
                initial_delay_factor,
            ),
            r@.wf(),
    {
        let n_peers = peers.len();
        let majority = n_peers / 2 + n_peers % 2 + 1;
        let factor = match initial_delay_factor {
            Some(f) => f,
            None => 1,
        };
        let own = Ballot::with(0, pid);
        let (leader, initial_ballot, connected) = match initial_leader {
            Some(l) => {
                if l.pid == pid {
                    let b = Ballot::with(l.round.n, pid);
                    (Some(b), b, true)
                } else {
                    (Some(Ballot::with(l.round.n, l.pid)), own, false)
                }
            },
            None => (None, own, true),
        };
        let hb_current_delay = if quick_timeout {
            hb_delay / factor
        } else {
            hb_delay
        };
        let r = BallotLeaderElection {
            pid,
            majority,
            peers,
            hb_round: 0,
            ballots: Vec::new(),
            current_ballot: initial_ballot,
            majority_connected: connected,
            leader,
            hb_current_delay,
            hb_delay,
            increment_delay,
            quick_timeout,
            initial_delay_factor: factor,
            ticks_elapsed: 0,
            outgoing: Vec::new(),
        };
        assert(r.ballots@ =~= Seq::empty());
        assert(r.outgoing@ =~= Seq::empty());
        r
    }

    /// The leader this replica currently believes in.
    pub fn get_leader(&self) -> (r: Option<Leader<Ballot>>)
        ensures
            r == leader_view(self@),
    {
        match self.leader {
            Some(b) => Some(Leader::with(b.pid, b)),
            None => None,
        }
    }

    /// Advances time by one tick; closes the round when its delay has
    /// passed. Returns the leader elected by this tick, if any.
    pub fn tick(&mut self) -> (r: Option<Leader<Ballot>>)
        requires
            old(self)@.wf(),
        ensures
            final(self)@.wf(),
            (final(self)@, r) == tick_step(old(self)@),
            final(self)@.current_ballot.n >= old(self)@.current_ballot.n,
            final(self)@.current_ballot.pid == old(self)@.current_ballot.pid,
    {
        self.ticks_elapsed = self.ticks_elapsed + 1;
        if self.ticks_elapsed >= self.hb_current_delay {
            self.ticks_elapsed = 0;
            self.hb_timeout()
        } else {
            None
        }
    }

    /// Handles an incoming message.
    pub fn handle(&mut self, m: BLEMessage)
        requires
            old(self)@.wf(),
        ensures
            final(self)@.wf(),
            final(self)@ == handle_step(old(self)@, m),
    {
        match m.msg {
            HeartbeatMsg::Request(req) => self.handle_request(m.from, req),
            HeartbeatMsg::Reply(rep) => self.handle_reply(rep),
        }
    }

    /// Sets the initial leader after creation, before the component is
    /// started. The component must not know a leader yet.
    pub fn set_initial_leader(&mut self, l: Leader<Ballot>)
        requires
            old(self)@.wf(),
            old(self)@.leader is None,
        ensures
            final(self)@.wf(),
            final(self)@ == seed_leader(old(self)@, l),
    {
        let leader_ballot = Ballot::with(l.round.n, l.pid);
        self.leader = Some(leader_ballot);
        if l.pid == self.pid {
            self.current_ballot = leader_ballot;
            self.majority_connected = true;
        } else {
            self.current_ballot = Ballot::with(0, self.pid);
            self.majority_connected = false;
        }
        self.quick_timeout = false;
    }

    /// Takes the queued outgoing messages, oldest first, and empties the queue.
    pub fn take_outgoing(&mut self) -> (r: Vec<BLEMessage>)
        requires
            old(self)@.wf(),
        ensures
            r@ == old(self)@.outgoing,
            final(self)@ == (BleState { outgoing: Seq::empty(), ..old(self)@ }),
            final(self)@.wf(),
    {
        let mut taken: Vec<BLEMessage> = Vec::new();
        std::mem::swap(&mut taken, &mut self.outgoing);
        assert(self.outgoing@ =~= Seq::empty());
        taken
    }

    /// This replica's own ballot.
    pub fn current_ballot(&self) -> (r: Ballot)
        ensures
            r == self@.current_ballot,
    {
        self.current_ballot
    }

    /// Whether this replica currently observes a majority.
    pub fn majority_connected(&self) -> (r: bool)
        ensures
            r == self@.majority_connected,
    {
        self.majority_connected
    }

    /// The `(ballot, candidate)` pairs collected in the present round.
    pub fn ballots(&self) -> (r: Vec<(Ballot, bool)>)
        ensures
            r@ == self@.ballots,
    {
        let mut r: Vec<(Ballot, bool)> = Vec::new();
        let mut i: usize = 0;
        while i < self.ballots.len()
            invariant
                i <= self.ballots.len(),
                r@ == self.ballots@.take(i as int),
            decreases self.ballots.len() - i,
        {
            r.push(self.ballots[i]);
            assert(self.ballots@.take(i + 1) =~= self.ballots@.take(i as int).push(self.ballots@[i as int]));
            i = i + 1;
        }
        assert(self.ballots@.take(i as int) =~= self.ballots@);
        r
    }

    /// The present heartbeat round.
    pub fn hb_round(&self) -> (r: u32)
        ensures
            r == self@.hb_round,
    {
        self.hb_round
    }

    /// The base number of ticks per round.
    pub fn hb_delay(&self) -> (r: u64)
        ensures
            r == self@.hb_delay,
    {
        self.hb_delay
    }

    /// The number of ticks after which the present round closes.
    pub fn hb_current_delay(&self) -> (r: u64)
        ensures
            r == self@.hb_current_delay,
    {
        self.hb_current_delay
    }

    /// Whether rounds are still shortened.
    pub fn quick_timeout(&self) -> (r: bool)
        ensures
            r == self@.quick_timeout,
    {
        self.quick_timeout
    }

    /// The number of replicas, this one included, that make a majority.
    pub fn majority(&self) -> (r: usize)
        ensures
            r == self@.majority,
    {
        self.majority
    }

    fn check_leader(&mut self) -> (r: Option<Leader<Ballot>>)
        ensures
            (final(self)@, r) == evaluate(old(self)@),
    {
        let mut ballots: Vec<(Ballot, bool)> = Vec::new();
        std::mem::swap(&mut ballots, &mut self.ballots);
        let mut top = Ballot::default();
        let mut i: usize = 0;
        while i < ballots.len()
            invariant
                i <= ballots.len(),
                top == top_candidate(ballots@.take(i as int)),
            decreases ballots.len() - i,
        {
            let (b, candidate) = ballots[i];
            if candidate && top < b {
                top = b;
            }
            assert(ballots@.take(i + 1).drop_last() =~= ballots@.take(i as int));
            i = i + 1;
        }
        assert(ballots@.take(i as int) =~= ballots@);
        assert(self.ballots@ =~= Seq::empty());
        let prev = match self.leader {
            Some(b) => b,
            None => Ballot::default(),
        };
        if top < prev {
            let past_leader = if prev.n < u32::MAX {
                prev.n + 1
            } else {
                u32::MAX
            };
            if self.current_ballot.n < past_leader {
                self.current_ballot.n = past_leader;
            }
            self.leader = None;
            self.majority_connected = true;
            None
        } else if prev < top {
            self.quick_timeout = false;
            self.leader = Some(top);
            self.majority_connected = self.pid == top.pid;
            Some(Leader::with(top.pid, top))
        } else {
            None
        }
    }

    fn new_hb_round(&mut self)
        requires
            old(self)@.initial_delay_factor >= 1,
        ensures
            final(self)@ == open_round(old(self)@),
    {
        self.hb_current_delay = if self.quick_timeout {
            self.hb_delay / self.initial_delay_factor
        } else {
            self.hb_delay
        };
        self.hb_round = if self.hb_round < u32::MAX {
            self.hb_round + 1
        } else {
            0
        };
        let mut requests: Vec<BLEMessage> = Vec::new();
        let mut i: usize = 0;
        while i < self.peers.len()
            invariant
                i <= self.peers.len(),
                requests@ == round_requests(self.pid, self.hb_round, self.peers@.take(i as int)),
            decreases self.peers.len() - i,
        {
            let peer = self.peers[i];
            requests.push(
                BLEMessage::with(
                    self.pid,
                    peer,
                    HeartbeatMsg::Request(HeartbeatRequest::with(self.hb_round)),
                ),
            );
            assert(round_requests(self.pid, self.hb_round, self.peers@.take(i + 1)) =~= round_requests(
                self.pid,
                self.hb_round,
                self.peers@.take(i as int),
            ).push(request_msg(self.pid, peer, self.hb_round)));
            i = i + 1;
        }
        assert(self.peers@.take(i as int) =~= self.peers@);
        self.outgoing.append(&mut requests);
    }

    fn hb_timeout(&mut self) -> (r: Option<Leader<Ballot>>)
        requires
            old(self)@.wf(),
            old(self)@.ticks_elapsed == 0,
        ensures
            final(self)@.wf(),
            (final(self)@, r) == close_round(old(self)@),
    {
        let result = if self.ballots.len() >= self.majority - 1 {
            self.ballots.push((self.current_ballot, self.majority_connected));
            self.check_leader()
        } else {
            self.ballots.clear();
            self.majority_connected = false;
            None
        };
        self.new_hb_round();
        result
    }

    fn handle_request(&mut self, from: u64, req: HeartbeatRequest)
        ensures
            final(self)@ == (BleState {
                outgoing: old(self)@.outgoing.push(reply_msg(old(self)@, from, req.round)),
                ..old(self)@
            }),
    {
        let hb_reply = HeartbeatReply::with(req.round, self.current_ballot, self.majority_connected);
        self.outgoing.push(BLEMessage::with(self.pid, from, HeartbeatMsg::Reply(hb_reply)));
    }

    fn handle_reply(&mut self, rep: HeartbeatReply)
        ensures
            final(self)@ == (if rep.round == old(self)@.hb_round {
                BleState {
                    ballots: old(self)@.ballots.push((rep.ballot, rep.majority_connected)),
                    ..old(self)@
                }
            } else {
                BleState { hb_delay: widened(old(self)@.hb_delay, old(self)@.increment_delay), ..old(self)@ }
            }),
    {
        if rep.round == self.hb_round {
            self.ballots.push((rep.ballot, rep.majority_connected));
        } else {
            self.hb_delay = if self.hb_delay <= u64::MAX - self.increment_delay {
                self.hb_delay + self.increment_delay
            } else {
                u64::MAX
            };
        }
    }
}

} // verus!

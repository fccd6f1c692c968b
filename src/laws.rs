//! Properties of the election state machine, stated over the step functions
//! of `crate::ble` and proved.
use crate::ballot::{lex_lt, zero_ballot, Ballot};
use crate::ble::{
    close_round, handle_step, leader_view, next_round, request_msg, tick_closes, tick_step,
    top_candidate, BleState,
};
use crate::messages::{BLEMessage, HeartbeatMsg};
use vstd::prelude::*;

verus! {

/// The state after a run of events: `Some(m)` is the handling of message
/// `m`, `None` a tick.
pub open spec fn run(s: BleState, evs: Seq<Option<BLEMessage>>) -> BleState
    decreases evs.len(),
{
    if evs.len() == 0 {
        s
    } else {
        let before = run(s, evs.drop_last());
        match evs.last() {
            Some(m) => handle_step(before, m),
            None => tick_step(before).0,
        }
    }
}

/// Whether no tick of the run of events `evs` from `s` closes a round.
pub open spec fn closes_no_round(s: BleState, evs: Seq<Option<BLEMessage>>) -> bool
    decreases evs.len(),
{
    if evs.len() == 0 {
        true
    } else {
        closes_no_round(s, evs.drop_last()) && (evs.last() is None ==> !tick_closes(
            run(s, evs.drop_last()),
        ))
    }
}

/// The own ballot number never decreases: not on a tick, whether or not it
/// closes a round, and not when a message is handled.
pub proof fn lemma_ballot_number_never_decreases(s: BleState, m: BLEMessage)
    requires
        s.wf(),
    ensures
        tick_step(s).0.current_ballot.n >= s.current_ballot.n,
        tick_step(s).0.current_ballot.pid == s.current_ballot.pid,
        handle_step(s, m).current_ballot == s.current_ballot,
{
}

/// Handling a message leaves the known leader as it is, and so does a tick
/// that does not close the round.
pub proof fn lemma_leader_kept_between_round_closes(s: BleState, m: BLEMessage)
    requires
        s.wf(),
    ensures
        handle_step(s, m).leader == s.leader,
        !tick_closes(s) ==> tick_step(s).0.leader == s.leader && tick_step(s).1 is None,
{
}

/// After a tick that announces a leader, the replica reports that leader,
/// and keeps reporting it through any run of handled messages and ticks that
/// closes no round.
pub proof fn lemma_announced_leader_is_reported(s: BleState, evs: Seq<Option<BLEMessage>>)
    requires
        tick_step(s).1 is Some,
        closes_no_round(tick_step(s).0, evs),
    ensures
        leader_view(tick_step(s).0) == tick_step(s).1,
        leader_view(run(tick_step(s).0, evs)) == tick_step(s).1,
    decreases evs.len(),
{
    if evs.len() > 0 {
        lemma_announced_leader_is_reported(s, evs.drop_last());
    }
}

/// A round that closes without replies from a majority (this replica
/// included) leaves the replica without majority connectivity and announces
/// no leader.
pub proof fn lemma_minority_round_elects_nobody(s: BleState)
    requires
        s.wf(),
        tick_closes(s),
        s.ballots.len() + 1 < s.majority,
    ensures
        tick_step(s).0.majority_connected == false,
        tick_step(s).1 is None,
        tick_step(s).0.leader == s.leader,
{
}

/// When a round closes, the bag of ballots is emptied and one heartbeat
/// request of the new round is queued for each peer, after the messages
/// already queued.
pub proof fn lemma_round_close_sends_requests(s: BleState)
    requires
        s.wf(),
        tick_closes(s),
    ensures
        tick_step(s).0.ballots.len() == 0,
        tick_step(s).0.hb_round == next_round(s.hb_round),
        tick_step(s).0.outgoing.len() == s.outgoing.len() + s.peers.len(),
        tick_step(s).0.outgoing.subrange(0, s.outgoing.len() as int) == s.outgoing,
        forall|i: int|
            0 <= i < s.peers.len() ==> #[trigger] tick_step(s).0.outgoing[s.outgoing.len() + i]
                == request_msg(s.pid, s.peers[i], next_round(s.hb_round)),
{
    let s1 = tick_step(s).0;
    assert(s1.outgoing.subrange(0, s.outgoing.len() as int) =~= s.outgoing);
}

/// A heartbeat request of round `r` is answered by exactly one queued reply,
/// of round `r`, with the replica's ballot and majority connectivity;
/// nothing else changes.
pub proof fn lemma_request_gets_one_reply(s: BleState, m: BLEMessage)
    requires
        s.wf(),
        m.msg is Request,
    ensures
        ({
            let s1 = handle_step(s, m);
            let r = m.msg->Request_0.round;
            &&& s1.outgoing == s.outgoing.push(s1.outgoing.last())
            &&& s1.outgoing.last().from == s.pid
            &&& s1.outgoing.last().to == m.from
            &&& s1.outgoing.last().msg matches HeartbeatMsg::Reply(rep) && rep.round == r
                && rep.ballot == s.current_ballot && rep.majority_connected == s.majority_connected
            &&& s1 == (BleState { outgoing: s1.outgoing, ..s })
        }),
{
}

/// A reply of another round than the present one changes nothing but
/// `hb_delay`, which grows by `increment_delay`.
pub proof fn lemma_stale_reply_widens_delay(s: BleState, m: BLEMessage)
    requires
        s.wf(),
        m.msg matches HeartbeatMsg::Reply(rep) && rep.round != s.hb_round,
        s.hb_delay + s.increment_delay <= u64::MAX,
    ensures
        handle_step(s, m) == (BleState { hb_delay: (s.hb_delay + s.increment_delay) as u64, ..s }),
        handle_step(s, m).hb_delay > s.hb_delay <==> s.increment_delay > 0,
{
}

/// The top candidate of a bag is at least every ballot of the bag whose
/// candidate flag is set, and is itself such a ballot or `(0, 0)`: it is the
/// greatest candidate ballot, or `(0, 0)` where there is none.
pub proof fn lemma_top_candidate_is_greatest_candidate(bag: Seq<(Ballot, bool)>)
    ensures
        forall|b: Ballot| bag.contains((b, true)) ==> !lex_lt(top_candidate(bag), b),
        top_candidate(bag) == zero_ballot() || bag.contains((top_candidate(bag), true)),
    decreases bag.len(),
{
    if bag.len() > 0 {
        let rest = bag.drop_last();
        lemma_top_candidate_is_greatest_candidate(rest);
        let last = bag[bag.len() - 1];
        assert(bag.last() == last);
        assert(top_candidate(bag) == (if last.1 && lex_lt(top_candidate(rest), last.0) {
            last.0
        } else {
            top_candidate(rest)
        }));
        assert forall|b: Ballot| bag.contains((b, true)) implies !lex_lt(top_candidate(bag), b) by {
            let i = choose|i: int| 0 <= i < bag.len() && bag[i] == (b, true);
            if i < bag.len() - 1 {
                assert(rest[i] == (b, true));
                assert(rest.contains((b, true)));
                assert(!lex_lt(top_candidate(rest), b));
            } else {
                assert(last == (b, true));
            }
        }
        if top_candidate(bag) != zero_ballot() && top_candidate(bag) != top_candidate(rest) {
            assert(bag[bag.len() - 1] == (top_candidate(bag), true));
        }
        if top_candidate(bag) == top_candidate(rest) && rest.contains((top_candidate(rest), true)) {
            let j = choose|j: int| 0 <= j < rest.len() && rest[j] == (top_candidate(rest), true);
            assert(bag[j] == (top_candidate(bag), true));
        }
    }
}

proof fn lemma_top_candidate_of_same_multiset(b1: Seq<(Ballot, bool)>, b2: Seq<(Ballot, bool)>)
    requires
        b1.to_multiset() == b2.to_multiset(),
    ensures
        top_candidate(b1) == top_candidate(b2),
{
    broadcast use vstd::seq_lib::group_to_multiset_ensures;

    lemma_top_candidate_is_greatest_candidate(b1);
    lemma_top_candidate_is_greatest_candidate(b2);
    let t1 = top_candidate(b1);
    let t2 = top_candidate(b2);
    assert forall|x: (Ballot, bool)| b1.contains(x) <==> b2.contains(x) by {
        vstd::seq_lib::to_multiset_contains(b1, x);
        vstd::seq_lib::to_multiset_contains(b2, x);
    }
    if t1 != zero_ballot() {
        assert(b2.contains((t1, true)));
    }
    if t2 != zero_ballot() {
        assert(b1.contains((t2, true)));
    }
    assert(!lex_lt(t1, t2) && !lex_lt(t2, t1));
    assert(t1.n == t2.n && t1.pid == t2.pid);
}

/// Closing a round depends on the replies collected only as a multiset:
/// two states that differ only in the order of their bags of ballots close
/// the round alike.
pub proof fn lemma_round_close_ignores_reply_order(s1: BleState, s2: BleState)
    requires
        s2 == (BleState { ballots: s2.ballots, ..s1 }),
        s1.ballots.to_multiset() == s2.ballots.to_multiset(),
    ensures
        close_round(s1) == close_round(s2),
{
    broadcast use vstd::seq_lib::group_to_multiset_ensures;

    assert(s1.ballots.len() == s2.ballots.len()) by {
        assert(s1.ballots.len() == s1.ballots.to_multiset().len());
        assert(s2.ballots.len() == s2.ballots.to_multiset().len());
    }
    let own = (s1.current_ballot, s1.majority_connected);
    assert(s1.ballots.push(own).to_multiset() == s2.ballots.push(own).to_multiset());
    lemma_top_candidate_of_same_multiset(s1.ballots.push(own), s2.ballots.push(own));
    assert(close_round(s1) == close_round(s2));
}

} // verus!

use omnipaxos_ble::{
    BLEMessage, Ballot, BallotLeaderElection, HeartbeatMsg, HeartbeatReply, HeartbeatRequest,
    Leader,
};

fn replica(pid: u64, peers: Vec<u64>, hb_delay: u64) -> BallotLeaderElection {
    BallotLeaderElection::with(peers, pid, hb_delay, 1, false, None, None)
}

fn reply(to: u64, from: u64, round: u32, ballot: Ballot, connected: bool) -> BLEMessage {
    BLEMessage::with(
        from,
        to,
        HeartbeatMsg::Reply(HeartbeatReply::with(round, ballot, connected)),
    )
}

/// Delivers every queued message, and those they cause, except the ones sent
/// by `silent`. Replica `pid` sits at index `pid - 1`.
fn deliver(replicas: &mut Vec<BallotLeaderElection>, silent: Option<u64>) {
    loop {
        let mut pending = Vec::new();
        for r in replicas.iter_mut() {
            pending.extend(r.take_outgoing());
        }
        if pending.is_empty() {
            return;
        }
        for m in pending {
            if Some(m.from) != silent {
                replicas[(m.to - 1) as usize].handle(m);
            }
        }
    }
}

/// One tick of the whole cluster: each replica in turn ticks, and what it
/// sends is delivered at once. Returns the events of the tick.
fn cluster_tick(
    replicas: &mut Vec<BallotLeaderElection>,
    silent: Option<u64>,
) -> Vec<Option<Leader<Ballot>>> {
    let mut events = Vec::new();
    for i in 0..replicas.len() {
        events.push(replicas[i].tick());
        deliver(replicas, silent);
    }
    events
}

fn leader(pid: u64, n: u32) -> Option<Leader<Ballot>> {
    Some(Leader::with(pid, Ballot::with(n, pid)))
}

#[test]
fn majority_is_half_the_cluster_plus_one() {
    assert_eq!(replica(1, vec![], 5).majority(), 1);
    assert_eq!(replica(1, vec![2], 5).majority(), 2);
    assert_eq!(replica(1, vec![2, 3], 5).majority(), 2);
    assert_eq!(replica(1, vec![2, 3, 4], 5).majority(), 3);
    assert_eq!(replica(1, vec![2, 3, 4, 5], 5).majority(), 3);
}

#[test]
fn fresh_replica_state() {
    let r = replica(4, vec![1, 2], 5);
    assert_eq!(r.current_ballot(), Ballot::with(0, 4));
    assert!(r.majority_connected());
    assert_eq!(r.get_leader(), None);
    assert_eq!(r.hb_round(), 0);
    assert_eq!(r.hb_current_delay(), 5);
    assert!(r.ballots().is_empty());
}

#[test]
fn initial_leader_on_itself() {
    let r = BallotLeaderElection::with(
        vec![1, 3],
        2,
        5,
        1,
        true,
        Some(Leader::with(2, Ballot::with(7, 9))),
        None,
    );
    assert_eq!(r.current_ballot(), Ballot::with(7, 2));
    assert_eq!(r.get_leader(), leader(2, 7));
    assert!(r.majority_connected());
}

#[test]
fn initial_leader_seeds_a_follower() {
    let r = BallotLeaderElection::with(
        vec![2, 3],
        1,
        5,
        1,
        true,
        Some(Leader::with(2, Ballot::with(7, 2))),
        None,
    );
    assert_eq!(r.get_leader(), leader(2, 7));
    assert_eq!(r.current_ballot(), Ballot::with(0, 1));
    assert!(!r.majority_connected());
    assert!(r.quick_timeout());
}

#[test]
fn set_initial_leader_clears_quick_timeout() {
    let mut r = BallotLeaderElection::with(vec![2, 3], 1, 10, 1, true, None, Some(5));
    assert!(r.quick_timeout());
    r.set_initial_leader(Leader::with(2, Ballot::with(7, 2)));
    assert_eq!(r.get_leader(), leader(2, 7));
    assert_eq!(r.current_ballot(), Ballot::with(0, 1));
    assert!(!r.majority_connected());
    assert!(!r.quick_timeout());

    let mut s = BallotLeaderElection::with(vec![2, 3], 1, 10, 1, true, None, None);
    s.set_initial_leader(Leader::with(1, Ballot::with(3, 8)));
    assert_eq!(s.get_leader(), leader(1, 3));
    assert_eq!(s.current_ballot(), Ballot::with(3, 1));
    assert!(s.majority_connected());
}

#[test]
fn request_gets_exactly_one_reply() {
    let mut r = replica(1, vec![2, 3], 5);
    r.handle(BLEMessage::with(
        3,
        1,
        HeartbeatMsg::Request(HeartbeatRequest::with(42)),
    ));
    let out = r.take_outgoing();
    assert_eq!(
        out,
        vec![reply(3, 1, 42, Ballot::with(0, 1), true)]
    );
    assert!(r.take_outgoing().is_empty());
    assert_eq!(r.hb_round(), 0);
}

#[test]
fn round_close_queues_one_request_per_peer() {
    let mut r = replica(1, vec![2, 3, 4], 3);
    assert_eq!(r.tick(), None);
    assert_eq!(r.tick(), None);
    assert!(r.take_outgoing().is_empty());
    assert_eq!(r.tick(), None);
    assert_eq!(r.hb_round(), 1);
    assert!(r.ballots().is_empty());
    let out = r.take_outgoing();
    let expected: Vec<BLEMessage> = vec![2, 3, 4]
        .into_iter()
        .map(|p| BLEMessage::with(1, p, HeartbeatMsg::Request(HeartbeatRequest::with(1))))
        .collect();
    assert_eq!(out, expected);
}

#[test]
fn leader_event_is_then_reported() {
    let mut r = replica(1, vec![2, 3], 2);
    r.tick();
    r.tick();
    r.handle(reply(1, 3, 1, Ballot::with(0, 3), true));
    assert_eq!(r.tick(), None);
    let ev = r.tick();
    assert_eq!(ev, leader(3, 0));
    assert_eq!(r.get_leader(), ev);
    assert!(!r.majority_connected());
    r.handle(reply(1, 2, 2, Ballot::with(5, 2), true));
    r.handle(BLEMessage::with(2, 1, HeartbeatMsg::Request(HeartbeatRequest::with(2))));
    r.handle(reply(1, 2, 0, Ballot::with(9, 2), true));
    assert_eq!(r.tick(), None);
    assert_eq!(r.get_leader(), ev);
}

#[test]
fn lost_leader_bumps_ballot_number() {
    let mut r = replica(1, vec![2, 3], 1);
    r.set_initial_leader(Leader::with(3, Ballot::with(4, 3)));
    r.tick();
    assert_eq!(r.hb_round(), 1);
    r.handle(reply(1, 2, 1, Ballot::with(0, 2), true));
    assert_eq!(r.tick(), None);
    assert_eq!(r.current_ballot(), Ballot::with(5, 1));
    assert_eq!(r.get_leader(), None);
    assert!(r.majority_connected());
}

#[test]
fn lost_leader_at_largest_number_saturates() {
    let mut r = replica(1, vec![2], 1);
    r.set_initial_leader(Leader::with(2, Ballot::with(u32::MAX, 2)));
    r.tick();
    r.handle(reply(1, 2, 1, Ballot::with(0, 2), false));
    assert_eq!(r.tick(), None);
    assert_eq!(r.current_ballot(), Ballot::with(u32::MAX, 1));
}

#[test]
fn no_candidate_and_no_leader_gives_no_event() {
    let mut r = replica(1, vec![2], 1);
    r.tick();
    r.handle(reply(1, 2, 1, Ballot::with(0, 2), false));
    assert!(!r.majority_connected());
    assert_eq!(r.tick(), None);
    assert_eq!(r.get_leader(), None);
    assert_eq!(r.current_ballot(), Ballot::with(0, 1));
}

#[test]
fn ballot_number_never_decreases_in_a_run() {
    let mut replicas = vec![replica(1, vec![2, 3], 5), replica(2, vec![1, 3], 5), replica(3, vec![1, 2], 5)];
    let mut last: Vec<u32> = replicas.iter().map(|r| r.current_ballot().n).collect();
    for _ in 0..60 {
        cluster_tick(&mut replicas, None);
        for (i, r) in replicas.iter().enumerate() {
            assert!(r.current_ballot().n >= last[i]);
            last[i] = r.current_ballot().n;
        }
    }
}

#[test]
fn three_node_bootstrap() {
    let mut replicas = vec![replica(1, vec![2, 3], 5), replica(2, vec![1, 3], 5), replica(3, vec![1, 2], 5)];
    let mut events = Vec::new();
    for _ in 0..30 {
        events.push(cluster_tick(&mut replicas, None));
    }
    for (t, ev) in events.iter().enumerate() {
        let tick = t + 1;
        match tick {
            10 => assert_eq!(ev, &vec![leader(3, 0), leader(3, 0), None]),
            20 => assert_eq!(ev, &vec![leader(1, 1), leader(2, 1), leader(2, 1)]),
            25 => assert_eq!(ev, &vec![leader(2, 1), None, None]),
            _ => assert_eq!(ev, &vec![None, None, None], "tick {}", tick),
        }
    }
    for r in &replicas {
        assert_eq!(r.get_leader(), leader(2, 1));
    }
}

#[test]
fn leader_failure() {
    let seed = Some(Leader::with(3, Ballot::with(0, 3)));
    let mut replicas: Vec<BallotLeaderElection> = (1..=3u64)
        .map(|pid| {
            let peers = (1..=3u64).filter(|p| *p != pid).collect();
            BallotLeaderElection::with(peers, pid, 5, 1, false, seed, None)
        })
        .collect();
    let mut events = Vec::new();
    for tick in 1..=30 {
        events.push(cluster_tick(&mut replicas, Some(3)));
        if tick == 10 {
            assert_eq!(replicas[0].current_ballot(), Ballot::with(1, 1));
            assert_eq!(replicas[1].current_ballot(), Ballot::with(1, 2));
            for r in &replicas[0..2] {
                assert_eq!(r.get_leader(), None);
                assert!(r.majority_connected());
            }
        }
    }
    assert_eq!(events[14][0..2], [leader(1, 1), leader(2, 1)]);
    assert_eq!(events[19][0..2], [leader(2, 1), None]);
    assert_eq!(replicas[0].get_leader(), leader(2, 1));
    assert_eq!(replicas[1].get_leader(), leader(2, 1));
}

#[test]
fn quick_timeout_bootstrap() {
    let mut r = BallotLeaderElection::with(vec![2, 3], 1, 10, 1, true, None, Some(5));
    assert_eq!(r.hb_current_delay(), 2);
    assert_eq!(r.tick(), None);
    assert_eq!(r.hb_round(), 0);
    assert_eq!(r.tick(), None);
    assert_eq!(r.hb_round(), 1);
    assert_eq!(r.hb_current_delay(), 2);
    r.handle(reply(1, 3, 1, Ballot::with(0, 3), true));
    assert_eq!(r.tick(), None);
    assert_eq!(r.tick(), leader(3, 0));
    assert!(!r.quick_timeout());
    assert_eq!(r.hb_current_delay(), 10);
    for _ in 0..9 {
        assert_eq!(r.tick(), None);
    }
    assert_eq!(r.hb_round(), 2);
    r.tick();
    assert_eq!(r.hb_round(), 3);
}

#[test]
fn stale_reply_widens_delay() {
    let mut r = BallotLeaderElection::with(vec![2, 3], 1, 5, 2, false, None, None);
    for _ in 0..5 {
        r.tick();
    }
    assert_eq!(r.hb_round(), 1);
    r.handle(reply(1, 2, 1, Ballot::with(0, 2), true));
    let before = r.ballots();
    r.handle(reply(1, 3, 0, Ballot::with(0, 3), true));
    assert_eq!(r.ballots(), before);
    assert_eq!(r.hb_delay(), 7);
    assert_eq!(r.hb_current_delay(), 5);
    r.handle(reply(1, 3, 2, Ballot::with(0, 3), true));
    assert_eq!(r.hb_delay(), 9);
    assert_eq!(r.ballots(), vec![(Ballot::with(0, 2), true)]);
}

#[test]
fn widened_delay_saturates() {
    let mut r = BallotLeaderElection::with(vec![2], 1, u64::MAX - 1, 5, false, None, None);
    r.handle(reply(1, 2, 3, Ballot::with(0, 2), true));
    assert_eq!(r.hb_delay(), u64::MAX);
}

#[test]
fn isolated_minority() {
    let mut r = replica(1, vec![2, 3, 4, 5], 5);
    assert_eq!(r.majority(), 3);
    r.handle(reply(1, 2, 0, Ballot::with(0, 2), true));
    for round in 1..=10u32 {
        for _ in 0..5 {
            assert_eq!(r.tick(), None);
        }
        assert_eq!(r.hb_round(), round);
        assert!(!r.majority_connected());
        assert!(r.ballots().is_empty());
        assert_eq!(r.get_leader(), None);
        assert_eq!(r.hb_delay(), 5);
        assert_eq!(r.take_outgoing().len(), 4);
    }
}

#[test]
fn losing_a_lower_leader_keeps_the_ballot_number() {
    let mut r = replica(1, vec![2, 3], 1);
    assert_eq!(r.tick(), None);
    assert!(!r.majority_connected());
    r.handle(reply(1, 3, 1, Ballot::with(7, 3), true));
    assert_eq!(r.tick(), leader(3, 7));
    r.handle(reply(1, 2, 2, Ballot::with(0, 2), false));
    assert_eq!(r.tick(), None);
    assert_eq!(r.get_leader(), None);
    assert_eq!(r.current_ballot(), Ballot::with(8, 1));
    assert!(r.majority_connected());
    assert_eq!(r.tick(), None);
    assert!(!r.majority_connected());
    r.handle(reply(1, 2, 4, Ballot::with(0, 2), true));
    assert_eq!(r.tick(), leader(2, 0));
    assert_eq!(r.current_ballot(), Ballot::with(8, 1));
    r.handle(reply(1, 3, 5, Ballot::with(0, 3), false));
    assert_eq!(r.tick(), None);
    assert_eq!(r.get_leader(), None);
    assert_eq!(r.current_ballot(), Ballot::with(8, 1));
    assert!(r.majority_connected());
}

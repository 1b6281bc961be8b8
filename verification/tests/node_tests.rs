use librabft_node::Author;
use librabft_node::BlockHash;
use librabft_node::BlockProposal;
use librabft_node::CommitTracker;
use librabft_node::Configuration;
use librabft_node::Duration;
use librabft_node::EpochId;
use librabft_node::InMemoryContext;
use librabft_node::NodeState;
use librabft_node::NodeTime;
use librabft_node::QuorumCertificate;
use librabft_node::QuorumCertificateHash;
use librabft_node::Record;
use librabft_node::RecordStoreState;
use librabft_node::Round;
use librabft_node::State;
use librabft_node::Vote;

fn four_validators() -> Vec<Author> {
    vec![Author(0), Author(1), Author(2), Author(3)]
}

fn new_node(author: Author, interval: u64, delta: u64, ctx: &InMemoryContext) -> NodeState {
    NodeState::new(
        author,
        State {
            epoch_id: EpochId(0),
            payload: 0,
        },
        NodeTime(0),
        Duration(interval),
        Duration(delta),
        ctx,
    )
}

fn block(hash: u64, round: u64, prev: u64, second_prev: u64, proposer: u64) -> Record {
    Record::Block(BlockProposal {
        hash: BlockHash(hash),
        round: Round(round),
        previous_round: Round(prev),
        second_previous_round: Round(second_prev),
        proposer: Author(proposer),
    })
}

fn qc(round: u64, prev: u64, hash: u64, committed: Option<State>) -> Record {
    Record::QuorumCertificate(QuorumCertificate {
        round: Round(round),
        previous_round: Round(prev),
        block_hash: BlockHash(hash),
        committed_state: committed,
    })
}

#[test]
fn new_node_starts_clean_in_epoch_zero() {
    let ctx = InMemoryContext::new(four_validators());
    let node = new_node(Author(2), 10, 1000, &ctx);
    assert_eq!(node.epoch_id(), EpochId(0));
    assert_eq!(node.local_author(), Author(2));
    assert_eq!(node.latest_voted_round, Round(0));
    assert_eq!(node.locked_round, Round(0));
    assert_eq!(node.record_store().committed.len(), 0);
    assert_eq!(node.record_store().created_votes.len(), 0);
    assert!(node.record_store().current_proposal.is_none());
    assert_eq!(node.active_round(), Round(1));
    assert_eq!(node.pacemaker().active_round, Round(1));
}

#[test]
fn record_store_at_finds_only_known_epochs() {
    let ctx = InMemoryContext::new(four_validators());
    let node = new_node(Author(2), 10, 1000, &ctx);
    assert!(node.record_store_at(EpochId(0)).is_some());
    assert!(node.record_store_at(EpochId(1)).is_none());
    assert!(node.record_store_at(EpochId(7)).is_none());
}

#[test]
fn foreign_epoch_records_are_discarded() {
    let mut ctx = InMemoryContext::new(four_validators());
    let mut node = new_node(Author(2), 10, 1000, &ctx);
    node.insert_network_record(EpochId(5), block(10, 1, 0, 0, 1), &mut ctx);
    assert!(node.record_store().current_proposal.is_none());
}

#[test]
fn votes_respect_round_replay_rule() {
    // Safety rule: a proposal whose round is at or below the latest voted
    // round never yields a vote.
    let mut ctx = InMemoryContext::new(four_validators());
    let mut node = new_node(Author(2), 1000, 1000, &ctx);
    node.insert_network_record(EpochId(0), block(10, 1, 0, 0, 1), &mut ctx);
    let actions = node.update_node(NodeTime(1), &mut ctx);
    assert_eq!(node.latest_voted_round, Round(1));
    assert_eq!(node.record_store().created_votes.len(), 1);
    assert_eq!(
        node.record_store().created_votes[0],
        Vote {
            hash: BlockHash(10),
            round: Round(1),
            author: Author(2),
        }
    );
    assert_eq!(actions.should_send, vec![Author(1)]);

    // A replay of round 1 is never voted again.
    node.insert_network_record(EpochId(0), block(11, 1, 0, 0, 1), &mut ctx);
    let actions = node.update_node(NodeTime(2), &mut ctx);
    assert_eq!(node.latest_voted_round, Round(1));
    assert_eq!(node.record_store().created_votes.len(), 1);
    assert!(actions.should_send.is_empty());
}

#[test]
fn votes_respect_locked_round_rule() {
    // Safety rule: a proposal whose parent round is below the locked round
    // never yields a vote, even at a fresh round.
    let mut ctx = InMemoryContext::new(four_validators());
    let mut node = new_node(Author(2), 1000, 1000, &ctx);

    // Vote at round 1.
    node.insert_network_record(EpochId(0), block(10, 1, 0, 0, 1), &mut ctx);
    node.update_node(NodeTime(1), &mut ctx);
    assert_eq!(node.latest_voted_round, Round(1));
    assert_eq!(node.locked_round, Round(0));

    // A certificate for round 2 advances the active round to 3; voting on
    // the round-3 block locks its certified grandparent round 2.
    node.insert_network_record(EpochId(0), qc(2, 1, 20, None), &mut ctx);
    node.insert_network_record(EpochId(0), block(30, 3, 2, 2, 1), &mut ctx);
    node.update_node(NodeTime(2), &mut ctx);
    assert_eq!(node.active_round(), Round(3));
    assert_eq!(node.latest_voted_round, Round(3));
    assert_eq!(node.locked_round, Round(2));
    assert_eq!(node.record_store().created_votes.len(), 2);

    // Round 4 becomes active, and a crafted round-4 proposal whose parent
    // round 1 contradicts the lock gets no vote.
    node.insert_network_record(EpochId(0), qc(3, 2, 30, None), &mut ctx);
    node.insert_network_record(EpochId(0), block(40, 4, 1, 0, 1), &mut ctx);
    let actions = node.update_node(NodeTime(3), &mut ctx);
    assert_eq!(node.active_round(), Round(4));
    assert_eq!(node.latest_voted_round, Round(3));
    assert_eq!(node.locked_round, Round(2));
    assert_eq!(node.record_store().created_votes.len(), 2);
    assert!(actions.should_send.is_empty());
}

#[test]
fn undesignated_proposal_gets_no_vote() {
    // A proposal at a round other than the pacemaker's active round is not
    // designated for voting.
    let mut ctx = InMemoryContext::new(four_validators());
    let mut node = new_node(Author(2), 1000, 1000, &ctx);
    node.insert_network_record(EpochId(0), block(50, 5, 0, 0, 1), &mut ctx);
    node.update_node(NodeTime(1), &mut ctx);
    assert_eq!(node.active_round(), Round(1));
    assert_eq!(node.record_store().created_votes.len(), 0);
    assert_eq!(node.latest_voted_round, Round(0));
}

#[test]
fn own_quorum_triggers_broadcast_and_immediate_retick() {
    // Four validators; this node leads round 1, proposes, votes for its own
    // block, and two peer votes complete the quorum of three.
    let mut ctx = InMemoryContext::new(four_validators());
    let mut node = new_node(Author(1), 1000, 1000, &ctx);
    let actions = node.update_node(NodeTime(0), &mut ctx);
    // Proposing and self-voting happened, but no quorum yet.
    assert_eq!(node.record_store().created_votes.len(), 1);
    assert_eq!(node.record_store().own_vote_count, 1);
    assert!(actions.next_scheduled_update.0 > 0);

    // The node's own round-1 proposal carries hash 1 in this store model.
    for peer in [2u64, 3u64] {
        node.insert_network_record(
            EpochId(0),
            Record::Vote(Vote {
                hash: BlockHash(1),
                round: Round(1),
                author: Author(peer),
            }),
            &mut ctx,
        );
    }
    assert!(node.record_store().qc_ready);
    let actions = node.update_node(NodeTime(5), &mut ctx);
    assert!(actions.should_broadcast);
    assert_eq!(actions.next_scheduled_update, NodeTime(5));
    assert!(!node.record_store().qc_ready);
}

#[test]
fn single_validator_forms_quorum_alone() {
    let mut ctx = InMemoryContext::new(vec![Author(0)]);
    let mut node = new_node(Author(0), 1000, 1000, &ctx);
    let actions = node.update_node(NodeTime(0), &mut ctx);
    // Proposal, self-vote, quorum of one, broadcast and immediate re-tick,
    // all within the same tick.
    assert_eq!(node.record_store().created_votes.len(), 1);
    assert!(actions.should_broadcast);
    assert_eq!(actions.next_scheduled_update, NodeTime(0));
}

#[test]
fn commit_delivery_carries_certificate_only_on_newest_round() {
    let mut ctx = InMemoryContext::new(four_validators());
    let mut node = new_node(Author(2), 1000, 1000, &ctx);
    let s1 = State {
        epoch_id: EpochId(0),
        payload: 1,
    };
    let s2 = State {
        epoch_id: EpochId(0),
        payload: 2,
    };
    node.insert_network_record(EpochId(0), qc(1, 0, 10, Some(s1)), &mut ctx);
    node.insert_network_record(EpochId(0), qc(2, 1, 20, Some(s2)), &mut ctx);
    node.process_commits(&mut ctx);
    assert_eq!(ctx.delivered_commits.len(), 2);
    assert_eq!(ctx.delivered_commits[0].state, s1);
    assert!(ctx.delivered_commits[0].certificate.is_none());
    assert_eq!(ctx.delivered_commits[1].state, s2);
    let cert = ctx.delivered_commits[1].certificate.expect("certificate");
    assert_eq!(cert.round, Round(2));
}

#[test]
fn process_commits_twice_delivers_nothing_new() {
    let mut ctx = InMemoryContext::new(four_validators());
    let mut node = new_node(Author(2), 1000, 1000, &ctx);
    let s1 = State {
        epoch_id: EpochId(0),
        payload: 1,
    };
    node.insert_network_record(EpochId(0), qc(1, 0, 10, Some(s1)), &mut ctx);
    node.process_commits(&mut ctx);
    assert_eq!(ctx.delivered_commits.len(), 1);
    node.process_commits(&mut ctx);
    assert_eq!(ctx.delivered_commits.len(), 1);
}

#[test]
fn epoch_transition_resets_state_and_retains_old_store() {
    let mut ctx = InMemoryContext::new(four_validators());
    let mut node = new_node(Author(2), 1000, 1000, &ctx);

    // Acquire some voting state in epoch 0 first.
    node.insert_network_record(EpochId(0), block(10, 1, 0, 0, 1), &mut ctx);
    node.update_node(NodeTime(1), &mut ctx);
    assert_eq!(node.latest_voted_round, Round(1));

    // Commit rounds 2 and 3; the round-3 state signals epoch 1; a round-4
    // commit of the old epoch trails behind it.
    let s2 = State {
        epoch_id: EpochId(0),
        payload: 2,
    };
    let s3 = State {
        epoch_id: EpochId(1),
        payload: 3,
    };
    let s4 = State {
        epoch_id: EpochId(0),
        payload: 4,
    };
    node.insert_network_record(EpochId(0), qc(2, 1, 20, Some(s2)), &mut ctx);
    node.insert_network_record(EpochId(0), qc(3, 2, 30, Some(s3)), &mut ctx);
    node.insert_network_record(EpochId(0), qc(4, 3, 40, Some(s4)), &mut ctx);
    node.process_commits(&mut ctx);

    // Rounds 2 and 3 were delivered; the old epoch's trailing round 4 was
    // not delivered after the transition.
    assert_eq!(ctx.delivered_commits.len(), 2);
    assert_eq!(ctx.delivered_commits[0].state, s2);
    assert_eq!(ctx.delivered_commits[1].state, s3);

    // The node adopted epoch 1 and reset its voting constraints.
    assert_eq!(node.epoch_id(), EpochId(1));
    assert_eq!(node.latest_voted_round, Round(0));
    assert_eq!(node.locked_round, Round(0));
    assert_eq!(node.record_store().committed.len(), 0);
    assert_eq!(node.record_store().initial_state, s3);

    // The old store is retained, frozen, under its epoch id.
    let old_store = node.record_store_at(EpochId(0)).expect("old epoch store");
    assert_eq!(old_store.committed.len(), 3);
    assert_eq!(old_store.created_votes.len(), 1);
    assert!(node.record_store_at(EpochId(1)).is_some());
    assert!(node.record_store_at(EpochId(2)).is_none());
}

#[test]
fn tracker_observes_commits() {
    let mut ctx = InMemoryContext::new(four_validators());
    let mut node = new_node(Author(2), 1000, 1000, &ctx);
    let s1 = State {
        epoch_id: EpochId(0),
        payload: 1,
    };
    node.insert_network_record(EpochId(0), qc(1, 0, 10, Some(s1)), &mut ctx);
    node.update_tracker(NodeTime(5));
    assert_eq!(node.tracker.highest_committed_round, Round(1));
    assert_eq!(node.tracker.latest_commit_time, NodeTime(5));
}

#[test]
fn watchdog_fires_exactly_on_the_deadline() {
    // Epoch 0, four validators, a 10-second target commit interval, and no
    // commit activity: ticking every second from t = 0 must raise exactly
    // one query-all at t = 10 and the next one exactly at t = 20.
    let mut ctx = InMemoryContext::new(four_validators());
    let mut node = new_node(Author(2), 10, 1, &ctx);
    let mut fired: Vec<u64> = Vec::new();
    for t in 0..=20u64 {
        let actions = node.update_node(NodeTime(t), &mut ctx);
        if actions.should_query_all {
            fired.push(t);
        }
    }
    assert_eq!(fired, vec![10, 20]);
}

#[test]
fn commit_activity_defers_the_watchdog() {
    // A 10-second interval, one commit delivered at the t = 5 tick: the
    // watchdog must stay quiet at t = 10 and fire first at t = 15.
    let mut ctx = InMemoryContext::new(four_validators());
    let mut node = new_node(Author(2), 10, 1000, &ctx);
    for t in 0..5u64 {
        let actions = node.update_node(NodeTime(t), &mut ctx);
        assert!(!actions.should_query_all);
    }
    let s1 = State {
        epoch_id: EpochId(0),
        payload: 1,
    };
    node.insert_network_record(EpochId(0), qc(1, 0, 10, Some(s1)), &mut ctx);
    let mut fired: Vec<u64> = Vec::new();
    for t in 5..=20u64 {
        let actions = node.update_node(NodeTime(t), &mut ctx);
        if actions.should_query_all {
            fired.push(t);
        }
    }
    assert_eq!(ctx.delivered_commits.len(), 1);
    assert_eq!(node.tracker.latest_commit_time, NodeTime(5));
    assert_eq!(fired, vec![15]);
}

fn fresh_store() -> RecordStoreState {
    RecordStoreState::new(
        QuorumCertificateHash(0),
        State {
            epoch_id: EpochId(0),
            payload: 0,
        },
        EpochId(0),
        Configuration {
            authors: four_validators(),
        },
    )
}

#[test]
fn watchdog_update_fires_exactly_at_the_deadline() {
    // No epoch change and no commit progress; latest query-all at t = 4,
    // latest commit at t = 3, interval 10: the deadline is t = 14.
    let mut tracker = CommitTracker {
        epoch_id: EpochId(0),
        highest_committed_round: Round(5),
        latest_commit_time: NodeTime(3),
        target_commit_interval: Duration(10),
    };
    let store = fresh_store();
    let actions = tracker.update_tracker(NodeTime(4), NodeTime(14), EpochId(0), &store);
    assert!(actions.should_query_all);
    assert_eq!(actions.next_scheduled_update, NodeTime(24));
    assert_eq!(tracker.highest_committed_round, Round(5));
    assert_eq!(tracker.latest_commit_time, NodeTime(3));
}

#[test]
fn watchdog_update_waits_for_the_deadline() {
    let mut tracker = CommitTracker {
        epoch_id: EpochId(0),
        highest_committed_round: Round(5),
        latest_commit_time: NodeTime(3),
        target_commit_interval: Duration(10),
    };
    let store = fresh_store();
    let actions = tracker.update_tracker(NodeTime(4), NodeTime(13), EpochId(0), &store);
    assert!(!actions.should_query_all);
    assert_eq!(actions.next_scheduled_update, NodeTime(14));
    assert_eq!(tracker.latest_commit_time, NodeTime(3));
}

#[test]
fn watchdog_schedules_its_deadline() {
    let mut ctx = InMemoryContext::new(four_validators());
    let mut node = new_node(Author(2), 10, 1000, &ctx);
    let actions = node.update_node(NodeTime(0), &mut ctx);
    assert!(!actions.should_query_all);
    // The watchdog deadline (t = 10) arrives before the pacemaker's
    // re-tick (t = 1000).
    assert_eq!(actions.next_scheduled_update, NodeTime(10));
}

#[test]
fn timeout_raises_latest_voted_round() {
    // With a short round delay and no progress, the pacemaker requests a
    // timeout for round 1, which forecloses voting at round 1.
    let mut ctx = InMemoryContext::new(four_validators());
    let mut node = new_node(Author(2), 1000, 1, &ctx);
    let actions = node.update_node(NodeTime(1), &mut ctx);
    assert_eq!(node.latest_voted_round, Round(1));
    assert_eq!(node.record_store().timeouts.len(), 1);
    assert!(actions.should_broadcast);

    // A late proposal for round 1 gets no vote any more.
    node.insert_network_record(EpochId(0), block(10, 1, 0, 0, 1), &mut ctx);
    node.update_node(NodeTime(2), &mut ctx);
    assert_eq!(node.record_store().created_votes.len(), 0);
}

#[test]
fn own_proposal_extends_highest_certificate() {
    // The leader of round 1 proposes the next round after its highest
    // certificate (the genesis certificate, so round 1 with parent 0).
    let mut ctx = InMemoryContext::new(four_validators());
    let mut node = new_node(Author(1), 1000, 1000, &ctx);
    node.update_node(NodeTime(0), &mut ctx);
    let own = node.record_store().own_proposal.expect("own proposal");
    assert_eq!(own.round, Round(1));
    assert_eq!(own.previous_round, Round(0));
    assert_eq!(own.hash, BlockHash(1));
    assert_eq!(own.proposer, Author(1));
    assert_eq!(node.record_store().current_proposal, Some(own));
}

#[test]
fn committed_states_after_filters_by_round() {
    let mut ctx = InMemoryContext::new(four_validators());
    let mut node = new_node(Author(2), 1000, 1000, &ctx);
    let s1 = State {
        epoch_id: EpochId(0),
        payload: 1,
    };
    let s2 = State {
        epoch_id: EpochId(0),
        payload: 2,
    };
    node.insert_network_record(EpochId(0), qc(1, 0, 10, Some(s1)), &mut ctx);
    node.insert_network_record(EpochId(0), qc(3, 1, 30, Some(s2)), &mut ctx);
    let all = node.record_store().committed_states_after(Round(0));
    assert_eq!(all.len(), 2);
    assert_eq!(all[0].round, Round(1));
    assert_eq!(all[1].round, Round(3));
    let after_one = node.record_store().committed_states_after(Round(1));
    assert_eq!(after_one.len(), 1);
    assert_eq!(after_one[0].state, s2);
    assert_eq!(node.record_store().highest_committed_round(), Round(3));
}

#[test]
fn stale_certificate_does_not_regress_the_highest() {
    let mut ctx = InMemoryContext::new(four_validators());
    let mut node = new_node(Author(2), 1000, 1000, &ctx);
    node.insert_network_record(EpochId(0), qc(5, 4, 50, None), &mut ctx);
    node.insert_network_record(EpochId(0), qc(2, 1, 20, None), &mut ctx);
    let highest = node.record_store().highest_qc.expect("certificate");
    assert_eq!(highest.round, Round(5));
    // A commit at a round below the committed chain's head is ignored too.
    let s1 = State {
        epoch_id: EpochId(0),
        payload: 1,
    };
    node.insert_network_record(EpochId(0), qc(7, 5, 70, Some(s1)), &mut ctx);
    node.insert_network_record(EpochId(0), qc(6, 5, 60, Some(s1)), &mut ctx);
    assert_eq!(node.record_store().committed.len(), 1);
    assert_eq!(node.record_store().highest_committed_round(), Round(7));
}

#[test]
fn votes_from_nowhere_count_nothing() {
    // A vote arriving while this node has no proposal of its own pending
    // changes nothing.
    let mut ctx = InMemoryContext::new(four_validators());
    let mut node = new_node(Author(2), 1000, 1000, &ctx);
    node.insert_network_record(
        EpochId(0),
        Record::Vote(Vote {
            hash: BlockHash(1),
            round: Round(1),
            author: Author(3),
        }),
        &mut ctx,
    );
    assert_eq!(node.record_store().own_vote_count, 0);
    assert!(!node.record_store().qc_ready);
}

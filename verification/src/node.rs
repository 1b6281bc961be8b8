//! The consensus engine: per-node state, the main tick, commit delivery,
//! epoch transitions, and the liveness watchdog.
use vstd::prelude::*;

use crate::base_types::Author;
use crate::base_types::Duration;
use crate::base_types::EpochId;
use crate::base_types::NodeTime;
use crate::base_types::Record;
use crate::base_types::Round;
use crate::base_types::State;
use crate::base_types::Timeout;
use crate::base_types::Vote;
use crate::base_types::time_add;
use crate::base_types::time_max;
use crate::pacemaker::PacemakerState;
use crate::pacemaker::PacemakerUpdateActions;
use crate::record_store::CommittedState;
use crate::record_store::RecordStoreState;
use crate::record_store::commits_after;
use crate::smr_context::DeliveredCommit;
use crate::smr_context::SMRContext;

verus! {

/// Actions the engine's driver must perform after one tick.
#[derive(Clone, Debug)]
pub struct NodeUpdateActions {
    /// Time at which to call `update_node` again, at the latest.
    pub next_scheduled_update: NodeTime,
    /// Whether to broadcast to all nodes.
    pub should_broadcast: bool,
    /// Whether to request full state from all nodes.
    pub should_query_all: bool,
    /// Nodes to send the latest records to.
    pub should_send: Vec<Author>,
}

impl NodeUpdateActions {
    pub fn new() -> (a: Self)
        ensures
            a.next_scheduled_update.0 == u64::MAX,
            !a.should_broadcast,
            !a.should_query_all,
            a.should_send@.len() == 0,
    {
        NodeUpdateActions {
            next_scheduled_update: NodeTime(u64::MAX),
            should_broadcast: false,
            should_query_all: false,
            should_send: Vec::new(),
        }
    }
}

/// Liveness watchdog: tracks the latest commit observed and decides when
/// the node has gone too long without progress and must query all peers.
#[derive(Clone, Copy, PartialEq, Eq, Structural, Debug)]
pub struct CommitTracker {
    /// Latest epoch identifier that was processed.
    pub epoch_id: EpochId,
    /// Round of the latest commit that was processed.
    pub highest_committed_round: Round,
    /// Time of the latest commit that was processed.
    pub latest_commit_time: NodeTime,
    /// Minimal interval between query-all actions when no commit happens.
    pub target_commit_interval: Duration,
}

/// Actions requested by one watchdog update.
#[derive(Clone, Copy, PartialEq, Eq, Structural, Debug)]
pub struct CommitTrackerUpdateActions {
    /// Time at which to call `update_node` again, at the latest.
    pub next_scheduled_update: NodeTime,
    /// Whether we need to query all other nodes.
    pub should_query_all: bool,
}

impl CommitTrackerUpdateActions {
    fn new() -> (a: Self)
        ensures
            a.next_scheduled_update.0 == u64::MAX,
            !a.should_query_all,
    {
        CommitTrackerUpdateActions {
            next_scheduled_update: NodeTime(u64::MAX),
            should_query_all: false,
        }
    }
}

/// The time after which the watchdog considers the node stalled: one
/// target interval after the later of the latest commit and the latest
/// query-all.
pub open spec fn watchdog_deadline(
    tracker: CommitTracker,
    latest_query_all_time: NodeTime,
) -> NodeTime {
    time_add(
        time_max(tracker.latest_commit_time, latest_query_all_time),
        tracker.target_commit_interval,
    )
}

impl CommitTracker {
    fn new(epoch_id: EpochId, node_time: NodeTime, target_commit_interval: Duration) -> (t: Self)
        ensures
            t == (CommitTracker {
                epoch_id,
                highest_committed_round: Round(0),
                latest_commit_time: node_time,
                target_commit_interval,
            }),
    {
        CommitTracker {
            epoch_id,
            highest_committed_round: Round(0),
            latest_commit_time: node_time,
            target_commit_interval,
        }
    }

    /// The tracked values after observing the current epoch and store: a
    /// newer epoch resets them, a newer committed round advances them,
    /// anything else leaves them unchanged.
    pub open spec fn observed(
        self,
        clock: NodeTime,
        current_epoch_id: EpochId,
        store_round: Round,
    ) -> CommitTracker {
        if current_epoch_id.0 > self.epoch_id.0 {
            CommitTracker {
                epoch_id: current_epoch_id,
                highest_committed_round: store_round,
                latest_commit_time: clock,
                target_commit_interval: self.target_commit_interval,
            }
        } else if store_round.0 > self.highest_committed_round.0 {
            CommitTracker {
                epoch_id: self.epoch_id,
                highest_committed_round: store_round,
                latest_commit_time: clock,
                target_commit_interval: self.target_commit_interval,
            }
        } else {
            self
        }
    }

    /// Update the tracked commit values and decide whether too much time
    /// passed since the latest commit or query-all action: the query-all
    /// fires exactly when the clock reaches one target interval past the
    /// later of the two, and the returned wake-up time is the deadline of
    /// the next check.
    pub fn update_tracker(
        &mut self,
        latest_query_all_time: NodeTime,
        clock: NodeTime,
        current_epoch_id: EpochId,
        current_record_store: &RecordStoreState,
    ) -> (actions: CommitTrackerUpdateActions)
        ensures
            *final(self) == old(self).observed(
                clock,
                current_epoch_id,
                current_record_store.highest_committed_round_spec(),
            ),
            actions.should_query_all == (clock.0 >= watchdog_deadline(
                *final(self),
                latest_query_all_time,
            ).0),
            actions.next_scheduled_update == (if actions.should_query_all {
                time_add(clock, final(self).target_commit_interval)
            } else {
                watchdog_deadline(*final(self), latest_query_all_time)
            }),
            actions.next_scheduled_update.0 >= clock.0,
    {
        let mut actions = CommitTrackerUpdateActions::new();
        if current_epoch_id.0 > self.epoch_id.0 {
            self.epoch_id = current_epoch_id;
            self.highest_committed_round = current_record_store.highest_committed_round();
            self.latest_commit_time = clock;
        } else {
            let highest_committed_round = current_record_store.highest_committed_round();
            if highest_committed_round.0 > self.highest_committed_round.0 {
                self.highest_committed_round = highest_committed_round;
                self.latest_commit_time = clock;
            }
        }
        let mut deadline = self.latest_commit_time.max(latest_query_all_time).saturating_add(
            self.target_commit_interval,
        );
        if clock.0 >= deadline.0 {
            actions.should_query_all = true;
            deadline = clock.saturating_add(self.target_commit_interval);
        }
        actions.next_scheduled_update = deadline;
        actions
    }
}

/// A record store retained after its epoch ended, keyed by that epoch.
#[derive(Clone, Debug)]
pub struct PastStoreEntry {
    pub epoch_id: EpochId,
    pub store: RecordStoreState,
}

/// Find the retained store of an epoch among the past entries.
pub open spec fn past_lookup(entries: Seq<PastStoreEntry>, epoch_id: EpochId) -> Option<
    RecordStoreState,
>
    decreases entries.len(),
{
    if entries.len() == 0 {
        None
    } else if entries.last().epoch_id == epoch_id {
        Some(entries.last().store)
    } else {
        past_lookup(entries.drop_last(), epoch_id)
    }
}

/// The votes created so far never exceed the latest voted round, are all
/// the node's own, and are cast at strictly increasing rounds.
pub open spec fn votes_wf(votes: Seq<Vote>, latest_voted_round: Round, author: Author) -> bool {
    &&& forall|i: int|
        0 <= i < votes.len() ==> votes[i].round.0 <= latest_voted_round.0 && votes[i].author
            == author
    &&& votes_distinct(votes)
}

/// Votes are cast at strictly increasing rounds, so no round is ever voted
/// twice.
pub open spec fn votes_distinct(votes: Seq<Vote>) -> bool {
    forall|i: int, j: int| 0 <= i < j < votes.len() ==> votes[i].round.0 < votes[j].round.0
}

/// The full local consensus state of one node.
#[derive(Clone, Debug)]
pub struct NodeState {
    /// Record store of the current epoch.
    pub record_store: RecordStoreState,
    /// Round and leader timing.
    pub pacemaker: PacemakerState,
    /// Current epoch.
    pub epoch_id: EpochId,
    /// Identity of this node.
    pub local_author: Author,
    /// Highest round this node voted or timed out at so far.
    pub latest_voted_round: Round,
    /// Highest round this node is safety-bound never to contradict.
    pub locked_round: Round,
    /// Time of the latest query-all action.
    pub latest_query_all_time: NodeTime,
    /// Liveness watchdog.
    pub tracker: CommitTracker,
    /// Record stores of past epochs, frozen, in epoch order.
    pub past_record_stores: Vec<PastStoreEntry>,
}

impl NodeState {
    /// Internal consistency of the node state.
    pub open spec fn wf(self) -> bool {
        &&& self.record_store.wf()
        &&& self.record_store.epoch_id == self.epoch_id
        &&& votes_wf(
            self.record_store.created_votes@,
            self.latest_voted_round,
            self.local_author,
        )
        &&& forall|i: int|
            0 <= i < self.past_record_stores@.len() ==> {
                let e = #[trigger] self.past_record_stores@[i];
                &&& e.store.wf()
                &&& e.store.epoch_id == e.epoch_id
                &&& e.epoch_id.0 < self.epoch_id.0
                &&& votes_distinct(e.store.created_votes@)
            }
        &&& forall|i: int, j: int|
            0 <= i < j < self.past_record_stores@.len()
                ==> self.past_record_stores@[i].epoch_id.0
                < self.past_record_stores@[j].epoch_id.0
    }

    /// The store serving the given epoch: the current one, or a retained
    /// past one.
    pub open spec fn store_at_spec(self, epoch_id: EpochId) -> Option<RecordStoreState> {
        if epoch_id == self.epoch_id {
            Some(self.record_store)
        } else {
            past_lookup(self.past_record_stores@, epoch_id)
        }
    }

    /// Construct the node for epoch 0 from an initial application state.
    pub fn new<C: SMRContext>(
        local_author: Author,
        initial_state: State,
        node_time: NodeTime,
        target_commit_interval: Duration,
        delta: Duration,
        smr_context: &C,
    ) -> (n: NodeState)
        ensures
            n.wf(),
            n.epoch_id == EpochId(0),
            n.local_author == local_author,
            n.latest_voted_round == Round(0),
            n.locked_round == Round(0),
            n.latest_query_all_time == node_time,
            n.tracker == (CommitTracker {
                epoch_id: EpochId(0),
                highest_committed_round: Round(0),
                latest_commit_time: node_time,
                target_commit_interval,
            }),
            n.pacemaker == (PacemakerState {
                epoch_id: EpochId(0),
                active_round: Round(1),
                delta,
                round_start_time: node_time,
                last_timeout_round: Round(0),
                last_proposal_round: Round(0),
            }),
            n.record_store.epoch_id == EpochId(0),
            n.record_store.initial_state == initial_state,
            n.record_store.initial_hash == EpochId(0).initial_hash_spec(),
            n.record_store.current_proposal is None,
            !n.record_store.qc_ready,
            n.record_store.committed@.len() == 0,
            n.record_store.created_votes@.len() == 0,
            n.past_record_stores@.len() == 0,
    {
        let epoch_id = EpochId(0);
        let tracker = CommitTracker::new(epoch_id, node_time, target_commit_interval);
        let configuration = smr_context.configuration(&initial_state);
        let record_store = RecordStoreState::new(
            epoch_id.initial_hash(),
            initial_state,
            epoch_id,
            configuration,
        );
        NodeState {
            record_store,
            pacemaker: PacemakerState::new(epoch_id, node_time, delta),
            epoch_id,
            local_author,
            latest_voted_round: Round(0),
            locked_round: Round(0),
            latest_query_all_time: node_time,
            tracker,
            past_record_stores: Vec::new(),
        }
    }

    pub fn epoch_id(&self) -> (e: EpochId)
        ensures
            e == self.epoch_id,
    {
        self.epoch_id
    }

    pub fn local_author(&self) -> (a: Author)
        ensures
            a == self.local_author,
    {
        self.local_author
    }

    pub fn record_store(&self) -> (s: &RecordStoreState)
        ensures
            s == self.record_store,
    {
        &self.record_store
    }

    pub fn pacemaker(&self) -> (p: &PacemakerState)
        ensures
            p == self.pacemaker,
    {
        &self.pacemaker
    }

    /// The round the pacemaker currently considers active.
    pub fn active_round(&self) -> (r: Round)
        ensures
            r == self.pacemaker.active_round,
    {
        self.pacemaker.active_round()
    }

    /// The store of the given epoch, if it is the current epoch or a
    /// retained past one.
    pub fn record_store_at(&self, epoch_id: EpochId) -> (r: Option<&RecordStoreState>)
        ensures
            match r {
                Some(s) => self.store_at_spec(epoch_id) == Some(*s),
                None => self.store_at_spec(epoch_id) is None,
            },
    {
        if epoch_id == self.epoch_id {
            return Some(&self.record_store);
        }
        let n = self.past_record_stores.len();
        let mut i: usize = n;
        proof {
            assert(self.past_record_stores@.take(n as int) =~= self.past_record_stores@);
        }
        while i > 0
            invariant
                0 <= i <= n,
                n == self.past_record_stores@.len(),
                epoch_id != self.epoch_id,
                past_lookup(self.past_record_stores@, epoch_id) == past_lookup(
                    self.past_record_stores@.take(i as int),
                    epoch_id,
                ),
            decreases i,
        {
            proof {
                assert(self.past_record_stores@.take(i as int).drop_last()
                    =~= self.past_record_stores@.take(i - 1));
                assert(self.past_record_stores@.take(i as int).last()
                    == self.past_record_stores@[i - 1]);
            }
            if self.past_record_stores[i - 1].epoch_id == epoch_id {
                return Some(&self.past_record_stores[i - 1].store);
            }
            i = i - 1;
        }
        proof {
            assert(self.past_record_stores@.take(0) =~= Seq::<PastStoreEntry>::empty());
        }
        None
    }

    /// Let the watchdog observe the current epoch and store, discarding
    /// the requested actions.
    pub fn update_tracker(&mut self, clock: NodeTime)
        requires
            old(self).wf(),
        ensures
            final(self).wf(),
            final(self).tracker == old(self).tracker.observed(
                clock,
                old(self).epoch_id,
                old(self).record_store.highest_committed_round_spec(),
            ),
            *final(self) == (NodeState { tracker: final(self).tracker, ..*old(self) }),
    {
        let _ = self.tracker.update_tracker(
            self.latest_query_all_time,
            clock,
            self.epoch_id,
            &self.record_store,
        );
    }

    /// Forward a record of the current epoch to the record store; records
    /// of other epochs are discarded without any state change. The state
    /// machine context is part of the interface (validation may execute
    /// commands); this store model does not consult it.
    pub fn insert_network_record<C: SMRContext>(
        &mut self,
        epoch_id: EpochId,
        record: Record,
        _smr_context: &mut C,
    )
        requires
            old(self).wf(),
        ensures
            final(self).wf(),
            *final(_smr_context) == *old(_smr_context),
            epoch_id != old(self).epoch_id ==> *final(self) == *old(self),
            epoch_id == old(self).epoch_id ==> RecordStoreState::insert_transition(
                old(self).record_store,
                final(self).record_store,
                record,
            ) && *final(self) == (NodeState {
                record_store: final(self).record_store,
                ..*old(self)
            }),
    {
        if epoch_id == self.epoch_id {
            self.record_store.insert_network_record(record);
        }
    }
}

/// How many of the pending commits one processing pass delivers: all of
/// them, unless one of them leaves the epoch, in which case delivery stops
/// right after it.
pub open spec fn delivery_len(pending: Seq<CommittedState>, epoch_id: EpochId) -> nat
    decreases pending.len(),
{
    if pending.len() == 0 {
        0
    } else if pending.first().state.epoch_id.0 > epoch_id.0 {
        1
    } else {
        1 + delivery_len(pending.drop_first(), epoch_id)
    }
}

/// Whether the delivered batch ends in an epoch transition.
pub open spec fn batch_transitions(pending: Seq<CommittedState>, epoch_id: EpochId) -> bool {
    let k = delivery_len(pending, epoch_id);
    k > 0 && pending[k - 1].state.epoch_id.0 > epoch_id.0
}

/// How a batch reaches the state machine: each state is delivered with the
/// store's commit certificate on the highest committed round and with none
/// elsewhere.
pub open spec fn delivered_view(batch: Seq<CommittedState>, store: RecordStoreState) -> Seq<
    DeliveredCommit,
> {
    batch.map_values(
        |c: CommittedState|
            DeliveredCommit {
                state: c.state,
                certificate: if c.round == store.highest_committed_round_spec() {
                    store.highest_commit_cert
                } else {
                    None
                },
            },
    )
}

/// While every commit before position `i` stays in the epoch, the batch
/// covers at least `i` commits; it ends exactly at `i + 1` when the commit
/// at `i` leaves the epoch, and at `i` when there is no commit at `i`.
proof fn lemma_delivery_len_split(pending: Seq<CommittedState>, epoch_id: EpochId, i: int)
    requires
        0 <= i <= pending.len(),
        forall|j: int| 0 <= j < i ==> pending[j].state.epoch_id.0 <= epoch_id.0,
    ensures
        delivery_len(pending, epoch_id) >= i,
        (i < pending.len() && pending[i].state.epoch_id.0 > epoch_id.0) ==> delivery_len(
            pending,
            epoch_id,
        ) == i + 1,
        i == pending.len() ==> delivery_len(pending, epoch_id) == i,
    decreases i,
{
    if i == 0 {
        if pending.len() > 0 {
            assert(pending[0] == pending.first());
        }
    } else {
        assert(pending[0].state.epoch_id.0 <= epoch_id.0);
        assert(pending.first() == pending[0]);
        let tail = pending.drop_first();
        assert(forall|j: int| 0 <= j < tail.len() ==> tail[j] == pending[j + 1]);
        lemma_delivery_len_split(tail, epoch_id, i - 1);
        if i < pending.len() && pending[i].state.epoch_id.0 > epoch_id.0 {
            assert(tail[i - 1] == pending[i]);
        }
    }
}

/// A chain whose rounds are all at or below the cursor has no pending
/// commits.
proof fn lemma_commits_after_bounded(s: Seq<CommittedState>, cursor: Round)
    requires
        forall|i: int| 0 <= i < s.len() ==> s[i].round.0 <= cursor.0,
    ensures
        commits_after(s, cursor).len() == 0,
    decreases s.len(),
{
    if s.len() > 0 {
        assert(forall|i: int| 0 <= i < s.drop_last().len() ==> s.drop_last()[i] == s[i]);
        lemma_commits_after_bounded(s.drop_last(), cursor);
    }
}

/// A pass never delivers more than what is pending.
proof fn lemma_delivery_len_bound(pending: Seq<CommittedState>, epoch_id: EpochId)
    ensures
        delivery_len(pending, epoch_id) <= pending.len(),
    decreases pending.len(),
{
    if pending.len() > 0 && !(pending.first().state.epoch_id.0 > epoch_id.0) {
        lemma_delivery_len_bound(pending.drop_first(), epoch_id);
    }
}

/// Every pending commit is past the cursor.
proof fn lemma_commits_after_rounds(s: Seq<CommittedState>, cursor: Round)
    ensures
        forall|i: int|
            0 <= i < commits_after(s, cursor).len() ==> #[trigger] commits_after(
                s,
                cursor,
            )[i].round.0 > cursor.0,
    decreases s.len(),
{
    if s.len() > 0 {
        lemma_commits_after_rounds(s.drop_last(), cursor);
        let rest = commits_after(s.drop_last(), cursor);
        if s.last().round.0 > cursor.0 {
            assert(commits_after(s, cursor) == rest.push(s.last()));
            assert forall|i: int|
                0 <= i < commits_after(s, cursor).len() implies #[trigger] commits_after(
                s,
                cursor,
            )[i].round.0 > cursor.0 by {
                if i < rest.len() {
                    assert(commits_after(s, cursor)[i] == rest[i]);
                } else {
                    assert(commits_after(s, cursor)[i] == s.last());
                }
            }
        }
    }
}

/// When the newest entry of the chain is past the cursor, it is also the
/// newest pending commit.
proof fn lemma_commits_after_last(s: Seq<CommittedState>, cursor: Round)
    requires
        s.len() > 0,
        s.last().round.0 > cursor.0,
    ensures
        commits_after(s, cursor).len() > 0,
        commits_after(s, cursor).last() == s.last(),
{
}

impl NodeState {
    /// Deliver every pending committed state to the state machine, in
    /// ascending round order, and transition to a new epoch as soon as a
    /// delivered state signals one: the old store is frozen and retained,
    /// a fresh store is built for the new epoch, the voting constraints
    /// reset to zero, and the remaining commits of the old epoch are not
    /// delivered. The certificate accompanies only the highest committed
    /// round; the tracker's cursor advances with each delivery so that a
    /// repeated pass delivers nothing anew.
    pub fn process_commits<C: SMRContext>(&mut self, smr_context: &mut C)
        requires
            old(self).wf(),
        ensures
            final(self).wf(),
            final(self).local_author == old(self).local_author,
            final(self).latest_query_all_time == old(self).latest_query_all_time,
            final(self).pacemaker == old(self).pacemaker,
            final(self).epoch_id.0 >= old(self).epoch_id.0,
            final(self).tracker.epoch_id == old(self).tracker.epoch_id,
            final(self).tracker.latest_commit_time == old(self).tracker.latest_commit_time,
            final(self).tracker.target_commit_interval == old(
                self,
            ).tracker.target_commit_interval,
            final(self).store_at_spec(old(self).epoch_id) == Some(old(self).record_store),
            ({
                let pending = commits_after(
                    old(self).record_store.committed@,
                    old(self).tracker.highest_committed_round,
                );
                let k = delivery_len(pending, old(self).epoch_id);
                &&& final(smr_context).delivered() == old(smr_context).delivered()
                    + delivered_view(pending.take(k as int), old(self).record_store)
                &&& final(self).tracker.highest_committed_round == (if k == 0 {
                    old(self).tracker.highest_committed_round
                } else {
                    pending[k - 1].round
                })
                &&& if batch_transitions(pending, old(self).epoch_id) {
                    &&& final(self).epoch_id == pending[k - 1].state.epoch_id
                    &&& final(self).latest_voted_round == Round(0)
                    &&& final(self).locked_round == Round(0)
                    &&& final(self).past_record_stores@ == old(self).past_record_stores@.push(
                        (PastStoreEntry {
                            epoch_id: old(self).epoch_id,
                            store: old(self).record_store,
                        }),
                    )
                    &&& final(self).record_store.epoch_id == pending[k - 1].state.epoch_id
                    &&& final(self).record_store.initial_state == pending[k - 1].state
                    &&& final(self).record_store.initial_hash == pending[
                        k - 1
                    ].state.epoch_id.initial_hash_spec()
                    &&& final(self).record_store.committed@.len() == 0
                    &&& final(self).record_store.created_votes@.len() == 0
                    &&& final(self).record_store.current_proposal is None
                    &&& !final(self).record_store.qc_ready
                } else {
                    &&& final(self).epoch_id == old(self).epoch_id
                    &&& final(self).record_store == old(self).record_store
                    &&& final(self).latest_voted_round == old(self).latest_voted_round
                    &&& final(self).locked_round == old(self).locked_round
                    &&& final(self).past_record_stores@ == old(self).past_record_stores@
                    &&& final(self).tracker.highest_committed_round.0 >= old(
                        self,
                    ).record_store.highest_committed_round_spec().0
                }
            }),
    {
        let cursor0 = self.tracker.highest_committed_round;
        let pending = self.record_store.committed_states_after(cursor0);
        let hcr = self.record_store.highest_committed_round();
        let cert = self.record_store.highest_commit_certificate();
        let ghost pending_s = pending@;
        let ghost e0 = self.epoch_id;
        let ghost store0 = self.record_store;
        let ghost k = delivery_len(pending_s, e0);
        let n = pending.len();
        let mut i: usize = 0;
        let mut transitioned = false;
        proof {
            assert(pending_s.take(0) =~= Seq::<CommittedState>::empty());
            assert(delivered_view(pending_s.take(0), store0) =~= Seq::<
                DeliveredCommit,
            >::empty());
            assert(smr_context.delivered() =~= old(smr_context).delivered() + delivered_view(
                pending_s.take(0),
                store0,
            ));
        }
        while i < n && !transitioned
            invariant
                0 <= i <= n,
                n == pending_s.len(),
                pending@ == pending_s,
                pending_s == commits_after(store0.committed@, cursor0),
                hcr == store0.highest_committed_round_spec(),
                cert == store0.highest_commit_cert,
                cursor0 == old(self).tracker.highest_committed_round,
                e0 == old(self).epoch_id,
                store0 == old(self).record_store,
                k == delivery_len(pending_s, e0),
                old(self).wf(),
                smr_context.delivered() == old(smr_context).delivered() + delivered_view(
                    pending_s.take(i as int),
                    store0,
                ),
                self.local_author == old(self).local_author,
                self.latest_query_all_time == old(self).latest_query_all_time,
                self.pacemaker == old(self).pacemaker,
                self.tracker.epoch_id == old(self).tracker.epoch_id,
                self.tracker.latest_commit_time == old(self).tracker.latest_commit_time,
                self.tracker.target_commit_interval == old(self).tracker.target_commit_interval,
                self.wf(),
                !transitioned ==> {
                    &&& forall|j: int| 0 <= j < i ==> pending_s[j].state.epoch_id.0 <= e0.0
                    &&& self.epoch_id == e0
                    &&& self.record_store == store0
                    &&& self.latest_voted_round == old(self).latest_voted_round
                    &&& self.locked_round == old(self).locked_round
                    &&& self.past_record_stores@ == old(self).past_record_stores@
                    &&& self.tracker.highest_committed_round == (if i == 0 {
                        cursor0
                    } else {
                        pending_s[i as int - 1].round
                    })
                },
                transitioned ==> {
                    &&& i == k
                    &&& 0 < i
                    &&& batch_transitions(pending_s, e0)
                    &&& self.epoch_id == pending_s[i as int - 1].state.epoch_id
                    &&& self.latest_voted_round == Round(0)
                    &&& self.locked_round == Round(0)
                    &&& self.past_record_stores@ == old(self).past_record_stores@.push(
                        (PastStoreEntry { epoch_id: e0, store: store0 }),
                    )
                    &&& self.record_store.epoch_id == pending_s[i as int - 1].state.epoch_id
                    &&& self.record_store.initial_state == pending_s[i as int - 1].state
                    &&& self.record_store.initial_hash == pending_s[
                        i as int - 1
                    ].state.epoch_id.initial_hash_spec()
                    &&& self.record_store.committed@.len() == 0
                    &&& self.record_store.created_votes@.len() == 0
                    &&& self.record_store.current_proposal is None
                    &&& !self.record_store.qc_ready
                    &&& self.epoch_id.0 > e0.0
                    &&& self.tracker.highest_committed_round == pending_s[i as int - 1].round
                },
            decreases n - i,
        {
            let c = pending[i];
            if c.round == hcr {
                smr_context.commit(&c.state, cert);
            } else {
                smr_context.commit(&c.state, None);
            }
            proof {
                assert(pending_s.take(i + 1) =~= pending_s.take(i as int).push(
                    pending_s[i as int],
                ));
                assert(delivered_view(pending_s.take(i + 1), store0) =~= delivered_view(
                    pending_s.take(i as int),
                    store0,
                ).push(
                    (DeliveredCommit {
                        state: c.state,
                        certificate: if c.round == store0.highest_committed_round_spec() {
                            store0.highest_commit_cert
                        } else {
                            None
                        },
                    }),
                ));
            }
            self.tracker.highest_committed_round = c.round;
            let new_epoch_id = smr_context.read_epoch_id(&c.state);
            if new_epoch_id.0 > self.epoch_id.0 {
                proof {
                    lemma_delivery_len_split(pending_s, e0, i as int);
                }
                let configuration = smr_context.configuration(&c.state);
                let mut frozen = RecordStoreState::new(
                    new_epoch_id.initial_hash(),
                    c.state,
                    new_epoch_id,
                    configuration,
                );
                core::mem::swap(&mut self.record_store, &mut frozen);
                let old_epoch_id = self.epoch_id;
                self.past_record_stores.push(PastStoreEntry { epoch_id: old_epoch_id, store: frozen });
                self.epoch_id = new_epoch_id;
                self.latest_voted_round = Round(0);
                self.locked_round = Round(0);
                transitioned = true;
                proof {
                    let entries = self.past_record_stores@;
                    assert forall|a: int| 0 <= a < entries.len() implies {
                        let e = #[trigger] entries[a];
                        &&& e.store.wf()
                        &&& e.store.epoch_id == e.epoch_id
                        &&& e.epoch_id.0 < self.epoch_id.0
                        &&& votes_distinct(e.store.created_votes@)
                    } by {
                        if a < entries.len() - 1 {
                            assert(entries[a] == old(self).past_record_stores@[a]);
                        } else {
                            assert(entries[a] == (PastStoreEntry { epoch_id: e0, store: store0 }));
                        }
                    }
                    assert(self.wf());
                }
            } else {
                proof {
                    assert(c.state.epoch_id.0 <= e0.0);
                }
            }
            i = i + 1;
        }
        proof {
            if !transitioned {
                lemma_delivery_len_split(pending_s, e0, n as int);
                assert(k == n);
                assert(pending_s.take(k as int) =~= pending_s);
                if n == 0 {
                    if store0.highest_committed_round_spec().0 > cursor0.0 {
                        lemma_commits_after_last(store0.committed@, cursor0);
                        assert(false);
                    }
                } else {
                    if store0.highest_committed_round_spec().0 <= cursor0.0 {
                        assert forall|j: int|
                            0 <= j < store0.committed@.len() implies store0.committed@[j].round.0
                            <= cursor0.0 by {
                            if j < store0.committed@.len() - 1 {
                                let last = store0.committed@.len() - 1;
                                assert(store0.committed@[j].round.0
                                    < store0.committed@[last].round.0);
                            }
                        }
                        lemma_commits_after_bounded(store0.committed@, cursor0);
                        assert(false);
                    }
                    lemma_commits_after_last(store0.committed@, cursor0);
                    assert(pending_s[k as int - 1] == pending_s.last());
                    assert(pending_s.last() == store0.committed@.last());
                }
            } else {
                assert(pending_s.take(k as int) =~= pending_s.take(k as int));
                assert(past_lookup(self.past_record_stores@, e0) == Some(store0));
            }
        }
    }

    /// Apply the side effects the pacemaker requested — creating a timeout
    /// (which also forecloses voting at or below its round) and proposing a
    /// block — and start the tick's action bundle from the pacemaker's.
    fn process_pacemaker_actions<C: SMRContext>(
        &mut self,
        pacemaker_actions: PacemakerUpdateActions,
        _clock: NodeTime,
        _smr_context: &mut C,
    ) -> (actions: NodeUpdateActions)
        requires
            old(self).wf(),
        ensures
            final(self).wf(),
            *final(_smr_context) == *old(_smr_context),
            actions.next_scheduled_update == pacemaker_actions.next_scheduled_update,
            actions.should_broadcast == pacemaker_actions.should_broadcast,
            actions.should_query_all == pacemaker_actions.should_query_all,
            actions.should_send@ == pacemaker_actions.should_send@,
            final(self).epoch_id == old(self).epoch_id,
            final(self).local_author == old(self).local_author,
            final(self).locked_round == old(self).locked_round,
            final(self).latest_query_all_time == old(self).latest_query_all_time,
            final(self).tracker == old(self).tracker,
            final(self).pacemaker == old(self).pacemaker,
            final(self).past_record_stores@ == old(self).past_record_stores@,
            final(self).latest_voted_round.0 == (match pacemaker_actions.should_create_timeout {
                Some(r) => if r.0 > old(self).latest_voted_round.0 {
                    r.0
                } else {
                    old(self).latest_voted_round.0
                },
                None => old(self).latest_voted_round.0,
            }),
            final(self).record_store.epoch_id == old(self).record_store.epoch_id,
            final(self).record_store.initial_hash == old(self).record_store.initial_hash,
            final(self).record_store.initial_state == old(self).record_store.initial_state,
            final(self).record_store.configuration == old(self).record_store.configuration,
            final(self).record_store.created_votes@ == old(self).record_store.created_votes@,
            final(self).record_store.timeouts@ == (match pacemaker_actions.should_create_timeout {
                Some(r) => old(self).record_store.timeouts@.push(
                    (Timeout { round: r, author: old(self).local_author }),
                ),
                None => old(self).record_store.timeouts@,
            }),
            final(self).record_store.committed@ == old(self).record_store.committed@,
            final(self).record_store.qc_ready == old(self).record_store.qc_ready,
            final(self).record_store.highest_qc == old(self).record_store.highest_qc,
            final(self).record_store.highest_commit_cert == old(
                self,
            ).record_store.highest_commit_cert,
            pacemaker_actions.should_propose_block is None ==> final(self).record_store.current_proposal
                == old(self).record_store.current_proposal && final(self).record_store.own_proposal
                == old(self).record_store.own_proposal && final(self).record_store.own_vote_count
                == old(self).record_store.own_vote_count,
            pacemaker_actions.should_propose_block is Some
                ==> final(self).record_store.current_proposal == Some(
                old(self).record_store.own_proposal_spec(old(self).local_author),
            ) && final(self).record_store.own_proposal == Some(
                old(self).record_store.own_proposal_spec(old(self).local_author),
            ) && final(self).record_store.own_vote_count == 0,
    {
        let should_create_timeout = pacemaker_actions.should_create_timeout;
        let should_propose_block = pacemaker_actions.should_propose_block;
        let mut actions = NodeUpdateActions::new();
        actions.next_scheduled_update = pacemaker_actions.next_scheduled_update;
        actions.should_broadcast = pacemaker_actions.should_broadcast;
        actions.should_query_all = pacemaker_actions.should_query_all;
        actions.should_send = pacemaker_actions.should_send;
        if let Some(round) = should_create_timeout {
            self.record_store.create_timeout(self.local_author, round);
            // Prevent voting at a round for which we have created a timeout
            // already.
            self.latest_voted_round.max_update(round);
        }
        if let Some(previous_qc_hash) = should_propose_block {
            self.record_store.propose_block(self.local_author, previous_qc_hash);
        }
        actions
    }

    /// One tick of the consensus engine: advance the pacemaker and apply
    /// its actions, vote on the designated proposal when both safety rules
    /// allow it, broadcast a newly formed quorum certificate and schedule
    /// an immediate re-tick, deliver pending commits (possibly entering a
    /// new epoch) while stamping the watchdog's commit time so commit
    /// activity defers the query-all deadline, and let the liveness
    /// watchdog decide whether to query all peers.
    #[verifier::rlimit(100)]
    pub fn update_node<C: SMRContext>(&mut self, clock: NodeTime, smr_context: &mut C) -> (actions:
        NodeUpdateActions)
        requires
            old(self).wf(),
        ensures
            final(self).wf(),
            final(self).local_author == old(self).local_author,
            final(self).epoch_id.0 >= old(self).epoch_id.0,
            final(self).epoch_id == old(self).epoch_id ==> final(self).latest_voted_round.0 >= old(
                self,
            ).latest_voted_round.0 && final(self).locked_round.0 >= old(self).locked_round.0,
            final(self).epoch_id != old(self).epoch_id ==> final(self).latest_voted_round == Round(
                0,
            ) && final(self).locked_round == Round(0),
            final(self).store_at_spec(old(self).epoch_id) is Some,
            ({
                // The whole tick, pinned over the entry state: phase 1
                // recomputes the active round and may time out the round
                // or replace the designated proposal by the node's own;
                // phase 2 votes if and only if the designated proposal is
                // at the active round and both safety rules allow it;
                // phase 3 consumes a pending quorum; phase 4 delivers the
                // pending commits and enters a new epoch when one of them
                // leaves the current one; phase 5 merges the watchdog's
                // verdict.
                let adv = old(self).pacemaker.advanced(
                    old(self).epoch_id,
                    old(self).record_store.highest_qc_round_spec(),
                    clock,
                );
                let timeout = PacemakerState::timeout_due(adv, clock);
                let propose = PacemakerState::propose_due(
                    adv,
                    old(self).record_store.configuration,
                    old(self).local_author,
                );
                let latest1 = if timeout && adv.active_round.0 > old(
                    self,
                ).latest_voted_round.0 {
                    adv.active_round.0
                } else {
                    old(self).latest_voted_round.0
                };
                let proposal2 = if propose {
                    Some(old(self).record_store.own_proposal_spec(old(self).local_author))
                } else {
                    old(self).record_store.current_proposal
                };
                let own2 = if propose {
                    proposal2
                } else {
                    old(self).record_store.own_proposal
                };
                let count2 = if propose {
                    0u64
                } else {
                    old(self).record_store.own_vote_count
                };
                let votes_cast = proposal2 is Some && {
                    let p = proposal2.unwrap();
                    &&& p.round == adv.active_round
                    &&& p.round.0 > latest1
                    &&& p.previous_round.0 >= old(self).locked_round.0
                };
                let own_vote = votes_cast && own2 is Some && own2.unwrap().hash
                    == proposal2.unwrap().hash;
                let own_hit = own_vote && RecordStoreState::vote_count_after(count2)
                    >= old(self).record_store.configuration.quorum_threshold_spec();
                let qc_formed = old(self).record_store.qc_ready || own_hit;
                let pending = commits_after(
                    old(self).record_store.committed@,
                    old(self).tracker.highest_committed_round,
                );
                let k = delivery_len(pending, old(self).epoch_id);
                let transitioned = batch_transitions(pending, old(self).epoch_id);
                let s2 = final(self).store_at_spec(old(self).epoch_id).unwrap();
                let votes0 = old(self).record_store.created_votes@;
                // The store that served the entry epoch, after the tick
                // (still current, or frozen on an epoch transition).
                &&& s2.epoch_id == old(self).epoch_id
                &&& s2.initial_hash == old(self).record_store.initial_hash
                &&& s2.initial_state == old(self).record_store.initial_state
                &&& s2.configuration == old(self).record_store.configuration
                &&& s2.committed@ == old(self).record_store.committed@
                &&& s2.highest_qc == old(self).record_store.highest_qc
                &&& s2.highest_commit_cert == old(self).record_store.highest_commit_cert
                &&& s2.current_proposal == proposal2
                &&& s2.own_proposal == own2
                &&& s2.own_vote_count == (if own_vote {
                    RecordStoreState::vote_count_after(count2)
                } else {
                    count2
                })
                &&& !s2.qc_ready
                &&& s2.timeouts@ == (if timeout {
                    old(self).record_store.timeouts@.push(
                        (Timeout { round: adv.active_round, author: old(self).local_author }),
                    )
                } else {
                    old(self).record_store.timeouts@
                })
                &&& s2.created_votes@ == (if votes_cast {
                    votes0.push(
                        (Vote {
                            hash: proposal2.unwrap().hash,
                            round: proposal2.unwrap().round,
                            author: old(self).local_author,
                        }),
                    )
                } else {
                    votes0
                })
                // Every vote cast this tick is above the entry voted
                // round: no round is ever replayed.
                &&& forall|i: int|
                    votes0.len() <= i < s2.created_votes@.len() ==> s2.created_votes@[i].round.0
                        > old(self).latest_voted_round.0 && s2.created_votes@[i].author == old(
                        self,
                    ).local_author
                // No vote for a proposal whose parent contradicts the lock.
                &&& (match old(self).record_store.current_proposal {
                    Some(p) => (p.previous_round.0 < old(self).locked_round.0
                        && s2.current_proposal == Some(p)) ==> s2.created_votes@.len()
                        == votes0.len(),
                    None => true,
                })
                // The vote goes directly to the proposer of the voted
                // block, and to nobody otherwise.
                &&& (votes_cast ==> actions.should_send@ == seq![proposal2.unwrap().proposer])
                &&& (!votes_cast ==> actions.should_send@.len() == 0)
                // Voted-round and lock updates of the entry epoch.
                &&& (votes_cast && !transitioned ==> {
                    let p = proposal2.unwrap();
                    &&& final(self).latest_voted_round == p.round
                    &&& final(self).locked_round.0 == (if p.second_previous_round.0 > old(
                        self,
                    ).locked_round.0 {
                        p.second_previous_round.0
                    } else {
                        old(self).locked_round.0
                    })
                })
                &&& (!votes_cast && !transitioned ==> final(self).latest_voted_round.0 == latest1
                    && final(self).locked_round == old(self).locked_round)
                // The epoch changes exactly when a delivered commit
                // leaves it.
                &&& (final(self).epoch_id == old(self).epoch_id <==> !transitioned)
                &&& (transitioned ==> final(self).epoch_id == pending[k - 1].state.epoch_id)
                &&& (!transitioned ==> final(self).record_store == s2)
                // The pacemaker after the tick.
                &&& final(self).pacemaker == (PacemakerState {
                    last_timeout_round: if timeout {
                        adv.active_round
                    } else {
                        adv.last_timeout_round
                    },
                    last_proposal_round: if propose {
                        adv.active_round
                    } else {
                        adv.last_proposal_round
                    },
                    ..adv
                })
                // The watchdog after the tick: the delivery cursor moves
                // over the batch, delivered commits stamp the commit time,
                // and the tracker then observes the final epoch and store.
                &&& final(self).tracker == (CommitTracker {
                    epoch_id: old(self).tracker.epoch_id,
                    highest_committed_round: if k == 0 {
                        old(self).tracker.highest_committed_round
                    } else {
                        pending[k - 1].round
                    },
                    latest_commit_time: if k == 0 {
                        old(self).tracker.latest_commit_time
                    } else {
                        clock
                    },
                    target_commit_interval: old(self).tracker.target_commit_interval,
                }).observed(
                    clock,
                    final(self).epoch_id,
                    final(self).record_store.highest_committed_round_spec(),
                )
                // A quorum in hand — pending at entry, or completed by
                // this tick's own vote — broadcasts and forces an
                // immediate re-tick.
                &&& actions.should_broadcast == (timeout || propose || qc_formed)
                &&& (qc_formed ==> actions.next_scheduled_update == clock)
                // The query-all verdict is the watchdog's, and the next
                // wake time is the earlier of the pacemaker's and the
                // watchdog's.
                &&& ({
                    let wd = watchdog_deadline(
                        final(self).tracker,
                        old(self).latest_query_all_time,
                    );
                    let tracker_fire = clock.0 >= wd.0;
                    let pm_next = if qc_formed {
                        clock
                    } else {
                        time_add(clock, old(self).pacemaker.delta)
                    };
                    let tracker_next = if tracker_fire {
                        time_add(clock, old(self).tracker.target_commit_interval)
                    } else {
                        wd
                    };
                    &&& actions.should_query_all == tracker_fire
                    &&& actions.next_scheduled_update.0 == (if pm_next.0 <= tracker_next.0 {
                        pm_next.0
                    } else {
                        tracker_next.0
                    })
                })
            }),
            old(self).record_store.qc_ready ==> actions.should_broadcast
                && actions.next_scheduled_update == clock,
            actions.next_scheduled_update.0 >= clock.0,
            actions.should_query_all ==> final(self).latest_query_all_time == clock,
            !actions.should_query_all ==> final(self).latest_query_all_time == old(
                self,
            ).latest_query_all_time,
            ({
                let pending = commits_after(
                    old(self).record_store.committed@,
                    old(self).tracker.highest_committed_round,
                );
                let k = delivery_len(pending, old(self).epoch_id);
                final(smr_context).delivered() == old(smr_context).delivered() + delivered_view(
                    pending.take(k as int),
                    old(self).record_store,
                )
            }),
    {
        let ghost node0 = *old(self);
        // Update pacemaker state and process pacemaker actions (e.g.,
        // creating a timeout, proposing a block).
        let pacemaker_actions = self.pacemaker.update_pacemaker(
            self.local_author,
            self.epoch_id,
            &self.record_store,
            self.latest_query_all_time,
            clock,
        );
        let mut actions = self.process_pacemaker_actions(pacemaker_actions, clock, smr_context);
        let ghost node1 = *self;
        // Vote on a valid proposal block designated by the pacemaker, if any.
        if let Some((block_hash, block_round, proposer)) = self.record_store.proposed_block(
            &self.pacemaker,
        ) {
            // Enforce voting constraints.
            if block_round.0 > self.latest_voted_round.0 && self.record_store.previous_round(
                block_hash,
            ).0 >= self.locked_round.0 {
                // Update the latest voted round.
                self.latest_voted_round = block_round;
                // Update the locked round.
                let second_previous = self.record_store.second_previous_round(block_hash);
                if second_previous.0 > self.locked_round.0 {
                    self.locked_round = second_previous;
                }
                // Create a vote for the proposal.
                if self.record_store.create_vote(self.local_author, block_hash) {
                    // Ask to notify and send our vote to the author of the
                    // block.
                    let mut recipients: Vec<Author> = Vec::new();
                    recipients.push(proposer);
                    actions.should_send = recipients;
                }
            }
        }
        let ghost node2 = *self;
        proof {
            assert(votes_wf(
                self.record_store.created_votes@,
                self.latest_voted_round,
                self.local_author,
            ));
            assert(self.wf());
        }
        // Check if our last proposal has reached a quorum of votes and
        // create a QC.
        if self.record_store.check_for_new_quorum_certificate(self.local_author) {
            // Broadcast the QC to finish our work as a leader.
            actions.should_broadcast = true;
            // Schedule a new run now to process the new QC.
            actions.next_scheduled_update = clock;
        }
        let ghost node3 = *self;
        // Check for new commits and verify if we should start a new epoch.
        let cursor_before = self.tracker.highest_committed_round;
        self.process_commits(smr_context);
        // Delivered commits are commit activity: stamp the watchdog's
        // commit time so that steady commits defer the query-all deadline.
        if self.tracker.highest_committed_round.0 > cursor_before.0 {
            self.tracker.latest_commit_time = clock;
        }
        proof {
            lemma_commits_after_rounds(
                node0.record_store.committed@,
                node0.tracker.highest_committed_round,
            );
            let pending = commits_after(
                node0.record_store.committed@,
                node0.tracker.highest_committed_round,
            );
            let k = delivery_len(pending, node0.epoch_id);
            lemma_delivery_len_bound(pending, node0.epoch_id);
            if k > 0 {
                assert(pending[k as int - 1].round.0
                    > node0.tracker.highest_committed_round.0);
            }
            assert(self.tracker == (CommitTracker {
                epoch_id: node0.tracker.epoch_id,
                highest_committed_round: if k == 0 {
                    node0.tracker.highest_committed_round
                } else {
                    pending[k as int - 1].round
                },
                latest_commit_time: if k == 0 {
                    node0.tracker.latest_commit_time
                } else {
                    clock
                },
                target_commit_interval: node0.tracker.target_commit_interval,
            }));
        }
        let ghost node4 = *self;
        // Update the commit tracker and ask that we query all nodes if
        // needed.
        let tracker_actions = self.tracker.update_tracker(
            self.latest_query_all_time,
            clock,
            self.epoch_id,
            &self.record_store,
        );
        actions.should_query_all = actions.should_query_all || tracker_actions.should_query_all;
        actions.next_scheduled_update = actions.next_scheduled_update.min(
            tracker_actions.next_scheduled_update,
        );
        // Update the time of the latest query-all action.
        if actions.should_query_all {
            self.latest_query_all_time = clock;
        }
        proof {
            assert(self.store_at_spec(node0.epoch_id) == node4.store_at_spec(node0.epoch_id));
            assert(node4.store_at_spec(node0.epoch_id) == Some(node3.record_store));
            assert(node3.record_store.created_votes@ == node2.record_store.created_votes@);
            assert(node3.record_store.current_proposal == node2.record_store.current_proposal);
            assert(node2.record_store.current_proposal == node1.record_store.current_proposal);
            // Phases before commit processing leave the committed chain,
            // the cursor, and the certificate alone, so the delivered
            // batch is the one determined by the tick's starting state.
            let pending = commits_after(
                node0.record_store.committed@,
                node0.tracker.highest_committed_round,
            );
            let k = delivery_len(pending, node0.epoch_id);
            let b = pending.take(k as int);
            assert(node3.record_store.committed@ == node0.record_store.committed@);
            assert(node3.record_store.highest_committed_round_spec()
                == node0.record_store.highest_committed_round_spec());
            assert forall|a: int| 0 <= a < b.len() implies delivered_view(b, node3.record_store)[a]
                == delivered_view(b, node0.record_store)[a] by {}
            assert(delivered_view(b, node3.record_store) =~= delivered_view(
                b,
                node0.record_store,
            ));
        }
        // Return desired actions to main handler.
        actions
    }
}

/// Vote-uniqueness law: a well-formed node never holds two votes at the
/// same round in its current store, so no round is ever voted twice.
pub proof fn lemma_no_double_vote(n: NodeState, i: int, j: int)
    requires
        n.wf(),
        0 <= i < j < n.record_store.created_votes@.len(),
    ensures
        n.record_store.created_votes@[i].round != n.record_store.created_votes@[j].round,
{
    assert(n.record_store.created_votes@[i].round.0 < n.record_store.created_votes@[j].round.0);
}

/// Liveness watchdog law: while the epoch is unchanged and no new commit
/// is observed, one watchdog update leaves the tracked values alone and
/// signals a query-all exactly when the clock has reached one target
/// interval past the latest query-all (assuming the query-all is no older
/// than the latest commit).
pub proof fn lemma_liveness_watchdog(
    tracker: CommitTracker,
    latest_query_all_time: NodeTime,
    clock: NodeTime,
    current_epoch_id: EpochId,
    store_round: Round,
)
    requires
        current_epoch_id.0 <= tracker.epoch_id.0,
        store_round.0 <= tracker.highest_committed_round.0,
        tracker.latest_commit_time.0 <= latest_query_all_time.0,
    ensures
        tracker.observed(clock, current_epoch_id, store_round) == tracker,
        clock.0 >= watchdog_deadline(
            tracker.observed(clock, current_epoch_id, store_round),
            latest_query_all_time,
        ).0 <==> clock.0 >= time_add(
            latest_query_all_time,
            tracker.target_commit_interval,
        ).0,
{
}

/// Re-delivery guard law: once the tracker's cursor has caught up with the
/// store's highest committed round — as it has after any commit-processing
/// pass — no commit is pending, so an immediately repeated pass delivers
/// nothing further to the state machine.
pub proof fn lemma_no_redelivery(n: NodeState)
    requires
        n.wf(),
        n.tracker.highest_committed_round.0 >= n.record_store.highest_committed_round_spec().0,
    ensures
        commits_after(n.record_store.committed@, n.tracker.highest_committed_round).len() == 0,
        delivery_len(
            commits_after(n.record_store.committed@, n.tracker.highest_committed_round),
            n.epoch_id,
        ) == 0,
{
    let s = n.record_store.committed@;
    let cursor = n.tracker.highest_committed_round;
    assert forall|i: int| 0 <= i < s.len() implies s[i].round.0 <= cursor.0 by {
        if i < s.len() - 1 {
            let last = s.len() - 1;
            assert(s[i].round.0 < s[last].round.0);
        }
    }
    lemma_commits_after_bounded(s, cursor);
}

} // verus!

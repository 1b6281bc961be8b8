//! Pacemaker: computes the active round and the leader-driven timing
//! actions (timeouts, proposals). The engine only relies on the interface
//! contracts; the round-advancement model is deliberately simple: the
//! active round follows the highest quorum certificate, a stalled round
//! times out once after a fixed delay, and the designated leader of the
//! active round proposes once.
use vstd::prelude::*;

use crate::base_types::Author;
use crate::base_types::Configuration;
use crate::base_types::Duration;
use crate::base_types::EpochId;
use crate::base_types::NodeTime;
use crate::base_types::QuorumCertificateHash;
use crate::base_types::Round;
use crate::base_types::time_add;
use crate::record_store::RecordStoreState;

verus! {

/// Timing and leadership state of one node.
#[derive(Clone, Copy, PartialEq, Eq, Structural, Debug)]
pub struct PacemakerState {
    /// Epoch the pacemaker last observed.
    pub epoch_id: EpochId,
    /// The round currently considered active.
    pub active_round: Round,
    /// Delay after which a stalled active round times out; also the
    /// pacemaker's own re-tick interval.
    pub delta: Duration,
    /// When the active round became active.
    pub round_start_time: NodeTime,
    /// Highest round for which a timeout was already requested.
    pub last_timeout_round: Round,
    /// Highest round for which a proposal was already requested.
    pub last_proposal_round: Round,
}

/// Actions requested by one pacemaker update.
#[derive(Clone, Debug)]
pub struct PacemakerUpdateActions {
    /// Time at which to update the pacemaker again, at the latest.
    pub next_scheduled_update: NodeTime,
    /// Ask the record store to create a timeout at this round.
    pub should_create_timeout: Option<Round>,
    /// Ask the record store to propose a block extending this certificate.
    pub should_propose_block: Option<QuorumCertificateHash>,
    /// Whether to broadcast to all nodes.
    pub should_broadcast: bool,
    /// Nodes to send the latest records to.
    pub should_send: Vec<Author>,
    /// Whether to request full state from all nodes.
    pub should_query_all: bool,
}

impl PacemakerUpdateActions {
    pub fn new() -> (a: Self)
        ensures
            a.next_scheduled_update.0 == u64::MAX,
            a.should_create_timeout is None,
            a.should_propose_block is None,
            !a.should_broadcast,
            a.should_send@.len() == 0,
            !a.should_query_all,
    {
        PacemakerUpdateActions {
            next_scheduled_update: NodeTime(u64::MAX),
            should_create_timeout: None,
            should_propose_block: None,
            should_broadcast: false,
            should_send: Vec::new(),
            should_query_all: false,
        }
    }
}

impl PacemakerState {
    /// A fresh pacemaker, considering round 1 of the epoch active.
    pub fn new(epoch_id: EpochId, node_time: NodeTime, delta: Duration) -> (p: Self)
        ensures
            p == (PacemakerState {
                epoch_id,
                active_round: Round(1),
                delta,
                round_start_time: node_time,
                last_timeout_round: Round(0),
                last_proposal_round: Round(0),
            }),
    {
        PacemakerState {
            epoch_id,
            active_round: Round(1),
            delta,
            round_start_time: node_time,
            last_timeout_round: Round(0),
            last_proposal_round: Round(0),
        }
    }

    pub fn active_round(&self) -> (r: Round)
        ensures
            r == self.active_round,
    {
        self.active_round
    }

    /// The round that becomes active given the epoch observed and the
    /// highest certified round of the store: rounds past the highest
    /// certificate, restarting at 1 in a new epoch.
    pub open spec fn next_active_round(
        self,
        epoch_id: EpochId,
        highest_qc_round: Round,
    ) -> u64 {
        let base: u64 = if epoch_id.0 > self.epoch_id.0 {
            1
        } else {
            self.active_round.0
        };
        let certified: u64 = if highest_qc_round.0 < u64::MAX {
            (highest_qc_round.0 + 1) as u64
        } else {
            highest_qc_round.0
        };
        if certified > base {
            certified
        } else {
            base
        }
    }

    /// The pacemaker state after observing the epoch, the highest
    /// certified round, and the clock, before any action is requested.
    pub open spec fn advanced(
        self,
        epoch_id: EpochId,
        highest_qc_round: Round,
        clock: NodeTime,
    ) -> PacemakerState {
        let entered = if epoch_id.0 > self.epoch_id.0 {
            PacemakerState {
                epoch_id,
                active_round: Round(1),
                delta: self.delta,
                round_start_time: clock,
                last_timeout_round: Round(0),
                last_proposal_round: Round(0),
            }
        } else {
            self
        };
        let certified: u64 = if highest_qc_round.0 < u64::MAX {
            (highest_qc_round.0 + 1) as u64
        } else {
            highest_qc_round.0
        };
        if certified > entered.active_round.0 {
            PacemakerState {
                active_round: Round(certified),
                round_start_time: clock,
                ..entered
            }
        } else {
            entered
        }
    }

    /// Whether the active round has stalled long enough to time out, and
    /// was not timed out already.
    pub open spec fn timeout_due(adv: PacemakerState, clock: NodeTime) -> bool {
        clock.0 >= time_add(adv.round_start_time, adv.delta).0 && adv.last_timeout_round.0
            < adv.active_round.0
    }

    /// Whether this node leads the active round and has not proposed for
    /// it yet.
    pub open spec fn propose_due(
        adv: PacemakerState,
        configuration: Configuration,
        local_author: Author,
    ) -> bool {
        configuration.leader_spec(adv.active_round) == local_author && adv.last_proposal_round.0
            < adv.active_round.0
    }

    /// Recompute the active round from the current time and store, and
    /// request the timing actions that are due.
    pub fn update_pacemaker(
        &mut self,
        local_author: Author,
        epoch_id: EpochId,
        record_store: &RecordStoreState,
        _latest_query_all_time: NodeTime,
        clock: NodeTime,
    ) -> (actions: PacemakerUpdateActions)
        requires
            record_store.wf(),
        ensures
            final(self).active_round.0 == old(self).next_active_round(
                epoch_id,
                record_store.highest_qc_round_spec(),
            ),
            !actions.should_query_all,
            actions.should_send@.len() == 0,
            actions.next_scheduled_update == time_add(clock, old(self).delta),
            ({
                let adv = old(self).advanced(
                    epoch_id,
                    record_store.highest_qc_round_spec(),
                    clock,
                );
                let timeout = Self::timeout_due(adv, clock);
                let propose = Self::propose_due(
                    adv,
                    record_store.configuration,
                    local_author,
                );
                &&& final(self).epoch_id == adv.epoch_id
                &&& final(self).active_round == adv.active_round
                &&& final(self).delta == adv.delta
                &&& final(self).round_start_time == adv.round_start_time
                &&& final(self).last_timeout_round == (if timeout {
                    adv.active_round
                } else {
                    adv.last_timeout_round
                })
                &&& final(self).last_proposal_round == (if propose {
                    adv.active_round
                } else {
                    adv.last_proposal_round
                })
                &&& actions.should_create_timeout == (if timeout {
                    Some(adv.active_round)
                } else {
                    None::<Round>
                })
                &&& actions.should_propose_block == (if propose {
                    Some(record_store.hash_to_extend_spec())
                } else {
                    None::<QuorumCertificateHash>
                })
                &&& actions.should_broadcast == (timeout || propose)
            }),
    {
        if epoch_id.0 > self.epoch_id.0 {
            self.epoch_id = epoch_id;
            self.active_round = Round(1);
            self.round_start_time = clock;
            self.last_timeout_round = Round(0);
            self.last_proposal_round = Round(0);
        }
        let hqr: u64 = match &record_store.highest_qc {
            Some(qc) => qc.round.0,
            None => 0,
        };
        let certified: u64 = if hqr < u64::MAX {
            hqr + 1
        } else {
            hqr
        };
        if certified > self.active_round.0 {
            self.active_round = Round(certified);
            self.round_start_time = clock;
        }
        let mut actions = PacemakerUpdateActions::new();
        actions.next_scheduled_update = clock.saturating_add(self.delta);
        let round_deadline = self.round_start_time.saturating_add(self.delta);
        if clock.0 >= round_deadline.0 && self.last_timeout_round.0 < self.active_round.0 {
            self.last_timeout_round = self.active_round;
            actions.should_create_timeout = Some(self.active_round);
            actions.should_broadcast = true;
        }
        let leader = record_store.configuration.leader(self.active_round);
        if leader == local_author && self.last_proposal_round.0 < self.active_round.0 {
            self.last_proposal_round = self.active_round;
            actions.should_propose_block = Some(record_store.hash_to_extend());
            actions.should_broadcast = true;
        }
        actions
    }
}

} // verus!

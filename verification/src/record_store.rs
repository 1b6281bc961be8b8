//! Record store for one epoch: validates and aggregates inbound records,
//! tracks the designated proposal, the node's own proposal and its votes,
//! quorum formation, and the committed `(round, state)` chain.
//!
//! The consensus engine only relies on the interface contracts below; the
//! aggregation model is deliberately simple: a vote for the node's own
//! proposal raises its vote count until a quorum is reached, and a quorum
//! certificate carrying a committed state extends the committed chain when
//! its round is new.
use vstd::prelude::*;

use crate::base_types::Author;
use crate::base_types::BlockHash;
use crate::base_types::BlockProposal;
use crate::base_types::Configuration;
use crate::base_types::EpochId;
use crate::base_types::QuorumCertificate;
use crate::base_types::QuorumCertificateHash;
use crate::base_types::Record;
use crate::base_types::Round;
use crate::base_types::State;
use crate::base_types::Timeout;
use crate::base_types::Vote;
use crate::pacemaker::PacemakerState;

verus! {

/// One entry of the committed chain: a state made final at a round.
#[derive(Clone, Copy, PartialEq, Eq, Structural, Debug)]
pub struct CommittedState {
    pub round: Round,
    pub state: State,
}

/// The committed rounds strictly increase along the chain.
pub open spec fn committed_chain_sorted(s: Seq<CommittedState>) -> bool {
    forall|i: int, j: int|
        0 <= i < j < s.len() ==> s[i].round.0 < s[j].round.0
}

/// The committed entries of `s` whose round is strictly after `cursor`,
/// in chain order.
pub open spec fn commits_after(s: Seq<CommittedState>, cursor: Round) -> Seq<CommittedState>
    decreases s.len(),
{
    if s.len() == 0 {
        Seq::empty()
    } else {
        let rest = commits_after(s.drop_last(), cursor);
        if s.last().round.0 > cursor.0 {
            rest.push(s.last())
        } else {
            rest
        }
    }
}

/// Storage and aggregation of protocol records for one epoch.
#[derive(Clone, Debug)]
pub struct RecordStoreState {
    /// Epoch this store belongs to.
    pub epoch_id: EpochId,
    /// Identifier of the epoch's genesis certificate.
    pub initial_hash: QuorumCertificateHash,
    /// State the epoch started from.
    pub initial_state: State,
    /// Validator set of the epoch.
    pub configuration: Configuration,
    /// The proposal currently designated for voting, if any.
    pub current_proposal: Option<BlockProposal>,
    /// The last block proposed by this node, while it gathers votes.
    pub own_proposal: Option<BlockProposal>,
    /// Votes gathered so far for `own_proposal`.
    pub own_vote_count: u64,
    /// A quorum formed for `own_proposal` and has not been consumed yet.
    pub qc_ready: bool,
    /// The committed chain, in strictly increasing round order.
    pub committed: Vec<CommittedState>,
    /// Highest-round quorum certificate seen; new proposals extend it.
    pub highest_qc: Option<QuorumCertificate>,
    /// Certificate of the highest committed round.
    pub highest_commit_cert: Option<QuorumCertificate>,
    /// Timeouts recorded for this epoch.
    pub timeouts: Vec<Timeout>,
    /// Votes created by the node owning this store.
    pub created_votes: Vec<Vote>,
}

impl RecordStoreState {
    pub open spec fn wf(self) -> bool {
        &&& self.configuration.wf()
        &&& committed_chain_sorted(self.committed@)
    }

    /// Round of the highest quorum certificate seen, or 0.
    pub open spec fn highest_qc_round_spec(self) -> Round {
        match self.highest_qc {
            Some(qc) => qc.round,
            None => Round(0),
        }
    }

    /// Highest committed round, or 0 when nothing committed yet.
    pub open spec fn highest_committed_round_spec(self) -> Round {
        if self.committed@.len() == 0 {
            Round(0)
        } else {
            self.committed@.last().round
        }
    }

    /// Identifier of the certificate a new proposal of this node extends.
    pub open spec fn hash_to_extend_spec(self) -> QuorumCertificateHash {
        match self.highest_qc {
            Some(qc) => QuorumCertificateHash(qc.block_hash.0),
            None => self.initial_hash,
        }
    }

    /// The block this node proposes when asked to extend its highest
    /// certificate: the next round after that certificate, carrying the
    /// certified parent and grandparent rounds.
    pub open spec fn own_proposal_spec(self, author: Author) -> BlockProposal {
        let parent = self.highest_qc_round_spec();
        let grandparent = match self.highest_qc {
            Some(qc) => qc.previous_round,
            None => Round(0),
        };
        let r = if parent.0 < u64::MAX {
            (parent.0 + 1) as u64
        } else {
            parent.0
        };
        BlockProposal {
            hash: BlockHash(r),
            round: Round(r),
            previous_round: parent,
            second_previous_round: grandparent,
            proposer: author,
        }
    }

    /// A saturating increment of the own-vote count.
    pub open spec fn vote_count_after(c: u64) -> u64 {
        if c < u64::MAX {
            (c + 1) as u64
        } else {
            c
        }
    }

    /// Fields never changed by record insertion.
    pub open spec fn insert_frame(pre: Self, post: Self) -> bool {
        &&& post.epoch_id == pre.epoch_id
        &&& post.initial_hash == pre.initial_hash
        &&& post.initial_state == pre.initial_state
        &&& post.configuration == pre.configuration
        &&& post.own_proposal == pre.own_proposal
        &&& post.created_votes@ == pre.created_votes@
    }

    /// Full description of what inserting one record does to the store.
    pub open spec fn insert_transition(pre: Self, post: Self, record: Record) -> bool {
        &&& Self::insert_frame(pre, post)
        &&& match record {
            Record::Block(p) => {
                &&& post.current_proposal == Some(p)
                &&& post.own_vote_count == pre.own_vote_count
                &&& post.qc_ready == pre.qc_ready
                &&& post.committed@ == pre.committed@
                &&& post.highest_qc == pre.highest_qc
                &&& post.highest_commit_cert == pre.highest_commit_cert
                &&& post.timeouts@ == pre.timeouts@
            },
            Record::Vote(v) => {
                &&& post.current_proposal == pre.current_proposal
                &&& post.committed@ == pre.committed@
                &&& post.highest_qc == pre.highest_qc
                &&& post.highest_commit_cert == pre.highest_commit_cert
                &&& post.timeouts@ == pre.timeouts@
                &&& match pre.own_proposal {
                    Some(op) => if v.hash == op.hash {
                        &&& post.own_vote_count == Self::vote_count_after(pre.own_vote_count)
                        &&& post.qc_ready == (pre.qc_ready
                            || post.own_vote_count >= pre.configuration.quorum_threshold_spec())
                    } else {
                        &&& post.own_vote_count == pre.own_vote_count
                        &&& post.qc_ready == pre.qc_ready
                    },
                    None => {
                        &&& post.own_vote_count == pre.own_vote_count
                        &&& post.qc_ready == pre.qc_ready
                    },
                }
            },
            Record::QuorumCertificate(qc) => {
                &&& post.current_proposal == pre.current_proposal
                &&& post.own_vote_count == pre.own_vote_count
                &&& post.qc_ready == pre.qc_ready
                &&& post.timeouts@ == pre.timeouts@
                &&& post.highest_qc == (if qc.round.0 >= pre.highest_qc_round_spec().0 {
                    Some(qc)
                } else {
                    pre.highest_qc
                })
                &&& if qc.committed_state is Some
                        && qc.round.0 > pre.highest_committed_round_spec().0 {
                    &&& post.committed@ == pre.committed@.push(
                        CommittedState { round: qc.round, state: qc.committed_state.unwrap() },
                    )
                    &&& post.highest_commit_cert == Some(qc)
                } else {
                    &&& post.committed@ == pre.committed@
                    &&& post.highest_commit_cert == pre.highest_commit_cert
                }
            },
            Record::Timeout(t) => {
                &&& post.current_proposal == pre.current_proposal
                &&& post.own_vote_count == pre.own_vote_count
                &&& post.qc_ready == pre.qc_ready
                &&& post.committed@ == pre.committed@
                &&& post.highest_qc == pre.highest_qc
                &&& post.highest_commit_cert == pre.highest_commit_cert
                &&& post.timeouts@ == pre.timeouts@.push(t)
            },
        }
    }

    /// A fresh, empty store for one epoch.
    pub fn new(
        initial_hash: QuorumCertificateHash,
        initial_state: State,
        epoch_id: EpochId,
        configuration: Configuration,
    ) -> (s: Self)
        requires
            configuration.wf(),
        ensures
            s.wf(),
            s.epoch_id == epoch_id,
            s.initial_hash == initial_hash,
            s.initial_state == initial_state,
            s.configuration == configuration,
            s.current_proposal is None,
            s.own_proposal is None,
            s.own_vote_count == 0,
            !s.qc_ready,
            s.committed@.len() == 0,
            s.highest_qc is None,
            s.highest_commit_cert is None,
            s.timeouts@.len() == 0,
            s.created_votes@.len() == 0,
    {
        RecordStoreState {
            epoch_id,
            initial_hash,
            initial_state,
            configuration,
            current_proposal: None,
            own_proposal: None,
            own_vote_count: 0,
            qc_ready: false,
            committed: Vec::new(),
            highest_qc: None,
            highest_commit_cert: None,
            timeouts: Vec::new(),
            created_votes: Vec::new(),
        }
    }

    /// Validate and aggregate one inbound record.
    pub fn insert_network_record(&mut self, record: Record)
        requires
            old(self).wf(),
        ensures
            final(self).wf(),
            Self::insert_transition(*old(self), *final(self), record),
    {
        match record {
            Record::Block(p) => {
                self.current_proposal = Some(p);
            },
            Record::Vote(v) => {
                let counts = match &self.own_proposal {
                    Some(op) => v.hash == op.hash,
                    None => false,
                };
                if counts {
                    if self.own_vote_count < u64::MAX {
                        self.own_vote_count = self.own_vote_count + 1;
                    }
                    if self.own_vote_count >= self.configuration.quorum_threshold() {
                        self.qc_ready = true;
                    }
                }
            },
            Record::QuorumCertificate(qc) => {
                let prev_round = match &self.highest_qc {
                    Some(q) => q.round.0,
                    None => 0,
                };
                if qc.round.0 >= prev_round {
                    self.highest_qc = Some(qc);
                }
                let hcr = self.highest_committed_round();
                if let Some(st) = qc.committed_state {
                    if qc.round.0 > hcr.0 {
                        let ghost pre_committed = self.committed@;
                        self.committed.push(CommittedState { round: qc.round, state: st });
                        self.highest_commit_cert = Some(qc);
                        proof {
                            assert forall|i: int, j: int|
                                0 <= i < j < self.committed@.len() implies self.committed@[i].round.0
                                < self.committed@[j].round.0 by {
                                if j < pre_committed.len() {
                                } else {
                                    assert(self.committed@[j] == self.committed@.last());
                                    if i < pre_committed.len() - 1 {
                                        let k = pre_committed.len() - 1;
                                        assert(pre_committed[i].round.0 < pre_committed[k].round.0);
                                    }
                                }
                            }
                        }
                    }
                }
            },
            Record::Timeout(t) => {
                self.timeouts.push(t);
            },
        }
    }

    /// Record a timeout created and signed by this node.
    pub fn create_timeout(&mut self, author: Author, round: Round)
        requires
            old(self).wf(),
        ensures
            final(self).wf(),
            final(self).timeouts@ == old(self).timeouts@.push(
                (Timeout { round, author }),
            ),
            *final(self) == (Self { timeouts: final(self).timeouts, ..*old(self) }),
    {
        self.timeouts.push(Timeout { round, author });
    }

    /// Create this node's proposal extending its highest certificate; the
    /// new proposal also becomes the designated proposal for voting. The
    /// requested certificate identifier is part of the interface; this
    /// store always extends its highest certificate, which is what the
    /// pacemaker requests.
    pub fn propose_block(&mut self, author: Author, _previous_qc_hash: QuorumCertificateHash)
        requires
            old(self).wf(),
        ensures
            final(self).wf(),
            final(self).own_proposal == Some(old(self).own_proposal_spec(author)),
            final(self).current_proposal == Some(old(self).own_proposal_spec(author)),
            final(self).own_vote_count == 0,
            *final(self) == (Self {
                own_proposal: final(self).own_proposal,
                current_proposal: final(self).current_proposal,
                own_vote_count: 0,
                ..*old(self)
            }),
    {
        let parent_round: u64 = match &self.highest_qc {
            Some(qc) => qc.round.0,
            None => 0,
        };
        let grandparent: Round = match &self.highest_qc {
            Some(qc) => qc.previous_round,
            None => Round(0),
        };
        let r: u64 = if parent_round < u64::MAX {
            parent_round + 1
        } else {
            parent_round
        };
        let p = BlockProposal {
            hash: BlockHash(r),
            round: Round(r),
            previous_round: Round(parent_round),
            second_previous_round: grandparent,
            proposer: author,
        };
        self.own_proposal = Some(p);
        self.current_proposal = Some(p);
        self.own_vote_count = 0;
    }

    /// The proposal designated by the pacemaker's active round, if any.
    pub open spec fn proposed_block_spec(self, active_round: Round) -> Option<
        (BlockHash, Round, Author),
    > {
        match self.current_proposal {
            Some(p) => if p.round == active_round {
                Some((p.hash, p.round, p.proposer))
            } else {
                None
            },
            None => None,
        }
    }

    pub fn proposed_block(&self, pacemaker: &PacemakerState) -> (r: Option<
        (BlockHash, Round, Author),
    >)
        ensures
            r == self.proposed_block_spec(pacemaker.active_round),
    {
        match &self.current_proposal {
            Some(p) => if p.round == pacemaker.active_round {
                Some((p.hash, p.round, p.proposer))
            } else {
                None
            },
            None => None,
        }
    }

    /// Round of the certified parent of the given block, or 0 when unknown.
    pub open spec fn previous_round_spec(self, hash: BlockHash) -> Round {
        match self.current_proposal {
            Some(p) => if p.hash == hash {
                p.previous_round
            } else {
                Round(0)
            },
            None => Round(0),
        }
    }

    pub fn previous_round(&self, hash: BlockHash) -> (r: Round)
        ensures
            r == self.previous_round_spec(hash),
    {
        match &self.current_proposal {
            Some(p) => if p.hash == hash {
                p.previous_round
            } else {
                Round(0)
            },
            None => Round(0),
        }
    }

    /// Round of the certified grandparent of the given block, or 0.
    pub open spec fn second_previous_round_spec(self, hash: BlockHash) -> Round {
        match self.current_proposal {
            Some(p) => if p.hash == hash {
                p.second_previous_round
            } else {
                Round(0)
            },
            None => Round(0),
        }
    }

    pub fn second_previous_round(&self, hash: BlockHash) -> (r: Round)
        ensures
            r == self.second_previous_round_spec(hash),
    {
        match &self.current_proposal {
            Some(p) => if p.hash == hash {
                p.second_previous_round
            } else {
                Round(0)
            },
            None => Round(0),
        }
    }

    /// Whether a vote for `hash` counts towards this node's own pending
    /// proposal.
    pub open spec fn vote_is_own(s: Self, hash: BlockHash) -> bool {
        match s.own_proposal {
            Some(op) => op.hash == hash,
            None => false,
        }
    }

    /// Whether a vote for `hash` can be created: the designated proposal
    /// must be that block.
    pub open spec fn can_vote_spec(self, hash: BlockHash) -> bool {
        match self.current_proposal {
            Some(p) => p.hash == hash,
            None => false,
        }
    }

    /// Create and record this node's vote for the designated proposal.
    /// Returns false, recording nothing, when the block is not the
    /// designated proposal. A vote for the node's own proposal also counts
    /// towards its quorum.
    pub fn create_vote(&mut self, author: Author, hash: BlockHash) -> (r: bool)
        requires
            old(self).wf(),
        ensures
            final(self).wf(),
            r == old(self).can_vote_spec(hash),
            final(self).own_vote_count == (if r && Self::vote_is_own(*old(self), hash) {
                Self::vote_count_after(old(self).own_vote_count)
            } else {
                old(self).own_vote_count
            }),
            final(self).qc_ready == (old(self).qc_ready || (r && Self::vote_is_own(*old(self), hash)
                && Self::vote_count_after(old(self).own_vote_count)
                >= old(self).configuration.quorum_threshold_spec())),
            final(self).current_proposal == old(self).current_proposal,
            final(self).own_proposal == old(self).own_proposal,
            final(self).committed@ == old(self).committed@,
            final(self).highest_qc == old(self).highest_qc,
            final(self).highest_commit_cert == old(self).highest_commit_cert,
            final(self).timeouts@ == old(self).timeouts@,
            final(self).epoch_id == old(self).epoch_id,
            final(self).initial_hash == old(self).initial_hash,
            final(self).initial_state == old(self).initial_state,
            final(self).configuration == old(self).configuration,
            r ==> final(self).created_votes@ == old(self).created_votes@.push(
                (Vote {
                    hash,
                    round: old(self).current_proposal.unwrap().round,
                    author,
                }),
            ),
            !r ==> *final(self) == *old(self),
    {
        let p = match &self.current_proposal {
            Some(p) => if p.hash == hash {
                Some(*p)
            } else {
                None
            },
            None => None,
        };
        match p {
            Some(p) => {
                self.created_votes.push(Vote { hash, round: p.round, author });
                let own = match &self.own_proposal {
                    Some(op) => op.hash == hash,
                    None => false,
                };
                if own {
                    if self.own_vote_count < u64::MAX {
                        self.own_vote_count = self.own_vote_count + 1;
                    }
                    if self.own_vote_count >= self.configuration.quorum_threshold() {
                        self.qc_ready = true;
                    }
                }
                true
            },
            None => false,
        }
    }

    /// Consume the "a quorum formed for my own proposal" event.
    pub fn check_for_new_quorum_certificate(&mut self, _author: Author) -> (r: bool)
        requires
            old(self).wf(),
        ensures
            final(self).wf(),
            r == old(self).qc_ready,
            !final(self).qc_ready,
            *final(self) == (Self { qc_ready: false, ..*old(self) }),
    {
        if self.qc_ready {
            self.qc_ready = false;
            true
        } else {
            false
        }
    }

    pub fn highest_committed_round(&self) -> (r: Round)
        ensures
            r == self.highest_committed_round_spec(),
    {
        if self.committed.len() == 0 {
            Round(0)
        } else {
            self.committed[self.committed.len() - 1].round
        }
    }

    pub fn highest_commit_certificate(&self) -> (r: Option<QuorumCertificate>)
        ensures
            r == self.highest_commit_cert,
    {
        self.highest_commit_cert
    }

    /// The committed `(round, state)` entries strictly after `cursor`, in
    /// ascending round order.
    pub fn committed_states_after(&self, cursor: Round) -> (r: Vec<CommittedState>)
        ensures
            r@ == commits_after(self.committed@, cursor),
    {
        let mut r: Vec<CommittedState> = Vec::new();
        let n = self.committed.len();
        let mut i: usize = 0;
        while i < n
            invariant
                0 <= i <= n,
                n == self.committed@.len(),
                r@ == commits_after(self.committed@.take(i as int), cursor),
            decreases n - i,
        {
            proof {
                assert(self.committed@.take(i + 1).drop_last() =~= self.committed@.take(i as int));
                assert(self.committed@.take(i + 1).last() == self.committed@[i as int]);
            }
            let c = self.committed[i];
            if c.round.0 > cursor.0 {
                r.push(c);
            }
            i = i + 1;
        }
        proof {
            assert(self.committed@.take(n as int) =~= self.committed@);
        }
        r
    }

    /// Identifier of the certificate a new proposal should extend.
    pub fn hash_to_extend(&self) -> (h: QuorumCertificateHash)
        ensures
            h == self.hash_to_extend_spec(),
    {
        match &self.highest_qc {
            Some(qc) => QuorumCertificateHash(qc.block_hash.0),
            None => self.initial_hash,
        }
    }
}

} // verus!

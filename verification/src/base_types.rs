//! Basic value types of the consensus engine: epochs, rounds, authors,
//! clock values, and the record vocabulary exchanged between nodes.
use vstd::prelude::*;

verus! {

/// Identifier of a configuration epoch. Epoch ids only grow over a node's lifetime.
#[derive(Clone, Copy, PartialEq, Eq, Structural, Debug, Hash)]
pub struct EpochId(pub u64);

/// Identifier of a voting round within an epoch.
#[derive(Clone, Copy, PartialEq, Eq, Structural, Debug, Hash)]
pub struct Round(pub u64);

/// Public identity of a validator.
#[derive(Clone, Copy, PartialEq, Eq, Structural, Debug, Hash)]
pub struct Author(pub u64);

/// A monotonic clock value. `NodeTime::never()` is the sentinel meaning
/// "no scheduled wake-up".
#[derive(Clone, Copy, PartialEq, Eq, Structural, Debug, Hash)]
pub struct NodeTime(pub u64);

/// A non-negative clock offset.
#[derive(Clone, Copy, PartialEq, Eq, Structural, Debug, Hash)]
pub struct Duration(pub u64);

/// Hash identifying a block.
#[derive(Clone, Copy, PartialEq, Eq, Structural, Debug, Hash)]
pub struct BlockHash(pub u64);

/// Hash identifying a quorum certificate; also used for the canonical
/// genesis certificate of an epoch.
#[derive(Clone, Copy, PartialEq, Eq, Structural, Debug, Hash)]
pub struct QuorumCertificateHash(pub u64);

impl EpochId {
    /// Canonical identifier of the genesis certificate that blocks of this
    /// epoch ultimately extend.
    pub open spec fn initial_hash_spec(self) -> QuorumCertificateHash {
        QuorumCertificateHash(self.0)
    }

    pub fn initial_hash(self) -> (h: QuorumCertificateHash)
        ensures
            h == self.initial_hash_spec(),
    {
        QuorumCertificateHash(self.0)
    }
}

impl Round {
    /// Raise the round to `other` if `other` is larger.
    pub fn max_update(&mut self, other: Round)
        ensures
            final(self).0 == if other.0 > old(self).0 {
                other.0
            } else {
                old(self).0
            },
    {
        if other.0 > self.0 {
            self.0 = other.0;
        }
    }
}

/// `t + d` on the clock, saturating at `NodeTime::never()` so that deadline
/// arithmetic is total.
pub open spec fn time_add(t: NodeTime, d: Duration) -> NodeTime {
    if t.0 + d.0 > u64::MAX {
        NodeTime(u64::MAX)
    } else {
        NodeTime((t.0 + d.0) as u64)
    }
}

/// The later of two clock values.
pub open spec fn time_max(a: NodeTime, b: NodeTime) -> NodeTime {
    if a.0 >= b.0 {
        a
    } else {
        b
    }
}

impl NodeTime {
    /// Sentinel meaning "no scheduled wake-up".
    pub fn never() -> (t: NodeTime)
        ensures
            t.0 == u64::MAX,
    {
        NodeTime(u64::MAX)
    }

    pub fn saturating_add(self, d: Duration) -> (t: NodeTime)
        ensures
            t == time_add(self, d),
    {
        if self.0 <= u64::MAX - d.0 {
            NodeTime(self.0 + d.0)
        } else {
            NodeTime(u64::MAX)
        }
    }

    pub fn max(self, other: NodeTime) -> (t: NodeTime)
        ensures
            t == time_max(self, other),
    {
        if self.0 >= other.0 {
            self
        } else {
            other
        }
    }

    pub fn min(self, other: NodeTime) -> (t: NodeTime)
        ensures
            t.0 == if self.0 <= other.0 {
                self.0
            } else {
                other.0
            },
    {
        if self.0 <= other.0 {
            self
        } else {
            other
        }
    }
}

/// A snapshot of the replicated application state as of some committed block,
/// modelled by the epoch id it embeds and an opaque payload.
#[derive(Clone, Copy, PartialEq, Eq, Structural, Debug)]
pub struct State {
    /// Epoch id embedded in the snapshot; read back through the
    /// state-machine context to detect epoch transitions.
    pub epoch_id: EpochId,
    /// Opaque application payload.
    pub payload: u64,
}

/// The validator set effective for one epoch.
#[derive(Clone, Debug)]
pub struct Configuration {
    /// The participating validators, in leader-rotation order.
    pub authors: Vec<Author>,
}

impl Configuration {
    /// A configuration must name at least one validator.
    pub open spec fn wf(self) -> bool {
        self.authors@.len() > 0
    }

    /// The leader designated for a round, by rotation over the validator set.
    pub open spec fn leader_spec(self, round: Round) -> Author
        recommends
            self.wf(),
    {
        self.authors@[round.0 as int % self.authors@.len() as int]
    }

    pub fn leader(&self, round: Round) -> (a: Author)
        requires
            self.wf(),
        ensures
            a == self.leader_spec(round),
    {
        let n: u64 = self.authors.len() as u64;
        let i: usize = (round.0 % n) as usize;
        self.authors[i]
    }

    /// Number of votes that forms a quorum: `n - floor((n - 1) / 3)`,
    /// i.e. `2f + 1` when `n = 3f + 1`.
    pub open spec fn quorum_threshold_spec(self) -> u64
        recommends
            self.wf(),
    {
        (self.authors@.len() - (self.authors@.len() - 1) / 3) as u64
    }

    pub fn quorum_threshold(&self) -> (q: u64)
        requires
            self.wf(),
        ensures
            q == self.quorum_threshold_spec(),
    {
        let n: u64 = self.authors.len() as u64;
        n - (n - 1) / 3
    }
}

/// A block proposal: the candidate block for a round, together with the
/// rounds of its certified parent and grandparent and the identity of its
/// proposer.
#[derive(Clone, Copy, PartialEq, Eq, Structural, Debug)]
pub struct BlockProposal {
    pub hash: BlockHash,
    pub round: Round,
    /// Round of the block's certified parent.
    pub previous_round: Round,
    /// Round of the block's certified grandparent.
    pub second_previous_round: Round,
    pub proposer: Author,
}

/// A vote cast by one validator for one block.
#[derive(Clone, Copy, PartialEq, Eq, Structural, Debug)]
pub struct Vote {
    pub hash: BlockHash,
    pub round: Round,
    pub author: Author,
}

/// A quorum certificate: aggregated proof that a quorum voted for the block
/// at `round`. When the certified chain makes a state final, the certificate
/// carries the committed state.
#[derive(Clone, Copy, PartialEq, Eq, Structural, Debug)]
pub struct QuorumCertificate {
    pub round: Round,
    /// Round of the certified block's parent.
    pub previous_round: Round,
    pub block_hash: BlockHash,
    /// The state made final by this certificate, if any.
    pub committed_state: Option<State>,
}

/// A timeout signed by one validator for one round.
#[derive(Clone, Copy, PartialEq, Eq, Structural, Debug)]
pub struct Timeout {
    pub round: Round,
    pub author: Author,
}

/// A protocol message exchanged between nodes.
#[derive(Clone, Copy, PartialEq, Eq, Structural, Debug)]
pub enum Record {
    Block(BlockProposal),
    Vote(Vote),
    QuorumCertificate(QuorumCertificate),
    Timeout(Timeout),
}

} // verus!

//! The replicated-state-machine context: the consumer of committed states
//! and the supplier of per-epoch configuration. The engine is generic over
//! any implementation; `InMemoryContext` is a deterministic implementation
//! suitable for drivers and simulations.
use vstd::prelude::*;

use crate::base_types::Author;
use crate::base_types::Configuration;
use crate::base_types::EpochId;
use crate::base_types::QuorumCertificate;
use crate::base_types::State;

verus! {

/// One committed state handed to the state machine, together with the
/// certificate it was delivered with, if any.
#[derive(Clone, Copy, PartialEq, Eq, Structural, Debug)]
pub struct DeliveredCommit {
    pub state: State,
    pub certificate: Option<QuorumCertificate>,
}

/// Capabilities the consensus engine consumes from the replicated state
/// machine.
pub trait SMRContext: Sized {
    /// Model of every commit delivered to the state machine so far, in
    /// delivery order.
    spec fn delivered(&self) -> Seq<DeliveredCommit>;

    /// The validator configuration effective from the given state.
    fn configuration(&self, state: &State) -> (c: Configuration)
        ensures
            c.wf(),
    ;

    /// Deliver a committed state; the certificate accompanies only the
    /// newest round of a catch-up batch.
    fn commit(&mut self, state: &State, certificate: Option<QuorumCertificate>)
        ensures
            final(self).delivered() == old(self).delivered().push(
                (DeliveredCommit { state: *state, certificate }),
            ),
    ;

    /// The epoch identifier embedded in a committed state.
    fn read_epoch_id(&self, state: &State) -> (e: EpochId)
        ensures
            e == state.epoch_id,
    ;
}

/// A deterministic in-memory state machine: it records every delivered
/// commit and reports one fixed validator set for every epoch.
#[derive(Clone, Debug)]
pub struct InMemoryContext {
    /// The validator set reported for every epoch.
    pub validators: Vec<Author>,
    /// Every commit delivered so far, in order.
    pub delivered_commits: Vec<DeliveredCommit>,
}

impl InMemoryContext {
    pub fn new(validators: Vec<Author>) -> (c: Self)
        ensures
            c.validators@ == validators@,
            c.delivered_commits@.len() == 0,
    {
        InMemoryContext { validators, delivered_commits: Vec::new() }
    }
}

impl SMRContext for InMemoryContext {
    open spec fn delivered(&self) -> Seq<DeliveredCommit> {
        self.delivered_commits@
    }

    fn configuration(&self, _state: &State) -> (c: Configuration) {
        if self.validators.len() > 0 {
            let mut authors: Vec<Author> = Vec::new();
            let n = self.validators.len();
            let mut i: usize = 0;
            while i < n
                invariant
                    0 <= i <= n,
                    n == self.validators@.len(),
                    authors@ == self.validators@.take(i as int),
                decreases n - i,
            {
                proof {
                    assert(self.validators@.take(i + 1) =~= self.validators@.take(i as int).push(
                        self.validators@[i as int],
                    ));
                }
                authors.push(self.validators[i]);
                i = i + 1;
            }
            proof {
                assert(self.validators@.take(n as int) =~= self.validators@);
            }
            Configuration { authors }
        } else {
            // A context configured with no validators still reports a
            // well-formed (single-validator) configuration.
            let mut authors: Vec<Author> = Vec::new();
            authors.push(Author(0));
            Configuration { authors }
        }
    }

    fn commit(&mut self, state: &State, certificate: Option<QuorumCertificate>) {
        self.delivered_commits.push(DeliveredCommit { state: *state, certificate });
    }

    fn read_epoch_id(&self, state: &State) -> (e: EpochId) {
        state.epoch_id
    }
}

} // verus!

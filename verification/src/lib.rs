//! Node-level consensus engine of a HotStuff/LibraBFT-style BFT
//! state-machine-replication protocol.
//!
//! The engine enforces the voting safety rules, detects quorum formation,
//! drives commit delivery, manages epoch transitions, and tracks liveness;
//! it performs no I/O itself and instead returns action bundles telling its
//! driver what to broadcast, send, or query, and when to tick again.

pub mod base_types;
pub mod node;
pub mod pacemaker;
pub mod record_store;
pub mod smr_context;

pub use base_types::Author;
pub use base_types::BlockHash;
pub use base_types::BlockProposal;
pub use base_types::Configuration;
pub use base_types::Duration;
pub use base_types::EpochId;
pub use base_types::NodeTime;
pub use base_types::QuorumCertificate;
pub use base_types::QuorumCertificateHash;
pub use base_types::Record;
pub use base_types::Round;
pub use base_types::State;
pub use base_types::Timeout;
pub use base_types::Vote;
pub use node::CommitTracker;
pub use node::CommitTrackerUpdateActions;
pub use node::NodeState;
pub use node::NodeUpdateActions;
pub use node::PastStoreEntry;
pub use pacemaker::PacemakerState;
pub use pacemaker::PacemakerUpdateActions;
pub use record_store::CommittedState;
pub use record_store::RecordStoreState;
pub use smr_context::DeliveredCommit;
pub use smr_context::InMemoryContext;
pub use smr_context::SMRContext;

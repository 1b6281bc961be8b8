use librabft_node::Author;
use librabft_node::Configuration;
use librabft_node::Duration;
use librabft_node::EpochId;
use librabft_node::NodeTime;
use librabft_node::QuorumCertificateHash;
use librabft_node::Round;

#[test]
fn initial_hash_is_canonical_per_epoch() {
    assert_eq!(EpochId(0).initial_hash(), QuorumCertificateHash(0));
    assert_eq!(EpochId(7).initial_hash(), QuorumCertificateHash(7));
}

#[test]
fn round_max_update_only_raises() {
    let mut r = Round(5);
    r.max_update(Round(3));
    assert_eq!(r, Round(5));
    r.max_update(Round(9));
    assert_eq!(r, Round(9));
}

#[test]
fn node_time_saturating_add() {
    assert_eq!(NodeTime(10).saturating_add(Duration(5)), NodeTime(15));
    assert_eq!(
        NodeTime(u64::MAX).saturating_add(Duration(5)),
        NodeTime::never()
    );
    assert_eq!(
        NodeTime(u64::MAX - 2).saturating_add(Duration(5)),
        NodeTime(u64::MAX)
    );
}

#[test]
fn node_time_min_max() {
    assert_eq!(NodeTime(3).max(NodeTime(8)), NodeTime(8));
    assert_eq!(NodeTime(3).min(NodeTime(8)), NodeTime(3));
    assert_eq!(NodeTime::never().min(NodeTime(8)), NodeTime(8));
}

#[test]
fn quorum_threshold_is_two_thirds_majority() {
    let four = Configuration {
        authors: vec![Author(0), Author(1), Author(2), Author(3)],
    };
    assert_eq!(four.quorum_threshold(), 3);
    let one = Configuration {
        authors: vec![Author(0)],
    };
    assert_eq!(one.quorum_threshold(), 1);
    let seven = Configuration {
        authors: vec![
            Author(0),
            Author(1),
            Author(2),
            Author(3),
            Author(4),
            Author(5),
            Author(6),
        ],
    };
    assert_eq!(seven.quorum_threshold(), 5);
}

#[test]
fn leader_rotates_over_the_validator_set() {
    let cfg = Configuration {
        authors: vec![Author(10), Author(11), Author(12), Author(13)],
    };
    assert_eq!(cfg.leader(Round(0)), Author(10));
    assert_eq!(cfg.leader(Round(1)), Author(11));
    assert_eq!(cfg.leader(Round(5)), Author(11));
    assert_eq!(cfg.leader(Round(7)), Author(13));
}

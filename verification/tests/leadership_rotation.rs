//! Tests of the BFT round-robin leader selection.

use chain_storage::BlockDate;
use chain_storage::leadership::BftLeaderId;
use chain_storage::leadership::BftProof;
use chain_storage::leadership::ErrorKind;
use chain_storage::leadership::Header;
use chain_storage::leadership::Ledger;
use chain_storage::leadership::LeadershipData;
use chain_storage::leadership::Proof;
use chain_storage::leadership::Settings;
use chain_storage::leadership::Verification;

fn three_leader_ledger() -> Ledger {
    Ledger {
        settings: Settings {
            bft_leaders: vec![
                BftLeaderId(vec![1, 1]),
                BftLeaderId(vec![2, 2]),
                BftLeaderId(vec![3, 3]),
            ],
        },
    }
}

#[test]
fn empty_ledger_has_no_leadership() {
    let ledger = Ledger { settings: Settings { bft_leaders: vec![] } };
    assert!(LeadershipData::new(&ledger).is_none());
}

#[test]
fn round_robin_rotates_by_slot() {
    let data = LeadershipData::new(&three_leader_ledger()).unwrap();
    assert_eq!(data.number_of_leaders(), 3);
    assert_eq!(data.leaders().len(), 3);
    assert_eq!(data.get_leader_at(BlockDate(0, 0)).0, vec![1, 1]);
    assert_eq!(data.get_leader_at(BlockDate(0, 1)).0, vec![2, 2]);
    assert_eq!(data.get_leader_at(BlockDate(0, 2)).0, vec![3, 3]);
    // The rotation wraps around.
    assert_eq!(data.get_leader_at(BlockDate(0, 4)).0, vec![2, 2]);
}

#[test]
fn verify_accepts_the_expected_leader() {
    let data = LeadershipData::new(&three_leader_ledger()).unwrap();
    let header = Header {
        leader_proof: Proof::Bft(BftProof { leader_id: BftLeaderId(vec![2, 2]) }),
        date: BlockDate(0, 1),
    };
    assert_eq!(data.verify(&header), Verification::Success);
}

#[test]
fn verify_rejects_the_wrong_leader() {
    let data = LeadershipData::new(&three_leader_ledger()).unwrap();
    let header = Header {
        leader_proof: Proof::Bft(BftProof { leader_id: BftLeaderId(vec![1, 1]) }),
        date: BlockDate(0, 1),
    };
    match data.verify(&header) {
        Verification::Failure(e) => assert_eq!(e.kind, ErrorKind::InvalidLeader),
        Verification::Success => panic!(),
    }
}

#[test]
fn verify_rejects_a_non_bft_proof() {
    let data = LeadershipData::new(&three_leader_ledger()).unwrap();
    let header = Header { leader_proof: Proof::GenesisPraos, date: BlockDate(0, 1) };
    match data.verify(&header) {
        Verification::Failure(e) => assert_eq!(e.kind, ErrorKind::InvalidLeaderSignature),
        Verification::Success => panic!(),
    }
}

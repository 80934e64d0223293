//! Tests of the encrypted-vote-tally certificate.

use chain_storage::tally::CommitteeId;
use chain_storage::tally::EncryptedVoteTally;
use chain_storage::tally::EncryptedVoteTallyProof;
use chain_storage::tally::PayloadType;
use chain_storage::tally::SingleAccountBindingSignature;
use chain_storage::tally::VotePlanId;

#[test]
fn tally_keeps_its_vote_plan() {
    let id = VotePlanId(vec![9u8; 32]);
    let tally = EncryptedVoteTally::new_private(id.clone());
    assert_eq!(*tally.id(), id);
    assert_eq!(tally.tally_type(), PayloadType::Public);
}

#[test]
fn tally_serializes_to_id_and_tag() {
    let id = VotePlanId(vec![7u8; 32]);
    let tally = EncryptedVoteTally::new_private(id);
    let mut expected = vec![7u8; 32];
    expected.push(1);
    assert_eq!(tally.serialize(), expected);
}

#[test]
fn proof_serializes_to_tag_id_and_signature() {
    let proof = EncryptedVoteTallyProof {
        id: CommitteeId(vec![5u8; 32]),
        signature: SingleAccountBindingSignature(vec![6u8; 64]),
    };
    let mut expected = vec![0u8];
    expected.extend_from_slice(&[5u8; 32]);
    expected.extend_from_slice(&[6u8; 64]);
    assert_eq!(proof.serialize(), expected);
}

#[test]
fn proof_carries_its_parts() {
    let proof = EncryptedVoteTallyProof {
        id: CommitteeId(vec![5u8; 32]),
        signature: SingleAccountBindingSignature(vec![6u8; 64]),
    };
    assert_eq!(proof.id.0, vec![5u8; 32]);
    assert_eq!(proof.signature.0, vec![6u8; 64]);
}

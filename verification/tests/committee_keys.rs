//! Tests of the committee key encodings and derivations.

use chain_storage::committee::ElectionPublicKey;
use chain_storage::committee::MemberCommunicationKey;
use chain_storage::committee::MemberCommunicationPublicKey;
use chain_storage::committee::MemberPublicKey;
use chain_storage::committee::MemberSecretKey;
use chain_storage::gang::GroupElement;
use chain_storage::gang::Scalar;
use chain_storage::gargamel::PublicKey;

fn sample_secret() -> Vec<u8> {
    Scalar::from_u64(424242).to_bytes()
}

fn sample_point_bytes() -> Vec<u8> {
    GroupElement::base_mul(&Scalar::from_u64(9)).to_bytes()
}

#[test]
fn member_secret_key_round_trip() {
    let bytes = sample_secret();
    let key = MemberSecretKey::from_bytes(&bytes).unwrap();
    assert_eq!(key.to_bytes(), bytes);
    assert!(MemberSecretKey::from_bytes(&[0xffu8; 32]).is_none());
}

#[test]
fn member_public_key_round_trip() {
    let bytes = sample_point_bytes();
    let key = MemberPublicKey::from_bytes(&bytes).unwrap();
    assert_eq!(key.to_bytes(), bytes);
    assert!(MemberPublicKey::from_bytes(&[1u8; 65]).is_none());
}

#[test]
fn communication_key_round_trip_and_public() {
    let bytes = sample_secret();
    let key = MemberCommunicationKey::from_bytes(&bytes).unwrap();
    assert_eq!(key.to_bytes(), bytes);

    // The public key is the generator times the secret scalar.
    let expected = GroupElement::base_mul(&Scalar::from_u64(424242));
    assert_eq!(key.to_public().to_bytes(), expected.to_bytes());
}

#[test]
fn communication_public_key_wraps() {
    let pk = PublicKey { pk: GroupElement::generator() };
    let wrapped = MemberCommunicationPublicKey::from_public_key(pk);
    assert_eq!(wrapped.to_bytes(), GroupElement::generator().to_bytes());
}

#[test]
fn election_key_sums_the_participants() {
    let a = MemberPublicKey::from_bytes(&GroupElement::base_mul(&Scalar::from_u64(2)).to_bytes())
        .unwrap();
    let b = MemberPublicKey::from_bytes(&GroupElement::base_mul(&Scalar::from_u64(3)).to_bytes())
        .unwrap();

    // One participant: the election key is that key.
    let single = ElectionPublicKey::from_participants(&[a.clone()]);
    assert_eq!(single.to_bytes(), a.to_bytes());
    assert_eq!(single.as_raw().to_bytes(), a.to_bytes());

    // Two participants: the sum of the points, which equals the key
    // of the summed scalars.
    let both = ElectionPublicKey::from_participants(&[a.clone(), b]);
    let expected = GroupElement::base_mul(&Scalar::from_u64(5));
    assert_eq!(both.to_bytes(), expected.to_bytes());

    // The encoding round-trips.
    let back = ElectionPublicKey::from_bytes(&both.to_bytes()).unwrap();
    assert_eq!(back.to_bytes(), both.to_bytes());
    assert!(ElectionPublicKey::from_bytes(&[7u8; 65]).is_none());
}

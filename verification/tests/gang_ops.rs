//! Tests of the curve scalars and group elements: encodings, the
//! arithmetic behind the trusted wrappers, and hashing to the curve.

use chain_storage::gang::Coordinate;
use chain_storage::gang::GroupElement;
use chain_storage::gang::Scalar;
use chain_storage::gang::Sign;

#[test]
fn from_hash() {
    let element = GroupElement::from_hash(&[1u8]);

    let element2 = GroupElement::from_bytes(&[
        4, 13, 166, 126, 45, 249, 4, 248, 227, 194, 159, 100, 48, 62, 165, 72, 101, 155, 168,
        137, 90, 110, 97, 89, 167, 229, 100, 160, 195, 191, 156, 174, 214, 65, 120, 172, 28,
        98, 217, 114, 141, 108, 225, 197, 90, 251, 208, 66, 121, 120, 247, 73, 98, 111, 219,
        172, 181, 134, 49, 239, 108, 91, 149, 243, 218,
    ])
    .expect("This point is on the curve");
    assert_eq!(element.to_bytes(), element2.to_bytes());
}

#[test]
fn scalar_encoding_round_trip() {
    let five = Scalar::from_u64(5);
    let bytes = five.to_bytes();
    assert_eq!(bytes.len(), 32);
    // Canonical big-endian: 31 zero bytes and the value.
    assert_eq!(&bytes[0..31], &[0u8; 31]);
    assert_eq!(bytes[31], 5);
    let back = Scalar::from_bytes(&bytes).unwrap();
    assert_eq!(back.to_bytes(), bytes);
}

#[test]
fn scalar_arithmetic() {
    let two = Scalar::from_u64(2);
    let three = Scalar::from_u64(3);
    assert_eq!(two.add(&three).to_bytes(), Scalar::from_u64(5).to_bytes());
    assert_eq!(three.sub(&two).to_bytes(), Scalar::one().to_bytes());
    assert_eq!(two.mul(&three).to_bytes(), Scalar::from_u64(6).to_bytes());
    assert_eq!(two.power(10).to_bytes(), Scalar::from_u64(1024).to_bytes());
    // The additive inverse cancels.
    assert_eq!(two.add(&two.negate()).to_bytes(), Scalar::zero().to_bytes());
    // The multiplicative inverse cancels.
    assert_eq!(two.inverse().mul(&two).to_bytes(), Scalar::one().to_bytes());
}

#[test]
fn zero_has_no_inverse() {
    assert!(Scalar::zero().try_inverse().is_none());
    let two = Scalar::from_u64(2);
    let inv = two.try_inverse().unwrap();
    assert_eq!(inv.mul(&two).to_bytes(), Scalar::one().to_bytes());
}

#[test]
fn scalar_increment_and_sum() {
    let mut s = Scalar::from_u64(4);
    s.increment();
    assert_eq!(s.to_bytes(), Scalar::from_u64(5).to_bytes());

    let items = vec![Scalar::from_u64(1), Scalar::from_u64(2), Scalar::from_u64(3)];
    let total = Scalar::sum(&items).unwrap();
    assert_eq!(total.to_bytes(), Scalar::from_u64(6).to_bytes());
    assert!(Scalar::sum(&Vec::new()).is_none());
}

#[test]
fn scalar_rejects_bad_encodings() {
    assert!(Scalar::from_bytes(&[0u8; 31]).is_none());
    // The all-ones value is far above the group order.
    assert!(Scalar::from_bytes(&[0xffu8; 32]).is_none());
}

#[test]
fn point_encoding_round_trip() {
    let g = GroupElement::generator();
    let bytes = g.to_bytes();
    assert_eq!(bytes.len(), 65);
    assert_eq!(bytes[0], 4);
    let back = GroupElement::from_bytes(&bytes).unwrap();
    assert_eq!(back.to_bytes(), bytes);

    let zero = GroupElement::zero();
    assert_eq!(zero.to_bytes(), vec![0u8; 65]);
    let back = GroupElement::from_bytes(&zero.to_bytes()).unwrap();
    assert_eq!(back.to_bytes(), vec![0u8; 65]);
}

#[test]
fn long_point_input_reads_first_bytes() {
    // An input led by 0x04 is read from its first 65 bytes; the tail
    // is ignored, as when a point is parsed out of a longer buffer.
    let g = GroupElement::generator();
    let mut long = g.to_bytes();
    long.extend_from_slice(&[0xaa, 0xbb, 0xcc, 0xdd, 0xee]);
    let read = GroupElement::from_bytes(&long).unwrap();
    assert_eq!(read.to_bytes(), g.to_bytes());
    // The all-zero form is only the point at infinity at exactly 65
    // bytes.
    assert!(GroupElement::from_bytes(&[0u8; 70]).is_none());
    // A 0x04 input shorter than a whole point is rejected.
    assert!(GroupElement::from_bytes(&long[0..40]).is_none());
}

#[test]
fn subtraction_undoes_addition() {
    let g = GroupElement::generator();
    let two_g = g.add(&g);
    assert_eq!(two_g.sub(&g).to_bytes(), g.to_bytes());
    assert_eq!(g.sub(&g).to_bytes(), vec![0u8; 65]);
}

#[test]
fn point_rejects_bad_encodings() {
    // Wrong length.
    assert!(GroupElement::from_bytes(&[4u8; 64]).is_none());
    // Not a curve point: x = y = 1.
    let mut bad = vec![0u8; 65];
    bad[0] = 4;
    bad[32] = 1;
    bad[64] = 1;
    assert!(GroupElement::from_bytes(&bad).is_none());
}

#[test]
fn base_multiplication_matches_addition() {
    let one = Scalar::one();
    let two = Scalar::from_u64(2);
    let g = GroupElement::generator();
    // G * 1 is the generator itself.
    assert_eq!(GroupElement::base_mul(&one).to_bytes(), g.to_bytes());
    // G * 2 equals G + G.
    assert_eq!(GroupElement::base_mul(&two).to_bytes(), g.add(&g).to_bytes());
    // Adding the zero point changes nothing.
    assert_eq!(g.add(&GroupElement::zero()).to_bytes(), g.to_bytes());
}

#[test]
fn decompression_recovers_the_generator() {
    let g = GroupElement::generator();
    let bytes = g.to_bytes();
    let coord = Coordinate::from_bytes(&bytes[1..33]).unwrap();
    assert_eq!(coord.to_bytes(), bytes[1..33].to_vec());
    let even = GroupElement::decompress(&coord, Sign(false));
    let odd = GroupElement::decompress(&coord, Sign(true));
    let even_bytes = even.map(|p| p.to_bytes());
    let odd_bytes = odd.map(|p| p.to_bytes());
    assert!(even_bytes == Some(bytes.clone()) || odd_bytes == Some(bytes));
}

#[test]
fn element_sum_accumulates() {
    let g = GroupElement::generator();
    let items = vec![g.clone_element(), g.clone_element()];
    assert_eq!(GroupElement::sum(&items).to_bytes(), g.add(&g).to_bytes());
    assert_eq!(GroupElement::sum(&Vec::new()).to_bytes(), vec![0u8; 65]);
}

use ark_ec::Group;
use ark_serialize::CanonicalSerialize;
use jolt::error::ProofError;
use jolt::group::{GroupElement, POINT_BYTES};

fn compressed(point: &ark_bn254::G1Projective) -> Vec<u8> {
    let mut bytes = Vec::new();
    point.serialize_compressed(&mut bytes).unwrap();
    bytes
}

#[test]
fn generator_is_read() {
    let mut bytes = [0u8; 32];
    bytes[0] = 1;
    let point = GroupElement::from_compressed(&bytes).unwrap();
    assert_eq!(point.to_compressed(), bytes);
    assert_eq!(&bytes[..], &compressed(&ark_bn254::G1Projective::generator())[..]);
}

#[test]
fn double_of_the_generator_is_read() {
    let bytes = [
        211, 207, 135, 109, 193, 8, 194, 211, 168, 28, 135, 22, 169, 22, 120, 217, 133, 21, 24,
        104, 91, 4, 133, 155, 2, 26, 19, 46, 231, 68, 6, 3,
    ];
    let generator = ark_bn254::G1Projective::generator();
    assert_eq!(&bytes[..], &compressed(&(generator + generator))[..]);
    assert_eq!(GroupElement::from_compressed(&bytes).unwrap().to_compressed(), bytes);
}

#[test]
fn both_roots_are_points() {
    let mut bytes = [0u8; 32];
    bytes[0] = 1;
    let one = GroupElement::from_compressed(&bytes).unwrap();
    bytes[31] = 0x80;
    let other = GroupElement::from_compressed(&bytes).unwrap();
    assert_ne!(one, other);
    let negated = -ark_bn254::G1Projective::generator();
    assert_eq!(&other.to_compressed()[..], &compressed(&negated)[..]);
}

#[test]
fn points_of_the_library_are_read() {
    let mut point = ark_bn254::G1Projective::generator();
    for _ in 0..20 {
        point = point + point + ark_bn254::G1Projective::generator();
        let bytes = compressed(&point);
        let read = GroupElement::from_compressed(&bytes).unwrap();
        assert_eq!(&read.to_compressed()[..], &bytes[..]);
    }
}

#[test]
fn infinity_has_one_spelling() {
    let mut bytes = [0u8; 32];
    bytes[31] = 0x40;
    assert_eq!(GroupElement::from_compressed(&bytes).unwrap().to_compressed(), bytes);
    bytes[0] = 1;
    assert_eq!(GroupElement::from_compressed(&bytes), Err(ProofError::DecodingError));
}

#[test]
fn x_off_the_curve_is_not_a_point() {
    assert_eq!(GroupElement::from_compressed(&[0u8; 32]), Err(ProofError::DecodingError));
    let mut bytes = [0u8; 32];
    bytes[0] = 4;
    assert_eq!(GroupElement::from_compressed(&bytes), Err(ProofError::DecodingError));
}

#[test]
fn both_flags_are_not_a_point() {
    let mut bytes = [0u8; 32];
    bytes[0] = 1;
    bytes[31] = 0xc0;
    assert_eq!(GroupElement::from_compressed(&bytes), Err(ProofError::DecodingError));
}

#[test]
fn x_beyond_the_field_is_not_a_point() {
    assert_eq!(GroupElement::from_compressed(&[0x3f; 32]), Err(ProofError::DecodingError));
}

#[test]
fn wrong_length_is_not_a_point() {
    assert_eq!(POINT_BYTES, 32);
    let mut bytes = [0u8; 33];
    bytes[0] = 1;
    assert_eq!(GroupElement::from_compressed(&bytes), Err(ProofError::DecodingError));
    assert_eq!(GroupElement::from_compressed(&bytes[..31]), Err(ProofError::DecodingError));
    assert_eq!(GroupElement::from_compressed(&[]), Err(ProofError::DecodingError));
}

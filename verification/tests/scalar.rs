use jolt::bytes::{same_bytes, u64_from_le_bytes, u64_to_le_bytes};
use jolt::error::ProofError;
use jolt::scalar::{Scalar, SCALAR_BYTES};

const MODULUS: [u8; 32] = [
    1, 0, 0, 240, 147, 245, 225, 67, 145, 112, 185, 121, 72, 232, 51, 40, 93, 88, 129, 129, 182,
    69, 80, 184, 41, 160, 49, 225, 114, 78, 100, 48,
];

#[test]
fn small_number_reduces_to_itself() {
    let scalar = Scalar::from_le_bytes_mod_order(&[7]);
    let mut expected = [0u8; 32];
    expected[0] = 7;
    assert_eq!(scalar.to_bytes(), expected);
}

#[test]
fn empty_bytes_reduce_to_zero() {
    assert_eq!(Scalar::from_le_bytes_mod_order(&[]).to_bytes(), [0u8; 32]);
}

#[test]
fn modulus_reduces_to_zero() {
    assert_eq!(Scalar::from_le_bytes_mod_order(&MODULUS).to_bytes(), [0u8; 32]);
}

#[test]
fn modulus_plus_five_reduces_to_five() {
    let mut bytes = MODULUS;
    bytes[0] = 6;
    let mut expected = [0u8; 32];
    expected[0] = 5;
    assert_eq!(Scalar::from_le_bytes_mod_order(&bytes).to_bytes(), expected);
}

#[test]
fn two_to_the_256_reduces() {
    let mut bytes = [0u8; 33];
    bytes[32] = 1;
    assert_eq!(
        Scalar::from_le_bytes_mod_order(&bytes).to_bytes(),
        [
            251, 255, 255, 79, 28, 52, 150, 172, 41, 205, 96, 159, 149, 118, 252, 54, 46, 70, 121,
            120, 111, 163, 110, 102, 47, 223, 7, 154, 193, 119, 10, 14
        ]
    );
}

#[test]
fn sixty_four_bytes_of_ones_reduce() {
    assert_eq!(
        Scalar::from_le_bytes_mod_order(&[255u8; 64]).to_bytes(),
        [
            166, 109, 33, 174, 69, 230, 184, 27, 227, 89, 92, 227, 177, 58, 254, 83, 133, 128, 187,
            83, 61, 131, 73, 140, 165, 68, 78, 127, 177, 208, 22, 2
        ]
    );
}

#[test]
fn canonical_bytes_are_read() {
    let mut bytes = MODULUS;
    bytes[0] = 0;
    let scalar = Scalar::from_bytes(&bytes).unwrap();
    assert_eq!(scalar.to_bytes(), bytes);
    assert_eq!(scalar, Scalar::from_le_bytes_mod_order(&bytes));
}

#[test]
fn modulus_is_not_a_scalar() {
    assert_eq!(Scalar::from_bytes(&MODULUS), Err(ProofError::DecodingError));
}

#[test]
fn all_ones_is_not_a_scalar() {
    assert_eq!(Scalar::from_bytes(&[255u8; 32]), Err(ProofError::DecodingError));
}

#[test]
fn wrong_length_is_not_a_scalar() {
    assert_eq!(SCALAR_BYTES, 32);
    assert_eq!(Scalar::from_bytes(&[0u8; 31]), Err(ProofError::DecodingError));
    assert_eq!(Scalar::from_bytes(&[0u8; 33]), Err(ProofError::DecodingError));
    assert_eq!(Scalar::from_bytes(&[]), Err(ProofError::DecodingError));
}

#[test]
fn scalars_agree_with_the_field() {
    let element = ark_bn254::Fr::from(123456789u64) * ark_bn254::Fr::from(987654321u64);
    let mut bytes = Vec::new();
    ark_serialize::CanonicalSerialize::serialize_compressed(&element, &mut bytes).unwrap();
    let scalar = Scalar::from_bytes(&bytes).unwrap();
    assert_eq!(&scalar.to_bytes()[..], &bytes[..]);
    let product: u128 = 123456789u128 * 987654321u128;
    assert_eq!(scalar, Scalar::from_le_bytes_mod_order(&product.to_le_bytes()));
}

#[test]
fn u64_is_written_least_byte_first() {
    assert_eq!(u64_to_le_bytes(0), [0u8; 8]);
    assert_eq!(u64_to_le_bytes(1), [1, 0, 0, 0, 0, 0, 0, 0]);
    assert_eq!(u64_to_le_bytes(0x0102030405060708), [8, 7, 6, 5, 4, 3, 2, 1]);
    assert_eq!(u64_to_le_bytes(u64::MAX), [255u8; 8]);
}

#[test]
fn u64_is_read_least_byte_first() {
    assert_eq!(u64_from_le_bytes(&[9, 8, 7, 6, 5, 4, 3, 2, 1, 0], 1), 0x0102030405060708);
    assert_eq!(u64_from_le_bytes(&[255u8; 8], 0), u64::MAX);
    assert_eq!(u64_from_le_bytes(&u64_to_le_bytes(600), 0), 600);
}

#[test]
fn same_bytes_tells_strings_apart() {
    assert!(same_bytes(&[], &[]));
    assert!(same_bytes(&[1, 2, 3], &[1, 2, 3]));
    assert!(!same_bytes(&[1, 2, 3], &[1, 2, 4]));
    assert!(!same_bytes(&[1, 2, 3], &[1, 2]));
}

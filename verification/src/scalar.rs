//! Elements of the scalar field of BN254.
//!
//! A `Scalar` keeps a field element as its canonical encoding: the 32 little-endian bytes of
//! the one representative below the modulus. The arithmetic of the field is `ark_ff`'s; what
//! this module takes from it is the reduction of a wide byte string into the field and the
//! test that 32 bytes are a canonical encoding.

use vstd::prelude::*;
use crate::bytes::{le_bytes, le_nat, lemma_le_bytes_of_le_nat, pow256};
use crate::error::ProofError;

verus! {

/// The prime order of the scalar field.
pub open spec fn modulus() -> nat {
    21888242871839275222246405745257275088548364400416034343698204186575808495617nat
}

/// The number of bytes in the canonical encoding of a scalar.
pub const SCALAR_BYTES: usize = 32;

/// Whether `bytes` is the canonical encoding of a scalar.
pub open spec fn is_scalar_encoding(bytes: Seq<u8>) -> bool {
    bytes.len() == 32 && le_nat(bytes) < modulus()
}

/// The modulus fits in 32 bytes, and so does every scalar.
pub proof fn lemma_modulus_fits()
    ensures
        modulus() < pow256(32),
{
    reveal_with_fuel(pow256, 33);
}

/// The numbers that a sequence of scalars stands for.
pub open spec fn scalar_values(scalars: Seq<Scalar>) -> Seq<nat> {
    Seq::new(scalars.len(), |i: int| scalars[i]@)
}

#[verifier::external_type_specification]
#[verifier::external_body]
pub struct ExSerializationError(ark_serialize::SerializationError);

/// `ark_ff::PrimeField::from_le_bytes_mod_order` on the scalar field of `ark_bn254`, with the
/// field element it returns written out as its 32 canonical bytes. The contract claims what
/// the method documents: the bytes are read as one little-endian number, of any length, and
/// that number is reduced modulo the field's order.
#[verifier::external_body]
fn reduce_into_field(bytes: &[u8]) -> (canonical: [u8; 32])
    ensures
        le_nat(canonical@) == le_nat(bytes@) % modulus(),
{
    let element = <ark_bn254::Fr as ark_ff::PrimeField>::from_le_bytes_mod_order(bytes);
    let mut canonical = [0u8; 32];
    canonical.copy_from_slice(&ark_ff::BigInteger::to_bytes_le(&ark_ff::PrimeField::into_bigint(element)));
    canonical
}

/// `ark_serialize::CanonicalDeserialize::deserialize_compressed` on the scalar field of
/// `ark_bn254`, with the field element it returns written out again as its 32 canonical
/// bytes. The contract claims that 32 bytes are accepted exactly when the little-endian
/// number they spell is below the field's order, and that the element read is that number.
#[verifier::external_body]
fn read_field_element(bytes: &[u8]) -> (read: Result<[u8; 32], ark_serialize::SerializationError>)
    requires
        bytes@.len() == 32,
    ensures
        read is Ok <==> le_nat(bytes@) < modulus(),
        read matches Ok(canonical) ==> canonical@ == bytes@,
{
    let element: ark_bn254::Fr = ark_serialize::CanonicalDeserialize::deserialize_compressed(bytes)?;
    let mut canonical = [0u8; 32];
    canonical.copy_from_slice(&ark_ff::BigInteger::to_bytes_le(&ark_ff::PrimeField::into_bigint(element)));
    Ok(canonical)
}

/// An element of the scalar field.
#[derive(Clone, Copy, Debug, PartialEq, Eq)]
pub struct Scalar {
    bytes: [u8; 32],
}

impl View for Scalar {
    type V = nat;

    /// The representative of the element in `0..modulus()`.
    closed spec fn view(&self) -> nat {
        le_nat(self.bytes@)
    }
}

impl Scalar {
    #[verifier::type_invariant]
    spec fn in_field(&self) -> bool {
        le_nat(self.bytes@) < modulus()
    }

    /// The scalar that a little-endian byte string of any length stands for: the number it
    /// spells, reduced modulo the order of the field. With 64 bytes of uniform input the
    /// result is uniform up to a bias of about 2^-258.
    pub fn from_le_bytes_mod_order(bytes: &[u8]) -> (scalar: Scalar)
        ensures
            scalar@ == le_nat(bytes@) % modulus(),
    {
        let canonical = reduce_into_field(bytes);
        Scalar { bytes: canonical }
    }

    /// The scalar with the canonical encoding `bytes`, if there is one: `bytes` must be 32
    /// bytes that spell a number below the modulus.
    pub fn from_bytes(bytes: &[u8]) -> (decoded: Result<Scalar, ProofError>)
        ensures
            decoded is Ok <==> is_scalar_encoding(bytes@),
            decoded matches Ok(scalar) ==> scalar@ == le_nat(bytes@),
            decoded matches Err(e) ==> e == ProofError::DecodingError,
    {
        if bytes.len() != SCALAR_BYTES {
            return Err(ProofError::DecodingError);
        }
        match read_field_element(bytes) {
            Ok(canonical) => Ok(Scalar { bytes: canonical }),
            Err(_) => Err(ProofError::DecodingError),
        }
    }

    /// The canonical encoding: the 32 little-endian bytes of the representative.
    pub fn to_bytes(&self) -> (bytes: [u8; 32])
        ensures
            bytes@ == le_bytes(self@, 32),
            self@ < modulus(),
    {
        proof {
            use_type_invariant(self);
            lemma_le_bytes_of_le_nat(self.bytes@);
        }
        self.bytes
    }
}

} // verus!

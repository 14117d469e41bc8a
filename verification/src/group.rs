//! Points of the group G1 of BN254.
//!
//! A `GroupElement` keeps a point as its canonical compressed encoding: 32 bytes that hold the
//! x-coordinate and, in the two highest bits of the last byte, which of the two roots y is and
//! whether the point is the one at infinity. Which byte strings spell a point is decided by
//! `ark_ec`; this module adds that a point has one accepted spelling, the one that is written
//! out for it.

use vstd::prelude::*;
use crate::bytes::same_bytes;
use crate::error::ProofError;

verus! {

/// The number of bytes in the compressed encoding of a point.
pub const POINT_BYTES: usize = 32;

/// What reading 32 bytes as a compressed point and writing that point out again gives: the
/// canonical encoding of the point that the bytes spell, or `None` where they spell none.
pub uninterp spec fn point_canonical_form(bytes: Seq<u8>) -> Option<Seq<u8>>;

/// Whether `bytes` is the canonical compressed encoding of a point: it spells a point, and
/// that point is written out as these very bytes.
pub open spec fn is_point_encoding(bytes: Seq<u8>) -> bool {
    bytes.len() == 32 && point_canonical_form(bytes) == Some(bytes)
}

/// The encodings of a sequence of points.
pub open spec fn point_encodings(points: Seq<GroupElement>) -> Seq<Seq<u8>> {
    Seq::new(points.len(), |i: int| points[i]@)
}

/// `ark_serialize::CanonicalDeserialize::deserialize_compressed` on `ark_bn254::G1Projective`,
/// which checks that the point is on the curve and in the group, with the point it returns
/// written out by `serialize_compressed` as 32 bytes. The contract gives the outcome its name,
/// `point_canonical_form`, and claims nothing of which bytes are accepted.
#[verifier::external_body]
fn read_point(bytes: &[u8]) -> (read: Result<[u8; 32], ark_serialize::SerializationError>)
    requires
        bytes@.len() == 32,
    ensures
        read matches Ok(canonical) ==> point_canonical_form(bytes@) == Some(canonical@),
        read is Err ==> point_canonical_form(bytes@) is None,
{
    let point: ark_bn254::G1Projective = ark_serialize::CanonicalDeserialize::deserialize_compressed(bytes)?;
    let mut canonical = [0u8; 32];
    ark_serialize::CanonicalSerialize::serialize_compressed(&point, &mut canonical[..])?;
    Ok(canonical)
}

/// A point of the group.
#[derive(Clone, Copy, Debug, PartialEq, Eq)]
pub struct GroupElement {
    bytes: [u8; 32],
}

impl View for GroupElement {
    type V = Seq<u8>;

    /// The canonical compressed encoding of the point.
    closed spec fn view(&self) -> Seq<u8> {
        self.bytes@
    }
}

impl GroupElement {
    #[verifier::type_invariant]
    spec fn canonical(&self) -> bool {
        is_point_encoding(self.bytes@)
    }

    /// The point with the canonical compressed encoding `bytes`, if there is one. Bytes that
    /// spell a point in another way than the one it is written out in are refused.
    pub fn from_compressed(bytes: &[u8]) -> (decoded: Result<GroupElement, ProofError>)
        ensures
            decoded is Ok <==> is_point_encoding(bytes@),
            decoded matches Ok(point) ==> point@ == bytes@,
            decoded matches Err(e) ==> e == ProofError::DecodingError,
    {
        if bytes.len() != POINT_BYTES {
            return Err(ProofError::DecodingError);
        }
        match read_point(bytes) {
            Ok(canonical) => {
                if same_bytes(canonical.as_slice(), bytes) {
                    Ok(GroupElement { bytes: canonical })
                } else {
                    Err(ProofError::DecodingError)
                }
            },
            Err(_) => Err(ProofError::DecodingError),
        }
    }

    /// The canonical compressed encoding of the point.
    pub fn to_compressed(&self) -> (bytes: [u8; 32])
        ensures
            bytes@ == self@,
            is_point_encoding(self@),
    {
        proof {
            use_type_invariant(self);
        }
        self.bytes
    }
}

} // verus!

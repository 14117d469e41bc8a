//! The proof container and its wire format.
//!
//! A `Proof` carries what a finished proving run hands to a verifier: the scalars of the
//! proof itself and the commitments, points of the group, that it speaks of. On the wire it
//! is its two aggregates in order, each a count in eight little-endian bytes followed by its
//! members at 32 bytes apiece. The format is a one-to-one function of the value: every proof
//! has one encoding, and of all byte strings only those encodings are read back.

use vstd::prelude::*;
use vstd::slice::slice_subrange;
use crate::bytes::{
    cut, joined, le_bytes, le_nat, lemma_cut_joined, lemma_joined_cut, lemma_joined_len,
    lemma_le_bytes_len, lemma_le_bytes_of_le_nat, lemma_le_nat_bound, lemma_le_nat_of_le_bytes,
    lemma_pow256_8, u64_from_le_bytes, u64_to_le_bytes,
};
use crate::error::ProofError;
use crate::group::{is_point_encoding, point_encodings, GroupElement};
use crate::scalar::{lemma_modulus_fits, modulus, scalar_values, Scalar};

verus! {

/// The payload of a proof: the scalars that the proving engine produced.
#[derive(Clone, Debug, PartialEq, Eq)]
pub struct ProofData {
    pub scalars: Vec<Scalar>,
}

/// The commitments that a proof speaks of.
#[derive(Clone, Debug, PartialEq, Eq)]
pub struct Commitments {
    pub points: Vec<GroupElement>,
}

/// A finished proof with its commitments: the unit that is stored and sent.
#[derive(Clone, Debug, PartialEq, Eq)]
pub struct Proof {
    pub proof: ProofData,
    pub commitments: Commitments,
}

/// What a proof holds: the numbers of its scalars and the encodings of its points.
#[verifier::ext_equal]
pub struct ProofView {
    pub scalars: Seq<nat>,
    pub points: Seq<Seq<u8>>,
}

impl View for Proof {
    type V = ProofView;

    open spec fn view(&self) -> ProofView {
        ProofView {
            scalars: scalar_values(self.proof.scalars@),
            points: point_encodings(self.commitments.points@),
        }
    }
}

/// Whether `proof` is what a container can hold: scalars of the field, points of the group,
/// and of neither more than a count of 64 bits can tell.
pub open spec fn well_formed(proof: ProofView) -> bool {
    &&& proof.scalars.len() <= u64::MAX
    &&& proof.points.len() <= u64::MAX
    &&& forall|i: int| 0 <= i < proof.scalars.len() ==> #[trigger] proof.scalars[i] < modulus()
    &&& forall|i: int| 0 <= i < proof.points.len() ==> is_point_encoding(#[trigger] proof.points[i])
}

/// The canonical encodings of `scalars`, one for each.
pub open spec fn scalar_encodings(scalars: Seq<nat>) -> Seq<Seq<u8>> {
    Seq::new(scalars.len(), |i: int| le_bytes(scalars[i], 32))
}

/// The wire format of a proof.
pub open spec fn encoding(proof: ProofView) -> Seq<u8> {
    le_bytes(proof.scalars.len(), 8) + joined(scalar_encodings(proof.scalars)) + le_bytes(
        proof.points.len(),
        8,
    ) + joined(proof.points)
}

/// The number of bytes that the wire format of a proof takes.
pub open spec fn encoded_len(proof: ProofView) -> nat {
    16 + 32 * proof.scalars.len() + 32 * proof.points.len()
}

/// The encoding of a well-formed proof has the length that `encoded_len` gives.
pub proof fn lemma_encoding_len(proof: ProofView)
    requires
        well_formed(proof),
    ensures
        encoding(proof).len() == encoded_len(proof),
{
    lemma_le_bytes_len(proof.scalars.len(), 8);
    lemma_le_bytes_len(proof.points.len(), 8);
    assert forall|i: int| 0 <= i < proof.scalars.len() implies (#[trigger] scalar_encodings(
        proof.scalars,
    )[i]).len() == 32 by {
        lemma_le_bytes_len(proof.scalars[i], 32);
    }
    lemma_joined_len(scalar_encodings(proof.scalars));
    lemma_joined_len(proof.points);
}

/// The 32 bytes of a wire format that hold its scalar number `i`.
pub open spec fn scalar_field(bytes: Seq<u8>, i: int) -> Seq<u8> {
    bytes.subrange(8 + 32 * i, 40 + 32 * i)
}

/// The 32 bytes of a wire format that hold its point number `j`, after `count` scalars.
pub open spec fn point_field(bytes: Seq<u8>, count: nat, j: int) -> Seq<u8> {
    bytes.subrange(16 + 32 * count + 32 * j, 48 + 32 * count + 32 * j)
}

/// What `bytes` holds when read as a wire format, whether or not it is a proof: as many
/// scalars as the first count says, and as many points as the second.
pub open spec fn layout(bytes: Seq<u8>) -> ProofView {
    let scalars = le_nat(bytes.subrange(0, 8));
    let points = le_nat(bytes.subrange(8 + 32 * (scalars as int), 16 + 32 * (scalars as int)));
    ProofView {
        scalars: Seq::new(scalars, |i: int| le_nat(scalar_field(bytes, i))),
        points: Seq::new(points, |j: int| point_field(bytes, scalars, j)),
    }
}

/// Whether `bytes` is laid out as a wire format: both counts are there, and the bytes are
/// exactly as many as the counts call for, none missing and none left over.
pub open spec fn framed(bytes: Seq<u8>) -> bool {
    let scalars = le_nat(bytes.subrange(0, 8));
    let points = le_nat(bytes.subrange(8 + 32 * (scalars as int), 16 + 32 * (scalars as int)));
    &&& bytes.len() >= 16 + 32 * scalars
    &&& bytes.len() == 16 + 32 * scalars + 32 * points
}

/// The proof that `bytes` is the wire format of, if it is one.
pub open spec fn decoding(bytes: Seq<u8>) -> Option<ProofView> {
    if framed(bytes) && well_formed(layout(bytes)) {
        Some(layout(bytes))
    } else {
        None
    }
}

/// Reading is the inverse of writing: the wire format of a well-formed proof decodes, and
/// to that proof.
pub proof fn lemma_decoding_of_encoding(proof: ProofView)
    requires
        well_formed(proof),
    ensures
        decoding(encoding(proof)) == Some(proof),
{
    let bytes = encoding(proof);
    let n = proof.scalars.len();
    let m = proof.points.len();
    let chunks = scalar_encodings(proof.scalars);
    lemma_encoding_len(proof);
    lemma_le_bytes_len(n, 8);
    lemma_le_bytes_len(m, 8);
    assert forall|i: int| 0 <= i < n implies (#[trigger] chunks[i]).len() == 32 by {
        lemma_le_bytes_len(proof.scalars[i], 32);
    }
    lemma_joined_len(chunks);
    lemma_joined_len(proof.points);
    lemma_pow256_8();
    lemma_le_nat_of_le_bytes(n, 8);
    lemma_le_nat_of_le_bytes(m, 8);
    assert(bytes.subrange(0, 8) =~= le_bytes(n, 8));
    assert(bytes.subrange(8 + 32 * (n as int), 16 + 32 * (n as int)) =~= le_bytes(m, 8));
    lemma_cut_joined(chunks);
    lemma_cut_joined(proof.points);
    lemma_modulus_fits();
    let read = layout(bytes);
    assert forall|i: int| 0 <= i < n implies #[trigger] read.scalars[i] == proof.scalars[i] by {
        assert(scalar_field(bytes, i) =~= joined(chunks).subrange(32 * i, 32 * i + 32));
        assert(cut(joined(chunks), n)[i] == chunks[i]);
        lemma_le_nat_of_le_bytes(proof.scalars[i], 32);
    }
    assert forall|j: int| 0 <= j < m implies #[trigger] read.points[j] == proof.points[j] by {
        assert(point_field(bytes, n, j) =~= joined(proof.points).subrange(32 * j, 32 * j + 32));
        assert(cut(joined(proof.points), m)[j] == proof.points[j]);
    }
    assert(read =~= proof);
}

/// Writing is the inverse of reading: what decodes is a well-formed proof, and its wire
/// format is the very bytes it was read from.
pub proof fn lemma_encoding_of_decoding(bytes: Seq<u8>)
    requires
        decoding(bytes) is Some,
    ensures
        well_formed(decoding(bytes)->0),
        encoding(decoding(bytes)->0) == bytes,
{
    let proof = layout(bytes);
    let n = proof.scalars.len();
    let m = proof.points.len();
    let scalar_part = bytes.subrange(8, 8 + 32 * (n as int));
    let point_part = bytes.subrange(16 + 32 * (n as int), 16 + 32 * (n as int) + 32 * (m as int));
    lemma_le_bytes_of_le_nat(bytes.subrange(0, 8));
    lemma_le_bytes_of_le_nat(bytes.subrange(8 + 32 * (n as int), 16 + 32 * (n as int)));
    assert(scalar_encodings(proof.scalars) =~= cut(scalar_part, n)) by {
        assert forall|i: int| 0 <= i < n implies scalar_encodings(proof.scalars)[i] == cut(
            scalar_part,
            n,
        )[i] by {
            lemma_le_bytes_of_le_nat(scalar_field(bytes, i));
            assert(scalar_field(bytes, i) =~= scalar_part.subrange(32 * i, 32 * i + 32));
        }
    }
    assert(proof.points =~= cut(point_part, m)) by {
        assert forall|j: int| 0 <= j < m implies proof.points[j] == cut(point_part, m)[j] by {
            assert(point_field(bytes, n, j) =~= point_part.subrange(32 * j, 32 * j + 32));
        }
    }
    lemma_joined_cut(scalar_part, n);
    lemma_joined_cut(point_part, m);
    assert(encoding(proof) =~= bytes);
}

/// What does not decode is no proof's wire format.
pub proof fn lemma_no_encoding_without_decoding(bytes: Seq<u8>)
    ensures
        decoding(bytes) is None ==> forall|proof: ProofView|
            well_formed(proof) ==> #[trigger] encoding(proof) != bytes,
{
    if decoding(bytes) is None {
        assert forall|proof: ProofView| well_formed(proof) implies #[trigger] encoding(proof)
            != bytes by {
            lemma_decoding_of_encoding(proof);
        }
    }
}

/// No two well-formed proofs share a wire format.
pub proof fn lemma_encoding_injective(a: ProofView, b: ProofView)
    requires
        well_formed(a),
        well_formed(b),
        encoding(a) == encoding(b),
    ensures
        a == b,
{
    lemma_decoding_of_encoding(a);
    lemma_decoding_of_encoding(b);
}

/// A wire format cut short is not a wire format: no proper prefix of the encoding of a
/// well-formed proof decodes.
pub proof fn lemma_truncation_rejected(proof: ProofView, len: int)
    requires
        well_formed(proof),
        0 <= len < encoding(proof).len(),
    ensures
        decoding(encoding(proof).subrange(0, len)) is None,
{
    let whole = encoding(proof);
    let part = whole.subrange(0, len);
    let n = proof.scalars.len();
    let m = proof.points.len();
    lemma_decoding_of_encoding(proof);
    lemma_encoding_len(proof);
    assert(layout(whole) == proof);
    if len >= 16 + 32 * n {
        assert(part.subrange(0, 8) =~= whole.subrange(0, 8));
        assert(part.subrange(8 + 32 * (n as int), 16 + 32 * (n as int)) =~= whole.subrange(
            8 + 32 * (n as int),
            16 + 32 * (n as int),
        ));
        assert(!framed(part));
    } else if len >= 8 {
        assert(part.subrange(0, 8) =~= whole.subrange(0, 8));
        assert(!framed(part));
    } else {
        lemma_le_nat_bound(part.subrange(0, 8));
        assert(!framed(part));
    }
}

/// A scalar field that spells a number not below the modulus spoils the whole: such bytes
/// do not decode.
pub proof fn lemma_scalar_out_of_range_rejected(bytes: Seq<u8>, i: int)
    requires
        0 <= i < le_nat(bytes.subrange(0, 8)),
        le_nat(scalar_field(bytes, i)) >= modulus(),
    ensures
        decoding(bytes) is None,
{
    assert(layout(bytes).scalars[i] >= modulus());
}

/// The text that `bytes` becomes in base64: the standard alphabet, padded with `=`, on one
/// line.
pub uninterp spec fn base64_text(bytes: Seq<u8>) -> Seq<char>;

/// `base64::Engine::encode` of the engine `base64::engine::general_purpose::STANDARD`. It
/// refuses an input whose text would be longer than `usize` can count, which the contract
/// leaves out. The contract gives the text its name, `base64_text`: a function of the bytes.
#[verifier::external_body]
fn to_base64(bytes: &[u8]) -> (text: String)
    requires
        bytes@.len() / 3 * 4 + 4 <= usize::MAX,
    ensures
        text@ == base64_text(bytes@),
{
    base64::Engine::encode(&base64::engine::general_purpose::STANDARD, bytes)
}

impl Proof {
    /// The proof that `bytes` is the wire format of. Everything else is refused: bytes that
    /// end before the counts are served or run on after them, a scalar not below the
    /// modulus, a point that is none or is not in its canonical form.
    pub fn deserialize(bytes: &[u8]) -> (read: Result<Proof, ProofError>)
        ensures
            match read {
                Ok(proof) => decoding(bytes@) == Some(proof@) && encoding(proof@) == bytes@,
                Err(error) => {
                    &&& error == ProofError::DecodingError
                    &&& decoding(bytes@) is None
                    &&& forall|proof: ProofView|
                        well_formed(proof) ==> #[trigger] encoding(proof) != bytes@
                },
            },
    {
        proof {
            lemma_no_encoding_without_decoding(bytes@);
            if decoding(bytes@) is Some {
                lemma_encoding_of_decoding(bytes@);
            }
        }
        let total = bytes.len();
        if total < 16 {
            return Err(ProofError::DecodingError);
        }
        let scalar_count = u64_from_le_bytes(bytes, 0);
        if scalar_count > ((total - 16) / 32) as u64 {
            return Err(ProofError::DecodingError);
        }
        let n = scalar_count as usize;
        let point_count = u64_from_le_bytes(bytes, 8 + 32 * n);
        let rest = total - 16 - 32 * n;
        if rest % 32 != 0 || point_count != (rest / 32) as u64 {
            return Err(ProofError::DecodingError);
        }
        let m = point_count as usize;
        let ghost laid = layout(bytes@);
        assert(framed(bytes@));
        let mut scalars: Vec<Scalar> = Vec::new();
        let mut i: usize = 0;
        while i < n
            invariant
                i <= n,
                total == bytes@.len(),
                total == 16 + 32 * n + 32 * m,
                laid == layout(bytes@),
                laid.scalars.len() == n,
                scalars@.len() == i,
                forall|k: int| 0 <= k < i ==> (#[trigger] scalars@[k])@ == laid.scalars[k],
                forall|k: int| 0 <= k < i ==> #[trigger] laid.scalars[k] < modulus(),
                decoding(bytes@) is None ==> forall|proof: ProofView|
                    well_formed(proof) ==> #[trigger] encoding(proof) != bytes@,
            decreases n - i,
        {
            let field = slice_subrange(bytes, 8 + 32 * i, 40 + 32 * i);
            assert(field@ == scalar_field(bytes@, i as int));
            match Scalar::from_bytes(field) {
                Ok(scalar) => {
                    scalars.push(scalar);
                },
                Err(_) => {
                    assert(laid.scalars[i as int] >= modulus());
                    return Err(ProofError::DecodingError);
                },
            }
            i = i + 1;
        }
        let mut points: Vec<GroupElement> = Vec::new();
        let mut j: usize = 0;
        while j < m
            invariant
                j <= m,
                total == bytes@.len(),
                total == 16 + 32 * n + 32 * m,
                laid == layout(bytes@),
                laid.scalars.len() == n,
                laid.points.len() == m,
                points@.len() == j,
                forall|k: int| 0 <= k < j ==> (#[trigger] points@[k])@ == laid.points[k],
                forall|k: int| 0 <= k < j ==> is_point_encoding(#[trigger] laid.points[k]),
                decoding(bytes@) is None ==> forall|proof: ProofView|
                    well_formed(proof) ==> #[trigger] encoding(proof) != bytes@,
            decreases m - j,
        {
            let field = slice_subrange(bytes, 16 + 32 * n + 32 * j, 48 + 32 * n + 32 * j);
            assert(field@ == point_field(bytes@, n as nat, j as int));
            match GroupElement::from_compressed(field) {
                Ok(point) => {
                    points.push(point);
                },
                Err(_) => {
                    assert(!is_point_encoding(laid.points[j as int]));
                    return Err(ProofError::DecodingError);
                },
            }
            j = j + 1;
        }
        let proof = Proof { proof: ProofData { scalars }, commitments: Commitments { points } };
        proof {
            assert(proof@ =~= laid);
            assert(well_formed(laid));
        }
        Ok(proof)
    }

    /// The wire format of the proof as text, in base64, for channels that carry text only.
    pub fn serialize_to_string(&self) -> (text: Result<String, ProofError>)
        ensures
            text is Ok <==> encoded_len(self@) / 3 * 4 + 4 <= usize::MAX,
            text matches Ok(encoded) ==> encoded@ == base64_text(encoding(self@)),
            text matches Err(error) ==> error == ProofError::EncodingError,
    {
        let bytes = self.serialize();
        proof {
            lemma_encoding_len(self@);
        }
        if bytes.len() / 3 > (usize::MAX - 4) / 4 {
            return Err(ProofError::EncodingError);
        }
        Ok(to_base64(bytes.as_slice()))
    }

    /// The proof in its wire format.
    pub fn serialize(&self) -> (bytes: Vec<u8>)
        ensures
            bytes@ == encoding(self@),
            well_formed(self@),
    {
        let mut bytes: Vec<u8> = Vec::new();
        let scalars = &self.proof.scalars;
        let points = &self.commitments.points;
        let ghost view = self@;
        let count = u64_to_le_bytes(scalars.len() as u64);
        bytes.extend_from_slice(count.as_slice());
        assert(bytes@ =~= le_bytes(view.scalars.len(), 8));
        let mut i: usize = 0;
        while i < scalars.len()
            invariant
                i <= scalars@.len(),
                view.scalars == scalar_values(scalars@),
                forall|k: int| 0 <= k < i ==> #[trigger] view.scalars[k] < modulus(),
                bytes@ == le_bytes(view.scalars.len(), 8) + joined(
                    scalar_encodings(view.scalars).take(i as int),
                ),
            decreases scalars@.len() - i,
        {
            let ghost before = scalar_encodings(view.scalars).take(i as int);
            let item = scalars[i].to_bytes();
            bytes.extend_from_slice(item.as_slice());
            proof {
                let after = scalar_encodings(view.scalars).take(i + 1);
                assert(after.drop_last() =~= before);
                assert(after.last() == item@);
                assert(bytes@ =~= le_bytes(view.scalars.len(), 8) + joined(after));
            }
            i = i + 1;
        }
        assert(scalar_encodings(view.scalars).take(i as int) =~= scalar_encodings(view.scalars));
        let ghost head = bytes@;
        let count = u64_to_le_bytes(points.len() as u64);
        bytes.extend_from_slice(count.as_slice());
        assert(bytes@ =~= head + le_bytes(view.points.len(), 8));
        let ghost head = bytes@;
        let mut j: usize = 0;
        while j < points.len()
            invariant
                j <= points@.len(),
                view.points == point_encodings(points@),
                forall|k: int| 0 <= k < j ==> is_point_encoding(#[trigger] view.points[k]),
                bytes@ == head + joined(view.points.take(j as int)),
            decreases points@.len() - j,
        {
            let ghost before = view.points.take(j as int);
            let item = points[j].to_compressed();
            bytes.extend_from_slice(item.as_slice());
            proof {
                let after = view.points.take(j + 1);
                assert(after.drop_last() =~= before);
                assert(after.last() == item@);
                assert(bytes@ =~= head + joined(after));
            }
            j = j + 1;
        }
        assert(view.points.take(j as int) =~= view.points);
        bytes
    }

    /// The number of bytes that the proof takes in its wire format. A container always has
    /// an encoding, so this does not fail.
    pub fn size(&self) -> (size: Result<usize, ProofError>)
        ensures
            size == Ok::<usize, ProofError>(encoded_len(self@) as usize),
            encoded_len(self@) <= usize::MAX,
            encoded_len(self@) == encoding(self@).len(),
    {
        let bytes = self.serialize();
        proof {
            lemma_encoding_len(self@);
        }
        Ok(bytes.len())
    }
}

} // verus!

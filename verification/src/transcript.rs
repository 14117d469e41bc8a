//! The Fiat-Shamir transcript.
//!
//! Prover and verifier each feed a `merlin::Transcript` the same labelled messages in the same
//! order and draw their challenges from it, so that the verifier's coins are a function of
//! everything the prover has said. The sponge itself is `merlin`'s. This module fixes how the
//! values of the protocol go into it (a scalar and a point as their canonical bytes, a vector
//! between two delimiters) and how a challenge comes out of it (64 bytes, reduced into the
//! field), and states each operation as a function of the sponge's state before it.

use vstd::prelude::*;
use crate::bytes::{le_bytes, le_nat};
use crate::group::GroupElement;
use crate::scalar::{modulus, scalar_values, Scalar};

verus! {

#[verifier::external_type_specification]
#[verifier::external_body]
pub struct ExSponge(merlin::Transcript);

/// What a transcript holds: the bytes of its sponge and the sponge's position in them.
pub uninterp spec fn sponge_state(transcript: merlin::Transcript) -> Seq<u8>;

/// The state that follows `state` when `message` is absorbed under `label`.
pub uninterp spec fn absorbed(state: Seq<u8>, label: Seq<u8>, message: Seq<u8>) -> Seq<u8>;

/// What drawing `len` challenge bytes under `label` from `state` gives: the bytes drawn, and
/// the state that follows.
pub uninterp spec fn squeezed(state: Seq<u8>, label: Seq<u8>, len: nat) -> (Seq<u8>, Seq<u8>);

/// `merlin::Transcript::append_message`. It refuses a message of more than `u32::MAX` bytes,
/// which the contract leaves out. The contract gives the state that follows its name,
/// `absorbed`: a function of the state before, the label and the message.
#[verifier::external_body]
fn absorb(transcript: &mut merlin::Transcript, label: &'static [u8], message: &[u8])
    requires
        message@.len() <= u32::MAX,
    ensures
        sponge_state(*final(transcript)) == absorbed(sponge_state(*old(transcript)), label@, message@),
{
    transcript.append_message(label, message)
}

/// `merlin::Transcript::challenge_bytes` on a fresh buffer of `len` bytes. It refuses a buffer
/// of more than `u32::MAX` bytes, which the contract leaves out. The contract gives the bytes
/// drawn and the state that follows their name, `squeezed`: a function of the state before,
/// the label and the length; and it claims that the buffer comes back at its length.
#[verifier::external_body]
fn squeeze(transcript: &mut merlin::Transcript, label: &'static [u8], len: usize) -> (drawn: Vec<u8>)
    requires
        len <= u32::MAX,
    ensures
        drawn@ == squeezed(sponge_state(*old(transcript)), label@, len as nat).0,
        drawn@.len() == len,
        sponge_state(*final(transcript)) == squeezed(sponge_state(*old(transcript)), label@, len as nat).1,
{
    let mut drawn = vec![0u8; len];
    transcript.challenge_bytes(label, &mut drawn);
    drawn
}

/// The label under which the name of the protocol is absorbed: `protocol-name` in ASCII.
pub const PROTOCOL_NAME_LABEL: [u8; 13] = [112, 114, 111, 116, 111, 99, 111, 108, 45, 110, 97, 109, 101];

/// The message that opens a vector: `begin_append_vector` in ASCII.
pub const VECTOR_BEGIN: [u8; 19] = [98, 101, 103, 105, 110, 95, 97, 112, 112, 101, 110, 100, 95, 118, 101, 99, 116, 111, 114];

/// The message that closes a vector: `end_append_vector` in ASCII.
pub const VECTOR_END: [u8; 17] = [101, 110, 100, 95, 97, 112, 112, 101, 110, 100, 95, 118, 101, 99, 116, 111, 114];

/// The number of bytes drawn for one challenge scalar: twice the width of the field, so that
/// the reduction into the field leaves no bias worth the name.
pub const CHALLENGE_BYTES: usize = 64;

/// The scalar that a challenge under `label` yields from `state`.
pub open spec fn challenge_value(state: Seq<u8>, label: Seq<u8>) -> nat {
    le_nat(squeezed(state, label, CHALLENGE_BYTES as nat).0) % modulus()
}

/// The state that a challenge under `label` leaves behind.
pub open spec fn challenge_state(state: Seq<u8>, label: Seq<u8>) -> Seq<u8> {
    squeezed(state, label, CHALLENGE_BYTES as nat).1
}

/// The state after `count` challenges under `label`, one after the other.
pub open spec fn challenges_state(state: Seq<u8>, label: Seq<u8>, count: nat) -> Seq<u8>
    decreases count,
{
    if count == 0 {
        state
    } else {
        challenge_state(challenges_state(state, label, (count - 1) as nat), label)
    }
}

/// The scalars that `count` challenges under `label` yield, one after the other.
pub open spec fn challenge_values(state: Seq<u8>, label: Seq<u8>, count: nat) -> Seq<nat>
    decreases count,
{
    if count == 0 {
        Seq::empty()
    } else {
        challenge_values(state, label, (count - 1) as nat).push(
            challenge_value(challenges_state(state, label, (count - 1) as nat), label),
        )
    }
}

/// What the protocol does with a transcript.
pub trait ProofTranscript {
    /// The state of the sponge.
    spec fn state(&self) -> Seq<u8>;

    /// Binds the transcript to a protocol: absorbs its name under `protocol-name`. This is
    /// the first thing to do with a fresh transcript.
    fn append_protocol_name(&mut self, protocol_name: &'static [u8])
        requires
            protocol_name@.len() <= u32::MAX,
        ensures
            final(self).state() == absorbed(old(self).state(), PROTOCOL_NAME_LABEL@, protocol_name@),
    ;

    /// Absorbs the canonical encoding of `scalar` under `label`.
    fn append_scalar(&mut self, label: &'static [u8], scalar: &Scalar)
        ensures
            final(self).state() == absorbed(old(self).state(), label@, le_bytes(scalar@, 32)),
    ;

    /// Absorbs the canonical compressed encoding of `point` under `label`.
    fn append_point(&mut self, label: &'static [u8], point: &GroupElement)
        ensures
            final(self).state() == absorbed(old(self).state(), label@, point@),
    ;

    /// Draws one challenge under `label`: 64 bytes, read as a little-endian number and
    /// reduced into the field. The draw moves the state on, so the next one differs.
    fn challenge_scalar(&mut self, label: &'static [u8]) -> (challenge: Scalar)
        ensures
            challenge@ == challenge_value(old(self).state(), label@),
            final(self).state() == challenge_state(old(self).state(), label@),
    ;

    /// Draws `len` challenges under `label`, as `len` calls of `challenge_scalar` would.
    fn challenge_vector(&mut self, label: &'static [u8], len: usize) -> (challenges: Vec<Scalar>)
        ensures
            challenges@.len() == len,
            scalar_values(challenges@) == challenge_values(old(self).state(), label@, len as nat),
            final(self).state() == challenges_state(old(self).state(), label@, len as nat),
    ;
}

impl ProofTranscript for merlin::Transcript {
    open spec fn state(&self) -> Seq<u8> {
        sponge_state(*self)
    }

    fn append_protocol_name(&mut self, protocol_name: &'static [u8]) {
        absorb(self, PROTOCOL_NAME_LABEL.as_slice(), protocol_name);
    }

    fn append_scalar(&mut self, label: &'static [u8], scalar: &Scalar) {
        let message = scalar.to_bytes();
        absorb(self, label, message.as_slice());
    }

    fn append_point(&mut self, label: &'static [u8], point: &GroupElement) {
        let message = point.to_compressed();
        absorb(self, label, message.as_slice());
    }

    fn challenge_scalar(&mut self, label: &'static [u8]) -> (challenge: Scalar) {
        let drawn = squeeze(self, label, CHALLENGE_BYTES);
        Scalar::from_le_bytes_mod_order(drawn.as_slice())
    }

    fn challenge_vector(&mut self, label: &'static [u8], len: usize) -> (challenges: Vec<Scalar>) {
        let ghost start = sponge_state(*self);
        let mut challenges: Vec<Scalar> = Vec::new();
        let mut i: usize = 0;
        while i < len
            invariant
                i <= len,
                challenges@.len() == i,
                scalar_values(challenges@) == challenge_values(start, label@, i as nat),
                sponge_state(*self) == challenges_state(start, label@, i as nat),
            decreases len - i,
        {
            let challenge = self.challenge_scalar(label);
            proof {
                assert(scalar_values(challenges@.push(challenge)) =~= scalar_values(challenges@).push(challenge@));
            }
            challenges.push(challenge);
            i = i + 1;
        }
        challenges
    }
}

/// One labelled message, as a transcript absorbs it.
pub struct Absorption {
    pub label: Seq<u8>,
    pub message: Seq<u8>,
}

/// The state that follows `state` when `absorptions` are absorbed one after the other.
pub open spec fn absorbed_all(state: Seq<u8>, absorptions: Seq<Absorption>) -> Seq<u8>
    decreases absorptions.len(),
{
    if absorptions.len() == 0 {
        state
    } else {
        absorbed(
            absorbed_all(state, absorptions.drop_last()),
            absorptions.last().label,
            absorptions.last().message,
        )
    }
}

/// The scalars `values` under `label`, each absorbed by itself.
pub open spec fn unframed(label: Seq<u8>, values: Seq<nat>) -> Seq<Absorption> {
    Seq::new(values.len(), |i: int| Absorption { label, message: le_bytes(values[i], 32) })
}

/// The scalars `values` under `label` as one vector: between an opening and a closing
/// delimiter, so that where the vector starts and ends is itself part of what is absorbed.
pub open spec fn framed(label: Seq<u8>, values: Seq<nat>) -> Seq<Absorption> {
    seq![Absorption { label, message: VECTOR_BEGIN@ }] + unframed(label, values)
        + seq![Absorption { label, message: VECTOR_END@ }]
}

/// A value that can go into a transcript. Scalars, vectors of scalars and points come with
/// the capability; a new kind of value joins by implementing it.
pub trait AppendToTranscript {
    /// The labelled messages that stand for the value, in the order in which they go in.
    spec fn absorptions(&self, label: Seq<u8>) -> Seq<Absorption>;

    /// Absorbs the value into `transcript` under `label`.
    fn append_to_transcript(&self, label: &'static [u8], transcript: &mut merlin::Transcript)
        ensures
            sponge_state(*final(transcript)) == absorbed_all(
                sponge_state(*old(transcript)),
                self.absorptions(label@),
            ),
    ;
}

impl AppendToTranscript for Scalar {
    open spec fn absorptions(&self, label: Seq<u8>) -> Seq<Absorption> {
        seq![Absorption { label, message: le_bytes(self@, 32) }]
    }

    fn append_to_transcript(&self, label: &'static [u8], transcript: &mut merlin::Transcript) {
        transcript.append_scalar(label, self);
        proof {
            lemma_absorbed_one(sponge_state(*old(transcript)), self.absorptions(label@)[0]);
        }
    }
}

impl AppendToTranscript for [Scalar] {
    open spec fn absorptions(&self, label: Seq<u8>) -> Seq<Absorption> {
        framed(label, scalar_values(self@))
    }

    fn append_to_transcript(&self, label: &'static [u8], transcript: &mut merlin::Transcript) {
        let ghost start = sponge_state(*transcript);
        let ghost values = scalar_values(self@);
        let ghost opening = seq![Absorption { label: label@, message: VECTOR_BEGIN@ }];
        absorb(transcript, label, VECTOR_BEGIN.as_slice());
        proof {
            lemma_absorbed_one(start, opening[0]);
            assert(opening + unframed(label@, values.take(0)) =~= opening);
        }
        let mut i: usize = 0;
        while i < self.len()
            invariant
                i <= self@.len(),
                values == scalar_values(self@),
                opening == seq![Absorption { label: label@, message: VECTOR_BEGIN@ }],
                sponge_state(*transcript) == absorbed_all(
                    start,
                    opening + unframed(label@, values.take(i as int)),
                ),
            decreases self@.len() - i,
        {
            let ghost before = opening + unframed(label@, values.take(i as int));
            transcript.append_scalar(label, &self[i]);
            proof {
                let item = Absorption { label: label@, message: le_bytes(self@[i as int]@, 32) };
                assert(opening + unframed(label@, values.take(i + 1)) =~= before.push(item));
                assert(before.push(item).drop_last() =~= before);
            }
            i = i + 1;
        }
        absorb(transcript, label, VECTOR_END.as_slice());
        proof {
            let body = opening + unframed(label@, values);
            let closing = Absorption { label: label@, message: VECTOR_END@ };
            assert(values.take(i as int) =~= values);
            assert(framed(label@, values) =~= body.push(closing));
            assert(body.push(closing).drop_last() =~= body);
        }
    }
}

impl AppendToTranscript for GroupElement {
    open spec fn absorptions(&self, label: Seq<u8>) -> Seq<Absorption> {
        seq![Absorption { label, message: self@ }]
    }

    fn append_to_transcript(&self, label: &'static [u8], transcript: &mut merlin::Transcript) {
        transcript.append_point(label, self);
        proof {
            lemma_absorbed_one(sponge_state(*old(transcript)), self.absorptions(label@)[0]);
        }
    }
}

/// Absorbing a sequence of one message is absorbing that message.
pub proof fn lemma_absorbed_one(state: Seq<u8>, absorption: Absorption)
    ensures
        absorbed_all(state, seq![absorption]) == absorbed(state, absorption.label, absorption.message),
{
    let one = seq![absorption];
    assert(one.drop_last() =~= Seq::<Absorption>::empty());
    assert(absorbed_all(state, one.drop_last()) == state);
}

/// A vector goes in framed: what is absorbed for the scalars as one vector is never what is
/// absorbed for the same scalars one by one.
pub proof fn lemma_vector_is_framed(label: Seq<u8>, values: Seq<nat>)
    ensures
        framed(label, values) != unframed(label, values),
{
    assert(framed(label, values).len() == values.len() + 2);
}

/// A vector cannot be cut in two: what is absorbed for two vectors, one after the other,
/// is never what is absorbed for the one vector that holds the scalars of both.
pub proof fn lemma_vectors_do_not_merge(label: Seq<u8>, front: Seq<nat>, back: Seq<nat>)
    ensures
        framed(label, front) + framed(label, back) != framed(label, front + back),
{
    assert(framed(label, front).len() == front.len() + 2);
    assert(framed(label, back).len() == back.len() + 2);
    assert(framed(label, front + back).len() == front.len() + back.len() + 2);
}

/// The label is part of what is absorbed: the same scalars under two labels are absorbed
/// as two different sequences of messages.
pub proof fn lemma_labels_separate(first: Seq<u8>, second: Seq<u8>, values: Seq<nat>)
    requires
        first != second,
    ensures
        framed(first, values) != framed(second, values),
        values.len() > 0 ==> unframed(first, values) != unframed(second, values),
{
    assert(framed(first, values)[0].label == first);
    assert(framed(second, values)[0].label == second);
    if values.len() > 0 {
        assert(unframed(first, values)[0].label == first);
        assert(unframed(second, values)[0].label == second);
    }
}

/// A vector of challenges is the challenges drawn one after the other: there are as many
/// as were asked for, and each is the challenge that the state yields after those before it.
pub proof fn lemma_challenge_vector_is_sequential(state: Seq<u8>, label: Seq<u8>, count: nat)
    ensures
        challenge_values(state, label, count).len() == count,
        forall|i: int|
            0 <= i < count ==> #[trigger] challenge_values(state, label, count)[i]
                == challenge_value(challenges_state(state, label, i as nat), label),
        forall|i: nat|
            #[trigger] challenges_state(state, label, i + 1) == challenge_state(
                challenges_state(state, label, i),
                label,
            ),
    decreases count,
{
    if count > 0 {
        lemma_challenge_vector_is_sequential(state, label, (count - 1) as nat);
    }
}

/// What is asked of a transcript: to absorb a message, or to yield challenges.
pub enum Request {
    Append { label: Seq<u8>, message: Seq<u8> },
    Challenge { label: Seq<u8>, count: nat },
}

/// What comes of serving `requests` in order from `state`: the state at the end, and all
/// the challenges drawn on the way.
pub open spec fn served(state: Seq<u8>, requests: Seq<Request>) -> (Seq<u8>, Seq<nat>)
    decreases requests.len(),
{
    if requests.len() == 0 {
        (state, Seq::empty())
    } else {
        let (before, drawn) = served(state, requests.drop_last());
        match requests.last() {
            Request::Append { label, message } => (absorbed(before, label, message), drawn),
            Request::Challenge { label, count } => (
                challenges_state(before, label, count),
                drawn + challenge_values(before, label, count),
            ),
        }
    }
}

/// Two transcripts in the same state that are asked the same things in the same order
/// yield the same challenges and end in the same state.
pub proof fn lemma_same_requests_same_challenges(
    prover: merlin::Transcript,
    verifier: merlin::Transcript,
    requests: Seq<Request>,
)
    requires
        sponge_state(prover) == sponge_state(verifier),
    ensures
        served(sponge_state(prover), requests) == served(sponge_state(verifier), requests),
{
}

} // verus!

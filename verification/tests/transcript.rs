use ark_ff::PrimeField;
use ark_serialize::CanonicalSerialize;
use jolt::group::GroupElement;
use jolt::scalar::Scalar;
use jolt::transcript::{
    AppendToTranscript, ProofTranscript, CHALLENGE_BYTES, PROTOCOL_NAME_LABEL, VECTOR_BEGIN,
    VECTOR_END,
};
use merlin::Transcript;

fn scalar(value: u64) -> Scalar {
    Scalar::from_le_bytes_mod_order(&value.to_le_bytes())
}

fn generator() -> GroupElement {
    let mut bytes = [0u8; 32];
    bytes[0] = 1;
    GroupElement::from_compressed(&bytes).unwrap()
}

fn bound() -> Transcript {
    let mut transcript = Transcript::new(b"test");
    transcript.append_protocol_name(b"test-protocol");
    transcript
}

#[test]
fn labels_spell_their_names() {
    assert_eq!(&PROTOCOL_NAME_LABEL[..], b"protocol-name");
    assert_eq!(&VECTOR_BEGIN[..], b"begin_append_vector");
    assert_eq!(&VECTOR_END[..], b"end_append_vector");
    assert_eq!(CHALLENGE_BYTES, 64);
}

#[test]
fn same_history_gives_the_same_challenges() {
    let mut prover = bound();
    let mut verifier = bound();
    prover.append_scalar(b"x", &scalar(1));
    verifier.append_scalar(b"x", &scalar(1));
    prover.append_point(b"p", &generator());
    verifier.append_point(b"p", &generator());
    assert_eq!(prover.challenge_scalar(b"c"), verifier.challenge_scalar(b"c"));
    let values = [scalar(3), scalar(4), scalar(5)];
    values[..].append_to_transcript(b"v", &mut prover);
    values[..].append_to_transcript(b"v", &mut verifier);
    assert_eq!(prover.challenge_vector(b"v", 4), verifier.challenge_vector(b"v", 4));
    assert_eq!(prover.challenge_scalar(b"c"), verifier.challenge_scalar(b"c"));
}

#[test]
fn protocol_name_goes_in_under_its_label() {
    let mut ours = Transcript::new(b"test");
    let mut theirs = Transcript::new(b"test");
    ours.append_protocol_name(b"test-protocol");
    theirs.append_message(b"protocol-name", b"test-protocol");
    assert_eq!(ours.challenge_scalar(b"c"), theirs.challenge_scalar(b"c"));
}

#[test]
fn scalar_goes_in_as_its_canonical_bytes() {
    let mut ours = bound();
    let mut theirs = bound();
    ours.append_scalar(b"x", &scalar(258));
    let mut message = [0u8; 32];
    message[0] = 2;
    message[1] = 1;
    theirs.append_message(b"x", &message);
    assert_eq!(ours.challenge_scalar(b"c"), theirs.challenge_scalar(b"c"));
}

#[test]
fn point_goes_in_as_its_compressed_bytes() {
    let mut ours = bound();
    let mut theirs = bound();
    ours.append_point(b"p", &generator());
    let mut message = Vec::new();
    let point = <ark_bn254::G1Projective as ark_ec::Group>::generator();
    point.serialize_compressed(&mut message).unwrap();
    theirs.append_message(b"p", &message);
    assert_eq!(ours.challenge_scalar(b"c"), theirs.challenge_scalar(b"c"));
}

#[test]
fn challenge_is_the_wide_reduction_of_the_drawn_bytes() {
    let mut ours = bound();
    let mut theirs = bound();
    let challenge = ours.challenge_scalar(b"c");
    let mut drawn = [0u8; 64];
    theirs.challenge_bytes(b"c", &mut drawn);
    let element = ark_bn254::Fr::from_le_bytes_mod_order(&drawn);
    let mut expected = Vec::new();
    element.serialize_compressed(&mut expected).unwrap();
    assert_eq!(&challenge.to_bytes()[..], &expected[..]);
    assert_ne!(&challenge.to_bytes()[..], &drawn[..32]);
    assert_eq!(ours.challenge_scalar(b"d"), theirs.challenge_scalar(b"d"));
}

#[test]
fn different_labels_give_different_challenges() {
    let mut first = bound();
    let mut second = bound();
    first.append_scalar(b"a", &scalar(9));
    second.append_scalar(b"b", &scalar(9));
    assert_ne!(first.challenge_scalar(b"c"), second.challenge_scalar(b"c"));
}

#[test]
fn different_challenge_labels_give_different_challenges() {
    let mut first = bound();
    let mut second = bound();
    assert_ne!(first.challenge_scalar(b"c"), second.challenge_scalar(b"d"));
}

#[test]
fn different_protocol_names_give_different_challenges() {
    let mut first = Transcript::new(b"test");
    let mut second = Transcript::new(b"test");
    first.append_protocol_name(b"protocol-one");
    second.append_protocol_name(b"protocol-two");
    first.append_scalar(b"x", &scalar(1));
    second.append_scalar(b"x", &scalar(1));
    assert_ne!(first.challenge_scalar(b"c"), second.challenge_scalar(b"c"));
}

#[test]
fn vector_is_framed() {
    let mut framed = bound();
    let mut plain = bound();
    let values = [scalar(7), scalar(8)];
    values[..].append_to_transcript(b"v", &mut framed);
    values[0].append_to_transcript(b"v", &mut plain);
    values[1].append_to_transcript(b"v", &mut plain);
    assert_ne!(framed.challenge_scalar(b"c"), plain.challenge_scalar(b"c"));
}

#[test]
fn vector_goes_in_between_its_delimiters() {
    let mut ours = bound();
    let mut theirs = bound();
    let values = [scalar(7), scalar(8)];
    values[..].append_to_transcript(b"v", &mut ours);
    theirs.append_message(b"v", b"begin_append_vector");
    theirs.append_scalar(b"v", &values[0]);
    theirs.append_scalar(b"v", &values[1]);
    theirs.append_message(b"v", b"end_append_vector");
    assert_eq!(ours.challenge_scalar(b"c"), theirs.challenge_scalar(b"c"));
}

#[test]
fn empty_vector_still_leaves_its_frame() {
    let mut framed = bound();
    let mut untouched = bound();
    let values: [Scalar; 0] = [];
    values[..].append_to_transcript(b"v", &mut framed);
    assert_ne!(framed.challenge_scalar(b"c"), untouched.challenge_scalar(b"c"));
}

#[test]
fn two_vectors_are_not_one() {
    let mut split = bound();
    let mut whole = bound();
    let values = [scalar(1), scalar(2), scalar(3)];
    values[..1].append_to_transcript(b"v", &mut split);
    values[1..].append_to_transcript(b"v", &mut split);
    values[..].append_to_transcript(b"v", &mut whole);
    assert_ne!(split.challenge_scalar(b"c"), whole.challenge_scalar(b"c"));
}

#[test]
fn scalar_and_point_append_through_the_capability() {
    let mut direct = bound();
    let mut through = bound();
    direct.append_scalar(b"s", &scalar(11));
    direct.append_point(b"p", &generator());
    scalar(11).append_to_transcript(b"s", &mut through);
    generator().append_to_transcript(b"p", &mut through);
    assert_eq!(direct.challenge_scalar(b"c"), through.challenge_scalar(b"c"));
}

#[test]
fn challenge_vector_is_three_sequential_challenges() {
    let mut vector = bound();
    let mut sequential = bound();
    let challenges = vector.challenge_vector(b"r", 3);
    assert_eq!(challenges.len(), 3);
    let one = sequential.challenge_scalar(b"r");
    let two = sequential.challenge_scalar(b"r");
    let three = sequential.challenge_scalar(b"r");
    assert_eq!(challenges, vec![one, two, three]);
    assert_eq!(vector.challenge_scalar(b"c"), sequential.challenge_scalar(b"c"));
}

#[test]
fn challenge_vector_yields_distinct_challenges() {
    let mut transcript = bound();
    let challenges = transcript.challenge_vector(b"r", 3);
    assert_ne!(challenges[0], challenges[1]);
    assert_ne!(challenges[0], challenges[2]);
    assert_ne!(challenges[1], challenges[2]);
}

#[test]
fn challenge_vector_of_none_is_empty_and_leaves_the_state() {
    let mut drawn = bound();
    let mut untouched = bound();
    assert_eq!(drawn.challenge_vector(b"r", 0), Vec::<Scalar>::new());
    assert_eq!(drawn.challenge_scalar(b"c"), untouched.challenge_scalar(b"c"));
}

#[test]
fn repeated_challenge_differs() {
    let mut transcript = bound();
    let first = transcript.challenge_scalar(b"c");
    let second = transcript.challenge_scalar(b"c");
    assert_ne!(first, second);
}

#[test]
fn concrete_scenario() {
    let mut transcript = Transcript::new(b"test");
    transcript.append_protocol_name(b"test-protocol");
    transcript.append_scalar(b"x", &scalar(1));
    let challenge = transcript.challenge_scalar(b"c");
    assert_eq!(
        challenge.to_bytes(),
        [
            251, 229, 46, 196, 122, 243, 149, 184, 247, 217, 100, 181, 144, 120, 35, 52, 203, 196,
            244, 172, 159, 109, 112, 97, 17, 206, 12, 166, 83, 225, 208, 17
        ]
    );
    let mut other = Transcript::new(b"test");
    other.append_protocol_name(b"test-protocol");
    other.append_scalar(b"x", &scalar(2));
    let changed = other.challenge_scalar(b"c");
    assert_eq!(
        changed.to_bytes(),
        [
            166, 166, 2, 77, 208, 191, 222, 132, 83, 7, 16, 87, 25, 129, 110, 56, 76, 26, 157, 247,
            130, 75, 108, 223, 100, 15, 125, 189, 62, 227, 5, 17
        ]
    );
    assert_ne!(challenge, changed);
}

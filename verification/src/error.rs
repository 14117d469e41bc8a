//! The failures that handling a proof can end in.

use vstd::prelude::*;

verus! {

/// Why a proof could not be written out or read back.
#[derive(Clone, Copy, Debug, PartialEq, Eq, Structural)]
pub enum ProofError {
    /// A value could not be put into its canonical byte form. A well-formed value always can,
    /// so this marks a broken invariant and not a bad input.
    EncodingError,
    /// The bytes are not the canonical form of any value: the stream ends early or runs on
    /// past the value, a field element is not below the modulus, or a point is not one of
    /// the curve in its one accepted spelling.
    DecodingError,
    /// The file system refused to open, create, read or write.
    IoError,
}

} // verus!

//! Little-endian readings of byte strings.
//!
//! Every fixed-width number in the wire format is a little-endian byte string: the scalars of
//! the field (32 bytes) and the length prefixes of the aggregates (8 bytes). This module holds
//! the two directions as mathematical functions, `le_nat` and `le_bytes`, the proofs that they
//! invert each other, and the executable conversions for the 8-byte case.

use vstd::prelude::*;

verus! {

/// 256 to the power `n`.
pub open spec fn pow256(n: nat) -> nat
    decreases n,
{
    if n == 0 {
        1
    } else {
        256 * pow256((n - 1) as nat)
    }
}

/// The number that `bytes` spells in base 256, least significant digit first.
pub open spec fn le_nat(bytes: Seq<u8>) -> nat
    decreases bytes.len(),
{
    if bytes.len() == 0 {
        0
    } else {
        bytes[0] as nat + 256 * le_nat(bytes.drop_first())
    }
}

/// The `len` lowest base-256 digits of `value`, least significant first.
pub open spec fn le_bytes(value: nat, len: nat) -> Seq<u8>
    decreases len,
{
    if len == 0 {
        Seq::empty()
    } else {
        seq![(value % 256) as u8] + le_bytes(value / 256, (len - 1) as nat)
    }
}

/// `le_bytes` yields exactly as many digits as it is asked for.
pub proof fn lemma_le_bytes_len(value: nat, len: nat)
    ensures
        le_bytes(value, len).len() == len,
    decreases len,
{
    if len > 0 {
        lemma_le_bytes_len(value / 256, (len - 1) as nat);
    }
}

/// A byte string of length `n` spells a number below `256^n`.
pub proof fn lemma_le_nat_bound(bytes: Seq<u8>)
    ensures
        le_nat(bytes) < pow256(bytes.len()),
    decreases bytes.len(),
{
    if bytes.len() > 0 {
        lemma_le_nat_bound(bytes.drop_first());
    }
}

/// Reading back the digits of a number that fits in `len` digits gives the number.
pub proof fn lemma_le_nat_of_le_bytes(value: nat, len: nat)
    requires
        value < pow256(len),
    ensures
        le_nat(le_bytes(value, len)) == value,
    decreases len,
{
    if len > 0 {
        let rest = le_bytes(value / 256, (len - 1) as nat);
        let whole = le_bytes(value, len);
        lemma_le_nat_of_le_bytes(value / 256, (len - 1) as nat);
        assert(whole.drop_first() =~= rest);
        assert(whole[0] == (value % 256) as u8);
    }
}

/// Writing out the number that a byte string spells, at the same width, gives the string.
pub proof fn lemma_le_bytes_of_le_nat(bytes: Seq<u8>)
    ensures
        le_bytes(le_nat(bytes), bytes.len()) == bytes,
    decreases bytes.len(),
{
    if bytes.len() > 0 {
        let value = le_nat(bytes);
        let tail = bytes.drop_first();
        lemma_le_bytes_of_le_nat(tail);
        assert(value % 256 == bytes[0] as nat);
        assert(value / 256 == le_nat(tail));
        assert(le_bytes(value, bytes.len()) =~= bytes);
    }
}

/// Eight digits hold exactly the 64-bit numbers.
pub proof fn lemma_pow256_8()
    ensures
        pow256(8) == 0x1_0000_0000_0000_0000,
{
    reveal_with_fuel(pow256, 9);
}

/// The eight little-endian bytes of a 64-bit number.
pub fn u64_to_le_bytes(value: u64) -> (bytes: [u8; 8])
    ensures
        bytes@ == le_bytes(value as nat, 8),
{
    let b0: u8 = (value % 256) as u8;
    let v1: u64 = value / 256;
    let b1: u8 = (v1 % 256) as u8;
    let v2: u64 = v1 / 256;
    let b2: u8 = (v2 % 256) as u8;
    let v3: u64 = v2 / 256;
    let b3: u8 = (v3 % 256) as u8;
    let v4: u64 = v3 / 256;
    let b4: u8 = (v4 % 256) as u8;
    let v5: u64 = v4 / 256;
    let b5: u8 = (v5 % 256) as u8;
    let v6: u64 = v5 / 256;
    let b6: u8 = (v6 % 256) as u8;
    let v7: u64 = v6 / 256;
    let b7: u8 = (v7 % 256) as u8;
    let bytes: [u8; 8] = [b0, b1, b2, b3, b4, b5, b6, b7];
    proof {
        reveal_with_fuel(le_bytes, 9);
        assert(bytes@ =~= le_bytes(value as nat, 8));
    }
    bytes
}

/// The 64-bit number that the eight bytes of `bytes` from position `at` spell.
pub fn u64_from_le_bytes(bytes: &[u8], at: usize) -> (value: u64)
    requires
        at + 8 <= bytes@.len(),
    ensures
        value as nat == le_nat(bytes@.subrange(at as int, at + 8)),
{
    let len: usize = bytes.len();
    assert(at + 8 <= len);
    let v7: u64 = bytes[at + 7] as u64;
    let v6: u64 = v7 * 256 + bytes[at + 6] as u64;
    let v5: u64 = v6 * 256 + bytes[at + 5] as u64;
    let v4: u64 = v5 * 256 + bytes[at + 4] as u64;
    let v3: u64 = v4 * 256 + bytes[at + 3] as u64;
    let v2: u64 = v3 * 256 + bytes[at + 2] as u64;
    let v1: u64 = v2 * 256 + bytes[at + 1] as u64;
    let v0: u64 = v1 * 256 + bytes[at] as u64;
    proof {
        let field = bytes@.subrange(at as int, at + 8);
        let f1 = field.drop_first();
        let f2 = f1.drop_first();
        let f3 = f2.drop_first();
        let f4 = f3.drop_first();
        let f5 = f4.drop_first();
        let f6 = f5.drop_first();
        let f7 = f6.drop_first();
        assert(le_nat(f7.drop_first()) == 0);
        assert(le_nat(f7) == v7);
        assert(le_nat(f6) == v6);
        assert(le_nat(f5) == v5);
        assert(le_nat(f4) == v4);
        assert(le_nat(f3) == v3);
        assert(le_nat(f2) == v2);
        assert(le_nat(f1) == v1);
        assert(le_nat(field) == v0);
    }
    v0
}

/// The byte strings `chunks`, one after the other.
pub open spec fn joined(chunks: Seq<Seq<u8>>) -> Seq<u8>
    decreases chunks.len(),
{
    if chunks.len() == 0 {
        Seq::empty()
    } else {
        joined(chunks.drop_last()) + chunks.last()
    }
}

/// Whether every one of `chunks` is 32 bytes long, the width of a scalar and of a point.
pub open spec fn all_32_wide(chunks: Seq<Seq<u8>>) -> bool {
    forall|i: int| 0 <= i < chunks.len() ==> (#[trigger] chunks[i]).len() == 32
}

/// The first `count` pieces of 32 bytes of `data`.
pub open spec fn cut(data: Seq<u8>, count: nat) -> Seq<Seq<u8>> {
    Seq::new(count, |i: int| data.subrange(32 * i, 32 * i + 32))
}

/// Chunks of 32 bytes, joined, take 32 bytes each.
pub proof fn lemma_joined_len(chunks: Seq<Seq<u8>>)
    requires
        all_32_wide(chunks),
    ensures
        joined(chunks).len() == 32 * chunks.len(),
    decreases chunks.len(),
{
    if chunks.len() > 0 {
        lemma_joined_len(chunks.drop_last());
    }
}

/// Cutting what was joined from chunks of 32 bytes gives the chunks back.
pub proof fn lemma_cut_joined(chunks: Seq<Seq<u8>>)
    requires
        all_32_wide(chunks),
    ensures
        cut(joined(chunks), chunks.len()) == chunks,
    decreases chunks.len(),
{
    if chunks.len() > 0 {
        let front = chunks.drop_last();
        lemma_cut_joined(front);
        lemma_joined_len(front);
        let whole = joined(chunks);
        assert forall|i: int| 0 <= i < chunks.len() implies cut(whole, chunks.len())[i]
            == chunks[i] by {
            if i < front.len() {
                assert(cut(joined(front), front.len())[i] == front[i]);
                assert(whole.subrange(32 * i, 32 * i + 32) =~= joined(front).subrange(
                    32 * i,
                    32 * i + 32,
                ));
            } else {
                assert(whole.subrange(32 * i, 32 * i + 32) =~= chunks.last());
            }
        }
        assert(cut(whole, chunks.len()) =~= chunks);
    } else {
        assert(cut(joined(chunks), chunks.len()) =~= chunks);
    }
}

/// Joining the pieces that data of `count` times 32 bytes was cut into gives the data back.
pub proof fn lemma_joined_cut(data: Seq<u8>, count: nat)
    requires
        data.len() == 32 * count,
    ensures
        joined(cut(data, count)) == data,
    decreases count,
{
    if count > 0 {
        let front = data.subrange(0, 32 * (count - 1));
        lemma_joined_cut(front, (count - 1) as nat);
        assert(cut(data, count).drop_last() =~= cut(front, (count - 1) as nat)) by {
            assert forall|i: int| 0 <= i < count - 1 implies cut(data, count).drop_last()[i] == cut(
                front,
                (count - 1) as nat,
            )[i] by {
                assert(data.subrange(32 * i, 32 * i + 32) =~= front.subrange(32 * i, 32 * i + 32));
            }
        }
        assert(joined(cut(data, count)) =~= data);
    } else {
        assert(joined(cut(data, count)) =~= data);
    }
}

/// Whether two byte strings are the same string.
pub fn same_bytes(a: &[u8], b: &[u8]) -> (same: bool)
    ensures
        same <==> a@ == b@,
{
    if a.len() != b.len() {
        return false;
    }
    let mut i: usize = 0;
    while i < a.len()
        invariant
            i <= a@.len(),
            a@.len() == b@.len(),
            forall|j: int| 0 <= j < i ==> a@[j] == b@[j],
        decreases a@.len() - i,
    {
        if a[i] != b[i] {
            return false;
        }
        i = i + 1;
    }
    assert(a@ =~= b@);
    true
}

} // verus!

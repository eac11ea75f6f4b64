//! The tables of DES and what the cipher relies on about them.
use vstd::prelude::*;
use crate::bits;
use crate::bits::permute;

verus! {

/// Initial permutation: output bit `i` is input bit `IP[i]`, counted from one.
pub const IP: [u8; 64] = [
    58, 50, 42, 34, 26, 18, 10, 2, 60, 52, 44, 36, 28, 20, 12, 4,
    62, 54, 46, 38, 30, 22, 14, 6, 64, 56, 48, 40, 32, 24, 16, 8,
    57, 49, 41, 33, 25, 17, 9, 1, 59, 51, 43, 35, 27, 19, 11, 3,
    61, 53, 45, 37, 29, 21, 13, 5, 63, 55, 47, 39, 31, 23, 15, 7,
];

/// Final permutation, the inverse of [`IP`].
pub const FP: [u8; 64] = [
    40, 8, 48, 16, 56, 24, 64, 32, 39, 7, 47, 15, 55, 23, 63, 31,
    38, 6, 46, 14, 54, 22, 62, 30, 37, 5, 45, 13, 53, 21, 61, 29,
    36, 4, 44, 12, 52, 20, 60, 28, 35, 3, 43, 11, 51, 19, 59, 27,
    34, 2, 42, 10, 50, 18, 58, 26, 33, 1, 41, 9, 49, 17, 57, 25,
];

/// First key selection: the 56 key bits that are not parity.
pub const PC1: [u8; 56] = [
    57, 49, 41, 33, 25, 17, 9, 1, 58, 50, 42, 34, 26, 18, 10, 2,
    59, 51, 43, 35, 27, 19, 11, 3, 60, 52, 44, 36, 63, 55, 47, 39,
    31, 23, 15, 7, 62, 54, 46, 38, 30, 22, 14, 6, 61, 53, 45, 37,
    29, 21, 13, 5, 28, 20, 12, 4,
];

/// Second key selection: the 48 bits of a round key.
pub const PC2: [u8; 48] = [
    14, 17, 11, 24, 1, 5, 3, 28, 15, 6, 21, 10, 23, 19, 12, 4,
    26, 8, 16, 7, 27, 20, 13, 2, 41, 52, 31, 37, 47, 55, 30, 40,
    51, 45, 33, 48, 44, 49, 39, 56, 34, 53, 46, 42, 50, 36, 29, 32,
];

/// Left rotation of the key halves in each round.
pub const SHIFTS: [u8; 16] = [
    1, 1, 2, 2, 2, 2, 2, 2, 1, 2, 2, 2, 2, 2, 2, 1,
];

/// Expansion of a 32-bit half to 48 bits.
pub const E: [u8; 48] = [
    32, 1, 2, 3, 4, 5, 4, 5, 6, 7, 8, 9, 8, 9, 10, 11,
    12, 13, 12, 13, 14, 15, 16, 17, 16, 17, 18, 19, 20, 21, 20, 21,
    22, 23, 24, 25, 24, 25, 26, 27, 28, 29, 28, 29, 30, 31, 32, 1,
];

/// Permutation of the substituted bits.
pub const P: [u8; 32] = [
    16, 7, 20, 21, 29, 12, 28, 17, 1, 15, 23, 26, 5, 18, 31, 10,
    2, 8, 24, 14, 32, 27, 3, 9, 19, 13, 30, 6, 22, 11, 4, 25,
];

/// The eight substitution boxes, four rows of sixteen columns each.
pub const S: [u8; 512] = [
    14, 4, 13, 1, 2, 15, 11, 8, 3, 10, 6, 12, 5, 9, 0, 7,
    0, 15, 7, 4, 14, 2, 13, 1, 10, 6, 12, 11, 9, 5, 3, 8,
    4, 1, 14, 8, 13, 6, 2, 11, 15, 12, 9, 7, 3, 10, 5, 0,
    15, 12, 8, 2, 4, 9, 1, 7, 5, 11, 3, 14, 10, 0, 6, 13,
    15, 1, 8, 14, 6, 11, 3, 4, 9, 7, 2, 13, 12, 0, 5, 10,
    3, 13, 4, 7, 15, 2, 8, 14, 12, 0, 1, 10, 6, 9, 11, 5,
    0, 14, 7, 11, 10, 4, 13, 1, 5, 8, 12, 6, 9, 3, 2, 15,
    13, 8, 10, 1, 3, 15, 4, 2, 11, 6, 7, 12, 0, 5, 14, 9,
    10, 0, 9, 14, 6, 3, 15, 5, 1, 13, 12, 7, 11, 4, 2, 8,
    13, 7, 0, 9, 3, 4, 6, 10, 2, 8, 5, 14, 12, 11, 15, 1,
    13, 6, 4, 9, 8, 15, 3, 0, 11, 1, 2, 12, 5, 10, 14, 7,
    1, 10, 13, 0, 6, 9, 8, 7, 4, 15, 14, 3, 11, 5, 2, 12,
    7, 13, 14, 3, 0, 6, 9, 10, 1, 2, 8, 5, 11, 12, 4, 15,
    13, 8, 11, 5, 6, 15, 0, 3, 4, 7, 2, 12, 1, 10, 14, 9,
    10, 6, 9, 0, 12, 11, 7, 13, 15, 1, 3, 14, 5, 2, 8, 4,
    3, 15, 0, 6, 10, 1, 13, 8, 9, 4, 5, 11, 12, 7, 2, 14,
    2, 12, 4, 1, 7, 10, 11, 6, 8, 5, 3, 15, 13, 0, 14, 9,
    14, 11, 2, 12, 4, 7, 13, 1, 5, 0, 15, 10, 3, 9, 8, 6,
    4, 2, 1, 11, 10, 13, 7, 8, 15, 9, 12, 5, 6, 3, 0, 14,
    11, 8, 12, 7, 1, 14, 2, 13, 6, 15, 0, 9, 10, 4, 5, 3,
    12, 1, 10, 15, 9, 2, 6, 8, 0, 13, 3, 4, 14, 7, 5, 11,
    10, 15, 4, 2, 7, 12, 9, 5, 6, 1, 13, 14, 0, 11, 3, 8,
    9, 14, 15, 5, 2, 8, 12, 3, 7, 0, 4, 10, 1, 13, 11, 6,
    4, 3, 2, 12, 9, 5, 15, 10, 11, 14, 1, 7, 6, 0, 8, 13,
    4, 11, 2, 14, 15, 0, 8, 13, 3, 12, 9, 7, 5, 10, 6, 1,
    13, 0, 11, 7, 4, 9, 1, 10, 14, 3, 5, 12, 2, 15, 8, 6,
    1, 4, 11, 13, 12, 3, 7, 14, 10, 15, 6, 8, 0, 5, 9, 2,
    6, 11, 13, 8, 1, 4, 10, 7, 9, 5, 0, 15, 14, 2, 3, 12,
    13, 2, 8, 4, 6, 15, 11, 1, 10, 9, 3, 14, 5, 0, 12, 7,
    1, 15, 13, 8, 10, 3, 7, 4, 12, 5, 6, 11, 0, 14, 9, 2,
    7, 11, 4, 1, 9, 12, 14, 2, 0, 6, 10, 13, 15, 3, 5, 8,
    2, 1, 14, 7, 4, 10, 8, 13, 15, 12, 9, 0, 3, 5, 6, 11,
];

/// [`IP`] as a sequence.
#[verifier::opaque]
pub open spec fn initial() -> Seq<u8> {
    IP@
}

/// [`FP`] as a sequence.
#[verifier::opaque]
pub open spec fn closing() -> Seq<u8> {
    FP@
}

/// [`PC1`] as a sequence.
#[verifier::opaque]
pub open spec fn key_choice() -> Seq<u8> {
    PC1@
}

/// [`PC2`] as a sequence.
#[verifier::opaque]
pub open spec fn round_choice() -> Seq<u8> {
    PC2@
}

/// [`E`] as a sequence.
#[verifier::opaque]
pub open spec fn expansion() -> Seq<u8> {
    E@
}

/// [`P`] as a sequence.
#[verifier::opaque]
pub open spec fn spread() -> Seq<u8> {
    P@
}

/// [`SHIFTS`] as a sequence.
#[verifier::opaque]
pub open spec fn shifts() -> Seq<u8> {
    SHIFTS@
}

/// Entry `i` of [`S`].
#[verifier::opaque]
pub open spec fn box_entry(i: int) -> u8 {
    S@[i]
}

/// Every entry of `table` names a bit of a string of `width` bits.
pub open spec fn names_bits(table: Seq<u8>, width: int) -> bool {
    forall|i: int| 0 <= i < table.len() ==> 1 <= #[trigger] table[i] <= width
}

/// The initial permutation names bits of a block.
pub proof fn lemma_initial()
    ensures
        initial().len() == 64,
        names_bits(initial(), 64),
{
    reveal(initial);
}

/// The final permutation names bits of a block.
pub proof fn lemma_closing()
    ensures
        closing().len() == 64,
        names_bits(closing(), 64),
{
    reveal(closing);
}

/// Parity bits, the last of each byte, are not chosen.
pub proof fn lemma_key_choice()
    ensures
        key_choice().len() == 56,
        names_bits(key_choice(), 64),
        forall|i: int| 0 <= i < 56 ==> (#[trigger] key_choice()[i] - 1) % 8 != 7,
{
    reveal(key_choice);
}

/// A round key is chosen from the 56 bits of the halves.
pub proof fn lemma_round_choice()
    ensures
        round_choice().len() == 48,
        names_bits(round_choice(), 56),
{
    reveal(round_choice);
}

/// The expansion names bits of a half.
pub proof fn lemma_expansion()
    ensures
        expansion().len() == 48,
        names_bits(expansion(), 32),
{
    reveal(expansion);
}

/// The spread names bits of a half.
pub proof fn lemma_spread()
    ensures
        spread().len() == 32,
        names_bits(spread(), 32),
{
    reveal(spread);
}

/// Each round turns the halves by one or two.
pub proof fn lemma_shifts()
    ensures
        shifts().len() == 16,
        forall|i: int| 0 <= i < 16 ==> 1 <= #[trigger] shifts()[i] <= 2,
{
    reveal(shifts);
}

/// [`FP`] and [`IP`] are inverse to each other.
pub proof fn lemma_inverse_tables()
    ensures
        forall|i: int| 0 <= i < 64 ==> initial()[#[trigger] closing()[i] - 1] == i + 1,
        forall|i: int| 0 <= i < 64 ==> closing()[#[trigger] initial()[i] - 1] == i + 1,
{
    reveal(initial);
    reveal(closing);
}

/// The initial permutation of a block.
pub fn permute_initial(block: &[u8; 8]) -> (r: u64)
    ensures
        bits::word(r, 64) == bits::select(bits::bits_of(block@), initial()),
{
    proof {
        lemma_initial();
        reveal(initial);
    }
    permute(block, &IP)
}

/// The final permutation of a block.
pub fn permute_closing(block: &[u8; 8]) -> (r: u64)
    ensures
        bits::word(r, 64) == bits::select(bits::bits_of(block@), closing()),
{
    proof {
        lemma_closing();
        reveal(closing);
    }
    permute(block, &FP)
}

/// The key bits that are not parity.
pub fn choose_key_bits(key: &[u8; 8]) -> (r: u64)
    ensures
        bits::word(r, 56) == bits::select(bits::bits_of(key@), key_choice()),
{
    proof {
        lemma_key_choice();
        reveal(key_choice);
    }
    permute(key, &PC1)
}

/// The bits of a round key, out of the two key halves at the front of `halves`.
pub fn choose_round_bits(halves: &[u8; 8]) -> (r: u64)
    ensures
        bits::word(r, 48) == bits::select(bits::bits_of(halves@), round_choice()),
{
    proof {
        lemma_round_choice();
        reveal(round_choice);
    }
    permute(halves, &PC2)
}

/// The expansion of the 32-bit half at the front of `half`.
pub fn expand(half: &[u8; 8]) -> (r: u64)
    ensures
        bits::word(r, 48) == bits::select(bits::bits_of(half@), expansion()),
{
    proof {
        lemma_expansion();
        reveal(expansion);
    }
    permute(half, &E)
}

/// The permutation of the 32 substituted bits at the front of `half`.
pub fn spread_bits(half: &[u8; 8]) -> (r: u64)
    ensures
        bits::word(r, 32) == bits::select(bits::bits_of(half@), spread()),
{
    proof {
        lemma_spread();
        reveal(spread);
    }
    permute(half, &P)
}

/// The rotation of round `round`.
pub fn shift_of(round: usize) -> (r: u64)
    requires
        round < 16,
    ensures
        r == shifts()[round as int],
        1 <= r <= 2,
{
    proof {
        lemma_shifts();
        reveal(shifts);
    }
    SHIFTS[round] as u64
}

/// Entry `i` of the substitution boxes.
pub fn box_at(i: usize) -> (r: u8)
    requires
        i < 512,
    ensures
        r == box_entry(i as int),
        r < 16,
{
    proof {
        reveal(box_entry);
        assert(forall|i: int| 0 <= i < 512 ==> #[trigger] S@[i] < 16);
    }
    S[i]
}

} // verus!

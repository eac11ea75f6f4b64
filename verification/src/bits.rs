//! Words and byte strings read as sequences of bits, most significant first.
use vstd::prelude::*;

verus! {

/// Bit `k` of `v`, counted from the least significant bit.
pub open spec fn bit_at(v: u64, k: u64) -> bool {
    (v >> k) & 1 == 1
}

/// The low `width` bits of `v`, most significant first.
pub open spec fn word(v: u64, width: nat) -> Seq<bool> {
    Seq::new(width, |i: int| bit_at(v, (width - 1 - i) as u64))
}

/// The bits of `bytes`, most significant bit of the first byte first.
pub open spec fn bits_of(bytes: Seq<u8>) -> Seq<bool> {
    Seq::new(8 * bytes.len(), |i: int| bit_at(bytes[i / 8] as u64, (7 - i % 8) as u64))
}

/// The selection of bits that `table` names, where `table` counts bits from one.
pub open spec fn select(source: Seq<bool>, table: Seq<u8>) -> Seq<bool> {
    Seq::new(table.len(), |i: int| source[table[i] - 1])
}

/// Position by position exclusive or of two bit strings of one length.
pub open spec fn xor_bits(a: Seq<bool>, b: Seq<bool>) -> Seq<bool> {
    Seq::new(a.len(), |i: int| a[i] != b[i])
}

/// `s` rotated left by `k` places.
pub open spec fn rotated(s: Seq<bool>, k: int) -> Seq<bool> {
    Seq::new(s.len(), |i: int| s[(i + k) % (s.len() as int)])
}

/// Every bit turned over.
pub open spec fn inverted(s: Seq<bool>) -> Seq<bool> {
    Seq::new(s.len(), |i: int| !s[i])
}

/// The number a bit stands for.
pub open spec fn digit(b: bool) -> int {
    if b {
        1
    } else {
        0
    }
}

/// Appending a bit to a word moves the others up by one.
pub proof fn lemma_push_bit(v: u64, b: u64, k: u64)
    by (bit_vector)
    requires
        b <= 1,
        k < 63,
    ensures
        (((v << 1) | b) >> ((k + 1) as u64)) & 1 == (v >> k) & 1,
        (((v << 1) | b) >> 0) & 1 == b,
{
}

/// Appending four bits to a word moves the others up by four.
pub proof fn lemma_push_nibble(v: u64, n: u64, k: u64)
    by (bit_vector)
    requires
        n < 16,
        k < 60,
    ensures
        (((v << 4) | n) >> ((k + 4) as u64)) & 1 == (v >> k) & 1,
        k < 4 ==> (((v << 4) | n) >> k) & 1 == (n >> k) & 1,
{
}

/// Turning a 28-bit half to the left by one or two.
pub proof fn lemma_rotate28(v: u64, s: u64, k: u64)
    by (bit_vector)
    requires
        v <= 0x0FFF_FFFF,
        1 <= s <= 2,
        k < 28,
    ensures
        (((v << s) | (v >> ((28 - s) as u64))) & 0x0FFF_FFFF) <= 0x0FFF_FFFF,
        k >= s ==> ((((v << s) | (v >> ((28 - s) as u64))) & 0x0FFF_FFFF) >> k) & 1 == (v >> ((k
            - s) as u64)) & 1,
        k < s ==> ((((v << s) | (v >> ((28 - s) as u64))) & 0x0FFF_FFFF) >> k) & 1 == (v >> ((k
            + 28 - s) as u64)) & 1,
{
}

/// The two 28-bit halves of a word.
pub proof fn lemma_split28(v: u64, k: u64)
    by (bit_vector)
    requires
        k < 28,
    ensures
        ((v >> 28) & 0x0FFF_FFFF) <= 0x0FFF_FFFF,
        (v & 0x0FFF_FFFF) <= 0x0FFF_FFFF,
        (((v >> 28) & 0x0FFF_FFFF) >> k) & 1 == (v >> ((k + 28) as u64)) & 1,
        ((v & 0x0FFF_FFFF) >> k) & 1 == (v >> k) & 1,
{
}

/// Joining two 28-bit halves at the top of a word.
pub proof fn lemma_join28(a: u64, b: u64, k: u64)
    by (bit_vector)
    requires
        a <= 0x0FFF_FFFF,
        b <= 0x0FFF_FFFF,
        k < 28,
    ensures
        (((a << 36) | (b << 8)) >> ((k + 36) as u64)) & 1 == (a >> k) & 1,
        (((a << 36) | (b << 8)) >> ((k + 8) as u64)) & 1 == (b >> k) & 1,
{
}

/// The two 32-bit halves of a word.
pub proof fn lemma_split32(v: u64, k: u64)
    by (bit_vector)
    requires
        k < 32,
    ensures
        ((v >> 32) >> k) & 1 == (v >> ((k + 32) as u64)) & 1,
        ((v & 0xFFFF_FFFF) >> k) & 1 == (v >> k) & 1,
{
}

/// Joining two 32-bit halves into a word.
pub proof fn lemma_join32(a: u64, b: u64, k: u64)
    by (bit_vector)
    requires
        k < 32,
    ensures
        (((a << 32) | (b & 0xFFFF_FFFF)) >> ((k + 32) as u64)) & 1 == (a >> k) & 1,
        (((a << 32) | (b & 0xFFFF_FFFF)) >> k) & 1 == (b >> k) & 1,
{
}

/// Exclusive or, bit by bit.
pub proof fn lemma_xor(a: u64, b: u64, k: u64)
    by (bit_vector)
    requires
        k < 64,
    ensures
        (((a ^ b) >> k) & 1 == 1) == (((a >> k) & 1 == 1) != ((b >> k) & 1 == 1)),
{
}

proof fn lemma_be_byte(v: u64, i: u64)
    by (bit_vector)
    requires
        i < 64,
    ensures
        (((((v >> ((56 - 8 * (i / 8)) as u64)) & 0xff) as u8) as u64) >> ((7 - i % 8) as u64)) & 1
            == (v >> ((63 - i) as u64)) & 1,
{
}

/// The bytes of `v`, most significant first.
pub fn be_bytes(v: u64) -> (r: [u8; 8])
    ensures
        bits_of(r@) == word(v, 64),
{
    let r: [u8; 8] = [
        ((v >> 56) & 0xff) as u8,
        ((v >> 48) & 0xff) as u8,
        ((v >> 40) & 0xff) as u8,
        ((v >> 32) & 0xff) as u8,
        ((v >> 24) & 0xff) as u8,
        ((v >> 16) & 0xff) as u8,
        ((v >> 8) & 0xff) as u8,
        ((v >> 0) & 0xff) as u8,
    ];
    proof {
        assert forall|i: int| 0 <= i < 64 implies bits_of(r@)[i] == word(v, 64)[i] by {
            lemma_be_byte(v, i as u64);
            assert(i / 8 == 0 || i / 8 == 1 || i / 8 == 2 || i / 8 == 3 || i / 8 == 4 || i / 8 == 5
                || i / 8 == 6 || i / 8 == 7);
        }
        assert(bits_of(r@) =~= word(v, 64));
    }
    r
}

proof fn lemma_byte_bit(b: u8, k: u64)
    by (bit_vector)
    requires
        k < 8,
    ensures
        ((b >> k) & 1) as u64 == ((b as u64) >> k) & 1,
        (b >> k) & 1 <= 1,
        ((b as u64) >> k) & 1 <= 1,
{
}

/// Bit `position` of `bytes`, counted from one at the most significant bit of
/// the first byte.
pub fn bit(bytes: &[u8], position: u8) -> (r: u64)
    requires
        1 <= position <= 8 * bytes@.len(),
    ensures
        r == digit(bits_of(bytes@)[position - 1]),
{
    let index: usize = position as usize - 1;
    let byte: u8 = bytes[index / 8];
    let shift: usize = 7 - (index % 8);
    proof {
        lemma_byte_bit(byte, shift as u64);
    }
    ((byte >> shift) & 1) as u64
}

/// Gathers the bits of `source` that `table` names into the low bits of a word.
pub fn permute(source: &[u8], table: &[u8]) -> (r: u64)
    requires
        table@.len() <= 64,
        forall|i: int| 0 <= i < table@.len() ==> 1 <= #[trigger] table@[i] <= 8 * source@.len(),
    ensures
        word(r, table@.len()) == select(bits_of(source@), table@),
{
    let mut out: u64 = 0;
    let mut n: usize = 0;
    while n < table.len()
        invariant
            n <= table@.len() <= 64,
            forall|i: int|
                0 <= i < table@.len() ==> 1 <= #[trigger] table@[i] <= 8 * source@.len(),
            word(out, n as nat) =~= select(bits_of(source@), table@.take(n as int)),
        decreases table@.len() - n,
    {
        let b: u64 = bit(source, table[n]);
        let ghost before = out;
        let ghost want = select(bits_of(source@), table@);
        assert forall|i: int| 0 <= i < n implies bit_at(before, (n - 1 - i) as u64) == #[trigger] want[i] by {
            assert(word(before, n as nat)[i] == select(bits_of(source@), table@.take(n as int))[i]);
        }
        out = (out << 1) | b;
        proof {
            assert forall|i: int| 0 <= i < n + 1 implies word(out, (n + 1) as nat)[i] == want[i] by {
                if i < n {
                    lemma_push_bit(before, b, (n - 1 - i) as u64);
                    assert(bit_at(before, (n - 1 - i) as u64) == want[i]);
                } else {
                    lemma_push_bit(before, b, 0);
                }
            }
            let next = select(bits_of(source@), table@.take(n + 1));
            assert forall|i: int| 0 <= i < n + 1 implies #[trigger] next[i] == word(out, (n + 1) as nat)[i] by {
                assert(word(out, (n + 1) as nat)[i] == want[i]);
            }
            assert(word(out, (n + 1) as nat) =~= next);
        }
        n = n + 1;
    }
    assert(table@.take(n as int) =~= table@);
    out
}

proof fn lemma_byte_ext(a: u8, b: u8)
    by (bit_vector)
    requires
        ((a as u64) >> 0) & 1 == ((b as u64) >> 0) & 1,
        ((a as u64) >> 1) & 1 == ((b as u64) >> 1) & 1,
        ((a as u64) >> 2) & 1 == ((b as u64) >> 2) & 1,
        ((a as u64) >> 3) & 1 == ((b as u64) >> 3) & 1,
        ((a as u64) >> 4) & 1 == ((b as u64) >> 4) & 1,
        ((a as u64) >> 5) & 1 == ((b as u64) >> 5) & 1,
        ((a as u64) >> 6) & 1 == ((b as u64) >> 6) & 1,
        ((a as u64) >> 7) & 1 == ((b as u64) >> 7) & 1,
    ensures
        a == b,
{
}

proof fn lemma_bit_range(v: u64, k: u64)
    by (bit_vector)
    ensures
        (v >> k) & 1 <= 1,
{
}

/// Byte strings of one length that agree in every bit are equal.
pub proof fn lemma_bits_injective(a: Seq<u8>, b: Seq<u8>)
    requires
        a.len() == b.len(),
        bits_of(a) == bits_of(b),
    ensures
        a == b,
{
    assert forall|i: int| 0 <= i < a.len() implies a[i] == b[i] by {
        assert forall|k: u64| k < 8 implies #[trigger] ((a[i] as u64) >> k) & 1 == ((b[i] as u64) >> k) & 1 by {
            let j = 8 * i + (7 - k);
            assert(0 <= j < 8 * a.len() && j / 8 == i && 7 - j % 8 == k);
            assert(bits_of(a)[j] == bit_at(a[i] as u64, k));
            assert(bits_of(b)[j] == bit_at(b[i] as u64, k));
            assert(bits_of(a)[j] == bits_of(b)[j]);
            lemma_bit_range(a[i] as u64, k);
            lemma_bit_range(b[i] as u64, k);
        }
        lemma_byte_ext(a[i], b[i]);
    }
    assert(a =~= b);
}

} // verus!

//! DES as VNC authentication uses it.
//!
//! A VNC server sends a 16-byte challenge that the client encrypts with the
//! password as key. The password fills an 8-byte key padded with zeros, with the
//! bits of each byte reversed, and the challenge is encrypted as two independent
//! 8-byte blocks.
//!
//! The cipher is stated over bit strings, most significant bit first, and the
//! code computes it on machine words.
use vstd::prelude::*;
use crate::bits;
use crate::bits::be_bytes;
use crate::vnc::des_tables as tables;

verus! {

/// The entry of substitution box `index` that the six bits starting at
/// `6 * index` select: the outer two give the row, the inner four the column.
pub open spec fn substitution(mixed: Seq<bool>, index: int) -> u8 {
    let at = 6 * index;
    let row = 2 * bits::digit(mixed[at]) + bits::digit(mixed[at + 5]);
    let column = 8 * bits::digit(mixed[at + 1]) + 4 * bits::digit(mixed[at + 2]) + 2 * bits::digit(
        mixed[at + 3],
    ) + bits::digit(mixed[at + 4]);
    tables::box_entry(64 * index + 16 * row + column)
}

/// The 32 bits that the eight boxes put out.
pub open spec fn substituted(mixed: Seq<bool>) -> Seq<bool> {
    Seq::new(32, |i: int| bits::bit_at(substitution(mixed, i / 4) as u64, (3 - i % 4) as u64))
}

/// The round function: expand, mix with the round key, substitute, permute.
#[verifier::opaque]
pub open spec fn round_function(half: Seq<bool>, key: Seq<bool>) -> Seq<bool> {
    bits::select(substituted(bits::xor_bits(bits::select(half, tables::expansion()), key)), tables::spread())
}

/// The halves after the rounds with the keys `keys`, in order.
pub open spec fn rounds(left: Seq<bool>, right: Seq<bool>, keys: Seq<Seq<bool>>) -> (
    Seq<bool>,
    Seq<bool>,
)
    decreases keys.len(),
{
    if keys.len() == 0 {
        (left, right)
    } else {
        let (l, r) = rounds(left, right, keys.drop_last());
        (r, bits::xor_bits(l, round_function(r, keys.last())))
    }
}

/// DES on a 64-bit block under the given round keys.
pub open spec fn cipher(keys: Seq<Seq<bool>>, block: Seq<bool>) -> Seq<bool> {
    let start = bits::select(block, tables::initial());
    let (l, r) = rounds(start.subrange(0, 32), start.subrange(32, 64), keys);
    bits::select(r + l, tables::closing())
}

/// The places the key halves have been rotated by after `n` rounds.
pub open spec fn total_shift(n: nat) -> int
    decreases n,
{
    if n == 0 {
        0
    } else {
        total_shift((n - 1) as nat) + tables::shifts()[n - 1]
    }
}

/// The key of round `n`, counted from zero, for the 64-bit key `key`.
#[verifier::opaque]
pub open spec fn round_key(key: Seq<bool>, n: int) -> Seq<bool> {
    let halves = bits::select(key, tables::key_choice());
    let shift = total_shift((n + 1) as nat);
    bits::select(
        bits::rotated(halves.subrange(0, 28), shift) + bits::rotated(halves.subrange(28, 56), shift),
        tables::round_choice(),
    )
}

/// The sixteen round keys of the 64-bit key `key`.
pub open spec fn key_schedule(key: Seq<bool>) -> Seq<Seq<bool>> {
    Seq::new(16, |n: int| round_key(key, n))
}

/// Round keys of DES, one per round.
pub struct DesKeySchedule {
    subkeys: [u64; 16],
}

impl View for DesKeySchedule {
    type V = Seq<Seq<bool>>;

    closed spec fn view(&self) -> Seq<Seq<bool>> {
        Seq::new(16, |n: int| bits::word(self.subkeys@[n], 48))
    }
}

proof fn lemma_rotated_again(s: Seq<bool>, j: int, k: int)
    requires
        s.len() > 0,
        j >= 0,
        k >= 0,
    ensures
        bits::rotated(bits::rotated(s, j), k) == bits::rotated(s, j + k),
{
    let n = s.len() as int;
    assert forall|i: int| 0 <= i < n implies bits::rotated(bits::rotated(s, j), k)[i] == bits::rotated(s, j + k)[i] by {
        vstd::arithmetic::div_mod::lemma_add_mod_noop(i + k, j, n);
        vstd::arithmetic::div_mod::lemma_add_mod_noop((i + k) % n, j, n);
        vstd::arithmetic::div_mod::lemma_mod_twice(i + k, n);
        assert(((i + k) % n + j) % n == (i + (j + k)) % n);
    }
    assert(bits::rotated(bits::rotated(s, j), k) =~= bits::rotated(s, j + k));
}

/// One step of the key schedule on a 28-bit half.
fn rotate_half(half: u64, shift: u64) -> (r: u64)
    requires
        half <= 0x0FFF_FFFF,
        1 <= shift <= 2,
    ensures
        r <= 0x0FFF_FFFF,
        bits::word(r, 28) == bits::rotated(bits::word(half, 28), shift as int),
{
    let r: u64 = ((half << shift) | (half >> (28 - shift))) & 0x0FFF_FFFF;
    proof {
        bits::lemma_rotate28(half, shift, 0);
        let want = bits::rotated(bits::word(half, 28), shift as int);
        assert forall|i: int| 0 <= i < 28 implies bits::word(r, 28)[i] == want[i] by {
            bits::lemma_rotate28(half, shift, (27 - i) as u64);
            if i + shift < 28 {
                assert((i + shift) % 28 == i + shift);
            } else {
                assert((i + shift) % 28 == i + shift - 28);
            }
        }
        assert(bits::word(r, 28) =~= want);
    }
    r
}

/// The round key that two 28-bit halves give.
fn choose_round_key(left: u64, right: u64) -> (r: u64)
    requires
        left <= 0x0FFF_FFFF,
        right <= 0x0FFF_FFFF,
    ensures
        bits::word(r, 48) == bits::select(bits::word(left, 28) + bits::word(right, 28), tables::round_choice()),
{
    let combined: u64 = (left << 36) | (right << 8);
    let bytes: [u8; 8] = be_bytes(combined);
    let r: u64 = tables::choose_round_bits(&bytes);
    proof {
        tables::lemma_round_choice();
        let both = bits::word(left, 28) + bits::word(right, 28);
        assert forall|i: int| 0 <= i < 56 implies bits::word(combined, 64)[i] == both[i] by {
            if i < 28 {
                bits::lemma_join28(left, right, (27 - i) as u64);
            } else {
                bits::lemma_join28(left, right, (55 - i) as u64);
            }
        }
        assert(bits::select(bits::word(combined, 64), tables::round_choice()) =~= bits::select(both, tables::round_choice()));
    }
    r
}

/// The two 28-bit halves of the key bits.
fn key_halves(key: &[u8; 8]) -> (r: (u64, u64))
    ensures
        r.0 <= 0x0FFF_FFFF,
        r.1 <= 0x0FFF_FFFF,
        bits::word(r.0, 28) == bits::select(bits::bits_of(key@), tables::key_choice()).subrange(
            0,
            28,
        ),
        bits::word(r.1, 28) == bits::select(bits::bits_of(key@), tables::key_choice()).subrange(
            28,
            56,
        ),
{
    proof {
        tables::lemma_key_choice();
    }
    let selected: u64 = tables::choose_key_bits(key);
    let ghost halves = bits::select(bits::bits_of(key@), tables::key_choice());
    let left: u64 = (selected >> 28) & 0x0FFF_FFFF;
    let right: u64 = selected & 0x0FFF_FFFF;
    proof {
        bits::lemma_split28(selected, 0);
        let left0 = halves.subrange(0, 28);
        let right0 = halves.subrange(28, 56);
        assert forall|i: int| 0 <= i < 28 implies bits::word(left, 28)[i] == left0[i] && bits::word(
            right,
            28,
        )[i] == right0[i] by {
            bits::lemma_split28(selected, (27 - i) as u64);
            assert(bits::word(selected, 56)[i] == halves[i]);
            assert(bits::word(selected, 56)[i + 28] == halves[i + 28]);
        }
        assert(bits::word(left, 28) =~= left0);
        assert(bits::word(right, 28) =~= right0);
    }
    (left, right)
}

/// A half of the key after the rotations of `n` rounds.
#[verifier::opaque]
pub open spec fn turned(half: Seq<bool>, n: nat) -> Seq<bool> {
    bits::rotated(half, total_shift(n))
}

proof fn lemma_turned_start(half: Seq<bool>)
    requires
        half.len() == 28,
    ensures
        turned(half, 0) == half,
{
    reveal(turned);
    assert(bits::rotated(half, 0) =~= half);
}

proof fn lemma_turned_step(half: Seq<bool>, n: nat)
    requires
        half.len() == 28,
        n < 16,
    ensures
        turned(half, n + 1) == bits::rotated(turned(half, n), tables::shifts()[n as int] as int),
{
    reveal(turned);
    lemma_total_shift(n);
    tables::lemma_shifts();
    lemma_rotated_again(half, total_shift(n), tables::shifts()[n as int] as int);
}

proof fn lemma_total_shift(n: nat)
    requires
        n <= 16,
    ensures
        total_shift(n) >= 0,
    decreases n,
{
    if n > 0 {
        lemma_total_shift((n - 1) as nat);
    }
}

impl DesKeySchedule {
    /// The round keys for `key`.
    pub fn new(key: &[u8; 8]) -> (r: Self)
        ensures
            r@ == key_schedule(bits::bits_of(key@)),
    {
        let (first_left, first_right) = key_halves(key);
        let mut left: u64 = first_left;
        let mut right: u64 = first_right;
        let ghost left0 = bits::word(left, 28);
        let ghost right0 = bits::word(right, 28);
        let ghost bits = bits::bits_of(key@);
        proof {
            lemma_turned_start(left0);
            lemma_turned_start(right0);
        }
        let mut subkeys: [u64; 16] = [0u64; 16];
        let mut round: usize = 0;
        while round < 16
            invariant
                round <= 16,
                left <= 0x0FFF_FFFF,
                right <= 0x0FFF_FFFF,
                left0.len() == 28,
                right0.len() == 28,
                left0 == bits::select(bits, tables::key_choice()).subrange(0, 28),
                right0 == bits::select(bits, tables::key_choice()).subrange(28, 56),
                bits::word(left, 28) == turned(left0, round as nat),
                bits::word(right, 28) == turned(right0, round as nat),
                forall|n: int|
                    0 <= n < round ==> bits::word(#[trigger] subkeys@[n], 48) == round_key(bits, n),
            decreases 16 - round,
        {
            let shift: u64 = tables::shift_of(round);
            proof {
                lemma_turned_step(left0, round as nat);
                lemma_turned_step(right0, round as nat);
            }
            left = rotate_half(left, shift);
            right = rotate_half(right, shift);
            let chosen: u64 = choose_round_key(left, right);
            assert(bits::word(chosen, 48) == round_key(bits, round as int)) by {
                reveal(round_key);
                reveal(turned);
            }
            subkeys[round] = chosen;
            round = round + 1;
        }
        let r = DesKeySchedule { subkeys };
        assert(r@ =~= key_schedule(bits));
        r
    }

    /// Encrypts one block in place.
    pub fn encrypt_block(&self, block: &mut [u8; 8])
        ensures
            bits::bits_of(final(block)@) == cipher(self@, bits::bits_of(old(block)@)),
    {
        proof {
            tables::lemma_initial();
        }
        let permuted: u64 = tables::permute_initial(block);
        let ghost start = bits::select(bits::bits_of(old(block)@), tables::initial());
        let mut left: u64 = permuted >> 32;
        let mut right: u64 = permuted & 0xFFFF_FFFF;
        let ghost left0 = start.subrange(0, 32);
        let ghost right0 = start.subrange(32, 64);
        proof {
            assert forall|i: int| 0 <= i < 32 implies bits::word(left, 32)[i] == left0[i] && bits::word(
                right,
                32,
            )[i] == right0[i] by {
                bits::lemma_split32(permuted, (31 - i) as u64);
                assert(bits::word(permuted, 64)[i] == start[i]);
                assert(bits::word(permuted, 64)[i + 32] == start[i + 32]);
            }
            assert(bits::word(left, 32) =~= left0);
            assert(bits::word(right, 32) =~= right0);
        }
        let mut round: usize = 0;
        while round < 16
            invariant
                round <= 16,
                rounds(left0, right0, self@.take(round as int)) == (
                    bits::word(left, 32),
                    bits::word(right, 32),
                ),
            decreases 16 - round,
        {
            let mixed: u64 = feistel(right, self.subkeys[round]);
            let next_right: u64 = left ^ mixed;
            proof {
                let keys = self@.take(round + 1);
                assert(keys.drop_last() =~= self@.take(round as int));
                assert(keys.last() == bits::word(self.subkeys@[round as int], 48));
                let want = bits::xor_bits(bits::word(left, 32), bits::word(mixed, 32));
                assert forall|i: int| 0 <= i < 32 implies bits::word(next_right, 32)[i] == want[i] by {
                    bits::lemma_xor(left, mixed, (31 - i) as u64);
                }
                assert(bits::word(next_right, 32) =~= want);
            }
            left = right;
            right = next_right;
            round = round + 1;
        }
        let preoutput: u64 = (right << 32) | (left & 0xFFFF_FFFF);
        proof {
            let both = bits::word(right, 32) + bits::word(left, 32);
            assert forall|i: int| 0 <= i < 64 implies bits::word(preoutput, 64)[i] == both[i] by {
                if i < 32 {
                    bits::lemma_join32(right, left, (31 - i) as u64);
                } else {
                    bits::lemma_join32(right, left, (63 - i) as u64);
                }
            }
            assert(bits::word(preoutput, 64) =~= both);
            assert(self@.take(16) =~= self@);
        }
        let bytes: [u8; 8] = be_bytes(preoutput);
        let final_block: u64 = tables::permute_closing(&bytes);
        *block = be_bytes(final_block);
    }
}

proof fn lemma_six_bits(mixed: u64, shift: u64)
    by (bit_vector)
    requires
        shift <= 42,
    ensures
        ({
            let six = (mixed >> shift) & 0x3F;
            let row = ((six & 0x20) >> 4) | (six & 1);
            let column = (six >> 1) & 0x0F;
            &&& row <= 3
            &&& column <= 15
            &&& row == 2 * ((mixed >> ((shift + 5) as u64)) & 1) + ((mixed >> shift) & 1)
            &&& column == 8 * ((mixed >> ((shift + 4) as u64)) & 1) + 4 * ((mixed >> ((shift
                + 3) as u64)) & 1) + 2 * ((mixed >> ((shift + 2) as u64)) & 1) + ((mixed >> ((shift
                + 1) as u64)) & 1)
        }),
        (mixed >> shift) & 1 <= 1,
        (mixed >> ((shift + 1) as u64)) & 1 <= 1,
        (mixed >> ((shift + 2) as u64)) & 1 <= 1,
        (mixed >> ((shift + 3) as u64)) & 1 <= 1,
        (mixed >> ((shift + 4) as u64)) & 1 <= 1,
        (mixed >> ((shift + 5) as u64)) & 1 <= 1,
{
}

/// The output of substitution box `index` for the 48-bit word `mixed`.
fn substitute(mixed: u64, index: usize) -> (r: u8)
    requires
        index < 8,
    ensures
        r == substitution(bits::word(mixed, 48), index as int),
        r < 16,
{
    let shift: u64 = 42 - (index as u64) * 6;
    let six: u64 = (mixed >> shift) & 0x3F;
    let row: u64 = ((six & 0x20) >> 4) | (six & 1);
    let column: u64 = (six >> 1) & 0x0F;
    proof {
        lemma_six_bits(mixed, shift);
        let m = bits::word(mixed, 48);
        let at = 6 * index;
        assert(m[at] == bits::bit_at(mixed, (shift + 5) as u64));
        assert(m[at + 1] == bits::bit_at(mixed, (shift + 4) as u64));
        assert(m[at + 2] == bits::bit_at(mixed, (shift + 3) as u64));
        assert(m[at + 3] == bits::bit_at(mixed, (shift + 2) as u64));
        assert(m[at + 4] == bits::bit_at(mixed, (shift + 1) as u64));
        assert(m[at + 5] == bits::bit_at(mixed, shift));
    }
    tables::box_at(64 * index + 16 * (row as usize) + (column as usize))
}

/// The round function on the low 32 bits of `right` and the low 48 of `subkey`.
fn feistel(right: u64, subkey: u64) -> (r: u64)
    ensures
        bits::word(r, 32) == round_function(bits::word(right, 32), bits::word(subkey, 48)),
{
    proof {
        reveal(round_function);
        tables::lemma_expansion();
        tables::lemma_spread();
    }
    let expanded: u64 = tables::expand(&front_half(right));
    proof {
        lemma_select_front(right, tables::expansion());
    }
    let mixed: u64 = expanded ^ subkey;
    let ghost mixed_bits = bits::xor_bits(
        bits::select(bits::word(right, 32), tables::expansion()),
        bits::word(subkey, 48),
    );
    proof {
        assert forall|i: int| 0 <= i < 48 implies bits::word(mixed, 48)[i] == mixed_bits[i] by {
            bits::lemma_xor(expanded, subkey, (47 - i) as u64);
            assert(bits::word(expanded, 48)[i] == bits::select(bits::word(right, 32), tables::expansion())[i]);
        }
        assert(bits::word(mixed, 48) =~= mixed_bits);
    }
    let mut out: u64 = 0;
    let mut index: usize = 0;
    while index < 8
        invariant
            index <= 8,
            bits::word(out, (4 * index) as nat) =~= substituted(bits::word(mixed, 48)).take(
                4 * index,
            ),
        decreases 8 - index,
    {
        let nibble: u8 = substitute(mixed, index);
        let ghost before = out;
        let ghost all = substituted(bits::word(mixed, 48));
        out = (out << 4) | (nibble as u64);
        proof {
            let n = 4 * index;
            assert forall|i: int| 0 <= i < n + 4 implies #[trigger] bits::word(out, (n + 4) as nat)[i] == all[i] by {
                if i < n {
                    bits::lemma_push_nibble(before, nibble as u64, (n - 1 - i) as u64);
                    assert(bits::word(before, n as nat)[i] == all.take(n)[i]);
                } else {
                    bits::lemma_push_nibble(before, nibble as u64, (n + 3 - i) as u64);
                    assert(i / 4 == index);
                }
            }
            assert(bits::word(out, (n + 4) as nat) =~= all.take(n + 4));
        }
        index = index + 1;
    }
    assert(substituted(bits::word(mixed, 48)).take(32) =~= substituted(mixed_bits));
    proof {
        lemma_select_front(out, tables::spread());
    }
    tables::spread_bits(&front_half(out))
}

/// A word with the low 32 bits of `half` at the front as well.
pub open spec fn doubled(half: u64) -> u64 {
    (half << 32) | (half & 0xFFFF_FFFF)
}

/// The bytes of a word whose front half is the low half of `half`.
fn front_half(half: u64) -> (r: [u8; 8])
    ensures
        bits::bits_of(r@) == bits::word(doubled(half), 64),
{
    be_bytes((half << 32) | (half & 0xFFFF_FFFF))
}

proof fn lemma_select_front(half: u64, table: Seq<u8>)
    requires
        tables::names_bits(table, 32),
    ensures
        bits::select(bits::word(doubled(half), 64), table) == bits::select(
            bits::word(half, 32),
            table,
        ),
{
    assert forall|i: int| 0 <= i < 32 implies bits::word(doubled(half), 64)[i] == bits::word(half, 32)[i] by {
        bits::lemma_join32(half, half, (31 - i) as u64);
    }
    assert(bits::select(bits::word(doubled(half), 64), table) =~= bits::select(
        bits::word(half, 32),
        table,
    ));
}

/// `b` with its bits in the opposite order.
pub open spec fn reversed(b: u8) -> u8 {
    ((b & 0x01) << 7) | ((b & 0x02) << 5) | ((b & 0x04) << 3) | ((b & 0x08) << 1) | ((b & 0x10) >> 1)
        | ((b & 0x20) >> 3) | ((b & 0x40) >> 5) | ((b & 0x80) >> 7)
}

proof fn lemma_reversed_bit(b: u8, k: u64)
    by (bit_vector)
    requires
        k < 8,
    ensures
        ((reversed(b) as u64) >> k) & 1 == ((b as u64) >> ((7 - k) as u64)) & 1,
{
}

/// Reversal mirrors the bits of a byte.
pub proof fn lemma_reversed_bits(b: u8)
    ensures
        bits::bits_of(seq![reversed(b)]) == bits::bits_of(seq![b]).reverse(),
{
    let a = bits::bits_of(seq![reversed(b)]);
    let m = bits::bits_of(seq![b]).reverse();
    assert forall|i: int| 0 <= i < 8 implies a[i] == m[i] by {
        lemma_reversed_bit(b, (7 - i) as u64);
        assert(a[i] == bits::bit_at(reversed(b) as u64, (7 - i) as u64));
        assert(m[i] == bits::bits_of(seq![b])[7 - i]);
        assert((7 - i) / 8 == 0 && (7 - i) % 8 == 7 - i);
    }
    assert(a =~= m);
}

/// The key that a password stands for: its first eight bytes, padded with
/// zeros, each with its bits reversed.
pub open spec fn vnc_key(password: Seq<u8>) -> Seq<u8> {
    Seq::new(
        8,
        |i: int|
            reversed(
                if i < password.len() {
                    password[i]
                } else {
                    0
                },
            ),
    )
}

/// The key for `password`.
pub fn vnc_key_from_password(password: &[u8]) -> (key: [u8; 8])
    ensures
        key@ == vnc_key(password@),
{
    let mut key: [u8; 8] = [0u8; 8];
    let mut index: usize = 0;
    while index < 8
        invariant
            index <= 8,
            key@.len() == 8,
            forall|i: int| 0 <= i < index ==> key@[i] == vnc_key(password@)[i],
        decreases 8 - index,
    {
        let b: u8 = if index < password.len() {
            password[index]
        } else {
            0
        };
        key[index] = ((b & 0x01) << 7) | ((b & 0x02) << 5) | ((b & 0x04) << 3) | ((b & 0x08) << 1)
            | ((b & 0x10) >> 1) | ((b & 0x20) >> 3) | ((b & 0x40) >> 5) | ((b & 0x80) >> 7);
        index = index + 1;
    }
    assert(key@ =~= vnc_key(password@));
    key
}

/// Block `n` of `data`.
pub open spec fn block_of(data: Seq<u8>, n: int) -> Seq<u8> {
    data.subrange(8 * n, 8 * n + 8)
}

/// `after` is `before` with every whole block encrypted on its own and an
/// incomplete last block left as it was.
pub open spec fn encrypted_ecb(key: Seq<u8>, before: Seq<u8>, after: Seq<u8>) -> bool {
    &&& after.len() == before.len()
    &&& forall|n: int|
        0 <= n < before.len() / 8 ==> bits::bits_of(#[trigger] block_of(after, n)) == cipher(
            key_schedule(bits::bits_of(key)),
            bits::bits_of(block_of(before, n)),
        )
    &&& forall|i: int|
        8 * (before.len() / 8) <= i < before.len() ==> #[trigger] after[i] == before[i]
}

/// Encrypts the whole blocks of `data` with `key`, each on its own.
pub fn encrypt_ecb(key: &[u8; 8], data: &mut [u8])
    ensures
        encrypted_ecb(key@, old(data)@, final(data)@),
{
    let schedule = DesKeySchedule::new(key);
    let count: usize = data.len() / 8;
    let ghost before = data@;
    let mut n: usize = 0;
    while n < count
        invariant
            n <= count,
            count == before.len() / 8,
            before.len() <= usize::MAX,
            data@.len() == before.len(),
            schedule@ == key_schedule(bits::bits_of(key@)),
            forall|b: int|
                0 <= b < n ==> bits::bits_of(#[trigger] block_of(data@, b)) == cipher(
                    key_schedule(bits::bits_of(key@)),
                    bits::bits_of(block_of(before, b)),
                ),
            forall|i: int| 8 * n <= i < before.len() ==> #[trigger] data@[i] == before[i],
        decreases count - n,
    {
        let at: usize = 8 * n;
        let mut block: [u8; 8] = [
            data[at],
            data[at + 1],
            data[at + 2],
            data[at + 3],
            data[at + 4],
            data[at + 5],
            data[at + 6],
            data[at + 7],
        ];
        assert(block@ =~= block_of(before, n as int));
        let ghost entry = data@;
        schedule.encrypt_block(&mut block);
        let mut i: usize = 0;
        while i < 8
            invariant
                i <= 8,
                at == 8 * n,
                at + 8 <= data@.len(),
                data@.len() == entry.len(),
                forall|j: int| at <= j < at + i ==> #[trigger] data@[j] == block@[j - at],
                forall|j: int|
                    (0 <= j < at || at + i <= j < entry.len()) ==> #[trigger] data@[j] == entry[j],
            decreases 8 - i,
        {
            data[at + i] = block[i];
            i = i + 1;
        }
        proof {
            assert(block_of(data@, n as int) =~= block@);
            assert forall|b: int| 0 <= b < n implies #[trigger] block_of(data@, b) == block_of(entry, b) by {
                assert(block_of(data@, b) =~= block_of(entry, b));
            }
        }
        n = n + 1;
    }
}

/// The response to a challenge: the challenge encrypted in two independent
/// blocks under the key for `password`.
pub fn answer_challenge(password: &[u8], challenge: &[u8; 16]) -> (response: [u8; 16])
    ensures
        encrypted_ecb(vnc_key(password@), challenge@, response@),
{
    let key = vnc_key_from_password(password);
    let mut response: [u8; 16] = *challenge;
    encrypt_ecb(&key, &mut response);
    response
}

/// The final permutation undoes the initial one, and the other way round.
pub proof fn lemma_final_permutation_inverts(block: Seq<bool>)
    requires
        block.len() == 64,
    ensures
        bits::select(bits::select(block, tables::initial()), tables::closing()) == block,
        bits::select(bits::select(block, tables::closing()), tables::initial()) == block,
{
    tables::lemma_initial();
    tables::lemma_closing();
    tables::lemma_inverse_tables();
    assert(bits::select(bits::select(block, tables::initial()), tables::closing()) =~= block);
    assert(bits::select(bits::select(block, tables::closing()), tables::initial()) =~= block);
}

proof fn lemma_rounds_first(left: Seq<bool>, right: Seq<bool>, key: Seq<bool>, rest: Seq<Seq<bool>>)
    ensures
        rounds(left, right, seq![key] + rest) == rounds(
            right,
            bits::xor_bits(left, round_function(right, key)),
            rest,
        ),
    decreases rest.len(),
{
    let all = seq![key] + rest;
    if rest.len() == 0 {
        assert(all.drop_last() =~= Seq::<Seq<bool>>::empty());
        assert(rounds(left, right, all.drop_last()) == (left, right));
        assert(all.last() == key);
    } else {
        lemma_rounds_first(left, right, key, rest.drop_last());
        assert(all.drop_last() =~= seq![key] + rest.drop_last());
        assert(all.last() == rest.last());
    }
}

proof fn lemma_rounds_length(left: Seq<bool>, right: Seq<bool>, keys: Seq<Seq<bool>>)
    requires
        left.len() == 32,
        right.len() == 32,
    ensures
        rounds(left, right, keys).0.len() == 32,
        rounds(left, right, keys).1.len() == 32,
    decreases keys.len(),
{
    if keys.len() > 0 {
        lemma_rounds_length(left, right, keys.drop_last());
    }
}

proof fn lemma_rounds_undone(left: Seq<bool>, right: Seq<bool>, keys: Seq<Seq<bool>>)
    requires
        left.len() == 32,
        right.len() == 32,
    ensures
        ({
            let (l, r) = rounds(left, right, keys);
            rounds(r, l, keys.reverse()) == (right, left)
        }),
    decreases keys.len(),
{
    if keys.len() == 0 {
        assert(keys.reverse() =~= keys);
    } else {
        let ks = keys.drop_last();
        let k = keys.last();
        let (l, r) = rounds(left, right, ks);
        lemma_rounds_length(left, right, ks);
        let mixed = bits::xor_bits(l, round_function(r, k));
        assert(keys.reverse() =~= seq![k] + ks.reverse());
        lemma_rounds_first(mixed, r, k, ks.reverse());
        assert(bits::xor_bits(mixed, round_function(r, k)) =~= l);
        lemma_rounds_undone(left, right, ks);
    }
}

/// Encrypting under the round keys in reverse order undoes an encryption.
pub proof fn lemma_reversed_keys_decrypt(keys: Seq<Seq<bool>>, block: Seq<bool>)
    requires
        block.len() == 64,
    ensures
        cipher(keys.reverse(), cipher(keys, block)) == block,
{
    tables::lemma_initial();
    let start = bits::select(block, tables::initial());
    let left = start.subrange(0, 32);
    let right = start.subrange(32, 64);
    let (l, r) = rounds(left, right, keys);
    lemma_rounds_length(left, right, keys);
    lemma_final_permutation_inverts(r + l);
    lemma_final_permutation_inverts(block);
    assert((r + l).subrange(0, 32) =~= r);
    assert((r + l).subrange(32, 64) =~= l);
    lemma_rounds_undone(left, right, keys);
    assert(left + right =~= start);
}

/// Keys that differ in parity bits alone have the same round keys.
pub proof fn lemma_parity_is_ignored(a: Seq<bool>, b: Seq<bool>)
    requires
        a.len() == 64,
        b.len() == 64,
        forall|i: int| 0 <= i < 64 && i % 8 != 7 ==> a[i] == b[i],
    ensures
        key_schedule(a) == key_schedule(b),
{
    tables::lemma_key_choice();
    assert(bits::select(a, tables::key_choice()) =~= bits::select(b, tables::key_choice()));
    reveal(round_key);
    assert(key_schedule(a) =~= key_schedule(b));
}

/// A key whose bits other than parity are all clear encrypts and decrypts alike.
pub proof fn lemma_weak_key(key: Seq<bool>, block: Seq<bool>)
    requires
        key.len() == 64,
        forall|i: int| 0 <= i < 64 && i % 8 != 7 ==> !key[i],
        block.len() == 64,
    ensures
        cipher(key_schedule(key), cipher(key_schedule(key), block)) == block,
{
    let keys = key_schedule(key);
    tables::lemma_key_choice();
    tables::lemma_round_choice();
    let halves = bits::select(key, tables::key_choice());
    assert(forall|i: int| 0 <= i < 56 ==> !(#[trigger] halves[i]));
    let zero = Seq::new(48, |i: int| false);
    assert forall|n: int| 0 <= n < 16 implies #[trigger] keys[n] == zero by {
        let shift = total_shift((n + 1) as nat);
        let l = bits::rotated(halves.subrange(0, 28), shift);
        let r = bits::rotated(halves.subrange(28, 56), shift);
        assert forall|i: int| 0 <= i < 56 implies !(#[trigger] (l + r)[i]) by {
            assert(0 <= (i + shift) % 28 < 28);
            assert(0 <= (i - 28 + shift) % 28 < 28);
            if i < 28 {
                assert((l + r)[i] == halves[(i + shift) % 28]);
            } else {
                assert((l + r)[i] == halves[28 + (i - 28 + shift) % 28]);
            }
        }
        reveal(round_key);
        assert(keys[n] =~= zero);
    }
    assert(keys.reverse() =~= keys);
    lemma_reversed_keys_decrypt(keys, block);
}

/// Only the first eight bytes of a password matter.
pub proof fn lemma_password_is_truncated(password: Seq<u8>)
    requires
        password.len() > 8,
    ensures
        vnc_key(password) == vnc_key(password.take(8)),
{
    assert(vnc_key(password) =~= vnc_key(password.take(8)));
}

/// Equal blocks of a challenge give equal blocks of the response.
pub proof fn lemma_equal_blocks(key: Seq<u8>, before: Seq<u8>, after: Seq<u8>, m: int, n: int)
    requires
        encrypted_ecb(key, before, after),
        0 <= m < before.len() / 8,
        0 <= n < before.len() / 8,
        block_of(before, m) == block_of(before, n),
    ensures
        block_of(after, m) == block_of(after, n),
{
    bits::lemma_bits_injective(block_of(after, m), block_of(after, n));
}

/// There is one encryption of given data under a given key.
pub proof fn lemma_ecb_is_unique(key: Seq<u8>, before: Seq<u8>, a: Seq<u8>, b: Seq<u8>)
    requires
        encrypted_ecb(key, before, a),
        encrypted_ecb(key, before, b),
    ensures
        a == b,
{
    assert forall|i: int| 0 <= i < before.len() implies a[i] == b[i] by {
        if i < 8 * (before.len() / 8) {
            let n = i / 8;
            bits::lemma_bits_injective(block_of(a, n), block_of(b, n));
            assert(block_of(a, n)[i - 8 * n] == a[i]);
            assert(block_of(b, n)[i - 8 * n] == b[i]);
        }
    }
    assert(a =~= b);
}

/// Under given round keys no two blocks are encrypted alike.
pub proof fn lemma_cipher_is_injective(keys: Seq<Seq<bool>>, a: Seq<bool>, b: Seq<bool>)
    requires
        a.len() == 64,
        b.len() == 64,
        cipher(keys, a) == cipher(keys, b),
    ensures
        a == b,
{
    lemma_reversed_keys_decrypt(keys, a);
    lemma_reversed_keys_decrypt(keys, b);
}

/// Two challenges with the same response under one key are the same.
pub proof fn lemma_ecb_is_injective(key: Seq<u8>, a: Seq<u8>, b: Seq<u8>, after: Seq<u8>)
    requires
        encrypted_ecb(key, a, after),
        encrypted_ecb(key, b, after),
    ensures
        a == b,
{
    assert forall|i: int| 0 <= i < a.len() implies a[i] == b[i] by {
        if i < 8 * (a.len() / 8) {
            let n = i / 8;
            let (x, y) = (block_of(a, n), block_of(b, n));
            assert(bits::bits_of(block_of(after, n)).len() == 64);
            lemma_cipher_is_injective(
                key_schedule(bits::bits_of(key)),
                bits::bits_of(x),
                bits::bits_of(y),
            );
            bits::lemma_bits_injective(x, y);
            assert(x[i - 8 * n] == a[i]);
            assert(y[i - 8 * n] == b[i]);
        } else {
            assert(after[i] == a[i]);
            assert(after[i] == b[i]);
        }
    }
    assert(a =~= b);
}

proof fn lemma_select_inverted(s: Seq<bool>, table: Seq<u8>)
    requires
        tables::names_bits(table, s.len() as int),
    ensures
        bits::select(bits::inverted(s), table) == bits::inverted(bits::select(s, table)),
{
    assert(bits::select(bits::inverted(s), table) =~= bits::inverted(bits::select(s, table)));
}

proof fn lemma_round_inverted(half: Seq<bool>, key: Seq<bool>)
    requires
        half.len() == 32,
        key.len() == 48,
    ensures
        round_function(bits::inverted(half), bits::inverted(key)) == round_function(half, key),
{
    reveal(round_function);
    tables::lemma_expansion();
    lemma_select_inverted(half, tables::expansion());
    let expanded = bits::select(half, tables::expansion());
    assert(bits::xor_bits(bits::inverted(expanded), bits::inverted(key)) =~= bits::xor_bits(
        expanded,
        key,
    ));
}

/// Round keys with every bit turned over.
pub open spec fn inverted_keys(keys: Seq<Seq<bool>>) -> Seq<Seq<bool>> {
    Seq::new(keys.len(), |n: int| bits::inverted(keys[n]))
}

proof fn lemma_rounds_inverted(left: Seq<bool>, right: Seq<bool>, keys: Seq<Seq<bool>>)
    requires
        left.len() == 32,
        right.len() == 32,
        forall|n: int| 0 <= n < keys.len() ==> (#[trigger] keys[n]).len() == 48,
    ensures
        ({
            let (l, r) = rounds(left, right, keys);
            rounds(bits::inverted(left), bits::inverted(right), inverted_keys(keys)) == (
                bits::inverted(l),
                bits::inverted(r),
            )
        }),
    decreases keys.len(),
{
    if keys.len() > 0 {
        let ks = keys.drop_last();
        let (l, r) = rounds(left, right, ks);
        assert forall|n: int| 0 <= n < ks.len() implies (#[trigger] ks[n]).len() == 48 by {
            assert(ks[n] == keys[n]);
        }
        lemma_rounds_inverted(left, right, ks);
        lemma_rounds_length(left, right, ks);
        assert(inverted_keys(keys).drop_last() =~= inverted_keys(ks));
        assert(inverted_keys(keys).last() == bits::inverted(keys.last()));
        lemma_round_inverted(r, keys.last());
        let mixing = round_function(r, keys.last());
        assert(bits::xor_bits(bits::inverted(l), mixing) =~= bits::inverted(
            bits::xor_bits(l, mixing),
        ));
    }
}

proof fn lemma_round_key_inverted(key: Seq<bool>, n: int)
    requires
        key.len() == 64,
        0 <= n < 16,
    ensures
        round_key(key, n).len() == 48,
        round_key(bits::inverted(key), n) == bits::inverted(round_key(key, n)),
{
    reveal(round_key);
    tables::lemma_key_choice();
    tables::lemma_round_choice();
    lemma_select_inverted(key, tables::key_choice());
    let halves = bits::select(key, tables::key_choice());
    let turned_over = bits::inverted(halves);
    let shift = total_shift((n + 1) as nat);
    let l = bits::rotated(halves.subrange(0, 28), shift);
    let r = bits::rotated(halves.subrange(28, 56), shift);
    let l1 = bits::rotated(turned_over.subrange(0, 28), shift);
    let r1 = bits::rotated(turned_over.subrange(28, 56), shift);
    assert forall|i: int| 0 <= i < 28 implies l1[i] == !l[i] && r1[i] == !r[i] by {
        assert(0 <= (i + shift) % 28 < 28);
    }
    assert(l1 + r1 =~= bits::inverted(l + r));
    lemma_select_inverted(l + r, tables::round_choice());
}

/// Turning over every bit of the key and of the block turns over every bit of what the
/// block is encrypted to.
pub proof fn lemma_complement(key: Seq<bool>, block: Seq<bool>)
    requires
        key.len() == 64,
        block.len() == 64,
    ensures
        cipher(key_schedule(bits::inverted(key)), bits::inverted(block)) == bits::inverted(
            cipher(key_schedule(key), block),
        ),
{
    let keys = key_schedule(key);
    assert forall|n: int| 0 <= n < 16 implies (#[trigger] keys[n]).len() == 48 && key_schedule(
        bits::inverted(key),
    )[n] == bits::inverted(keys[n]) by {
        lemma_round_key_inverted(key, n);
    }
    assert(key_schedule(bits::inverted(key)) =~= inverted_keys(keys));
    tables::lemma_initial();
    tables::lemma_closing();
    lemma_select_inverted(block, tables::initial());
    let start = bits::select(block, tables::initial());
    let left = start.subrange(0, 32);
    let right = start.subrange(32, 64);
    assert(bits::inverted(start).subrange(0, 32) =~= bits::inverted(left));
    assert(bits::inverted(start).subrange(32, 64) =~= bits::inverted(right));
    lemma_rounds_inverted(left, right, keys);
    lemma_rounds_length(left, right, keys);
    let (l, r) = rounds(left, right, keys);
    assert(bits::inverted(r) + bits::inverted(l) =~= bits::inverted(r + l));
    lemma_select_inverted(r + l, tables::closing());
}

/// The two blocks of a challenge are answered independently: a challenge with its blocks
/// exchanged is answered with the blocks of the response exchanged.
pub proof fn lemma_exchanged_blocks(
    key: Seq<u8>,
    challenge: Seq<u8>,
    response: Seq<u8>,
    exchanged: Seq<u8>,
)
    requires
        challenge.len() == 16,
        encrypted_ecb(key, challenge, response),
        encrypted_ecb(key, block_of(challenge, 1) + block_of(challenge, 0), exchanged),
    ensures
        exchanged == block_of(response, 1) + block_of(response, 0),
{
    let other = block_of(challenge, 1) + block_of(challenge, 0);
    assert(block_of(other, 0) =~= block_of(challenge, 1));
    assert(block_of(other, 1) =~= block_of(challenge, 0));
    bits::lemma_bits_injective(block_of(exchanged, 0), block_of(response, 1));
    bits::lemma_bits_injective(block_of(exchanged, 1), block_of(response, 0));
    assert(exchanged =~= block_of(exchanged, 0) + block_of(exchanged, 1));
}

/// The eight bytes of a password that count: the first eight, with zeros for those that
/// are missing.
pub open spec fn padded(password: Seq<u8>) -> Seq<u8> {
    Seq::new(
        8,
        |i: int|
            if i < password.len() {
                password[i]
            } else {
                0
            },
    )
}

proof fn lemma_reversed_twice(b: u8)
    by (bit_vector)
    ensures
        reversed(reversed(b)) == b,
{
}

/// Passwords have the same key exactly where the eight bytes that count are the same.
pub proof fn lemma_keys_of_padded_passwords(a: Seq<u8>, b: Seq<u8>)
    ensures
        vnc_key(a) == vnc_key(b) <==> padded(a) == padded(b),
{
    if padded(a) == padded(b) {
        assert forall|i: int| 0 <= i < 8 implies vnc_key(a)[i] == vnc_key(b)[i] by {
            assert(padded(a)[i] == padded(b)[i]);
        }
        assert(vnc_key(a) =~= vnc_key(b));
    }
    if vnc_key(a) == vnc_key(b) {
        assert forall|i: int| 0 <= i < 8 implies padded(a)[i] == padded(b)[i] by {
            assert(vnc_key(a)[i] == reversed(padded(a)[i]));
            assert(vnc_key(b)[i] == reversed(padded(b)[i]));
            lemma_reversed_twice(padded(a)[i]);
            lemma_reversed_twice(padded(b)[i]);
        }
        assert(padded(a) =~= padded(b));
    }
}

/// A response goes by the two blocks of the challenge and by the eight bytes of the
/// password that count, and by nothing else: a password with the same eight bytes gives
/// the same response, equal blocks give equal halves, and exchanged blocks exchange them.
pub proof fn lemma_challenge_answers(
    password: Seq<u8>,
    other: Seq<u8>,
    a: Seq<u8>,
    b: Seq<u8>,
    response: Seq<u8>,
    others: Seq<u8>,
    exchanged: Seq<u8>,
)
    requires
        a.len() == 8,
        b.len() == 8,
        padded(password) == padded(other),
        encrypted_ecb(vnc_key(password), a + b, response),
        encrypted_ecb(vnc_key(other), a + b, others),
        encrypted_ecb(vnc_key(password), b + a, exchanged),
    ensures
        others == response,
        a == b ==> response.subrange(0, 8) == response.subrange(8, 16),
        exchanged == response.subrange(8, 16) + response.subrange(0, 8),
{
    let challenge = a + b;
    let key = vnc_key(password);
    lemma_keys_of_padded_passwords(password, other);
    lemma_ecb_is_unique(key, challenge, response, others);
    assert(block_of(challenge, 0) =~= a);
    assert(block_of(challenge, 1) =~= b);
    lemma_exchanged_blocks(key, challenge, response, exchanged);
    if a == b {
        lemma_equal_blocks(key, challenge, response, 0, 1);
    }
}

} // verus!

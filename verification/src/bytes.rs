//! Big-endian numbers in byte strings, and reading from the front of one.
use vstd::prelude::*;
use vstd::slice::slice_subrange;

verus! {

/// The number that `b` spells, most significant byte first.
pub open spec fn be_value(b: Seq<u8>) -> nat
    decreases b.len(),
{
    if b.len() == 0 {
        0
    } else {
        be_value(b.drop_last()) * 256 + b.last() as nat
    }
}

/// The two bytes of `v`, most significant first.
pub open spec fn be16(v: int) -> Seq<u8> {
    seq![(v / 256) as u8, (v % 256) as u8]
}

/// The four bytes of `v`, most significant first.
pub open spec fn be32(v: int) -> Seq<u8> {
    seq![(v / 16777216) as u8, (v / 65536 % 256) as u8, (v / 256 % 256) as u8, (v % 256) as u8]
}

/// The signed number whose two's complement is `v`.
pub open spec fn signed32(v: int) -> int {
    if v >= 0x8000_0000 {
        v - 0x1_0000_0000
    } else {
        v
    }
}

/// The two's complement of `v`.
pub open spec fn complement32(v: int) -> int {
    if v < 0 {
        v + 0x1_0000_0000
    } else {
        v
    }
}

/// Two bytes as a number.
pub open spec fn u16_at(b: Seq<u8>, at: int) -> int {
    b[at] * 256 + b[at + 1]
}

/// Four bytes as a number.
pub open spec fn u32_at(b: Seq<u8>, at: int) -> int {
    b[at] * 16777216 + b[at + 1] * 65536 + b[at + 2] * 256 + b[at + 3]
}

/// The number in the two bytes at `at`.
pub fn read_u16(b: &[u8], at: usize) -> (v: u16)
    requires
        at + 2 <= b@.len(),
    ensures
        v == u16_at(b@, at as int),
{
    (b[at] as u16) * 256 + (b[at + 1] as u16)
}

/// The number in the four bytes at `at`.
pub fn read_u32(b: &[u8], at: usize) -> (v: u32)
    requires
        at + 4 <= b@.len(),
    ensures
        v == u32_at(b@, at as int),
{
    (b[at] as u32) * 16777216 + (b[at + 1] as u32) * 65536 + (b[at + 2] as u32) * 256 + (b[at
        + 3] as u32)
}

/// The signed number in the four bytes at `at`.
pub fn read_i32(b: &[u8], at: usize) -> (v: i32)
    requires
        at + 4 <= b@.len(),
    ensures
        v == signed32(u32_at(b@, at as int)),
{
    let raw: i64 = read_u32(b, at) as i64;
    if raw >= 0x8000_0000 {
        (raw - 0x1_0000_0000) as i32
    } else {
        raw as i32
    }
}

/// Two bytes as a number, least significant first.
pub open spec fn u16_le_at(b: Seq<u8>, at: int) -> int {
    b[at + 1] * 256 + b[at]
}

/// Four bytes as a number, least significant first.
pub open spec fn u32_le_at(b: Seq<u8>, at: int) -> int {
    b[at + 3] * 16777216 + b[at + 2] * 65536 + b[at + 1] * 256 + b[at]
}

/// The four bytes of `v`, least significant first.
pub open spec fn le32(v: int) -> Seq<u8> {
    seq![(v % 256) as u8, (v / 256 % 256) as u8, (v / 65536 % 256) as u8, (v / 16777216) as u8]
}

/// The number in the two bytes at `at`, least significant first.
pub fn read_u16_le(b: &[u8], at: usize) -> (v: u16)
    requires
        at + 2 <= b@.len(),
    ensures
        v == u16_le_at(b@, at as int),
{
    let low: u16 = b[at] as u16;
    (b[at + 1] as u16) * 256 + low
}

/// The number in the four bytes at `at`, least significant first.
pub fn read_u32_le(b: &[u8], at: usize) -> (v: u32)
    requires
        at + 4 <= b@.len(),
    ensures
        v == u32_le_at(b@, at as int),
{
    let low: u32 = b[at] as u32;
    (b[at + 3] as u32) * 16777216 + (b[at + 2] as u32) * 65536 + (b[at + 1] as u32) * 256 + low
}

/// Adds the four bytes of `v`, least significant first.
pub fn push_u32_le(out: &mut Vec<u8>, v: u32)
    ensures
        final(out)@ == old(out)@ + le32(v as int),
{
    out.push((v % 256) as u8);
    out.push((v / 256 % 256) as u8);
    out.push((v / 65536 % 256) as u8);
    out.push((v / 16777216) as u8);
    assert(out@ =~= old(out)@ + le32(v as int));
}

/// Adds the two bytes of `v`.
pub fn push_u16(out: &mut Vec<u8>, v: u16)
    ensures
        final(out)@ == old(out)@ + be16(v as int),
{
    out.push((v / 256) as u8);
    out.push((v % 256) as u8);
    assert(out@ =~= old(out)@ + be16(v as int));
}

/// Adds the four bytes of `v`.
pub fn push_u32(out: &mut Vec<u8>, v: u32)
    ensures
        final(out)@ == old(out)@ + be32(v as int),
{
    out.push((v / 16777216) as u8);
    out.push((v / 65536 % 256) as u8);
    out.push((v / 256 % 256) as u8);
    out.push((v % 256) as u8);
    assert(out@ =~= old(out)@ + be32(v as int));
}

/// Adds the four bytes of the two's complement of `v`.
pub fn push_i32(out: &mut Vec<u8>, v: i32)
    ensures
        final(out)@ == old(out)@ + be32(complement32(v as int)),
{
    if v < 0 {
        push_u32(out, (v as i64 + 0x1_0000_0000) as u32);
    } else {
        push_u32(out, v as u32);
    }
}

/// Adds all of `more`.
pub fn push_all(out: &mut Vec<u8>, more: &[u8])
    ensures
        final(out)@ == old(out)@ + more@,
{
    let ghost before = out@;
    let mut i: usize = 0;
    while i < more.len()
        invariant
            i <= more@.len(),
            out@ == before + more@.take(i as int),
        decreases more@.len() - i,
    {
        out.push(more[i]);
        i = i + 1;
        assert(out@ =~= before + more@.take(i as int));
    }
    assert(more@.take(i as int) =~= more@);
}

/// A copy of `b[from..to]`.
pub fn copy_range(b: &[u8], from: usize, to: usize) -> (v: Vec<u8>)
    requires
        from <= to <= b@.len(),
    ensures
        v@ == b@.subrange(from as int, to as int),
{
    vstd::slice::slice_to_vec(slice_subrange(b, from, to))
}

/// Reading back a 32-bit number, least significant byte first.
pub proof fn lemma_le32(v: int)
    requires
        0 <= v < 0x1_0000_0000,
    ensures
        u32_le_at(le32(v), 0) == v,
        le32(v).len() == 4,
{
}

/// Reading back a 16-bit number.
pub proof fn lemma_be16(v: int)
    requires
        0 <= v < 65536,
    ensures
        u16_at(be16(v), 0) == v,
        be16(v).len() == 2,
{
}

/// Reading back a 32-bit number.
pub proof fn lemma_be32(v: int)
    requires
        0 <= v < 0x1_0000_0000,
    ensures
        u32_at(be32(v), 0) == v,
        be32(v).len() == 4,
{
}

} // verus!

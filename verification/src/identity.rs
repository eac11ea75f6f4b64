//! Numbers that identify machines and sessions, and how they are written.
use vstd::prelude::*;
use crate::bytes;
use crate::text;

verus! {

/// Sixteen bytes written as an identifier: in hexadecimal, in five groups.
pub open spec fn uuid_text(b: Seq<u8>) -> Seq<char> {
    text::hex_of(b.subrange(0, 4)) + "-"@ + text::hex_of(b.subrange(4, 6)) + "-"@ + text::hex_of(
        b.subrange(6, 8),
    ) + "-"@ + text::hex_of(b.subrange(8, 10)) + "-"@ + text::hex_of(b.subrange(10, 16))
}

/// `uuid::Uuid::from_slice`, which takes exactly sixteen bytes, and the hyphenated
/// lower-case text that `to_string` gives.
#[verifier::external_body]
pub(crate) fn uuid_string(b: &[u8]) -> (r: Option<String>)
    ensures
        r is Some <==> b@.len() == 16,
        r matches Some(s) ==> s@ == uuid_text(b@),
{
    uuid::Uuid::from_slice(b).ok().map(|u| u.to_string())
}

fn be_bytes(n: u128, len: usize) -> (r: Vec<u8>)
    requires
        n < vstd::arithmetic::power::pow(256, len as nat),
    ensures
        r@.len() == len,
        bytes::be_value(r@) == n,
    decreases len,
{
    proof {
        reveal(vstd::arithmetic::power::pow);
    }
    if len == 0 {
        return Vec::new();
    }
    assert(n / 256 < vstd::arithmetic::power::pow(256, (len - 1) as nat)) by {
        let p = vstd::arithmetic::power::pow(256, (len - 1) as nat);
        assert(n < 256 * p);
    }
    let mut r = be_bytes(n / 256, len - 1);
    let ghost before = r@;
    r.push((n % 256) as u8);
    assert(r@.drop_last() =~= before);
    r
}

/// The sixteen bytes of an identifier, most significant first.
pub fn id_bytes(id: u128) -> (r: Vec<u8>)
    ensures
        r@.len() == 16,
        bytes::be_value(r@) == id,
{
    assert(vstd::arithmetic::power::pow(256, 16) > u128::MAX) by {
        reveal(vstd::arithmetic::power::pow);
        vstd::arithmetic::power::lemma_pow_adds(256, 8, 8);
        reveal_with_fuel(vstd::arithmetic::power::pow, 9);
        assert(vstd::arithmetic::power::pow(256, 8) == 0x1_0000_0000_0000_0000);
    }
    be_bytes(id, 16)
}

/// An identifier as a text.
pub fn id_text(id: u128) -> (r: String)
    ensures
        forall|b: Seq<u8>|
            b.len() == 16 && #[trigger] bytes::be_value(b) == id ==> r@ == uuid_text(b),
{
    let b = id_bytes(id);
    proof {
        assert forall|c: Seq<u8>| c.len() == 16 && #[trigger] bytes::be_value(c) == id implies c
            == b@ by {
            lemma_be_value_is_unique(c, b@);
        }
    }
    match uuid_string(b.as_slice()) {
        Some(s) => s,
        None => String::new(),
    }
}

/// Sixteen bytes are determined by the number that they spell.
pub proof fn lemma_be_value_is_unique(a: Seq<u8>, b: Seq<u8>)
    requires
        a.len() == b.len(),
        bytes::be_value(a) == bytes::be_value(b),
    ensures
        a == b,
    decreases a.len(),
{
    if a.len() == 0 {
        assert(a =~= b);
    } else {
        lemma_be_value_is_unique(a.drop_last(), b.drop_last());
        assert(a =~= a.drop_last().push(a.last()));
        assert(b =~= b.drop_last().push(b.last()));
    }
}

} // verus!

//! Bytes as base64 texts, and texts that have to be wiped.
use base64::Engine;
use vstd::prelude::*;

verus! {

/// What the standard base64 alphabet with padding encodes bytes as.
pub uninterp spec fn base64_text(b: Seq<u8>) -> Seq<char>;

/// What a text decodes to in the standard base64 alphabet with padding.
pub uninterp spec fn base64_bytes(s: Seq<char>) -> Option<Seq<u8>>;

/// `base64::engine::general_purpose::STANDARD.decode`: the bytes that a text encodes,
/// or nothing where it encodes none. Which bytes those are is left to the name.
#[verifier::external_body]
pub(crate) fn decode_base64(s: &str) -> (r: Option<Vec<u8>>)
    ensures
        match r {
            Some(b) => base64_bytes(s@) == Some(b@),
            None => base64_bytes(s@) is None,
        },
{
    base64::engine::general_purpose::STANDARD.decode(s.as_bytes()).ok()
}

/// `base64::engine::general_purpose::STANDARD.encode`: four characters of one byte
/// each for every three bytes or what is left of them, from which decoding gives the
/// bytes back. It panics where the length of the text cannot be told.
#[verifier::external_body]
pub(crate) fn encode_base64(b: &[u8]) -> (r: String)
    requires
        (b@.len() + 2) / 3 * 4 <= usize::MAX,
    ensures
        r@ == base64_text(b@),
        vstd::utf8::encode_utf8(r@).len() == (b@.len() + 2) / 3 * 4,
        base64_bytes(r@) == Some(b@),
{
    base64::engine::general_purpose::STANDARD.encode(b)
}

/// `zeroize::Zeroize::zeroize` on a `String`: its memory is overwritten, and it is
/// empty afterwards. That the memory is overwritten is not stated.
#[verifier::external_body]
pub(crate) fn wipe(s: &mut String)
    ensures
        final(s)@ == Seq::<char>::empty(),
{
    zeroize::Zeroize::zeroize(s);
}

} // verus!

//! What holds of the connection phase as a whole.
use vstd::prelude::*;
use crate::rdp::connection;
use crate::rdp::connection::{Negotiation, NegotiationFailure, SecurityProtocol};

verus! {

/// A number as four bytes, least significant first.
pub open spec fn four(v: u32) -> Seq<u8> {
    seq![
        (v % 256) as u8,
        (v / 256 % 256) as u8,
        (v / 65536 % 256) as u8,
        (v / 16777216) as u8,
    ]
}

/// A confirm as a server writes it: `kind` is the kind of its answer and `value` what it
/// carries.
pub open spec fn confirm(head: Seq<u8>, kind: u8, flags: u8, value: u32) -> Seq<u8> {
    seq![head[0], 208u8, head[1], head[2], head[3], head[4], head[5]] + seq![kind, flags, 8u8, 0]
        + four(value)
}

/// The answer of a server is read as it was written: the protocol that it chose, or the
/// failure with its number, and nothing of what stands around it matters.
pub proof fn lemma_confirm_reads_back(head: Seq<u8>, kind: u8, flags: u8, value: u32)
    requires
        head.len() == 6,
    ensures
        ({
            let read = connection::confirmed(confirm(head, kind, flags, value));
            &&& kind == 2 ==> read == Some(Negotiation::Selected(SecurityProtocol(value)))
            &&& kind == 3 ==> read == Some(
                Negotiation::Refused(NegotiationFailure::of_code(value)),
            )
            &&& kind != 2 && kind != 3 ==> read is None
        }),
{
    let b = confirm(head, kind, flags, value);
    let rest = b.skip(7);
    assert(rest =~= seq![kind, flags, 8u8, 0] + four(value));
    assert(rest[2] == 8 && rest[3] == 0);
    assert(rest[4] == four(value)[0] && rest[5] == four(value)[1] && rest[6] == four(value)[2]
        && rest[7] == four(value)[3]);
}

/// A confirm without an answer means that the server does not negotiate; anything that is
/// no confirm, or is cut off, is none.
pub proof fn lemma_other_confirms(payload: Seq<u8>)
    ensures
        payload.len() == 7 && payload[1] == 208 ==> connection::confirmed(payload) == Some(
            Negotiation::NoNegotiationRequired,
        ),
        payload.len() < 7 || payload[1] != 208 ==> connection::confirmed(payload) is None,
        7 < payload.len() < 15 ==> connection::confirmed(payload) is None,
        connection::confirmed(payload) == Some(Negotiation::NoNegotiationRequired)
            ==> payload.len() == 7,
{
}

/// A failure has the name of its number, and every number has one.
pub proof fn lemma_failures(code: u32)
    ensures
        NegotiationFailure::of_code(code) is SslRequiredByServer <==> code == 1,
        NegotiationFailure::of_code(code) is SslNotAllowedByServer <==> code == 2,
        NegotiationFailure::of_code(code) is WrongSecurityProtocol <==> code == 3,
        NegotiationFailure::of_code(code) is ClientCertificateRequired <==> code == 5,
        code == 0 || code == 4 || code > 5 ==> NegotiationFailure::of_code(code)
            == NegotiationFailure::Unknown(code),
{
}

/// A request says how long it is, that it is a request for a connection, which protocols
/// the client has, and then the cookie, if there is one, on a line of its own.
pub proof fn lemma_request(requested: u32, cookie: Seq<char>)
    requires
        14 + connection::cookie_bytes(cookie).len() <= 255,
    ensures
        ({
            let b = connection::request_body(requested, cookie);
            let text = vstd::utf8::encode_utf8(cookie);
            &&& b[0] == b.len() - 1
            &&& b[1] == 224
            &&& b.subrange(2, 7) =~= seq![0u8, 0, 0, 0, 0]
            &&& b.subrange(7, 11) =~= seq![1u8, 0, 8, 0]
            &&& b.subrange(11, 15) =~= four(requested)
            &&& cookie.len() == 0 ==> b.len() == 15
            &&& cookie.len() > 0 ==> b.skip(15) =~= text + seq![13u8, 10]
        }),
{
    let b = connection::request_body(requested, cookie);
    assert(b.skip(15) =~= connection::cookie_bytes(cookie));
}

/// A frame says how long it is, its own header included.
pub proof fn lemma_frames(payload: Seq<u8>)
    requires
        payload.len() + 4 <= 65535,
    ensures
        ({
            let b = connection::framed(payload);
            &&& b.len() == payload.len() + 4
            &&& b[0] == 3 && b[1] == 0
            &&& b[2] * 256 + b[3] == b.len()
            &&& b.skip(4) =~= payload
        }),
{
}

/// A set of protocols is named by the protocols in it, and by nothing else.
pub proof fn lemma_protocol_names(set: u32)
    ensures
        ({
            let names = connection::protocol_names(set);
            &&& names.contains("TLS"@) <== set & 1 != 0
            &&& names.contains("hybrid"@) <== set & 2 != 0
            &&& names.contains("hybrid-ex"@) <== set & 8 != 0
            &&& names.contains("unknown flags"@) <== set & 0xffff_fff4 != 0
            &&& names.len() == (if set & 1 != 0 {
                1int
            } else {
                0
            }) + (if set & 2 != 0 {
                1int
            } else {
                0
            }) + (if set & 8 != 0 {
                1int
            } else {
                0
            }) + (if set & 0xffff_fff4 != 0 {
                1int
            } else {
                0
            })
        }),
{
    let names = connection::protocol_names(set);
    let a = if set & 1 != 0 {
        1int
    } else {
        0
    };
    let b = if set & 2 != 0 {
        1int
    } else {
        0
    };
    let c = if set & 8 != 0 {
        1int
    } else {
        0
    };
    if set & 1 != 0 {
        assert(names[0] == "TLS"@);
    }
    if set & 2 != 0 {
        assert(names[a] == "hybrid"@);
    }
    if set & 8 != 0 {
        assert(names[a + b] == "hybrid-ex"@);
    }
    if set & 0xffff_fff4 != 0 {
        assert(names[a + b + c] == "unknown flags"@);
    }
}

} // verus!

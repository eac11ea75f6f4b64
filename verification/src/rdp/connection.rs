//! RDP connection initialisation: TPKT, X.224 and the RDP negotiation phase, laid
//! out as MS-RDPBCGR 2.2.1 describes them.
//!
//! This is everything that happens before credentials are used: the client says
//! what it can do, the server answers with what it accepts, and a failure arrives
//! as a named code.
use vstd::prelude::*;
use vstd::slice::slice_subrange;
use vstd::string::StringExecFns;
use crate::bytes;
use crate::rdp;
use crate::rdp::RdpError;
use crate::text;

verus! {

/// X.224 connection request, the first thing a client sends.
pub const X224_CR: u8 = 0xE0;

/// X.224 connection confirm, its answer.
pub const X224_CC: u8 = 0xD0;

/// X.224 data, used for everything after the connection phase.
pub const X224_DT: u8 = 0xF0;

pub const RDP_NEG_REQ: u8 = 0x01;

pub const RDP_NEG_RSP: u8 = 0x02;

pub const RDP_NEG_FAILURE: u8 = 0x03;

/// Standard RDP security: the server's own encryption, no TLS.
pub const PROTOCOL_RDP: u32 = 0x0000_0000;

/// TLS, with the server's certificate.
pub const PROTOCOL_TLS: u32 = 0x0000_0001;

/// Credential Security Support Provider, which moves credentials inside TLS.
pub const PROTOCOL_HYBRID: u32 = 0x0000_0002;

/// The same with the server's redirection guidance.
pub const PROTOCOL_HYBRID_EX: u32 = 0x0000_0008;

/// A set of security protocols.
#[derive(Debug, Clone, Copy, PartialEq, Eq, Structural)]
pub struct SecurityProtocol(pub u32);

proof fn lemma_known_flags()
    by (bit_vector)
    ensures
        1u32 | 2u32 | 8u32 == 11u32,
        !11u32 == 0xffff_fff4u32,
{
}

/// The names of the protocols in `set`.
pub open spec fn protocol_names(set: u32) -> Seq<Seq<char>> {
    (if set & PROTOCOL_TLS != 0 {
        seq!["TLS"@]
    } else {
        Seq::empty()
    }) + (if set & PROTOCOL_HYBRID != 0 {
        seq!["hybrid"@]
    } else {
        Seq::empty()
    }) + (if set & PROTOCOL_HYBRID_EX != 0 {
        seq!["hybrid-ex"@]
    } else {
        Seq::empty()
    }) + (if set & 0xffff_fff4 != 0 {
        seq!["unknown flags"@]
    } else {
        Seq::empty()
    })
}

impl SecurityProtocol {
    /// Whether every protocol of `other`, which is not empty, is in this set.
    pub fn contains(self, other: Self) -> (r: bool)
        ensures
            r == (self.0 & other.0 == other.0 && other.0 != 0),
    {
        self.0 & other.0 == other.0 && other.0 != 0
    }

    /// The protocols to request: every one this client has a name for but
    /// standard RDP security.
    pub fn request_default() -> (r: Self)
        ensures
            r.0 == PROTOCOL_TLS | PROTOCOL_HYBRID | PROTOCOL_HYBRID_EX,
            r.0 == 11,
    {
        proof {
            lemma_known_flags();
        }
        SecurityProtocol(PROTOCOL_TLS | PROTOCOL_HYBRID | PROTOCOL_HYBRID_EX)
    }

    /// The name of this set.
    pub fn label(self) -> (r: String)
        ensures
            r@ == if self.0 == 0 {
                "standard RDP security"@
            } else {
                text::listed(protocol_names(self.0), "+"@)
            },
    {
        if self.0 == 0 {
            return "standard RDP security".to_owned();
        }
        let mut parts: Vec<String> = Vec::new();
        if self.0 & PROTOCOL_TLS != 0 {
            parts.push("TLS".to_owned());
        }
        if self.0 & PROTOCOL_HYBRID != 0 {
            parts.push("hybrid".to_owned());
        }
        if self.0 & PROTOCOL_HYBRID_EX != 0 {
            parts.push("hybrid-ex".to_owned());
        }
        if self.0 & 0xffff_fff4 != 0 {
            parts.push("unknown flags".to_owned());
        }
        assert(text::texts(parts@) =~= protocol_names(self.0));
        text::list_text(&parts, "+")
    }
}

/// Why a server refused the connection.
#[derive(Debug, Clone, Copy, PartialEq, Eq, Structural)]
pub enum NegotiationFailure {
    /// The server requires a protocol this client did not offer.
    SslRequiredByServer,
    /// The server forbids TLS.
    SslNotAllowedByServer,
    WrongSecurityProtocol,
    /// A client certificate the server demanded was not supplied.
    ClientCertificateRequired,
    /// A code this client has no name for.
    Unknown(u32),
}

impl NegotiationFailure {
    /// The failure that `code` stands for.
    pub open spec fn of_code(code: u32) -> Self {
        if code == 1 {
            NegotiationFailure::SslRequiredByServer
        } else if code == 2 {
            NegotiationFailure::SslNotAllowedByServer
        } else if code == 3 {
            NegotiationFailure::WrongSecurityProtocol
        } else if code == 5 {
            NegotiationFailure::ClientCertificateRequired
        } else {
            NegotiationFailure::Unknown(code)
        }
    }

    /// What the operator should do about it.
    pub open spec fn hint(self) -> Seq<char> {
        match self {
            NegotiationFailure::SslRequiredByServer =>
            "the server requires TLS and this client did not offer it"@,
            NegotiationFailure::SslNotAllowedByServer =>
            "the server forbids TLS, which this client always requests"@,
            NegotiationFailure::WrongSecurityProtocol =>
            "the server rejected every protocol this client offered"@,
            NegotiationFailure::ClientCertificateRequired =>
            "the server requires a client certificate, which this client has no store for"@,
            NegotiationFailure::Unknown(_) =>
            "the server refused the connection for an unnamed reason"@,
        }
    }

    /// The name of this failure.
    pub open spec fn name(self) -> Seq<char> {
        match self {
            NegotiationFailure::SslRequiredByServer => "SSL required by server"@,
            NegotiationFailure::SslNotAllowedByServer => "SSL not allowed by server"@,
            NegotiationFailure::WrongSecurityProtocol => "wrong security protocol"@,
            NegotiationFailure::ClientCertificateRequired => "client certificate required"@,
            NegotiationFailure::Unknown(code) => "unknown negotiation failure "@ + text::decimal(
                code as nat,
            ),
        }
    }

    /// The failure that `code` stands for.
    pub fn from_code(code: u32) -> (r: Self)
        ensures
            r == Self::of_code(code),
    {
        match code {
            1 => NegotiationFailure::SslRequiredByServer,
            2 => NegotiationFailure::SslNotAllowedByServer,
            3 => NegotiationFailure::WrongSecurityProtocol,
            5 => NegotiationFailure::ClientCertificateRequired,
            other => NegotiationFailure::Unknown(other),
        }
    }

    /// What the operator should do about it.
    pub fn advice(self) -> (r: &'static str)
        ensures
            r@ == self.hint(),
    {
        match self {
            NegotiationFailure::SslRequiredByServer =>
            "the server requires TLS and this client did not offer it",
            NegotiationFailure::SslNotAllowedByServer =>
            "the server forbids TLS, which this client always requests",
            NegotiationFailure::WrongSecurityProtocol =>
            "the server rejected every protocol this client offered",
            NegotiationFailure::ClientCertificateRequired =>
            "the server requires a client certificate, which this client has no store for",
            NegotiationFailure::Unknown(_) =>
            "the server refused the connection for an unnamed reason",
        }
    }

    /// The name of this failure.
    pub fn label(self) -> (r: String)
        ensures
            r@ == self.name(),
    {
        match self {
            NegotiationFailure::SslRequiredByServer => "SSL required by server".to_owned(),
            NegotiationFailure::SslNotAllowedByServer => "SSL not allowed by server".to_owned(),
            NegotiationFailure::WrongSecurityProtocol => "wrong security protocol".to_owned(),
            NegotiationFailure::ClientCertificateRequired =>
            "client certificate required".to_owned(),
            NegotiationFailure::Unknown(code) => text::joined(
                "unknown negotiation failure ",
                text::decimal_text(code as u64).as_str(),
            ),
        }
    }
}

/// What the server answered during negotiation.
#[derive(Debug, Clone, Copy, PartialEq, Eq, Structural)]
pub enum Negotiation {
    /// The server chose a protocol from what was offered.
    Selected(SecurityProtocol),
    /// The server supports no negotiation and uses standard RDP security.
    NoNegotiationRequired,
    /// The server refused, with a reason.
    Refused(NegotiationFailure),
}

/// The result of a successful connection phase.
#[derive(Debug, Clone, Copy, PartialEq, Eq, Structural)]
pub struct ConnectionConfirmed {
    pub negotiation: Negotiation,
}

/// A connection confirm that was read.
#[derive(Debug, Clone, Copy, PartialEq, Eq, Structural)]
pub struct ConnectionConfirm {
    pub negotiation: Negotiation,
}

/// `payload` behind a TPKT header, whose length counts the header itself.
pub open spec fn framed(payload: Seq<u8>) -> Seq<u8> {
    seq![3u8, 0] + bytes::be16((payload.len() + 4) as int) + payload
}

/// Puts a TPKT header before `payload`; refused where the length does not fit.
pub fn tpkt(payload: &[u8]) -> (r: Result<Vec<u8>, RdpError>)
    ensures
        match r {
            Ok(out) => payload@.len() + 4 <= 65535 && out@ == framed(payload@),
            Err(e) => payload@.len() + 4 > 65535 && if payload@.len() + 4 > usize::MAX {
                rdp::is_protocol(e, "TPKT payload length overflow"@)
            } else {
                rdp::is_protocol(
                    e,
                    "TPKT payload of "@ + text::decimal((payload@.len() + 4) as nat)
                        + " bytes exceeds 65535"@,
                )
            },
        },
{
    let total: usize = match payload.len().checked_add(4) {
        Some(total) => total,
        None => {
            return Err(RdpError::protocol("TPKT payload length overflow".to_owned()));
        },
    };
    if total > 65535 {
        let mut message = "TPKT payload of ".to_owned();
        message.append(text::decimal_text(total as u64).as_str());
        message.append(" bytes exceeds 65535");
        return Err(RdpError::protocol(message));
    }
    let mut out: Vec<u8> = Vec::with_capacity(total);
    out.push(3);
    out.push(0);
    assert(out@ =~= seq![3u8, 0]);
    bytes::push_u16(&mut out, total as u16);
    bytes::push_all(&mut out, payload);
    Ok(out)
}

/// Splits a TPKT header off: the declared length and the payload.
pub fn parse_tpkt(frame: &[u8]) -> (r: Result<(usize, &[u8]), RdpError>)
    ensures
        ({
            let declared = bytes::u16_at(frame@, 2);
            match r {
                Ok((length, payload)) => frame@.len() >= 4 && frame@[0] == 3 && 4 <= declared
                    <= frame@.len() && length == declared && payload@ == frame@.subrange(
                    4,
                    declared,
                ),
                Err(e) => if frame@.len() < 4 {
                    rdp::is_protocol(
                        e,
                        "TPKT header needs 4 bytes, got "@ + text::decimal(frame@.len()),
                    )
                } else if frame@[0] != 3 {
                    rdp::is_protocol(
                        e,
                        "TPKT version "@ + text::decimal(frame@[0] as nat) + " is not 3"@,
                    )
                } else if declared < 4 {
                    rdp::is_protocol(
                        e,
                        "TPKT length "@ + text::decimal(declared as nat)
                            + " is shorter than its own header"@,
                    )
                } else {
                    declared > frame@.len() && rdp::is_protocol(
                        e,
                        "TPKT declares "@ + text::decimal(declared as nat) + " bytes but only "@
                            + text::decimal(frame@.len()) + " are present"@,
                    )
                },
            }
        }),
{
    if frame.len() < 4 {
        return Err(
            RdpError::protocol(
                text::joined(
                    "TPKT header needs 4 bytes, got ",
                    text::decimal_text(frame.len() as u64).as_str(),
                ),
            ),
        );
    }
    if frame[0] != 3 {
        let mut message = "TPKT version ".to_owned();
        message.append(text::decimal_text(frame[0] as u64).as_str());
        message.append(" is not 3");
        return Err(RdpError::protocol(message));
    }
    let length: usize = bytes::read_u16(frame, 2) as usize;
    if length < 4 {
        let mut message = "TPKT length ".to_owned();
        message.append(text::decimal_text(length as u64).as_str());
        message.append(" is shorter than its own header");
        return Err(RdpError::protocol(message));
    }
    if length > frame.len() {
        let mut message = "TPKT declares ".to_owned();
        message.append(text::decimal_text(length as u64).as_str());
        message.append(" bytes but only ");
        message.append(text::decimal_text(frame.len() as u64).as_str());
        message.append(" are present");
        return Err(RdpError::protocol(message));
    }
    Ok((length, slice_subrange(frame, 4, length)))
}

/// What `parse_tpkt` makes of a frame that `tpkt` built: its length and payload.
pub proof fn lemma_tpkt_round_trip(payload: Seq<u8>)
    requires
        payload.len() + 4 <= 65535,
    ensures
        ({
            let frame = framed(payload);
            let declared = bytes::u16_at(frame, 2);
            &&& frame.len() >= 4
            &&& frame[0] == 3
            &&& declared == frame.len()
            &&& frame.subrange(4, declared) == payload
        }),
{
    let frame = framed(payload);
    bytes::lemma_be16((payload.len() + 4) as int);
    assert(frame[2] == bytes::be16((payload.len() + 4) as int)[0]);
    assert(frame[3] == bytes::be16((payload.len() + 4) as int)[1]);
    assert(frame.subrange(4, frame.len() as int) =~= payload);
}

/// The cookie of a connection request on the wire.
pub open spec fn cookie_bytes(cookie: Seq<char>) -> Seq<u8> {
    if cookie.len() == 0 {
        Seq::empty()
    } else {
        vstd::utf8::encode_utf8(cookie) + seq![13u8, 10]
    }
}

/// The X.224 connection request with an RDP negotiation request. The first byte
/// counts the bytes behind it.
pub open spec fn request_body(requested: u32, cookie: Seq<char>) -> Seq<u8> {
    seq![
        (14 + cookie_bytes(cookie).len()) as u8,
        X224_CR,
        0,
        0,
        0,
        0,
        0,
        RDP_NEG_REQ,
        0,
        8,
        0,
    ] + bytes::le32(requested as int) + cookie_bytes(cookie)
}

/// The first message of a client. `cookie` is a routing token for a load
/// balancer, which may be empty.
pub fn connection_request(requested: SecurityProtocol, cookie: &str) -> (r: Result<
    Vec<u8>,
    RdpError,
>)
    ensures
        match r {
            Ok(out) => !text::has_control(cookie@) && 14 + cookie_bytes(cookie@).len() <= 255
                && out@ == framed(request_body(requested.0, cookie@)),
            Err(e) => if text::has_control(cookie@) {
                rdp::is_protocol(e, "cookie contains control characters"@)
            } else {
                14 + cookie_bytes(cookie@).len() > 255 && rdp::is_protocol(
                    e,
                    "X.224 connection request is too long"@,
                )
            },
        },
{
    let mut body: Vec<u8> = Vec::new();
    body.push(0);
    body.push(X224_CR);
    body.push(0);
    body.push(0);
    body.push(0);
    body.push(0);
    body.push(0);
    body.push(RDP_NEG_REQ);
    body.push(0);
    body.push(8);
    body.push(0);
    let ghost fixed = seq![0u8, X224_CR, 0, 0, 0, 0, 0, RDP_NEG_REQ, 0, 8, 0];
    assert(body@ =~= fixed);
    bytes::push_u32_le(&mut body, requested.0);
    if !cookie.is_empty() {
        if text::contains_control(cookie) {
            return Err(RdpError::protocol("cookie contains control characters".to_owned()));
        }
        bytes::push_all(&mut body, cookie.as_bytes());
        let ghost before = body@;
        body.push(13);
        body.push(10);
        assert(body@ =~= before + seq![13u8, 10]);
    }
    assert(body@ =~= fixed + bytes::le32(requested.0 as int) + cookie_bytes(cookie@));
    assert(body@.len() == 15 + cookie_bytes(cookie@).len());
    assert(cookie@.len() == 0 ==> !text::has_control(cookie@));
    let behind: usize = body.len() - 1;
    if behind > 255 {
        return Err(RdpError::protocol("X.224 connection request is too long".to_owned()));
    }
    body[0] = behind as u8;
    assert(body@ =~= request_body(requested.0, cookie@));
    tpkt(body.as_slice())
}

/// The negotiation that the payload of a connection confirm reports, if it is
/// well-formed.
pub open spec fn confirmed(payload: Seq<u8>) -> Option<Negotiation> {
    let rest = payload.skip(7);
    if payload.len() < 7 || payload[1] != X224_CC {
        None
    } else if rest.len() == 0 {
        Some(Negotiation::NoNegotiationRequired)
    } else if rest.len() < 8 || bytes::u16_le_at(rest, 2) < 8 || bytes::u16_le_at(rest, 2)
        > rest.len() {
        None
    } else if rest[0] == RDP_NEG_RSP {
        Some(Negotiation::Selected(SecurityProtocol(bytes::u32_le_at(rest, 4) as u32)))
    } else if rest[0] == RDP_NEG_FAILURE {
        Some(
            Negotiation::Refused(NegotiationFailure::of_code(bytes::u32_le_at(rest, 4) as u32)),
        )
    } else {
        None
    }
}

/// Why the payload of a connection confirm is refused.
pub open spec fn refusal_text(payload: Seq<u8>) -> Seq<char> {
    let rest = payload.skip(7);
    if payload.len() < 7 {
        "connection confirm needs at least 7 bytes, got "@ + text::decimal(payload.len())
    } else if payload[1] != X224_CC {
        "expected an X.224 connection confirm (0xd0), got 0x"@ + text::hex_pair(payload[1])
    } else if rest.len() < 8 {
        "negotiation structure is "@ + text::decimal(rest.len()) + " bytes, expected at least 8"@
    } else if bytes::u16_le_at(rest, 2) < 8 || bytes::u16_le_at(rest, 2) > rest.len() {
        "negotiation structure declares "@ + text::decimal(bytes::u16_le_at(rest, 2) as nat)
            + " bytes, "@ + text::decimal(rest.len()) + " are present"@
    } else {
        "unexpected negotiation structure type "@ + text::decimal(rest[0] as nat)
    }
}

/// Reads an X.224 connection confirm with the negotiation result.
pub fn parse_connection_confirm(payload: &[u8]) -> (r: Result<ConnectionConfirm, RdpError>)
    ensures
        match r {
            Ok(confirm) => confirmed(payload@) == Some(confirm.negotiation),
            Err(e) => confirmed(payload@) is None && rdp::is_protocol(e, refusal_text(payload@)),
        },
{
    if payload.len() < 7 {
        return Err(
            RdpError::protocol(
                text::joined(
                    "connection confirm needs at least 7 bytes, got ",
                    text::decimal_text(payload.len() as u64).as_str(),
                ),
            ),
        );
    }
    if payload[1] != X224_CC {
        let mut message = "expected an X.224 connection confirm (0xd0), got 0x".to_owned();
        text::push_hex_pair(&mut message, payload[1]);
        return Err(RdpError::protocol(message));
    }
    let rest = slice_subrange(payload, 7, payload.len());
    assert(rest@ =~= payload@.skip(7));
    if rest.len() == 0 {
        return Ok(ConnectionConfirm { negotiation: Negotiation::NoNegotiationRequired });
    }
    if rest.len() < 8 {
        let mut message = "negotiation structure is ".to_owned();
        message.append(text::decimal_text(rest.len() as u64).as_str());
        message.append(" bytes, expected at least 8");
        return Err(RdpError::protocol(message));
    }
    let length: usize = bytes::read_u16_le(rest, 2) as usize;
    if length < 8 || length > rest.len() {
        let mut message = "negotiation structure declares ".to_owned();
        message.append(text::decimal_text(length as u64).as_str());
        message.append(" bytes, ");
        message.append(text::decimal_text(rest.len() as u64).as_str());
        message.append(" are present");
        return Err(RdpError::protocol(message));
    }
    let value: u32 = bytes::read_u32_le(rest, 4);
    if rest[0] == RDP_NEG_RSP {
        Ok(ConnectionConfirm { negotiation: Negotiation::Selected(SecurityProtocol(value)) })
    } else if rest[0] == RDP_NEG_FAILURE {
        Ok(
            ConnectionConfirm {
                negotiation: Negotiation::Refused(NegotiationFailure::from_code(value)),
            },
        )
    } else {
        Err(
            RdpError::protocol(
                text::joined(
                    "unexpected negotiation structure type ",
                    text::decimal_text(rest[0] as u64).as_str(),
                ),
            ),
        )
    }
}

} // verus!

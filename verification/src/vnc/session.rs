//! The handshake with a server and the messages of a running session.
//!
//! Nothing here touches a socket. [`Handshake::advance`] takes the bytes that
//! have arrived and says what comes next: more bytes, something to send, a
//! refusal, or the finished [`VncSession`].
use vstd::prelude::*;
use vstd::slice::slice_subrange;
use vstd::string::StringExecFns;
use crate::bytes;
use crate::text;
use crate::vnc;
use crate::vnc::auth;
use crate::vnc::protocol;
use crate::vnc::protocol::{Encoding, FramebufferUpdate, PixelFormat, Rectangle, SecurityType, ServerCutText};
use crate::vnc::{short_read, VncError};

verus! {

/// The largest framebuffer this client accepts.
pub const MAX_FRAMEBUFFER_PIXELS: u64 = 268435456;

/// The longest reason or name this client accepts.
pub const MAX_TEXT: u32 = 4096;

/// What the banner of a server says.
#[derive(Debug, Clone)]
pub enum Banner {
    /// A version this client answers.
    Version { version: String, minor: u32 },
    /// A banner this client refuses.
    Refused(VncError),
    /// The version cannot be cut out of the text between two characters.
    Unsliceable,
}

/// A banner with its texts as sequences.
pub enum BannerView {
    Version { version: Seq<char>, minor: nat },
    Refused(vnc::VncErrorView),
    Unsliceable,
}

impl View for Banner {
    type V = BannerView;

    open spec fn view(&self) -> BannerView {
        match *self {
            Banner::Version { version, minor } => BannerView::Version {
                version: version@,
                minor: minor as nat,
            },
            Banner::Refused(e) => BannerView::Refused(e@),
            Banner::Unsliceable => BannerView::Unsliceable,
        }
    }
}

/// The banner text `t`, "RFB 003.889\n" for instance, read for its version.
pub open spec fn banner_of(t: Seq<char>) -> BannerView {
    let b = vstd::utf8::encode_utf8(t);
    if !(b.len() >= 4 && b.take(4) == seq![82u8, 70, 66, 32] && b.last() == 10) {
        BannerView::Refused(
            vnc::VncErrorView::Protocol(
                "server did not send an RFB version banner: "@ + text::quoted_text(t),
            ),
        )
    } else if !vstd::utf8::is_char_boundary(b, 4) || !vstd::utf8::is_char_boundary(
        b.subrange(4, b.len() as int),
        7,
    ) {
        BannerView::Unsliceable
    } else {
        let v = b.subrange(4, 11);
        let version = vstd::utf8::decode_utf8(v);
        if !vstd::utf8::is_char_boundary(v, 3) || !vstd::utf8::is_char_boundary(v, 4) {
            BannerView::Unsliceable
        } else {
            match (
                text::parsed_unsigned(
                    vstd::utf8::decode_utf8(v.subrange(0, 3)),
                    u32::MAX as nat,
                ),
                text::parsed_unsigned(
                    vstd::utf8::decode_utf8(v.subrange(4, 7)),
                    u32::MAX as nat,
                ),
            ) {
                (Some(major), Some(minor)) => if major != 3 {
                    BannerView::Refused(
                        vnc::VncErrorView::Protocol(
                            "RFB major version "@ + text::decimal(major)
                                + " is not supported (this client speaks 3.x)"@,
                        ),
                    )
                } else {
                    BannerView::Version { version, minor }
                },
                _ => BannerView::Refused(
                    vnc::VncErrorView::Protocol(
                        "unparsable RFB version "@ + text::quoted_text(version),
                    ),
                ),
            }
        }
    }
}

/// Cuts `s` at byte `mid`.
fn cut(s: &str, mid: usize) -> (r: (&str, &str))
    requires
        vstd::utf8::is_char_boundary(vstd::utf8::encode_utf8(s@), mid as int),
    ensures
        mid <= vstd::utf8::encode_utf8(s@).len(),
        vstd::utf8::encode_utf8(r.0@) == vstd::utf8::encode_utf8(s@).subrange(0, mid as int),
        vstd::utf8::encode_utf8(r.1@) == vstd::utf8::encode_utf8(s@).subrange(
            mid as int,
            vstd::utf8::encode_utf8(s@).len() as int,
        ),
        r.0@ == vstd::utf8::decode_utf8(vstd::utf8::encode_utf8(s@).subrange(0, mid as int)),
        r.1@ == vstd::utf8::decode_utf8(
            vstd::utf8::encode_utf8(s@).subrange(
                mid as int,
                vstd::utf8::encode_utf8(s@).len() as int,
            ),
        ),
{
    let r = s.split_at(mid);
    proof {
        vstd::utf8::encode_utf8_valid_utf8(s@);
        vstd::utf8::encode_utf8_decode_utf8(r.0@);
        vstd::utf8::encode_utf8_decode_utf8(r.1@);
        lemma_boundary_in_range(vstd::utf8::encode_utf8(s@), mid as int);
    }
    r
}

proof fn lemma_boundary_in_range(b: Seq<u8>, mid: int)
    requires
        vstd::utf8::valid_utf8(b),
        vstd::utf8::is_char_boundary(b, mid),
    ensures
        0 <= mid <= b.len(),
    decreases b.len(),
{
    if mid != 0 && b.len() > 0 {
        lemma_boundary_in_range(
            vstd::utf8::pop_first_scalar(b),
            mid - vstd::utf8::length_of_first_scalar(b),
        );
    }
}

/// Reads the banner text of a server.
pub fn read_banner(text: &str) -> (r: Banner)
    ensures
        r@ == banner_of(text@),
{
    let b = text.as_bytes();
    let rfb = b.len() >= 4 && b[0] == 82 && b[1] == 70 && b[2] == 66 && b[3] == 32 && b[b.len() - 1]
        == 10;
    proof {
        if b@.len() >= 4 {
            let front = b@.take(4);
            assert(front == seq![82u8, 70, 66, 32] <==> (b@[0] == 82 && b@[1] == 70 && b@[2] == 66
                && b@[3] == 32)) by {
                if b@[0] == 82 && b@[1] == 70 && b@[2] == 66 && b@[3] == 32 {
                    assert(front =~= seq![82u8, 70, 66, 32]);
                } else if front == seq![82u8, 70, 66, 32] {
                    assert(front[0] == 82 && front[1] == 70 && front[2] == 66 && front[3] == 32);
                }
            }
        }
    }
    if !rfb {
        return Banner::Refused(
            VncError::protocol(
                text::joined(
                    "server did not send an RFB version banner: ",
                    text::quoted(text).as_str(),
                ),
            ),
        );
    }
    if !text.is_char_boundary(4) {
        return Banner::Unsliceable;
    }
    let (_, rest) = cut(text, 4);
    if !rest.is_char_boundary(7) {
        return Banner::Unsliceable;
    }
    let (version, _) = cut(rest, 7);
    proof {
        assert(vstd::utf8::encode_utf8(version@) =~= b@.subrange(4, 11));
        vstd::utf8::encode_utf8_decode_utf8(version@);
    }
    if !version.is_char_boundary(3) || !version.is_char_boundary(4) {
        return Banner::Unsliceable;
    }
    let (first, _) = cut(version, 3);
    let (_, second) = cut(version, 4);
    match (
        text::parse_unsigned(first, u32::MAX as u64),
        text::parse_unsigned(second, u32::MAX as u64),
    ) {
        (Some(major), Some(minor)) => {
            if major != 3 {
                let mut message = "RFB major version ".to_owned();
                message.append(text::decimal_text(major).as_str());
                message.append(" is not supported (this client speaks 3.x)");
                Banner::Refused(VncError::protocol(message))
            } else {
                Banner::Version { version: version.to_owned(), minor: minor as u32 }
            }
        },
        _ => Banner::Refused(
            VncError::protocol(
                text::joined("unparsable RFB version ", text::quoted(version).as_str()),
            ),
        ),
    }
}

/// What a connected server turned out to be.
#[derive(Debug, Clone, PartialEq, Eq)]
pub struct ServerInfo {
    /// The version text the server sent, "003.889" for instance.
    pub version: String,
    /// The version this client answered with.
    pub negotiated_version: String,
    /// The security type that was used.
    pub security: SecurityType,
    /// Framebuffer width in pixels.
    pub width: u16,
    /// Framebuffer height in pixels.
    pub height: u16,
    /// The server's name, as it reports it.
    pub name: String,
    /// The pixel format the server sends.
    pub format: PixelFormat,
}

/// Server information with its texts as sequences.
pub struct ServerInfoView {
    pub version: Seq<char>,
    pub negotiated_version: Seq<char>,
    pub security: SecurityType,
    pub width: u16,
    pub height: u16,
    pub name: Seq<char>,
    pub format: PixelFormat,
}

impl View for ServerInfo {
    type V = ServerInfoView;

    open spec fn view(&self) -> ServerInfoView {
        ServerInfoView {
            version: self.version@,
            negotiated_version: self.negotiated_version@,
            security: self.security,
            width: self.width,
            height: self.height,
            name: self.name@,
            format: self.format,
        }
    }
}

/// A session whose handshake is complete.
#[derive(Debug)]
pub struct VncSession {
    pub info: ServerInfo,
    pub encodings: Vec<Encoding>,
}

/// Where a handshake stands: what the next bytes of the server are.
#[derive(Debug, Clone, Copy, PartialEq, Eq, Structural)]
pub enum Stage {
    /// The twelve bytes of the banner.
    Banner,
    /// The single security type of version 3.3, in four bytes.
    SingleType,
    /// The number of security types on offer.
    TypeCount,
    /// The security types on offer.
    TypeList { count: u8 },
    /// Why the server offered none.
    RefusalReason,
    /// The challenge of VNC authentication.
    Challenge,
    /// The outcome of authentication.
    Outcome { security: SecurityType },
    /// Why there may be no further attempt.
    AttemptsReason,
    /// Geometry, pixel format and name.
    ServerInit { security: SecurityType },
    /// The handshake has ended.
    Ended,
}

/// A handshake in progress.
#[derive(Debug)]
pub struct Handshake {
    password: Option<Vec<u8>>,
    stage: Stage,
    version: String,
    negotiated: String,
}

/// A handshake with its texts as sequences.
pub struct HandshakeView {
    pub password: Option<Seq<u8>>,
    pub stage: Stage,
    pub version: Seq<char>,
    pub negotiated: Seq<char>,
}

impl View for Handshake {
    type V = HandshakeView;

    closed spec fn view(&self) -> HandshakeView {
        HandshakeView {
            password: match self.password {
                Some(p) => Some(p@),
                None => None,
            },
            stage: self.stage,
            version: self.version@,
            negotiated: self.negotiated@,
        }
    }
}

/// What a handshake asks for next.
#[derive(Debug)]
pub enum Step {
    /// More bytes: the input ends inside `what`.
    Need { what: &'static str },
    /// The bytes to send, if any, before the next step.
    Send(Vec<u8>),
    /// The handshake failed.
    Fail(VncError),
    /// The version cannot be cut out of the banner between two characters.
    Unsliceable,
    /// The handshake is complete once the bytes have been sent.
    Ready { session: VncSession, send: Vec<u8> },
}

/// A step with its texts and bytes as sequences.
pub enum StepView {
    Need { what: Seq<char> },
    Send(Seq<u8>),
    Fail(vnc::VncErrorView),
    Unsliceable,
    Ready { info: ServerInfoView, encodings: Seq<Encoding>, send: Seq<u8> },
}

impl View for Step {
    type V = StepView;

    open spec fn view(&self) -> StepView {
        match *self {
            Step::Need { what } => StepView::Need { what: what@ },
            Step::Send(bytes) => StepView::Send(bytes@),
            Step::Fail(e) => StepView::Fail(e@),
            Step::Unsliceable => StepView::Unsliceable,
            Step::Ready { session, send } => StepView::Ready {
                info: session.info@,
                encodings: session.encodings@,
                send: send@,
            },
        }
    }
}

/// The state after a step, what the step asks for, and how many bytes it took.
pub struct Advance {
    pub next: HandshakeView,
    pub step: StepView,
    pub used: nat,
}

impl HandshakeView {
    /// This handshake at another stage.
    pub open spec fn at(self, stage: Stage) -> HandshakeView {
        HandshakeView { stage, ..self }
    }

    /// The input ends inside `what`: nothing is taken and nothing changes.
    pub open spec fn needs(self, what: Seq<char>) -> Advance {
        Advance { next: self, step: StepView::Need { what }, used: 0 }
    }

    /// The step took `used` bytes, sends `send` and goes on at `stage`.
    pub open spec fn goes(self, stage: Stage, used: nat, send: Seq<u8>) -> Advance {
        Advance { next: self.at(stage), step: StepView::Send(send), used }
    }

    /// The step took `used` bytes and ends the handshake with an error.
    pub open spec fn fails(self, used: nat, e: vnc::VncErrorView) -> Advance {
        Advance { next: self.at(Stage::Ended), step: StepView::Fail(e), used }
    }
}

/// The version this client answers a server of minor version `minor` with: the
/// text and the twelve bytes.
pub open spec fn answer_for(minor: nat) -> (Seq<char>, Seq<u8>) {
    if minor >= 8 {
        ("003.008"@, seq![82u8, 70, 66, 32, 48, 48, 51, 46, 48, 48, 56, 10])
    } else if minor == 7 {
        ("003.007"@, seq![82u8, 70, 66, 32, 48, 48, 51, 46, 48, 48, 55, 10])
    } else {
        ("003.003"@, seq![82u8, 70, 66, 32, 48, 48, 51, 46, 48, 48, 51, 10])
    }
}

/// The step on a banner. Version 3.7 and later list security types; an older
/// server names one.
pub open spec fn after_banner(h: HandshakeView, b: Seq<u8>) -> Advance {
    if b.len() < 12 {
        h.needs("version banner"@)
    } else {
        match banner_of(text::shown(b.take(12))) {
            BannerView::Refused(e) => h.fails(12, e),
            BannerView::Unsliceable => Advance {
                next: h.at(Stage::Ended),
                step: StepView::Unsliceable,
                used: 12,
            },
            BannerView::Version { version, minor } => {
                let (negotiated, answer) = answer_for(minor);
                let stage = if minor < 7 {
                    Stage::SingleType
                } else {
                    Stage::TypeCount
                };
                HandshakeView { version, negotiated, ..h }.goes(stage, 12, answer)
            },
        }
    }
}

/// The step on the single security type of version 3.3. Authentication needs a
/// password: without one only a server that asks for nothing can be used.
pub open spec fn after_single_type(h: HandshakeView, b: Seq<u8>) -> Advance {
    if b.len() < 4 {
        h.needs("security type"@)
    } else {
        let raw = bytes::u32_at(b, 0);
        let security = SecurityType::of_code((raw % 256) as u8);
        if raw >= 256 {
            h.fails(
                4,
                vnc::VncErrorView::Protocol(
                    "server announced the 32-bit security value "@ + text::decimal(raw as nat)
                        + ", which is not a security type"@,
                ),
            )
        } else if security is VncAuthentication && h.password is Some {
            h.goes(Stage::Challenge, 4, Seq::empty())
        } else if security is NoAuthentication {
            h.goes(Stage::ServerInit { security }, 4, Seq::empty())
        } else {
            h.fails(4, vnc::VncErrorView::UnsupportedSecurity(seq![security.name()]))
        }
    }
}

/// The security type a client picks of those on offer, given by their codes. With a
/// password it authenticates where it can and goes on without where the server asks
/// for nothing; without one it only goes on where the server asks for nothing.
pub open spec fn picked_security(password: Option<Seq<u8>>, offered: Seq<u8>) -> Option<
    SecurityType,
> {
    if password is Some && offered.contains(SecurityType::VncAuthentication.number()) {
        Some(SecurityType::VncAuthentication)
    } else if offered.contains(SecurityType::NoAuthentication.number()) {
        Some(SecurityType::NoAuthentication)
    } else {
        None
    }
}

proof fn lemma_contains_pushed(s: Seq<u8>, x: u8, code: u8)
    ensures
        s.push(x).contains(code) <==> s.contains(code) || x == code,
{
    if s.contains(code) {
        let i = choose|i: int| 0 <= i < s.len() && s[i] == code;
        assert(s.push(x)[i] == code);
    }
    if x == code {
        assert(s.push(x)[s.len() as int] == code);
    }
    if s.push(x).contains(code) {
        let i = choose|i: int| 0 <= i < s.push(x).len() && s.push(x)[i] == code;
        assert(i == s.len() || s[i] == code);
    }
}

/// The names of the security types with the given codes.
pub open spec fn security_names(codes: Seq<u8>) -> Seq<Seq<char>> {
    Seq::new(codes.len(), |i: int| SecurityType::of_code(codes[i]).name())
}

/// The step on the list of security types.
pub open spec fn after_type_list(h: HandshakeView, count: u8, b: Seq<u8>) -> Advance {
    if b.len() < count {
        h.needs("security list"@)
    } else {
        let offered = b.take(count as int);
        match picked_security(h.password, offered) {
            Some(picked) => {
                let stage = if picked is VncAuthentication {
                    Stage::Challenge
                } else {
                    Stage::Outcome { security: picked }
                };
                h.goes(stage, count as nat, seq![picked.number()])
            },
            None => h.fails(
                count as nat,
                vnc::VncErrorView::UnsupportedSecurity(security_names(offered)),
            ),
        }
    }
}

/// The step on a reason text; `missing` stands in for one that is too long.
pub open spec fn after_reason(h: HandshakeView, missing: Seq<char>, b: Seq<u8>) -> Advance {
    if b.len() < 4 {
        h.needs("reason length"@)
    } else {
        let size = bytes::u32_at(b, 0);
        if size > MAX_TEXT {
            h.fails(4, vnc::VncErrorView::AuthenticationRejected(missing))
        } else if b.len() < 4 + size {
            h.needs("reason body"@)
        } else {
            h.fails(
                (4 + size) as nat,
                vnc::VncErrorView::AuthenticationRejected(
                    text::shown(b.subrange(4, 4 + size)),
                ),
            )
        }
    }
}

/// The step on a challenge: the response to send, for a password that may be
/// missing.
pub open spec fn after_challenge(h: HandshakeView, b: Seq<u8>, response: Seq<u8>) -> Advance {
    if b.len() < 16 {
        h.needs("authentication challenge"@)
    } else {
        h.goes(Stage::Outcome { security: SecurityType::VncAuthentication }, 16, response)
    }
}

/// The password a challenge is answered with.
pub open spec fn effective_password(h: HandshakeView) -> Seq<u8> {
    match h.password {
        Some(p) => p,
        None => Seq::empty(),
    }
}

/// The step on the outcome of authentication. Failure in the other byte order,
/// 01 00 00 00, counts as failure.
pub open spec fn after_outcome(h: HandshakeView, security: SecurityType, b: Seq<u8>) -> Advance {
    if b.len() < 4 {
        h.needs("security result"@)
    } else {
        let value = bytes::u32_at(b, 0);
        if value == protocol::SECURITY_RESULT_OK {
            h.goes(Stage::ServerInit { security }, 4, Seq::empty())
        } else if value == protocol::SECURITY_RESULT_FAILED || value == 0x0100_0000 {
            h.fails(
                4,
                vnc::VncErrorView::AuthenticationRejected("server rejected the password"@),
            )
        } else if value == protocol::SECURITY_RESULT_TOO_MANY {
            h.goes(Stage::AttemptsReason, 4, Seq::empty())
        } else {
            h.fails(
                4,
                vnc::VncErrorView::Protocol(
                    "unknown security result "@ + text::decimal(value as nat) + " (bytes ["@
                        + text::hex_pair(b[0]) + ", "@ + text::hex_pair(b[1]) + ", "@
                        + text::hex_pair(b[2]) + ", "@ + text::hex_pair(b[3]) + "])"@,
                ),
            )
        }
    }
}

/// A geometry in words, "640x480" for instance.
pub open spec fn dimensions(width: int, height: int) -> Seq<char> {
    text::decimal(width as nat) + "x"@ + text::decimal(height as nat)
}

/// The step on the server's initialisation: a geometry of at least one pixel and
/// within the limit, a pixel format, and a name. The client answers with the
/// format it prefers and the encoding it reads.
pub open spec fn after_server_init(h: HandshakeView, security: SecurityType, b: Seq<u8>) -> Advance {
    if b.len() < 24 {
        h.needs("server init"@)
    } else {
        let width = bytes::u16_at(b, 0);
        let height = bytes::u16_at(b, 2);
        let length = bytes::u32_at(b, 20);
        if width == 0 || height == 0 {
            h.fails(
                24,
                vnc::VncErrorView::Geometry(
                    "server reports a "@ + dimensions(width, height) + " framebuffer"@,
                ),
            )
        } else if width * height > MAX_FRAMEBUFFER_PIXELS {
            h.fails(
                24,
                vnc::VncErrorView::Geometry(
                    "server reports a "@ + dimensions(width, height)
                        + " framebuffer, beyond the 268435456 pixel limit"@,
                ),
            )
        } else if length > MAX_TEXT {
            h.fails(
                24,
                vnc::VncErrorView::Protocol(
                    "server name of "@ + text::decimal(length as nat) + " bytes is implausible"@,
                ),
            )
        } else if b.len() < 24 + length {
            h.needs("server name"@)
        } else {
            Advance {
                next: h.at(Stage::Ended),
                step: StepView::Ready {
                    info: ServerInfoView {
                        version: h.version,
                        negotiated_version: h.negotiated,
                        security,
                        width: width as u16,
                        height: height as u16,
                        name: text::shown(b.subrange(24, 24 + length)),
                        format: PixelFormat::of_wire(b.subrange(4, 20)),
                    },
                    encodings: seq![Encoding::Raw],
                    send: seq![protocol::C2S_SET_PIXEL_FORMAT, 0, 0, 0] + protocol::preferred().wire()
                        + seq![protocol::C2S_SET_ENCODINGS, 0, 0, 1, 0, 0, 0, 0],
                },
                used: (24 + length) as nat,
            }
        }
    }
}

/// What a handshake does with the bytes `b`. The response to a challenge is
/// given as `response`.
pub open spec fn advanced(h: HandshakeView, b: Seq<u8>, response: Seq<u8>) -> Advance {
    match h.stage {
        Stage::Banner => after_banner(h, b),
        Stage::SingleType => after_single_type(h, b),
        Stage::TypeCount => if b.len() < 1 {
            h.needs("security count"@)
        } else if b[0] == 0 {
            h.goes(Stage::RefusalReason, 1, Seq::empty())
        } else {
            h.goes(Stage::TypeList { count: b[0] }, 1, Seq::empty())
        },
        Stage::TypeList { count } => after_type_list(h, count, b),
        Stage::RefusalReason => after_reason(h, "server refused the connection"@, b),
        Stage::Challenge => after_challenge(h, b, response),
        Stage::Outcome { security } => after_outcome(h, security, b),
        Stage::AttemptsReason => after_reason(h, "too many attempts"@, b),
        Stage::ServerInit { security } => after_server_init(h, security, b),
        Stage::Ended => h.needs("nothing"@),
    }
}

/// `response` answers the challenge at the front of `b`.
pub open spec fn answers(h: HandshakeView, b: Seq<u8>, response: Seq<u8>) -> bool {
    auth::encrypted_ecb(auth::vnc_key(effective_password(h)), b.take(16), response)
}

impl Handshake {
    /// A handshake that authenticates with `password` where there is one.
    pub fn new(password: Option<Vec<u8>>) -> (r: Self)
        ensures
            r@.stage is Banner,
            r@.version == Seq::<char>::empty(),
            r@.negotiated == Seq::<char>::empty(),
            r@.password == match password {
                Some(p) => Some(p@),
                None => None,
            },
    {
        Handshake {
            password,
            stage: Stage::Banner,
            version: String::new(),
            negotiated: String::new(),
        }
    }

    /// Takes what it can use from the front of `input` and says what comes next.
    pub fn advance(&mut self, input: &mut &[u8]) -> (step: Step)
        ensures
            exists|response: Seq<u8>|
                {
                    let a = #[trigger] advanced(old(self)@, old(input)@, response);
                    &&& final(self)@ == a.next
                    &&& step@ == a.step
                    &&& a.used <= old(input)@.len()
                    &&& final(input)@ == old(input)@.skip(a.used as int)
                    &&& old(self)@.stage is Challenge && old(input)@.len() >= 16 ==> answers(
                        old(self)@,
                        old(input)@,
                        response,
                    )
                },
    {
        let b: &[u8] = *input;
        let (step, used) = self.on_bytes(b);
        *input = slice_subrange(b, used, b.len());
        assert(input@ =~= old(input)@.skip(used as int));
        step
    }

    fn on_bytes(&mut self, b: &[u8]) -> (r: (Step, usize))
        ensures
            exists|response: Seq<u8>|
                {
                    let a = #[trigger] advanced(old(self)@, b@, response);
                    &&& final(self)@ == a.next
                    &&& r.0@ == a.step
                    &&& r.1 == a.used
                    &&& r.1 <= b@.len()
                    &&& old(self)@.stage is Challenge && b@.len() >= 16 ==> answers(
                        old(self)@,
                        b@,
                        response,
                    )
                },
    {
        let ghost empty = Seq::<u8>::empty();
        match self.stage {
            Stage::Banner => {
                let r = self.on_banner(b);
                assert(advanced(old(self)@, b@, empty) == after_banner(old(self)@, b@));
                r
            },
            Stage::SingleType => {
                let r = self.on_single_type(b);
                assert(advanced(old(self)@, b@, empty) == after_single_type(old(self)@, b@));
                r
            },
            Stage::TypeCount => {
                assert(advanced(old(self)@, b@, empty).used <= 1);
                if b.len() < 1 {
                    (Step::Need { what: "security count" }, 0)
                } else if b[0] == 0 {
                    self.stage = Stage::RefusalReason;
                    (Step::Send(Vec::new()), 1)
                } else {
                    self.stage = Stage::TypeList { count: b[0] };
                    (Step::Send(Vec::new()), 1)
                }
            },
            Stage::TypeList { count } => {
                let r = self.on_type_list(count, b);
                assert(advanced(old(self)@, b@, empty) == after_type_list(old(self)@, count, b@));
                r
            },
            Stage::RefusalReason => {
                let r = self.on_reason("server refused the connection", b);
                assert(advanced(old(self)@, b@, empty) == after_reason(
                    old(self)@,
                    "server refused the connection"@,
                    b@,
                ));
                r
            },
            Stage::Challenge => {
                assert(advanced(old(self)@, b@, empty) == after_challenge(old(self)@, b@, empty));
                if b.len() < 16 {
                    (Step::Need { what: "authentication challenge" }, 0)
                } else {
                    let response = self.respond(b);
                    self.stage = Stage::Outcome { security: SecurityType::VncAuthentication };
                    assert(advanced(old(self)@, b@, response@) == after_challenge(
                        old(self)@,
                        b@,
                        response@,
                    ));
                    (Step::Send(response), 16)
                }
            },
            Stage::Outcome { security } => {
                let r = self.on_outcome(security, b);
                assert(advanced(old(self)@, b@, empty) == after_outcome(old(self)@, security, b@));
                r
            },
            Stage::AttemptsReason => {
                let r = self.on_reason("too many attempts", b);
                assert(advanced(old(self)@, b@, empty) == after_reason(
                    old(self)@,
                    "too many attempts"@,
                    b@,
                ));
                r
            },
            Stage::ServerInit { security } => {
                let r = self.on_server_init(security, b);
                assert(advanced(old(self)@, b@, empty) == after_server_init(
                    old(self)@,
                    security,
                    b@,
                ));
                r
            },
            Stage::Ended => {
                assert(advanced(old(self)@, b@, empty) == old(self)@.needs("nothing"@));
                (Step::Need { what: "nothing" }, 0)
            },
        }
    }

    fn on_banner(&mut self, b: &[u8]) -> (r: (Step, usize))
        ensures
            ({
                let a = after_banner(old(self)@, b@);
                final(self)@ == a.next && r.0@ == a.step && r.1 == a.used && r.1 <= b@.len()
            }),
    {
        if b.len() < 12 {
            return (Step::Need { what: "version banner" }, 0);
        }
        let front = slice_subrange(b, 0, 12);
        assert(front@ =~= b@.take(12));
        let text = text::lossy(front);
        match read_banner(text.as_str()) {
            Banner::Refused(e) => {
                self.stage = Stage::Ended;
                (Step::Fail(e), 12)
            },
            Banner::Unsliceable => {
                self.stage = Stage::Ended;
                (Step::Unsliceable, 12)
            },
            Banner::Version { version, minor } => {
                self.version = version;
                self.stage = if minor < 7 {
                    Stage::SingleType
                } else {
                    Stage::TypeCount
                };
                let answer: Vec<u8>;
                if minor >= 8 {
                    self.negotiated = "003.008".to_owned();
                    answer = vec![82u8, 70, 66, 32, 48, 48, 51, 46, 48, 48, 56, 10];
                } else if minor == 7 {
                    self.negotiated = "003.007".to_owned();
                    answer = vec![82u8, 70, 66, 32, 48, 48, 51, 46, 48, 48, 55, 10];
                } else {
                    self.negotiated = "003.003".to_owned();
                    answer = vec![82u8, 70, 66, 32, 48, 48, 51, 46, 48, 48, 51, 10];
                }
                assert(answer@ =~= answer_for(minor as nat).1);
                (Step::Send(answer), 12)
            },
        }
    }

    fn on_single_type(&mut self, b: &[u8]) -> (r: (Step, usize))
        ensures
            ({
                let a = after_single_type(old(self)@, b@);
                final(self)@ == a.next && r.0@ == a.step && r.1 == a.used && r.1 <= b@.len()
            }),
    {
        if b.len() < 4 {
            return (Step::Need { what: "security type" }, 0);
        }
        let raw: u32 = bytes::read_u32(b, 0);
        if raw >= 256 {
            self.stage = Stage::Ended;
            let mut message = "server announced the 32-bit security value ".to_owned();
            message.append(text::decimal_text(raw as u64).as_str());
            message.append(", which is not a security type");
            return (Step::Fail(VncError::protocol(message)), 4);
        }
        let security = SecurityType::from_code(raw as u8);
        match security {
            SecurityType::VncAuthentication if self.password.is_some() => {
                self.stage = Stage::Challenge;
                let none: Vec<u8> = Vec::new();
                (Step::Send(none), 4)
            },
            SecurityType::NoAuthentication => {
                self.stage = Stage::ServerInit { security };
                let none: Vec<u8> = Vec::new();
                (Step::Send(none), 4)
            },
            _ => {
                self.stage = Stage::Ended;
                let mut offered: Vec<String> = Vec::new();
                offered.push(security.label());
                assert(text::texts(offered@) =~= seq![security.name()]);
                (Step::Fail(VncError::UnsupportedSecurity(offered)), 4)
            },
        }
    }

    fn on_type_list(&mut self, count: u8, b: &[u8]) -> (r: (Step, usize))
        ensures
            ({
                let a = after_type_list(old(self)@, count, b@);
                final(self)@ == a.next && r.0@ == a.step && r.1 == a.used && r.1 <= b@.len()
            }),
    {
        let n: usize = count as usize;
        if b.len() < n {
            return (Step::Need { what: "security list" }, 0);
        }
        let ghost offered = b@.take(n as int);
        let authenticate: u8 = SecurityType::VncAuthentication.code();
        let unguarded: u8 = SecurityType::NoAuthentication.code();
        let mut names: Vec<String> = Vec::new();
        let mut offers_vnc: bool = false;
        let mut offers_open: bool = false;
        let mut i: usize = 0;
        while i < n
            invariant
                i <= n <= b@.len(),
                n == count,
                offered == b@.take(n as int),
                *self == *old(self),
                names@.len() == i,
                offered.len() == n,
                forall|k: int|
                    0 <= k < i ==> #[trigger] names@[k]@ == SecurityType::of_code(offered[k]).name(),
                offers_vnc <==> offered.take(i as int).contains(authenticate),
                offers_open <==> offered.take(i as int).contains(unguarded),
            decreases n - i,
        {
            let code: u8 = b[i];
            proof {
                assert(offered[i as int] == code);
                let before = offered.take(i as int);
                assert(offered.take(i + 1) =~= before.push(code));
                lemma_contains_pushed(before, code, authenticate);
                lemma_contains_pushed(before, code, unguarded);
            }
            if code == authenticate {
                offers_vnc = true;
            }
            if code == unguarded {
                offers_open = true;
            }
            names.push(SecurityType::from_code(code).label());
            i = i + 1;
        }
        assert(offered.take(n as int) =~= offered);
        let mut send: Vec<u8> = Vec::new();
        if offers_vnc && self.password.is_some() {
            self.stage = Stage::Challenge;
            send.push(authenticate);
            assert(send@ =~= seq![authenticate]);
            return (Step::Send(send), n);
        }
        if offers_open {
            self.stage = Stage::Outcome { security: SecurityType::NoAuthentication };
            send.push(unguarded);
            assert(send@ =~= seq![unguarded]);
            return (Step::Send(send), n);
        }
        self.stage = Stage::Ended;
        assert(text::texts(names@) =~= security_names(offered));
        (Step::Fail(VncError::UnsupportedSecurity(names)), n)
    }

    fn on_reason(&mut self, missing: &str, b: &[u8]) -> (r: (Step, usize))
        ensures
            ({
                let a = after_reason(old(self)@, missing@, b@);
                final(self)@ == a.next && r.0@ == a.step && r.1 == a.used && r.1 <= b@.len()
            }),
    {
        if b.len() < 4 {
            return (Step::Need { what: "reason length" }, 0);
        }
        let size: u32 = bytes::read_u32(b, 0);
        if size > MAX_TEXT {
            self.stage = Stage::Ended;
            return (Step::Fail(VncError::AuthenticationRejected(missing.to_owned())), 4);
        }
        let end: usize = 4 + size as usize;
        if b.len() < end {
            return (Step::Need { what: "reason body" }, 0);
        }
        self.stage = Stage::Ended;
        let reason = text::lossy(slice_subrange(b, 4, end));
        (Step::Fail(VncError::AuthenticationRejected(reason)), end)
    }

    fn respond(&self, b: &[u8]) -> (response: Vec<u8>)
        requires
            b@.len() >= 16,
        ensures
            answers(self@, b@, response@),
    {
        let challenge: [u8; 16] = [
            b[0],
            b[1],
            b[2],
            b[3],
            b[4],
            b[5],
            b[6],
            b[7],
            b[8],
            b[9],
            b[10],
            b[11],
            b[12],
            b[13],
            b[14],
            b[15],
        ];
        assert(challenge@ =~= b@.take(16));
        let none: Vec<u8> = Vec::new();
        let password: &[u8] = match &self.password {
            Some(p) => p.as_slice(),
            None => none.as_slice(),
        };
        assert(password@ =~= effective_password(self@));
        let response = auth::answer_challenge(password, &challenge);
        vstd::slice::slice_to_vec(&response)
    }

    fn on_outcome(&mut self, security: SecurityType, b: &[u8]) -> (r: (Step, usize))
        ensures
            ({
                let a = after_outcome(old(self)@, security, b@);
                final(self)@ == a.next && r.0@ == a.step && r.1 == a.used && r.1 <= b@.len()
            }),
    {
        if b.len() < 4 {
            return (Step::Need { what: "security result" }, 0);
        }
        let value: u32 = bytes::read_u32(b, 0);
        if value == protocol::SECURITY_RESULT_OK {
            self.stage = Stage::ServerInit { security };
            let none: Vec<u8> = Vec::new();
            (Step::Send(none), 4)
        } else if value == protocol::SECURITY_RESULT_FAILED || value == 0x0100_0000 {
            self.stage = Stage::Ended;
            let reason = "server rejected the password".to_owned();
            (Step::Fail(VncError::AuthenticationRejected(reason)), 4)
        } else if value == protocol::SECURITY_RESULT_TOO_MANY {
            self.stage = Stage::AttemptsReason;
            let none: Vec<u8> = Vec::new();
            (Step::Send(none), 4)
        } else {
            self.stage = Stage::Ended;
            let mut message = "unknown security result ".to_owned();
            message.append(text::decimal_text(value as u64).as_str());
            message.append(" (bytes [");
            text::push_hex_pair(&mut message, b[0]);
            message.append(", ");
            text::push_hex_pair(&mut message, b[1]);
            message.append(", ");
            text::push_hex_pair(&mut message, b[2]);
            message.append(", ");
            text::push_hex_pair(&mut message, b[3]);
            message.append("])");
            (Step::Fail(VncError::protocol(message)), 4)
        }
    }

    fn on_server_init(&mut self, security: SecurityType, b: &[u8]) -> (r: (Step, usize))
        ensures
            ({
                let a = after_server_init(old(self)@, security, b@);
                final(self)@ == a.next && r.0@ == a.step && r.1 == a.used && r.1 <= b@.len()
            }),
    {
        if b.len() < 24 {
            return (Step::Need { what: "server init" }, 0);
        }
        let width: u16 = bytes::read_u16(b, 0);
        let height: u16 = bytes::read_u16(b, 2);
        if width == 0 || height == 0 {
            self.stage = Stage::Ended;
            let mut message = "server reports a ".to_owned();
            push_dimensions(&mut message, width, height);
            message.append(" framebuffer");
            return (Step::Fail(VncError::geometry(message)), 24);
        }
        assert(0 <= width * height <= 65535 * 65535) by (nonlinear_arith)
            requires
                0 <= width <= 65535,
                0 <= height <= 65535,
        ;
        if width as u64 * height as u64 > MAX_FRAMEBUFFER_PIXELS {
            self.stage = Stage::Ended;
            let mut message = "server reports a ".to_owned();
            push_dimensions(&mut message, width, height);
            message.append(" framebuffer, beyond the 268435456 pixel limit");
            return (Step::Fail(VncError::geometry(message)), 24);
        }
        let length: u32 = bytes::read_u32(b, 20);
        if length > MAX_TEXT {
            self.stage = Stage::Ended;
            let mut message = "server name of ".to_owned();
            message.append(text::decimal_text(length as u64).as_str());
            message.append(" bytes is implausible");
            return (Step::Fail(VncError::protocol(message)), 24);
        }
        let end: usize = 24 + length as usize;
        if b.len() < end {
            return (Step::Need { what: "server name" }, 0);
        }
        let format = match PixelFormat::decode(slice_subrange(b, 4, 20)) {
            Ok(format) => format,
            Err(e) => {
                self.stage = Stage::Ended;
                return (Step::Fail(e), 24);
            },
        };
        let name = text::lossy(slice_subrange(b, 24, end));
        let info = ServerInfo {
            version: self.version.clone(),
            negotiated_version: self.negotiated.clone(),
            security,
            width,
            height,
            name,
            format,
        };
        let mut encodings: Vec<Encoding> = Vec::new();
        encodings.push(Encoding::Raw);
        assert(encodings@ =~= seq![Encoding::Raw]);
        let mut send = protocol::encode_set_pixel_format(&protocol::preferred_pixel_format());
        let ghost first = send@;
        let list: [u8; 8] = [protocol::C2S_SET_ENCODINGS, 0, 0, 1, 0, 0, 0, 0];
        bytes::push_all(&mut send, &list);
        assert(list@ =~= seq![protocol::C2S_SET_ENCODINGS, 0, 0, 1, 0, 0, 0, 0]);
        self.stage = Stage::Ended;
        (Step::Ready { session: VncSession { info, encodings }, send }, end)
    }

    /// The error of a handshake whose input failed while `what` was being read.
    /// A reason that cannot be read is replaced.
    pub fn read_failed(&self, what: &'static str, kind: String, message: String) -> (e: VncError)
        ensures
            e@ == match self@.stage {
                Stage::RefusalReason => vnc::VncErrorView::AuthenticationRejected(
                    "server refused the connection"@,
                ),
                Stage::AttemptsReason => vnc::VncErrorView::AuthenticationRejected(
                    "too many attempts"@,
                ),
                _ => vnc::VncErrorView::Io { what: what@, kind: kind@, message: message@ },
            },
    {
        match self.stage {
            Stage::RefusalReason => VncError::AuthenticationRejected(
                "server refused the connection".to_owned(),
            ),
            Stage::AttemptsReason => VncError::AuthenticationRejected(
                "too many attempts".to_owned(),
            ),
            _ => VncError::io(what, kind, message),
        }
    }
}

/// Adds a geometry in words.
pub fn push_dimensions(message: &mut String, width: u16, height: u16)
    ensures
        final(message)@ == old(message)@ + dimensions(width as int, height as int),
{
    message.append(text::decimal_text(width as u64).as_str());
    message.append("x");
    message.append(text::decimal_text(height as u64).as_str());
    assert(message@ =~= old(message)@ + dimensions(width as int, height as int));
}

/// A message read from the server.
#[derive(Debug, Clone, PartialEq, Eq)]
pub enum ServerMessage {
    FramebufferUpdate(FramebufferUpdate),
    /// A colour map, which this client has no use for.
    ColourMapIgnored { entries: usize },
    Bell,
    Clipboard(ServerCutText),
}

/// A message with its bytes and texts as sequences.
pub enum ServerMessageView {
    FramebufferUpdate(Seq<protocol::RectangleView>),
    ColourMapIgnored { entries: int },
    Bell,
    Clipboard(Seq<char>),
}

impl View for ServerMessage {
    type V = ServerMessageView;

    open spec fn view(&self) -> ServerMessageView {
        match *self {
            ServerMessage::FramebufferUpdate(update) => ServerMessageView::FramebufferUpdate(
                protocol::views(update.rectangles@),
            ),
            ServerMessage::ColourMapIgnored { entries } => ServerMessageView::ColourMapIgnored {
                entries: entries as int,
            },
            ServerMessage::Bell => ServerMessageView::Bell,
            ServerMessage::Clipboard(cut) => ServerMessageView::Clipboard(cut.text@),
        }
    }
}

/// The framebuffer size after the rectangles of an update, and whether none of
/// them reported a size of zero; the first that does ends the update.
pub open spec fn size_after(
    width: u16,
    height: u16,
    rectangles: Seq<protocol::RectangleView>,
) -> (u16, u16, bool)
    decreases rectangles.len(),
{
    if rectangles.len() == 0 {
        (width, height, true)
    } else {
        let (w, h, ok) = size_after(width, height, rectangles.drop_last());
        match rectangles.last() {
            protocol::RectangleView::DesktopSize { width: new_w, height: new_h } => if !ok {
                (w, h, ok)
            } else if new_w == 0 || new_h == 0 {
                (w, h, false)
            } else {
                (new_w, new_h, true)
            },
            _ => (w, h, ok),
        }
    }
}

/// What the front of a byte string is when read as a message.
pub enum MessageRead {
    /// A message, the framebuffer size it leaves, and the bytes behind it.
    Whole { message: ServerMessageView, width: u16, height: u16, rest: Seq<u8> },
    /// The input ends inside `what`.
    Short { what: Seq<char> },
    /// A message this client refuses, with the framebuffer size it leaves and the bytes
    /// behind what was read of it.
    Refused { error: vnc::VncErrorView, width: u16, height: u16, rest: Seq<u8> },
}

/// The front of `b` read as a message to a session with the given server.
pub open spec fn read_message_from(info: ServerInfoView, b: Seq<u8>) -> MessageRead {
    let width = info.width;
    let height = info.height;
    if b.len() < 1 {
        MessageRead::Short { what: "message type"@ }
    } else if b[0] == protocol::S2C_FRAMEBUFFER_UPDATE {
        if b.len() < 4 {
            MessageRead::Short { what: "update header"@ }
        } else {
            match protocol::read_update(
                bytes::u16_at(b, 2) as nat,
                b.skip(4),
                info.format,
                Seq::empty(),
            ) {
                protocol::UpdateRead::Whole { rectangles, rest } => {
                    let (w, h, ok) = size_after(width, height, rectangles);
                    if ok {
                        MessageRead::Whole {
                            message: ServerMessageView::FramebufferUpdate(rectangles),
                            width: w,
                            height: h,
                            rest,
                        }
                    } else {
                        MessageRead::Refused {
                            error: vnc::VncErrorView::Geometry(
                                "server resized the framebuffer to zero"@,
                            ),
                            width: w,
                            height: h,
                            rest,
                        }
                    }
                },
                protocol::UpdateRead::Short { what } => MessageRead::Short { what },
                protocol::UpdateRead::Unsupported { encoding, rest } => MessageRead::Refused {
                    error: vnc::VncErrorView::Protocol(vnc::unsupported_encoding_text(encoding)),
                    width,
                    height,
                    rest,
                },
            }
        }
    } else if b[0] == protocol::S2C_SET_COLOUR_MAP_ENTRIES {
        if b.len() < 6 {
            MessageRead::Short { what: "colour map header"@ }
        } else if b.len() < 6 + 6 * bytes::u16_at(b, 4) {
            MessageRead::Short { what: "colour map entries"@ }
        } else {
            MessageRead::Whole {
                message: ServerMessageView::ColourMapIgnored { entries: bytes::u16_at(b, 4) },
                width,
                height,
                rest: b.skip(6 + 6 * bytes::u16_at(b, 4)),
            }
        }
    } else if b[0] == protocol::S2C_BELL {
        MessageRead::Whole { message: ServerMessageView::Bell, width, height, rest: b.skip(1) }
    } else if b[0] == protocol::S2C_SERVER_CUT_TEXT {
        let length = bytes::u32_at(b, 4);
        if b.len() < 4 {
            MessageRead::Short { what: "cut text padding"@ }
        } else if b.len() < 8 {
            MessageRead::Short { what: "cut text length"@ }
        } else if length > protocol::MAX_CUT_TEXT {
            MessageRead::Refused {
                error: vnc::VncErrorView::Protocol(
                    "server cut text of "@ + text::decimal(length as nat)
                        + " bytes exceeds the 1048576 byte limit"@,
                ),
                width,
                height,
                rest: b.skip(8),
            }
        } else if b.len() < 8 + length {
            MessageRead::Short { what: "cut text body"@ }
        } else {
            MessageRead::Whole {
                message: ServerMessageView::Clipboard(
                    text::shown(b.subrange(8, 8 + length)),
                ),
                width,
                height,
                rest: b.skip(8 + length),
            }
        }
    } else {
        MessageRead::Refused {
            error: vnc::VncErrorView::Protocol(
                "server sent unknown message type "@ + text::decimal(b[0] as nat),
            ),
            width,
            height,
            rest: b.skip(1),
        }
    }
}

impl VncSession {
    /// What the server turned out to be.
    pub fn info(&self) -> (r: &ServerInfo)
        ensures
            *r == self.info,
    {
        &self.info
    }

    /// The encodings this client advertised.
    pub fn encodings(&self) -> (r: &Vec<Encoding>)
        ensures
            *r == self.encodings,
    {
        &self.encodings
    }

    /// The request for an update of one region.
    pub fn request_update(&self, incremental: bool, x: u16, y: u16, width: u16, height: u16) -> (r:
        Vec<u8>)
        ensures
            r@ == seq![protocol::C2S_FRAMEBUFFER_UPDATE_REQUEST, protocol::flag(incremental)]
                + bytes::be16(x as int) + bytes::be16(y as int) + bytes::be16(width as int)
                + bytes::be16(height as int),
    {
        protocol::encode_framebuffer_update_request(incremental, x, y, width, height)
    }

    /// The request for a full repaint.
    pub fn request_full_update(&self) -> (r: Vec<u8>)
        ensures
            r@ == seq![protocol::C2S_FRAMEBUFFER_UPDATE_REQUEST, 0, 0, 0, 0, 0] + bytes::be16(
                self.info.width as int,
            ) + bytes::be16(self.info.height as int),
    {
        let r = self.request_update(false, 0, 0, self.info.width, self.info.height);
        assert(r@ =~= seq![protocol::C2S_FRAMEBUFFER_UPDATE_REQUEST, 0, 0, 0, 0, 0] + bytes::be16(
            self.info.width as int,
        ) + bytes::be16(self.info.height as int));
        r
    }

    /// Reads one message from the front of `reader`. Where the message is incomplete
    /// nothing is taken, so that it can be read again once more has arrived; of one that
    /// is refused, what was read is taken.
    pub fn read_message(&mut self, reader: &mut &[u8]) -> (r: Result<ServerMessage, VncError>)
        ensures
            final(self).encodings == old(self).encodings,
            final(self).info@ == (ServerInfoView {
                width: final(self).info.width,
                height: final(self).info.height,
                ..old(self).info@
            }),
            match r {
                Ok(message) => read_message_from(old(self).info@, old(reader)@) == (
                MessageRead::Whole {
                    message: message@,
                    width: final(self).info.width,
                    height: final(self).info.height,
                    rest: final(reader)@,
                }),
                Err(e) => match read_message_from(old(self).info@, old(reader)@) {
                    MessageRead::Whole { .. } => false,
                    MessageRead::Short { what } => vnc::is_short_read(e, what)
                        && final(self).info@ == old(self).info@ && final(reader)@
                        == old(reader)@,
                    MessageRead::Refused { error, width, height, rest } => e@ == error
                        && final(self).info.width == width && final(self).info.height == height
                        && final(reader)@ == rest,
                },
            },
    {
        let b: &[u8] = *reader;
        if b.len() < 1 {
            return Err(short_read("message type"));
        }
        if b[0] == protocol::S2C_FRAMEBUFFER_UPDATE {
            if b.len() < 4 {
                return Err(short_read("update header"));
            }
            let count: u16 = bytes::read_u16(b, 2);
            let mut rest: &[u8] = slice_subrange(b, 4, b.len());
            assert(rest@ =~= b@.skip(4));
            let format = self.info.format;
            match protocol::decode_framebuffer_update(count, &mut rest, &format) {
                Err(e) => {
                    match &e {
                        VncError::Io { .. } => {},
                        _ => {
                            *reader = rest;
                        },
                    }
                    return Err(e);
                },
                Ok(update) => {
                    if !self.resize(&update.rectangles) {
                        *reader = rest;
                        return Err(
                            VncError::geometry("server resized the framebuffer to zero".to_owned()),
                        );
                    }
                    *reader = rest;
                    return Ok(ServerMessage::FramebufferUpdate(update));
                },
            }
        }
        if b[0] == protocol::S2C_SET_COLOUR_MAP_ENTRIES {
            if b.len() < 6 {
                return Err(short_read("colour map header"));
            }
            let entries: usize = bytes::read_u16(b, 4) as usize;
            if b.len() - 6 < 6 * entries {
                return Err(short_read("colour map entries"));
            }
            *reader = slice_subrange(b, 6 + 6 * entries, b.len());
            assert(reader@ =~= b@.skip(6 + 6 * entries));
            return Ok(ServerMessage::ColourMapIgnored { entries });
        }
        if b[0] == protocol::S2C_BELL {
            *reader = slice_subrange(b, 1, b.len());
            assert(reader@ =~= b@.skip(1));
            return Ok(ServerMessage::Bell);
        }
        if b[0] == protocol::S2C_SERVER_CUT_TEXT {
            if b.len() < 4 {
                return Err(short_read("cut text padding"));
            }
            let mut rest: &[u8] = slice_subrange(b, 4, b.len());
            let ghost inner = rest@;
            assert(inner =~= b@.skip(4));
            match protocol::decode_server_cut_text(&mut rest) {
                Err(e) => {
                    match &e {
                        VncError::Io { .. } => {},
                        _ => {
                            assert(inner.skip(4) =~= b@.skip(8));
                            *reader = rest;
                        },
                    }
                    return Err(e);
                },
                Ok(cut) => {
                    proof {
                        let length = bytes::u32_at(b@, 4);
                        assert(inner.subrange(4, 4 + length) =~= b@.subrange(8, 8 + length));
                        assert(inner.skip(4 + length) =~= b@.skip(8 + length));
                    }
                    *reader = rest;
                    return Ok(ServerMessage::Clipboard(cut));
                },
            }
        }
        *reader = slice_subrange(b, 1, b.len());
        assert(reader@ =~= b@.skip(1));
        Err(
            VncError::protocol(
                text::joined(
                    "server sent unknown message type ",
                    text::decimal_text(b[0] as u64).as_str(),
                ),
            ),
        )
    }

    /// Takes over the sizes that `rectangles` report; false where one is zero.
    fn resize(&mut self, rectangles: &Vec<Rectangle>) -> (ok: bool)
        ensures
            final(self).encodings == old(self).encodings,
            final(self).info@ == (ServerInfoView {
                width: final(self).info.width,
                height: final(self).info.height,
                ..old(self).info@
            }),
            (final(self).info.width, final(self).info.height, ok) == size_after(
                old(self).info.width,
                old(self).info.height,
                protocol::views(rectangles@),
            ),
    {
        let mut i: usize = 0;
        let ghost all = protocol::views(rectangles@);
        while i < rectangles.len()
            invariant
                i <= rectangles@.len(),
                all == protocol::views(rectangles@),
                self.encodings == old(self).encodings,
                self.info@ == (ServerInfoView {
                    width: self.info.width,
                    height: self.info.height,
                    ..old(self).info@
                }),
                (self.info.width, self.info.height, true) == size_after(
                    old(self).info.width,
                    old(self).info.height,
                    all.take(i as int),
                ),
            decreases rectangles@.len() - i,
        {
            proof {
                let t = all.take(i + 1);
                assert(t.drop_last() =~= all.take(i as int));
                assert(t.last() == rectangles@[i as int]@);
            }
            match &rectangles[i] {
                Rectangle::DesktopSize { width, height } => {
                    if *width == 0 || *height == 0 {
                        proof {
                            lemma_size_stays_refused(
                                old(self).info.width,
                                old(self).info.height,
                                all,
                                i + 1,
                            );
                        }
                        return false;
                    }
                    self.info.width = *width;
                    self.info.height = *height;
                },
                _ => {},
            }
            i = i + 1;
        }
        assert(all.take(i as int) =~= all);
        true
    }

    /// The message for a pointer position; refused outside the framebuffer.
    pub fn send_pointer(&self, buttons: u8, x: u16, y: u16) -> (r: Result<[u8; 6], VncError>)
        ensures
            match r {
                Ok(message) => x < self.info.width && y < self.info.height && message@ == seq![
                    protocol::C2S_POINTER_EVENT,
                    buttons,
                ] + bytes::be16(x as int) + bytes::be16(y as int),
                Err(e) => !(x < self.info.width && y < self.info.height) && e@
                    == vnc::VncErrorView::Geometry(
                    "pointer ("@ + text::decimal(x as nat) + ","@ + text::decimal(y as nat)
                        + ") is outside the "@ + dimensions(
                        self.info.width as int,
                        self.info.height as int,
                    ) + " framebuffer"@,
                ),
            },
    {
        if x >= self.info.width || y >= self.info.height {
            let mut message = "pointer (".to_owned();
            message.append(text::decimal_text(x as u64).as_str());
            message.append(",");
            message.append(text::decimal_text(y as u64).as_str());
            message.append(") is outside the ");
            push_dimensions(&mut message, self.info.width, self.info.height);
            message.append(" framebuffer");
            return Err(VncError::geometry(message));
        }
        Ok(protocol::encode_pointer_event(buttons, x, y))
    }

    /// The message for a key press or release as an X11 keysym.
    pub fn send_key(&self, down: bool, keysym: u32) -> (r: [u8; 8])
        ensures
            r@ == seq![protocol::C2S_KEY_EVENT, protocol::flag(down), 0, 0] + bytes::be32(
                keysym as int,
            ),
    {
        protocol::encode_key_event(down, keysym)
    }

    /// The message that hands the server clipboard text.
    pub fn send_clipboard(&self, text: &str) -> (r: Result<Vec<u8>, VncError>)
        ensures
            ({
                let body = vstd::utf8::encode_utf8(text@);
                match r {
                    Ok(out) => body.len() <= u32::MAX && out@ == seq![
                        protocol::C2S_CLIENT_CUT_TEXT,
                        0,
                        0,
                        0,
                    ] + bytes::be32(body.len() as int) + body,
                    Err(e) => body.len() > u32::MAX && e@ == vnc::VncErrorView::Protocol(
                        "clipboard text too long"@,
                    ),
                }
            }),
    {
        protocol::encode_client_cut_text(text)
    }
}

proof fn lemma_size_stays_refused(
    width: u16,
    height: u16,
    rectangles: Seq<protocol::RectangleView>,
    n: int,
)
    requires
        0 <= n <= rectangles.len(),
        !size_after(width, height, rectangles.take(n)).2,
    ensures
        size_after(width, height, rectangles) == size_after(width, height, rectangles.take(n)),
    decreases rectangles.len() - n,
{
    if n == rectangles.len() {
        assert(rectangles.take(n) =~= rectangles);
    } else {
        assert(rectangles.take(n + 1).drop_last() =~= rectangles.take(n));
        lemma_size_stays_refused(width, height, rectangles, n + 1);
    }
}

/// A framebuffer that has pixels keeps some whatever an update reports.
pub proof fn lemma_size_stays_positive(
    width: u16,
    height: u16,
    rectangles: Seq<protocol::RectangleView>,
)
    requires
        width > 0,
        height > 0,
    ensures
        size_after(width, height, rectangles).0 > 0,
        size_after(width, height, rectangles).1 > 0,
    decreases rectangles.len(),
{
    if rectangles.len() > 0 {
        lemma_size_stays_positive(width, height, rectangles.drop_last());
    }
}

/// A finished handshake reports a framebuffer with pixels, within the limit.
pub proof fn lemma_ready_geometry(h: HandshakeView, b: Seq<u8>, response: Seq<u8>)
    ensures
        advanced(h, b, response).step matches StepView::Ready { info, .. } ==> info.width > 0
            && info.height > 0 && info.width * info.height <= MAX_FRAMEBUFFER_PIXELS,
{
}

/// A client with a password authenticates with it wherever the server offers that,
/// whatever else is on offer.
pub proof fn lemma_password_is_used(h: HandshakeView, count: u8, b: Seq<u8>, response: Seq<u8>)
    requires
        h.password is Some,
        h.stage == (Stage::TypeList { count }),
        b.len() >= count,
        b.take(count as int).contains(SecurityType::VncAuthentication.number()),
    ensures
        advanced(h, b, response).next.stage is Challenge,
        advanced(h, b, response).step == StepView::Send(
            seq![SecurityType::VncAuthentication.number()],
        ),
{
}

/// Where a server does not offer authentication, a password changes nothing: the
/// client picks what it would pick without one.
pub proof fn lemma_password_is_ignored(password: Seq<u8>, offered: Seq<u8>)
    requires
        !offered.contains(SecurityType::VncAuthentication.number()),
    ensures
        picked_security(Some(password), offered) == picked_security(None, offered),
{
}

/// A client without a password never authenticates: no step leads it to a challenge.
pub proof fn lemma_no_password_no_challenge(h: HandshakeView, b: Seq<u8>, response: Seq<u8>)
    requires
        h.password is None,
        !(h.stage is Challenge),
    ensures
        advanced(h, b, response).next.password is None,
        !(advanced(h, b, response).next.stage is Challenge),
{
}

/// A message that carries an encoded text, in front of anything else, is read as that
/// text.
pub proof fn lemma_cut_text_is_read_back(
    info: ServerInfoView,
    padding: Seq<u8>,
    t: Seq<char>,
    rest: Seq<u8>,
)
    requires
        padding.len() == 3,
        vstd::utf8::encode_utf8(t).len() <= protocol::MAX_CUT_TEXT,
    ensures
        ({
            let body = vstd::utf8::encode_utf8(t);
            read_message_from(
                info,
                seq![protocol::S2C_SERVER_CUT_TEXT] + padding + bytes::be32(body.len() as int)
                    + body + rest,
            ) == (MessageRead::Whole {
                message: ServerMessageView::Clipboard(t),
                width: info.width,
                height: info.height,
                rest,
            })
        }),
{
    let body = vstd::utf8::encode_utf8(t);
    let b = seq![protocol::S2C_SERVER_CUT_TEXT] + padding + bytes::be32(body.len() as int) + body
        + rest;
    bytes::lemma_be32(body.len() as int);
    text::lemma_encoded_is_shown(t);
    assert forall|i: int| 0 <= i < 4 implies #[trigger] b[4 + i] == bytes::be32(
        body.len() as int,
    )[i] by {}
    assert(b[4] == bytes::be32(body.len() as int)[0]);
    assert(b[5] == bytes::be32(body.len() as int)[1]);
    assert(b[6] == bytes::be32(body.len() as int)[2]);
    assert(b[7] == bytes::be32(body.len() as int)[3]);
    assert(b.subrange(8, (8 + body.len()) as int) =~= body);
    assert(b.skip((8 + body.len()) as int) =~= rest);
}

/// Bytes that arrive later do not change a message that could be read, or
/// refused, without them.
pub proof fn lemma_message_prefix(info: ServerInfoView, b: Seq<u8>, more: Seq<u8>)
    ensures
        match read_message_from(info, b) {
            MessageRead::Whole { message, width, height, rest } => read_message_from(
                info,
                b + more,
            ) == (MessageRead::Whole { message, width, height, rest: rest + more }),
            MessageRead::Short { .. } => true,
            MessageRead::Refused { error, width, height, rest } => read_message_from(info, b + more)
                == (MessageRead::Refused { error, width, height, rest: rest + more }),
        },
{
    let all = b + more;
    if b.len() >= 1 {
        assert forall|i: int| 0 <= i < b.len() implies #[trigger] all[i] == b[i] by {}
        if b[0] == protocol::S2C_FRAMEBUFFER_UPDATE {
            if b.len() >= 4 {
                assert(all.skip(4) =~= b.skip(4) + more);
                protocol::lemma_update_prefix(
                    bytes::u16_at(b, 2) as nat,
                    b.skip(4),
                    more,
                    info.format,
                    Seq::empty(),
                );
            }
        } else if b[0] == protocol::S2C_SET_COLOUR_MAP_ENTRIES {
            if b.len() >= 6 {
                let n = 6 + 6 * bytes::u16_at(b, 4);
                if b.len() >= n {
                    assert(all.skip(n) =~= b.skip(n) + more);
                }
            }
        } else if b[0] == protocol::S2C_BELL {
            assert(all.skip(1) =~= b.skip(1) + more);
        } else if b[0] == protocol::S2C_SERVER_CUT_TEXT {
            if b.len() >= 8 {
                assert(all.skip(8) =~= b.skip(8) + more);
                let n = 8 + bytes::u32_at(b, 4);
                if b.len() >= n {
                    assert(all.skip(n) =~= b.skip(n) + more);
                    assert(all.subrange(8, n) =~= b.subrange(8, n));
                }
            }
        } else {
            assert(all.skip(1) =~= b.skip(1) + more);
        }
    }
}

} // verus!

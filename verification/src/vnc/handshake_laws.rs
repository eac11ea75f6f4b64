//! What holds of the handshake with a server as a whole.
use vstd::prelude::*;
use crate::bytes;
use crate::text;
use crate::vnc;
use crate::vnc::auth;
use crate::vnc::laws;
use crate::vnc::protocol;
use crate::vnc::protocol::{Encoding, PixelFormat, SecurityType};
use crate::vnc::session;
use crate::vnc::session::{HandshakeView, Stage, StepView};

verus! {

/// A client answers with the highest version that it and the server speak: 3.8, 3.7 or
/// 3.3, in the bytes that spell it.
pub proof fn lemma_version_answer(minor: nat)
    ensures
        ({
            let (shown, sent) = session::answer_for(minor);
            let last = if minor >= 8 {
                '8'
            } else if minor == 7 {
                '7'
            } else {
                '3'
            };
            &&& shown =~= seq!['0', '0', '3', '.', '0', '0', last]
            &&& sent =~= seq![82u8, 70, 66, 32, 48, 48, 51, 46, 48, 48, last as u8, 10]
        }),
{
    reveal_strlit("003.008");
    reveal_strlit("003.007");
    reveal_strlit("003.003");
}

/// A server of version 3.7 or later is asked for its list of security types, and an older
/// one for its only one; its version is kept as it was announced.
pub proof fn lemma_versions_lead_on(h: HandshakeView, b: Seq<u8>, response: Seq<u8>)
    requires
        h.stage is Banner,
        b.len() >= 12,
    ensures
        ({
            let a = session::advanced(h, b, response);
            match session::banner_of(text::shown(b.take(12))) {
                session::BannerView::Version { version, minor } => {
                    &&& a.used == 12
                    &&& a.next.version == version
                    &&& a.next.negotiated == session::answer_for(minor).0
                    &&& a.step == StepView::Send(session::answer_for(minor).1)
                    &&& a.next.stage is SingleType <==> minor < 7
                    &&& a.next.stage is TypeCount <==> minor >= 7
                    &&& a.next.password == h.password
                },
                session::BannerView::Refused(e) => a.step == StepView::Fail(e) && a.next.stage
                    is Ended,
                session::BannerView::Unsliceable => a.step is Unsliceable && a.next.stage is Ended,
            }
        }),
{
}

/// The only security type of an old server is its last byte of four. One is none and two
/// is authentication, which needs a password; every other is refused.
pub proof fn lemma_single_security_type(
    h: HandshakeView,
    code: u8,
    rest: Seq<u8>,
    response: Seq<u8>,
)
    requires
        h.stage is SingleType,
    ensures
        ({
            let a = session::advanced(h, seq![0u8, 0, 0, code] + rest, response);
            &&& a.used == 4
            &&& code == 1 ==> a.next.stage == (Stage::ServerInit {
                security: SecurityType::NoAuthentication,
            })
            &&& code == 2 && h.password is Some ==> a.next.stage is Challenge
            &&& code == 2 && h.password is None ==> a.step is Fail
            &&& code != 1 && code != 2 ==> a.step is Fail && a.next.stage is Ended
        }),
{
    let b = seq![0u8, 0, 0, code] + rest;
    assert(b[0] == 0 && b[1] == 0 && b[2] == 0 && b[3] == code);
}

/// The type that a client picks from a list is one that is on it, and the server is told by
/// its number; where none can be picked the handshake ends.
pub proof fn lemma_picked_type(
    h: HandshakeView,
    offered: Seq<u8>,
    rest: Seq<u8>,
    response: Seq<u8>,
)
    requires
        h.stage == (Stage::TypeList { count: offered.len() as u8 }),
        0 < offered.len() < 256,
    ensures
        ({
            let a = session::advanced(h, offered + rest, response);
            &&& a.used == offered.len()
            &&& h.password is Some && offered.contains(2) ==> a.step == StepView::Send(seq![2u8])
                && a.next.stage is Challenge
            &&& (h.password is None || !offered.contains(2)) && offered.contains(1) ==> a.step
                == StepView::Send(seq![1u8]) && a.next.stage == (Stage::Outcome {
                security: SecurityType::NoAuthentication,
            })
            &&& !offered.contains(1) && (h.password is None || !offered.contains(2)) ==> a.step
                is Fail && a.next.stage is Ended
        }),
{
    assert((offered + rest).take(offered.len() as int) =~= offered);
}

/// A number of types leads to the list of as many, and none to the reason for that.
pub proof fn lemma_type_count(h: HandshakeView, count: u8, rest: Seq<u8>, response: Seq<u8>)
    requires
        h.stage is TypeCount,
    ensures
        ({
            let a = session::advanced(h, seq![count] + rest, response);
            &&& a.used == 1
            &&& count == 0 ==> a.next.stage is RefusalReason
            &&& count > 0 ==> a.next.stage == (Stage::TypeList { count })
        }),
{
    let b = seq![count] + rest;
    assert(b[0] == count);
}

/// A challenge is answered with the response to it, and then its outcome is read.
pub proof fn lemma_challenge_is_answered(
    h: HandshakeView,
    challenge: Seq<u8>,
    rest: Seq<u8>,
    response: Seq<u8>,
)
    requires
        h.stage is Challenge,
        challenge.len() == 16,
    ensures
        ({
            let a = session::advanced(h, challenge + rest, response);
            &&& a.used == 16
            &&& a.step == StepView::Send(response)
            &&& a.next.stage == (Stage::Outcome { security: SecurityType::VncAuthentication })
        }),
{
}

/// The outcome zero lets the client in with the type that was used. One, in either order of
/// its bytes, is a refusal; two is followed by a reason; every other is an error.
pub proof fn lemma_outcomes(
    h: HandshakeView,
    security: SecurityType,
    b: Seq<u8>,
    response: Seq<u8>,
)
    requires
        h.stage == (Stage::Outcome { security }),
        b.len() >= 4,
    ensures
        ({
            let a = session::advanced(h, b, response);
            let code = b.take(4);
            &&& a.used == 4
            &&& a.next.stage == (Stage::ServerInit { security }) <==> code == seq![0u8, 0, 0, 0]
            &&& code == seq![0u8, 0, 0, 1] || code == seq![1u8, 0, 0, 0] ==> (
            a.step matches StepView::Fail(vnc::VncErrorView::AuthenticationRejected(_)))
            &&& a.next.stage is AttemptsReason <==> code == seq![0u8, 0, 0, 2]
            &&& code != seq![0u8, 0, 0, 0] && code != seq![0u8, 0, 0, 1] && code != seq![
                0u8,
                0,
                0,
                2,
            ] && code != seq![1u8, 0, 0, 0] ==> (a.step matches StepView::Fail(
                vnc::VncErrorView::Protocol(_),
            ))
        }),
{
    let code = b.take(4);
    assert(code =~= seq![b[0], b[1], b[2], b[3]]);
    if b[0] == 0 && b[1] == 0 && b[2] == 0 {
        if b[3] == 0 {
            assert(code =~= seq![0u8, 0, 0, 0]);
        } else if b[3] == 1 {
            assert(code =~= seq![0u8, 0, 0, 1]);
        } else if b[3] == 2 {
            assert(code =~= seq![0u8, 0, 0, 2]);
        }
    }
    if b[0] == 1 && b[1] == 0 && b[2] == 0 && b[3] == 0 {
        assert(code =~= seq![1u8, 0, 0, 0]);
    }
    assert(code[0] == b[0] && code[1] == b[1] && code[2] == b[2] && code[3] == b[3]);
}

proof fn lemma_preferences()
    ensures
        seq![protocol::C2S_SET_PIXEL_FORMAT, 0, 0, 0] + protocol::preferred().wire() + seq![
            protocol::C2S_SET_ENCODINGS,
            0,
            0,
            1,
            0,
            0,
            0,
            0,
        ] == seq![0u8, 0, 0, 0, 32, 24, 0, 1, 0, 255, 0, 255, 0, 255, 16, 8, 0, 0, 0, 0] + seq![
            2u8,
            0,
            0,
            1,
            0,
            0,
            0,
            0,
        ],
{
    let wanted = protocol::preferred().wire();
    assert(wanted =~= seq![32u8, 24, 0, 1, 0, 255, 0, 255, 0, 255, 16, 8, 0, 0, 0, 0]);
}

/// What a server says of itself, and what follows.
#[verifier::opaque]
pub open spec fn greeting(
    width: u16,
    height: u16,
    wire: Seq<u8>,
    body: Seq<u8>,
    rest: Seq<u8>,
) -> Seq<u8> {
    laws::two(width as int) + laws::two(height as int) + wire + seq![0u8, 0] + laws::two(
        body.len() as int,
    ) + body + rest
}

proof fn lemma_greeting(width: u16, height: u16, wire: Seq<u8>, body: Seq<u8>, rest: Seq<u8>)
    requires
        wire.len() == 16,
        body.len() <= 4096,
    ensures
        ({
            let n = body.len() as int;
            let b = greeting(width, height, wire, body, rest);
            &&& b.len() >= 24 + n
            &&& bytes::u16_at(b, 0) == width
            &&& bytes::u16_at(b, 2) == height
            &&& bytes::u32_at(b, 20) == n
            &&& b.subrange(4, 20) == wire
            &&& b.subrange(24, 24 + n) == body
        }),
{
    reveal(greeting);
    let n = body.len() as int;
    let head = laws::two(width as int) + laws::two(height as int);
    let b = head + wire + seq![0u8, 0] + laws::two(n) + body + rest;
    assert(b[0] == head[0] && b[1] == head[1] && b[2] == head[2] && b[3] == head[3]);
    assert(b.subrange(4, 20) =~= wire);
    assert(b[20] == 0 && b[21] == 0);
    assert(b[22] == laws::two(n)[0] && b[23] == laws::two(n)[1]);
    assert(b.subrange(24, 24 + n) =~= body);
}

proof fn lemma_greeting_is_taken(
    h: HandshakeView,
    security: SecurityType,
    b: Seq<u8>,
    response: Seq<u8>,
)
    requires
        h.stage == (Stage::ServerInit { security }),
        bytes::u16_at(b, 0) > 0,
        bytes::u16_at(b, 2) > 0,
        bytes::u16_at(b, 0) * bytes::u16_at(b, 2) <= 268_435_456,
        bytes::u32_at(b, 20) <= 4096,
        b.len() >= 24 + bytes::u32_at(b, 20),
    ensures
        ({
            let a = session::advanced(h, b, response);
            let n = bytes::u32_at(b, 20);
            &&& a.used == 24 + n
            &&& a.next.stage is Ended
            &&& a.step matches StepView::Ready { info, encodings, send } && info.width
                == bytes::u16_at(b, 0) && info.height == bytes::u16_at(b, 2) && info.format
                == PixelFormat::of_wire(b.subrange(4, 20)) && info.name == text::shown(
                b.subrange(24, 24 + n),
            ) && info.security == security && info.version == h.version && info.negotiated_version
                == h.negotiated && encodings == seq![Encoding::Raw] && send == seq![
                protocol::C2S_SET_PIXEL_FORMAT,
                0,
                0,
                0,
            ] + protocol::preferred().wire() + seq![
                protocol::C2S_SET_ENCODINGS,
                0,
                0,
                1,
                0,
                0,
                0,
                0,
            ]
        }),
{
}

/// What a server says of itself is what the session knows of it: its size, the format of
/// its pixels and its name, with the version and the security type of the handshake. The
/// client answers with the format that it prefers and the one encoding that it reads.
pub proof fn lemma_server_is_known(
    h: HandshakeView,
    security: SecurityType,
    width: u16,
    height: u16,
    format: PixelFormat,
    name: Seq<char>,
    rest: Seq<u8>,
    response: Seq<u8>,
)
    requires
        h.stage == (Stage::ServerInit { security }),
        width > 0,
        height > 0,
        width * height <= 268_435_456,
        vstd::utf8::encode_utf8(name).len() <= 4096,
    ensures
        ({
            let body = vstd::utf8::encode_utf8(name);
            let n = body.len() as int;
            let b = greeting(width, height, format.wire(), body, rest);
            let a = session::advanced(h, b, response);
            &&& a.used == 24 + n
            &&& a.next.stage is Ended
            &&& a.step matches StepView::Ready { info, encodings, send } && info.width == width
                && info.height == height && info.format == format && info.name == name
                && info.security == security && info.version == h.version
                && info.negotiated_version == h.negotiated && encodings == seq![Encoding::Raw]
                && send == seq![0u8, 0, 0, 0, 32, 24, 0, 1, 0, 255, 0, 255, 0, 255, 16, 8, 0, 0, 0, 0]
                + seq![2u8, 0, 0, 1, 0, 0, 0, 0]
        }),
{
    let body = vstd::utf8::encode_utf8(name);
    lemma_greeting(width, height, format.wire(), body, rest);
    lemma_greeting_is_taken(
        h,
        security,
        greeting(width, height, format.wire(), body, rest),
        response,
    );
    lemma_preferences();
    protocol::lemma_pixel_format_round_trip(format);
    text::lemma_encoded_is_shown(name);
}

/// A server with a picture of nothing, or of more pixels than can be held, is refused.
pub proof fn lemma_senseless_sizes_are_refused(
    h: HandshakeView,
    security: SecurityType,
    width: u16,
    height: u16,
    rest: Seq<u8>,
    response: Seq<u8>,
)
    requires
        h.stage == (Stage::ServerInit { security }),
        width == 0 || height == 0 || width * height > 268_435_456,
        rest.len() >= 20,
    ensures
        session::advanced(
            h,
            laws::two(width as int) + laws::two(height as int) + rest,
            response,
        ).step matches StepView::Fail(vnc::VncErrorView::Geometry(_)),
{
    let b = laws::two(width as int) + laws::two(height as int) + rest;
    let head = laws::two(width as int) + laws::two(height as int);
    assert(b[0] == head[0] && b[1] == head[1] && b[2] == head[2] && b[3] == head[3]);
}

/// A reason is shown as the server wrote it.
pub proof fn lemma_reasons_are_shown(
    h: HandshakeView,
    reason: Seq<char>,
    rest: Seq<u8>,
    response: Seq<u8>,
)
    requires
        h.stage is RefusalReason || h.stage is AttemptsReason,
        vstd::utf8::encode_utf8(reason).len() <= 4096,
    ensures
        ({
            let body = vstd::utf8::encode_utf8(reason);
            let b = seq![0u8, 0] + laws::two(body.len() as int) + body + rest;
            let a = session::advanced(h, b, response);
            &&& a.step == StepView::Fail(vnc::VncErrorView::AuthenticationRejected(reason))
            &&& a.used == 4 + body.len()
        }),
{
    let body = vstd::utf8::encode_utf8(reason);
    let n = body.len() as int;
    let b = seq![0u8, 0] + laws::two(n) + body + rest;
    assert(b[0] == 0 && b[1] == 0 && b[2] == laws::two(n)[0] && b[3] == laws::two(n)[1]);
    assert(b.subrange(4, 4 + n) =~= body);
    text::lemma_encoded_is_shown(reason);
}

/// While not all of what is waited for is there, nothing is taken and nothing changes.
pub proof fn lemma_nothing_happens_too_early(h: HandshakeView, b: Seq<u8>, response: Seq<u8>)
    ensures
        ({
            let a = session::advanced(h, b, response);
            let wanted = match h.stage {
                Stage::Banner => 12int,
                Stage::SingleType => 4,
                Stage::TypeCount => 1,
                Stage::TypeList { count } => count as int,
                Stage::Challenge => 16,
                Stage::Outcome { .. } => 4,
                Stage::ServerInit { .. } => 24,
                Stage::RefusalReason => 4,
                Stage::AttemptsReason => 4,
                Stage::Ended => 0,
            };
            b.len() < wanted ==> a.step is Need && a.used == 0 && a.next == h
        }),
{
}

/// The response encrypts the sixteen bytes of the challenge, whatever follows them, with the
/// password that was given, or with none where none was.
pub proof fn lemma_response_is_for_the_challenge(
    h: HandshakeView,
    challenge: Seq<u8>,
    rest: Seq<u8>,
    response: Seq<u8>,
)
    requires
        challenge.len() == 16,
        session::answers(h, challenge + rest, response),
    ensures
        h.password matches Some(p) ==> auth::encrypted_ecb(auth::vnc_key(p), challenge, response),
        h.password is None ==> auth::encrypted_ecb(
            auth::vnc_key(Seq::empty()),
            challenge,
            response,
        ),
{
    assert((challenge + rest).take(16) =~= challenge);
}

} // verus!

//! What holds of a session with an authorized peer as a whole.
use vstd::prelude::*;
use crate::authentication::{Approval, Permissions};
use crate::host;
use crate::host::access;
use crate::host::access::{AuthStep, HostEvent};
use crate::host::stream;
use crate::host::stream::{
    Control, Decoding, Disposition, Dropped, PublishEvent, PublishStep, RecordStep, StreamEnd,
    StreamEvent, StreamStep,
};
use crate::host::{Address, HostError, HostOptions, LocalGrant};
use crate::input;
use crate::message::{Message, Misc, VideoPayload};
use crate::publisher::{Codec, CodecSelection, EncodedUnit, Encoders};
use crate::text;

verus! {

/// A record asks for a key frame exactly where it asks for a whole picture: of the
/// session, or of the one display that there is.
pub proof fn lemma_keyframe_requests(d: Disposition, message: Message, width: i32, height: i32)
    requires
        stream::disposes(d, message, width, height),
    ensures
        d is Keyframe <==> (message == Message::Misc(Misc::RefreshVideo(true)) || message
            == Message::Misc(Misc::RefreshVideoDisplay(0))),
{
}

/// A session ends on a close request and on nothing else, and input is what comes from a
/// pointer, a keyboard or a touch screen and nothing else.
pub proof fn lemma_ends_and_input(d: Disposition, message: Message, width: i32, height: i32)
    requires
        stream::disposes(d, message, width, height),
    ensures
        d is Close <==> message == Message::Misc(Misc::CloseReason),
        d is Input <==> (message is MouseEvent || message is KeyEvent || message
            is PointerDeviceEvent),
{
}

/// An answer is owed to a probe of the peer, which gets back what it sent, and to the
/// question about the display, which is told with its size; to nothing else.
pub proof fn lemma_answers(d: Disposition, message: Message, width: i32, height: i32)
    requires
        stream::disposes(d, message, width, height),
    ensures
        match message {
            Message::TestDelay(probe) => if probe.from_client {
                d matches Disposition::Reply(reply) && (reply matches Message::TestDelay(back)
                    && back.from_client && back.payload@ == probe.payload@)
            } else {
                d is Nothing
            },
            Message::Misc(Misc::MessageQuery { switch_display }) => if switch_display == 0 {
                d matches Disposition::Reply(reply) && (reply matches Message::Misc(
                    Misc::SwitchDisplay(shown),
                ) && shown.display == 0 && shown.x == 0 && shown.y == 0 && shown.width == width
                    && shown.height == height)
            } else {
                d is Nothing
            },
            _ => !(d is Reply),
        },
{
}

/// Whether displays other than the one of this host are among some.
pub open spec fn names_another(displays: Seq<i32>) -> bool {
    exists|i: int| 0 <= i < displays.len() && #[trigger] displays[i] != 0
}

/// The picture starts and stops with the subscription to display 0. A peer that names
/// another display gets nothing of it; one that leaves and enters at once has left.
pub proof fn lemma_subscriptions(
    d: Disposition,
    add: Vec<i32>,
    sub: Vec<i32>,
    set: Vec<i32>,
    width: i32,
    height: i32,
)
    requires
        stream::disposes(
            d,
            Message::Misc(Misc::CaptureDisplays { add, sub, set }),
            width,
            height,
        ),
    ensures
        d == Disposition::Dropped(Dropped::Display) <==> names_another(add@) || names_another(set@),
        d == Disposition::Subscribed(false) <==> !names_another(add@) && !names_another(set@)
            && sub@.contains(0),
        d == Disposition::Subscribed(true) <==> !names_another(add@) && !names_another(set@)
            && !sub@.contains(0) && (add@.len() > 0 || set@.len() > 0),
        d is Dropped || d is Subscribed || d is Nothing,
{
    if add@.len() > 0 && !names_another(add@) {
        assert(add@[0] == 0);
    }
    if set@.len() > 0 && !names_another(set@) {
        assert(set@[0] == 0);
    }
}

/// A subscription changes with a record about displays and with nothing else.
pub proof fn lemma_only_displays_subscribe(
    d: Disposition,
    message: Message,
    width: i32,
    height: i32,
)
    requires
        stream::disposes(d, message, width, height),
        d is Subscribed,
    ensures
        message matches Message::Misc(misc) && misc is CaptureDisplays,
{
}

/// What this host has no use for is counted by its kind: chat, and requests about
/// resolutions or other displays.
pub proof fn lemma_dropped_records(d: Disposition, message: Message, width: i32, height: i32)
    requires
        stream::disposes(d, message, width, height),
    ensures
        d == Disposition::Dropped(Dropped::Chat) <==> message == Message::Misc(Misc::ChatMessage),
        message == Message::Misc(Misc::ChangeResolution) ==> d == Disposition::Dropped(
            Dropped::Display,
        ),
        (message matches Message::Misc(misc) && misc is ChangeDisplayResolution) ==> d
            == Disposition::Dropped(Dropped::Display),
        d == Disposition::Dropped(Dropped::Display) ==> (message matches Message::Misc(misc) && (
        misc is ChangeResolution || misc is ChangeDisplayResolution || misc is CaptureDisplays)),
{
}

/// What a record leads to is what it means: the encoder is told of a key frame, the peer
/// of an answer, and the platform of input that is granted and understood.
pub proof fn lemma_records_are_acted_on(
    step: RecordStep,
    d: Disposition,
    message: Message,
    width: i32,
    height: i32,
    granted: bool,
)
    requires
        stream::disposes(d, message, width, height),
        stream::follows(step, message, width, height, granted),
    ensures
        step is Close <==> d is Close,
        step == RecordStep::Tell(Control::Keyframe) <==> d is Keyframe,
        step is Tell <==> d is Keyframe || d is Reply,
        step is Inject <==> d is Input && granted && input::input_of(message) is Some,
        step matches RecordStep::Inject(action) ==> Some(action@) == input::input_of(message),
        step matches RecordStep::Tell(Control::Reply(Message::TestDelay(back))) ==> (
        message matches Message::TestDelay(probe) && back.payload@ == probe.payload@),
        step matches RecordStep::Tell(Control::Reply(Message::Misc(Misc::SwitchDisplay(shown))))
            ==> shown.width == width && shown.height == height,
{
}

/// A record moves at most one counter, by one, and nothing else of the host but the
/// subscription. Input that is not injected is counted, and no other.
pub proof fn lemma_records_are_counted(
    before: host::HostView,
    message: Message,
    granted: bool,
    d: Disposition,
    width: i32,
    height: i32,
)
    requires
        stream::counters_have_room(before.snapshot),
        stream::disposes(d, message, width, height),
    ensures
        ({
            let after = stream::host_after_record(before, message, granted);
            let s = before.snapshot;
            let t = after.snapshot;
            let lost = d is Input && !(granted && input::input_of(message) is Some);
            &&& after == (host::HostView { snapshot: t, ..before })
            &&& t == (host::HostSnapshotView {
                dropped_inputs: t.dropped_inputs,
                dropped_chat_messages: t.dropped_chat_messages,
                ignored_display_requests: t.ignored_display_requests,
                video_subscribed: t.video_subscribed,
                ..s
            })
            &&& t.dropped_inputs == s.dropped_inputs + if lost {
                1int
            } else {
                0
            }
            &&& t.dropped_chat_messages == s.dropped_chat_messages + if d
                == Disposition::Dropped(Dropped::Chat) {
                1int
            } else {
                0
            }
            &&& t.ignored_display_requests == s.ignored_display_requests + if d
                == Disposition::Dropped(Dropped::Display) {
                1int
            } else {
                0
            }
            &&& t.video_subscribed == match d {
                Disposition::Subscribed(on) => on,
                _ => s.video_subscribed,
            }
        }),
{
}

/// A unit is sent as the one frame of its message, in the codec of the session, with its
/// bytes, its kind and its time in milliseconds, for the one display that there is.
pub proof fn lemma_units_are_sent_whole(message: Message, unit: EncodedUnit, codec: Codec)
    requires
        stream::carries(message, unit, codec),
    ensures
        message matches Message::VideoFrame(frame) && frame.display == 0 && (codec is H264
            <==> frame.payload is H264) && (codec is H265 <==> frame.payload is H265),
        message matches Message::VideoFrame(frame) && match frame.payload {
            VideoPayload::H264(frames) => frames@.len() == 1 && frames@[0].data@ == unit.data@
                && frames@[0].key == unit.key && 1000 * frames@[0].pts <= unit.pts_us < 1000
                * frames@[0].pts + 1000,
            VideoPayload::H265(frames) => frames@.len() == 1 && frames@[0].data@ == unit.data@
                && frames@[0].key == unit.key && 1000 * frames@[0].pts <= unit.pts_us < 1000
                * frames@[0].pts + 1000,
            VideoPayload::Other => false,
        },
{
}

/// A stream sends what it is given: units that can be sent, and answers as they are. It
/// asks for a key frame exactly where it is told to, and ends for the reason that it has.
pub proof fn lemma_streams_go_on(step: StreamStep, codec: Codec, event: StreamEvent)
    requires
        stream::stream_step(step, codec, event),
    ensures
        step is RequestKeyframe <==> event == StreamEvent::Control(Control::Keyframe),
        event matches StreamEvent::Control(Control::Reply(message)) ==> step == StreamStep::Send(
            message,
        ),
        event matches StreamEvent::Unit(unit) ==> (if 0 < unit.data@.len() <= 33_554_432
            && unit.pts_us >= 0 {
            step matches StreamStep::Send(message) && stream::carries(message, unit, codec)
        } else {
            step == StreamStep::End(StreamEnd::Capture)
        }),
        step == StreamStep::End(StreamEnd::Cancelled) <==> event is Cancelled,
        step == StreamStep::End(StreamEnd::PeerGone) <==> event is ReaderGone,
        step == StreamStep::End(StreamEnd::Transport) <==> event == (StreamEvent::Sent {
            delivered: false,
        }),
        event is CaptureEnded || event == (StreamEvent::KeyframeRequested { accepted: false })
            ==> step == StreamStep::End(StreamEnd::Capture),
        step is Wait <==> event == (StreamEvent::Sent { delivered: true }) || event == (
        StreamEvent::KeyframeRequested { accepted: true }),
{
}

/// A unit is counted once it was delivered, with its bytes, and nothing else is.
pub proof fn lemma_delivered_units_are_counted(
    before: host::HostView,
    sending: Option<usize>,
    unit: EncodedUnit,
    event: StreamEvent,
)
    requires
        before.snapshot.sent_units < u64::MAX,
        before.snapshot.sent_bytes + unit.data@.len() <= u64::MAX,
        sending matches Some(size) ==> before.snapshot.sent_bytes + size <= u64::MAX,
        stream::sendable(unit),
        unit.data@.len() <= usize::MAX,
    ensures
        ({
            let taken = stream::sending_after(sending, StreamEvent::Unit(unit));
            let after = stream::host_after_stream(
                before,
                taken,
                StreamEvent::Sent { delivered: true },
            );
            &&& after.snapshot.sent_units == before.snapshot.sent_units + 1
            &&& after.snapshot.sent_bytes == before.snapshot.sent_bytes + unit.data@.len()
            &&& after.snapshot.phase == "streaming"@
            &&& stream::sending_after(taken, StreamEvent::Sent { delivered: true }) is None
        }),
        stream::host_after_stream(before, None, event) == before,
        event != (StreamEvent::Sent { delivered: true }) ==> stream::host_after_stream(
            before,
            sending,
            event,
        ) == before,
{
}

/// Of two codecs that both sides have, H.264 is taken where the peer prefers it and H.265
/// where it does not; of one that both have, that one.
pub proof fn lemma_codec_preference(codecs: Encoders, decoding: Decoding)
    ensures
        ({
            let h264 = codecs.h264 && decoding.ability_h264 > 0;
            let h265 = codecs.h265 && decoding.ability_h265 > 0;
            let chosen = stream::common_codec(codecs, decoding);
            &&& h264 && h265 ==> (chosen == Some(Codec::H264) <==> decoding.prefers_h264)
            &&& h264 && !h265 ==> chosen == Some(Codec::H264)
            &&& h265 && !h264 ==> chosen == Some(Codec::H265)
            &&& chosen is None <==> !h264 && !h265
        }),
{
}

/// The first wait is half a second, each further one is half a second longer, up to two
/// and a half.
pub proof fn lemma_waits_grow(restarts: u32)
    requires
        restarts < u32::MAX,
    ensures
        stream::backoff(0) == 500,
        stream::backoff((restarts + 1) as u32) == if restarts < 4 {
            stream::backoff(restarts) + 500
        } else {
            stream::backoff(restarts)
        },
{
}

/// Publishing is over exactly where the session was cancelled, the peer or its socket is
/// gone, or native resources cannot be confirmed to be free; and it says which.
pub proof fn lemma_publishing_ends(restarts: u32, event: PublishEvent)
    ensures
        ({
            let step = stream::publish_step(restarts, event);
            let unconfirmed = stream::leaves_unreclaimed(event);
            &&& step == PublishStep::Done(Err(HostError::ReclamationUnconfirmed)) <==> unconfirmed
            &&& unconfirmed <==> (event == (PublishEvent::OpenFailed { unconfirmed: true }) || (
            event matches PublishEvent::StreamEnded { released, .. } && !released))
            &&& step == PublishStep::Done(Err(HostError::TransportFailed)) <==> event == (
            PublishEvent::StreamEnded { end: StreamEnd::Transport, released: true })
            &&& step == PublishStep::Done(Ok(())) <==> (event == (PublishEvent::Started {
                cancelled: true,
            }) || event == (PublishEvent::Waited { cancelled: true }) || event == (
            PublishEvent::StreamEnded { end: StreamEnd::Cancelled, released: true }) || event == (
            PublishEvent::StreamEnded { end: StreamEnd::PeerGone, released: true }))
            &&& step is Open <==> (event == (PublishEvent::Started { cancelled: false }) || event
                == (PublishEvent::Waited { cancelled: false }))
            &&& step is Stream <==> event is Opened
            &&& step is Wait <==> (event == (PublishEvent::OpenFailed { unconfirmed: false })
                || event == (PublishEvent::StreamEnded {
                end: StreamEnd::Capture,
                released: true,
            }))
            &&& step is Wait <==> stream::restarts_capture(event)
            &&& step matches PublishStep::Wait(millis) ==> millis == stream::backoff(restarts)
        }),
{
}

/// A peer that asks for the operator is let in exactly where the operator agrees to its
/// own request, with what local policy armed; a no denies it, and until then it waits.
pub proof fn lemma_operator_decides(
    before: host::HostView,
    epoch: u64,
    origin: Seq<char>,
    allow: bool,
    armed: Permissions,
    other: u64,
)
    requires
        epoch != 0,
        before.grant == LocalGrant::idle(),
    ensures
        ({
            let asked = access::host_after(before, epoch, origin, HostEvent::AwaitApproval);
            let decided = asked.grant.decided(epoch, allow);
            &&& asked.snapshot.phase == "awaiting_approval"@
            &&& asked.snapshot.approval_request == text::decimal(epoch as nat)
            &&& asked.snapshot.approval_origin == origin
            &&& asked.grant.open_for(epoch)
            &&& access::approval_of(asked.grant, epoch, armed) is Pending
            &&& access::approval_of(decided, epoch, armed) == if allow {
                Approval::Approved(armed)
            } else {
                Approval::Denied
            }
            &&& !decided.open_for(epoch)
            &&& other != epoch ==> access::approval_of(decided, other, armed) is Pending
            &&& other != epoch ==> asked.grant.decided(other, allow) == asked.grant
        }),
{
}

/// Once a peer is let in, no request stays open and none is shown.
pub proof fn lemma_admission_closes_the_request(
    before: host::HostView,
    epoch: u64,
    origin: Seq<char>,
    complete: bool,
    other: u64,
)
    ensures
        ({
            let after = access::host_after(
                before,
                epoch,
                origin,
                HostEvent::Authorized { complete },
            );
            &&& after.snapshot.approval_request.len() == 0
            &&& after.snapshot.approval_origin.len() == 0
            &&& !after.grant.open_for(other)
            &&& after.snapshot.phase == before.snapshot.phase
            &&& after.cancelled == before.cancelled && after.unreclaimed == before.unreclaimed
        }),
        access::host_after(before, epoch, origin, HostEvent::Progress) == before,
        access::host_after(before, epoch, origin, HostEvent::LoginRejected) == before,
        access::host_after(before, epoch, origin, HostEvent::Unsupported) == before,
        access::host_after(before, epoch, origin, HostEvent::Closed) == before,
{
}

/// A peer is authorized exactly where its session could be taken over; a refused login and
/// a peer that leaves count as denied; and a peer that settles nothing is cut off after its
/// last admissible record.
pub proof fn lemma_authorization(records: u8, event: HostEvent)
    requires
        records < 64,
    ensures
        ({
            let step = access::auth_step(records, event);
            let idle = event is Progress || event is AwaitApproval || event is Unsupported;
            &&& step is Authorized <==> event == (HostEvent::Authorized { complete: true })
            &&& step == AuthStep::Failed(HostError::ApprovalDenied) <==> event is Closed || event
                is LoginRejected
            &&& step == AuthStep::Failed(HostError::TransportFailed) <==> event is Cancelled
            &&& step is Continue <==> idle && records < 63
            &&& idle && records == 63 ==> step == AuthStep::Failed(HostError::AuthenticationFailed)
            &&& event is ReceiveFailed || event == (HostEvent::Authorized { complete: false })
                ==> step == AuthStep::Failed(HostError::AuthenticationFailed)
        }),
{
}

/// A peer may be granted input where the operator armed it and the platform can inject it,
/// and never anything else.
pub proof fn lemma_grants(options: HostOptions)
    ensures
        ({
            let granted = access::local_grant(options);
            &&& granted.keyboard <==> options.input_injection && options.input_sink
            &&& !granted.clipboard && !granted.audio && !granted.file
        }),
{
}

/// The passwords that open a host: the stored one where it is allowed, the one-time one
/// where it is allowed and there is one, and no other.
pub proof fn lemma_accepted_passwords(
    temporary: Seq<char>,
    salted: [u8; 32],
    permanent: Option<[u8; 32]>,
    allow_permanent: bool,
    allow_temporary: bool,
    password: [u8; 32],
)
    ensures
        ({
            let all = access::passwords(
                temporary,
                salted,
                permanent,
                allow_permanent,
                allow_temporary,
            );
            let one_time = allow_temporary && temporary.len() > 0;
            let stored = allow_permanent && permanent is Some;
            &&& all.contains(password) <==> (one_time && password == salted) || (stored && permanent
                == Some(password))
            &&& all.len() == (if one_time {
                1int
            } else {
                0
            }) + (if stored {
                1int
            } else {
                0
            })
        }),
{
    let all = access::passwords(temporary, salted, permanent, allow_permanent, allow_temporary);
    let one_time = allow_temporary && temporary.len() > 0;
    let stored = allow_permanent && permanent is Some;
    if stored {
        assert(all[0] == permanent->0);
    }
    if one_time {
        assert(all[all.len() - 1] == salted);
    }
}

/// An encoder is used where the hardware has it and the operator did not choose the other.
pub proof fn lemma_usable_encoders(supported: Encoders, selection: CodecSelection)
    ensures
        ({
            let found = access::usable(supported, selection);
            &&& selection is Auto ==> found == supported
            &&& selection is H264 ==> found.h264 == supported.h264 && !found.h265
            &&& selection is H265 ==> found.h265 == supported.h265 && !found.h264
        }),
{
}

/// A peer may ask for a machine by its number, its addresses, and what stands before the
/// port of one, and by nothing else; never by a wildcard.
pub proof fn lemma_accepted_names(target: Seq<char>, options: HostOptions, local: Address)
    ensures
        access::accepted(target, options, local) <==> {
            &&& target.len() > 0
            &&& !access::wildcard(target)
            &&& {
                ||| target == options.id@ || access::host_part(options.id@) == Some(target)
                ||| target == local.ip@ || target == local.text@ || access::host_part(local.text@)
                    == Some(target)
                ||| target == options.listen.ip@ || target == options.listen.text@
                    || access::host_part(options.listen.text@) == Some(target)
            }
        },
        access::wildcard("0.0.0.0"@) && access::wildcard("::"@) && access::wildcard("[::]"@),
{
}

/// A machine whose number is no wildcard answers to its number, and to each of its
/// addresses that is none.
pub proof fn lemma_machine_answers_to_its_names(options: HostOptions, local: Address)
    ensures
        options.id@.len() > 0 && !access::wildcard(options.id@) ==> access::accepted(
            options.id@,
            options,
            local,
        ),
        local.ip@.len() > 0 && !access::wildcard(local.ip@) ==> access::accepted(
            local.ip@,
            options,
            local,
        ),
        local.text@.len() > 0 && !access::wildcard(local.text@) ==> access::accepted(
            local.text@,
            options,
            local,
        ),
        options.listen.ip@.len() > 0 && !access::wildcard(options.listen.ip@) ==> access::accepted(
            options.listen.ip@,
            options,
            local,
        ),
{
}

/// A host that is started waits for its first peer with nothing sent, nothing counted and
/// nothing open, and with the picture ready to be sent.
pub proof fn lemma_started_host(width: i32, height: i32, fps: u32, epoch: u64)
    ensures
        ({
            let h = host::HostView::started(width, height, fps);
            &&& h.snapshot.phase == "starting"@
            &&& h.snapshot.width == width && h.snapshot.height == height && h.snapshot.fps == fps
            &&& h.snapshot.error is None && !h.snapshot.connected && !h.snapshot.encrypted
            &&& h.snapshot.sent_units == 0 && h.snapshot.sent_bytes == 0
            &&& h.snapshot.injected_inputs == 0 && h.snapshot.refused_inputs == 0
            &&& h.snapshot.dropped_inputs == 0 && h.snapshot.dropped_chat_messages == 0
            &&& h.snapshot.ignored_display_requests == 0 && h.snapshot.capture_restarts == 0
            &&& h.snapshot.video_subscribed && !h.snapshot.closed
            &&& !h.grant.open_for(epoch)
            &&& !h.cancelled && !h.unreclaimed
        }),
{
}

/// A host that goes from one peer to the next shows where it is: listening without a peer,
/// then authenticating with the counters of the picture at zero and no error.
pub proof fn lemma_next_peer(h: host::HostView)
    ensures
        h.listening().snapshot.phase == "listening"@,
        !h.listening().snapshot.connected && !h.listening().snapshot.encrypted,
        h.listening().snapshot.error == h.snapshot.error,
        h.listening().grant == h.grant,
        h.accepted().snapshot.phase == "authenticating"@,
        h.accepted().snapshot.error is None,
        h.accepted().snapshot.sent_units == 0 && h.accepted().snapshot.sent_bytes == 0,
        h.accepted().snapshot.injected_inputs == h.snapshot.injected_inputs,
        h.accepted().cancelled == h.cancelled && h.accepted().unreclaimed == h.unreclaimed,
{
}

/// After a peer is gone its request is closed and its error, if it left with one, is shown.
/// Only where native resources could not be confirmed to be free does the host stop.
pub proof fn lemma_gone_peer(h: host::HostView, outcome: Result<(), HostError>, epoch: u64)
    ensures
        ({
            let after = h.peer_gone(outcome);
            &&& !after.grant.open_for(epoch)
            &&& after.snapshot.approval_request.len() == 0
            &&& outcome is Ok ==> after.snapshot.error == h.snapshot.error
            &&& outcome matches Err(error) ==> after.snapshot.error == Some(error)
            &&& outcome == Err::<(), HostError>(HostError::ReclamationUnconfirmed)
                ==> after.snapshot.phase == "stopped"@
            &&& outcome != Err::<(), HostError>(HostError::ReclamationUnconfirmed)
                ==> after.snapshot.phase == h.snapshot.phase
            &&& after.unreclaimed == h.unreclaimed && after.cancelled == h.cancelled
        }),
{
}

/// A host that ended shows the error that it ended with, or the last one before, and by its
/// phase whether everything was released.
pub proof fn lemma_ended_host(h: host::HostView, result: Result<(), HostError>)
    ensures
        ({
            let after = h.ended(result);
            &&& result matches Err(error) ==> after.snapshot.error == Some(error)
            &&& result is Ok ==> after.snapshot.error == h.snapshot.error
            &&& after.snapshot.phase == if h.unreclaimed {
                "reclamation_unconfirmed"@
            } else {
                "closed"@
            }
            &&& after.snapshot.closed == !h.unreclaimed
            &&& !after.snapshot.connected && !after.snapshot.encrypted
        }),
{
}

/// A host is started with a number, a port, a screen, a rate and a budget within bounds,
/// and with nothing else.
pub proof fn lemma_host_options(o: HostOptions)
    ensures
        ({
            let valid = host::valid_options(o);
            &&& valid ==> o.id@.len() > 0 && o.listen.port != 0 && o.platform@.len() > 0
            &&& valid ==> 1 <= o.width <= 8192 && 1 <= o.height <= 8192 && o.width * o.height
                <= 33_554_432
            &&& valid ==> 1 <= o.fps <= 240 && 100_000 <= o.bitrate <= 200_000_000
            &&& 0 < vstd::utf8::encode_utf8(o.id@).len() <= 512 && o.listen.port != 0
                && o.platform@.len() > 0 && 1 <= o.width <= 4096 && 1 <= o.height <= 8192 && 1
                <= o.fps <= 240 && 100_000 <= o.bitrate <= 200_000_000 ==> valid
            &&& vstd::utf8::encode_utf8(o.id@).len() > 512 ==> !valid
        }),
{
    if o.id@.len() == 0 {
        assert(vstd::utf8::encode_utf8(o.id@).len() == 0) by {
            reveal_with_fuel(vstd::utf8::encode_utf8, 1);
        }
    }
    if 1 <= o.width <= 4096 && 1 <= o.height <= 8192 {
        assert(o.width * o.height <= 4096 * 8192) by (nonlinear_arith)
            requires
                1 <= o.width <= 4096,
                1 <= o.height <= 8192,
        ;
    }
}

/// Nothing is granted unless something grants it.
pub proof fn lemma_nothing_is_granted(p: Permissions)
    ensures
        p == Permissions::nothing() <==> !p.keyboard && !p.clipboard && !p.audio && !p.file,
{
}

} // verus!

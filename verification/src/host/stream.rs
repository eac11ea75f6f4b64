//! A session with an authorized peer: what its records mean, how the picture is
//! sent, and how capture is opened anew when it fails.
use vstd::prelude::*;
use crate::authentication::Permissions;
use crate::host;
use crate::host::{Host, HostError};
use crate::input;
use crate::input::{InputAction, decode_message};
use crate::message::{
    EncodedFrame, Message, Misc, SwitchDisplay, TestDelay, VideoFrame, VideoPayload,
};
use crate::publisher::{Codec, EncodedUnit, Encoders};

verus! {

/// What a peer can decode.
#[derive(Debug, Clone, Copy, PartialEq, Eq, Structural)]
pub struct Decoding {
    pub ability_h264: i32,
    pub ability_h265: i32,
    /// Whether the peer prefers H.264.
    pub prefers_h264: bool,
}

/// The codec of a session: H.264 where both have it and the peer prefers it, else
/// H.265 where both have it, else H.264 where both have it.
pub open spec fn common_codec(codecs: Encoders, decoding: Decoding) -> Option<Codec> {
    let h264 = codecs.h264 && decoding.ability_h264 > 0;
    let h265 = codecs.h265 && decoding.ability_h265 > 0;
    if h264 && decoding.prefers_h264 {
        Some(Codec::H264)
    } else if h265 {
        Some(Codec::H265)
    } else if h264 {
        Some(Codec::H264)
    } else {
        None
    }
}

/// The codec of a session with a peer that said what it decodes, or did not.
pub fn choose_codec(codecs: Encoders, decoding: Option<Decoding>) -> (r: Result<Codec, HostError>)
    ensures
        match r {
            Ok(codec) => decoding is Some && common_codec(codecs, decoding->0) == Some(codec),
            Err(error) => error == HostError::NoCommonCodec && (decoding is None || common_codec(
                codecs,
                decoding->0,
            ) is None),
        },
{
    match decoding {
        None => Err(HostError::NoCommonCodec),
        Some(decoding) => {
            if codecs.h264 && decoding.ability_h264 > 0 && decoding.prefers_h264 {
                Ok(Codec::H264)
            } else if codecs.h265 && decoding.ability_h265 > 0 {
                Ok(Codec::H265)
            } else if codecs.h264 && decoding.ability_h264 > 0 {
                Ok(Codec::H264)
            } else {
                Err(HostError::NoCommonCodec)
            }
        },
    }
}

/// The codec of a session is one that the host encodes and the peer decodes.
pub proof fn lemma_codec_is_common(codecs: Encoders, decoding: Decoding)
    ensures
        common_codec(codecs, decoding) == Some(Codec::H264) ==> codecs.h264
            && decoding.ability_h264 > 0,
        common_codec(codecs, decoding) == Some(Codec::H265) ==> codecs.h265
            && decoding.ability_h265 > 0,
        common_codec(codecs, decoding) is None <==> !(codecs.h264 && decoding.ability_h264 > 0)
            && !(codecs.h265 && decoding.ability_h265 > 0),
{
}

/// The capture rate of a session: what the peer asked for, if it did, but no more
/// than the screen source gives.
pub fn session_fps(limit: u32, requested: i32) -> (r: u32)
    ensures
        r == (if requested > 0 && requested < limit {
            requested as u32
        } else {
            limit
        }),
        r <= limit,
        requested > 0 ==> r <= requested,
        r == limit || r == requested && requested > 0,
{
    if requested > 0 && (requested as u32) < limit {
        requested as u32
    } else {
        limit
    }
}

/// The name of a codec.
pub open spec fn codec_name(codec: Codec) -> Seq<char> {
    match codec {
        Codec::H264 => "H264"@,
        Codec::H265 => "H265"@,
    }
}

/// The host with an authorized peer whose codec, rate and encryption are settled.
pub fn on_admitted(host: &mut Host, codec: Codec, fps: u32, encrypted: bool)
    ensures
        final(host)@ == (host::HostView {
            snapshot: host::HostSnapshotView {
                phase: "awaiting_capture_consent"@,
                connected: true,
                fps,
                encrypted,
                codec: codec_name(codec),
                ..old(host)@.snapshot
            },
            ..old(host)@
        }),
{
    host.snapshot.phase = "awaiting_capture_consent";
    host.snapshot.connected = true;
    host.snapshot.fps = fps;
    host.snapshot.encrypted = encrypted;
    host.snapshot.codec = match codec {
        Codec::H264 => "H264",
        Codec::H265 => "H265",
    };
}

/// The result of a session, from those of its sender and its reader; nothing stands
/// for one that panicked. A sender that panicked leaves it open whether capture was
/// released, and that counts before everything else.
pub fn peer_result(
    host: &mut Host,
    sent: Option<Result<(), HostError>>,
    read: Option<Result<(), HostError>>,
) -> (r: Result<(), HostError>)
    ensures
        final(host)@ == (host::HostView {
            unreclaimed: old(host).unreclaimed || sent is None,
            ..old(host)@
        }),
        r == (if sent is None || sent->0 == Err::<(), HostError>(
            HostError::ReclamationUnconfirmed,
        ) {
            Err(HostError::ReclamationUnconfirmed)
        } else if old(host).cancelled {
            Ok(())
        } else if sent->0 is Err {
            sent->0
        } else {
            match read {
                Some(result) => result,
                None => Err(HostError::TransportFailed),
            }
        }),
        r is Ok && !old(host).cancelled ==> (sent matches Some(Ok(_))) && (read matches Some(
            Ok(_),
        )),
        r is Err && old(host).cancelled ==> r->Err_0 == HostError::ReclamationUnconfirmed,
        final(host).unreclaimed && !old(host).unreclaimed ==> r->Err_0
            == HostError::ReclamationUnconfirmed && r is Err,
{
    match sent {
        None => {
            host.unreclaimed = true;
            Err(HostError::ReclamationUnconfirmed)
        },
        Some(sent) => {
            if let Err(error) = sent {
                if error == HostError::ReclamationUnconfirmed {
                    return Err(error);
                }
            }
            if host.cancelled {
                return Ok(());
            }
            if let Err(error) = sent {
                return Err(error);
            }
            match read {
                Some(result) => result,
                None => Err(HostError::TransportFailed),
            }
        },
    }
}

/// Why a record was dropped instead of answered.
#[derive(Debug, Clone, Copy, PartialEq, Eq, Structural)]
pub enum Dropped {
    /// This host has no chat.
    Chat,
    /// A display operation that a host with a single display cannot perform.
    Display,
}

/// What one record of a peer means for the session. Only a close request ends it.
#[derive(Debug)]
pub enum Disposition {
    /// Nothing to do.
    Nothing,
    /// An answer on the wire.
    Reply(Message),
    /// The encoder is asked for a key frame.
    Keyframe,
    /// Pointer, keyboard or text input.
    Input,
    /// The peer's subscription to the display of this host changed.
    Subscribed(bool),
    /// Dropped, with the reason counted.
    Dropped(Dropped),
    /// The peer asked to end the session.
    Close,
}

/// The kinds of records, without what they carry.
pub enum RecordClass {
    Nothing,
    Probe,
    Geometry,
    Keyframe,
    Input,
    Subscribed(bool),
    Dropped(Dropped),
    Close,
}

/// What a change of the subscribed displays means: another display is not served;
/// leaving display 0 counts before subscribing to it.
pub open spec fn displays_class(add: Seq<i32>, sub: Seq<i32>, set: Seq<i32>) -> RecordClass {
    if (exists|i: int| 0 <= i < add.len() && add[i] != 0) || (exists|i: int|
        0 <= i < set.len() && set[i] != 0) {
        RecordClass::Dropped(Dropped::Display)
    } else if sub.contains(0) {
        RecordClass::Subscribed(false)
    } else if add.contains(0) || set.contains(0) {
        RecordClass::Subscribed(true)
    } else {
        RecordClass::Nothing
    }
}

/// The kind of a record.
pub open spec fn class_of(message: Message) -> RecordClass {
    match message {
        Message::TestDelay(probe) => if probe.from_client {
            RecordClass::Probe
        } else {
            RecordClass::Nothing
        },
        Message::Misc(misc) => match misc {
            Misc::CloseReason => RecordClass::Close,
            Misc::RefreshVideo(wanted) => if wanted {
                RecordClass::Keyframe
            } else {
                RecordClass::Nothing
            },
            Misc::RefreshVideoDisplay(display) => if display == 0 {
                RecordClass::Keyframe
            } else {
                RecordClass::Nothing
            },
            Misc::MessageQuery { switch_display } => if switch_display == 0 {
                RecordClass::Geometry
            } else {
                RecordClass::Nothing
            },
            Misc::CaptureDisplays { add, sub, set } => displays_class(add@, sub@, set@),
            Misc::ChangeResolution => RecordClass::Dropped(Dropped::Display),
            Misc::ChangeDisplayResolution { .. } => RecordClass::Dropped(Dropped::Display),
            Misc::ChatMessage => RecordClass::Dropped(Dropped::Chat),
            _ => RecordClass::Nothing,
        },
        Message::MouseEvent(_) => RecordClass::Input,
        Message::KeyEvent(_) => RecordClass::Input,
        Message::PointerDeviceEvent => RecordClass::Input,
        _ => RecordClass::Nothing,
    }
}

/// Whether `reply` hands the probe in `message` back.
pub open spec fn echoes(reply: Message, message: Message) -> bool {
    &&& reply matches Message::TestDelay(back)
    &&& message matches Message::TestDelay(probe)
    &&& back.from_client == probe.from_client
    &&& back.payload@ == probe.payload@
}

/// The answer to a question about the display of this host.
pub open spec fn geometry_reply(width: i32, height: i32) -> Message {
    Message::Misc(
        Misc::SwitchDisplay(SwitchDisplay { display: 0, x: 0, y: 0, width, height }),
    )
}

/// Whether `disposition` is the one of `message`.
pub open spec fn disposes(
    disposition: Disposition,
    message: Message,
    width: i32,
    height: i32,
) -> bool {
    match class_of(message) {
        RecordClass::Nothing => disposition is Nothing,
        RecordClass::Probe => disposition matches Disposition::Reply(reply) && echoes(
            reply,
            message,
        ),
        RecordClass::Geometry => disposition matches Disposition::Reply(reply) && reply
            == geometry_reply(width, height),
        RecordClass::Keyframe => disposition is Keyframe,
        RecordClass::Input => disposition is Input,
        RecordClass::Subscribed(on) => disposition == Disposition::Subscribed(on),
        RecordClass::Dropped(reason) => disposition == Disposition::Dropped(reason),
        RecordClass::Close => disposition is Close,
    }
}

fn contains_zero(v: &Vec<i32>) -> (r: bool)
    ensures
        r == v@.contains(0),
{
    let mut i: usize = 0;
    while i < v.len()
        invariant
            i <= v@.len(),
            forall|j: int| 0 <= j < i ==> v@[j] != 0,
        decreases v@.len() - i,
    {
        if v[i] == 0 {
            return true;
        }
        i = i + 1;
    }
    false
}

fn contains_other(v: &Vec<i32>) -> (r: bool)
    ensures
        r == (exists|i: int| 0 <= i < v@.len() && v@[i] != 0),
{
    let mut i: usize = 0;
    while i < v.len()
        invariant
            i <= v@.len(),
            forall|j: int| 0 <= j < i ==> v@[j] == 0,
        decreases v@.len() - i,
    {
        if v[i] != 0 {
            return true;
        }
        i = i + 1;
    }
    false
}

fn echo(probe: &TestDelay) -> (r: Message)
    ensures
        echoes(r, Message::TestDelay(*probe)),
{
    let payload = vstd::slice::slice_to_vec(probe.payload.as_slice());
    Message::TestDelay(TestDelay { from_client: probe.from_client, payload })
}

/// What a record of the peer of a display of `width` by `height` means.
pub fn classify(message: &Message, width: i32, height: i32) -> (r: Disposition)
    ensures
        disposes(r, *message, width, height),
{
    match message {
        Message::TestDelay(probe) => {
            if probe.from_client {
                Disposition::Reply(echo(probe))
            } else {
                Disposition::Nothing
            }
        },
        Message::Misc(misc) => match misc {
            Misc::CloseReason => Disposition::Close,
            Misc::RefreshVideo(wanted) => {
                if *wanted {
                    Disposition::Keyframe
                } else {
                    Disposition::Nothing
                }
            },
            Misc::RefreshVideoDisplay(display) => {
                if *display == 0 {
                    Disposition::Keyframe
                } else {
                    Disposition::Nothing
                }
            },
            Misc::MessageQuery { switch_display } => {
                if *switch_display == 0 {
                    Disposition::Reply(
                        Message::Misc(
                            Misc::SwitchDisplay(
                                SwitchDisplay { display: 0, x: 0, y: 0, width, height },
                            ),
                        ),
                    )
                } else {
                    Disposition::Nothing
                }
            },
            Misc::CaptureDisplays { add, sub, set } => {
                if contains_other(add) || contains_other(set) {
                    return Disposition::Dropped(Dropped::Display);
                }
                if contains_zero(sub) {
                    return Disposition::Subscribed(false);
                }
                if contains_zero(add) || contains_zero(set) {
                    return Disposition::Subscribed(true);
                }
                Disposition::Nothing
            },
            Misc::ChangeResolution => Disposition::Dropped(Dropped::Display),
            Misc::ChangeDisplayResolution { .. } => Disposition::Dropped(Dropped::Display),
            Misc::ChatMessage => Disposition::Dropped(Dropped::Chat),
            _ => Disposition::Nothing,
        },
        Message::MouseEvent(_) => Disposition::Input,
        Message::KeyEvent(_) => Disposition::Input,
        Message::PointerDeviceEvent => Disposition::Input,
        _ => Disposition::Nothing,
    }
}

/// A close request is the only record that ends a session.
pub proof fn lemma_only_close_ends(message: Message)
    ensures
        class_of(message) is Close <==> message == Message::Misc(Misc::CloseReason),
{
}

/// What the sender of a session is told to do.
#[derive(Debug)]
pub enum Control {
    Reply(Message),
    Keyframe,
}

/// What follows from a record of the peer.
#[derive(Debug)]
pub enum RecordStep {
    /// The next record is read.
    Continue,
    /// The sender is told.
    Tell(Control),
    /// The platform is to inject an action; [`on_injected`] takes its answer.
    Inject(InputAction),
    /// The session ends.
    Close,
}

/// The host after a record. `granted` says whether input may be injected at all.
pub open spec fn host_after_record(
    before: host::HostView,
    message: Message,
    granted: bool,
) -> host::HostView {
    match class_of(message) {
        RecordClass::Subscribed(on) => host::HostView {
            snapshot: host::HostSnapshotView { video_subscribed: on, ..before.snapshot },
            ..before
        },
        RecordClass::Dropped(Dropped::Chat) => host::HostView {
            snapshot: host::HostSnapshotView {
                dropped_chat_messages: (before.snapshot.dropped_chat_messages + 1) as u64,
                ..before.snapshot
            },
            ..before
        },
        RecordClass::Dropped(Dropped::Display) => host::HostView {
            snapshot: host::HostSnapshotView {
                ignored_display_requests: (before.snapshot.ignored_display_requests + 1) as u64,
                ..before.snapshot
            },
            ..before
        },
        RecordClass::Input => if granted && input::input_of(message) is Some {
            before
        } else {
            host::HostView {
                snapshot: host::HostSnapshotView {
                    dropped_inputs: (before.snapshot.dropped_inputs + 1) as u64,
                    ..before.snapshot
                },
                ..before
            }
        },
        _ => before,
    }
}

/// Whether `step` is what follows from `message`.
pub open spec fn follows(
    step: RecordStep,
    message: Message,
    width: i32,
    height: i32,
    granted: bool,
) -> bool {
    match class_of(message) {
        RecordClass::Close => step is Close,
        RecordClass::Probe => step matches RecordStep::Tell(Control::Reply(reply)) && echoes(
            reply,
            message,
        ),
        RecordClass::Geometry => step matches RecordStep::Tell(Control::Reply(reply)) && reply
            == geometry_reply(width, height),
        RecordClass::Keyframe => step == RecordStep::Tell(Control::Keyframe),
        RecordClass::Input => if granted && input::input_of(message) is Some {
            step matches RecordStep::Inject(action) && Some(action@) == input::input_of(message)
        } else {
            step is Continue
        },
        _ => step is Continue,
    }
}

/// The record counters of a host are not exhausted.
pub open spec fn counters_have_room(snapshot: host::HostSnapshotView) -> bool {
    &&& snapshot.dropped_chat_messages < u64::MAX
    &&& snapshot.ignored_display_requests < u64::MAX
    &&& snapshot.dropped_inputs < u64::MAX
    &&& snapshot.injected_inputs < u64::MAX
    &&& snapshot.refused_inputs < u64::MAX
}

/// What follows from a record of a peer with the given permissions on a platform
/// that injects input or does not. Input without a permission, without a platform
/// that injects it or without a meaning is dropped, and the session goes on.
pub fn on_record(
    host: &mut Host,
    message: &Message,
    width: i32,
    height: i32,
    permissions: Permissions,
    input_sink: bool,
) -> (r: RecordStep)
    requires
        counters_have_room(old(host)@.snapshot),
    ensures
        follows(r, *message, width, height, input_sink && permissions.keyboard),
        final(host)@ == host_after_record(
            old(host)@,
            *message,
            input_sink && permissions.keyboard,
        ),
{
    match classify(message, width, height) {
        Disposition::Close => RecordStep::Close,
        Disposition::Reply(reply) => RecordStep::Tell(Control::Reply(reply)),
        Disposition::Keyframe => RecordStep::Tell(Control::Keyframe),
        Disposition::Subscribed(on) => {
            host.snapshot.video_subscribed = on;
            RecordStep::Continue
        },
        Disposition::Input => {
            if input_sink && permissions.keyboard {
                if let Some(action) = decode_message(message) {
                    return RecordStep::Inject(action);
                }
            }
            host.snapshot.dropped_inputs = host.snapshot.dropped_inputs + 1;
            RecordStep::Continue
        },
        Disposition::Dropped(reason) => {
            match reason {
                Dropped::Chat => {
                    host.snapshot.dropped_chat_messages = host.snapshot.dropped_chat_messages + 1;
                },
                Dropped::Display => {
                    host.snapshot.ignored_display_requests =
                    host.snapshot.ignored_display_requests + 1;
                },
            }
            RecordStep::Continue
        },
        Disposition::Nothing => RecordStep::Continue,
    }
}

/// Without the permission, or on a platform that does not inject, no record reaches
/// the platform.
pub proof fn lemma_denied_input_is_never_injected(
    step: RecordStep,
    message: Message,
    width: i32,
    height: i32,
)
    requires
        follows(step, message, width, height, false),
    ensures
        !(step is Inject),
{
}

/// Whether the platform took the action that it was asked to inject.
pub fn on_injected(host: &mut Host, taken: bool)
    requires
        counters_have_room(old(host)@.snapshot),
    ensures
        final(host)@ == (host::HostView {
            snapshot: if taken {
                host::HostSnapshotView {
                    injected_inputs: (old(host)@.snapshot.injected_inputs + 1) as u64,
                    ..old(host)@.snapshot
                }
            } else {
                host::HostSnapshotView {
                    refused_inputs: (old(host)@.snapshot.refused_inputs + 1) as u64,
                    ..old(host)@.snapshot
                }
            },
            ..old(host)@
        }),
{
    if taken {
        host.snapshot.injected_inputs = host.snapshot.injected_inputs + 1;
    } else {
        host.snapshot.refused_inputs = host.snapshot.refused_inputs + 1;
    }
}

/// Largest access unit sent.
pub const MAX_UNIT_BYTES: usize = 33_554_432;

/// Whether an access unit can be sent.
pub open spec fn sendable(unit: EncodedUnit) -> bool {
    0 < unit.data@.len() <= MAX_UNIT_BYTES && unit.pts_us >= 0
}

/// Whether `message` carries `unit` as its only frame, its time in milliseconds.
pub open spec fn carries(message: Message, unit: EncodedUnit, codec: Codec) -> bool {
    &&& message matches Message::VideoFrame(frame)
    &&& frame.display == 0
    &&& match (codec, frame.payload) {
        (Codec::H264, VideoPayload::H264(frames)) => holds(frames@, unit),
        (Codec::H265, VideoPayload::H265(frames)) => holds(frames@, unit),
        _ => false,
    }
}

/// Whether `frames` is `unit` alone.
pub open spec fn holds(frames: Seq<EncodedFrame>, unit: EncodedUnit) -> bool {
    &&& frames.len() == 1
    &&& frames[0].data@ == unit.data@
    &&& frames[0].key == unit.key
    &&& frames[0].pts == unit.pts_us / 1000
}

/// The message of an access unit.
pub fn video(unit: &EncodedUnit, codec: Codec) -> (r: Result<Message, HostError>)
    ensures
        match r {
            Ok(message) => sendable(*unit) && carries(message, *unit, codec),
            Err(error) => !sendable(*unit) && error == HostError::InvalidAccessUnit,
        },
{
    if unit.data.len() == 0 || unit.data.len() > MAX_UNIT_BYTES || unit.pts_us < 0 {
        return Err(HostError::InvalidAccessUnit);
    }
    let mut frames: Vec<EncodedFrame> = Vec::new();
    frames.push(
        EncodedFrame {
            data: vstd::slice::slice_to_vec(unit.data.as_slice()),
            key: unit.key,
            pts: unit.pts_us / 1000,
        },
    );
    let payload = match codec {
        Codec::H264 => VideoPayload::H264(frames),
        Codec::H265 => VideoPayload::H265(frames),
    };
    Ok(Message::VideoFrame(VideoFrame { display: 0, payload }))
}

/// Why a stream ended.
#[derive(Debug, Clone, Copy, PartialEq, Eq, Structural)]
pub enum StreamEnd {
    /// The session was cancelled locally.
    Cancelled,
    /// The side of the session that faces the peer is gone.
    PeerGone,
    /// The socket failed.
    Transport,
    /// Capture failed or stopped; it can be opened anew.
    Capture,
}

/// What happens to a stream.
#[derive(Debug)]
pub enum StreamEvent {
    /// The session is cancelled.
    Cancelled,
    /// The reader of the session asks for something.
    Control(Control),
    /// The reader of the session is gone.
    ReaderGone,
    /// Capture answered the request for a key frame.
    KeyframeRequested { accepted: bool },
    /// Capture has a unit.
    Unit(EncodedUnit),
    /// Capture failed or stopped.
    CaptureEnded,
    /// What was to be sent was sent, or was not.
    Sent { delivered: bool },
}

/// What a stream does next.
#[derive(Debug)]
pub enum StreamStep {
    /// Waits for the next event.
    Wait,
    /// Asks capture for a key frame.
    RequestKeyframe,
    /// Sends a message.
    Send(Message),
    /// Ends.
    End(StreamEnd),
}

/// A stream of one capture.
pub struct Stream {
    pub codec: Codec,
    /// Size of the unit that is being sent, where what is being sent is one.
    pub sending: Option<usize>,
}

/// Whether `step` is what follows from `event`.
pub open spec fn stream_step(step: StreamStep, codec: Codec, event: StreamEvent) -> bool {
    match event {
        StreamEvent::Cancelled => step == StreamStep::End(StreamEnd::Cancelled),
        StreamEvent::Control(Control::Reply(message)) => step == StreamStep::Send(message),
        StreamEvent::Control(Control::Keyframe) => step is RequestKeyframe,
        StreamEvent::ReaderGone => step == StreamStep::End(StreamEnd::PeerGone),
        StreamEvent::KeyframeRequested { accepted } => if accepted {
            step is Wait
        } else {
            step == StreamStep::End(StreamEnd::Capture)
        },
        StreamEvent::Unit(unit) => if sendable(unit) {
            step matches StreamStep::Send(message) && carries(message, unit, codec)
        } else {
            step == StreamStep::End(StreamEnd::Capture)
        },
        StreamEvent::CaptureEnded => step == StreamStep::End(StreamEnd::Capture),
        StreamEvent::Sent { delivered } => if delivered {
            step is Wait
        } else {
            step == StreamStep::End(StreamEnd::Transport)
        },
    }
}

/// What is being sent after an event.
pub open spec fn sending_after(sending: Option<usize>, event: StreamEvent) -> Option<usize> {
    match event {
        StreamEvent::Control(Control::Reply(_)) => None,
        StreamEvent::Unit(unit) => if sendable(unit) {
            Some(unit.data@.len() as usize)
        } else {
            sending
        },
        StreamEvent::Sent { delivered } => if delivered {
            None
        } else {
            sending
        },
        _ => sending,
    }
}

/// The host after an event: a unit counts once it was delivered.
pub open spec fn host_after_stream(
    before: host::HostView,
    sending: Option<usize>,
    event: StreamEvent,
) -> host::HostView {
    match (event, sending) {
        (StreamEvent::Sent { delivered: true }, Some(size)) => host::HostView {
            snapshot: host::HostSnapshotView {
                phase: "streaming"@,
                sent_units: (before.snapshot.sent_units + 1) as u64,
                sent_bytes: (before.snapshot.sent_bytes + size) as u64,
                ..before.snapshot
            },
            ..before
        },
        _ => before,
    }
}

impl Stream {
    /// A stream of units of one codec.
    pub fn new(codec: Codec) -> (r: Stream)
        ensures
            r == (Stream { codec, sending: None }),
    {
        Stream { codec, sending: None }
    }

    /// Whether capture is asked for units: a peer that left the display keeps its
    /// session and gets no more of them until it comes back.
    pub fn wants_unit(&self, host: &Host) -> (r: bool)
        ensures
            r == host.snapshot.video_subscribed,
    {
        host.snapshot.video_subscribed
    }

    /// What the stream does next.
    pub fn on_event(&mut self, host: &mut Host, event: StreamEvent) -> (r: StreamStep)
        requires
            old(host).snapshot.sent_units < u64::MAX,
            old(self).sending matches Some(size) ==> old(host).snapshot.sent_bytes + size
                <= u64::MAX,
        ensures
            stream_step(r, old(self).codec, event),
            final(self).codec == old(self).codec,
            final(self).sending == sending_after(old(self).sending, event),
            final(host)@ == host_after_stream(old(host)@, old(self).sending, event),
    {
        match event {
            StreamEvent::Cancelled => StreamStep::End(StreamEnd::Cancelled),
            StreamEvent::Control(control) => match control {
                Control::Reply(message) => {
                    self.sending = None;
                    StreamStep::Send(message)
                },
                Control::Keyframe => StreamStep::RequestKeyframe,
            },
            StreamEvent::ReaderGone => StreamStep::End(StreamEnd::PeerGone),
            StreamEvent::KeyframeRequested { accepted } => {
                if accepted {
                    StreamStep::Wait
                } else {
                    StreamStep::End(StreamEnd::Capture)
                }
            },
            StreamEvent::Unit(unit) => {
                match video(&unit, self.codec) {
                    Ok(message) => {
                        self.sending = Some(unit.data.len());
                        StreamStep::Send(message)
                    },
                    Err(_) => StreamStep::End(StreamEnd::Capture),
                }
            },
            StreamEvent::CaptureEnded => StreamStep::End(StreamEnd::Capture),
            StreamEvent::Sent { delivered } => {
                if !delivered {
                    return StreamStep::End(StreamEnd::Transport);
                }
                if let Some(size) = self.sending {
                    host.snapshot.phase = "streaming";
                    host.snapshot.sent_units = host.snapshot.sent_units + 1;
                    host.snapshot.sent_bytes = host.snapshot.sent_bytes + size as u64;
                }
                self.sending = None;
                StreamStep::Wait
            },
        }
    }
}

/// The wait before capture is opened anew, in milliseconds: longer with each restart
/// up to the fifth.
pub open spec fn backoff(restarts: u32) -> int {
    500 * ((if restarts < 4 {
        restarts
    } else {
        4
    }) + 1)
}

/// The wait before capture is opened anew, in milliseconds.
pub fn backoff_millis(restarts: u32) -> (r: u64)
    ensures
        r == backoff(restarts),
{
    let counted: u64 = if restarts < 4 {
        restarts as u64
    } else {
        4
    };
    500 * (counted + 1)
}

/// The wait never falls and never exceeds two and a half seconds.
pub proof fn lemma_backoff_is_bounded(fewer: u32, more: u32)
    requires
        fewer <= more,
    ensures
        500 <= backoff(fewer) <= backoff(more) <= 2500,
{
}

/// What happens while a session publishes its picture.
#[derive(Debug, Clone, Copy, PartialEq, Eq, Structural)]
pub enum PublishEvent {
    /// It begins; the session may be cancelled already.
    Started { cancelled: bool },
    /// Capture is open.
    Opened,
    /// Capture could not be opened; `unconfirmed` says that it may hold on to
    /// native resources all the same.
    OpenFailed { unconfirmed: bool },
    /// A stream ended, and capture was released or could not be.
    StreamEnded { end: StreamEnd, released: bool },
    /// The wait is over, or was cancelled.
    Waited { cancelled: bool },
}

/// What publishing does next.
#[derive(Debug, Clone, Copy, PartialEq, Eq)]
pub enum PublishStep {
    /// Opens capture.
    Open,
    /// Streams from it.
    Stream,
    /// Waits so many milliseconds.
    Wait(u64),
    /// Is over.
    Done(Result<(), HostError>),
}

/// How often capture was opened anew.
pub struct Publish {
    pub restarts: u32,
}

/// The step after an event.
pub open spec fn publish_step(restarts: u32, event: PublishEvent) -> PublishStep {
    match event {
        PublishEvent::Started { cancelled } => if cancelled {
            PublishStep::Done(Ok(()))
        } else {
            PublishStep::Open
        },
        PublishEvent::Opened => PublishStep::Stream,
        PublishEvent::OpenFailed { unconfirmed } => if unconfirmed {
            PublishStep::Done(Err(HostError::ReclamationUnconfirmed))
        } else {
            PublishStep::Wait(backoff(restarts) as u64)
        },
        PublishEvent::StreamEnded { end, released } => if !released {
            PublishStep::Done(Err(HostError::ReclamationUnconfirmed))
        } else {
            match end {
                StreamEnd::Cancelled => PublishStep::Done(Ok(())),
                StreamEnd::PeerGone => PublishStep::Done(Ok(())),
                StreamEnd::Transport => PublishStep::Done(Err(HostError::TransportFailed)),
                StreamEnd::Capture => PublishStep::Wait(backoff(restarts) as u64),
            }
        },
        PublishEvent::Waited { cancelled } => if cancelled {
            PublishStep::Done(Ok(()))
        } else {
            PublishStep::Open
        },
    }
}

/// Whether an event leaves it open that native resources are free.
pub open spec fn leaves_unreclaimed(event: PublishEvent) -> bool {
    match event {
        PublishEvent::OpenFailed { unconfirmed } => unconfirmed,
        PublishEvent::StreamEnded { released, .. } => !released,
        _ => false,
    }
}

/// Whether an event is a failure of capture that is answered by opening it anew.
pub open spec fn restarts_capture(event: PublishEvent) -> bool {
    match event {
        PublishEvent::OpenFailed { unconfirmed } => !unconfirmed,
        PublishEvent::StreamEnded { end, released } => released && end is Capture,
        _ => false,
    }
}

impl Publish {
    /// Nothing was opened yet.
    pub fn new() -> (r: Publish)
        ensures
            r.restarts == 0,
    {
        Publish { restarts: 0 }
    }

    /// What publishing does next. A capture that fails or ends does not end the
    /// session; one that cannot be confirmed to be released does, and for good.
    pub fn on_event(&mut self, host: &mut Host, event: PublishEvent) -> (r: PublishStep)
        requires
            old(self).restarts < u32::MAX,
            old(host).snapshot.capture_restarts < u64::MAX,
        ensures
            r == publish_step(old(self).restarts, event),
            final(self).restarts == (if event == (PublishEvent::Waited { cancelled: false }) {
                (old(self).restarts + 1) as u32
            } else {
                old(self).restarts
            }),
            final(host)@ == (host::HostView {
                unreclaimed: old(host).unreclaimed || leaves_unreclaimed(event),
                snapshot: host::HostSnapshotView {
                    capture_restarts: if restarts_capture(event) {
                        (old(host)@.snapshot.capture_restarts + 1) as u64
                    } else {
                        old(host)@.snapshot.capture_restarts
                    },
                    ..old(host)@.snapshot
                },
                ..old(host)@
            }),
    {
        match event {
            PublishEvent::Started { cancelled } => {
                if cancelled {
                    PublishStep::Done(Ok(()))
                } else {
                    PublishStep::Open
                }
            },
            PublishEvent::Opened => PublishStep::Stream,
            PublishEvent::OpenFailed { unconfirmed } => {
                if unconfirmed {
                    host.unreclaimed = true;
                    return PublishStep::Done(Err(HostError::ReclamationUnconfirmed));
                }
                host.snapshot.capture_restarts = host.snapshot.capture_restarts + 1;
                PublishStep::Wait(backoff_millis(self.restarts))
            },
            PublishEvent::StreamEnded { end, released } => {
                if !released {
                    host.unreclaimed = true;
                    return PublishStep::Done(Err(HostError::ReclamationUnconfirmed));
                }
                match end {
                    StreamEnd::Cancelled => PublishStep::Done(Ok(())),
                    StreamEnd::PeerGone => PublishStep::Done(Ok(())),
                    StreamEnd::Transport => PublishStep::Done(Err(HostError::TransportFailed)),
                    StreamEnd::Capture => {
                        host.snapshot.capture_restarts = host.snapshot.capture_restarts + 1;
                        PublishStep::Wait(backoff_millis(self.restarts))
                    },
                }
            },
            PublishEvent::Waited { cancelled } => {
                if cancelled {
                    return PublishStep::Done(Ok(()));
                }
                self.restarts = self.restarts + 1;
                PublishStep::Open
            },
        }
    }
}

/// A failure of capture never ends the session: it is answered with a wait, and
/// the wait with opening capture anew.
pub proof fn lemma_capture_failure_keeps_session(restarts: u32, event: PublishEvent)
    requires
        restarts_capture(event),
    ensures
        publish_step(restarts, event) is Wait,
        publish_step(restarts, PublishEvent::Waited { cancelled: false }) is Open,
{
}

} // verus!

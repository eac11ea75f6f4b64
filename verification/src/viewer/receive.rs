//! What the messages of a peer do to a viewer that is logged in.
use std::collections::VecDeque;
use std::io::Read;
use vstd::prelude::*;
use crate::authentication::Permissions;
use crate::host::stream;
use crate::message::{
    Clipboard, EncodedFrame, ImageQuality, Message, Misc, OptionMessage, PeerInfo, Permission,
    TestDelay, VideoFrame, VideoPayload,
};
use crate::platform::ohos_decoder::VideoCodec;
use crate::text;
use crate::viewer;
use crate::viewer::login;
use crate::viewer::login::Decoders;
use crate::viewer::{Geometry, QueueState, Viewer, ViewerError, ViewerImageQuality};

verus! {

/// Most video records between the peer and the decoder.
pub const VIDEO_RECORDS: usize = 2;

/// Most bytes of video between the peer and the decoder.
pub const VIDEO_BYTES: usize = 33_554_432;

/// Most frames of one record.
pub const MAX_UNITS_PER_RECORD: usize = 256;

/// Bound for one clipboard text that comes in, in bytes and uncompressed.
pub const MAX_INBOUND_CLIPBOARD_TEXT: usize = 4_194_304;

/// How many clipboard texts wait to be read.
pub const CLIPBOARD_QUEUE: usize = 4;

/// Frames of one codec for one display, and their bytes in all.
#[derive(Debug)]
pub struct VideoRecord {
    pub codec: VideoCodec,
    pub geometry: Geometry,
    pub frames: Vec<EncodedFrame>,
    pub bytes: usize,
}

/// What follows from a message.
#[derive(Debug)]
pub enum ReceiveStep {
    /// The next message is read.
    Continue,
    /// A record goes to the decoder.
    Video(VideoRecord),
    /// A probe goes back.
    Reply(Message),
    /// The session ends.
    Failed(ViewerError),
}

/// What the peer shows, and what is decoded.
pub struct Receiver {
    pub source: Geometry,
    pub caps: Decoders,
}

/// The viewer once the peer let it in: what the connection is and what the peer
/// allows. A peer that reports no sensible display is refused after all.
pub open spec fn admitted(
    v: viewer::ViewerView,
    encrypted: bool,
    peer_verified: bool,
    info: Option<PeerInfo>,
    permissions: Permissions,
) -> viewer::ViewerView {
    let secured = v.secured(encrypted, peer_verified);
    match admitted_geometry(info) {
        None => secured,
        Some(source) => viewer::ViewerView {
            peer_info: info,
            remote_keyboard: permissions.keyboard,
            remote_clipboard: permissions.clipboard,
            authenticated: true,
            control: true,
            ..secured.showing(source).in_phase("authenticated"@)
        },
    }
}

/// The display that a peer reports on admission, if it reports a sensible one.
pub open spec fn admitted_geometry(info: Option<PeerInfo>) -> Option<Geometry> {
    match info {
        Some(info) => login::current_geometry(info.current_display, info.displays@),
        None => None,
    }
}

/// The peer let the viewer in.
pub fn on_admitted(
    viewer: &mut Viewer,
    encrypted: bool,
    peer_verified: bool,
    info: Option<PeerInfo>,
    permissions: Permissions,
) -> (r: Result<Geometry, ViewerError>)
    ensures
        final(viewer)@ == admitted(old(viewer)@, encrypted, peer_verified, info, permissions),
        match r {
            Ok(source) => admitted_geometry(info) == Some(source),
            Err(error) => admitted_geometry(info) is None && error
                == ViewerError::InvalidPeerGeometry,
        },
{
    viewer.security(encrypted, peer_verified);
    match info {
        None => Err(ViewerError::InvalidPeerGeometry),
        Some(info) => match login::geometry(&info) {
            Err(error) => Err(error),
            Ok(source) => {
                viewer.geometry(source);
                viewer.phase("authenticated");
                viewer.granted(info, permissions.keyboard, permissions.clipboard);
                Ok(source)
            },
        },
    }
}

/// The bytes of frames in all.
pub open spec fn total_bytes(frames: Seq<EncodedFrame>) -> nat
    decreases frames.len(),
{
    if frames.len() == 0 {
        0
    } else {
        total_bytes(frames.drop_last()) + frames.last().data@.len()
    }
}

/// The codec and the frames of a video message, where they can be decoded.
pub open spec fn decodable(payload: VideoPayload, caps: Decoders) -> Option<
    (VideoCodec, Seq<EncodedFrame>),
> {
    match payload {
        VideoPayload::H264(frames) => if caps.h264 {
            Some((VideoCodec::H264, frames@))
        } else {
            None
        },
        VideoPayload::H265(frames) => if caps.h265 {
            Some((VideoCodec::H265, frames@))
        } else {
            None
        },
        VideoPayload::Other => None,
    }
}

/// Whether no frame is empty.
pub open spec fn no_empty_frame(frames: Seq<EncodedFrame>) -> bool {
    forall|i: int| 0 <= i < frames.len() ==> (#[trigger] frames[i]).data@.len() > 0
}

/// What is wrong with a video message, if anything is. One without frames is fine
/// and does nothing.
pub open spec fn video_fault(
    frame: VideoFrame,
    source: Geometry,
    caps: Decoders,
) -> Option<ViewerError> {
    if frame.display != source.display {
        Some(ViewerError::InvalidPeerGeometry)
    } else {
        match decodable(frame.payload, caps) {
            None => Some(ViewerError::UnsupportedCodec),
            Some((_, frames)) => if frames.len() == 0 {
                None
            } else if frames.len() > MAX_UNITS_PER_RECORD || !no_empty_frame(frames) {
                Some(ViewerError::InvalidVideoRecord)
            } else if total_bytes(frames) > VIDEO_BYTES {
                Some(ViewerError::VideoRecordTooLarge)
            } else {
                None
            },
        }
    }
}

/// Whether `record` holds the frames of a message for the display that is shown.
pub open spec fn records(
    record: VideoRecord,
    frame: VideoFrame,
    source: Geometry,
    caps: Decoders,
) -> bool {
    &&& decodable(frame.payload, caps) == Some((record.codec, record.frames@))
    &&& record.geometry == source
    &&& record.bytes == total_bytes(record.frames@)
}

/// What `zstd` makes of compressed data when at most `cap` bytes are read.
pub uninterp spec fn decompressed_prefix(data: Seq<u8>, cap: nat) -> Option<Seq<u8>>;

/// `zstd::Decoder`, read to the end of the data or up to `cap` bytes, whichever
/// comes first; nothing where it reports an error before that. What the bytes are
/// is left to the name.
#[verifier::external_body]
fn read_decompressed(data: &[u8], cap: u64) -> (r: Option<Vec<u8>>)
    ensures
        match r {
            Some(output) => decompressed_prefix(data@, cap as nat) == Some(output@) && output@.len()
                <= cap,
            None => decompressed_prefix(data@, cap as nat) is None,
        },
{
    let decoder = zstd::Decoder::new(data).ok()?;
    let mut output = Vec::new();
    decoder.take(cap).read_to_end(&mut output).ok()?;
    Some(output)
}

/// Why data is not decompressed.
#[derive(Debug, Clone, Copy, PartialEq, Eq, Structural)]
pub enum DecompressError {
    /// It is not what it should be.
    Invalid,
    /// There is more of it than allowed.
    TooLarge,
}

/// What was read of compressed data, where it is no more than `limit` bytes.
pub fn within_limit(output: Option<Vec<u8>>, limit: usize) -> (r: Result<Vec<u8>, DecompressError>)
    ensures
        match (output, r) {
            (None, r) => r == Err::<Vec<u8>, DecompressError>(DecompressError::Invalid),
            (Some(output), Ok(kept)) => output@.len() <= limit && kept == output,
            (Some(output), Err(error)) => output@.len() > limit && error
                == DecompressError::TooLarge,
        },
{
    match output {
        None => Err(DecompressError::Invalid),
        Some(output) => {
            if output.len() > limit {
                return Err(DecompressError::TooLarge);
            }
            Ok(output)
        },
    }
}

/// How many bytes are read of data that may be `limit` bytes long: one more.
pub open spec fn read_cap(limit: usize) -> nat {
    if limit == usize::MAX {
        limit as nat
    } else {
        (limit + 1) as nat
    }
}

/// Compressed data as it was, where it is no more than `limit` bytes. No more than
/// one byte beyond the limit is ever produced.
pub fn decompress_with_limit(data: &[u8], limit: usize) -> (r: Result<Vec<u8>, DecompressError>)
    ensures
        match (decompressed_prefix(data@, read_cap(limit)), r) {
            (None, r) => r == Err::<Vec<u8>, DecompressError>(DecompressError::Invalid),
            (Some(output), Ok(kept)) => output.len() <= limit && kept@ == output,
            (Some(output), Err(error)) => output.len() > limit && error
                == DecompressError::TooLarge,
        },
{
    let cap: u64 = if limit == usize::MAX {
        limit as u64
    } else {
        limit as u64 + 1
    };
    within_limit(read_decompressed(data, cap), limit)
}

/// The text of raw clipboard bytes: not empty, not too long, and valid.
pub open spec fn raw_text(raw: Seq<u8>) -> Option<Seq<char>> {
    if 0 < raw.len() <= MAX_INBOUND_CLIPBOARD_TEXT && vstd::utf8::valid_utf8(raw) {
        Some(vstd::utf8::decode_utf8(raw))
    } else {
        None
    }
}

/// The text of a clipboard entry, if it has one that is accepted. `output` is what
/// its content decompresses to.
pub open spec fn entry_text(entry: Clipboard, output: Option<Seq<u8>>) -> Option<Seq<char>> {
    if !entry.is_text || entry.content@.len() > MAX_INBOUND_CLIPBOARD_TEXT {
        None
    } else if entry.compress {
        match output {
            Some(raw) => raw_text(raw),
            None => None,
        }
    } else {
        raw_text(entry.content@)
    }
}

/// The text of a clipboard entry, if it has one that is accepted.
pub open spec fn accepted_text(entry: Clipboard) -> Option<Seq<char>> {
    entry_text(
        entry,
        decompressed_prefix(entry.content@, read_cap(MAX_INBOUND_CLIPBOARD_TEXT)),
    )
}

/// The text of raw clipboard bytes.
pub fn inbound_text(raw: Vec<u8>) -> (r: Option<String>)
    ensures
        match r {
            Some(text) => raw_text(raw@) == Some(text@),
            None => raw_text(raw@) is None,
        },
{
    if raw.len() == 0 || raw.len() > MAX_INBOUND_CLIPBOARD_TEXT {
        return None;
    }
    text::utf8_text(raw)
}

fn clipboard_text(entry: &Clipboard) -> (r: Option<String>)
    ensures
        match r {
            Some(text) => accepted_text(*entry) == Some(text@),
            None => accepted_text(*entry) is None,
        },
{
    if !entry.is_text || entry.content.len() > MAX_INBOUND_CLIPBOARD_TEXT {
        return None;
    }
    if entry.compress {
        match decompress_with_limit(entry.content.as_slice(), MAX_INBOUND_CLIPBOARD_TEXT) {
            Ok(raw) => inbound_text(raw),
            Err(_) => None,
        }
    } else {
        inbound_text(vstd::slice::slice_to_vec(entry.content.as_slice()))
    }
}

/// The waiting texts after one more; where too many wait, the oldest is dropped.
pub open spec fn queued(waiting: Seq<Seq<char>>, text: Seq<char>) -> Seq<Seq<char>> {
    if waiting.len() >= CLIPBOARD_QUEUE {
        waiting.skip(1).push(text)
    } else {
        waiting.push(text)
    }
}

/// The waiting texts after all of `entries`.
pub open spec fn queued_all(waiting: Seq<Seq<char>>, entries: Seq<Clipboard>) -> Seq<Seq<char>>
    decreases entries.len(),
{
    if entries.len() == 0 {
        waiting
    } else {
        let before = queued_all(waiting, entries.drop_last());
        match accepted_text(entries.last()) {
            Some(text) => queued(before, text),
            None => before,
        }
    }
}

/// The viewer after clipboard entries came in: only texts are kept, and only where
/// the user lets the clipboard be used.
pub open spec fn with_clipboard(v: viewer::ViewerView, entries: Seq<Clipboard>) -> viewer::ViewerView {
    if v.local_clipboard {
        viewer::ViewerView { clipboard: queued_all(v.clipboard, entries), ..v }
    } else {
        v
    }
}

fn queue_text(waiting: &mut VecDeque<String>, entry_text: String)
    ensures
        text::texts(final(waiting)@) == queued(text::texts(old(waiting)@), entry_text@),
{
    let ghost t = entry_text@;
    let ghost before = text::texts(waiting@);
    if waiting.len() >= CLIPBOARD_QUEUE {
        let _ = waiting.pop_front();
        assert(text::texts(waiting@) =~= before.skip(1));
    }
    waiting.push_back(entry_text);
    assert(text::texts(waiting@) =~= queued(before, t));
}

/// Keeps the texts of clipboard entries that came in.
pub fn store_inbound_clipboard(viewer: &mut Viewer, entries: &[Clipboard])
    ensures
        final(viewer)@ == with_clipboard(old(viewer)@, entries@),
{
    if !viewer.local_clipboard {
        return;
    }
    let ghost start = viewer@;
    let mut i: usize = 0;
    assert(entries@.take(0) =~= Seq::<Clipboard>::empty());
    while i < entries.len()
        invariant
            i <= entries@.len(),
            viewer@ == (viewer::ViewerView {
                clipboard: queued_all(start.clipboard, entries@.take(i as int)),
                ..start
            }),
        decreases entries@.len() - i,
    {
        proof {
            assert(entries@.take(i + 1).drop_last() =~= entries@.take(i as int));
        }
        if let Some(found) = clipboard_text(&entries[i]) {
            queue_text(&mut viewer.clipboard, found);
        }
        i = i + 1;
    }
    assert(entries@.take(i as int) =~= entries@);
}

/// No more texts wait than the queue holds.
pub proof fn lemma_clipboard_is_bounded(waiting: Seq<Seq<char>>, entries: Seq<Clipboard>)
    requires
        waiting.len() <= CLIPBOARD_QUEUE,
    ensures
        queued_all(waiting, entries).len() <= CLIPBOARD_QUEUE,
    decreases entries.len(),
{
    if entries.len() > 0 {
        lemma_clipboard_is_bounded(waiting, entries.drop_last());
    }
}

/// Data that is too long once decompressed is never kept, and data of exactly the
/// limit is.
pub proof fn lemma_oversize_is_refused(entry: Clipboard, output: Seq<u8>)
    requires
        entry.is_text,
        entry.compress,
        entry.content@.len() <= MAX_INBOUND_CLIPBOARD_TEXT,
    ensures
        output.len() > MAX_INBOUND_CLIPBOARD_TEXT ==> entry_text(entry, Some(output)) is None,
        0 < output.len() <= MAX_INBOUND_CLIPBOARD_TEXT && vstd::utf8::valid_utf8(output)
            ==> entry_text(entry, Some(output)) is Some,
{
}

/// The quality after a report of the peer: a preset where it names one, and a
/// number where it gives one, which counts more.
pub open spec fn reported_quality(
    quality: ViewerImageQuality,
    option: OptionMessage,
) -> ViewerImageQuality {
    if option.custom_image_quality > 0 {
        ViewerImageQuality::Custom(option.custom_image_quality)
    } else {
        match option.image_quality {
            ImageQuality::Low => ViewerImageQuality::Low,
            ImageQuality::Balanced => ViewerImageQuality::Balanced,
            ImageQuality::Best => ViewerImageQuality::Best,
            _ => quality,
        }
    }
}

/// The viewer and the display that is shown, after one of the small messages; the
/// last part is why the session ends, if it does.
pub open spec fn after_misc(v: viewer::ViewerView, source: Geometry, misc: Misc) -> (
    viewer::ViewerView,
    Geometry,
    Option<ViewerError>,
) {
    match misc {
        Misc::PermissionInfo { permission, enabled } => match permission {
            Permission::Keyboard => (
                viewer::ViewerView { remote_keyboard: enabled, ..v },
                source,
                None,
            ),
            Permission::Clipboard => (
                viewer::ViewerView { remote_clipboard: enabled, ..v },
                source,
                None,
            ),
            Permission::Other => (v, source, None),
        },
        Misc::CloseReason => (v, source, Some(ViewerError::RemoteClosed)),
        Misc::SwitchDisplay(d) => if d.width <= 0 || d.height <= 0 || d.display < 0 {
            (v, source, Some(ViewerError::InvalidPeerGeometry))
        } else {
            let shown = Geometry {
                display: d.display,
                x: d.x,
                y: d.y,
                width: d.width,
                height: d.height,
            };
            (v.showing(shown), shown, None)
        },
        Misc::Options(option) => (
            viewer::ViewerView {
                image_quality: reported_quality(v.image_quality, option),
                requested_fps: if option.custom_fps > 0 {
                    option.custom_fps as u32
                } else {
                    v.requested_fps
                },
                ..v
            },
            source,
            None,
        ),
        _ => (v, source, None),
    }
}

/// The viewer and the display that is shown, after a message.
pub open spec fn after_message(
    v: viewer::ViewerView,
    source: Geometry,
    caps: Decoders,
    message: Message,
) -> (viewer::ViewerView, Geometry) {
    match message {
        Message::VideoFrame(frame) => match decodable(frame.payload, caps) {
            Some((_, frames)) => if video_fault(frame, source, caps) is None {
                (v.received(frames.len()), source)
            } else {
                (v, source)
            },
            None => (v, source),
        },
        Message::Misc(misc) => {
            let after = after_misc(v, source, misc);
            (after.0, after.1)
        },
        Message::Clipboard(entry) => (with_clipboard(v, seq![entry]), source),
        Message::MultiClipboards(entries) => (with_clipboard(v, entries@), source),
        _ => (v, source),
    }
}

/// Whether `step` is what follows from a message.
pub open spec fn receive_step(
    step: ReceiveStep,
    v: viewer::ViewerView,
    source: Geometry,
    caps: Decoders,
    message: Message,
    queue: QueueState,
) -> bool {
    match message {
        Message::VideoFrame(frame) => match video_fault(frame, source, caps) {
            Some(error) => step == ReceiveStep::Failed(error),
            None => if (decodable(frame.payload, caps)->0).1.len() == 0 {
                step is Continue
            } else {
                step matches ReceiveStep::Video(record) && records(record, frame, source, caps)
            },
        },
        Message::TestDelay(probe) => if probe.from_client {
            step is Continue
        } else if viewer::queue_refusal(queue) is Some {
            step == ReceiveStep::Failed(ViewerError::Backpressure)
        } else {
            step matches ReceiveStep::Reply(reply) && stream::echoes(reply, message)
        },
        Message::Misc(misc) => match after_misc(v, source, misc).2 {
            Some(error) => step == ReceiveStep::Failed(error),
            None => step is Continue,
        },
        _ => step is Continue,
    }
}

fn any_empty(frames: &Vec<EncodedFrame>) -> (r: bool)
    ensures
        r == !no_empty_frame(frames@),
{
    let mut i: usize = 0;
    while i < frames.len()
        invariant
            i <= frames@.len(),
            forall|j: int| 0 <= j < i ==> (#[trigger] frames@[j]).data@.len() > 0,
        decreases frames@.len() - i,
    {
        if frames[i].data.len() == 0 {
            return true;
        }
        i = i + 1;
    }
    false
}

fn sum_bytes(frames: &Vec<EncodedFrame>) -> (r: u128)
    requires
        frames@.len() <= MAX_UNITS_PER_RECORD,
    ensures
        r == total_bytes(frames@),
{
    let mut sum: u128 = 0;
    let mut i: usize = 0;
    assert(frames@.take(0) =~= Seq::<EncodedFrame>::empty());
    while i < frames.len()
        invariant
            i <= frames@.len(),
            frames@.len() <= MAX_UNITS_PER_RECORD,
            sum == total_bytes(frames@.take(i as int)),
            sum <= i * usize::MAX,
        decreases frames@.len() - i,
    {
        proof {
            assert(frames@.take(i + 1).drop_last() =~= frames@.take(i as int));
            assert(i * usize::MAX <= 256 * usize::MAX) by (nonlinear_arith)
                requires
                    i <= 256,
            ;
            assert((i + 1) * usize::MAX == i * usize::MAX + usize::MAX) by (nonlinear_arith);
        }
        sum = sum + frames[i].data.len() as u128;
        i = i + 1;
    }
    assert(frames@.take(i as int) =~= frames@);
    sum
}

impl Receiver {
    fn video(&self, viewer: &mut Viewer, frame: VideoFrame) -> (r: ReceiveStep)
        requires
            old(viewer).snapshot.received_units + MAX_UNITS_PER_RECORD <= u64::MAX,
        ensures
            receive_step(
                r,
                old(viewer)@,
                self.source,
                self.caps,
                Message::VideoFrame(frame),
                QueueState { closed: false, room: 0 },
            ),
            final(viewer)@ == after_message(
                old(viewer)@,
                self.source,
                self.caps,
                Message::VideoFrame(frame),
            ).0,
    {
        if frame.display != self.source.display {
            return ReceiveStep::Failed(ViewerError::InvalidPeerGeometry);
        }
        let (codec, frames) = match frame.payload {
            VideoPayload::H264(frames) => {
                if !self.caps.h264 {
                    return ReceiveStep::Failed(ViewerError::UnsupportedCodec);
                }
                (VideoCodec::H264, frames)
            },
            VideoPayload::H265(frames) => {
                if !self.caps.h265 {
                    return ReceiveStep::Failed(ViewerError::UnsupportedCodec);
                }
                (VideoCodec::H265, frames)
            },
            VideoPayload::Other => {
                return ReceiveStep::Failed(ViewerError::UnsupportedCodec);
            },
        };
        if frames.len() == 0 {
            return ReceiveStep::Continue;
        }
        if frames.len() > MAX_UNITS_PER_RECORD || any_empty(&frames) {
            return ReceiveStep::Failed(ViewerError::InvalidVideoRecord);
        }
        let bytes: u128 = sum_bytes(&frames);
        if bytes > VIDEO_BYTES as u128 {
            return ReceiveStep::Failed(ViewerError::VideoRecordTooLarge);
        }
        viewer.units(frames.len());
        ReceiveStep::Video(
            VideoRecord { codec, geometry: self.source, frames, bytes: bytes as usize },
        )
    }

    fn small(&mut self, viewer: &mut Viewer, misc: Misc) -> (r: ReceiveStep)
        ensures
            ({
                let after = after_misc(old(viewer)@, old(self).source, misc);
                &&& final(viewer)@ == after.0
                &&& final(self).source == after.1
                &&& final(self).caps == old(self).caps
                &&& match after.2 {
                    Some(error) => r == ReceiveStep::Failed(error),
                    None => r is Continue,
                }
            }),
    {
        match misc {
            Misc::PermissionInfo { permission, enabled } => {
                match permission {
                    Permission::Keyboard => {
                        viewer.remote_keyboard = enabled;
                    },
                    Permission::Clipboard => {
                        viewer.remote_clipboard = enabled;
                    },
                    Permission::Other => {},
                }
                ReceiveStep::Continue
            },
            Misc::CloseReason => ReceiveStep::Failed(ViewerError::RemoteClosed),
            Misc::SwitchDisplay(d) => {
                if d.width <= 0 || d.height <= 0 || d.display < 0 {
                    return ReceiveStep::Failed(ViewerError::InvalidPeerGeometry);
                }
                self.source =
                Geometry { display: d.display, x: d.x, y: d.y, width: d.width, height: d.height };
                viewer.geometry(self.source);
                ReceiveStep::Continue
            },
            Misc::Options(option) => {
                match option.image_quality {
                    ImageQuality::Low => {
                        viewer.image_quality = ViewerImageQuality::Low;
                    },
                    ImageQuality::Balanced => {
                        viewer.image_quality = ViewerImageQuality::Balanced;
                    },
                    ImageQuality::Best => {
                        viewer.image_quality = ViewerImageQuality::Best;
                    },
                    _ => {},
                }
                if option.custom_image_quality > 0 {
                    viewer.image_quality = ViewerImageQuality::Custom(option.custom_image_quality);
                }
                if option.custom_fps > 0 {
                    viewer.requested_fps = option.custom_fps as u32;
                }
                ReceiveStep::Continue
            },
            _ => ReceiveStep::Continue,
        }
    }

    /// What follows from a message. `queue` is the queue for controls.
    pub fn on_message(&mut self, viewer: &mut Viewer, message: Message, queue: QueueState) -> (r:
        ReceiveStep)
        requires
            old(viewer).snapshot.received_units + MAX_UNITS_PER_RECORD <= u64::MAX,
        ensures
            receive_step(r, old(viewer)@, old(self).source, old(self).caps, message, queue),
            final(viewer)@ == after_message(
                old(viewer)@,
                old(self).source,
                old(self).caps,
                message,
            ).0,
            final(self).source == after_message(
                old(viewer)@,
                old(self).source,
                old(self).caps,
                message,
            ).1,
            final(self).caps == old(self).caps,
    {
        match message {
            Message::VideoFrame(frame) => self.video(viewer, frame),
            Message::TestDelay(probe) => {
                if probe.from_client {
                    return ReceiveStep::Continue;
                }
                if queue.closed || queue.room == 0 {
                    return ReceiveStep::Failed(ViewerError::Backpressure);
                }
                ReceiveStep::Reply(
                    Message::TestDelay(
                        TestDelay { from_client: probe.from_client, payload: probe.payload },
                    ),
                )
            },
            Message::Misc(misc) => self.small(viewer, misc),
            Message::Clipboard(entry) => {
                let mut entries: Vec<Clipboard> = Vec::new();
                entries.push(entry);
                assert(entries@ =~= seq![entry]);
                store_inbound_clipboard(viewer, entries.as_slice());
                ReceiveStep::Continue
            },
            Message::MultiClipboards(entries) => {
                store_inbound_clipboard(viewer, entries.as_slice());
                ReceiveStep::Continue
            },
            _ => ReceiveStep::Continue,
        }
    }
}

/// Whether a message is written at the time it gets its turn. Input is checked
/// anew then, so that none outlives its permission.
pub fn may_write(viewer: &Viewer, input: bool) -> (r: bool)
    ensures
        r == (input ==> viewer.authenticated && viewer.remote_keyboard),
{
    !input || (viewer.authenticated && viewer.remote_keyboard)
}

/// A peer cannot let itself in or open a gate of the local user: no message changes
/// whether the viewer is logged in, is closing, or lets its clipboard be used.
pub proof fn lemma_messages_keep_local_gates(
    v: viewer::ViewerView,
    source: Geometry,
    caps: Decoders,
    message: Message,
)
    ensures
        ({
            let after = after_message(v, source, caps, message).0;
            &&& after.authenticated == v.authenticated
            &&& after.cancelled == v.cancelled
            &&& after.local_clipboard == v.local_clipboard
            &&& after.control == v.control
            &&& after.decoder == v.decoder
            &&& after.resources_unconfirmed == v.resources_unconfirmed
        }),
{
}

/// The display that is shown always has a positive size.
pub proof fn lemma_source_stays_positive(
    v: viewer::ViewerView,
    source: Geometry,
    caps: Decoders,
    message: Message,
)
    requires
        source.width > 0,
        source.height > 0,
    ensures
        after_message(v, source, caps, message).1.width > 0,
        after_message(v, source, caps, message).1.height > 0,
{
}

} // verus!

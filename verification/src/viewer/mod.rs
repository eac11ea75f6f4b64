//! A viewer of a remote screen.
//!
//! A viewer logs in to a peer, receives its picture, hands it to a decoder, and
//! sends input and clipboard text as far as both sides allow. What is sent is
//! returned as messages; queues and sockets belong to the caller.
//! - [`keys`] names keys.
//! - [`login`] is the exchange until the peer lets the viewer in.
//! - [`receive`] is what the messages of the peer do.
//! - [`feed`] hands video to the decoder and brings a session to its end.
use std::collections::VecDeque;
use vstd::prelude::*;
use crate::control_key::ControlKey;
use crate::host::Address;
use crate::message::{
    Clipboard, ImageQuality, KeyEvent, KeyPayload, KeyboardMode, Message, Misc, MouseEvent,
    OptionMessage, PeerInfo, SwitchDisplay,
};
use crate::platform::ohos_decoder;
use crate::platform::ohos_decoder::{AccessUnit, DecoderError, DecoderStats, VideoCodec};
use crate::platform::ohos_worker;
use crate::platform::ohos_worker::{Submission, SurfaceDecoder};
use crate::rdp::RdpError;
use crate::text;
use crate::viewer::keys::ViewerKey;
use crate::vnc::VncError;

pub mod feed;
pub mod keys;
pub mod laws;
pub mod login;
pub mod receive;

verus! {

/// Most outgoing messages that wait at once.
pub const COMMANDS: usize = 128;

/// Most login commands that wait at once.
pub const LOGIN_COMMANDS: usize = 4;

/// Bound for one text that is typed or put on the clipboard of the peer, in bytes.
pub const MAX_CLIPBOARD_TEXT: usize = 1_048_576;

/// An image quality.
#[derive(Debug, Clone, Copy, PartialEq, Eq, Structural)]
pub enum ViewerImageQuality {
    Low,
    Balanced,
    Best,
    Custom(i32),
}

impl ViewerImageQuality {
    /// The name of this quality.
    pub open spec fn name(self) -> Seq<char> {
        match self {
            ViewerImageQuality::Low => "low"@,
            ViewerImageQuality::Balanced => "balanced"@,
            ViewerImageQuality::Best => "best"@,
            ViewerImageQuality::Custom(_) => "custom"@,
        }
    }

    /// The preset that is sent for this quality.
    pub open spec fn preset(self) -> ImageQuality {
        match self {
            ViewerImageQuality::Low => ImageQuality::Low,
            ViewerImageQuality::Balanced => ImageQuality::Balanced,
            ViewerImageQuality::Best => ImageQuality::Best,
            ViewerImageQuality::Custom(_) => ImageQuality::Balanced,
        }
    }

    /// The number that is sent for this quality, where it is one in range.
    pub open spec fn custom(self) -> Option<i32> {
        match self {
            ViewerImageQuality::Custom(value) => if 10 <= value <= 2000 {
                Some(value)
            } else {
                None
            },
            _ => None,
        }
    }

    /// Whether this quality may be asked for.
    pub open spec fn askable(self) -> bool {
        self is Custom ==> self.custom() is Some
    }

    /// The preset that is sent for this quality.
    pub fn proto_quality(self) -> (r: ImageQuality)
        ensures
            r == self.preset(),
    {
        match self {
            ViewerImageQuality::Low => ImageQuality::Low,
            ViewerImageQuality::Balanced => ImageQuality::Balanced,
            ViewerImageQuality::Best => ImageQuality::Best,
            ViewerImageQuality::Custom(_) => ImageQuality::Balanced,
        }
    }

    /// The number that is sent for this quality, where it is one in range.
    pub fn custom_quality(self) -> (r: Option<i32>)
        ensures
            r == self.custom(),
    {
        match self {
            ViewerImageQuality::Custom(value) => {
                if 10 <= value && value <= 2000 {
                    Some(value)
                } else {
                    None
                }
            },
            _ => None,
        }
    }

    /// The name of this quality.
    pub fn label(self) -> (r: &'static str)
        ensures
            r@ == self.name(),
    {
        match self {
            ViewerImageQuality::Low => "low",
            ViewerImageQuality::Balanced => "balanced",
            ViewerImageQuality::Best => "best",
            ViewerImageQuality::Custom(_) => "custom",
        }
    }
}

impl Default for ViewerImageQuality {
    fn default() -> (r: ViewerImageQuality)
        ensures
            r is Balanced,
    {
        ViewerImageQuality::Balanced
    }
}

/// What a viewer is started with.
pub struct ViewerOptions {
    /// Only for a direct connection; a peer found by its number has none.
    pub address: Option<Address>,
    pub username: String,
    pub local_id: String,
    pub local_name: String,
    pub password: String,
    pub requested_fps: u32,
    pub clipboard_enabled: bool,
    pub image_quality: ViewerImageQuality,
}

/// What is seen of a viewer.
#[derive(Debug)]
pub struct ViewerSnapshot {
    pub phase: String,
    pub error: Option<String>,
    pub width: i32,
    pub height: i32,
    pub codec: String,
    /// `direct_tcp`, `tcp_hole_punch` or `relay`.
    pub route: String,
    pub received_units: u64,
    pub pushed_units: u64,
    pub render_submissions: u64,
    /// Units that the pipeline times count.
    pub timed_units: u64,
    /// Time from the arrival of units to the end of their submission.
    pub pipeline_micros_total: u64,
    pub pipeline_micros_peak: u64,
    /// Time from submissions to the frames they produced.
    pub render_micros_total: u64,
    pub render_micros_peak: u64,
    pub render_timed_units: u64,
    /// Time that units waited in the queue of the decoder.
    pub queue_micros_total: u64,
    pub queue_timed_units: u64,
    /// Units waiting for the decoder right now.
    pub queued_units: u64,
    pub keyboard_allowed: bool,
    /// Whether both sides allow the clipboard.
    pub clipboard_allowed: bool,
    pub image_quality: String,
    pub requested_fps: u32,
    pub closed: bool,
    /// What the connection is, not what was asked for.
    pub encrypted: bool,
    pub peer_verified: bool,
}

/// A snapshot with its texts as sequences.
pub struct ViewerSnapshotView {
    pub phase: Seq<char>,
    pub error: Option<Seq<char>>,
    pub width: i32,
    pub height: i32,
    pub codec: Seq<char>,
    pub route: Seq<char>,
    pub received_units: u64,
    pub pushed_units: u64,
    pub render_submissions: u64,
    pub timed_units: u64,
    pub pipeline_micros_total: u64,
    pub pipeline_micros_peak: u64,
    pub render_micros_total: u64,
    pub render_micros_peak: u64,
    pub render_timed_units: u64,
    pub queue_micros_total: u64,
    pub queue_timed_units: u64,
    pub queued_units: u64,
    pub keyboard_allowed: bool,
    pub clipboard_allowed: bool,
    pub image_quality: Seq<char>,
    pub requested_fps: u32,
    pub closed: bool,
    pub encrypted: bool,
    pub peer_verified: bool,
}

impl View for ViewerSnapshot {
    type V = ViewerSnapshotView;

    open spec fn view(&self) -> ViewerSnapshotView {
        ViewerSnapshotView {
            phase: self.phase@,
            error: match self.error {
                Some(text) => Some(text@),
                None => None,
            },
            width: self.width,
            height: self.height,
            codec: self.codec@,
            route: self.route@,
            received_units: self.received_units,
            pushed_units: self.pushed_units,
            render_submissions: self.render_submissions,
            timed_units: self.timed_units,
            pipeline_micros_total: self.pipeline_micros_total,
            pipeline_micros_peak: self.pipeline_micros_peak,
            render_micros_total: self.render_micros_total,
            render_micros_peak: self.render_micros_peak,
            render_timed_units: self.render_timed_units,
            queue_micros_total: self.queue_micros_total,
            queue_timed_units: self.queue_timed_units,
            queued_units: self.queued_units,
            keyboard_allowed: self.keyboard_allowed,
            clipboard_allowed: self.clipboard_allowed,
            image_quality: self.image_quality@,
            requested_fps: self.requested_fps,
            closed: self.closed,
            encrypted: self.encrypted,
            peer_verified: self.peer_verified,
        }
    }
}

impl ViewerSnapshotView {
    /// Nothing at all.
    pub open spec fn blank() -> ViewerSnapshotView {
        ViewerSnapshotView {
            phase: Seq::empty(),
            error: None,
            width: 0,
            height: 0,
            codec: Seq::empty(),
            route: Seq::empty(),
            received_units: 0,
            pushed_units: 0,
            render_submissions: 0,
            timed_units: 0,
            pipeline_micros_total: 0,
            pipeline_micros_peak: 0,
            render_micros_total: 0,
            render_micros_peak: 0,
            render_timed_units: 0,
            queue_micros_total: 0,
            queue_timed_units: 0,
            queued_units: 0,
            keyboard_allowed: false,
            clipboard_allowed: false,
            image_quality: Seq::empty(),
            requested_fps: 0,
            closed: false,
            encrypted: false,
            peer_verified: false,
        }
    }
}

impl Default for ViewerSnapshot {
    fn default() -> (r: ViewerSnapshot)
        ensures
            r@ == ViewerSnapshotView::blank(),
    {
        let r = ViewerSnapshot {
            phase: String::new(),
            error: None,
            width: 0,
            height: 0,
            codec: String::new(),
            route: String::new(),
            received_units: 0,
            pushed_units: 0,
            render_submissions: 0,
            timed_units: 0,
            pipeline_micros_total: 0,
            pipeline_micros_peak: 0,
            render_micros_total: 0,
            render_micros_peak: 0,
            render_timed_units: 0,
            queue_micros_total: 0,
            queue_timed_units: 0,
            queued_units: 0,
            keyboard_allowed: false,
            clipboard_allowed: false,
            image_quality: String::new(),
            requested_fps: 0,
            closed: false,
            encrypted: false,
            peer_verified: false,
        };
        assert(r@.phase =~= Seq::<char>::empty());
        assert(r@.codec =~= Seq::<char>::empty());
        assert(r@.route =~= Seq::<char>::empty());
        assert(r@.image_quality =~= Seq::<char>::empty());
        r
    }
}

impl ViewerSnapshot {
    /// A copy.
    pub fn copy(&self) -> (r: ViewerSnapshot)
        ensures
            r@ == self@,
    {
        ViewerSnapshot {
            phase: self.phase.clone(),
            error: match &self.error {
                Some(text) => Some(text.clone()),
                None => None,
            },
            width: self.width,
            height: self.height,
            codec: self.codec.clone(),
            route: self.route.clone(),
            received_units: self.received_units,
            pushed_units: self.pushed_units,
            render_submissions: self.render_submissions,
            timed_units: self.timed_units,
            pipeline_micros_total: self.pipeline_micros_total,
            pipeline_micros_peak: self.pipeline_micros_peak,
            render_micros_total: self.render_micros_total,
            render_micros_peak: self.render_micros_peak,
            render_timed_units: self.render_timed_units,
            queue_micros_total: self.queue_micros_total,
            queue_timed_units: self.queue_timed_units,
            queued_units: self.queued_units,
            keyboard_allowed: self.keyboard_allowed,
            clipboard_allowed: self.clipboard_allowed,
            image_quality: self.image_quality.clone(),
            requested_fps: self.requested_fps,
            closed: self.closed,
            encrypted: self.encrypted,
            peer_verified: self.peer_verified,
        }
    }
}

/// Why a viewer fails or refuses.
#[derive(Debug, Clone)]
pub enum ViewerError {
    InvalidOptions,
    UnsupportedPlatform,
    NoHardwareCodec,
    RuntimeUnavailable,
    ConnectFailed,
    RendezvousFailed,
    AuthenticationFailed,
    SecondFactorUnsupported,
    TransportFailed,
    RemoteClosed,
    InvalidPeerGeometry,
    UnsupportedCodec,
    InvalidVideoRecord,
    VideoRecordTooLarge,
    TimestampOverflow,
    InputNotAllowed,
    InvalidMouse,
    NotAuthenticated,
    Backpressure,
    Closed,
    TaskFailed,
    ReclamationUnconfirmed,
    Decoder(DecoderError),
    /// A VNC session failed or refused something.
    Vnc(VncError),
    /// An RDP session failed or is not implemented.
    Rdp(RdpError),
}

impl ViewerError {
    /// How the error is written out. No text that a peer sent is part of it, except
    /// what a VNC or RDP server is quoted with.
    pub open spec fn shown(self) -> Seq<char> {
        match self {
            ViewerError::InvalidOptions => "InvalidOptions"@,
            ViewerError::UnsupportedPlatform => "UnsupportedPlatform"@,
            ViewerError::NoHardwareCodec => "NoHardwareCodec"@,
            ViewerError::RuntimeUnavailable => "RuntimeUnavailable"@,
            ViewerError::ConnectFailed => "ConnectFailed"@,
            ViewerError::RendezvousFailed => "RendezvousFailed"@,
            ViewerError::AuthenticationFailed => "AuthenticationFailed"@,
            ViewerError::SecondFactorUnsupported => "SecondFactorUnsupported"@,
            ViewerError::TransportFailed => "TransportFailed"@,
            ViewerError::RemoteClosed => "RemoteClosed"@,
            ViewerError::InvalidPeerGeometry => "InvalidPeerGeometry"@,
            ViewerError::UnsupportedCodec => "UnsupportedCodec"@,
            ViewerError::InvalidVideoRecord => "InvalidVideoRecord"@,
            ViewerError::VideoRecordTooLarge => "VideoRecordTooLarge"@,
            ViewerError::TimestampOverflow => "TimestampOverflow"@,
            ViewerError::InputNotAllowed => "InputNotAllowed"@,
            ViewerError::InvalidMouse => "InvalidMouse"@,
            ViewerError::NotAuthenticated => "NotAuthenticated"@,
            ViewerError::Backpressure => "Backpressure"@,
            ViewerError::Closed => "Closed"@,
            ViewerError::TaskFailed => "TaskFailed"@,
            ViewerError::ReclamationUnconfirmed => "ReclamationUnconfirmed"@,
            ViewerError::Decoder(error) => "Surface decoder: "@ + error.shown(),
            ViewerError::Vnc(error) => error.shown(),
            ViewerError::Rdp(error) => error.shown(),
        }
    }

    /// The error as a string.
    pub fn to_string(&self) -> (r: String)
        ensures
            r@ == self.shown(),
    {
        match self {
            ViewerError::InvalidOptions => "InvalidOptions".to_owned(),
            ViewerError::UnsupportedPlatform => "UnsupportedPlatform".to_owned(),
            ViewerError::NoHardwareCodec => "NoHardwareCodec".to_owned(),
            ViewerError::RuntimeUnavailable => "RuntimeUnavailable".to_owned(),
            ViewerError::ConnectFailed => "ConnectFailed".to_owned(),
            ViewerError::RendezvousFailed => "RendezvousFailed".to_owned(),
            ViewerError::AuthenticationFailed => "AuthenticationFailed".to_owned(),
            ViewerError::SecondFactorUnsupported => "SecondFactorUnsupported".to_owned(),
            ViewerError::TransportFailed => "TransportFailed".to_owned(),
            ViewerError::RemoteClosed => "RemoteClosed".to_owned(),
            ViewerError::InvalidPeerGeometry => "InvalidPeerGeometry".to_owned(),
            ViewerError::UnsupportedCodec => "UnsupportedCodec".to_owned(),
            ViewerError::InvalidVideoRecord => "InvalidVideoRecord".to_owned(),
            ViewerError::VideoRecordTooLarge => "VideoRecordTooLarge".to_owned(),
            ViewerError::TimestampOverflow => "TimestampOverflow".to_owned(),
            ViewerError::InputNotAllowed => "InputNotAllowed".to_owned(),
            ViewerError::InvalidMouse => "InvalidMouse".to_owned(),
            ViewerError::NotAuthenticated => "NotAuthenticated".to_owned(),
            ViewerError::Backpressure => "Backpressure".to_owned(),
            ViewerError::Closed => "Closed".to_owned(),
            ViewerError::TaskFailed => "TaskFailed".to_owned(),
            ViewerError::ReclamationUnconfirmed => "ReclamationUnconfirmed".to_owned(),
            ViewerError::Decoder(error) => text::joined(
                "Surface decoder: ",
                error.to_string().as_str(),
            ),
            ViewerError::Vnc(error) => error.to_string(),
            ViewerError::Rdp(error) => error.to_string(),
        }
    }
}

/// Where a display of the peer lies on its desktop.
#[derive(Debug, Clone, Copy, PartialEq, Eq, Structural)]
pub struct Geometry {
    pub display: i32,
    pub x: i32,
    pub y: i32,
    pub width: i32,
    pub height: i32,
}

/// Whether everything that a session held was released.
#[derive(Debug, Clone, Copy, PartialEq, Eq, Structural)]
pub enum Reclaimed {
    Confirmed,
    Unconfirmed,
    /// The native decoder could not be destroyed.
    DestroyFailed(i32),
}

/// A queue of outgoing messages as its sender sees it.
#[derive(Debug, Clone, Copy, PartialEq, Eq, Structural)]
pub struct QueueState {
    /// Nobody takes messages out any more.
    pub closed: bool,
    /// How many more messages it takes.
    pub room: usize,
}

/// Why a queue takes no message, if it takes none.
pub open spec fn queue_refusal(queue: QueueState) -> Option<ViewerError> {
    if queue.closed {
        Some(ViewerError::Closed)
    } else if queue.room == 0 {
        Some(ViewerError::Backpressure)
    } else {
        None
    }
}

/// A command of the user for the login.
pub enum AuthCommand {
    Password(String),
    SecondFactor(String),
    ContinueInsecure(bool),
}

/// How a viewer reaches its peer.
#[derive(Debug)]
pub enum Connector {
    /// A direct connection to a peer whose identity is not checked.
    Unverified,
    /// A direct connection to a peer with a known identity.
    Pinned { expected_id: String },
    /// A peer found by its number, whose identity the server vouches for.
    Rendezvous { id: String },
}

/// A viewer: what is seen of it, its decoder, clipboard texts that came in, and the
/// gates that input and controls have to pass.
pub struct Viewer {
    pub snapshot: ViewerSnapshot,
    pub geometry: Option<Geometry>,
    pub decoder: Option<SurfaceDecoder>,
    /// Clipboard texts that wait to be read, oldest first.
    pub clipboard: VecDeque<String>,
    /// The viewer is to close.
    pub cancelled: bool,
    /// What became of the resources, once the session is over.
    pub result: Option<Reclaimed>,
    pub authenticated: bool,
    /// The peer lets its keyboard and pointer be used.
    pub remote_keyboard: bool,
    /// The peer lets its clipboard be used.
    pub remote_clipboard: bool,
    /// The user lets the clipboard be used.
    pub local_clipboard: bool,
    pub requested_fps: u32,
    pub image_quality: ViewerImageQuality,
    /// What the peer said about itself when it let the viewer in.
    pub peer_info: Option<PeerInfo>,
    /// Controls can be sent.
    pub control: bool,
    /// Native resources may still be held.
    pub resources_unconfirmed: bool,
}

/// A viewer as plain values.
pub struct ViewerView {
    pub snapshot: ViewerSnapshotView,
    pub geometry: Option<Geometry>,
    pub decoder: Option<ohos_worker::DecoderObserver>,
    /// The name of the codec that the decoder was opened with.
    pub codec_name: Option<Seq<char>>,
    pub clipboard: Seq<Seq<char>>,
    pub cancelled: bool,
    pub result: Option<Reclaimed>,
    pub authenticated: bool,
    pub remote_keyboard: bool,
    pub remote_clipboard: bool,
    pub local_clipboard: bool,
    pub requested_fps: u32,
    pub image_quality: ViewerImageQuality,
    pub peer_info: Option<PeerInfo>,
    pub control: bool,
    pub resources_unconfirmed: bool,
}

impl View for Viewer {
    type V = ViewerView;

    open spec fn view(&self) -> ViewerView {
        ViewerView {
            snapshot: self.snapshot@,
            geometry: self.geometry,
            decoder: match self.decoder {
                Some(decoder) => Some(decoder.observer),
                None => None,
            },
            codec_name: match self.decoder {
                Some(decoder) => Some(decoder.codec_name@),
                None => None,
            },
            clipboard: text::texts(self.clipboard@),
            cancelled: self.cancelled,
            result: self.result,
            authenticated: self.authenticated,
            remote_keyboard: self.remote_keyboard,
            remote_clipboard: self.remote_clipboard,
            local_clipboard: self.local_clipboard,
            requested_fps: self.requested_fps,
            image_quality: self.image_quality,
            peer_info: self.peer_info,
            control: self.control,
            resources_unconfirmed: self.resources_unconfirmed,
        }
    }
}

/// Whether the options of a viewer make sense for every way to connect.
pub open spec fn valid_options(o: ViewerOptions) -> bool {
    &&& 0 < vstd::utf8::encode_utf8(o.username@).len() <= 512
    &&& 0 < vstd::utf8::encode_utf8(o.local_id@).len() <= 512
    &&& vstd::utf8::encode_utf8(o.local_name@).len() <= 512
    &&& vstd::utf8::encode_utf8(o.password@).len() <= 4096
    &&& 1 <= o.requested_fps <= 240
}

/// Whether the options name an address with a usable port.
pub open spec fn has_address(o: ViewerOptions) -> bool {
    o.address matches Some(address) && address.port != 0
}

/// What a decoder adds to a snapshot: its counts, its failure, and that frames are
/// being rendered.
pub open spec fn with_decoder(
    s: ViewerSnapshotView,
    stats: DecoderStats,
    queued: nat,
    cancelled: bool,
) -> ViewerSnapshotView {
    let error = match stats.failure {
        Some(error) => Some("Surface decoder: "@ + error.shown()),
        None => s.error,
    };
    ViewerSnapshotView {
        pushed_units: ohos_decoder::saturated(s.pushed_units, stats.pushed_units),
        render_submissions: ohos_decoder::saturated(s.render_submissions, stats.render_submissions),
        timed_units: ohos_decoder::saturated(s.timed_units, stats.timed_units),
        pipeline_micros_total: ohos_decoder::saturated(
            s.pipeline_micros_total,
            stats.pipeline_micros_total,
        ),
        pipeline_micros_peak: ohos_decoder::larger(
            s.pipeline_micros_peak,
            stats.pipeline_micros_peak,
        ),
        render_micros_total: ohos_decoder::saturated(
            s.render_micros_total,
            stats.render_micros_total,
        ),
        render_micros_peak: ohos_decoder::larger(s.render_micros_peak, stats.render_micros_peak),
        render_timed_units: ohos_decoder::saturated(s.render_timed_units, stats.render_timed_units),
        queue_micros_total: ohos_decoder::saturated(s.queue_micros_total, stats.queue_micros_total),
        queue_timed_units: ohos_decoder::saturated(s.queue_timed_units, stats.queue_timed_units),
        queued_units: ohos_decoder::larger(s.queued_units, queued as u64),
        error,
        phase: if stats.render_submissions > 0 && error is None && !cancelled && !s.closed {
            "streaming"@
        } else {
            s.phase
        },
        ..s
    }
}

impl ViewerView {
    /// A viewer that was just started.
    pub open spec fn started(o: ViewerOptions) -> ViewerView {
        ViewerView {
            snapshot: ViewerSnapshotView { phase: "capability"@, ..ViewerSnapshotView::blank() },
            geometry: None,
            decoder: None,
            codec_name: None,
            clipboard: Seq::empty(),
            cancelled: false,
            result: None,
            authenticated: false,
            remote_keyboard: false,
            remote_clipboard: false,
            local_clipboard: o.clipboard_enabled,
            requested_fps: o.requested_fps,
            image_quality: o.image_quality,
            peer_info: None,
            control: false,
            resources_unconfirmed: false,
        }
    }

    /// Whether input may be sent: both sides agreed, and the session is not ending.
    pub open spec fn input_open(self) -> bool {
        self.authenticated && self.remote_keyboard && !self.cancelled
    }

    /// Whether clipboard text may be sent.
    pub open spec fn clipboard_open(self) -> bool {
        self.local_clipboard && self.authenticated && self.remote_clipboard && !self.cancelled
    }

    /// What is seen of the viewer.
    pub open spec fn seen(self) -> ViewerSnapshotView {
        let s = ViewerSnapshotView {
            requested_fps: self.requested_fps,
            image_quality: self.image_quality.name(),
            keyboard_allowed: self.input_open(),
            clipboard_allowed: self.clipboard_open(),
            ..self.snapshot
        };
        match self.decoder {
            Some(observer) => match observer.shared {
                Some(shared) => with_decoder(
                    s,
                    shared@.stats,
                    shared@.packets.len(),
                    self.cancelled,
                ),
                None => s,
            },
            None => s,
        }
    }

    /// The viewer in a phase.
    pub open spec fn in_phase(self, phase: Seq<char>) -> ViewerView {
        ViewerView { snapshot: ViewerSnapshotView { phase, ..self.snapshot }, ..self }
    }

    /// The viewer with a route to the peer.
    pub open spec fn routed(self, route: Seq<char>) -> ViewerView {
        ViewerView { snapshot: ViewerSnapshotView { route, ..self.snapshot }, ..self }
    }

    /// The viewer with a connection of which it is known what it is.
    pub open spec fn secured(self, encrypted: bool, peer_verified: bool) -> ViewerView {
        ViewerView {
            snapshot: ViewerSnapshotView { encrypted, peer_verified, ..self.snapshot },
            ..self
        }
    }

    /// The viewer after `units` more units came in.
    pub open spec fn received(self, units: nat) -> ViewerView {
        ViewerView {
            snapshot: ViewerSnapshotView {
                received_units: (self.snapshot.received_units + units) as u64,
                ..self.snapshot
            },
            ..self
        }
    }

    /// The viewer with a new decoder for a display.
    pub open spec fn decoding(
        self,
        decoder: SurfaceDecoder,
        geometry: Geometry,
        codec: VideoCodec,
    ) -> ViewerView {
        ViewerView {
            decoder: Some(decoder.observer),
            codec_name: Some(decoder.codec_name@),
            geometry: Some(geometry),
            snapshot: ViewerSnapshotView {
                width: geometry.width,
                height: geometry.height,
                codec: match codec {
                    VideoCodec::H264 => "H264"@,
                    VideoCodec::H265 => "H265"@,
                },
                phase: "decoding"@,
                ..self.snapshot
            },
            ..self
        }
    }

    /// The viewer with a display of the peer.
    pub open spec fn showing(self, geometry: Geometry) -> ViewerView {
        ViewerView {
            geometry: Some(geometry),
            snapshot: ViewerSnapshotView {
                width: geometry.width,
                height: geometry.height,
                ..self.snapshot
            },
            ..self
        }
    }

    /// Why a control is not sent, if it is not.
    pub open spec fn control_refusal(self, queue: QueueState) -> Option<ViewerError> {
        if !self.authenticated || self.cancelled {
            Some(ViewerError::NotAuthenticated)
        } else {
            self.send_refusal(queue)
        }
    }

    /// Why a message is not put on the queue for controls, if it is not.
    pub open spec fn send_refusal(self, queue: QueueState) -> Option<ViewerError> {
        if !self.control {
            Some(ViewerError::NotAuthenticated)
        } else {
            queue_refusal(queue)
        }
    }

    /// What a session whose result is `result` leaves of its resources. Only what
    /// is still held counts, not what went wrong before.
    pub open spec fn reclaimed(self, result: Result<(), ViewerError>) -> Reclaimed {
        if !self.resources_unconfirmed {
            Reclaimed::Confirmed
        } else {
            match result {
                Err(ViewerError::Decoder(DecoderError::DestroyFailed { code })) =>
                Reclaimed::DestroyFailed(code),
                _ => Reclaimed::Unconfirmed,
            }
        }
    }

    /// The error that a finished session shows: its own, or else that resources are
    /// still held.
    pub open spec fn final_error(self, result: Result<(), ViewerError>) -> Option<Seq<char>> {
        match result {
            Err(error) => Some(error.shown()),
            Ok(_) => if self.resources_unconfirmed {
                Some(ViewerError::ReclamationUnconfirmed.shown())
            } else {
                None
            },
        }
    }

    /// The viewer after its session is over.
    pub open spec fn finished(self, result: Result<(), ViewerError>) -> ViewerView {
        ViewerView {
            authenticated: false,
            result: Some(self.reclaimed(result)),
            snapshot: ViewerSnapshotView {
                closed: true,
                keyboard_allowed: false,
                error: self.final_error(result),
                phase: if self.final_error(result) is None {
                    "closed"@
                } else {
                    "failed"@
                },
                ..self.snapshot
            },
            ..self
        }
    }

    /// Whether `self` is `before` about to close, its decoder with it.
    pub open spec fn closing(self, before: ViewerView) -> bool {
        &&& self == (ViewerView {
            authenticated: false,
            cancelled: true,
            decoder: self.decoder,
            snapshot: if before.snapshot.closed {
                before.snapshot
            } else {
                ViewerSnapshotView { phase: "closing"@, ..before.snapshot }
            },
            ..before
        })
        &&& match (before.decoder, self.decoder) {
            (Some(old_decoder), Some(new_decoder)) => match (old_decoder.shared, new_decoder.shared) {
                (Some(old_shared), Some(new_shared)) => new_shared@ == (ohos_decoder::SharedView {
                    closing: true,
                    ..old_shared@
                }),
                (old_shared, new_shared) => old_shared is None && new_shared is None,
            },
            (old_decoder, new_decoder) => old_decoder is None && new_decoder is None,
        }
    }
}

/// The event of a pointer action, or why there is none. Buttons and the pointer
/// itself are given in pixels of the display and sent in those of the desktop;
/// wheel, trackpad and relative moves keep their numbers.
pub open spec fn mouse_event(
    v: ViewerView,
    kind: u32,
    button: u32,
    x: i32,
    y: i32,
) -> Result<MouseEvent, ViewerError> {
    let valid = if kind == 0 {
        button <= 0x1f
    } else if kind == 1 || kind == 2 {
        button == 1 || button == 2 || button == 4 || button == 8 || button == 16
    } else if kind <= 5 {
        button == 0
    } else {
        false
    };
    let mask = (kind + button * 8) as i32;
    if !v.input_open() {
        Err(ViewerError::InputNotAllowed)
    } else if !valid {
        Err(ViewerError::InvalidMouse)
    } else if kind > 2 {
        Ok(MouseEvent { mask, x, y })
    } else {
        match v.geometry {
            None => Err(ViewerError::InputNotAllowed),
            Some(g) => if x < 0 || y < 0 || x >= g.width || y >= g.height || x + g.x > i32::MAX || y
                + g.y > i32::MAX {
                Err(ViewerError::InvalidMouse)
            } else {
                Ok(MouseEvent { mask, x: (x + g.x) as i32, y: (y + g.y) as i32 })
            },
        }
    }
}

/// Whether `message` is the key event of a key with the modifiers that are held.
pub open spec fn carries_key(
    message: Message,
    key: ViewerKey,
    down: bool,
    press: bool,
    modifiers: Seq<ControlKey>,
) -> bool {
    &&& message matches Message::KeyEvent(event)
    &&& event.down == down
    &&& event.press == press
    &&& event.mode is Legacy
    &&& event.payload == (match key {
        ViewerKey::Character(code) => KeyPayload::Chr(code),
        ViewerKey::Control(control) => KeyPayload::Control(Some(control)),
    })
    &&& event.modifiers@ == modifiers
}

/// Whether `message` types a text.
pub open spec fn carries_text(message: Message, value: Seq<char>) -> bool {
    &&& message matches Message::KeyEvent(event)
    &&& !event.down && !event.press
    &&& event.mode is Legacy
    &&& event.payload matches KeyPayload::Text(text)
    &&& text@ == value
    &&& event.modifiers@ == Seq::<ControlKey>::empty()
}

/// Whether `message` puts a text on the clipboard: compressed where that makes it
/// shorter, and as it is otherwise.
pub open spec fn carries_clipboard(message: Message, value: Seq<char>, compressed: Seq<u8>) -> bool {
    let raw = vstd::utf8::encode_utf8(value);
    let shorter = 0 < compressed.len() < raw.len();
    &&& message matches Message::MultiClipboards(clipboards)
    &&& clipboards@.len() == 1
    &&& clipboards@[0].is_text
    &&& clipboards@[0].compress == shorter
    &&& clipboards@[0].content@ == (if shorter {
        compressed
    } else {
        raw
    })
}

/// The options of a rate.
pub open spec fn fps_option(fps: u32) -> Message {
    Message::Misc(
        Misc::Options(
            OptionMessage {
                image_quality: ImageQuality::NotSet,
                custom_image_quality: 0,
                custom_fps: fps as i32,
            },
        ),
    )
}

/// The options of a quality; a preset takes a number back.
pub open spec fn quality_option(quality: ViewerImageQuality) -> Message {
    Message::Misc(
        Misc::Options(
            OptionMessage {
                image_quality: quality.preset(),
                custom_image_quality: match quality.custom() {
                    Some(value) => value,
                    None => 0,
                },
                custom_fps: 0,
            },
        ),
    )
}

/// The request for another display, and the question about it.
pub open spec fn switch_messages(display: i32, width: i32, height: i32) -> Seq<Message> {
    seq![
        Message::Misc(Misc::SwitchDisplay(SwitchDisplay { display, x: 0, y: 0, width, height })),
        Message::Misc(Misc::MessageQuery { switch_display: display }),
    ]
}

/// Why nothing or not everything of a request for another display is sent.
pub open spec fn switch_result(
    v: ViewerView,
    display: i32,
    width: i32,
    height: i32,
    queue: QueueState,
) -> Result<(), ViewerError> {
    if display < 0 || width < 0 || height < 0 {
        Err(ViewerError::InvalidOptions)
    } else if v.control_refusal(queue) is Some {
        Err(v.control_refusal(queue)->0)
    } else if queue.room == 1 {
        Err(ViewerError::Backpressure)
    } else {
        Ok(())
    }
}

/// The answer to a password of the user.
pub open spec fn password_answer(
    r: Result<AuthCommand, ViewerError>,
    password: Seq<char>,
    queue: QueueState,
) -> bool {
    let len = vstd::utf8::encode_utf8(password).len();
    match r {
        Ok(command) => 0 < len <= 4096 && queue_refusal(queue) is None && (
        command matches AuthCommand::Password(sent) && sent@ == password),
        Err(error) => if 0 < len <= 4096 {
            queue_refusal(queue) == Some(error)
        } else {
            error == ViewerError::InvalidOptions
        },
    }
}

/// The answer to a second factor of the user: six digits.
pub open spec fn factor_answer(
    r: Result<AuthCommand, ViewerError>,
    code: Seq<char>,
    queue: QueueState,
) -> bool {
    let valid = code.len() == 6 && text::all_digits(code);
    match r {
        Ok(command) => valid && queue_refusal(queue) is None && (
        command matches AuthCommand::SecondFactor(sent) && sent@ == code),
        Err(error) => if valid {
            queue_refusal(queue) == Some(error)
        } else {
            error == ViewerError::InvalidOptions
        },
    }
}

/// The answer to the user's decision about a peer that is not verified.
pub open spec fn insecure_answer(
    r: Result<AuthCommand, ViewerError>,
    allow: bool,
    queue: QueueState,
) -> bool {
    match r {
        Ok(command) => queue_refusal(queue) is None && command == AuthCommand::ContinueInsecure(
            allow,
        ),
        Err(error) => queue_refusal(queue) == Some(error),
    }
}

/// The answer to a key.
pub open spec fn key_answer(
    r: Result<Message, ViewerError>,
    v: ViewerView,
    key: ViewerKey,
    down: bool,
    press: bool,
    modifiers: Seq<ControlKey>,
    queue: QueueState,
) -> bool {
    match r {
        Ok(message) => v.input_open() && v.send_refusal(queue) is None && carries_key(
            message,
            key,
            down,
            press,
            modifiers,
        ),
        Err(error) => if v.input_open() {
            v.send_refusal(queue) == Some(error)
        } else {
            error == ViewerError::InputNotAllowed
        },
    }
}

/// The answer to a text that is to be typed.
pub open spec fn text_answer(
    r: Result<Message, ViewerError>,
    v: ViewerView,
    value: Seq<char>,
    queue: QueueState,
) -> bool {
    let len = vstd::utf8::encode_utf8(value).len();
    match r {
        Ok(message) => v.input_open() && 0 < len <= MAX_CLIPBOARD_TEXT && v.send_refusal(queue)
            is None && carries_text(message, value),
        Err(error) => if !v.input_open() {
            error == ViewerError::InputNotAllowed
        } else if !(0 < len <= MAX_CLIPBOARD_TEXT) {
            error == ViewerError::InvalidOptions
        } else {
            v.send_refusal(queue) == Some(error)
        },
    }
}

/// The answer to a text for the clipboard of the peer.
pub open spec fn clipboard_answer(
    r: Result<Message, ViewerError>,
    v: ViewerView,
    value: Seq<char>,
    compressed: Seq<u8>,
    queue: QueueState,
) -> bool {
    let len = vstd::utf8::encode_utf8(value).len();
    match r {
        Ok(message) => v.clipboard_open() && 0 < len <= MAX_CLIPBOARD_TEXT && v.send_refusal(queue)
            is None && carries_clipboard(message, value, compressed),
        Err(error) => if !v.clipboard_open() {
            error == ViewerError::InputNotAllowed
        } else if !(0 < len <= MAX_CLIPBOARD_TEXT) {
            error == ViewerError::InvalidOptions
        } else {
            v.send_refusal(queue) == Some(error)
        },
    }
}

/// The answer to a reader of the clipboard: the oldest text that came in, once.
pub open spec fn taken_text(r: Option<String>, before: ViewerView, after: ViewerView) -> bool {
    match r {
        Some(text) => before.local_clipboard && before.clipboard.len() > 0 && text@
            == before.clipboard[0] && after == (ViewerView {
            clipboard: before.clipboard.skip(1),
            ..before
        }),
        None => (!before.local_clipboard || before.clipboard.len() == 0) && after == before,
    }
}

/// The answer to a rate that is asked for.
pub open spec fn fps_answer(
    r: Result<Option<Message>, ViewerError>,
    before: ViewerView,
    after: ViewerView,
    fps: u32,
    queue: QueueState,
) -> bool {
    match r {
        Ok(sent) => {
            &&& 1 <= fps <= 240
            &&& before.authenticated ==> before.control_refusal(queue) is None
            &&& sent == (if before.authenticated {
                Some(fps_option(fps))
            } else {
                None
            })
            &&& after == (ViewerView { requested_fps: fps, ..before })
        },
        Err(error) => {
            &&& after == before
            &&& if 1 <= fps <= 240 {
                before.authenticated && before.control_refusal(queue) == Some(error)
            } else {
                error == ViewerError::InvalidOptions
            }
        },
    }
}

/// The answer to a quality that is asked for.
pub open spec fn quality_answer(
    r: Result<Option<Message>, ViewerError>,
    before: ViewerView,
    after: ViewerView,
    quality: ViewerImageQuality,
    queue: QueueState,
) -> bool {
    match r {
        Ok(sent) => {
            &&& quality.askable()
            &&& before.authenticated ==> before.control_refusal(queue) is None
            &&& sent == (if before.authenticated {
                Some(quality_option(quality))
            } else {
                None
            })
            &&& after == (ViewerView { image_quality: quality, ..before })
        },
        Err(error) => {
            &&& after == before
            &&& if quality.askable() {
                before.authenticated && before.control_refusal(queue) == Some(error)
            } else {
                error == ViewerError::InvalidOptions
            }
        },
    }
}

/// The messages of a request for another display that are sent.
pub open spec fn switch_sent(
    v: ViewerView,
    display: i32,
    width: i32,
    height: i32,
    queue: QueueState,
) -> Seq<Message> {
    if display < 0 || width < 0 || height < 0 || v.control_refusal(queue) is Some {
        Seq::empty()
    } else if queue.room == 1 {
        switch_messages(display, width, height).take(1)
    } else {
        switch_messages(display, width, height)
    }
}

/// The answer to a request for another resolution.
pub open spec fn resolution_result(
    v: ViewerView,
    display: i32,
    width: i32,
    height: i32,
    queue: QueueState,
) -> Result<Message, ViewerError> {
    if display < 0 || width < 0 || height < 0 {
        Err(ViewerError::InvalidOptions)
    } else {
        match v.control_refusal(queue) {
            Some(error) => Err(error),
            None => Ok(Message::Misc(Misc::ChangeDisplayResolution { display, width, height })),
        }
    }
}

/// The answer to a request for the picture.
pub open spec fn refresh_result(v: ViewerView, display: i32, queue: QueueState) -> Result<
    Message,
    ViewerError,
> {
    match v.control_refusal(queue) {
        Some(error) => Err(error),
        None => if display < 0 {
            Ok(Message::Misc(Misc::RefreshVideo(true)))
        } else {
            Ok(Message::Misc(Misc::RefreshVideoDisplay(display)))
        },
    }
}

/// The answer to a pointer action.
pub open spec fn mouse_result(
    v: ViewerView,
    kind: u32,
    button: u32,
    x: i32,
    y: i32,
    queue: QueueState,
) -> Result<Message, ViewerError> {
    match mouse_event(v, kind, button, x, y) {
        Err(error) => Err(error),
        Ok(event) => match queue_refusal(queue) {
            Some(error) => Err(error),
            None => Ok(Message::MouseEvent(event)),
        },
    }
}

/// What keeps pointer input from being sent, if something does.
pub open spec fn closed_gate(v: ViewerView) -> Option<Seq<char>> {
    if v.cancelled {
        Some("cancelled"@)
    } else if !v.authenticated {
        Some("not_authenticated"@)
    } else if !v.remote_keyboard {
        Some("peer_permission_denied"@)
    } else if v.geometry is None {
        Some("geometry_missing"@)
    } else {
        None
    }
}

fn queue_ready(queue: QueueState) -> (r: Result<(), ViewerError>)
    ensures
        match r {
            Ok(_) => queue_refusal(queue) is None,
            Err(error) => queue_refusal(queue) == Some(error),
        },
{
    if queue.closed {
        Err(ViewerError::Closed)
    } else if queue.room == 0 {
        Err(ViewerError::Backpressure)
    } else {
        Ok(())
    }
}

fn larger_count(a: u64, b: u64) -> (r: u64)
    ensures
        r == ohos_decoder::larger(a, b),
{
    if a < b {
        b
    } else {
        a
    }
}

fn saturating_count(a: u64, b: u64) -> (r: u64)
    ensures
        r == ohos_decoder::saturated(a, b),
{
    if b > u64::MAX - a {
        u64::MAX
    } else {
        a + b
    }
}

impl Viewer {
    /// A viewer that connects directly to a peer whose identity is not checked.
    pub fn start(options: &ViewerOptions) -> (r: Result<Viewer, ViewerError>)
        ensures
            match r {
                Ok(viewer) => has_address(*options) && valid_options(*options) && viewer@
                    == ViewerView::started(*options),
                Err(error) => !(has_address(*options) && valid_options(*options)) && error
                    == ViewerError::InvalidOptions,
            },
    {
        match &options.address {
            Some(address) => {
                if address.port == 0 {
                    return Err(ViewerError::InvalidOptions);
                }
            },
            None => {
                return Err(ViewerError::InvalidOptions);
            },
        }
        Viewer::start_with_connector(options)
    }

    /// A viewer that connects directly to a peer with a known identity.
    pub fn start_verified(options: &ViewerOptions, expected_id: &str) -> (r: Result<
        Viewer,
        ViewerError,
    >)
        ensures
            ({
                let id_len = vstd::utf8::encode_utf8(expected_id@).len();
                let valid = 0 < id_len <= 512 && has_address(*options) && valid_options(*options);
                match r {
                    Ok(viewer) => valid && viewer@ == ViewerView::started(*options),
                    Err(error) => !valid && error == ViewerError::InvalidOptions,
                }
            }),
    {
        let id_len: usize = text::byte_len(expected_id);
        if id_len == 0 || id_len > 512 {
            return Err(ViewerError::InvalidOptions);
        }
        Viewer::start(options)
    }

    /// A viewer that finds its peer by its number `id`.
    pub fn start_rendezvous(options: &ViewerOptions, id: &str) -> (r: Result<Viewer, ViewerError>)
        ensures
            ({
                let valid = options.address is None && options.username@ == id@ && valid_options(
                    *options,
                );
                match r {
                    Ok(viewer) => valid && viewer@ == ViewerView::started(*options),
                    Err(error) => !valid && error == ViewerError::InvalidOptions,
                }
            }),
    {
        if options.address.is_some() || !text::same_text(options.username.as_str(), id) {
            return Err(ViewerError::InvalidOptions);
        }
        Viewer::start_with_connector(options)
    }

    fn start_with_connector(options: &ViewerOptions) -> (r: Result<Viewer, ViewerError>)
        ensures
            match r {
                Ok(viewer) => valid_options(*options) && viewer@ == ViewerView::started(*options),
                Err(error) => !valid_options(*options) && error == ViewerError::InvalidOptions,
            },
    {
        let username: usize = text::byte_len(options.username.as_str());
        let local_id: usize = text::byte_len(options.local_id.as_str());
        if username == 0 || local_id == 0 || username > 512 || local_id > 512 || text::byte_len(
            options.local_name.as_str(),
        ) > 512 || text::byte_len(options.password.as_str()) > 4096 || options.requested_fps < 1
            || options.requested_fps > 240 {
            return Err(ViewerError::InvalidOptions);
        }
        let mut snapshot = ViewerSnapshot::default();
        snapshot.phase = "capability".to_owned();
        let viewer = Viewer {
            snapshot,
            geometry: None,
            decoder: None,
            clipboard: VecDeque::new(),
            cancelled: false,
            result: None,
            authenticated: false,
            remote_keyboard: false,
            remote_clipboard: false,
            local_clipboard: options.clipboard_enabled,
            requested_fps: options.requested_fps,
            image_quality: options.image_quality,
            peer_info: None,
            control: false,
            resources_unconfirmed: false,
        };
        assert(viewer@.clipboard =~= Seq::<Seq<char>>::empty());
        Ok(viewer)
    }

    /// What is seen of the viewer.
    pub fn snapshot(&self) -> (r: ViewerSnapshot)
        ensures
            r@ == self@.seen(),
    {
        let mut out = self.snapshot.copy();
        out.requested_fps = self.requested_fps;
        out.image_quality = self.image_quality.label().to_owned();
        out.keyboard_allowed = self.input_allowed();
        out.clipboard_allowed = self.local_clipboard && self.authenticated && self.remote_clipboard
            && !self.cancelled;
        if let Some(decoder) = &self.decoder {
            if let Some(shared) = &decoder.observer.shared {
                let stats = shared.stats();
                out.pushed_units = saturating_count(out.pushed_units, stats.pushed_units);
                out.render_submissions =
                saturating_count(out.render_submissions, stats.render_submissions);
                out.timed_units = saturating_count(out.timed_units, stats.timed_units);
                out.pipeline_micros_total =
                saturating_count(out.pipeline_micros_total, stats.pipeline_micros_total);
                out.pipeline_micros_peak =
                larger_count(out.pipeline_micros_peak, stats.pipeline_micros_peak);
                out.render_micros_total =
                saturating_count(out.render_micros_total, stats.render_micros_total);
                out.render_micros_peak =
                larger_count(out.render_micros_peak, stats.render_micros_peak);
                out.render_timed_units =
                saturating_count(out.render_timed_units, stats.render_timed_units);
                out.queue_micros_total =
                saturating_count(out.queue_micros_total, stats.queue_micros_total);
                out.queue_timed_units =
                saturating_count(out.queue_timed_units, stats.queue_timed_units);
                out.queued_units = larger_count(out.queued_units, shared.queued_units() as u64);
                if let Some(error) = stats.failure {
                    out.error = Some(ViewerError::Decoder(error).to_string());
                }
                if stats.render_submissions > 0 && out.error.is_none() && !self.cancelled
                    && !out.closed {
                    out.phase = "streaming".to_owned();
                }
            }
        }
        out
    }

    /// What the peer said about itself, once it let the viewer in.
    pub fn peer_info(&self) -> (r: Option<&PeerInfo>)
        ensures
            match r {
                Some(info) => self.peer_info == Some(*info),
                None => self.peer_info is None,
            },
    {
        self.peer_info.as_ref()
    }

    /// The command that answers the request for a password.
    pub fn submit_password(&self, password: &str, queue: QueueState) -> (r: Result<
        AuthCommand,
        ViewerError,
    >)
        ensures
            password_answer(r, password@, queue),
    {
        let len: usize = text::byte_len(password);
        if len == 0 || len > 4096 {
            return Err(ViewerError::InvalidOptions);
        }
        match queue_ready(queue) {
            Err(error) => Err(error),
            Ok(_) => Ok(AuthCommand::Password(password.to_owned())),
        }
    }

    /// The command that answers the request for a second factor: six digits.
    pub fn submit_second_factor(&self, code: &str, queue: QueueState) -> (r: Result<
        AuthCommand,
        ViewerError,
    >)
        ensures
            factor_answer(r, code@, queue),
    {
        if text::chars_of(code).len() != 6 || !text::only_digits(code) {
            return Err(ViewerError::InvalidOptions);
        }
        match queue_ready(queue) {
            Err(error) => Err(error),
            Ok(_) => Ok(AuthCommand::SecondFactor(code.to_owned())),
        }
    }

    /// The command that answers the question whether to go on without knowing who
    /// the peer is.
    pub fn continue_insecure(&self, allow: bool, queue: QueueState) -> (r: Result<
        AuthCommand,
        ViewerError,
    >)
        ensures
            insecure_answer(r, allow, queue),
    {
        match queue_ready(queue) {
            Err(error) => Err(error),
            Ok(_) => Ok(AuthCommand::ContinueInsecure(allow)),
        }
    }

    /// Whether input may be sent right now.
    pub fn input_allowed(&self) -> (r: bool)
        ensures
            r == self@.input_open(),
    {
        self.authenticated && self.remote_keyboard && !self.cancelled
    }

    /// What keeps pointer input from being sent, if something does.
    pub fn mouse_refusal(&self) -> (r: Option<&'static str>)
        ensures
            match r {
                Some(gate) => closed_gate(self@) == Some(gate@),
                None => closed_gate(self@) is None,
            },
    {
        if self.cancelled {
            return Some("cancelled");
        }
        if !self.authenticated {
            return Some("not_authenticated");
        }
        if !self.remote_keyboard {
            return Some("peer_permission_denied");
        }
        if self.geometry.is_none() {
            return Some("geometry_missing");
        }
        None
    }

    fn enqueue(&self, queue: QueueState) -> (r: Result<(), ViewerError>)
        ensures
            match r {
                Ok(_) => self@.send_refusal(queue) is None,
                Err(error) => self@.send_refusal(queue) == Some(error),
            },
    {
        if !self.control {
            return Err(ViewerError::NotAuthenticated);
        }
        queue_ready(queue)
    }

    fn send_option_control(&self, queue: QueueState) -> (r: Result<(), ViewerError>)
        ensures
            match r {
                Ok(_) => self@.control_refusal(queue) is None,
                Err(error) => self@.control_refusal(queue) == Some(error),
            },
    {
        if !self.authenticated || self.cancelled {
            return Err(ViewerError::NotAuthenticated);
        }
        self.enqueue(queue)
    }

    /// The message of a key going down or up.
    pub fn send_key(
        &self,
        key: ViewerKey,
        down: bool,
        press: bool,
        alt: bool,
        ctrl: bool,
        shift: bool,
        command: bool,
        queue: QueueState,
    ) -> (r: Result<Message, ViewerError>)
        ensures
            key_answer(
                r,
                self@,
                key,
                down,
                press,
                keys::modifiers_held(alt, ctrl, shift, command),
                queue,
            ),
    {
        if !self.input_allowed() {
            return Err(ViewerError::InputNotAllowed);
        }
        let payload = match key {
            ViewerKey::Character(code) => KeyPayload::Chr(code),
            ViewerKey::Control(control) => KeyPayload::Control(Some(control)),
        };
        let modifiers = keys::legacy_modifiers(alt, ctrl, shift, command);
        match self.enqueue(queue) {
            Err(error) => Err(error),
            Ok(_) => Ok(
                Message::KeyEvent(
                    KeyEvent { down, press, mode: KeyboardMode::Legacy, payload, modifiers },
                ),
            ),
        }
    }

    /// The message that types a text.
    pub fn send_text(&self, value: &str, queue: QueueState) -> (r: Result<Message, ViewerError>)
        ensures
            text_answer(r, self@, value@, queue),
    {
        if !self.input_allowed() {
            return Err(ViewerError::InputNotAllowed);
        }
        let len: usize = text::byte_len(value);
        if len == 0 || len > MAX_CLIPBOARD_TEXT {
            return Err(ViewerError::InvalidOptions);
        }
        match self.enqueue(queue) {
            Err(error) => Err(error),
            Ok(_) => {
                let modifiers: Vec<ControlKey> = Vec::new();
                Ok(
                    Message::KeyEvent(
                        KeyEvent {
                            down: false,
                            press: false,
                            mode: KeyboardMode::Legacy,
                            payload: KeyPayload::Text(value.to_owned()),
                            modifiers,
                        },
                    ),
                )
            },
        }
    }

    /// The message that puts a text on the clipboard of the peer. `compressed` is
    /// the text compressed, or empty where that failed.
    pub fn send_clipboard_text(&self, value: &str, compressed: &[u8], queue: QueueState) -> (r:
        Result<Message, ViewerError>)
        ensures
            clipboard_answer(r, self@, value@, compressed@, queue),
    {
        if !self.local_clipboard || !self.authenticated || !self.remote_clipboard
            || self.cancelled {
            return Err(ViewerError::InputNotAllowed);
        }
        let raw = value.as_bytes();
        if raw.len() == 0 || raw.len() > MAX_CLIPBOARD_TEXT {
            return Err(ViewerError::InvalidOptions);
        }
        let shorter = compressed.len() > 0 && compressed.len() < raw.len();
        let content = if shorter {
            vstd::slice::slice_to_vec(compressed)
        } else {
            vstd::slice::slice_to_vec(raw)
        };
        match self.enqueue(queue) {
            Err(error) => Err(error),
            Ok(_) => {
                let mut clipboards: Vec<Clipboard> = Vec::new();
                clipboards.push(Clipboard { is_text: true, compress: shorter, content });
                Ok(Message::MultiClipboards(clipboards))
            },
        }
    }

    /// Takes the oldest clipboard text that came in. A text is handed out once.
    pub fn take_clipboard_text(&mut self) -> (r: Option<String>)
        ensures
            taken_text(r, old(self)@, final(self)@),
    {
        if !self.local_clipboard {
            return None;
        }
        let taken = self.clipboard.pop_front();
        proof {
            if taken is Some {
                assert(self@.clipboard =~= old(self)@.clipboard.skip(1));
            }
        }
        taken
    }

    /// Changes the rate that is asked for. Before the peer let the viewer in, that
    /// changes only what the login will ask for; after that, the peer is told.
    pub fn set_requested_fps(&mut self, fps: u32, queue: QueueState) -> (r: Result<
        Option<Message>,
        ViewerError,
    >)
        ensures
            fps_answer(r, old(self)@, final(self)@, fps, queue),
    {
        if fps < 1 || fps > 240 {
            return Err(ViewerError::InvalidOptions);
        }
        let mut sent: Option<Message> = None;
        if self.authenticated {
            match self.send_option_control(queue) {
                Err(error) => {
                    return Err(error);
                },
                Ok(_) => {},
            }
            sent = Some(
                Message::Misc(
                    Misc::Options(
                        OptionMessage {
                            image_quality: ImageQuality::NotSet,
                            custom_image_quality: 0,
                            custom_fps: fps as i32,
                        },
                    ),
                ),
            );
        }
        self.requested_fps = fps;
        Ok(sent)
    }

    /// Changes the quality that is asked for, as [`Viewer::set_requested_fps`] does
    /// the rate.
    pub fn set_image_quality(&mut self, quality: ViewerImageQuality, queue: QueueState) -> (r:
        Result<Option<Message>, ViewerError>)
        ensures
            quality_answer(r, old(self)@, final(self)@, quality, queue),
    {
        if let ViewerImageQuality::Custom(value) = quality {
            if value < 10 || value > 2000 {
                return Err(ViewerError::InvalidOptions);
            }
        }
        let mut sent: Option<Message> = None;
        if self.authenticated {
            match self.send_option_control(queue) {
                Err(error) => {
                    return Err(error);
                },
                Ok(_) => {},
            }
            let custom_image_quality: i32 = match quality.custom_quality() {
                Some(value) => value,
                None => 0,
            };
            sent = Some(
                Message::Misc(
                    Misc::Options(
                        OptionMessage {
                            image_quality: quality.proto_quality(),
                            custom_image_quality,
                            custom_fps: 0,
                        },
                    ),
                ),
            );
        }
        self.image_quality = quality;
        Ok(sent)
    }

    /// The messages that ask the peer for another display: the request, and the
    /// question about the display. A queue with room for one takes the request only.
    pub fn switch_display(
        &self,
        display: i32,
        width: i32,
        height: i32,
        queue: QueueState,
    ) -> (r: (Vec<Message>, Result<(), ViewerError>))
        ensures
            r.1 == switch_result(self@, display, width, height, queue),
            r.0@ == switch_sent(self@, display, width, height, queue),
    {
        let mut messages: Vec<Message> = Vec::new();
        if display < 0 || width < 0 || height < 0 {
            return (messages, Err(ViewerError::InvalidOptions));
        }
        match self.send_option_control(queue) {
            Err(error) => {
                return (messages, Err(error));
            },
            Ok(_) => {},
        }
        messages.push(
            Message::Misc(
                Misc::SwitchDisplay(SwitchDisplay { display, x: 0, y: 0, width, height }),
            ),
        );
        if queue.room == 1 {
            assert(messages@ =~= switch_messages(display, width, height).take(1));
            return (messages, Err(ViewerError::Backpressure));
        }
        messages.push(Message::Misc(Misc::MessageQuery { switch_display: display }));
        assert(messages@ =~= switch_messages(display, width, height));
        (messages, Ok(()))
    }

    /// The message that asks the peer for another resolution of a display; zero
    /// leaves the choice to the peer.
    pub fn change_resolution(
        &self,
        display: i32,
        width: i32,
        height: i32,
        queue: QueueState,
    ) -> (r: Result<Message, ViewerError>)
        ensures
            r == resolution_result(self@, display, width, height, queue),
    {
        if display < 0 || width < 0 || height < 0 {
            return Err(ViewerError::InvalidOptions);
        }
        match self.send_option_control(queue) {
            Err(error) => Err(error),
            Ok(_) => Ok(Message::Misc(Misc::ChangeDisplayResolution { display, width, height })),
        }
    }

    /// The message that asks the peer to send its picture anew.
    pub fn refresh_video(&self, display: i32, queue: QueueState) -> (r: Result<
        Message,
        ViewerError,
    >)
        ensures
            r == refresh_result(self@, display, queue),
    {
        match self.send_option_control(queue) {
            Err(error) => Err(error),
            Ok(_) => {
                if display < 0 {
                    Ok(Message::Misc(Misc::RefreshVideo(true)))
                } else {
                    Ok(Message::Misc(Misc::RefreshVideoDisplay(display)))
                }
            },
        }
    }

    /// The message of a pointer action: `kind` is 0 for a move, 1 and 2 for a button
    /// going down and up, 3 for the wheel, 4 for a trackpad and 5 for a relative move.
    /// `queue` is the queue for input.
    pub fn send_mouse(&self, kind: u32, button: u32, x: i32, y: i32, queue: QueueState) -> (r:
        Result<Message, ViewerError>)
        ensures
            r == mouse_result(self@, kind, button, x, y, queue),
    {
        if !self.input_allowed() {
            return Err(ViewerError::InputNotAllowed);
        }
        let valid = if kind == 0 {
            button <= 0x1f
        } else if kind == 1 || kind == 2 {
            button == 1 || button == 2 || button == 4 || button == 8 || button == 16
        } else if kind <= 5 {
            button == 0
        } else {
            false
        };
        if !valid {
            return Err(ViewerError::InvalidMouse);
        }
        let mask: i32 = (kind + button * 8) as i32;
        let mut event = MouseEvent { mask, x, y };
        if kind <= 2 {
            match self.geometry {
                None => {
                    return Err(ViewerError::InputNotAllowed);
                },
                Some(g) => {
                    if x < 0 || y < 0 || x >= g.width || y >= g.height {
                        return Err(ViewerError::InvalidMouse);
                    }
                    match (x.checked_add(g.x), y.checked_add(g.y)) {
                        (Some(gx), Some(gy)) => {
                            event = MouseEvent { mask, x: gx, y: gy };
                        },
                        _ => {
                            return Err(ViewerError::InvalidMouse);
                        },
                    }
                },
            }
        }
        match queue_ready(queue) {
            Err(error) => Err(error),
            Ok(_) => Ok(Message::MouseEvent(event)),
        }
    }

    /// The viewer is to close: nothing more is sent, and the decoder closes too.
    pub fn request_close(&mut self)
        ensures
            final(self)@.closing(old(self)@),
    {
        self.authenticated = false;
        self.cancelled = true;
        if !self.snapshot.closed {
            self.snapshot.phase = "closing".to_owned();
        }
        match &mut self.decoder {
            Some(decoder) => {
                decoder.request_close();
            },
            None => {},
        }
    }

    /// Asks the viewer to close, and tells what became of its resources once its
    /// session is over; nothing means that it is not over yet. What went wrong in the
    /// session itself is told by the snapshot.
    pub fn close(&mut self) -> (r: Option<Result<(), ViewerError>>)
        ensures
            final(self)@.closing(old(self)@),
            r == (match old(self).result {
                None => None,
                Some(Reclaimed::Confirmed) => Some(Ok::<(), ViewerError>(())),
                Some(Reclaimed::Unconfirmed) => Some(
                    Err::<(), ViewerError>(ViewerError::ReclamationUnconfirmed),
                ),
                Some(Reclaimed::DestroyFailed(code)) => Some(
                    Err::<(), ViewerError>(
                        ViewerError::Decoder(DecoderError::DestroyFailed { code }),
                    ),
                ),
            }),
    {
        self.request_close();
        match self.result {
            None => None,
            Some(Reclaimed::Confirmed) => Some(Ok(())),
            Some(Reclaimed::Unconfirmed) => Some(Err(ViewerError::ReclamationUnconfirmed)),
            Some(Reclaimed::DestroyFailed(code)) => Some(
                Err(ViewerError::Decoder(DecoderError::DestroyFailed { code })),
            ),
        }
    }

    /// The session is over with `result`.
    pub fn finish(&mut self, result: &Result<(), ViewerError>)
        ensures
            final(self)@ == old(self)@.finished(*result),
    {
        self.authenticated = false;
        let reclaimed = if self.resources_unconfirmed {
            match result {
                Err(ViewerError::Decoder(error)) => match *error {
                    DecoderError::DestroyFailed { code } => Reclaimed::DestroyFailed(code),
                    _ => Reclaimed::Unconfirmed,
                },
                _ => Reclaimed::Unconfirmed,
            }
        } else {
            Reclaimed::Confirmed
        };
        self.snapshot.closed = true;
        self.snapshot.keyboard_allowed = false;
        self.snapshot.error = match result {
            Err(error) => Some(error.to_string()),
            Ok(_) => {
                if self.resources_unconfirmed {
                    Some(ViewerError::ReclamationUnconfirmed.to_string())
                } else {
                    None
                }
            },
        };
        self.snapshot.phase = if self.snapshot.error.is_none() {
            "closed".to_owned()
        } else {
            "failed".to_owned()
        };
        self.result = Some(reclaimed);
    }

    /// The viewer enters a phase.
    pub fn phase(&mut self, phase: &str)
        ensures
            final(self)@ == old(self)@.in_phase(phase@),
    {
        self.snapshot.phase = phase.to_owned();
    }

    /// The peer is reached over a route.
    pub fn route(&mut self, route: &str)
        ensures
            final(self)@ == old(self)@.routed(route@),
    {
        self.snapshot.route = route.to_owned();
    }

    /// It is known what the connection is.
    pub fn security(&mut self, encrypted: bool, peer_verified: bool)
        ensures
            final(self)@ == old(self)@.secured(encrypted, peer_verified),
    {
        self.snapshot.encrypted = encrypted;
        self.snapshot.peer_verified = peer_verified;
    }

    /// More units came in.
    pub fn units(&mut self, units: usize)
        requires
            old(self).snapshot.received_units + units <= u64::MAX,
        ensures
            final(self)@ == old(self)@.received(units as nat),
    {
        self.snapshot.received_units = self.snapshot.received_units + units as u64;
    }

    /// The peer let the viewer in, with what it says about itself and what it
    /// allows.
    pub fn granted(&mut self, info: PeerInfo, keyboard: bool, clipboard: bool)
        ensures
            final(self)@ == (ViewerView {
                peer_info: Some(info),
                remote_keyboard: keyboard,
                remote_clipboard: clipboard,
                authenticated: true,
                control: true,
                ..old(self)@
            }),
    {
        self.peer_info = Some(info);
        self.remote_keyboard = keyboard;
        self.remote_clipboard = clipboard;
        self.authenticated = true;
        self.control = true;
    }

    /// Native resources may be held, or are known to be free.
    pub fn holds_native(&mut self, held: bool)
        ensures
            final(self)@ == (ViewerView { resources_unconfirmed: held, ..old(self)@ }),
    {
        self.resources_unconfirmed = held;
    }

    /// Keeps what a closed decoder counted; where its worker ended cleanly, its
    /// resources are known to be free.
    pub fn count_closed(&mut self, stats: DecoderStats)
        ensures
            final(self)@ == (ViewerView {
                resources_unconfirmed: old(self)@.resources_unconfirmed && !(stats.closed
                    && !stats.quarantined),
                snapshot: ViewerSnapshotView {
                    pushed_units: ohos_decoder::saturated(
                        old(self)@.snapshot.pushed_units,
                        stats.pushed_units,
                    ),
                    render_submissions: ohos_decoder::saturated(
                        old(self)@.snapshot.render_submissions,
                        stats.render_submissions,
                    ),
                    ..old(self)@.snapshot
                },
                ..old(self)@
            }),
    {
        if stats.closed && !stats.quarantined {
            self.resources_unconfirmed = false;
        }
        self.snapshot.pushed_units =
        saturating_count(self.snapshot.pushed_units, stats.pushed_units);
        self.snapshot.render_submissions =
        saturating_count(self.snapshot.render_submissions, stats.render_submissions);
    }

    /// A new decoder decodes the picture of a display.
    pub fn start_decoding(&mut self, decoder: SurfaceDecoder, geometry: Geometry, codec: VideoCodec)
        ensures
            final(self)@ == old(self)@.decoding(decoder, geometry, codec),
    {
        self.decoder = Some(decoder);
        self.geometry = Some(geometry);
        self.snapshot.width = geometry.width;
        self.snapshot.height = geometry.height;
        self.snapshot.codec = match codec {
            VideoCodec::H264 => "H264".to_owned(),
            VideoCodec::H265 => "H265".to_owned(),
        };
        self.snapshot.phase = "decoding".to_owned();
    }

    /// Hands a unit to the decoder, or back where there is no room or it is refused.
    pub fn submit(&mut self, unit: AccessUnit, now: u64) -> (r: Submission)
        requires
            old(self)@.decoder is Some,
            !old(self).cancelled,
            old(self)@.decoder->0.shared matches Some(shared) ==> shared@.wf()
                && shared@.stats.accepted_units < u64::MAX,
        ensures
            final(self)@.decoder is Some,
            final(self)@ == (ViewerView { decoder: final(self)@.decoder, ..old(self)@ }),
            ({
                let stamped = AccessUnit { accepted_at: Some(now), dequeued_at: None, ..unit };
                match (old(self)@.decoder->0.shared, final(self)@.decoder->0.shared) {
                    (Some(before), Some(after)) => match r {
                        Submission::Accepted => before@.refusal(unit) is None && after@
                            == before@.accepting(stamped),
                        Submission::Waiting(kept) => before@.refusal(unit) == Some(
                            DecoderError::Backpressure,
                        ) && kept == stamped && after@ == before@,
                        Submission::Rejected(rejected) => {
                            &&& after@ == before@
                            &&& rejected.reason != DecoderError::Backpressure
                            &&& Some(rejected.reason) == before@.refusal(unit)
                        },
                    },
                    (before, after) => before is None && after is None && (
                    r matches Submission::Rejected(rejected) && rejected.reason
                        == DecoderError::UnsupportedPlatform),
                }
            }),
    {
        match &mut self.decoder {
            Some(decoder) => decoder.submit_cancellable(unit, false, now),
            None => Submission::Accepted,
        }
    }

    /// The peer shows a display.
    pub fn geometry(&mut self, geometry: Geometry)
        ensures
            final(self)@ == old(self)@.showing(geometry),
    {
        self.geometry = Some(geometry);
        self.snapshot.width = geometry.width;
        self.snapshot.height = geometry.height;
    }
}

/// A viewer that is closing sends nothing any more, whatever either side allowed.
pub proof fn lemma_closing_revokes_everything(
    before: ViewerView,
    after: ViewerView,
    kind: u32,
    button: u32,
    x: i32,
    y: i32,
    queue: QueueState,
)
    requires
        after.closing(before),
    ensures
        !after.input_open(),
        !after.clipboard_open(),
        after.control_refusal(queue) == Some(ViewerError::NotAuthenticated),
        mouse_event(after, kind, button, x, y) is Err,
        !after.seen().keyboard_allowed,
{
}

/// What a peer reports alone never opens a gate: input needs the login as well, and
/// the clipboard also the local user.
pub proof fn lemma_gates_need_both_sides(v: ViewerView)
    ensures
        v.input_open() ==> v.authenticated && v.remote_keyboard,
        v.clipboard_open() ==> v.authenticated && v.remote_clipboard && v.local_clipboard,
        v.seen().keyboard_allowed == v.input_open(),
        v.seen().clipboard_allowed == v.clipboard_open(),
{
}

/// No gate is closed exactly where a move inside the display is accepted.
pub proof fn lemma_gates_explain_refusals(v: ViewerView, x: i32, y: i32)
    requires
        v.geometry matches Some(g) ==> 0 <= x < g.width && 0 <= y < g.height && x + g.x <= i32::MAX
            && y + g.y <= i32::MAX,
    ensures
        closed_gate(v) is None <==> mouse_event(v, 0, 0, x, y) is Ok,
{
}

/// Whether resources are free is told apart from how the session went: an error of
/// the session alone never keeps them, and a clean session never frees them.
pub proof fn lemma_reclamation_is_independent(v: ViewerView, result: Result<(), ViewerError>)
    ensures
        v.reclaimed(result) is Confirmed <==> !v.resources_unconfirmed,
        v.finished(result).snapshot.error is None <==> result is Ok && !v.resources_unconfirmed,
{
}

} // verus!

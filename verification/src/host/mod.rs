//! A viewing host for a single peer that the operator approves explicitly.
//!
//! Authentication is no consent to capture. Input is injected only where the local
//! operator armed it, and files, audio and the clipboard are never granted.
use vstd::prelude::*;
use crate::publisher::{CodecSelection, PublisherBackend};
use crate::text;

pub mod access;
pub mod laws;
pub mod stream;


verus! {

/// A socket address as its parts are written.
#[derive(Debug, Clone, PartialEq, Eq)]
pub struct Address {
    /// The address without the port.
    pub ip: String,
    /// The address with the port.
    pub text: String,
    pub port: u16,
}

/// What a host is started with.
#[derive(Clone, PartialEq, Eq)]
pub struct HostOptions {
    pub listen: Address,
    pub id: String,
    pub signing_key: Vec<u8>,
    pub width: i32,
    pub height: i32,
    /// Bound of the screen source.
    pub fps: u32,
    pub bitrate: i64,
    /// Whether `bitrate` is a starting point to adapt from rather than a ceiling.
    pub bitrate_auto: bool,
    pub platform: String,
    pub publisher_backend: PublisherBackend,
    pub output_index: usize,
    pub codec_selection: CodecSelection,
    /// Explicit local consent to inject input into this machine.
    pub input_injection: bool,
    /// Whether this platform can inject input at all.
    pub input_sink: bool,
}

/// Why a host stops or drops a peer.
#[derive(Debug, Clone, Copy, PartialEq, Eq, Structural)]
pub enum HostError {
    InvalidOptions,
    NoRuntime,
    NoHardwareCodec,
    ListenFailed,
    TransportFailed,
    AuthenticationFailed,
    ApprovalDenied,
    NoCommonCodec,
    CaptureFailed,
    InvalidAccessUnit,
    UnsupportedDisplay,
    ReclamationUnconfirmed,
}

impl HostError {
    /// How the error is written out.
    pub open spec fn shown(self) -> Seq<char> {
        match self {
            HostError::InvalidOptions => "InvalidOptions"@,
            HostError::NoRuntime => "NoRuntime"@,
            HostError::NoHardwareCodec => "NoHardwareCodec"@,
            HostError::ListenFailed => "ListenFailed"@,
            HostError::TransportFailed => "TransportFailed"@,
            HostError::AuthenticationFailed => "AuthenticationFailed"@,
            HostError::ApprovalDenied => "ApprovalDenied"@,
            HostError::NoCommonCodec => "NoCommonCodec"@,
            HostError::CaptureFailed => "CaptureFailed"@,
            HostError::InvalidAccessUnit => "InvalidAccessUnit"@,
            HostError::UnsupportedDisplay => "UnsupportedDisplay"@,
            HostError::ReclamationUnconfirmed => "ReclamationUnconfirmed"@,
        }
    }

    /// The error as a string.
    pub fn to_string(&self) -> (r: String)
        ensures
            r@ == self.shown(),
    {
        match *self {
            HostError::InvalidOptions => "InvalidOptions".to_owned(),
            HostError::NoRuntime => "NoRuntime".to_owned(),
            HostError::NoHardwareCodec => "NoHardwareCodec".to_owned(),
            HostError::ListenFailed => "ListenFailed".to_owned(),
            HostError::TransportFailed => "TransportFailed".to_owned(),
            HostError::AuthenticationFailed => "AuthenticationFailed".to_owned(),
            HostError::ApprovalDenied => "ApprovalDenied".to_owned(),
            HostError::NoCommonCodec => "NoCommonCodec".to_owned(),
            HostError::CaptureFailed => "CaptureFailed".to_owned(),
            HostError::InvalidAccessUnit => "InvalidAccessUnit".to_owned(),
            HostError::UnsupportedDisplay => "UnsupportedDisplay".to_owned(),
            HostError::ReclamationUnconfirmed => "ReclamationUnconfirmed".to_owned(),
        }
    }
}

/// What an operator sees of a host.
#[derive(Debug, Clone, PartialEq, Eq)]
pub struct HostSnapshot {
    pub phase: &'static str,
    pub error: Option<HostError>,
    /// Number of the request that waits for approval, generated locally.
    pub approval_request: String,
    /// Where the request comes from, as the socket tells; no proof of identity.
    pub approval_origin: String,
    pub width: i32,
    pub height: i32,
    pub fps: u32,
    pub codec: &'static str,
    pub connected: bool,
    pub encrypted: bool,
    pub sent_units: u64,
    pub sent_bytes: u64,
    /// Actions that the platform took.
    pub injected_inputs: u64,
    /// Actions that the platform refused after local policy allowed them.
    pub refused_inputs: u64,
    /// Chat messages dropped: this host has no chat.
    pub dropped_chat_messages: u64,
    /// Input dropped for want of a permission, of a platform that injects, or of a
    /// meaning.
    pub dropped_inputs: u64,
    /// Display requests that a host with a single display cannot honour.
    pub ignored_display_requests: u64,
    /// How often capture had to be opened anew.
    pub capture_restarts: u64,
    /// Whether the peer wants the display of this host.
    pub video_subscribed: bool,
    pub closed: bool,
}

/// A snapshot with its texts as sequences.
pub struct HostSnapshotView {
    pub phase: Seq<char>,
    pub error: Option<HostError>,
    pub approval_request: Seq<char>,
    pub approval_origin: Seq<char>,
    pub width: i32,
    pub height: i32,
    pub fps: u32,
    pub codec: Seq<char>,
    pub connected: bool,
    pub encrypted: bool,
    pub sent_units: u64,
    pub sent_bytes: u64,
    pub injected_inputs: u64,
    pub refused_inputs: u64,
    pub dropped_chat_messages: u64,
    pub dropped_inputs: u64,
    pub ignored_display_requests: u64,
    pub capture_restarts: u64,
    pub video_subscribed: bool,
    pub closed: bool,
}

impl View for HostSnapshot {
    type V = HostSnapshotView;

    open spec fn view(&self) -> HostSnapshotView {
        HostSnapshotView {
            phase: self.phase@,
            error: self.error,
            approval_request: self.approval_request@,
            approval_origin: self.approval_origin@,
            width: self.width,
            height: self.height,
            fps: self.fps,
            codec: self.codec@,
            connected: self.connected,
            encrypted: self.encrypted,
            sent_units: self.sent_units,
            sent_bytes: self.sent_bytes,
            injected_inputs: self.injected_inputs,
            refused_inputs: self.refused_inputs,
            dropped_chat_messages: self.dropped_chat_messages,
            dropped_inputs: self.dropped_inputs,
            ignored_display_requests: self.ignored_display_requests,
            capture_restarts: self.capture_restarts,
            video_subscribed: self.video_subscribed,
            closed: self.closed,
        }
    }
}

/// The operator's decision about one request: nothing yet, yes or no.
#[derive(Debug, Clone, Copy, PartialEq, Eq, Structural)]
pub struct LocalGrant {
    pub epoch: u64,
    /// 0 for none, 1 for yes, 2 for no.
    pub decision: u8,
}

impl LocalGrant {
    /// No request.
    pub open spec fn idle() -> LocalGrant {
        LocalGrant { epoch: 0, decision: 0 }
    }

    /// Whether a decision about request `epoch` counts.
    pub open spec fn open_for(self, epoch: u64) -> bool {
        epoch != 0 && self.epoch == epoch && self.decision == 0
    }

    /// The grant after a decision about request `epoch`.
    pub open spec fn decided(self, epoch: u64, allow: bool) -> LocalGrant {
        if self.open_for(epoch) {
            LocalGrant {
                epoch: self.epoch,
                decision: if allow {
                    1
                } else {
                    2
                },
            }
        } else {
            self
        }
    }

    /// Takes the decision about request `epoch`, where it is the open one.
    pub fn decide(&mut self, epoch: u64, allow: bool) -> (r: bool)
        ensures
            r == old(self).open_for(epoch),
            *final(self) == old(self).decided(epoch, allow),
    {
        if epoch == 0 || self.epoch != epoch || self.decision != 0 {
            return false;
        }
        self.decision = if allow {
            1
        } else {
            2
        };
        true
    }
}

impl Default for LocalGrant {
    fn default() -> (r: LocalGrant)
        ensures
            r == LocalGrant::idle(),
    {
        LocalGrant { epoch: 0, decision: 0 }
    }
}

/// A decision that is stale, or repeated, never changes what another request gets.
pub proof fn lemma_decision_is_latched(
    grant: LocalGrant,
    first: u64,
    allow: bool,
    second: u64,
    next_allow: bool,
)
    requires
        grant.open_for(first),
    ensures
        grant.decided(first, allow).decided(second, next_allow) == grant.decided(first, allow),
        second != first ==> grant.decided(second, next_allow) == grant,
{
}

/// Whether the options of a host make sense.
pub open spec fn valid_options(o: HostOptions) -> bool {
    &&& 0 < vstd::utf8::encode_utf8(o.id@).len() <= 512
    &&& o.listen.port != 0
    &&& 1 <= o.width <= 8192
    &&& 1 <= o.height <= 8192
    &&& o.width * o.height <= 33_554_432
    &&& 1 <= o.fps <= 240
    &&& 100_000 <= o.bitrate <= 200_000_000
    &&& o.platform@.len() > 0
}

/// A host: what the operator sees, the decision that is open, and whether it is to
/// close or holds on to something that could not be released.
pub struct Host {
    pub snapshot: HostSnapshot,
    pub grant: LocalGrant,
    pub cancelled: bool,
    pub unreclaimed: bool,
}

/// A host as plain values.
pub struct HostView {
    pub snapshot: HostSnapshotView,
    pub grant: LocalGrant,
    pub cancelled: bool,
    pub unreclaimed: bool,
}

impl View for Host {
    type V = HostView;

    open spec fn view(&self) -> HostView {
        HostView {
            snapshot: self.snapshot@,
            grant: self.grant,
            cancelled: self.cancelled,
            unreclaimed: self.unreclaimed,
        }
    }
}

impl HostView {
    /// A host that was just started.
    pub open spec fn started(width: i32, height: i32, fps: u32) -> HostView {
        HostView {
            snapshot: HostSnapshotView {
                phase: "starting"@,
                error: None,
                approval_request: Seq::empty(),
                approval_origin: Seq::empty(),
                width,
                height,
                fps,
                codec: ""@,
                connected: false,
                encrypted: false,
                sent_units: 0,
                sent_bytes: 0,
                injected_inputs: 0,
                refused_inputs: 0,
                dropped_chat_messages: 0,
                dropped_inputs: 0,
                ignored_display_requests: 0,
                capture_restarts: 0,
                video_subscribed: true,
                closed: false,
            },
            grant: LocalGrant::idle(),
            cancelled: false,
            unreclaimed: false,
        }
    }

    /// The host with no request open.
    pub open spec fn cleared(self) -> HostView {
        HostView {
            grant: LocalGrant::idle(),
            snapshot: HostSnapshotView {
                approval_request: Seq::empty(),
                approval_origin: Seq::empty(),
                ..self.snapshot
            },
            ..self
        }
    }

    /// The host waiting for a peer.
    pub open spec fn listening(self) -> HostView {
        HostView {
            snapshot: HostSnapshotView {
                phase: "listening"@,
                connected: false,
                encrypted: false,
                ..self.snapshot
            },
            ..self
        }
    }

    /// The host with a new connection.
    pub open spec fn accepted(self) -> HostView {
        HostView {
            snapshot: HostSnapshotView {
                phase: "authenticating"@,
                error: None,
                sent_units: 0,
                sent_bytes: 0,
                ..self.snapshot
            },
            ..self
        }
    }

    /// The host after a peer is gone. Where native resources could not be confirmed
    /// to be free, it says that it stopped.
    pub open spec fn peer_gone(self, outcome: Result<(), HostError>) -> HostView {
        let cleared = self.cleared();
        match outcome {
            Ok(_) => cleared,
            Err(error) => HostView {
                snapshot: HostSnapshotView {
                    error: Some(error),
                    phase: if error is ReclamationUnconfirmed {
                        "stopped"@
                    } else {
                        cleared.snapshot.phase
                    },
                    ..cleared.snapshot
                },
                ..cleared
            },
        }
    }

    /// The host after it stopped serving.
    pub open spec fn ended(self, result: Result<(), HostError>) -> HostView {
        let cleared = self.cleared();
        HostView {
            snapshot: HostSnapshotView {
                error: match result {
                    Ok(_) => cleared.snapshot.error,
                    Err(error) => Some(error),
                },
                connected: false,
                encrypted: false,
                closed: !self.unreclaimed,
                phase: if self.unreclaimed {
                    "reclamation_unconfirmed"@
                } else {
                    "closed"@
                },
                ..cleared.snapshot
            },
            ..cleared
        }
    }
}

impl Host {
    /// A host with the given options, where they make sense.
    pub fn start(options: &HostOptions) -> (r: Result<Host, HostError>)
        ensures
            match r {
                Ok(host) => valid_options(*options) && host@ == HostView::started(
                    options.width,
                    options.height,
                    options.fps,
                ),
                Err(error) => !valid_options(*options) && error == HostError::InvalidOptions,
            },
    {
        let id_len: usize = text::byte_len(options.id.as_str());
        if id_len == 0 || id_len > 512 || options.listen.port == 0 || options.width < 1
            || options.width > 8192 || options.height < 1 || options.height > 8192 {
            return Err(HostError::InvalidOptions);
        }
        assert(0 <= options.width * options.height <= 8192 * 8192) by (nonlinear_arith)
            requires
                1 <= options.width <= 8192,
                1 <= options.height <= 8192,
        ;
        let area: i64 = options.width as i64 * options.height as i64;
        if area > 33_554_432 || options.fps < 1 || options.fps > 240 || options.bitrate < 100_000
            || options.bitrate > 200_000_000 || options.platform.as_str().is_empty() {
            return Err(HostError::InvalidOptions);
        }
        let host = Host {
            snapshot: HostSnapshot {
                phase: "starting",
                error: None,
                approval_request: String::new(),
                approval_origin: String::new(),
                width: options.width,
                height: options.height,
                fps: options.fps,
                codec: "",
                connected: false,
                encrypted: false,
                sent_units: 0,
                sent_bytes: 0,
                injected_inputs: 0,
                refused_inputs: 0,
                dropped_chat_messages: 0,
                dropped_inputs: 0,
                ignored_display_requests: 0,
                capture_restarts: 0,
                video_subscribed: true,
                closed: false,
            },
            grant: LocalGrant::default(),
            cancelled: false,
            unreclaimed: false,
        };
        assert(host@.snapshot.approval_request =~= Seq::<char>::empty());
        assert(host@.snapshot.approval_origin =~= Seq::<char>::empty());
        Ok(host)
    }

    /// What the operator sees.
    pub fn snapshot(&self) -> (r: &HostSnapshot)
        ensures
            *r == self.snapshot,
    {
        &self.snapshot
    }

    /// The operator's decision about a request, given by its number. It counts
    /// where that request is open and the host is not about to close.
    pub fn approve(&mut self, request_id: &str, allow: bool) -> (r: bool)
        ensures
            r == (!old(self).cancelled && match text::parsed_unsigned(
                request_id@,
                u64::MAX as nat,
            ) {
                Some(epoch) => old(self).grant.open_for(epoch as u64),
                None => false,
            }),
            final(self)@ == (HostView {
                grant: if r {
                    old(self).grant.decided(old(self).grant.epoch, allow)
                } else {
                    old(self).grant
                },
                ..old(self)@
            }),
    {
        match text::parse_unsigned(request_id, u64::MAX) {
            None => false,
            Some(epoch) => {
                if self.cancelled {
                    return false;
                }
                self.grant.decide(epoch, allow)
            },
        }
    }

    /// The host is to close.
    pub fn request_close(&mut self)
        ensures
            final(self)@ == (HostView { cancelled: true, ..old(self)@ }),
    {
        self.cancelled = true;
    }

    /// The result of closing, once the task of the host was waited for. One that
    /// panicked leaves it open whether everything was released.
    pub fn close(&mut self, panicked: bool) -> (r: Result<(), HostError>)
        ensures
            final(self)@ == (HostView {
                cancelled: true,
                unreclaimed: old(self).unreclaimed || panicked,
                ..old(self)@
            }),
            r == (if final(self).unreclaimed || !old(self).snapshot.closed {
                Err(HostError::ReclamationUnconfirmed)
            } else {
                Ok(())
            }),
    {
        self.request_close();
        if panicked {
            self.unreclaimed = true;
        }
        if self.unreclaimed || !self.snapshot.closed {
            Err(HostError::ReclamationUnconfirmed)
        } else {
            Ok(())
        }
    }

    /// No request is open any more.
    pub fn clear_request(&mut self)
        ensures
            final(self)@ == old(self)@.cleared(),
    {
        self.grant = LocalGrant::default();
        self.snapshot.approval_request = String::new();
        self.snapshot.approval_origin = String::new();
        assert(self@.snapshot.approval_request =~= Seq::<char>::empty());
        assert(self@.snapshot.approval_origin =~= Seq::<char>::empty());
    }

    /// The host waits for a peer.
    pub fn on_listening(&mut self)
        ensures
            final(self)@ == old(self)@.listening(),
    {
        self.snapshot.phase = "listening";
        self.snapshot.connected = false;
        self.snapshot.encrypted = false;
    }

    /// A connection was accepted.
    pub fn on_accepted(&mut self)
        ensures
            final(self)@ == old(self)@.accepted(),
    {
        self.snapshot.phase = "authenticating";
        self.snapshot.error = None;
        self.snapshot.sent_units = 0;
        self.snapshot.sent_bytes = 0;
    }

    /// The peer is gone. The host goes on listening unless native resources could
    /// not be confirmed to be free.
    pub fn on_peer_gone(&mut self, outcome: Result<(), HostError>) -> (r: Result<(), HostError>)
        ensures
            final(self)@ == old(self)@.peer_gone(outcome),
            r == (if outcome == Err::<(), HostError>(HostError::ReclamationUnconfirmed) {
                outcome
            } else {
                Ok(())
            }),
    {
        self.clear_request();
        match outcome {
            Ok(_) => Ok(()),
            Err(error) => {
                self.snapshot.error = Some(error);
                if error == HostError::ReclamationUnconfirmed {
                    self.snapshot.phase = "stopped";
                    return Err(error);
                }
                Ok(())
            },
        }
    }

    /// The host stopped serving.
    pub fn on_ended(&mut self, result: Result<(), HostError>)
        ensures
            final(self)@ == old(self)@.ended(result),
    {
        self.clear_request();
        if let Err(error) = result {
            self.snapshot.error = Some(error);
        }
        self.snapshot.connected = false;
        self.snapshot.encrypted = false;
        self.snapshot.closed = !self.unreclaimed;
        self.snapshot.phase = if self.unreclaimed {
            "reclamation_unconfirmed"
        } else {
            "closed"
        };
    }
}

/// A host that ended reports a clean close exactly where everything was released,
/// and only then does closing it succeed.
pub proof fn lemma_close_follows_release(host: HostView, result: Result<(), HostError>)
    ensures
        host.ended(result).snapshot.closed <==> !host.unreclaimed,
        host.ended(result).grant == LocalGrant::idle(),
        host.ended(result).snapshot.approval_request == Seq::<char>::empty(),
        !host.ended(result).snapshot.connected,
{
}

} // verus!

//! The way into a peer: which codecs are offered, what the login asks for, and the
//! exchange until the peer lets the viewer in.
use vstd::prelude::*;
use crate::message::{DisplayInfo, ImageQuality, PeerInfo};
use crate::publisher::Codec;
use crate::text;
use crate::viewer;
use crate::viewer::{AuthCommand, Connector, Geometry, Viewer, ViewerError, ViewerOptions};

verus! {

/// What is known of one hardware decoder.
#[derive(Debug)]
pub enum CodecReport {
    /// A decoder: whether it is one of hardware, its name, and how many buffer
    /// formats it has, where that is known.
    Found { hardware: bool, codec_name: String, formats: Option<usize> },
    UnsupportedPlatform,
    Failed,
}

/// Which codecs are decoded in hardware.
#[derive(Debug, Clone, Copy, PartialEq, Eq, Structural)]
pub struct Decoders {
    pub h264: bool,
    pub h265: bool,
}

/// Whether a decoder is good enough to be offered.
pub open spec fn offered(report: CodecReport) -> bool {
    match report {
        CodecReport::Found { hardware, codec_name, formats } => {
            &&& hardware
            &&& codec_name@.len() > 0
            &&& formats matches Some(n)
            &&& n > 0
        },
        _ => false,
    }
}

fn advertised(report: &CodecReport) -> (r: bool)
    ensures
        r == offered(*report),
{
    match report {
        CodecReport::Found { hardware, codec_name, formats } => {
            *hardware && !codec_name.as_str().is_empty() && match formats {
                Some(n) => *n > 0,
                None => false,
            }
        },
        _ => false,
    }
}

/// The codecs that are offered to a peer.
pub fn capabilities(h264: &CodecReport, h265: &CodecReport) -> (r: Result<Decoders, ViewerError>)
    ensures
        r == (if *h264 is UnsupportedPlatform && *h265 is UnsupportedPlatform {
            Err(ViewerError::UnsupportedPlatform)
        } else if !offered(*h264) && !offered(*h265) {
            Err(ViewerError::NoHardwareCodec)
        } else {
            Ok(Decoders { h264: offered(*h264), h265: offered(*h265) })
        }),
{
    match (h264, h265) {
        (CodecReport::UnsupportedPlatform, CodecReport::UnsupportedPlatform) => {
            return Err(ViewerError::UnsupportedPlatform);
        },
        _ => {},
    }
    let found = Decoders { h264: advertised(h264), h265: advertised(h265) };
    if !found.h264 && !found.h265 {
        return Err(ViewerError::NoHardwareCodec);
    }
    Ok(found)
}

/// What a login asks for. Audio, files and the camera are never asked for, and no
/// codec but those decoded in hardware.
#[derive(Debug)]
pub struct LoginRequest {
    pub username: String,
    pub my_id: String,
    pub my_name: String,
    pub my_platform: &'static str,
    pub version: &'static str,
    pub session_id: u64,
    pub video_ack_required: bool,
    pub decoders: Decoders,
    pub prefer: Codec,
    pub custom_fps: i32,
    pub image_quality: ImageQuality,
    pub custom_image_quality: i32,
    pub disable_audio: bool,
    pub disable_clipboard: bool,
    pub enable_file_transfer: bool,
    pub disable_keyboard: bool,
    pub disable_camera: bool,
}

/// Whether `r` is the request of a viewer with the given options.
pub open spec fn asks(r: LoginRequest, o: ViewerOptions, decoders: Decoders, random: u64) -> bool {
    &&& r.username@ == o.username@
    &&& r.my_id@ == o.local_id@
    &&& r.my_name@ == o.local_name@
    &&& r.my_platform@ == "HarmonyOS"@
    &&& r.version@ == "1.4.9"@
    &&& r.session_id == (if random == 0 {
        1
    } else {
        random
    })
    &&& !r.video_ack_required
    &&& r.decoders == decoders
    &&& r.prefer == (if decoders.h265 {
        Codec::H265
    } else {
        Codec::H264
    })
    &&& r.custom_fps == o.requested_fps
    &&& r.image_quality == o.image_quality.preset()
    &&& r.custom_image_quality == (match o.image_quality.custom() {
        Some(value) => value,
        None => 0,
    })
    &&& r.disable_audio
    &&& r.disable_clipboard == !o.clipboard_enabled
    &&& !r.enable_file_transfer
    &&& !r.disable_keyboard
    &&& r.disable_camera
}

/// The request of a viewer with the given options. `random` numbers the session and
/// must not repeat from one process to the next.
pub fn login_request(options: &ViewerOptions, decoders: Decoders, random: u64) -> (r: LoginRequest)
    requires
        options.requested_fps <= i32::MAX,
    ensures
        asks(r, *options, decoders, random),
{
    LoginRequest {
        username: options.username.clone(),
        my_id: options.local_id.clone(),
        my_name: options.local_name.clone(),
        my_platform: "HarmonyOS",
        version: "1.4.9",
        session_id: if random == 0 {
            1
        } else {
            random
        },
        video_ack_required: false,
        decoders,
        prefer: if decoders.h265 {
            Codec::H265
        } else {
            Codec::H264
        },
        custom_fps: options.requested_fps as i32,
        image_quality: options.image_quality.proto_quality(),
        custom_image_quality: match options.image_quality.custom_quality() {
            Some(value) => value,
            None => 0,
        },
        disable_audio: true,
        disable_clipboard: !options.clipboard_enabled,
        enable_file_transfer: false,
        disable_keyboard: false,
        disable_camera: true,
    }
}

/// The display that a peer shows, where it reports a sensible one.
pub open spec fn current_geometry(current: i32, displays: Seq<DisplayInfo>) -> Option<Geometry> {
    if 0 <= current < displays.len() && displays[current as int].width > 0
        && displays[current as int].height > 0 {
        let display = displays[current as int];
        Some(
            Geometry {
                display: current,
                x: display.x,
                y: display.y,
                width: display.width,
                height: display.height,
            },
        )
    } else {
        None
    }
}

/// The display that a peer shows.
pub fn geometry(info: &PeerInfo) -> (r: Result<Geometry, ViewerError>)
    ensures
        match r {
            Ok(found) => current_geometry(info.current_display, info.displays@) == Some(found),
            Err(error) => current_geometry(info.current_display, info.displays@) is None && error
                == ViewerError::InvalidPeerGeometry,
        },
{
    if info.current_display < 0 || info.current_display as u64 >= info.displays.len() as u64 {
        return Err(ViewerError::InvalidPeerGeometry);
    }
    let display = &info.displays[info.current_display as usize];
    if display.width <= 0 || display.height <= 0 {
        return Err(ViewerError::InvalidPeerGeometry);
    }
    Ok(
        Geometry {
            display: info.current_display,
            x: display.x,
            y: display.y,
            width: display.width,
            height: display.height,
        },
    )
}

/// How a peer that was found by its number is reached.
#[derive(Debug, Clone, Copy, PartialEq, Eq, Structural)]
pub enum RouteKind {
    TcpHolePunch,
    Relay,
}

/// What happens during a login.
pub enum LoginEvent {
    /// The connection could not be made.
    ConnectFailed,
    /// A direct connection is there.
    Connected,
    /// A peer was reached by its number; what the connection turned out to be.
    Reached { encrypted: bool, peer_verified: bool, route: RouteKind },
    /// A command of the user.
    Command(AuthCommand),
    /// There will be no more commands.
    CommandsClosed,
    /// What was to be sent was sent, or was not.
    Sent { delivered: bool },
    /// Receiving failed.
    ReceiveFailed,
    /// The peer asks for a login.
    Challenge,
    /// The peer lets the viewer in; `complete` says whether the session could be
    /// taken over.
    Authorized { complete: bool },
    /// The peer refuses the login with a text.
    LoginError(String),
    /// The peer closed the connection.
    Closed,
    /// The exchange goes on.
    Progress,
    /// Something that has no place in a login.
    Unexpected,
}

/// An event with its texts as sequences.
pub enum LoginEventView {
    ConnectFailed,
    Connected,
    Reached { encrypted: bool, peer_verified: bool, route: RouteKind },
    Password(Seq<char>),
    SecondFactor(Seq<char>),
    ContinueInsecure(bool),
    CommandsClosed,
    Sent { delivered: bool },
    ReceiveFailed,
    Challenge,
    Authorized { complete: bool },
    LoginError(Seq<char>),
    Closed,
    Progress,
    Unexpected,
}

impl View for LoginEvent {
    type V = LoginEventView;

    open spec fn view(&self) -> LoginEventView {
        match *self {
            LoginEvent::ConnectFailed => LoginEventView::ConnectFailed,
            LoginEvent::Connected => LoginEventView::Connected,
            LoginEvent::Reached { encrypted, peer_verified, route } => LoginEventView::Reached {
                encrypted,
                peer_verified,
                route,
            },
            LoginEvent::Command(AuthCommand::Password(p)) => LoginEventView::Password(p@),
            LoginEvent::Command(AuthCommand::SecondFactor(c)) => LoginEventView::SecondFactor(c@),
            LoginEvent::Command(AuthCommand::ContinueInsecure(allow)) =>
            LoginEventView::ContinueInsecure(allow),
            LoginEvent::CommandsClosed => LoginEventView::CommandsClosed,
            LoginEvent::Sent { delivered } => LoginEventView::Sent { delivered },
            LoginEvent::ReceiveFailed => LoginEventView::ReceiveFailed,
            LoginEvent::Challenge => LoginEventView::Challenge,
            LoginEvent::Authorized { complete } => LoginEventView::Authorized { complete },
            LoginEvent::LoginError(t) => LoginEventView::LoginError(t@),
            LoginEvent::Closed => LoginEventView::Closed,
            LoginEvent::Progress => LoginEventView::Progress,
            LoginEvent::Unexpected => LoginEventView::Unexpected,
        }
    }
}

/// What the login waits for.
#[derive(Debug, Clone, Copy, PartialEq, Eq, Structural)]
pub enum Stage {
    /// A direct connection to a peer, which has to be confirmed where its identity
    /// is not checked.
    Connecting { confirm: bool },
    /// A peer found by its number.
    Finding,
    /// The user's consent to a peer that is not verified.
    AwaitingInsecure,
    /// The peer alone.
    Network,
    /// A password or the peer.
    Password,
    /// A second factor or the peer.
    SecondFactor,
    /// The first request is being sent; then the peer or what was waited for.
    SendingFirst { next: Waiting },
    /// An answer of the user is being sent.
    SendingAnswer,
    /// It is over.
    Over,
}

/// What the exchange with the peer waits for.
#[derive(Debug, Clone, Copy, PartialEq, Eq, Structural)]
pub enum Waiting {
    Network,
    Password,
    SecondFactor,
}

/// What the login does next.
pub enum LoginStep {
    /// Makes the connection.
    Connect,
    /// Waits for a command only.
    WaitCommand,
    /// Waits for the peer only.
    WaitNetwork,
    /// Waits for the peer or a command.
    WaitEither,
    /// Sends the request, with a password or without.
    SendLogin { password: Option<String> },
    /// Sends a second factor.
    SendSecondFactor(String),
    /// The viewer is in.
    Authorized,
    Failed(ViewerError),
}

/// A step with its texts as sequences.
pub enum LoginStepView {
    Connect,
    WaitCommand,
    WaitNetwork,
    WaitEither,
    SendLogin { password: Option<Seq<char>> },
    SendSecondFactor(Seq<char>),
    Authorized,
    Failed(ViewerError),
}

impl View for LoginStep {
    type V = LoginStepView;

    open spec fn view(&self) -> LoginStepView {
        match *self {
            LoginStep::Connect => LoginStepView::Connect,
            LoginStep::WaitCommand => LoginStepView::WaitCommand,
            LoginStep::WaitNetwork => LoginStepView::WaitNetwork,
            LoginStep::WaitEither => LoginStepView::WaitEither,
            LoginStep::SendLogin { password } => LoginStepView::SendLogin {
                password: match password {
                    Some(p) => Some(p@),
                    None => None,
                },
            },
            LoginStep::SendSecondFactor(code) => LoginStepView::SendSecondFactor(code@),
            LoginStep::Authorized => LoginStepView::Authorized,
            LoginStep::Failed(error) => LoginStepView::Failed(error),
        }
    }
}

/// A login: what it waits for, the password it was given, and whether the first
/// request was sent.
pub struct Login {
    pub stage: Stage,
    pub password: String,
    pub requested: bool,
}

/// What an event makes of a login: the next stage, whether the first request was
/// sent, the phase and the route that the viewer then shows, where they change, and
/// the step.
pub struct LoginChange {
    pub stage: Stage,
    pub requested: bool,
    pub phase: Option<Seq<char>>,
    pub route: Option<Seq<char>>,
    pub step: LoginStepView,
}

/// A stage in which the exchange waits.
pub open spec fn waiting_stage(next: Waiting) -> Stage {
    match next {
        Waiting::Network => Stage::Network,
        Waiting::Password => Stage::Password,
        Waiting::SecondFactor => Stage::SecondFactor,
    }
}

/// How a stage waits.
pub open spec fn waiting_step(stage: Stage) -> LoginStepView {
    match stage {
        Stage::Network => LoginStepView::WaitNetwork,
        _ => LoginStepView::WaitEither,
    }
}

/// The login goes on waiting.
pub open spec fn stay(stage: Stage, requested: bool) -> LoginChange {
    LoginChange { stage, requested, phase: None, route: None, step: waiting_step(stage) }
}

/// The login fails.
pub open spec fn fail(requested: bool, error: ViewerError) -> LoginChange {
    LoginChange {
        stage: Stage::Over,
        requested,
        phase: None,
        route: None,
        step: LoginStepView::Failed(error),
    }
}

/// The exchange with the peer begins.
pub open spec fn exchange(requested: bool, route: Option<Seq<char>>) -> LoginChange {
    LoginChange {
        stage: Stage::Network,
        requested,
        phase: Some("authenticating"@),
        route,
        step: LoginStepView::WaitNetwork,
    }
}

/// The refusal of a login: some texts ask for something, every other one ends it.
pub open spec fn refused(requested: bool, text: Seq<char>) -> LoginChange {
    if text == "No Password Access"@ {
        LoginChange {
            stage: Stage::Network,
            requested,
            phase: Some("awaiting_approval"@),
            route: None,
            step: LoginStepView::WaitNetwork,
        }
    } else if text == "Wrong Password"@ {
        LoginChange {
            stage: Stage::Password,
            requested,
            phase: Some("awaiting_password"@),
            route: None,
            step: LoginStepView::WaitEither,
        }
    } else if text == "2FA Required"@ || text == "Wrong 2FA Code"@ {
        LoginChange {
            stage: Stage::SecondFactor,
            requested,
            phase: Some(
                if text == "Wrong 2FA Code"@ {
                    "awaiting_2fa_retry"@
                } else {
                    "awaiting_2fa"@
                },
            ),
            route: None,
            step: LoginStepView::WaitEither,
        }
    } else {
        fail(requested, ViewerError::AuthenticationFailed)
    }
}

/// What an event makes of a login that is connecting. A connection that is not what
/// the server vouched for is none.
pub open spec fn on_connecting(
    stage: Stage,
    requested: bool,
    event: LoginEventView,
) -> LoginChange {
    match (stage, event) {
        (Stage::Connecting { .. }, LoginEventView::ConnectFailed) => fail(
            requested,
            ViewerError::ConnectFailed,
        ),
        (Stage::Finding, LoginEventView::ConnectFailed) => fail(
            requested,
            ViewerError::RendezvousFailed,
        ),
        (Stage::Connecting { confirm }, LoginEventView::Connected) => if confirm {
            LoginChange {
                stage: Stage::AwaitingInsecure,
                requested,
                phase: Some("awaiting_insecure_confirmation"@),
                route: Some("direct_tcp"@),
                step: LoginStepView::WaitCommand,
            }
        } else {
            exchange(requested, Some("direct_tcp"@))
        },
        (Stage::Finding, LoginEventView::Reached { encrypted, peer_verified, route }) => if encrypted
            && peer_verified {
            exchange(
                requested,
                Some(
                    match route {
                        RouteKind::TcpHolePunch => "tcp_hole_punch"@,
                        RouteKind::Relay => "relay"@,
                    },
                ),
            )
        } else {
            fail(requested, ViewerError::RendezvousFailed)
        },
        _ => LoginChange {
            stage,
            requested,
            phase: None,
            route: None,
            step: LoginStepView::Connect,
        },
    }
}

/// What an event makes of a login that waits for consent: a password or a second
/// factor cannot stand in for it.
pub open spec fn on_insecure(requested: bool, event: LoginEventView) -> LoginChange {
    match event {
        LoginEventView::CommandsClosed => fail(requested, ViewerError::Closed),
        LoginEventView::ContinueInsecure(allow) => if allow {
            exchange(requested, None)
        } else {
            fail(requested, ViewerError::AuthenticationFailed)
        },
        _ => LoginChange {
            stage: Stage::AwaitingInsecure,
            requested,
            phase: None,
            route: None,
            step: LoginStepView::WaitCommand,
        },
    }
}

/// What an event makes of a login in the middle of the exchange.
pub open spec fn on_exchange(
    stage: Stage,
    password: Seq<char>,
    requested: bool,
    event: LoginEventView,
) -> LoginChange {
    match event {
        LoginEventView::Password(given) => if stage is Password {
            if requested {
                LoginChange {
                    stage: Stage::SendingAnswer,
                    requested,
                    phase: None,
                    route: None,
                    step: LoginStepView::SendLogin { password: Some(given) },
                }
            } else {
                fail(requested, ViewerError::AuthenticationFailed)
            }
        } else {
            stay(stage, requested)
        },
        LoginEventView::SecondFactor(code) => if stage is SecondFactor {
            LoginChange {
                stage: Stage::SendingAnswer,
                requested,
                phase: None,
                route: None,
                step: LoginStepView::SendSecondFactor(code),
            }
        } else {
            stay(stage, requested)
        },
        LoginEventView::ContinueInsecure(_) => stay(stage, requested),
        LoginEventView::CommandsClosed => if stage is Network {
            stay(stage, requested)
        } else {
            fail(requested, ViewerError::Closed)
        },
        LoginEventView::ReceiveFailed => fail(requested, ViewerError::AuthenticationFailed),
        LoginEventView::Challenge => LoginChange {
            stage: Stage::SendingFirst {
                next: match stage {
                    Stage::Password => Waiting::Password,
                    Stage::SecondFactor => Waiting::SecondFactor,
                    _ => Waiting::Network,
                },
            },
            requested,
            phase: None,
            route: None,
            step: LoginStepView::SendLogin {
                password: if password.len() == 0 {
                    None
                } else {
                    Some(password)
                },
            },
        },
        LoginEventView::Authorized { complete } => if complete {
            LoginChange {
                stage: Stage::Over,
                requested,
                phase: None,
                route: None,
                step: LoginStepView::Authorized,
            }
        } else {
            fail(requested, ViewerError::AuthenticationFailed)
        },
        LoginEventView::LoginError(text) => refused(requested, text),
        LoginEventView::Closed => fail(requested, ViewerError::RemoteClosed),
        LoginEventView::Progress => stay(stage, requested),
        _ => fail(requested, ViewerError::AuthenticationFailed),
    }
}

/// What an event makes of a login.
pub open spec fn login_change(
    stage: Stage,
    password: Seq<char>,
    requested: bool,
    event: LoginEventView,
) -> LoginChange {
    match stage {
        Stage::Connecting { .. } | Stage::Finding => on_connecting(stage, requested, event),
        Stage::AwaitingInsecure => on_insecure(requested, event),
        Stage::SendingFirst { next } => if event == (LoginEventView::Sent { delivered: true }) {
            stay(waiting_stage(next), true)
        } else {
            fail(requested, ViewerError::AuthenticationFailed)
        },
        Stage::SendingAnswer => if event == (LoginEventView::Sent { delivered: true }) {
            exchange(requested, None)
        } else {
            fail(requested, ViewerError::AuthenticationFailed)
        },
        Stage::Over => fail(requested, ViewerError::Closed),
        _ => on_exchange(stage, password, requested, event),
    }
}

/// The viewer after a change.
pub open spec fn viewer_after(v: viewer::ViewerView, change: LoginChange) -> viewer::ViewerView {
    let routed = match change.route {
        Some(route) => v.routed(route),
        None => v,
    };
    match change.phase {
        Some(phase) => routed.in_phase(phase),
        None => routed,
    }
}

fn same_waiting(stage: Stage) -> (r: LoginStep)
    ensures
        r@ == waiting_step(stage),
{
    match stage {
        Stage::Network => LoginStep::WaitNetwork,
        _ => LoginStep::WaitEither,
    }
}

impl Login {
    /// Starts a login over a connector with the password that the viewer was given.
    pub fn begin(viewer: &mut Viewer, connector: &Connector, password: String) -> (r: (
        Login,
        LoginStep,
    ))
        ensures
            r.0.password == password,
            !r.0.requested,
            r.0.stage == (match *connector {
                Connector::Unverified => Stage::Connecting { confirm: true },
                Connector::Pinned { .. } => Stage::Connecting { confirm: false },
                Connector::Rendezvous { .. } => Stage::Finding,
            }),
            r.1 is Connect,
            final(viewer)@ == old(viewer)@.in_phase(
                if *connector is Rendezvous {
                    "rendezvous"@
                } else {
                    "connecting"@
                },
            ),
    {
        let stage = match connector {
            Connector::Unverified => Stage::Connecting { confirm: true },
            Connector::Pinned { .. } => Stage::Connecting { confirm: false },
            Connector::Rendezvous { .. } => Stage::Finding,
        };
        match connector {
            Connector::Rendezvous { .. } => viewer.phase("rendezvous"),
            _ => viewer.phase("connecting"),
        }
        (Login { stage, password, requested: false }, LoginStep::Connect)
    }

    fn failed(&mut self, error: ViewerError) -> (r: LoginStep)
        ensures
            final(self).stage is Over,
            final(self).password == old(self).password,
            final(self).requested == old(self).requested,
            r == LoginStep::Failed(error),
    {
        self.stage = Stage::Over;
        LoginStep::Failed(error)
    }

    fn refuse(&mut self, viewer: &mut Viewer, reason: &str) -> (r: LoginStep)
        ensures
            ({
                let change = refused(old(self).requested, reason@);
                &&& final(self).stage == change.stage
                &&& final(self).requested == change.requested
                &&& final(self).password == old(self).password
                &&& r@ == change.step
                &&& final(viewer)@ == viewer_after(old(viewer)@, change)
            }),
    {
        if text::same_text(reason, "No Password Access") {
            viewer.phase("awaiting_approval");
            self.stage = Stage::Network;
            LoginStep::WaitNetwork
        } else if text::same_text(reason, "Wrong Password") {
            viewer.phase("awaiting_password");
            self.stage = Stage::Password;
            LoginStep::WaitEither
        } else if text::same_text(reason, "2FA Required") || text::same_text(
            reason,
            "Wrong 2FA Code",
        ) {
            if text::same_text(reason, "Wrong 2FA Code") {
                viewer.phase("awaiting_2fa_retry");
            } else {
                viewer.phase("awaiting_2fa");
            }
            self.stage = Stage::SecondFactor;
            LoginStep::WaitEither
        } else {
            self.failed(ViewerError::AuthenticationFailed)
        }
    }

    fn on_connection(&mut self, viewer: &mut Viewer, event: LoginEvent) -> (r: LoginStep)
        requires
            old(self).stage is Connecting || old(self).stage is Finding,
        ensures
            ({
                let change = on_connecting(old(self).stage, old(self).requested, event@);
                &&& final(self).stage == change.stage
                &&& final(self).requested == change.requested
                &&& final(self).password == old(self).password
                &&& r@ == change.step
                &&& final(viewer)@ == viewer_after(old(viewer)@, change)
            }),
    {
        match event {
            LoginEvent::ConnectFailed => {
                if self.stage == Stage::Finding {
                    self.failed(ViewerError::RendezvousFailed)
                } else {
                    self.failed(ViewerError::ConnectFailed)
                }
            },
            LoginEvent::Connected => {
                match self.stage {
                    Stage::Connecting { confirm } => {
                        self.connected(viewer, confirm)
                    },
                    _ => LoginStep::Connect,
                }
            },
            LoginEvent::Reached { encrypted, peer_verified, route } => {
                if self.stage != Stage::Finding {
                    return LoginStep::Connect;
                }
                if !encrypted || !peer_verified {
                    return self.failed(ViewerError::RendezvousFailed);
                }
                match route {
                    RouteKind::TcpHolePunch => viewer.route("tcp_hole_punch"),
                    RouteKind::Relay => viewer.route("relay"),
                }
                viewer.phase("authenticating");
                self.stage = Stage::Network;
                LoginStep::WaitNetwork
            },
            _ => LoginStep::Connect,
        }
    }

    fn connected(&mut self, viewer: &mut Viewer, confirm: bool) -> (r: LoginStep)
        requires
            old(self).stage == (Stage::Connecting { confirm }),
        ensures
            ({
                let change = on_connecting(
                    old(self).stage,
                    old(self).requested,
                    LoginEventView::Connected,
                );
                &&& final(self).stage == change.stage
                &&& final(self).requested == change.requested
                &&& final(self).password == old(self).password
                &&& r@ == change.step
                &&& final(viewer)@ == viewer_after(old(viewer)@, change)
            }),
    {
        viewer.route("direct_tcp");
        if confirm {
            viewer.phase("awaiting_insecure_confirmation");
            self.stage = Stage::AwaitingInsecure;
            LoginStep::WaitCommand
        } else {
            viewer.phase("authenticating");
            self.stage = Stage::Network;
            LoginStep::WaitNetwork
        }
    }

    /// What the login does next.
    pub fn on_event(&mut self, viewer: &mut Viewer, event: LoginEvent) -> (r: LoginStep)
        ensures
            ({
                let change = login_change(
                    old(self).stage,
                    old(self).password@,
                    old(self).requested,
                    event@,
                );
                &&& final(self).stage == change.stage
                &&& final(self).requested == change.requested
                &&& final(self).password == old(self).password
                &&& r@ == change.step
                &&& final(viewer)@ == viewer_after(old(viewer)@, change)
            }),
    {
        match self.stage {
            Stage::Connecting { .. } => self.on_connection(viewer, event),
            Stage::Finding => self.on_connection(viewer, event),
            Stage::AwaitingInsecure => {
                match event {
                    LoginEvent::CommandsClosed => self.failed(ViewerError::Closed),
                    LoginEvent::Command(AuthCommand::ContinueInsecure(allow)) => {
                        if !allow {
                            return self.failed(ViewerError::AuthenticationFailed);
                        }
                        viewer.phase("authenticating");
                        self.stage = Stage::Network;
                        LoginStep::WaitNetwork
                    },
                    _ => LoginStep::WaitCommand,
                }
            },
            Stage::SendingFirst { next } => {
                match event {
                    LoginEvent::Sent { delivered } => {
                        if !delivered {
                            return self.failed(ViewerError::AuthenticationFailed);
                        }
                        self.requested = true;
                        self.stage = match next {
                            Waiting::Network => Stage::Network,
                            Waiting::Password => Stage::Password,
                            Waiting::SecondFactor => Stage::SecondFactor,
                        };
                        same_waiting(self.stage)
                    },
                    _ => self.failed(ViewerError::AuthenticationFailed),
                }
            },
            Stage::SendingAnswer => {
                match event {
                    LoginEvent::Sent { delivered } => {
                        if !delivered {
                            return self.failed(ViewerError::AuthenticationFailed);
                        }
                        viewer.phase("authenticating");
                        self.stage = Stage::Network;
                        LoginStep::WaitNetwork
                    },
                    _ => self.failed(ViewerError::AuthenticationFailed),
                }
            },
            Stage::Over => self.failed(ViewerError::Closed),
            _ => self.authenticate(viewer, event),
        }
    }

    fn authenticate(&mut self, viewer: &mut Viewer, event: LoginEvent) -> (r: LoginStep)
        requires
            old(self).stage is Network || old(self).stage is Password || old(self).stage
                is SecondFactor,
        ensures
            ({
                let change = on_exchange(
                    old(self).stage,
                    old(self).password@,
                    old(self).requested,
                    event@,
                );
                &&& final(self).stage == change.stage
                &&& final(self).requested == change.requested
                &&& final(self).password == old(self).password
                &&& r@ == change.step
                &&& final(viewer)@ == viewer_after(old(viewer)@, change)
            }),
    {
        match event {
            LoginEvent::Command(command) => match command {
                AuthCommand::Password(given) => {
                    if self.stage != Stage::Password {
                        return same_waiting(self.stage);
                    }
                    if !self.requested {
                        return self.failed(ViewerError::AuthenticationFailed);
                    }
                    self.stage = Stage::SendingAnswer;
                    LoginStep::SendLogin { password: Some(given) }
                },
                AuthCommand::SecondFactor(code) => {
                    if self.stage != Stage::SecondFactor {
                        return same_waiting(self.stage);
                    }
                    self.stage = Stage::SendingAnswer;
                    LoginStep::SendSecondFactor(code)
                },
                AuthCommand::ContinueInsecure(_) => same_waiting(self.stage),
            },
            LoginEvent::CommandsClosed => {
                if self.stage == Stage::Network {
                    return LoginStep::WaitNetwork;
                }
                self.failed(ViewerError::Closed)
            },
            LoginEvent::ReceiveFailed => self.failed(ViewerError::AuthenticationFailed),
            LoginEvent::Challenge => {
                let next = match self.stage {
                    Stage::Password => Waiting::Password,
                    Stage::SecondFactor => Waiting::SecondFactor,
                    _ => Waiting::Network,
                };
                self.stage = Stage::SendingFirst { next };
                let password = if self.password.as_str().is_empty() {
                    None
                } else {
                    Some(self.password.clone())
                };
                LoginStep::SendLogin { password }
            },
            LoginEvent::Authorized { complete } => {
                if !complete {
                    return self.failed(ViewerError::AuthenticationFailed);
                }
                self.stage = Stage::Over;
                LoginStep::Authorized
            },
            LoginEvent::LoginError(reason) => self.refuse(viewer, reason.as_str()),
            LoginEvent::Closed => self.failed(ViewerError::RemoteClosed),
            LoginEvent::Progress => same_waiting(self.stage),
            _ => self.failed(ViewerError::AuthenticationFailed),
        }
    }
}

/// Nothing secret leaves the viewer before the user agreed to a peer that is not
/// verified: whatever happens in that stage, nothing is sent, and only the consent
/// leads out of it.
pub proof fn lemma_consent_comes_first(password: Seq<char>, requested: bool, event: LoginEventView)
    ensures
        ({
            let change = login_change(Stage::AwaitingInsecure, password, requested, event);
            &&& !(change.step is SendLogin) && !(change.step is SendSecondFactor)
            &&& !(change.step is Authorized)
            &&& change.stage is AwaitingInsecure || change.stage is Over || event
                == LoginEventView::ContinueInsecure(true)
        }),
{
}

/// A direct connection to a peer that is not verified always comes to the question.
pub proof fn lemma_unverified_peer_is_asked_about(password: Seq<char>, requested: bool)
    ensures
        login_change(
            Stage::Connecting { confirm: true },
            password,
            requested,
            LoginEventView::Connected,
        ).stage is AwaitingInsecure,
{
}

/// A password of the user is sent only when the peer asked for one, and a second
/// factor only when it asked for that.
pub proof fn lemma_answers_are_asked_for(
    stage: Stage,
    password: Seq<char>,
    requested: bool,
    given: Seq<char>,
)
    ensures
        login_change(stage, password, requested, LoginEventView::Password(given)).step
            is SendLogin ==> stage is Password,
        login_change(stage, password, requested, LoginEventView::SecondFactor(given)).step
            is SendSecondFactor ==> stage is SecondFactor,
{
}

/// A peer found by its number is let through only encrypted and verified.
pub proof fn lemma_found_peer_is_verified(
    password: Seq<char>,
    requested: bool,
    event: LoginEventView,
)
    requires
        login_change(Stage::Finding, password, requested, event).stage is Network,
    ensures
        event matches LoginEventView::Reached { encrypted, peer_verified, .. } && encrypted
            && peer_verified,
{
}

} // verus!

//! What holds of a viewer as a whole: from the login to the picture.
use vstd::prelude::*;
use crate::authentication::Permissions;
use crate::control_key::ControlKey;
use crate::host::stream;
use crate::input;
use crate::input::{MouseAction, MouseButton};
use crate::message::{
    Clipboard, EncodedFrame, ImageQuality, KeyPayload, Message, Misc, MouseEvent, OptionMessage,
    PeerInfo, Permission, SwitchDisplay, VideoFrame, VideoPayload,
};
use crate::platform::ohos_decoder::VideoCodec;
use crate::publisher::{Codec, EncodedUnit};
use crate::text;
use crate::viewer;
use crate::viewer::feed;
use crate::viewer::keys::ViewerKey;
use crate::viewer::login;
use crate::viewer::login::{
    CodecReport, Decoders, LoginEventView, LoginRequest, LoginStepView, RouteKind, Stage, Waiting,
};
use crate::viewer::receive;
use crate::viewer::receive::ReceiveStep;
use crate::viewer::{
    AuthCommand, Geometry, QueueState, ViewerError, ViewerImageQuality, ViewerOptions,
};

verus! {

/// Whether the peer and the viewer are in the middle of the exchange.
pub open spec fn exchanging(stage: Stage) -> bool {
    stage is Network || stage is Password || stage is SecondFactor
}

/// A peer that wants a second factor is given the one that the user enters: from every
/// stage of the exchange its refusal leads to the question, shown as such, and the code
/// that is then entered is sent as it is. The same holds after a wrong code, which is
/// shown as a further attempt.
pub proof fn lemma_second_factor_is_asked_for(
    stage: Stage,
    password: Seq<char>,
    requested: bool,
    wrong: bool,
    code: Seq<char>,
    v: viewer::ViewerView,
)
    requires
        exchanging(stage),
    ensures
        ({
            let reason = if wrong {
                "Wrong 2FA Code"@
            } else {
                "2FA Required"@
            };
            let asked = login::login_change(
                stage,
                password,
                requested,
                LoginEventView::LoginError(reason),
            );
            let answered = login::login_change(
                asked.stage,
                password,
                asked.requested,
                LoginEventView::SecondFactor(code),
            );
            &&& asked.step is WaitEither
            &&& asked.requested == requested
            &&& login::viewer_after(v, asked).snapshot.phase == if wrong {
                "awaiting_2fa_retry"@
            } else {
                "awaiting_2fa"@
            }
            &&& answered.step == LoginStepView::SendSecondFactor(code)
            &&& answered.stage is SendingAnswer
        }),
{
    lemma_reasons_differ();
}

proof fn lemma_reasons_differ()
    ensures
        "No Password Access"@ != "Wrong Password"@,
        "No Password Access"@ != "2FA Required"@,
        "No Password Access"@ != "Wrong 2FA Code"@,
        "Wrong Password"@ != "2FA Required"@,
        "Wrong Password"@ != "Wrong 2FA Code"@,
        "2FA Required"@ != "Wrong 2FA Code"@,
{
    reveal_strlit("No Password Access");
    reveal_strlit("Wrong Password");
    reveal_strlit("2FA Required");
    reveal_strlit("Wrong 2FA Code");
    assert("No Password Access"@.len() == 18);
    assert("Wrong Password"@.len() == 14);
    assert("2FA Required"@.len() == 12);
    assert("Wrong 2FA Code"@.len() == 14);
    assert("Wrong Password"@[6] == 'P');
    assert("Wrong 2FA Code"@[6] == '2');
}

/// A peer that refuses a password is given another one: the user is asked for it, and the
/// one that is then entered is sent, once the first request was.
pub proof fn lemma_password_is_asked_for(
    stage: Stage,
    password: Seq<char>,
    requested: bool,
    given: Seq<char>,
    v: viewer::ViewerView,
)
    requires
        exchanging(stage),
    ensures
        ({
            let asked = login::login_change(
                stage,
                password,
                requested,
                LoginEventView::LoginError("Wrong Password"@),
            );
            let answered = login::login_change(
                asked.stage,
                password,
                asked.requested,
                LoginEventView::Password(given),
            );
            &&& asked.step is WaitEither
            &&& asked.requested == requested
            &&& login::viewer_after(v, asked).snapshot.phase == "awaiting_password"@
            &&& requested ==> answered.step == (LoginStepView::SendLogin { password: Some(given) })
                && answered.stage is SendingAnswer
            &&& !requested ==> answered.step == LoginStepView::Failed(
                ViewerError::AuthenticationFailed,
            )
        }),
{
    lemma_reasons_differ();
}

/// A peer whose user has to approve is waited for, and lets the viewer in once its user
/// did.
pub proof fn lemma_approval_is_waited_for(
    stage: Stage,
    password: Seq<char>,
    requested: bool,
    v: viewer::ViewerView,
)
    requires
        exchanging(stage),
    ensures
        ({
            let told = login::login_change(
                stage,
                password,
                requested,
                LoginEventView::LoginError("No Password Access"@),
            );
            let admitted = login::login_change(
                told.stage,
                password,
                told.requested,
                LoginEventView::Authorized { complete: true },
            );
            &&& told.step is WaitNetwork
            &&& login::viewer_after(v, told).snapshot.phase == "awaiting_approval"@
            &&& admitted.step is Authorized
        }),
{
    lemma_reasons_differ();
}

/// Every other refusal ends the login, and none of these four does.
pub proof fn lemma_other_refusals_end_the_login(
    stage: Stage,
    password: Seq<char>,
    requested: bool,
    reason: Seq<char>,
)
    requires
        exchanging(stage),
    ensures
        ({
            let change = login::login_change(
                stage,
                password,
                requested,
                LoginEventView::LoginError(reason),
            );
            let known = reason == "No Password Access"@ || reason == "Wrong Password"@ || reason
                == "2FA Required"@ || reason == "Wrong 2FA Code"@;
            &&& !known <==> change.step == LoginStepView::Failed(ViewerError::AuthenticationFailed)
            &&& known <==> exchanging(change.stage)
        }),
{
}

/// The viewer is let in exactly where the peer lets it in and the session could be taken
/// over, and never before the exchange.
pub proof fn lemma_admission(
    stage: Stage,
    password: Seq<char>,
    requested: bool,
    event: LoginEventView,
)
    ensures
        login::login_change(stage, password, requested, event).step is Authorized <==> exchanging(
            stage,
        ) && event == (LoginEventView::Authorized { complete: true }),
{
}

/// A login is sent in answer to a challenge, with the password that the viewer was given,
/// and in answer to the user, with the one that was entered; a second factor only in
/// answer to the user. Nothing else is ever sent.
pub proof fn lemma_what_is_sent(
    stage: Stage,
    password: Seq<char>,
    requested: bool,
    event: LoginEventView,
)
    ensures
        ({
            let step = login::login_change(stage, password, requested, event).step;
            &&& step is SendLogin <==> exchanging(stage) && (event is Challenge || (stage
                is Password && requested && event is Password))
            &&& exchanging(stage) && event is Challenge ==> step == (LoginStepView::SendLogin {
                password: if password.len() == 0 {
                    None
                } else {
                    Some(password)
                },
            })
            &&& stage is Password && requested ==> (event matches LoginEventView::Password(given)
                ==> step == (LoginStepView::SendLogin { password: Some(given) }))
            &&& step is SendSecondFactor <==> stage is SecondFactor && event is SecondFactor
            &&& stage is SecondFactor ==> (event matches LoginEventView::SecondFactor(code) ==> step
                == LoginStepView::SendSecondFactor(code))
        }),
{
}

/// Once a login was sent in answer to a challenge, the viewer waits for what it waited for
/// before; once an answer of the user was sent, it waits for the peer. What could not be
/// sent ends the login.
pub proof fn lemma_waiting_after_sending(
    stage: Stage,
    password: Seq<char>,
    requested: bool,
    v: viewer::ViewerView,
)
    requires
        exchanging(stage),
    ensures
        ({
            let sending = login::login_change(
                stage,
                password,
                requested,
                LoginEventView::Challenge,
            );
            let sent = login::login_change(
                sending.stage,
                password,
                sending.requested,
                LoginEventView::Sent { delivered: true },
            );
            let lost = login::login_change(
                sending.stage,
                password,
                sending.requested,
                LoginEventView::Sent { delivered: false },
            );
            let answered = login::login_change(
                Stage::SendingAnswer,
                password,
                requested,
                LoginEventView::Sent { delivered: true },
            );
            let unanswered = login::login_change(
                Stage::SendingAnswer,
                password,
                requested,
                LoginEventView::Sent { delivered: false },
            );
            &&& sent.stage == stage
            &&& sent.requested
            &&& sent.step == if stage is Network {
                LoginStepView::WaitNetwork
            } else {
                LoginStepView::WaitEither
            }
            &&& lost.step == LoginStepView::Failed(ViewerError::AuthenticationFailed)
            &&& answered.stage is Network && answered.step is WaitNetwork
            &&& login::viewer_after(v, answered).snapshot.phase == "authenticating"@
            &&& unanswered.step == LoginStepView::Failed(ViewerError::AuthenticationFailed)
        }),
{
}

/// What the user enters when nothing was asked for it is left aside, and so is what goes
/// on at the peer: the login stays where it is.
pub proof fn lemma_unasked_input_is_left_aside(
    stage: Stage,
    password: Seq<char>,
    requested: bool,
    event: LoginEventView,
)
    requires
        exchanging(stage),
        (event is Password && !(stage is Password)) || (event is SecondFactor && !(stage
            is SecondFactor)) || event is ContinueInsecure || event is Progress,
    ensures
        ({
            let change = login::login_change(stage, password, requested, event);
            &&& change.stage == stage
            &&& change.requested == requested
            &&& change.step == if stage is Network {
                LoginStepView::WaitNetwork
            } else {
                LoginStepView::WaitEither
            }
            &&& change.phase is None && change.route is None
        }),
{
}

/// A login that fails says why: the connection, the server that finds peers, the peer that
/// closed, the user who went away, or authentication.
pub proof fn lemma_failures_say_why(
    stage: Stage,
    password: Seq<char>,
    requested: bool,
    event: LoginEventView,
)
    ensures
        ({
            let step = login::login_change(stage, password, requested, event).step;
            &&& stage is Connecting && event is ConnectFailed ==> step == LoginStepView::Failed(
                ViewerError::ConnectFailed,
            )
            &&& stage is Finding && event is ConnectFailed ==> step == LoginStepView::Failed(
                ViewerError::RendezvousFailed,
            )
            &&& stage is Finding ==> (event matches LoginEventView::Reached {
                encrypted,
                peer_verified,
                ..
            } ==> (step == LoginStepView::Failed(ViewerError::RendezvousFailed) <==> !(encrypted
                && peer_verified)))
            &&& exchanging(stage) && event is Closed ==> step == LoginStepView::Failed(
                ViewerError::RemoteClosed,
            )
            &&& (stage is Password || stage is SecondFactor || stage is AwaitingInsecure) && event
                is CommandsClosed ==> step == LoginStepView::Failed(ViewerError::Closed)
            &&& exchanging(stage) && (event is ReceiveFailed || event is Unexpected) ==> step
                == LoginStepView::Failed(ViewerError::AuthenticationFailed)
            &&& exchanging(stage) && event == (LoginEventView::Authorized { complete: false })
                ==> step == LoginStepView::Failed(ViewerError::AuthenticationFailed)
            &&& stage is AwaitingInsecure && event == LoginEventView::ContinueInsecure(false)
                ==> step == LoginStepView::Failed(ViewerError::AuthenticationFailed)
            &&& stage is Over ==> step is Failed
            &&& step is Failed <==> login::login_change(stage, password, requested, event).stage
                is Over && !(step is Authorized)
        }),
{
}

/// How a connection is made is shown: a direct one as such, and a peer that was found by
/// its number by the way to it. Nothing else changes what is shown of the way.
pub proof fn lemma_routes_are_shown(
    stage: Stage,
    password: Seq<char>,
    requested: bool,
    event: LoginEventView,
    v: viewer::ViewerView,
)
    ensures
        ({
            let change = login::login_change(stage, password, requested, event);
            let after = login::viewer_after(v, change).snapshot;
            &&& stage is Connecting && event is Connected ==> after.route == "direct_tcp"@
            &&& stage == (Stage::Connecting { confirm: true }) && event is Connected ==> after.phase
                == "awaiting_insecure_confirmation"@ && change.step is WaitCommand
            &&& stage == (Stage::Connecting { confirm: false }) && event is Connected
                ==> after.phase == "authenticating"@ && change.step is WaitNetwork
            &&& stage is Finding ==> (event matches LoginEventView::Reached {
                encrypted: true,
                peer_verified: true,
                route,
            } ==> after.phase == "authenticating"@ && change.step is WaitNetwork && after.route
                == match route {
                RouteKind::TcpHolePunch => "tcp_hole_punch"@,
                RouteKind::Relay => "relay"@,
            })
            &&& stage is AwaitingInsecure && event == LoginEventView::ContinueInsecure(true)
                ==> after.phase == "authenticating"@ && change.step is WaitNetwork
            &&& !(stage is Connecting || stage is Finding) ==> after.route == v.snapshot.route
            &&& after == (viewer::ViewerSnapshotView {
                phase: after.phase,
                route: after.route,
                ..v.snapshot
            })
        }),
{
}

/// A login asks for the screen and for input, never for sound, files or the camera. It
/// offers the codecs that are decoded in hardware and prefers one of them.
pub proof fn lemma_what_a_login_asks_for(
    r: LoginRequest,
    o: ViewerOptions,
    decoders: Decoders,
    random: u64,
)
    requires
        login::asks(r, o, decoders, random),
    ensures
        r.disable_audio && r.disable_camera && !r.enable_file_transfer && !r.disable_keyboard,
        r.disable_clipboard <==> !o.clipboard_enabled,
        r.decoders.h264 == decoders.h264 && r.decoders.h265 == decoders.h265,
        r.prefer is H265 <==> decoders.h265,
        r.custom_fps == o.requested_fps,
        r.session_id != 0,
        random != 0 ==> r.session_id == random,
        r.username@ == o.username@ && r.my_id@ == o.local_id@ && r.my_name@ == o.local_name@,
        o.image_quality matches ViewerImageQuality::Custom(n) ==> r.image_quality is Balanced
            && r.custom_image_quality == if 10 <= n <= 2000 {
            n
        } else {
            0
        },
        o.image_quality is Low ==> r.image_quality is Low && r.custom_image_quality == 0,
        o.image_quality is Balanced ==> r.image_quality is Balanced && r.custom_image_quality == 0,
        o.image_quality is Best ==> r.image_quality is Best && r.custom_image_quality == 0,
{
}

/// A record that goes to the decoder has the codec of the frames that came in, those frames
/// unchanged and in their order, the display that is shown, and the sum of their bytes.
pub proof fn lemma_records_keep_codec_and_frames(
    step: ReceiveStep,
    v: viewer::ViewerView,
    source: Geometry,
    caps: Decoders,
    frame: VideoFrame,
    queue: QueueState,
)
    requires
        receive::receive_step(step, v, source, caps, Message::VideoFrame(frame), queue),
    ensures
        step matches ReceiveStep::Video(record) ==> {
            &&& record.codec is H264 <==> frame.payload is H264
            &&& record.codec is H265 <==> frame.payload is H265
            &&& frame.payload matches VideoPayload::H264(frames) ==> record.frames@ == frames@
            &&& frame.payload matches VideoPayload::H265(frames) ==> record.frames@ == frames@
            &&& record.geometry == source
            &&& frame.display == source.display
            &&& 0 < record.frames@.len() <= 256
            &&& record.bytes == receive::total_bytes(record.frames@) <= 33_554_432
        },
{
}

/// The frames of a video message, whatever their codec.
pub open spec fn frames_of(payload: VideoPayload) -> Seq<EncodedFrame> {
    match payload {
        VideoPayload::H264(frames) => frames@,
        VideoPayload::H265(frames) => frames@,
        VideoPayload::Other => Seq::empty(),
    }
}

/// Whether a video message is in a codec that is decoded.
pub open spec fn can_decode(payload: VideoPayload, caps: Decoders) -> bool {
    (payload is H264 && caps.h264) || (payload is H265 && caps.h265)
}

/// Frames go to the decoder exactly where they are of the display that is shown, in a codec
/// that is decoded, none of them empty, and not too many or too large. What is wrong
/// otherwise is told apart.
pub proof fn lemma_which_frames_are_decoded(
    step: ReceiveStep,
    v: viewer::ViewerView,
    source: Geometry,
    caps: Decoders,
    frame: VideoFrame,
    queue: QueueState,
)
    requires
        receive::receive_step(step, v, source, caps, Message::VideoFrame(frame), queue),
    ensures
        ({
            let frames = frames_of(frame.payload);
            let whole = forall|i: int| 0 <= i < frames.len() ==> (#[trigger] frames[i]).data@.len()
                > 0;
            if frame.display != source.display {
                step == ReceiveStep::Failed(ViewerError::InvalidPeerGeometry)
            } else if !can_decode(frame.payload, caps) {
                step == ReceiveStep::Failed(ViewerError::UnsupportedCodec)
            } else if frames.len() == 0 {
                step is Continue
            } else if frames.len() > 256 || !whole {
                step == ReceiveStep::Failed(ViewerError::InvalidVideoRecord)
            } else if receive::total_bytes(frames) > 33_554_432 {
                step == ReceiveStep::Failed(ViewerError::VideoRecordTooLarge)
            } else {
                step is Video
            }
        }),
{
    let frames = frames_of(frame.payload);
    if frames.len() > 0 {
        assert(receive::no_empty_frame(frames) <==> forall|i: int|
            0 <= i < frames.len() ==> (#[trigger] frames[i]).data@.len() > 0);
    }
}

/// The bytes of frames are those of each, added up.
pub proof fn lemma_bytes_add_up(a: Seq<EncodedFrame>, b: Seq<EncodedFrame>, frame: EncodedFrame)
    ensures
        receive::total_bytes(a + b) == receive::total_bytes(a) + receive::total_bytes(b),
        receive::total_bytes(seq![frame]) == frame.data@.len(),
        receive::total_bytes(Seq::empty()) == 0,
    decreases b.len(),
{
    if b.len() == 0 {
        assert(a + b =~= a);
    } else {
        lemma_bytes_add_up(a, b.drop_last(), frame);
        assert((a + b).drop_last() =~= a + b.drop_last());
    }
    reveal_with_fuel(receive::total_bytes, 2);
    assert(seq![frame].drop_last() =~= Seq::<EncodedFrame>::empty());
}

/// What a host sends of a unit is what the viewer's decoder gets: in the codec of the
/// session, with the same bytes and kind, and the time to the millisecond.
pub proof fn lemma_units_arrive(
    message: Message,
    unit: EncodedUnit,
    codec: Codec,
    step: ReceiveStep,
    v: viewer::ViewerView,
    source: Geometry,
    caps: Decoders,
    queue: QueueState,
)
    requires
        stream::sendable(unit),
        stream::carries(message, unit, codec),
        source.display == 0,
        codec is H264 ==> caps.h264,
        codec is H265 ==> caps.h265,
        receive::receive_step(step, v, source, caps, message, queue),
    ensures
        step matches ReceiveStep::Video(record) && record.frames@.len() == 1
            && record.frames@[0].data@ == unit.data@ && record.frames@[0].key == unit.key
            && record.frames@[0].pts == unit.pts_us / 1000 && (record.codec is H264 <==> codec
            is H264) && record.bytes == unit.data@.len(),
{
    if let Message::VideoFrame(frame) = message {
        let frames = frames_of(frame.payload);
        lemma_bytes_add_up(Seq::empty(), Seq::empty(), frames[0]);
        assert(frames =~= seq![frames[0]]);
        lemma_which_frames_are_decoded(step, v, source, caps, frame, queue);
        lemma_records_keep_codec_and_frames(step, v, source, caps, frame, queue);
    }
}

/// What waits for the decoder is the frame whose turn it is: its bytes, its kind, and its
/// time in microseconds.
pub proof fn lemma_units_for_the_decoder(
    unit: crate::platform::ohos_decoder::AccessUnit,
    frame: EncodedFrame,
)
    requires
        feed::unit_of(unit, frame),
    ensures
        unit.bytes@ == frame.data@,
        unit.pts_us == frame.pts * 1000,
        unit.kind == (crate::platform::ohos_decoder::AccessUnitKind::Frame { key: frame.key }),
{
}

/// The number of units that came in goes up by those of a message that was taken, and by
/// nothing else.
pub proof fn lemma_units_are_counted(
    v: viewer::ViewerView,
    source: Geometry,
    caps: Decoders,
    message: Message,
    step: ReceiveStep,
    queue: QueueState,
)
    requires
        v.snapshot.received_units + 256 <= u64::MAX,
        receive::receive_step(step, v, source, caps, message, queue),
    ensures
        receive::after_message(v, source, caps, message).0.snapshot.received_units
            == v.snapshot.received_units + (match step {
            ReceiveStep::Video(record) => record.frames@.len() as int,
            _ => 0,
        }),
{
    if let Message::VideoFrame(frame) = message {
        lemma_which_frames_are_decoded(step, v, source, caps, frame, queue);
        if step is Video {
            lemma_records_keep_codec_and_frames(step, v, source, caps, frame, queue);
        }
    }
}

/// A permission of the peer is the one that it said last, for the keyboard and for the
/// clipboard apart, and it opens or closes what needs it.
pub proof fn lemma_permissions_are_followed(
    v: viewer::ViewerView,
    source: Geometry,
    caps: Decoders,
    permission: Permission,
    enabled: bool,
)
    ensures
        ({
            let after = receive::after_message(
                v,
                source,
                caps,
                Message::Misc(Misc::PermissionInfo { permission, enabled }),
            );
            &&& after.1 == source
            &&& after.0 == (viewer::ViewerView {
                remote_keyboard: after.0.remote_keyboard,
                remote_clipboard: after.0.remote_clipboard,
                ..v
            })
            &&& after.0.remote_keyboard == if permission is Keyboard {
                enabled
            } else {
                v.remote_keyboard
            }
            &&& after.0.remote_clipboard == if permission is Clipboard {
                enabled
            } else {
                v.remote_clipboard
            }
            &&& permission is Keyboard && !enabled ==> !after.0.input_open()
            &&& permission is Clipboard && !enabled ==> !after.0.clipboard_open()
        }),
{
}

/// A display that the peer switches to is the one that is shown, with its place and size,
/// where it makes sense; else the session ends.
pub proof fn lemma_switched_display_is_shown(
    step: ReceiveStep,
    v: viewer::ViewerView,
    source: Geometry,
    caps: Decoders,
    d: SwitchDisplay,
    queue: QueueState,
)
    requires
        receive::receive_step(
            step,
            v,
            source,
            caps,
            Message::Misc(Misc::SwitchDisplay(d)),
            queue,
        ),
    ensures
        ({
            let after = receive::after_message(
                v,
                source,
                caps,
                Message::Misc(Misc::SwitchDisplay(d)),
            );
            if d.width > 0 && d.height > 0 && d.display >= 0 {
                &&& step is Continue
                &&& after.1.display == d.display && after.1.x == d.x && after.1.y == d.y
                &&& after.1.width == d.width && after.1.height == d.height
                &&& after.0.geometry == Some(after.1)
                &&& after.0.snapshot.width == d.width && after.0.snapshot.height == d.height
            } else {
                &&& step == ReceiveStep::Failed(ViewerError::InvalidPeerGeometry)
                &&& after == (v, source)
            }
        }),
{
}

/// A session ends with the peer where the peer says so. A probe of the peer gets back what
/// it carries, and one that comes back is not sent again.
pub proof fn lemma_closes_and_probes(
    step: ReceiveStep,
    v: viewer::ViewerView,
    source: Geometry,
    caps: Decoders,
    message: Message,
    queue: QueueState,
)
    requires
        receive::receive_step(step, v, source, caps, message, queue),
    ensures
        step == ReceiveStep::Failed(ViewerError::RemoteClosed) <==> message == Message::Misc(
            Misc::CloseReason,
        ),
        step is Reply <==> (message matches Message::TestDelay(probe) && !probe.from_client
            && !queue.closed && queue.room > 0),
        step matches ReceiveStep::Reply(reply) ==> (reply matches Message::TestDelay(back)
            && !back.from_client && (message matches Message::TestDelay(probe) && back.payload@
            == probe.payload@)),
        step is Video ==> message is VideoFrame,
{
}

/// The quality and the rate that are shown are those that the peer reports, where it does;
/// a number counts before a preset.
pub proof fn lemma_reported_options(
    v: viewer::ViewerView,
    source: Geometry,
    caps: Decoders,
    option: OptionMessage,
)
    ensures
        ({
            let after = receive::after_message(
                v,
                source,
                caps,
                Message::Misc(Misc::Options(option)),
            ).0;
            let number = option.custom_image_quality;
            &&& number > 0 ==> after.image_quality == ViewerImageQuality::Custom(number)
            &&& number <= 0 && option.image_quality is Low ==> after.image_quality is Low
            &&& number <= 0 && option.image_quality is Balanced ==> after.image_quality is Balanced
            &&& number <= 0 && option.image_quality is Best ==> after.image_quality is Best
            &&& number <= 0 && (option.image_quality is NotSet || option.image_quality is Unknown)
                ==> after.image_quality == v.image_quality
            &&& after.requested_fps == if option.custom_fps > 0 {
                option.custom_fps as int
            } else {
                v.requested_fps as int
            }
            &&& after == (viewer::ViewerView {
                image_quality: after.image_quality,
                requested_fps: after.requested_fps,
                ..v
            })
        }),
{
}

/// A viewer that asks another one's peer for a rate or a quality is told what it asked for:
/// what the options say is what they are read as.
pub proof fn lemma_options_read_back(
    v: viewer::ViewerView,
    source: Geometry,
    caps: Decoders,
    fps: u32,
    quality: ViewerImageQuality,
)
    requires
        1 <= fps <= 240,
        quality matches ViewerImageQuality::Custom(n) ==> 10 <= n <= 2000,
    ensures
        receive::after_message(v, source, caps, viewer::fps_option(fps)).0.requested_fps == fps,
        receive::after_message(v, source, caps, viewer::fps_option(fps)).0.image_quality
            == v.image_quality,
        receive::after_message(v, source, caps, viewer::quality_option(quality)).0.image_quality
            == quality,
        receive::after_message(v, source, caps, viewer::quality_option(quality)).0.requested_fps
            == v.requested_fps,
{
}

/// A clipboard text that comes in uncompressed waits to be read as it is, behind those
/// that came before it, of which the oldest gives way where too many wait.
pub proof fn lemma_clipboard_text_is_kept(
    v: viewer::ViewerView,
    source: Geometry,
    caps: Decoders,
    entry: Clipboard,
    t: Seq<char>,
)
    requires
        v.local_clipboard,
        entry.is_text,
        !entry.compress,
        entry.content@ == vstd::utf8::encode_utf8(t),
        0 < entry.content@.len() <= 4_194_304,
    ensures
        ({
            let after = receive::after_message(v, source, caps, Message::Clipboard(entry)).0;
            &&& after.clipboard.len() > 0
            &&& after.clipboard.last() == t
            &&& v.clipboard.len() < 4 ==> after.clipboard.drop_last() == v.clipboard
            &&& v.clipboard.len() >= 4 ==> after.clipboard.drop_last() == v.clipboard.skip(1)
            &&& after == (viewer::ViewerView { clipboard: after.clipboard, ..v })
        }),
{
    vstd::utf8::encode_utf8_valid_utf8(t);
    vstd::utf8::encode_utf8_decode_utf8(t);
    let after = receive::after_message(v, source, caps, Message::Clipboard(entry)).0;
    reveal_with_fuel(receive::queued_all, 2);
    assert(seq![entry].drop_last() =~= Seq::<Clipboard>::empty());
    assert(after.clipboard == receive::queued(v.clipboard, t));
    if v.clipboard.len() < 4 {
        assert(after.clipboard.drop_last() =~= v.clipboard);
    } else {
        assert(after.clipboard.drop_last() =~= v.clipboard.skip(1));
    }
}

/// What is no text, is empty, too long or not valid is not kept, and nothing at all is
/// where the user does not let the clipboard be used.
pub proof fn lemma_other_entries_are_dropped(
    v: viewer::ViewerView,
    source: Geometry,
    caps: Decoders,
    entry: Clipboard,
)
    requires
        !v.local_clipboard || !entry.is_text || entry.content@.len() > 4_194_304 || (!entry.compress
            && (entry.content@.len() == 0 || !vstd::utf8::valid_utf8(entry.content@))),
    ensures
        receive::after_message(v, source, caps, Message::Clipboard(entry)).0 == v,
{
    reveal_with_fuel(receive::queued_all, 2);
    assert(seq![entry].drop_last() =~= Seq::<Clipboard>::empty());
}

/// Several clipboard entries are kept one after the other.
pub proof fn lemma_entries_are_kept_in_turn(
    waiting: Seq<Seq<char>>,
    a: Seq<Clipboard>,
    b: Seq<Clipboard>,
)
    ensures
        receive::queued_all(waiting, a + b) == receive::queued_all(
            receive::queued_all(waiting, a),
            b,
        ),
        receive::queued_all(waiting, Seq::empty()) == waiting,
    decreases b.len(),
{
    if b.len() == 0 {
        assert(a + b =~= a);
    } else {
        lemma_entries_are_kept_in_turn(waiting, a, b.drop_last());
        assert((a + b).drop_last() =~= a + b.drop_last());
    }
}

/// A text that a viewer sends uncompressed to another's clipboard is what the other reads.
pub proof fn lemma_clipboard_arrives(
    message: Message,
    t: Seq<char>,
    compressed: Seq<u8>,
    v: viewer::ViewerView,
    source: Geometry,
    caps: Decoders,
)
    requires
        viewer::carries_clipboard(message, t, compressed),
        !(0 < compressed.len() < vstd::utf8::encode_utf8(t).len()),
        0 < vstd::utf8::encode_utf8(t).len() <= 4_194_304,
        v.local_clipboard,
    ensures
        receive::after_message(v, source, caps, message).0.clipboard.len() > 0,
        receive::after_message(v, source, caps, message).0.clipboard.last() == t,
{
    if let Message::MultiClipboards(entries) = message {
        assert(entries@ =~= seq![entries@[0]]);
        lemma_clipboard_text_is_kept(v, source, caps, entries@[0], t);
    }
}

/// A viewer that is let in shows the display that the peer says is the current one, may do
/// what the peer permits, and is logged in; a peer without such a display lets nobody in.
pub proof fn lemma_admitted_viewer(
    v: viewer::ViewerView,
    encrypted: bool,
    peer_verified: bool,
    info: PeerInfo,
    permissions: Permissions,
)
    ensures
        ({
            let after = receive::admitted(v, encrypted, peer_verified, Some(info), permissions);
            let n = info.current_display as int;
            let sensible = 0 <= n < info.displays@.len() && info.displays@[n].width > 0
                && info.displays@[n].height > 0;
            &&& after.snapshot.encrypted == encrypted
            &&& after.snapshot.peer_verified == peer_verified
            &&& sensible ==> {
                &&& after.authenticated && after.control
                &&& after.remote_keyboard == permissions.keyboard
                &&& after.remote_clipboard == permissions.clipboard
                &&& after.peer_info == Some(info)
                &&& after.snapshot.phase == "authenticated"@
                &&& after.snapshot.width == info.displays@[n].width
                &&& after.snapshot.height == info.displays@[n].height
                &&& after.geometry matches Some(g) && g.display == n && g.x == info.displays@[n].x
                    && g.y == info.displays@[n].y && g.width == info.displays@[n].width && g.height
                    == info.displays@[n].height
                &&& after.input_open() == (permissions.keyboard && !v.cancelled)
            }
            &&& !sensible ==> after.authenticated == v.authenticated && after.geometry
                == v.geometry && receive::admitted_geometry(Some(info)) is None
        }),
{
}

/// What a viewer sends of the pointer is what the host at the other end injects: the same
/// action, at the place on the display that was pointed at.
pub proof fn lemma_pointer_arrives(
    v: viewer::ViewerView,
    kind: u32,
    button: u32,
    x: i32,
    y: i32,
)
    requires
        viewer::mouse_event(v, kind, button, x, y) is Ok,
        v.geometry matches Some(g) ==> -1000 <= g.x <= 900_000 && -1000 <= g.y <= 900_000
            && g.width <= 100_000 && g.height <= 100_000,
        kind > 2 ==> -16384 <= x <= 16384 && -16384 <= y <= 16384,
    ensures
        ({
            let event = viewer::mouse_event(v, kind, button, x, y)->Ok_0;
            let action = input::mouse_action(event);
            let pressed = if button == 1 {
                MouseButton::Left
            } else if button == 2 {
                MouseButton::Right
            } else if button == 4 {
                MouseButton::Middle
            } else if button == 8 {
                MouseButton::Back
            } else {
                MouseButton::Forward
            };
            &&& kind == 0 ==> (v.geometry matches Some(g) && action == Some(
                MouseAction::MoveAbsolute { x: (x + g.x) as i32, y: (y + g.y) as i32 },
            ))
            &&& kind == 1 ==> action == Some(MouseAction::ButtonDown(pressed))
            &&& kind == 2 ==> action == Some(MouseAction::ButtonUp(pressed))
            &&& kind == 3 || kind == 4 ==> action == Some(
                MouseAction::Wheel { dx: (-x) as i32, dy: y },
            )
            &&& kind == 5 ==> action == Some(MouseAction::MoveRelative { dx: x, dy: y })
        }),
{
}

/// The pointer is sent only where both sides agreed, on the display that is shown, and with
/// at most one button where one is pressed or released.
pub proof fn lemma_pointer_stays_on_the_display(
    v: viewer::ViewerView,
    kind: u32,
    button: u32,
    x: i32,
    y: i32,
)
    requires
        v.geometry matches Some(g) ==> g.x + g.width <= i32::MAX && g.y + g.height <= i32::MAX
            && g.x >= 0 && g.y >= 0,
    ensures
        ({
            let sent = viewer::mouse_event(v, kind, button, x, y);
            let open = v.authenticated && v.remote_keyboard && !v.cancelled;
            let inside = v.geometry matches Some(g) && 0 <= x < g.width && 0 <= y < g.height;
            &&& kind <= 2 ==> (sent is Ok <==> open && inside && (kind == 0 && button < 32 || kind
                > 0 && (button == 1 || button == 2 || button == 4 || button == 8 || button == 16)))
            &&& 3 <= kind <= 5 ==> (sent is Ok <==> open && button == 0)
            &&& kind > 5 ==> sent is Err
            &&& !open ==> sent == Err::<MouseEvent, ViewerError>(ViewerError::InputNotAllowed)
            &&& sent matches Ok(event) ==> event.mask == kind + 8 * button
        }),
{
}

/// A key that a viewer sends is the key that the host at the other end injects, pressed or
/// released as it was.
pub proof fn lemma_keys_arrive(
    message: Message,
    key: viewer::keys::ViewerKey,
    down: bool,
    press: bool,
    modifiers: Seq<crate::control_key::ControlKey>,
)
    requires
        viewer::carries_key(message, key, down, press, modifiers),
    ensures
        ({
            let action = input::input_of(message);
            &&& key matches viewer::keys::ViewerKey::Control(control) ==> !(control is Unknown)
                ==> action == Some(
                input::InputActionView::Key(
                    input::KeyActionView::Control { key: control, down: down || press },
                ),
            )
            &&& key matches viewer::keys::ViewerKey::Character(code) ==> (32 <= code < 127 || 160
                <= code < 0xd800) ==> action == Some(
                input::InputActionView::Key(
                    input::KeyActionView::Character { character: code as char, down: down
                        || press },
                ),
            )
        }),
{
}

/// A text that a viewer types is the text that the host at the other end types.
pub proof fn lemma_typed_text_arrives(message: Message, value: Seq<char>)
    requires
        viewer::carries_text(message, value),
        value.len() > 0,
        vstd::utf8::encode_utf8(value).len() <= 65536,
    ensures
        input::input_of(message) == Some(
            input::InputActionView::Key(input::KeyActionView::Text(value)),
        ),
{
}

/// A display that a viewer asks for, or the size of one that it asks about, is what the
/// messages say.
pub proof fn lemma_display_requests(display: i32, width: i32, height: i32)
    ensures
        ({
            let sent = viewer::switch_messages(display, width, height);
            &&& sent.len() == 2
            &&& sent[0] matches Message::Misc(Misc::SwitchDisplay(d)) && d.display == display
                && d.width == width && d.height == height && d.x == 0 && d.y == 0
            &&& sent[1] == Message::Misc(Misc::MessageQuery { switch_display: display })
        }),
{
}

/// What is seen of a viewer never shows more than is allowed, and the picture as streaming
/// only once a frame was rendered and nothing went wrong.
pub proof fn lemma_what_is_seen(v: viewer::ViewerView)
    ensures
        ({
            let seen = v.seen();
            &&& seen.keyboard_allowed == (v.authenticated && v.remote_keyboard && !v.cancelled)
            &&& seen.clipboard_allowed == (v.local_clipboard && v.authenticated
                && v.remote_clipboard && !v.cancelled)
            &&& seen.requested_fps == v.requested_fps
            &&& seen.phase != v.snapshot.phase ==> seen.phase == "streaming"@ && seen.error is None
                && !v.cancelled && !v.snapshot.closed && seen.render_submissions > 0
            &&& v.decoder is None ==> seen.phase == v.snapshot.phase && seen.error
                == v.snapshot.error
            &&& seen.width == v.snapshot.width && seen.height == v.snapshot.height && seen.codec
                == v.snapshot.codec && seen.route == v.snapshot.route && seen.encrypted
                == v.snapshot.encrypted && seen.closed == v.snapshot.closed
        }),
{
}

/// A viewer with a new decoder shows the display and the codec that it decodes.
pub proof fn lemma_decoding_is_shown(
    v: viewer::ViewerView,
    decoder: crate::platform::ohos_worker::SurfaceDecoder,
    geometry: Geometry,
    codec: VideoCodec,
)
    ensures
        ({
            let after = v.decoding(decoder, geometry, codec);
            &&& after.snapshot.codec == if codec is H264 {
                "H264"@
            } else {
                "H265"@
            }
            &&& after.snapshot.width == geometry.width && after.snapshot.height == geometry.height
            &&& after.geometry == Some(geometry)
            &&& after.decoder == Some(decoder.observer)
            &&& after.snapshot.phase == "decoding"@
            &&& after.authenticated == v.authenticated
        }),
{
}

/// A session that is over is closed, logged out, and shows what went wrong, if anything
/// did.
pub proof fn lemma_finished_viewer(v: viewer::ViewerView, result: Result<(), ViewerError>)
    ensures
        ({
            let after = v.finished(result);
            &&& after.snapshot.closed && !after.authenticated && !after.input_open()
            &&& after.snapshot.error is None <==> result is Ok && !v.resources_unconfirmed
            &&& result matches Err(error) ==> after.snapshot.error == Some(error.shown())
            &&& after.snapshot.phase == if after.snapshot.error is None {
                "closed"@
            } else {
                "failed"@
            }
            &&& after.result is Some
            &&& after.result == Some(viewer::Reclaimed::Confirmed) <==> !v.resources_unconfirmed
        }),
{
}

/// Whether a queue takes a message.
pub open spec fn takes(queue: QueueState) -> bool {
    !queue.closed && queue.room > 0
}

/// A queue that takes nothing says why: it is closed, or it is full.
pub proof fn lemma_queues(queue: QueueState)
    ensures
        viewer::queue_refusal(queue) is None <==> takes(queue),
        viewer::queue_refusal(queue) == Some(ViewerError::Closed) <==> queue.closed,
        viewer::queue_refusal(queue) == Some(ViewerError::Backpressure) <==> !queue.closed
            && queue.room == 0,
{
}

/// What the user enters is passed on as it is: a password that is not empty or endless, six
/// digits, and the decision about a peer that is not verified.
pub proof fn lemma_what_the_user_enters(
    r: Result<AuthCommand, ViewerError>,
    s: Seq<char>,
    allow: bool,
    queue: QueueState,
)
    ensures
        viewer::password_answer(r, s, queue) ==> {
            let len = vstd::utf8::encode_utf8(s).len();
            &&& r is Ok <==> 0 < len <= 4096 && takes(queue)
            &&& r matches Ok(command) ==> (command matches AuthCommand::Password(sent) && sent@
                == s)
            &&& len == 0 || len > 4096 ==> r == Err::<AuthCommand, ViewerError>(
                ViewerError::InvalidOptions,
            )
        },
        viewer::factor_answer(r, s, queue) ==> {
            let six = s.len() == 6 && forall|i: int| 0 <= i < 6 ==> '0' <= #[trigger] s[i] <= '9';
            &&& r is Ok <==> six && takes(queue)
            &&& r matches Ok(command) ==> (command matches AuthCommand::SecondFactor(sent) && sent@
                == s)
            &&& !six ==> r == Err::<AuthCommand, ViewerError>(ViewerError::InvalidOptions)
        },
        viewer::insecure_answer(r, allow, queue) ==> {
            &&& r is Ok <==> takes(queue)
            &&& r matches Ok(command) ==> command == AuthCommand::ContinueInsecure(allow)
        },
{
    assert(text::all_digits(s) <==> forall|i: int|
        0 <= i < s.len() ==> '0' <= #[trigger] s[i] <= '9');
}

/// Keys and texts are sent exactly where both sides agreed, the session is not ending, and
/// the queue takes them; a text also has to be neither empty nor endless.
pub proof fn lemma_when_keys_are_sent(
    r: Result<Message, ViewerError>,
    v: viewer::ViewerView,
    key: viewer::keys::ViewerKey,
    down: bool,
    press: bool,
    modifiers: Seq<crate::control_key::ControlKey>,
    value: Seq<char>,
    queue: QueueState,
)
    ensures
        ({
            let open = v.authenticated && v.remote_keyboard && !v.cancelled;
            let len = vstd::utf8::encode_utf8(value).len();
            &&& viewer::key_answer(r, v, key, down, press, modifiers, queue) ==> {
                &&& r is Ok <==> open && v.control && takes(queue)
                &&& !open ==> r == Err::<Message, ViewerError>(ViewerError::InputNotAllowed)
                &&& r matches Ok(message) ==> viewer::carries_key(
                    message,
                    key,
                    down,
                    press,
                    modifiers,
                )
            }
            &&& viewer::text_answer(r, v, value, queue) ==> {
                &&& r is Ok <==> open && 0 < len <= 1_048_576 && v.control && takes(queue)
                &&& r matches Ok(message) ==> viewer::carries_text(message, value)
                &&& open && (len == 0 || len > 1_048_576) ==> r == Err::<Message, ViewerError>(
                    ViewerError::InvalidOptions,
                )
            }
        }),
{
}

/// A text is sent to the clipboard of the peer exactly where both sides agreed, the session
/// is not ending, and it is neither empty nor endless.
pub proof fn lemma_when_clipboard_is_sent(
    r: Result<Message, ViewerError>,
    v: viewer::ViewerView,
    value: Seq<char>,
    compressed: Seq<u8>,
    queue: QueueState,
)
    requires
        viewer::clipboard_answer(r, v, value, compressed, queue),
    ensures
        ({
            let open = v.local_clipboard && v.authenticated && v.remote_clipboard && !v.cancelled;
            let raw = vstd::utf8::encode_utf8(value);
            &&& r is Ok <==> open && 0 < raw.len() <= 1_048_576 && v.control && takes(queue)
            &&& !open ==> r == Err::<Message, ViewerError>(ViewerError::InputNotAllowed)
            &&& r matches Ok(message) ==> (message matches Message::MultiClipboards(sent)
                && sent@.len() == 1 && sent@[0].is_text && (if sent@[0].compress {
                sent@[0].content@ == compressed && compressed.len() < raw.len()
            } else {
                sent@[0].content@ == raw
            }))
        }),
{
}

/// Clipboard texts are read in the order in which they came in, each once.
pub proof fn lemma_clipboard_is_read_in_order(
    r: Option<String>,
    before: viewer::ViewerView,
    after: viewer::ViewerView,
)
    requires
        viewer::taken_text(r, before, after),
    ensures
        before.local_clipboard && before.clipboard.len() > 0
            ==> (r matches Some(text) && seq![text@]
            + after.clipboard =~= before.clipboard),
        !before.local_clipboard || before.clipboard.len() == 0 ==> r is None && after.clipboard
            == before.clipboard,
        after == (viewer::ViewerView { clipboard: after.clipboard, ..before }),
{
}

/// A rate or a quality that is asked for is kept, and told to a peer that is logged in; one
/// that makes no sense or cannot be told changes nothing.
pub proof fn lemma_rate_and_quality(
    r: Result<Option<Message>, ViewerError>,
    before: viewer::ViewerView,
    after: viewer::ViewerView,
    fps: u32,
    quality: ViewerImageQuality,
    queue: QueueState,
)
    ensures
        ({
            let told = before.authenticated ==> !before.cancelled && before.control && takes(queue);
            let sensible = quality matches ViewerImageQuality::Custom(n) ==> 10 <= n <= 2000;
            &&& viewer::fps_answer(r, before, after, fps, queue) ==> {
                &&& r is Ok <==> 1 <= fps <= 240 && told
                &&& r is Ok ==> after.requested_fps == fps
                &&& r is Err ==> after == before
                &&& r matches Ok(sent) ==> (sent is Some <==> before.authenticated)
                &&& r matches Ok(Some(message)) ==> (message matches Message::Misc(
                    Misc::Options(option),
                ) && option.custom_fps == fps && option.custom_image_quality == 0
                    && option.image_quality is NotSet)
            }
            &&& viewer::quality_answer(r, before, after, quality, queue) ==> {
                &&& r is Ok <==> sensible && told
                &&& r is Ok ==> after.image_quality == quality
                &&& r is Err ==> after == before
                &&& r matches Ok(sent) ==> (sent is Some <==> before.authenticated)
            }
        }),
{
}

/// Another display is asked for with two messages, a resolution with one, and only of a
/// peer that is logged in; where there is room for one message only the first is sent.
pub proof fn lemma_display_requests_are_sent(
    v: viewer::ViewerView,
    display: i32,
    width: i32,
    height: i32,
    queue: QueueState,
)
    ensures
        ({
            let open = v.authenticated && !v.cancelled && v.control && takes(queue);
            let sensible = display >= 0 && width >= 0 && height >= 0;
            let sent = viewer::switch_sent(v, display, width, height, queue);
            let result = viewer::switch_result(v, display, width, height, queue);
            let resized = viewer::resolution_result(v, display, width, height, queue);
            &&& sent.len() == if !(open && sensible) {
                0int
            } else if queue.room == 1 {
                1
            } else {
                2
            }
            &&& result is Ok <==> sent.len() == 2
            &&& !sensible ==> result == Err::<(), ViewerError>(ViewerError::InvalidOptions)
            &&& sent.len() > 0 ==> (sent[0] matches Message::Misc(Misc::SwitchDisplay(d))
                && d.display == display && d.width == width && d.height == height)
            &&& sent.len() > 1 ==> sent[1] == Message::Misc(
                Misc::MessageQuery { switch_display: display },
            )
            &&& resized is Ok <==> open && sensible
            &&& resized matches Ok(message) ==> (message matches Message::Misc(
                Misc::ChangeDisplayResolution { display: d, width: w, height: h },
            ) && d == display && w == width && h == height)
        }),
{
}

/// A viewer that asks for a whole picture gets one: the host at the other end asks its
/// encoder for a key frame.
pub proof fn lemma_refresh_brings_a_key_frame(
    v: viewer::ViewerView,
    display: i32,
    queue: QueueState,
    d: stream::Disposition,
    width: i32,
    height: i32,
)
    requires
        v.authenticated,
        !v.cancelled,
        v.control,
        takes(queue),
    ensures
        viewer::refresh_result(v, display, queue) matches Ok(message) && (stream::disposes(
            d,
            message,
            width,
            height,
        ) ==> (d is Keyframe <==> display <= 0)),
        display < 0 ==> viewer::refresh_result(v, display, queue) == Ok::<Message, ViewerError>(
            Message::Misc(Misc::RefreshVideo(true)),
        ),
        display >= 0 ==> viewer::refresh_result(v, display, queue) == Ok::<Message, ViewerError>(
            Message::Misc(Misc::RefreshVideoDisplay(display)),
        ),
{
}

/// The pointer is sent where it may be and the queue takes it, and what keeps it from being
/// sent is told by name.
pub proof fn lemma_pointer_is_sent(
    v: viewer::ViewerView,
    kind: u32,
    button: u32,
    x: i32,
    y: i32,
    queue: QueueState,
)
    ensures
        ({
            let sent = viewer::mouse_result(v, kind, button, x, y, queue);
            &&& sent is Ok <==> viewer::mouse_event(v, kind, button, x, y) is Ok && takes(queue)
            &&& sent matches Ok(message) ==> (message matches Message::MouseEvent(event) && Ok::<
                MouseEvent,
                ViewerError,
            >(event) == viewer::mouse_event(v, kind, button, x, y))
            &&& viewer::closed_gate(v) is None ==> v.authenticated && v.remote_keyboard
                && !v.cancelled && v.geometry is Some
            &&& v.cancelled ==> viewer::closed_gate(v) == Some("cancelled"@)
            &&& !v.cancelled && !v.authenticated ==> viewer::closed_gate(v) == Some(
                "not_authenticated"@,
            )
            &&& !v.cancelled && v.authenticated && !v.remote_keyboard ==> viewer::closed_gate(v)
                == Some("peer_permission_denied"@)
            &&& !v.cancelled && v.authenticated && v.remote_keyboard && v.geometry is None
                ==> viewer::closed_gate(v) == Some("geometry_missing"@)
            &&& viewer::closed_gate(v) is Some <==> !(v.authenticated && v.remote_keyboard
                && !v.cancelled && v.geometry is Some)
        }),
{
}

/// A viewer is started with names, a password and a rate within bounds.
pub proof fn lemma_viewer_options(o: ViewerOptions)
    ensures
        ({
            let valid = viewer::valid_options(o);
            let name = vstd::utf8::encode_utf8(o.username@).len();
            let id = vstd::utf8::encode_utf8(o.local_id@).len();
            let shown = vstd::utf8::encode_utf8(o.local_name@).len();
            let secret = vstd::utf8::encode_utf8(o.password@).len();
            &&& name == 0 || name > 512 || id == 0 || id > 512 || shown > 512 || secret > 4096
                || o.requested_fps == 0 || o.requested_fps > 240 ==> !valid
            &&& 1 <= name <= 512 && 1 <= id <= 512 && shown <= 512 && secret <= 4096 && 1
                <= o.requested_fps <= 240 ==> valid
            &&& viewer::has_address(o) <==> (o.address matches Some(a) && a.port > 0)
        }),
{
}

/// A viewer that was just started is not logged in, has nothing open, and asks for what its
/// options say.
pub proof fn lemma_started_viewer(o: ViewerOptions)
    ensures
        ({
            let v = viewer::ViewerView::started(o);
            &&& !v.authenticated && !v.control && !v.remote_keyboard && !v.remote_clipboard
            &&& !v.cancelled && v.result is None && v.decoder is None && v.geometry is None
            &&& v.local_clipboard == o.clipboard_enabled
            &&& v.requested_fps == o.requested_fps
            &&& v.image_quality == o.image_quality
            &&& v.clipboard.len() == 0
            &&& v.peer_info is None
            &&& !v.resources_unconfirmed
            &&& v.snapshot.phase == "capability"@
            &&& !v.input_open() && !v.clipboard_open()
        }),
{
}

/// A decoder is offered to the peer where the platform names one in hardware that has at
/// least one format.
pub proof fn lemma_offered_decoders(report: CodecReport)
    ensures
        login::offered(report) <==> (report matches CodecReport::Found {
            hardware,
            codec_name,
            formats,
        } && hardware && codec_name@.len() > 0 && (formats matches Some(n) && n >= 1)),
{
}

/// A text is typed by a message that neither holds nor presses a key, and a key is sent with
/// exactly the modifiers that are held.
pub proof fn lemma_messages_of_the_keyboard(
    message: Message,
    value: Seq<char>,
    key: ViewerKey,
    down: bool,
    press: bool,
    modifiers: Seq<ControlKey>,
)
    ensures
        viewer::carries_text(message, value) ==> (message matches Message::KeyEvent(event)
            && !event.down && !event.press && event.modifiers@.len() == 0 && (event.payload
            matches KeyPayload::Text(text) && text@ == value)),
        viewer::carries_key(message, key, down, press, modifiers) ==> (message
            matches Message::KeyEvent(event) && (event.down <==> down) && (event.press <==> press)
            && event.modifiers@ == modifiers),
        !(viewer::carries_text(message, value) && viewer::carries_key(
            message,
            key,
            down,
            press,
            modifiers,
        )),
{
}

/// A text goes to the other clipboard as one text, compressed exactly where that makes it
/// shorter.
pub proof fn lemma_messages_of_the_clipboard(
    message: Message,
    value: Seq<char>,
    compressed: Seq<u8>,
)
    requires
        viewer::carries_clipboard(message, value, compressed),
    ensures
        ({
            let raw = vstd::utf8::encode_utf8(value);
            &&& message matches Message::MultiClipboards(sent)
            &&& sent@.len() == 1
            &&& sent@[0].is_text
            &&& sent@[0].compress ==> sent@[0].content@ == compressed && 0 < compressed.len()
                < raw.len()
            &&& !sent@[0].compress ==> sent@[0].content@ == raw && (compressed.len() == 0
                || compressed.len() >= raw.len())
        }),
{
}

} // verus!

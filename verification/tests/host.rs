//! The side that shows its screen.
use rd_engine::authentication::{Approval, ApproveMode, Permissions, PrimaryPolicy};
use rd_engine::host::access::{
    accepted_targets, check_approval, encoders, host_passwords, host_policy, local_permissions,
    next_request, session_salt, AuthStep, Authentication, HostEvent,
};
use rd_engine::host::stream::{
    backoff_millis, choose_codec, classify, on_record, session_fps, video, Decoding, Disposition,
    Dropped, Publish, PublishEvent, PublishStep, RecordStep, Stream, StreamEnd, StreamEvent,
    StreamStep,
};
use rd_engine::host::{Address, Host, HostError, HostOptions, LocalGrant};
use rd_engine::input::{InputAction, MouseAction};
use rd_engine::message::{
    KeyEvent, KeyPayload, KeyboardMode, Message, Misc, MouseEvent, TestDelay, VideoPayload,
};
use rd_engine::publisher::{
    Codec, CodecSelection, EncodedUnit, Encoders, PublisherBackend,
};

fn address(ip: &str, port: u16) -> Address {
    Address {
        ip: ip.to_owned(),
        text: format!("{ip}:{port}"),
        port,
    }
}

fn options(input_injection: bool, input_sink: bool) -> HostOptions {
    HostOptions {
        listen: address("127.0.0.1", 21118),
        id: "host".into(),
        signing_key: vec![0; 64],
        width: 1920,
        height: 1080,
        fps: 60,
        bitrate: 8_000_000,
        bitrate_auto: false,
        platform: "Windows".into(),
        publisher_backend: PublisherBackend::Auto,
        output_index: 0,
        codec_selection: CodecSelection::Auto,
        input_injection,
        input_sink,
    }
}

/// The one-time password is salted with the salt this session announces,
/// which is what a client's first hash is built against.
#[test]
fn the_one_time_password_is_salted_with_the_session_salt() {
    // The hash of the permanent password under its own salt, and of the one-time
    // password under the salt of the session.
    let permanent = [0x50u8; 32];
    let salted = [0x12u8; 32];
    assert_eq!(
        host_passwords("123456", salted, Some(permanent), true, true),
        vec![permanent, salted],
        "both configured passwords are accepted at once"
    );
    assert_eq!(
        host_passwords("123456", salted, None, true, true),
        vec![salted]
    );
    // The method the operator picked decides which of the two counts.
    assert!(host_passwords("123456", salted, None, true, false).is_empty());
    assert_eq!(
        host_passwords("", salted, Some(permanent), true, false),
        vec![permanent]
    );
    assert!(host_passwords("", salted, None, true, true).is_empty());
}

/// The approval policy follows the operator's setting.
#[test]
fn the_approval_mode_maps_to_the_host_policy() {
    assert_eq!(
        host_policy(ApproveMode::Password),
        PrimaryPolicy::PasswordOnly
    );
    assert_eq!(host_policy(ApproveMode::Click), PrimaryPolicy::ClickOnly);
    assert_eq!(
        host_policy(ApproveMode::Both),
        PrimaryPolicy::PasswordOrClick
    );
}

fn move_to(x: i32, y: i32) -> Message {
    Message::MouseEvent(MouseEvent { mask: 0, x, y })
}

fn displays(add: Vec<i32>, sub: Vec<i32>) -> Message {
    Message::Misc(Misc::CaptureDisplays {
        add,
        sub,
        set: vec![],
    })
}

/// The controller's ordinary actions must not end the session.
#[test]
fn benign_peer_records_never_close_the_session() {
    let mouse = move_to(10, 10);
    let key = Message::KeyEvent(KeyEvent {
        down: true,
        press: false,
        mode: KeyboardMode::Legacy,
        payload: KeyPayload::Absent,
        modifiers: vec![],
    });
    let resolution = Message::Misc(Misc::ChangeResolution);
    let other_display = displays(vec![1], vec![]);
    for message in [&mouse, &key, &resolution, &other_display] {
        let disposition = classify(message, 1920, 1080);
        assert!(
            !matches!(disposition, Disposition::Close),
            "a benign record must keep the session: {:?}",
            message
        );
    }
    assert!(matches!(classify(&mouse, 1920, 1080), Disposition::Input));
    assert!(matches!(
        classify(&resolution, 1920, 1080),
        Disposition::Dropped(Dropped::Display)
    ));
}

/// A display subscription change starts or stops the stream, not the session.
#[test]
fn a_subscription_change_only_moves_the_stream() {
    let unsubscribe = displays(vec![], vec![0]);
    assert!(matches!(
        classify(&unsubscribe, 1920, 1080),
        Disposition::Subscribed(false)
    ));

    let subscribe = displays(vec![0], vec![]);
    assert!(matches!(
        classify(&subscribe, 1920, 1080),
        Disposition::Subscribed(true)
    ));
}

/// A close request, a removed feature and a keepalive keep their exact meaning.
#[test]
fn a_close_request_is_the_only_record_that_ends_the_session() {
    let close = Message::Misc(Misc::CloseReason);
    assert!(matches!(classify(&close, 1920, 1080), Disposition::Close));

    let chat = Message::Misc(Misc::ChatMessage);
    assert!(matches!(
        classify(&chat, 1920, 1080),
        Disposition::Dropped(Dropped::Chat)
    ));

    let probe = Message::TestDelay(TestDelay {
        from_client: true,
        payload: vec![],
    });
    assert!(matches!(
        classify(&probe, 1920, 1080),
        Disposition::Reply(_)
    ));
}

/// A peer sends the address it was handed, not this socket's bind address.
#[test]
fn a_wildcard_listener_still_accepts_the_advertised_ip() {
    let mut options = options(true, true);
    options.listen = address("0.0.0.0", 21118);
    options.id = "192.168.108.155:21118".into();
    let local = address("10.53.176.3", 21118);
    let targets = accepted_targets(&options, &local);
    // The bare IP is the form a direct client sends; the id keeps its port.
    assert!(
        targets.iter().any(|t| t == "192.168.108.155"),
        "bare advertised IP must be accepted, got {targets:?}"
    );
    assert!(
        targets.iter().any(|t| t == "192.168.108.155:21118"),
        "advertised id must be accepted, got {targets:?}"
    );
    assert!(
        !targets
            .iter()
            .any(|t| t == "0.0.0.0" || t == "0.0.0.0:21118"),
        "a bind address is not an identity, got {targets:?}"
    );
    options.listen = Address {
        ip: "::".to_owned(),
        text: "[::]:21118".to_owned(),
        port: 21118,
    };
    let targets = accepted_targets(&options, &local);
    assert!(
        !targets
            .iter()
            .any(|t| t == "::" || t == "[::]" || t == "[::]:21118"),
        "a bind address is not an identity, got {targets:?}"
    );
}

#[test]
fn input_requires_both_local_consent_and_a_platform_sink() {
    // Neither an absent sink nor an unarmed option may grant input, and the
    // audio, clipboard and file permissions stay denied in every case.
    for (injection, sink) in [(false, false), (false, true), (true, false), (true, true)] {
        let permissions = local_permissions(&options(injection, sink));
        let expected = injection && sink;
        assert_eq!(
            permissions.keyboard, expected,
            "injection={injection} sink={sink}"
        );
        assert!(!permissions.audio);
        assert!(!permissions.clipboard);
        assert!(!permissions.file);
    }
}

#[test]
fn an_approved_peer_still_gets_the_local_permission_set() {
    // The approval grant is the local set, never a fresh default, so a
    // human's approval click cannot widen what the operator armed.
    let armed = options(true, true);
    assert!(local_permissions(&armed).keyboard);
    let unarmed = options(false, true);
    assert!(!local_permissions(&unarmed).keyboard);
    let grant = LocalGrant {
        epoch: 4,
        decision: 1,
    };
    assert_eq!(
        check_approval(&grant, 4, local_permissions(&unarmed)),
        Approval::Approved(local_permissions(&unarmed))
    );
    assert_eq!(
        check_approval(&grant, 5, local_permissions(&armed)),
        Approval::Pending
    );
}

#[test]
fn a_denied_input_permission_never_reaches_the_sink() {
    let mut delivered = 0;
    let granted = Permissions {
        keyboard: true,
        ..Permissions::default()
    };
    let relative = Message::MouseEvent(MouseEvent {
        mask: 5,
        x: 1,
        y: 1,
    });
    for permissions in [Permissions::default(), granted] {
        let mut host = Host::start(&options(true, true)).unwrap();
        match on_record(&mut host, &relative, 1920, 1080, permissions, true) {
            RecordStep::Inject(InputAction::Mouse(MouseAction::MoveRelative { dx: 1, dy: 1 })) => {
                delivered += 1;
            }
            RecordStep::Continue => assert_eq!(host.snapshot().dropped_inputs, 1),
            other => panic!("unexpected {other:?}"),
        }
    }
    assert_eq!(delivered, 1, "only the granted session may inject");
}

#[test]
fn stale_or_repeated_ui_decision_never_authorizes_another_request() {
    let mut grant = LocalGrant {
        epoch: 2,
        decision: 0,
    };
    assert!(!grant.decide(1, true));
    assert_eq!(grant.decision, 0);
    assert!(grant.decide(2, false));
    assert!(!grant.decide(2, true));
    assert_eq!(grant.decision, 2);
    grant = LocalGrant {
        epoch: 3,
        decision: 0,
    };
    assert!(!grant.decide(2, true));
    assert_eq!(grant.decision, 0);
}

#[test]
fn a_host_needs_options_that_make_sense() {
    assert!(Host::start(&options(false, false)).is_ok());
    let mut wrong = options(false, false);
    wrong.fps = 0;
    assert_eq!(Host::start(&wrong).err(), Some(HostError::InvalidOptions));
    let mut wrong = options(false, false);
    wrong.listen.port = 0;
    assert_eq!(Host::start(&wrong).err(), Some(HostError::InvalidOptions));
}

#[test]
fn a_peer_that_waits_is_shown_and_let_in_by_its_number() {
    let mut host = Host::start(&options(false, false)).unwrap();
    host.on_listening();
    host.on_accepted();
    let mut login = Authentication::begin(&mut host, 7, "10.0.0.9:5000".to_owned());
    assert!(matches!(
        login.on_event(&mut host, HostEvent::AwaitApproval),
        AuthStep::Continue
    ));
    assert_eq!(host.snapshot().approval_request, "7");
    assert_eq!(host.snapshot().approval_origin, "10.0.0.9:5000");
    assert!(!host.approve("8", true));
    assert!(!host.approve("seven", true));
    assert!(host.approve("7", true));
    assert!(!host.approve("7", false), "a decision is made once");
    host.request_close();
    assert!(!host.approve("7", true));
}

#[test]
fn closing_is_confirmed_only_where_everything_was_released() {
    let mut host = Host::start(&options(false, false)).unwrap();
    assert_eq!(host.close(false), Err(HostError::ReclamationUnconfirmed));
    host.on_ended(Ok(()));
    assert_eq!(host.close(false), Ok(()));
    assert_eq!(host.close(true), Err(HostError::ReclamationUnconfirmed));
}

#[test]
fn the_codec_is_one_that_both_sides_have() {
    let both = Encoders {
        h264: true,
        h265: true,
    };
    let peer = |h264, h265, prefers_h264| {
        Some(Decoding {
            ability_h264: h264,
            ability_h265: h265,
            prefers_h264,
        })
    };
    assert_eq!(choose_codec(both, peer(1, 1, false)), Ok(Codec::H265));
    assert_eq!(choose_codec(both, peer(1, 1, true)), Ok(Codec::H264));
    assert_eq!(choose_codec(both, peer(1, 0, false)), Ok(Codec::H264));
    assert_eq!(
        choose_codec(both, peer(0, 0, false)),
        Err(HostError::NoCommonCodec)
    );
    assert_eq!(choose_codec(both, None), Err(HostError::NoCommonCodec));
    assert_eq!(
        encoders(None, CodecSelection::Auto),
        Err(HostError::NoHardwareCodec)
    );
    assert_eq!(
        encoders(Some(both), CodecSelection::H264),
        Ok(Encoders {
            h264: true,
            h265: false
        })
    );
}

#[test]
fn a_session_runs_at_what_the_peer_asks_for_within_bounds() {
    assert_eq!(session_fps(60, 30), 30);
    assert_eq!(session_fps(60, 120), 60);
    assert_eq!(session_fps(60, 0), 60);
    assert_eq!(session_fps(60, -1), 60);
}

#[test]
fn salts_and_request_numbers() {
    assert_eq!(session_salt("kept", &[1, 2]), "kept");
    assert_eq!(session_salt("", &[0x0a, 0xff]), "0aff");
    assert_eq!(next_request(0), Ok(1));
    assert_eq!(next_request(u64::MAX), Err(HostError::AuthenticationFailed));
}

#[test]
fn a_unit_becomes_a_frame_and_a_broken_one_does_not() {
    let unit = EncodedUnit {
        data: vec![1, 2, 3],
        pts_us: 5_000,
        key: true,
    };
    match video(&unit, Codec::H265) {
        Ok(Message::VideoFrame(frame)) => match frame.payload {
            VideoPayload::H265(frames) => {
                assert_eq!(frames.len(), 1);
                assert_eq!(frames[0].data, vec![1, 2, 3]);
                assert!(frames[0].key);
                assert_eq!(frames[0].pts, 5);
            }
            _ => panic!("another codec"),
        },
        _ => panic!("no frame"),
    }
    let empty = EncodedUnit {
        data: vec![],
        pts_us: 0,
        key: false,
    };
    assert_eq!(
        video(&empty, Codec::H264).err(),
        Some(HostError::InvalidAccessUnit)
    );
}

#[test]
fn capture_that_fails_is_opened_anew_after_a_wait() {
    let mut host = Host::start(&options(false, false)).unwrap();
    let mut publish = Publish::new();
    assert_eq!(
        publish.on_event(&mut host, PublishEvent::Started { cancelled: false }),
        PublishStep::Open
    );
    let failed = PublishEvent::StreamEnded {
        end: StreamEnd::Capture,
        released: true,
    };
    assert_eq!(publish.on_event(&mut host, failed), PublishStep::Wait(500));
    assert_eq!(
        publish.on_event(&mut host, PublishEvent::Waited { cancelled: false }),
        PublishStep::Open
    );
    assert_eq!(backoff_millis(1), 1000);
    assert_eq!(backoff_millis(100), 2500);
    let unreleased = PublishEvent::StreamEnded {
        end: StreamEnd::Capture,
        released: false,
    };
    assert_eq!(
        publish.on_event(&mut host, unreleased),
        PublishStep::Done(Err(HostError::ReclamationUnconfirmed))
    );
    assert!(host.unreclaimed);
}

#[test]
fn a_stream_ends_where_the_peer_or_the_capture_does() {
    let mut host = Host::start(&options(false, false)).unwrap();
    let mut stream = Stream::new(Codec::H264);
    assert!(matches!(
        stream.on_event(&mut host, StreamEvent::ReaderGone),
        StreamStep::End(StreamEnd::PeerGone)
    ));
    assert!(matches!(
        stream.on_event(&mut host, StreamEvent::CaptureEnded),
        StreamStep::End(StreamEnd::Capture)
    ));
}

//! The side that watches a screen.
use rd_engine::authentication::Permissions;
use rd_engine::control_key::ControlKey;
use rd_engine::host::Address;
use rd_engine::message::{
    Clipboard, DisplayInfo, ImageQuality, Message, Misc, PeerInfo, Permission, TestDelay,
};
use rd_engine::viewer::feed::{feed_result, merge_result};
use rd_engine::viewer::keys::{legacy_key_name, legacy_modifiers, usb_hid_key, ViewerKey};
use rd_engine::viewer::login::{
    capabilities, login_request, CodecReport, Decoders, Login, LoginEvent, LoginStep, RouteKind,
};
use rd_engine::viewer::receive::{
    decompress_with_limit, inbound_text, on_admitted, store_inbound_clipboard, DecompressError,
    ReceiveStep, Receiver,
};
use rd_engine::viewer::{
    AuthCommand, Connector, QueueState, Viewer, ViewerError, ViewerImageQuality, ViewerOptions,
};

#[test]
fn bounded_decompression_rejects_oversize_clipboards() {
    let compressed = zstd::encode_all(&vec![0u8; 17][..], 0).unwrap();
    assert!(decompress_with_limit(&compressed, 16).is_err());
    assert_eq!(
        decompress_with_limit(&compressed, 16),
        Err(DecompressError::TooLarge)
    );
    assert_eq!(
        decompress_with_limit(b"not compressed", 16),
        Err(DecompressError::Invalid)
    );
}

#[test]
fn bounded_decompression_accepts_the_exact_limit() {
    let input = vec![7u8; 16];
    let compressed = zstd::encode_all(&input[..], 0).unwrap();
    assert_eq!(
        decompress_with_limit(&compressed, input.len()).unwrap(),
        input
    );
}

#[test]
fn legacy_key_names_cover_single_characters_and_protocol_control_keys() {
    // A single character is the raw `chr` code, exactly like the original
    // client's KEY_MAP fallback; it is never promoted to a control key.
    assert_eq!(legacy_key_name("v"), Some(ViewerKey::Character('v' as u32)));
    assert_eq!(legacy_key_name("V"), Some(ViewerKey::Character('V' as u32)));
    assert_eq!(
        legacy_key_name("VK_RETURN"),
        Some(ViewerKey::Control(ControlKey::Return))
    );
    assert_eq!(
        legacy_key_name("Return"),
        Some(ViewerKey::Control(ControlKey::Return))
    );
    assert_eq!(
        legacy_key_name("LOCK_SCREEN"),
        Some(ViewerKey::Control(ControlKey::LockScreen))
    );
    assert_eq!(legacy_key_name(""), None);
    assert_eq!(legacy_key_name("NOT_A_KEY"), None);
}

#[test]
fn usb_hid_mapping_prefers_event_character_then_us_layout() {
    // The event character wins so the peer's own layout resolution applies.
    assert_eq!(
        usb_hid_key(0x14, "q"),
        Some(ViewerKey::Character('q' as u32))
    );
    assert_eq!(
        usb_hid_key(0x1e, "!"),
        Some(ViewerKey::Character('!' as u32))
    );
    // Non-printable usage codes are protocol control keys.
    assert_eq!(
        usb_hid_key(0x28, ""),
        Some(ViewerKey::Control(ControlKey::Return))
    );
    assert_eq!(
        usb_hid_key(0x3a, ""),
        Some(ViewerKey::Control(ControlKey::F1))
    );
    assert_eq!(
        usb_hid_key(0xe3, ""),
        Some(ViewerKey::Control(ControlKey::Meta))
    );
    assert_eq!(
        usb_hid_key(0x59, ""),
        Some(ViewerKey::Control(ControlKey::Numpad1))
    );
    // No character and no control mapping: US fallback for printable keys.
    assert_eq!(
        usb_hid_key(0x04, ""),
        Some(ViewerKey::Character('a' as u32))
    );
    assert_eq!(
        usb_hid_key(0x2d, ""),
        Some(ViewerKey::Character('-' as u32))
    );
    // An unmapped usage code is rejected rather than guessed.
    assert_eq!(usb_hid_key(0x00, ""), None);
    assert_eq!(usb_hid_key(0x83, ""), None);
}

#[test]
fn image_quality_never_reports_a_preset_as_custom() {
    assert_eq!(ViewerImageQuality::Low.label(), "low");
    assert_eq!(ViewerImageQuality::Best.label(), "best");
    // Out-of-range custom values are refused instead of being clamped.
    assert_eq!(
        ViewerImageQuality::Custom(5000).label(),
        "custom",
        "the label stays custom; validation happens at the API boundary"
    );
    assert_eq!(ViewerImageQuality::Custom(5000).custom_quality(), None);
    assert_eq!(ViewerImageQuality::Custom(50).custom_quality(), Some(50));
    assert_eq!(
        ViewerImageQuality::Balanced.proto_quality(),
        ImageQuality::Balanced
    );
}

#[test]
fn legacy_modifiers_follow_the_protocol_order() {
    let values: Vec<ControlKey> = legacy_modifiers(true, true, true, true);
    assert_eq!(
        values,
        vec![
            ControlKey::Alt,
            ControlKey::Shift,
            ControlKey::Control,
            ControlKey::Meta
        ]
    );
}

const FREE: QueueState = QueueState {
    closed: false,
    room: 4,
};

fn options() -> ViewerOptions {
    ViewerOptions {
        address: Some(Address {
            ip: "10.0.0.2".to_owned(),
            text: "10.0.0.2:21118".to_owned(),
            port: 21118,
        }),
        username: "10.0.0.2".to_owned(),
        local_id: "123".to_owned(),
        local_name: "me".to_owned(),
        password: String::new(),
        requested_fps: 60,
        clipboard_enabled: true,
        image_quality: ViewerImageQuality::default(),
    }
}

fn peer() -> PeerInfo {
    PeerInfo {
        username: "u".to_owned(),
        hostname: "h".to_owned(),
        platform: "Windows".to_owned(),
        version: "1.4.9".to_owned(),
        displays: vec![DisplayInfo {
            x: 10,
            y: 20,
            width: 640,
            height: 480,
            name: "one".to_owned(),
            cursor_embedded: false,
        }],
        current_display: 0,
    }
}

/// A viewer that the peer let in.
fn watching(permissions: Permissions) -> (Viewer, Receiver) {
    let mut viewer = Viewer::start(&options()).ok().expect("starts");
    let source = on_admitted(&mut viewer, true, true, Some(peer()), permissions)
        .ok()
        .expect("a display");
    let receiver = Receiver {
        source,
        caps: Decoders {
            h264: true,
            h265: true,
        },
    };
    viewer.control = true;
    (viewer, receiver)
}

#[test]
fn options_that_make_no_sense_start_nothing() {
    let mut wrong = options();
    wrong.requested_fps = 241;
    assert!(matches!(Viewer::start(&wrong), Err(ViewerError::InvalidOptions)));
    let mut wrong = options();
    wrong.address = None;
    assert!(matches!(Viewer::start(&wrong), Err(ViewerError::InvalidOptions)));
    assert!(Viewer::start_rendezvous(&wrong, "10.0.0.2").is_ok());
    assert!(Viewer::start_rendezvous(&wrong, "other").is_err());
    assert!(Viewer::start_verified(&options(), "").is_err());
}

#[test]
fn nothing_is_sent_before_the_user_agrees_to_a_peer_that_is_not_verified() {
    let mut viewer = Viewer::start(&options()).ok().unwrap();
    let (mut login, step) = Login::begin(&mut viewer, &Connector::Unverified, String::new());
    assert!(matches!(step, LoginStep::Connect));
    let step = login.on_event(&mut viewer, LoginEvent::Connected);
    assert!(matches!(step, LoginStep::WaitCommand));
    assert_eq!(viewer.snapshot().phase, "awaiting_insecure_confirmation");
    let refused = login.on_event(
        &mut viewer,
        LoginEvent::Command(AuthCommand::ContinueInsecure(false)),
    );
    assert!(matches!(refused, LoginStep::Failed(_)));
}

#[test]
fn a_login_asks_for_a_password_where_none_was_given() {
    let mut viewer = Viewer::start(&options()).ok().unwrap();
    let (mut login, _) = Login::begin(
        &mut viewer,
        &Connector::Rendezvous {
            id: "5".to_owned(),
        },
        String::new(),
    );
    let step = login.on_event(
        &mut viewer,
        LoginEvent::Reached {
            encrypted: true,
            peer_verified: true,
            route: RouteKind::Relay,
        },
    );
    assert!(matches!(step, LoginStep::WaitNetwork));
    assert_eq!(viewer.snapshot().route, "relay");
    let step = login.on_event(&mut viewer, LoginEvent::Challenge);
    assert!(matches!(step, LoginStep::SendLogin { password: None }));
    let step = login.on_event(&mut viewer, LoginEvent::Sent { delivered: true });
    assert!(matches!(step, LoginStep::WaitNetwork));
    let step = login.on_event(
        &mut viewer,
        LoginEvent::LoginError("Wrong Password".to_owned()),
    );
    assert!(matches!(step, LoginStep::WaitEither));
    assert_eq!(viewer.snapshot().phase, "awaiting_password");
    let step = login.on_event(
        &mut viewer,
        LoginEvent::Command(AuthCommand::Password("pw".to_owned())),
    );
    assert!(matches!(step, LoginStep::SendLogin { password: Some(p) } if p == "pw"));
    login.on_event(&mut viewer, LoginEvent::Sent { delivered: true });
    let step = login.on_event(&mut viewer, LoginEvent::Authorized { complete: true });
    assert!(matches!(step, LoginStep::Authorized));
}

#[test]
fn a_request_says_what_is_decoded_and_wanted() {
    let decoders = Decoders {
        h264: true,
        h265: false,
    };
    let request = login_request(&options(), decoders, 9);
    assert_eq!(request.username, "10.0.0.2");
    assert_eq!(request.version, "1.4.9");
    assert_eq!(request.custom_fps, 60);
    assert_eq!(request.decoders, decoders);
    assert!(request.disable_audio);
    let found = |name: &str| CodecReport::Found {
        hardware: true,
        codec_name: name.to_owned(),
        formats: Some(1),
    };
    assert_eq!(
        capabilities(&found("avc"), &CodecReport::Failed).ok(),
        Some(decoders)
    );
    assert!(matches!(
        capabilities(&found(""), &CodecReport::Failed),
        Err(ViewerError::NoHardwareCodec)
    ));
    assert!(matches!(
        capabilities(
            &CodecReport::UnsupportedPlatform,
            &CodecReport::UnsupportedPlatform
        ),
        Err(ViewerError::UnsupportedPlatform)
    ));
}

#[test]
fn input_needs_the_peer_and_a_place_on_the_display() {
    let granted = Permissions {
        keyboard: true,
        ..Permissions::default()
    };
    let (viewer, _) = watching(granted);
    let sent = viewer.send_mouse(0, 0, 639, 479, FREE);
    match sent {
        Ok(Message::MouseEvent(event)) => assert_eq!((event.x, event.y), (649, 499)),
        _ => panic!("not sent"),
    }
    assert!(matches!(
        viewer.send_mouse(0, 0, 640, 0, FREE),
        Err(ViewerError::InvalidMouse)
    ));
    assert!(matches!(
        viewer.send_mouse(1, 3, 0, 0, FREE),
        Err(ViewerError::InvalidMouse)
    ));
    let full = QueueState {
        closed: false,
        room: 0,
    };
    assert!(matches!(
        viewer.send_mouse(0, 0, 1, 1, full),
        Err(ViewerError::Backpressure)
    ));
    assert_eq!(viewer.mouse_refusal(), None);
    let (denied, _) = watching(Permissions::default());
    assert!(matches!(
        denied.send_mouse(0, 0, 1, 1, FREE),
        Err(ViewerError::InputNotAllowed)
    ));
    assert_eq!(denied.mouse_refusal(), Some("peer_permission_denied"));
}

#[test]
fn a_permission_that_is_taken_back_counts_at_once() {
    let (mut viewer, mut receiver) = watching(Permissions {
        keyboard: true,
        clipboard: true,
        ..Permissions::default()
    });
    assert!(viewer.input_allowed());
    let taken = Message::Misc(Misc::PermissionInfo {
        permission: Permission::Keyboard,
        enabled: false,
    });
    assert!(matches!(
        receiver.on_message(&mut viewer, taken, FREE),
        ReceiveStep::Continue
    ));
    assert!(!viewer.input_allowed());
    assert!(matches!(
        viewer.send_text("hi", FREE),
        Err(ViewerError::InputNotAllowed)
    ));
    assert!(viewer.send_clipboard_text("hi", &[], FREE).is_ok());
}

#[test]
fn a_probe_goes_back_and_a_close_ends_the_session() {
    let (mut viewer, mut receiver) = watching(Permissions::default());
    let probe = Message::TestDelay(TestDelay {
        from_client: false,
        payload: vec![1, 2],
    });
    assert!(matches!(
        receiver.on_message(&mut viewer, probe.clone(), FREE),
        ReceiveStep::Reply(echoed) if echoed == probe
    ));
    assert!(matches!(
        receiver.on_message(&mut viewer, Message::Misc(Misc::CloseReason), FREE),
        ReceiveStep::Failed(ViewerError::RemoteClosed)
    ));
}

#[test]
fn clipboard_texts_are_handed_out_once_and_in_order() {
    let (mut viewer, _) = watching(Permissions::default());
    let plain = |text: &str| Clipboard {
        is_text: true,
        compress: false,
        content: text.as_bytes().to_vec(),
    };
    let packed = Clipboard {
        is_text: true,
        compress: true,
        content: zstd::encode_all(&b"packed text"[..], 0).unwrap(),
    };
    store_inbound_clipboard(&mut viewer, &[plain("first"), packed]);
    let mut taken = Vec::new();
    while let Some(text) = viewer.take_clipboard_text() {
        taken.push(text);
    }
    assert_eq!(taken, vec!["first", "packed text"]);
    assert_eq!(viewer.take_clipboard_text(), None);
    assert_eq!(inbound_text(vec![0xff, 0xfe]), None, "no text");
    assert_eq!(inbound_text(b"ok".to_vec()), Some("ok".to_owned()));
    assert_eq!(inbound_text(vec![]), None);
}

#[test]
fn closing_revokes_everything() {
    let (mut viewer, _) = watching(Permissions {
        keyboard: true,
        ..Permissions::default()
    });
    viewer.request_close();
    assert_eq!(viewer.snapshot().phase, "closing");
    assert!(!viewer.input_allowed());
    assert!(viewer.close().is_none(), "the session is not over yet");
    viewer.finish(&Err(ViewerError::TransportFailed));
    assert_eq!(viewer.snapshot().error, Some("TransportFailed".to_owned()));
    assert_eq!(viewer.snapshot().phase, "failed");
    assert!(matches!(viewer.close(), Some(Ok(()))));
}

#[test]
fn the_first_error_is_the_one_that_is_kept() {
    assert!(matches!(
        merge_result(
            Err(ViewerError::TransportFailed),
            Some(Err(ViewerError::RemoteClosed))
        ),
        Err(ViewerError::TransportFailed)
    ));
    assert!(matches!(
        merge_result(Ok(()), None),
        Err(ViewerError::TaskFailed)
    ));
    assert!(matches!(
        feed_result(Err(ViewerError::TaskFailed), Ok(())),
        Err(ViewerError::TaskFailed)
    ));
}

#[test]
fn what_is_asked_for_before_the_login_goes_into_it() {
    let mut viewer = Viewer::start(&options()).ok().unwrap();
    assert!(matches!(viewer.set_requested_fps(30, FREE), Ok(None)));
    assert_eq!(viewer.snapshot().requested_fps, 30);
    assert!(matches!(
        viewer.set_requested_fps(0, FREE),
        Err(ViewerError::InvalidOptions)
    ));
    assert!(matches!(
        viewer.set_image_quality(ViewerImageQuality::Custom(5000), FREE),
        Err(ViewerError::InvalidOptions)
    ));
    assert!(matches!(
        viewer.submit_second_factor("12345", FREE),
        Err(ViewerError::InvalidOptions)
    ));
    assert!(matches!(
        viewer.submit_second_factor("123456", FREE),
        Ok(AuthCommand::SecondFactor(code)) if code == "123456"
    ));
    assert!(matches!(
        viewer.refresh_video(0, FREE),
        Err(ViewerError::NotAuthenticated)
    ));
}

//! What the frontend calls.
use rd_engine::entries::Entries;
use rd_engine::flutter_ffi::absent::{main_is_installed, session_get_remember};
use rd_engine::flutter_ffi::{
    main_get_langs, main_get_uuid, main_set_options, session_add_sync, session_close,
    session_get_conn_session_id, session_get_toggle_option, session_get_toggle_option_sync,
    session_input_string, session_login, session_send_mouse,
    session_set_common, session_start,
};
use rd_engine::flutter_input::{
    coordinate, decode_pointer, key_payload_json, mouse_event_from_json,
};
use rd_engine::flutter_session::{
    attach_stream, collect, envelope, parse_route, pump, pump_finished, remove, session_exists,
    toggle_option, AddOptions, EventToUI, PumpState, Route, Sessions, TargetReading, MAX_SESSIONS,
};
use rd_engine::flutter_state::{
    app_name, common, is_using_public_server, my_id, option_plan, options_json, replace_options, set_options_json,
    set_peer_option, peer_option, version, AppConfig, PeerConfig,
};
use rd_engine::flutter_surface::{
    lease_for, next_texture_key, release_lease, rendezvous_config, Textures, NO_SURFACE,
};
use rd_engine::host::Address;
use rd_engine::input::{
    MOUSE_BUTTON_RIGHT, MOUSE_TYPE_DOWN, MOUSE_TYPE_MASK, MOUSE_TYPE_MOVE,
    MOUSE_TYPE_MOVE_RELATIVE, MOUSE_TYPE_TRACKPAD, MOUSE_TYPE_WHEEL,
};
use rd_engine::json::Field;
use rd_engine::message::Message;
use rd_engine::viewer::{AuthCommand, Geometry, QueueState, ViewerError, ViewerSnapshot};

/// A field that holds a text.
fn text(key: &str, value: &str) -> Field {
    Field {
        key: key.to_owned(),
        text: Some(value.to_owned()),
        integer: None,
        truth: None,
        json: format!("\"{value}\""),
    }
}

/// A field that holds neither a text nor a truth.
fn number(key: &str, integer: Option<i64>, json: &str) -> Field {
    Field {
        key: key.to_owned(),
        text: None,
        integer,
        truth: None,
        json: json.to_owned(),
    }
}

#[test]
fn a_button_transition_carries_its_button_bits() {
    let down = [
        text("type", "down"),
        text("buttons", "right"),
        text("x", "10"),
        text("y", "20"),
    ];
    let event = mouse_event_from_json(&down).expect("decodes");
    assert_eq!(event.mask & MOUSE_TYPE_MASK, MOUSE_TYPE_DOWN);
    assert_eq!(event.mask >> 3, MOUSE_BUTTON_RIGHT);
    assert_eq!((event.x, event.y), (10, 20));
}

#[test]
fn a_position_update_needs_no_button() {
    let event = mouse_event_from_json(&[text("type", "move"), text("x", "1"), text("y", "2")])
        .expect("decodes");
    assert_eq!(event.mask, MOUSE_TYPE_MOVE);
}

#[test]
fn a_button_transition_without_a_button_is_refused() {
    assert!(
        mouse_event_from_json(&[text("type", "down"), text("x", "1"), text("y", "2")]).is_none()
    );
    assert!(mouse_event_from_json(&[text("type", "down"), text("buttons", "nope")]).is_none());
}

#[test]
fn an_unknown_pointer_kind_is_dropped_rather_than_defaulted() {
    assert!(mouse_event_from_json(&[text("type", "teleport")]).is_none());
}

#[test]
fn a_fractional_coordinate_is_refused_instead_of_truncated() {
    // Truncating would move the remote cursor somewhere the user did not aim,
    // so a fractional value yields no coordinate at all.
    assert_eq!(coordinate(Some(&number("x", None, "1.5"))), None);
    assert_eq!(coordinate(Some(&text("x", "2.5"))), None);
    // The frontend's own string form and whole numbers stay accepted.
    assert_eq!(coordinate(Some(&text("x", "3"))), Some(3));
    assert_eq!(coordinate(Some(&number("x", Some(4), "4"))), Some(4));
    assert_eq!(coordinate(Some(&number("x", None, "null"))), None);
    assert_eq!(coordinate(None), None);
}

#[test]
fn the_wheel_and_trackpad_kinds_keep_their_identity() {
    assert_eq!(
        decode_pointer(&[text("type", "wheel"), text("y", "-1")]),
        Some((MOUSE_TYPE_WHEEL as u32, 0))
    );
    assert_eq!(
        decode_pointer(&[text("type", "trackpad"), text("y", "2")]),
        Some((MOUSE_TYPE_TRACKPAD as u32, 0))
    );
    assert_eq!(
        decode_pointer(&[text("type", "move_relative"), text("x", "-3"), text("y", "4")]),
        Some((MOUSE_TYPE_MOVE_RELATIVE as u32, 0))
    );
}

fn address(ip: &str, port: u16) -> Address {
    Address {
        ip: ip.to_owned(),
        text: format!("{ip}:{port}"),
        port,
    }
}

/// How a target reads that is an address with a port.
fn socket(ip: &str, port: u16) -> TargetReading {
    TargetReading {
        socket: Some(address(ip, port)),
        ip: None,
    }
}

/// How a target reads that is an address alone.
fn bare(ip: &str) -> TargetReading {
    TargetReading {
        socket: None,
        ip: Some(address(ip, 21118)),
    }
}

/// How a target reads that is no address.
fn neither() -> TargetReading {
    TargetReading {
        socket: None,
        ip: None,
    }
}

#[test]
fn targets_are_interpreted_without_guessing_a_port() {
    assert!(matches!(
        parse_route("192.168.1.5:21118", &socket("192.168.1.5", 21118)),
        Some(Route::Direct(_))
    ));
    assert!(matches!(
        parse_route("192.168.1.5", &bare("192.168.1.5")),
        Some(Route::Direct(_))
    ));
    assert!(matches!(
        parse_route("123456789", &neither()),
        Some(Route::Rendezvous(_))
    ));
    assert!(parse_route("", &neither()).is_none());
    assert!(parse_route("bad\nid", &neither()).is_none());
    // A zero port is not a usable endpoint.
    assert!(parse_route("192.168.1.5:0", &socket("192.168.1.5", 0)).is_none());
}

#[test]
fn unsupported_session_kinds_are_refused_rather_than_half_created() {
    let mut sessions = Sessions::new();
    let base = AddOptions::default();
    for options in [
        AddOptions {
            is_terminal: true,
            ..base.clone()
        },
        AddOptions {
            is_file_transfer: true,
            ..base.clone()
        },
        AddOptions {
            is_port_forward: true,
            ..base.clone()
        },
        AddOptions {
            is_rdp: true,
            ..base.clone()
        },
        AddOptions {
            force_relay: true,
            ..base.clone()
        },
    ] {
        assert!(rd_engine::flutter_session::add(
            &mut sessions,
            1,
            "192.168.1.5",
            &bare("192.168.1.5"),
            options
        )
        .is_err());
    }
    assert!(!session_exists(&sessions, 1));
}

#[test]
fn a_created_session_is_visible_and_removable() {
    let mut sessions = Sessions::new();
    let id = 0x1234_5678;
    let add = |sessions: &mut Sessions, id: u128| {
        rd_engine::flutter_session::add(
            sessions,
            id,
            "192.168.1.5",
            &bare("192.168.1.5"),
            AddOptions::default(),
        )
    };
    assert!(add(&mut sessions, id).is_ok());
    assert!(session_exists(&sessions, id));
    // A duplicate id is refused so two UI tabs cannot share one session.
    assert_eq!(add(&mut sessions, id), Err("Session already exists".to_owned()));
    remove(&mut sessions, id);
    assert!(!session_exists(&sessions, id));
    // There are only so many at once.
    for n in 0..MAX_SESSIONS {
        assert!(add(&mut sessions, n as u128).is_ok());
    }
    assert_eq!(add(&mut sessions, 99), Err("Session limit reached".to_owned()));
}

#[test]
fn the_event_envelope_carries_the_name_the_frontend_dispatches_on() {
    let raw = envelope(&vec![("name", "peer_info".to_owned()), ("width", "10".to_owned())]);
    let parsed: serde_json::Value = serde_json::from_str(&raw).expect("valid json");
    assert_eq!(parsed["name"], "peer_info");
    assert_eq!(parsed["width"], "10");
}

fn config() -> AppConfig {
    AppConfig {
        id: "123456789".to_owned(),
        machine: (0u8..16).collect(),
        options: Entries::new(),
        local_options: Entries::new(),
        rendezvous_server: "rs.example".to_owned(),
    }
}

#[test]
fn options_json_is_an_object_so_the_dart_side_can_decode_it() {
    let mut config = config();
    config.options.put("b", "say \"hi\"");
    config.options.put("a", "1");
    let text = options_json(&config);
    let parsed: serde_json::Value = serde_json::from_str(&text).expect("valid json");
    assert!(parsed.is_object(), "mainGetOptions must decode to a map");
    assert_eq!(parsed["b"], "say \"hi\"");
    assert_eq!(text, "{\"a\":\"1\",\"b\":\"say \\\"hi\\\"\"}");
}

#[test]
fn unknown_common_keys_are_reported_as_unavailable_not_guessed() {
    let config = config();
    assert!(common(&config, "definitely-not-an-option").is_none());
    assert_eq!(
        common(&config, "my-id").as_deref(),
        Some(my_id(&config).as_str())
    );
}

#[test]
fn a_server_is_public_unless_a_custom_key_is_configured() {
    let mut config = config();
    assert!(is_using_public_server(&config, "stock"));
    config.options.put("key", "mine");
    assert!(!is_using_public_server(&config, "stock"));
    config.options.put("key", "stock");
    assert!(is_using_public_server(&config, "stock"));
}

#[test]
fn identity_and_version_are_real_values() {
    assert!(!app_name().is_empty());
    assert_eq!(version(), rd_engine::REPORTED_VERSION);
    assert!(!my_id(&config()).is_empty());
}

#[test]
fn a_malformed_options_payload_is_rejected_rather_than_partially_applied() {
    let mut options = Entries::new();
    options.put("a", "1");
    for text in ["not json", "[1,2,3]", "null", ""] {
        let plan = option_plan(&options, text);
        assert_eq!(set_options_json(&plan.writes, &vec![]), 0);
        assert!(plan.writes.is_empty());
        // Nor does it take the options away.
        assert!(plan.removals.is_empty());
        assert_eq!(replace_options(&mut options, text), 0);
        assert_eq!(options.items, vec![("a".to_owned(), "1".to_owned())]);
    }
}

#[test]
fn options_are_written_as_texts_and_a_refused_one_is_counted() {
    let plan = main_set_options(&config(), "{\"b\":true,\"a\":\"x\",\"c\":[1]}".to_owned());
    assert_eq!(
        plan.writes,
        vec![
            ("a".to_owned(), "x".to_owned()),
            ("b".to_owned(), "true".to_owned()),
            ("c".to_owned(), "[1]".to_owned()),
        ]
    );
    assert!(plan.removals.is_empty());
    let stored = vec!["x".to_owned(), String::new(), "[1]".to_owned()];
    assert_eq!(set_options_json(&plan.writes, &stored), 1);
}

#[test]
fn new_options_take_the_place_of_all_options() {
    let mut config = config();
    config.options.put("a", "1");
    config.options.put("c", "3");
    let plan = main_set_options(&config, "{\"c\":\"4\",\"b\":\"2\"}".to_owned());
    assert_eq!(plan.removals, vec!["a".to_owned()]);
    assert_eq!(
        plan.writes,
        vec![
            ("b".to_owned(), "2".to_owned()),
            ("c".to_owned(), "4".to_owned()),
        ]
    );

    let mut options = Entries::new();
    options.put("a", "1");
    assert_eq!(replace_options(&mut options, "{\"b\":\"2\"}"), 0);
    assert_eq!(options.items, vec![("b".to_owned(), "2".to_owned())]);
    // An object without entries leaves none.
    assert_eq!(replace_options(&mut options, "{}"), 0);
    assert!(options.items.is_empty());
}

#[test]
fn a_coordinate_that_cannot_be_read_drops_the_event() {
    let event = |x: Field| {
        [
            text("type", "down"),
            text("buttons", "left"),
            x,
            text("y", "2"),
        ]
    };
    for x in [
        text("x", "1.5"),
        number("x", None, "null"),
        number("x", None, "1.5"),
        number("x", Some(1 << 40), "1099511627776"),
    ] {
        let fields = event(x);
        assert!(mouse_event_from_json(&fields).is_none());
        assert_eq!(decode_pointer(&fields), None);
    }
    let fields = event(text("x", " -7 "));
    let read = mouse_event_from_json(&fields).expect("decodes");
    assert_eq!((read.x, read.y), (-7, 2));
    assert_eq!(decode_pointer(&fields), Some((1, 1)));
    // One that is left out is zero.
    let read = mouse_event_from_json(&[text("type", "move"), text("y", "2")]).expect("decodes");
    assert_eq!((read.x, read.y), (0, 2));
}

#[test]
fn a_switch_that_is_not_known_reads_as_off() {
    let mut sessions = Sessions::new();
    assert!(rd_engine::flutter_session::add(
        &mut sessions,
        7,
        "192.168.1.5",
        &bare("192.168.1.5"),
        AddOptions::default(),
    )
    .is_ok());
    for (arg, on) in [
        ("disable-audio", true),
        ("view-only", false),
        ("show-remote-cursor", false),
        ("disable-clipboard", false),
        ("privacy-mode", false),
    ] {
        assert_eq!(toggle_option(&sessions, 7, arg), Some(on));
        assert_eq!(session_get_toggle_option(&sessions, 7, arg.to_owned()), Some(on));
        assert_eq!(session_get_toggle_option_sync(&sessions, 7, arg.to_owned()).0, on);
        assert_eq!(toggle_option(&sessions, 8, arg), None);
        assert!(!session_get_toggle_option_sync(&sessions, 8, arg.to_owned()).0);
    }
}

#[test]
fn options_of_a_peer_are_read_back() {
    let mut peer = PeerConfig {
        options: Entries::new(),
        password: vec![],
        hostname: String::new(),
    };
    assert!(set_peer_option(&mut peer, "1", "view-style", "adaptive"));
    assert!(!set_peer_option(&mut peer, "", "view-style", "original"));
    assert_eq!(peer_option(&peer, "view-style"), "adaptive");
    assert_eq!(peer_option(&peer, "none"), "");
}

#[test]
fn texture_keys_are_unique_per_request() {
    let mut textures = Textures::new();
    let first = next_texture_key(&mut textures);
    let second = next_texture_key(&mut textures);
    assert_ne!(first, second);
    assert!(second > first);
}

#[test]
fn leases_of_different_sessions_do_not_meet() {
    let mut textures = Textures::new();
    let first = lease_for(&mut textures, 1);
    let second = lease_for(&mut textures, 2);
    assert_ne!(first, second);
    release_lease(&mut textures, 1);
    assert_eq!(lease_for(&mut textures, 2), second);
    let third = lease_for(&mut textures, 1);
    assert_ne!(third, first);
    assert_ne!(third, second);
}

#[test]
fn one_session_keeps_one_lease_across_repeated_start_attempts() {
    let mut textures = Textures::new();
    let id = 7;
    let first = lease_for(&mut textures, id);
    let second = lease_for(&mut textures, id);
    assert_eq!(first, second, "a session must not churn leases");
    release_lease(&mut textures, id);
    let third = lease_for(&mut textures, id);
    assert_ne!(first, third);
    release_lease(&mut textures, id);
}

#[test]
fn the_lease_reports_no_real_surface_so_the_missing_path_is_visible() {
    let mut textures = Textures::new();
    let lease = lease_for(&mut textures, 7);
    assert_eq!(lease.surface_id(), NO_SURFACE);
    release_lease(&mut textures, 7);
}

/// A server key that is one: thirty-two bytes of zero.
const PUBLIC: &str = "AAAAAAAAAAAAAAAAAAAAAAAAAAAAAAAAAAAAAAAAAAA=";

#[test]
fn a_configured_key_that_is_none_is_never_replaced() {
    let mut config = config();
    let found = rendezvous_config(&config, PUBLIC, "5".to_owned()).unwrap();
    assert_eq!(found.server_key, vec![0u8; 32]);
    assert_eq!(found.rendezvous_server, "rs.example");
    config.options.put("key", "not base64");
    assert!(rendezvous_config(&config, PUBLIC, "5".to_owned()).is_err());
    config.options.put("key", "AAAA");
    assert!(
        rendezvous_config(&config, PUBLIC, "5".to_owned()).is_err(),
        "three bytes are no key"
    );
}

#[test]
fn identifiers_are_written_as_uuids() {
    assert_eq!(
        main_get_uuid(&config()),
        "00010203-0405-0607-0809-0a0b0c0d0e0f"
    );
    assert_eq!(
        session_get_conn_session_id(0x0001_0203_0405_0607_0809_0a0b_0c0d_0e0f).0,
        "00010203-0405-0607-0809-0a0b0c0d0e0f"
    );
}

#[test]
fn languages_are_pairs_of_code_and_name() {
    assert_eq!(
        main_get_langs(),
        "[[\"en\",\"English\"],[\"zh-cn\",\"简体中文\"]]"
    );
}

#[test]
fn what_is_absent_is_answered_with_nothing() {
    assert!(!main_is_installed().0);
    assert_eq!(session_get_remember(1), None);
}

#[test]
fn keys_are_described_as_json() {
    assert_eq!(
        key_payload_json("VK_A", true, false),
        "{\"down\":true,\"name\":\"VK_A\",\"press\":false}"
    );
    // Quotation marks, backslashes and control characters are escaped, nothing else.
    assert_eq!(
        key_payload_json("\"\\\u{8}\t\n\u{c}\r\u{0}\u{1f}/\u{7f}\u{e9}", false, true),
        "{\"down\":false,\"name\":\"\\\"\\\\\\b\\t\\n\\f\\r\\u0000\\u001f/\u{7f}\u{e9}\",\"press\":true}"
    );
}

const FREE: QueueState = QueueState {
    closed: false,
    room: 4,
};

/// A session to an address, started.
fn running() -> (Sessions, Textures) {
    let mut sessions = Sessions::new();
    let mut textures = Textures::new();
    let reply = session_add_sync(
        &mut sessions,
        &bare("192.168.1.5"),
        1,
        "192.168.1.5".to_owned(),
        false,
        false,
        false,
        false,
        false,
        String::new(),
        false,
        "secret".to_owned(),
        false,
        None,
    );
    assert_eq!(reply.0, "");
    let started = session_start(
        &mut sessions,
        &mut textures,
        &config(),
        PUBLIC,
        1,
        String::new(),
    )
    .map_err(|what| what)
    .ok()
    .expect("starts");
    assert!(!started.replaced);
    let plan = started.plan.expect("a viewer is to be run");
    assert_eq!(plan.options.username, "192.168.1.5");
    assert_eq!(plan.options.password, "secret");
    assert!(plan.rendezvous.is_none());
    (sessions, textures)
}

#[test]
fn a_running_session_is_not_started_again() {
    let (mut sessions, mut textures) = running();
    let again = session_start(
        &mut sessions,
        &mut textures,
        &config(),
        PUBLIC,
        1,
        String::new(),
    )
    .ok()
    .expect("still runs");
    assert!(again.replaced, "the stream before is to be ended");
    assert!(again.plan.is_none());
    assert!(session_start(&mut sessions, &mut textures, &config(), PUBLIC, 2, String::new()).is_err());
}

#[test]
fn an_identity_is_needed_to_start() {
    let mut sessions = Sessions::new();
    let mut textures = Textures::new();
    let mut config = config();
    config.id = String::new();
    assert!(attach_stream(&mut sessions, 1).is_err());
    let options = AddOptions::default();
    rd_engine::flutter_session::add(&mut sessions, 1, "5", &neither(), options).unwrap();
    let what = session_start(&mut sessions, &mut textures, &config, PUBLIC, 1, String::new());
    assert_eq!(what.err().unwrap(), "Runtime identity is unavailable");
}

#[test]
fn answers_go_to_the_viewer_and_a_refusal_closes_it() {
    let (mut sessions, _) = running();
    let answer = session_login(
        &sessions,
        1,
        String::new(),
        String::new(),
        "pw".to_owned(),
        true,
        FREE,
    );
    assert!(matches!(answer, Some(Ok(AuthCommand::Password(p))) if p == "pw"));
    let none = session_login(
        &sessions,
        2,
        String::new(),
        String::new(),
        "pw".to_owned(),
        true,
        FREE,
    );
    assert!(none.is_none());
    // Nothing is typed before the peer let the viewer in.
    let typed = session_input_string(&sessions, 1, "hi".to_owned(), FREE);
    assert!(matches!(typed, Some(Err(ViewerError::InputNotAllowed))));
    let key = "continue-insecure-connection".to_owned();
    let yes = session_set_common(&mut sessions, 1, key.clone(), "y".to_owned(), FREE);
    assert!(matches!(yes, Some(Ok(AuthCommand::ContinueInsecure(true)))));
    assert!(!sessions.map[&1].viewer.as_ref().unwrap().cancelled);
    let no = session_set_common(&mut sessions, 1, key, "N".to_owned(), FREE);
    assert!(matches!(no, Some(Ok(AuthCommand::ContinueInsecure(false)))));
    assert!(sessions.map[&1].viewer.as_ref().unwrap().cancelled);
}

#[test]
fn a_pointer_event_of_the_frontend_reaches_the_peer() {
    let (mut sessions, _) = running();
    let mut session = sessions.map.remove(&1).unwrap();
    let viewer = session.viewer.as_mut().unwrap();
    viewer.authenticated = true;
    viewer.remote_keyboard = true;
    viewer.geometry = Some(Geometry {
        display: 0,
        x: 100,
        y: 0,
        width: 640,
        height: 480,
    });
    sessions.map.insert(1, session);
    let sent = session_send_mouse(
        &sessions,
        1,
        "{\"type\":\"down\",\"buttons\":\"left\",\"x\":\"7\",\"y\":8}".to_owned(),
        FREE,
    );
    match sent {
        Some(Ok(Message::MouseEvent(event))) => {
            assert_eq!((event.mask, event.x, event.y), (9, 107, 8));
        }
        _ => panic!("the event was not sent"),
    }
    assert!(session_send_mouse(&sessions, 1, "no json".to_owned(), FREE).is_none());
    assert!(session_send_mouse(&sessions, 1, "[]".to_owned(), FREE).is_none());
    // A coordinate that is no whole number never becomes a click somewhere else.
    for text in [
        "{\"type\":\"down\",\"buttons\":\"left\",\"x\":\"1.5\",\"y\":\"2\"}",
        "{\"type\":\"down\",\"buttons\":\"left\",\"x\":1.5,\"y\":2}",
        "{\"type\":\"down\",\"buttons\":\"left\",\"x\":null,\"y\":2}",
    ] {
        assert!(session_send_mouse(&sessions, 1, text.to_owned(), FREE).is_none());
    }
}

#[test]
fn each_change_is_reported_once_and_the_end_is_last() {
    let mut state = PumpState::default();
    let mut snapshot = ViewerSnapshot::default();
    snapshot.phase = "authenticated".to_owned();
    snapshot.width = 4;
    snapshot.height = 2;
    snapshot.route = "direct_tcp".to_owned();
    let first = collect(&mut state, &snapshot, None);
    let names: Vec<String> = first
        .iter()
        .map(|event| {
            let value: serde_json::Value = serde_json::from_str(event).expect("valid json");
            value["name"].as_str().unwrap().to_owned()
        })
        .collect();
    assert_eq!(
        names,
        vec!["connection_ready", "peer_info", "permission", "switch_display"]
    );
    let ready: serde_json::Value = serde_json::from_str(&first[0]).unwrap();
    assert_eq!(ready["direct"], "true");
    let info: serde_json::Value = serde_json::from_str(&first[1]).unwrap();
    assert_eq!(
        info["displays"],
        "[{\"cursor_embedded\":false,\"height\":2,\"width\":4,\"x\":0,\"y\":0}]"
    );
    assert!(collect(&mut state, &snapshot, None).is_empty());
    snapshot.closed = true;
    snapshot.error = Some("TransportFailed".to_owned());
    let last = collect(&mut state, &snapshot, None);
    assert_eq!(last.len(), 2);
    assert!(last[0].contains("\"type\":\"error\""), "{}", last[0]);
    assert_eq!(last[1], "close");
    assert!(collect(&mut state, &snapshot, None).is_empty());
}

#[test]
fn a_session_is_introduced_before_anything_is_said_of_its_peer() {
    let mut state = PumpState::default();
    let mut said: Vec<String> = Vec::new();
    for (phase, width, closed) in [
        ("connecting", 4, false),
        ("awaiting_password", 4, false),
        ("authenticated", 0, false),
        ("authenticated", 4, false),
        ("awaiting_password", 5, false),
        ("authenticated", 5, true),
        ("authenticated", 6, true),
    ] {
        let mut snapshot = ViewerSnapshot::default();
        snapshot.phase = phase.to_owned();
        snapshot.width = width;
        snapshot.height = 2;
        snapshot.closed = closed;
        for event in collect(&mut state, &snapshot, None) {
            let name = match serde_json::from_str::<serde_json::Value>(&event) {
                Ok(value) => value["name"].as_str().unwrap().to_owned(),
                Err(_) => event,
            };
            said.push(name);
        }
    }
    assert_eq!(
        said,
        vec![
            "msgbox",
            "connection_ready",
            "peer_info",
            "permission",
            "switch_display",
            "switch_display",
            "msgbox",
            "close",
            "switch_display",
        ]
    );
}

#[test]
fn a_phase_that_waits_for_the_user_asks_once() {
    let mut state = PumpState::default();
    let mut snapshot = ViewerSnapshot::default();
    for (phase, kind) in [
        ("awaiting_insecure_confirmation", "insecure-connection"),
        ("awaiting_password", "input-password"),
        ("awaiting_2fa", "input-2fa"),
        ("awaiting_2fa_retry", "input-2fa"),
    ] {
        snapshot.phase = phase.to_owned();
        let asked = collect(&mut state, &snapshot, None);
        assert_eq!(asked.len(), 1, "{phase}");
        let value: serde_json::Value = serde_json::from_str(&asked[0]).unwrap();
        assert_eq!(value["type"], kind);
        assert!(collect(&mut state, &snapshot, None).is_empty());
    }
}

#[test]
fn the_pump_reports_what_the_viewer_shows_until_it_is_over() {
    let (mut sessions, mut textures) = running();
    // A viewer that was just started has nothing to report yet.
    assert!(pump(&mut sessions, 1).is_empty());
    let mut session = sessions.map.remove(&1).unwrap();
    session.viewer.as_mut().unwrap().finish(&Ok(()));
    sessions.map.insert(1, session);
    let events = pump(&mut sessions, 1);
    assert_eq!(events, vec![EventToUI::Event("close".to_owned())]);
    assert!(pump_finished(&sessions, 1));
    assert!(session_close(&mut sessions, &mut textures, 1).is_some());
    assert!(pump(&mut sessions, 1).is_empty());
    assert!(session_close(&mut sessions, &mut textures, 1).is_none());
}

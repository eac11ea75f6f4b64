//! What the application calls.
use rd_engine::entries::Entries;
use rd_engine::flutter_session::TargetReading;
use rd_engine::flutter_state::AppConfig;
use rd_engine::har::capability::{
    begin_query, engine_capabilities, AdvertisedCodec, CapabilityReport, CaptureRate,
    CodecDirection, SizeEvidence,
};
use rd_engine::har::compat::{
    decoder_row, healthcheck, runtime_get_server_config, runtime_list_favorites,
};
use rd_engine::har::controlled_host::{
    controlled_incoming_poll, controlled_incoming_resolve, controlled_password_get,
    controlled_password_set_permanent, controlled_password_set_verification_method,
    controlled_screen_configure, controlled_server_get_status, controlled_server_start,
    controlled_server_stop, controlled_setting_set, controlled_settings_get, ControlledState,
    HostIdentity, Passwords, Rate, Screen, MAX_SETTINGS,
};
use rd_engine::har::engine::{
    bind_directory, check_path, engine_connect, engine_connect_id, engine_connect_verified,
    finish_set_up, read_pin, require_local_identity, Binding, DirectArguments, Directory,
    IdArguments, Initialization, Registry, SetUpReport,
};
use rd_engine::har::host_bridge::{engine_host_identity, HostRegistry, KeyPair};
use rd_engine::har::session_compat::{
    session_add, session_bind_surface, session_close, session_get_toggle_option, session_login,
    session_poll_events, session_send_mouse_event, session_set_codec_preference,
    session_set_custom_fps, session_set_view_only, session_start, session_toggle_option,
    CompatSessions,
};
use rd_engine::har::xcomponent::{xcomponent_attach, xcomponent_set_frame_rate_range_native};
use rd_engine::har::{integer, BridgeStatus};
use rd_engine::host::Address;
use rd_engine::viewer::{AuthCommand, QueueState, ViewerError};

const FREE: QueueState = QueueState {
    closed: false,
    room: 4,
};

/// A server key that is one: thirty-two bytes of zero.
const PUBLIC: &str = "AAAAAAAAAAAAAAAAAAAAAAAAAAAAAAAAAAAAAAAAAAA=";

fn value(text: &str) -> serde_json::Value {
    serde_json::from_str(text).expect("valid json")
}

fn known() -> Option<Initialization> {
    Some(Initialization {
        directory: "/data".to_owned(),
        id: Some("123".to_owned()),
    })
}

fn config() -> AppConfig {
    AppConfig {
        id: "123".to_owned(),
        machine: vec![],
        options: Entries::new(),
        local_options: Entries::new(),
        rendezvous_server: "rs.example".to_owned(),
    }
}

fn direct(username: &str) -> DirectArguments {
    DirectArguments {
        surface_id: "77".to_owned(),
        address: Some(Address {
            ip: "10.0.0.2".to_owned(),
            text: "10.0.0.2:21118".to_owned(),
            port: 21118,
        }),
        username: username.to_owned(),
        local_id: "123".to_owned(),
        local_name: "me".to_owned(),
        fps: Some(60),
    }
}

#[test]
fn numbers_have_to_be_integers_in_range() {
    assert_eq!(integer(Some(5), 1, 5), Ok(5));
    let error = integer(Some(6), 1, 5).unwrap_err();
    assert_eq!(error.status, BridgeStatus::InvalidArg);
    assert_eq!(
        error.to_string(),
        "InvalidArg, Expected an integer in the supported range"
    );
    assert!(integer(None, 1, 5).is_err(), "a fraction is no integer");
}

#[test]
fn only_an_absolute_path_that_never_goes_up_is_taken() {
    assert!(check_path("/data/app").is_ok());
    assert!(check_path("/data/..app/x..").is_ok());
    for wrong in ["", "data", "/data/../x", "/..", "/data/.."] {
        assert!(check_path(wrong).is_err(), "{wrong}");
    }
}

#[test]
fn a_directory_is_bound_once_and_for_all() {
    let found = |path: &str| {
        Some(Directory {
            path: path.to_owned(),
            is_directory: true,
            has_parent: true,
        })
    };
    let mut state = None;
    assert_eq!(
        bind_directory(&mut state, &None).unwrap_err().message,
        "App directory is unavailable"
    );
    assert_eq!(bind_directory(&mut state, &found("/a")), Ok(Binding::SetUp));
    let failed = SetUpReport {
        crypto: true,
        app_directory: true,
        home_directory: true,
        id: String::new(),
        stored: true,
    };
    assert!(finish_set_up(&mut state, &failed).is_err());
    // It failed before: it stays bound, and has no identity.
    assert_eq!(
        bind_directory(&mut state, &found("/a")).unwrap_err().message,
        "App initialization previously failed"
    );
    assert!(bind_directory(&mut state, &found("/b")).is_err());
    assert!(require_local_identity(&state, "123").is_err());
    let done = SetUpReport {
        id: "123".to_owned(),
        ..failed
    };
    assert_eq!(finish_set_up(&mut state, &done).unwrap(), "123");
    assert_eq!(
        bind_directory(&mut state, &found("/a")),
        Ok(Binding::Known("123".to_owned()))
    );
    assert!(require_local_identity(&state, "123").is_ok());
    assert!(require_local_identity(&state, "124").is_err());
}

#[test]
fn a_password_is_handed_over_or_wiped() {
    let mut password = "secret".to_owned();
    let request = engine_connect(&known(), direct(""), &mut password)
        .ok()
        .expect("valid");
    assert_eq!(request.options.username, "10.0.0.2");
    assert_eq!(request.options.password, "secret");
    assert_eq!(request.surface, 77);
    assert_eq!(password, "");

    let mut password = "secret".to_owned();
    let mut wrong = direct("");
    wrong.surface_id = "0".to_owned();
    let error = engine_connect(&known(), wrong, &mut password).err().unwrap();
    assert_eq!(error.message, "Invalid Surface ID");
    assert_eq!(password, "", "what is refused is wiped");

    let mut password = "secret".to_owned();
    let error = engine_connect(&None, direct(""), &mut password).err().unwrap();
    assert_eq!(error.status, BridgeStatus::GenericFailure);
    assert_eq!(password, "");
}

#[test]
fn a_pin_is_a_number_and_a_key_of_the_right_length() {
    assert_eq!(read_pin("5", PUBLIC).unwrap(), vec![0u8; 32]);
    assert!(read_pin("", PUBLIC).is_err());
    assert!(read_pin("5", "AAAA").is_err());
    let garbled = "!AAAAAAAAAAAAAAAAAAAAAAAAAAAAAAAAAAAAAAAAAA=";
    assert_eq!(
        read_pin("5", garbled).unwrap_err().message,
        "Expected a base64 Ed25519 peer signing public key"
    );
    let mut password = String::new();
    let request = engine_connect_verified(
        &known(),
        direct(""),
        &mut password,
        "5".to_owned(),
        PUBLIC.to_owned(),
    )
    .ok()
    .expect("valid");
    assert_eq!(request.options.username, "5", "never the address");
    assert_eq!(request.peer_key, Some(vec![0u8; 32]));
}

#[test]
fn the_identity_that_is_given_out_can_be_pinned() {
    let keys = KeyPair {
        secret: vec![0; 64],
        public: (0u8..32).collect(),
    };
    let text = engine_host_identity(&known(), &keys).unwrap();
    let identity = value(&text);
    assert_eq!(identity["id"], "123");
    let pin = identity["peer_signing_key_base64"].as_str().unwrap();
    assert_eq!(pin, "AAECAwQFBgcICQoLDA0ODxAREhMUFRYXGBkaGxwdHh8=");
    assert_eq!(read_pin("123", pin).unwrap(), keys.public);
    let short = KeyPair {
        secret: vec![0; 64],
        public: vec![0; 31],
    };
    assert!(engine_host_identity(&known(), &short).is_err());
    assert!(engine_host_identity(&None, &keys).is_err());
}

#[test]
fn a_peer_by_number_needs_a_server_to_trust() {
    let arguments = || IdArguments {
        surface_id: "77".to_owned(),
        peer_id: " 987 ".to_owned(),
        local_id: "123".to_owned(),
        local_name: "me".to_owned(),
        fps: Some(60),
    };
    let mut password = "secret".to_owned();
    let mut config = config();
    let request = engine_connect_id(&known(), &config, PUBLIC, arguments(), &mut password)
        .ok()
        .expect("valid");
    assert_eq!(request.options.username, "987");
    assert_eq!(request.rendezvous.unwrap().server_key, vec![0u8; 32]);
    config.options.put("key", "broken");
    let error = engine_connect_id(&known(), &config, PUBLIC, arguments(), &mut password)
        .err()
        .unwrap();
    assert_eq!(error.message, "Configured rendezvous trust anchor is invalid");
}

#[test]
fn a_surface_belongs_to_one_session_until_it_is_known_to_be_over() {
    let mut registry = Registry::new();
    let request = engine_connect(&known(), direct(""), &mut String::new())
        .ok()
        .unwrap();
    let sequence = registry.reserve(request.surface).unwrap();
    let id = registry.register(sequence, &request).unwrap();
    assert_eq!(id, "modern-1");
    assert_eq!(
        registry.reserve(77).unwrap_err().message,
        "Surface is still owned by a modern session"
    );
    let seen = value(&registry.engine_snapshot(&id).unwrap());
    assert_eq!(seen["phase"], "capability");
    assert_eq!(seen["error"], serde_json::Value::Null);
    assert!(registry.engine_snapshot("modern-2").is_err());
    let pointer = registry.engine_mouse(&id, Some(0), Some(0), Some(1), Some(1), FREE);
    assert!(matches!(pointer, Ok(Some(Err(ViewerError::InputNotAllowed)))));
    assert!(registry
        .engine_mouse(&id, Some(-1), Some(0), Some(1), Some(1), FREE)
        .is_err());
    registry.begin_close(&id).unwrap();
    assert!(registry.begin_close(&id).is_err(), "somebody waits already");
    assert!(registry
        .engine_close(&id, Err(ViewerError::ReclamationUnconfirmed))
        .is_err());
    assert!(registry.reserve(77).is_err(), "it keeps its surface");
    registry.engine_close(&id, Ok(())).unwrap();
    assert_eq!(registry.reserve(77).unwrap(), 2);
}

#[test]
fn a_query_runs_alone_and_reports_what_was_advertised() {
    let mut running = false;
    assert!(begin_query(&mut running).is_ok());
    assert!(begin_query(&mut running).is_err());
    let codec = |direction| AdvertisedCodec {
        direction,
        mime: "video/hevc".to_owned(),
        codec_name: "hw".to_owned(),
        hardware: true,
        profiles: Ok(vec![0, 2]),
        main10_advertised: Ok(true),
        main10_levels: Err("Api".to_owned()),
        native_buffer_formats: Ok(vec![]),
        pixel_formats: Ok(vec![1]),
        width_alignment: Ok(2),
        height_alignment: Ok(-1),
        sizes: vec![SizeEvidence {
            width: 1920,
            height: 1080,
            fps: 60,
            size_supported: true,
            size_and_rate_supported: false,
            frame_rate_range: Ok((1, 120)),
        }],
    };
    let report = CapabilityReport {
        encoder: Err("NoHardware".to_owned()),
        decoder: Ok(codec(CodecDirection::Decode)),
        screen_capture_rate: CaptureRate::DocumentedMaximum {
            fps: 60,
            source: "docs".to_owned(),
        },
    };
    let told = value(&engine_capabilities(&report, "reference"));
    assert_eq!(told["encoder"]["ok"], false);
    assert_eq!(told["encoder"]["error"], "NoHardware");
    let decoder = &told["decoder"]["value"];
    assert_eq!(decoder["direction"], "decode");
    assert_eq!(decoder["profiles"]["value"][1], 2);
    assert_eq!(decoder["main10_levels"]["error"], "Api");
    assert_eq!(decoder["height_alignment"]["value"], -1);
    assert_eq!(decoder["sizes"][0]["frame_rate_range"]["value"]["max"], 120);
    assert_eq!(told["screen_capture_rate"]["fps"], 60);
    let row = value(&decoder_row("H265", "video/hevc", &report.decoder));
    assert_eq!(row["hardwareAvailable"], true);
    assert_eq!(row["hardwareName"], "hw");
    let row = value(&decoder_row("H265", "video/hevc", &report.encoder));
    assert_eq!(row["hardwareAvailable"], false);
    assert_eq!(row["error"], "NoHardware");
}

#[test]
fn the_runtime_describes_itself() {
    assert_eq!(
        healthcheck(),
        "{\"message\":\"RustDesk Enhanced native runtime loaded\",\"ok\":true}"
    );
    assert_eq!(runtime_list_favorites(), "{\"favorites\":[],\"ok\":true}");
    let mut config = config();
    let told = value(&runtime_get_server_config(&config));
    assert_eq!(told["config"]["mode"], "official");
    config.options.put("custom-rendezvous-server", "mine");
    let told = value(&runtime_get_server_config(&config));
    assert_eq!(told["config"]["mode"], "custom");
    assert_eq!(told["config"]["usingPublicServer"], false);
}

fn target(text: &str) -> TargetReading {
    if text.contains('.') {
        TargetReading {
            socket: None,
            ip: Some(Address {
                ip: text.to_owned(),
                text: format!("{text}:21118"),
                port: 21118,
            }),
        }
    } else {
        TargetReading {
            socket: None,
            ip: None,
        }
    }
}

fn with_session(options: &str) -> CompatSessions {
    let mut registry = CompatSessions::new();
    let reply = value(&session_add(
        &mut registry,
        "s1",
        " 10.0.0.2 ",
        &target("10.0.0.2"),
        options,
    ));
    assert_eq!(reply["ok"], true, "{reply}");
    assert_eq!(reply["session"]["coreSessionId"], "enhanced:s1");
    assert_eq!(reply["session"]["peerTarget"], "10.0.0.2");
    assert_eq!(reply["session"]["phase"], "created");
    registry
}

#[test]
fn a_session_is_created_from_options_that_are_json() {
    let mut registry = with_session("{\"password\":\"pw\",\"isViewOnly\":true}");
    assert!(registry.items[0].view_only);
    assert_eq!(registry.items[0].password, "pw");
    let mut add = |id: &str, name: &str, options: &str| {
        value(&session_add(&mut registry, id, name, &target(name), options))["message"]
            .as_str()
            .unwrap()
            .to_owned()
    };
    assert_eq!(add("s2", "5", "no json"), "Invalid session options");
    assert_eq!(add("s2", "", "{}"), "Invalid peer target");
    assert_eq!(add("", "5", "{}"), "Invalid session ID");
    assert_eq!(add("s\n", "5", "{}"), "Invalid session ID");
    assert_eq!(
        add("s2", "5", "{\"isViewCamera\":true}"),
        "This compatibility milestone supports desktop viewer sessions only"
    );
    assert_eq!(add("s1", "5", "{}"), "Session already exists");
    for n in 2..7 {
        assert_eq!(
            add(&format!("s{n}"), "5", "[]"),
            "Created RustDesk Enhanced session"
        );
    }
    assert_eq!(add("s7", "5", "{}"), "Session limit reached");
    let long = format!("{{\"password\":\"{}\"}}", "x".repeat(4097));
    assert_eq!(add("s8", "5", &long), "Password is too long");
}

#[test]
fn a_session_that_only_watches_sends_no_pointer() {
    let mut registry = with_session("{}");
    session_start(&mut registry, "s1", &config(), PUBLIC);
    let viewer = registry.items[0].viewer.as_mut().unwrap();
    viewer.authenticated = true;
    viewer.remote_keyboard = true;
    let wheel = |registry: &CompatSessions| {
        session_send_mouse_event(registry, "s1", 3, 0, 0, 1, 0, FREE)
    };
    assert!(wheel(&registry).is_some());
    assert!(
        value(&session_set_view_only(&mut registry, "s1", true))["ok"] == false,
        "it cannot change after the start"
    );
    registry.items[0].view_only = true;
    assert!(wheel(&registry).is_none());
}

#[test]
fn a_session_starts_once_and_hands_its_password_over() {
    let mut registry = with_session("{\"password\":\"pw\"}");
    let mut nameless = config();
    nameless.id = String::new();
    let (reply, plan) = session_start(&mut registry, "s1", &nameless, PUBLIC);
    assert_eq!(value(&reply)["message"], "Runtime identity is unavailable");
    assert!(plan.is_none());
    let (reply, plan) = session_start(&mut registry, "s1", &config(), PUBLIC);
    assert_eq!(value(&reply)["ok"], true);
    let plan = plan.unwrap();
    assert_eq!(plan.options.password, "pw");
    assert_eq!(plan.options.local_name, "RustDesk HMOS");
    assert_eq!(registry.items[0].password, "");
    let (reply, plan) = session_start(&mut registry, "s1", &config(), PUBLIC);
    assert_eq!(value(&reply)["message"], "Session already started");
    assert!(plan.is_none());
    let (reply, _) = session_start(&mut registry, "s9", &config(), PUBLIC);
    assert_eq!(value(&reply)["session"], serde_json::Value::Null);
}

#[test]
fn a_forced_relay_is_not_connected() {
    let mut registry = with_session("{\"forceRelay\":true}");
    let (reply, plan) = session_start(&mut registry, "s1", &config(), PUBLIC);
    assert_eq!(
        value(&reply)["message"],
        "Forced relay routing is not connected in this milestone"
    );
    assert_eq!(value(&reply)["session"]["phase"], "starting");
    assert!(plan.is_none());
}

#[test]
fn a_surface_is_bound_once() {
    let mut registry = with_session("{}");
    let mut bind = |display, surface: &str, retained| {
        value(&session_bind_surface(
            &mut registry,
            "s1",
            display,
            surface,
            retained,
        ))["message"]
            .as_str()
            .unwrap()
            .to_owned()
    };
    assert_eq!(bind(0, " ", true), "Surface binding is already empty");
    assert_eq!(bind(0, "0", true), "Invalid native Surface ID");
    assert_eq!(bind(0, "5", false), "Cannot retain Surface");
    assert_eq!(bind(0, "5", true), "Bound retained native Surface");
    assert_eq!(bind(0, "5", true), "Bound retained native Surface");
    assert_eq!(
        bind(0, "6", true),
        "A running decoder cannot be rebound to another Surface"
    );
    assert_eq!(
        bind(1, "5", true),
        "Multi-display Surface binding is not connected in this milestone"
    );
    assert_eq!(registry.items[0].surface.surface_id(), Some(5));
}

#[test]
fn events_wait_until_they_are_asked_for() {
    let mut registry = with_session("{}");
    session_start(&mut registry, "s1", &config(), PUBLIC);
    let viewer = registry.items[0].viewer.as_mut().unwrap();
    viewer.snapshot.phase = "awaiting_password".to_owned();
    let reply = value(&session_poll_events(&mut registry, "s1", 0));
    assert_eq!(reply["events"].as_array().unwrap().len(), 0);
    let reply = value(&session_poll_events(&mut registry, "s1", 9));
    assert_eq!(reply["events"].as_array().unwrap().len(), 1);
    assert_eq!(reply["events"][0]["type"], "input-password");
    assert_eq!(reply["session"]["phase"], "awaiting_password");
    let reply = value(&session_poll_events(&mut registry, "s1", 9));
    assert_eq!(reply["events"].as_array().unwrap().len(), 0);
    // After an attempt the question is asked again, as a second one.
    let (reply, command) = session_login(&mut registry, "s1", "{\"password\":\"x\"}", FREE);
    assert_eq!(value(&reply)["message"], "Password submitted");
    assert!(matches!(command, Some(AuthCommand::Password(p)) if p == "x"));
    let reply = value(&session_poll_events(&mut registry, "s1", 9));
    assert_eq!(reply["events"][0]["type"], "re-input-password");
    assert_eq!(reply["events"][0]["text"], "Wrong Password");
    let (reply, command) = session_login(&mut registry, "s1", "{}", FREE);
    assert_eq!(value(&reply)["ok"], false, "an empty password is none");
    assert!(command.is_none());
    let (reply, _) = session_login(&mut registry, "s1", "{", FREE);
    assert_eq!(value(&reply)["message"], "Invalid login payload");
}

#[test]
fn a_session_reports_its_peer_and_its_end() {
    let mut registry = with_session("{}");
    session_start(&mut registry, "s1", &config(), PUBLIC);
    let viewer = registry.items[0].viewer.as_mut().unwrap();
    viewer.snapshot.phase = "authenticated".to_owned();
    viewer.snapshot.width = 4;
    viewer.snapshot.height = 2;
    viewer.snapshot.codec = "H265".to_owned();
    let reply = value(&session_poll_events(&mut registry, "s1", 2));
    assert_eq!(reply["events"][0]["name"], "connection_ready");
    assert_eq!(reply["events"][1]["hostname"], "10.0.0.2");
    let reply = value(&session_poll_events(&mut registry, "s1", 256));
    assert_eq!(reply["events"][0]["name"], "permission");
    assert_eq!(reply["events"][1]["codec_format"], "H265");
    registry.items[0]
        .viewer
        .as_mut()
        .unwrap()
        .finish(&Err(ViewerError::RemoteClosed));
    let reply = value(&session_poll_events(&mut registry, "s1", 256));
    assert_eq!(reply["events"][0]["text"], "RemoteClosed");
    assert_eq!(reply["events"][1]["name"], "close");
    let (reply, left) = session_close(&mut registry, "s1");
    assert_eq!(value(&reply)["ok"], true);
    assert!(left.unwrap().surface.cancelled);
    let (reply, _) = session_close(&mut registry, "s1");
    assert_eq!(value(&reply)["message"], "Session is already closed");
}

#[test]
fn preferences_are_kept_where_they_can_be() {
    let mut registry = with_session("{}");
    assert_eq!(
        value(&session_set_codec_preference(&mut registry, "s1", " H265 "))["ok"],
        true
    );
    assert_eq!(registry.items[0].codec_preference, "h265");
    assert_eq!(
        value(&session_set_codec_preference(&mut registry, "s1", "h264"))["ok"],
        false
    );
    assert_eq!(
        value(&session_set_custom_fps(&mut registry, "s1", 241))["ok"],
        false
    );
    assert_eq!(
        value(&session_set_custom_fps(&mut registry, "s1", 120))["ok"],
        true
    );
    assert_eq!(registry.items[0].requested_fps, 120);
    assert!(session_get_toggle_option(&registry, "s1", "disable-audio"));
    session_toggle_option(&mut registry, "s1", "disable-audio");
    assert!(!session_get_toggle_option(&registry, "s1", "disable-audio"));
    assert!(!session_get_toggle_option(&registry, "s1", "other"));
}

fn keys() -> KeyPair {
    KeyPair {
        secret: vec![1; 64],
        public: vec![2; 32],
    }
}

fn identity() -> HostIdentity {
    HostIdentity {
        state: known(),
        keys: keys(),
        configured: "configured".to_owned(),
    }
}

fn screen(width: i32, height: i32, fps: i64) -> Screen {
    Screen {
        width,
        height,
        rate: Rate {
            shown: fps.to_string(),
            in_range: (1..=60).contains(&fps),
            whole: Some(fps),
        },
    }
}

#[test]
fn a_host_is_started_on_a_screen_that_was_described() {
    let mut state = ControlledState::new();
    let mut registry = HostRegistry::new();
    let (reply, started) =
        controlled_server_start(&mut state, &mut registry, &identity());
    assert_eq!(value(&reply)["message"], "屏幕参数尚未配置，无法启动被看服务");
    assert!(started.is_none());
    assert_eq!(
        value(&controlled_screen_configure(&mut state, "{}", &screen(1919, 1080, 30)))["ok"],
        false
    );
    assert_eq!(
        value(&controlled_screen_configure(&mut state, "{", &screen(1920, 1080, 30)))["message"],
        "屏幕参数不是有效 JSON"
    );
    assert_eq!((state.width, state.height), (0, 0));
    let reply = controlled_screen_configure(&mut state, "{}", &screen(1920, 1080, 30));
    assert_eq!(value(&reply)["message"], "屏幕参数已记录 1920x1080@30");
    let (reply, started) =
        controlled_server_start(&mut state, &mut registry, &identity());
    let started = started.expect("starts");
    assert_eq!(started.id, "modern-host-1");
    assert_eq!(started.options.bitrate, 16_000_000);
    assert!(!started.options.input_injection);
    assert_eq!(value(&reply)["state"], "ready");
    assert_eq!(value(&reply)["myId"], "123");
    // Starting again reports the host that is there.
    let (again, none) = controlled_server_start(&mut state, &mut registry, &identity());
    assert_eq!(again, reply);
    assert!(none.is_none());

    let (status, line) = controlled_server_get_status(&mut state, &registry, &identity());
    assert_eq!(status, reply);
    assert_eq!(
        line.as_deref(),
        Some("controlled_host listener_running=true phase=starting error=")
    );
    assert!(controlled_server_get_status(&mut state, &registry, &identity())
        .1
        .is_none());
    let stopped = controlled_server_stop(&mut state, &identity(), true);
    assert_eq!(value(&stopped)["state"], "disabled");
    assert!(state.handle.is_none());
}

#[test]
fn a_request_is_listed_and_decided() {
    let mut state = ControlledState::new();
    let mut registry = HostRegistry::new();
    assert_eq!(
        controlled_incoming_poll(&state, &registry),
        "{\"clients\":[],\"ok\":true,\"requests\":[]}"
    );
    assert_eq!(
        value(&controlled_incoming_resolve(&state, &mut registry, "7", true))["message"],
        "被看服务未运行"
    );
    controlled_screen_configure(&mut state, "{}", &screen(1280, 720, 30));
    controlled_server_start(&mut state, &mut registry, &identity());
    {
        let host = &mut registry.entry.as_mut().unwrap().host;
        host.snapshot.approval_request = "7".to_owned();
        host.snapshot.approval_origin = "10.0.0.9:5000".to_owned();
        host.grant.epoch = 7;
    }
    let listed = value(&controlled_incoming_poll(&state, &registry));
    assert_eq!(listed["requests"][0]["peerId"], "10.0.0.9:5000");
    assert_eq!(listed["clients"][0]["authorized"], false);
    let resolve = |registry: &mut HostRegistry, request: &str| {
        value(&controlled_incoming_resolve(&state, registry, request, true))["message"]
            .as_str()
            .unwrap()
            .to_owned()
    };
    assert_eq!(
        resolve(&mut registry, ""),
        "处理连接请求失败：InvalidArg, Invalid local approval request"
    );
    assert_eq!(resolve(&mut registry, "8"), "该请求已失效或被拒绝");
    assert_eq!(resolve(&mut registry, "7"), "已处理该连接请求");
    assert_eq!(resolve(&mut registry, "7"), "该请求已失效或被拒绝");
    // Closing frees the place only once everything was released.
    let id = state.handle.clone().unwrap();
    registry.begin_close(&id).unwrap();
    assert!(registry.begin_close(&id).is_err());
    assert!(registry.engine_host_close(&id, false).is_err());
    registry.entry.as_mut().unwrap().host.on_ended(Ok(()));
    assert!(registry.engine_host_close(&id, false).is_ok());
    assert!(registry.entry.is_none());
}

#[test]
fn a_host_that_cannot_be_shown_is_refused() {
    let mut registry = HostRegistry::new();
    let mut start = |width, height, fps| {
        registry
            .engine_host_start(&known(), keys(), Some(width), Some(height), fps)
            .err()
            .map(|error| error.message)
    };
    let range = Some("Expected an integer in the supported range".to_owned());
    assert_eq!(start(1, 720, Some(30)), range);
    assert_eq!(start(1280, 720, None), range);
    assert_eq!(start(1280, 720, Some(61)), range);
    let shape = Some("Host geometry must be even and at most UHD pixel area".to_owned());
    assert_eq!(start(1281, 720, Some(30)), shape);
    assert_eq!(start(3840, 2162, Some(30)), shape);
    assert_eq!(start(3840, 2160, Some(30)), None);
    assert_eq!(
        start(3840, 2160, Some(30)),
        Some("A host is still active, closing or quarantined".to_owned())
    );
}

#[test]
fn passwords_and_settings_are_bounded() {
    let passwords = Passwords {
        temporary: "abc123".to_owned(),
        method: String::new(),
        permanent_set: false,
    };
    let told = value(&controlled_password_get(&passwords));
    assert_eq!(told["temporaryPassword"], "abc123");
    assert_eq!(told["verificationMethod"], "use-both-passwords");
    let long = "x".repeat(129);
    assert_eq!(
        value(&controlled_password_set_permanent(&long, true, &passwords))["message"],
        "固定密码超出长度限制"
    );
    assert_eq!(
        value(&controlled_password_set_permanent("x", false, &passwords))["message"],
        "固定密码写入失败"
    );
    assert_eq!(
        value(&controlled_password_set_verification_method("other", &passwords))["ok"],
        false
    );
    let mut state = ControlledState::new();
    for n in 0..MAX_SETTINGS {
        assert_eq!(
            controlled_setting_set(&mut state, &format!("k{n}"), "v"),
            "{\"ok\":true}"
        );
    }
    assert_eq!(
        value(&controlled_setting_set(&mut state, "more", "v"))["message"],
        "设置项数量超出限制"
    );
    assert_eq!(
        controlled_setting_set(&mut state, "k0", "new"),
        "{\"ok\":true}"
    );
    assert_eq!(
        value(&controlled_setting_set(&mut state, "", "v"))["message"],
        "设置项超出长度限制"
    );
    assert_eq!(
        value(&controlled_settings_get(&state))["settings"]["k0"],
        "new"
    );
}

#[test]
fn a_rate_is_declared_to_a_component_that_is_there() {
    assert_eq!(
        xcomponent_set_frame_rate_range_native(true, 0, 0, 120),
        Err(-1)
    );
    assert_eq!(
        xcomponent_set_frame_rate_range_native(false, 60, 0, 120),
        Err(-3)
    );
    let range = xcomponent_set_frame_rate_range_native(true, 60, 0, 120).unwrap();
    assert_eq!((range.min, range.max, range.expected), (0, 120, 60));
    assert_eq!(xcomponent_attach((0, false), (0, true)), -1);
    assert_eq!(xcomponent_attach((0, true), (9, true)), 9);
    assert_eq!(xcomponent_attach((0, true), (0, true)), 0);
}

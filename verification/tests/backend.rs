//! Sessions of either protocol, and how input is named for VNC.
use rd_engine::control_key::ControlKey;
use rd_engine::session_backend::{
    vnc_keysym, vnc_modifiers, vnc_pointer, Outgoing, SessionBackend,
};
use rd_engine::viewer::keys::ViewerKey;
use rd_engine::viewer::{QueueState, ViewerError};
use rd_engine::vnc::live::VncLiveSession;
use rd_engine::vnc::protocol::{preferred_pixel_format, Encoding, SecurityType};
use rd_engine::vnc::session::{ServerInfo, VncSession};

#[test]
fn the_modifier_keysyms_are_the_x11_ones() {
    assert_eq!(vnc_modifiers(true, false, false, false), vec![0xFFE9]);
    assert_eq!(vnc_modifiers(false, true, false, false), vec![0xFFE3]);
    assert_eq!(vnc_modifiers(false, false, true, false), vec![0xFFE1]);
    assert_eq!(vnc_modifiers(false, false, false, true), vec![0xFFEB]);
    // Order matters: modifiers are pressed before the key and released in
    // reverse, so control comes first.
    assert_eq!(
        vnc_modifiers(true, true, true, false),
        vec![0xFFE3, 0xFFE9, 0xFFE1]
    );
}

#[test]
fn buttons_are_translated_by_name_because_the_numberings_differ() {
    // Facade: 1 left, 2 right, 3 middle. RFB bits: left, middle, right.
    assert_eq!(
        vnc_pointer(1, 1, 10, 20).unwrap(),
        (1, 10, 20),
        "left press"
    );
    assert_eq!(
        vnc_pointer(1, 2, 10, 20).unwrap(),
        (4, 10, 20),
        "right press"
    );
    assert_eq!(
        vnc_pointer(1, 3, 10, 20).unwrap(),
        (2, 10, 20),
        "middle press"
    );
    // A release sends no held buttons but still refuses an unknown number.
    assert_eq!(
        vnc_pointer(2, 1, 10, 20).unwrap(),
        (0, 10, 20),
        "left release"
    );
}

#[test]
fn wheel_directions_use_the_rfb_wheel_buttons() {
    assert_eq!(vnc_pointer(3, 4, 1, 2).unwrap(), (8, 1, 2), "wheel up");
    assert_eq!(vnc_pointer(3, 5, 1, 2).unwrap(), (16, 1, 2), "wheel down");
}

#[test]
fn a_move_carries_no_button() {
    assert_eq!(vnc_pointer(0, 0, 5, 6).unwrap(), (0, 5, 6));
}

#[test]
fn a_named_button_outside_the_known_bits_and_unknown_kinds_are_refused() {
    // 9 is not one of the facade's button numbers.
    assert!(vnc_pointer(1, 9, 0, 0).is_err());
    // The facade only defines kinds 0 through 5.
    assert!(vnc_pointer(9, 1, 0, 0).is_err());
}

#[test]
fn a_negative_position_is_refused() {
    assert!(vnc_pointer(1, 1, -1, 0).is_err());
    assert!(vnc_pointer(1, 1, 0, -1).is_err());
}

#[test]
fn printable_characters_become_their_latin1_keysym() {
    assert_eq!(
        vnc_keysym(ViewerKey::Character(b'a' as u32), false).unwrap(),
        0x61
    );
    assert_eq!(
        vnc_keysym(ViewerKey::Character(b'Z' as u32), true).unwrap(),
        0x5A
    );
    // Beyond Latin-1 there is no keysym this client can send.
    assert!(vnc_keysym(ViewerKey::Character('中' as u32), false).is_err());
}

#[test]
fn the_control_keys_that_matter_have_x11_equivalents() {
    assert_eq!(
        vnc_keysym(ViewerKey::Control(ControlKey::Return), false).unwrap(),
        0xFF0D
    );
    assert_eq!(
        vnc_keysym(ViewerKey::Control(ControlKey::Escape), false).unwrap(),
        0xFF1B
    );
    assert_eq!(
        vnc_keysym(ViewerKey::Control(ControlKey::F12), false).unwrap(),
        0xFFC9
    );
    assert_eq!(
        vnc_keysym(ViewerKey::Control(ControlKey::UpArrow), false).unwrap(),
        0xFF52
    );
}

const FREE: QueueState = QueueState {
    closed: false,
    room: 4,
};

fn vnc() -> SessionBackend {
    let session = VncSession {
        info: ServerInfo {
            version: "003.008".to_owned(),
            negotiated_version: "003.008".to_owned(),
            security: SecurityType::NoAuthentication,
            width: 4,
            height: 2,
            name: "desk".to_owned(),
            format: preferred_pixel_format(),
        },
        encodings: vec![Encoding::Raw],
    };
    SessionBackend::Vnc(VncLiveSession::open(&session, true))
}

#[test]
fn a_text_for_vnc_is_typed_until_a_character_has_no_keysym() {
    let backend = vnc();
    assert!(backend.is_vnc() && !backend.is_rustdesk());
    let (typed, result) = backend.send_text("a中b", FREE);
    assert_eq!(
        typed,
        vec![
            [4, 1, 0, 0, 0, 0, 0, 0x61],
            [4, 0, 0, 0, 0, 0, 0, 0x61]
        ]
    );
    match result {
        Err(ViewerError::Vnc(error)) => assert!(
            error
                .to_string()
                .contains("character '中' has no Latin-1 keysym"),
            "{}",
            error.to_string()
        ),
        _ => panic!("not refused"),
    }
}

#[test]
fn modifiers_come_up_again_around_a_key_for_vnc() {
    let backend = vnc();
    let sent = backend.send_key(
        ViewerKey::Character('a' as u32),
        true,
        false,
        false,
        true,
        false,
        false,
        FREE,
    );
    match sent {
        Ok(Outgoing::Keys(stroke)) => {
            assert_eq!(stroke.before, vec![[4, 1, 0, 0, 0, 0, 0xff, 0xe3]]);
            assert_eq!(stroke.after, vec![[4, 0, 0, 0, 0, 0, 0xff, 0xe3]]);
        }
        _ => panic!("not sent"),
    }
}

#[test]
fn a_pointer_for_vnc_is_a_message_on_its_socket() {
    let sent = vnc().send_mouse(1, 1, 3, 1, FREE);
    match sent {
        Ok(Outgoing::Bytes(bytes)) => assert_eq!(bytes, vec![5, 1, 0, 3, 0, 1]),
        _ => panic!("not sent"),
    }
    assert!(vnc().send_mouse(1, 1, 4, 1, FREE).is_err());
}

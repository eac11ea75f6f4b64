//! What a peer's input becomes.
use rd_engine::control_key::ControlKey;
use rd_engine::input::{
    decode_key, decode_message, decode_mouse, normalize_absolute, windows_virtual_key, KeyAction,
    MouseAction, MouseButton, MAX_ABSOLUTE_COORDINATE, MAX_WHEEL_DELTA, MOUSE_BUTTON_LEFT,
    MOUSE_BUTTON_RIGHT, MOUSE_TYPE_DOWN, MOUSE_TYPE_MOVE, MOUSE_TYPE_MOVE_RELATIVE, MOUSE_TYPE_UP,
    MOUSE_TYPE_WHEEL,
};
use rd_engine::message::{KeyEvent, KeyPayload, KeyboardMode, Message, MouseEvent};
use rd_engine::vk;

#[test]
fn absolute_normalization_spans_the_whole_virtual_desktop() {
    assert_eq!(normalize_absolute(0, 0, 0, 0, 1920, 1080), (0, 0));
    assert_eq!(
        normalize_absolute(1919, 1079, 0, 0, 1920, 1080),
        (65_535, 65_535)
    );
    // A virtual desktop whose origin is negative (a monitor left of the
    // primary) still maps its first pixel to zero.
    assert_eq!(
        normalize_absolute(-1920, -200, -1920, -200, 3840, 1280),
        (0, 0)
    );
}

#[test]
fn points_outside_the_desktop_are_clamped_not_wrapped() {
    assert_eq!(normalize_absolute(-5000, -5000, 0, 0, 1920, 1080), (0, 0));
    assert_eq!(
        normalize_absolute(9999, 9999, 0, 0, 1920, 1080),
        (65_535, 65_535)
    );
}

#[test]
fn secure_attention_sequences_are_refused_rather_than_remapped() {
    assert_eq!(windows_virtual_key(ControlKey::CtrlAltDel), None);
    assert_eq!(windows_virtual_key(ControlKey::LockScreen), None);
    assert_eq!(windows_virtual_key(ControlKey::Unknown), None);
    assert_eq!(windows_virtual_key(ControlKey::Power), None);
    assert_eq!(windows_virtual_key(ControlKey::Return), Some(vk::RETURN));
}

#[test]
fn side_specific_modifiers_map_to_their_own_virtual_keys() {
    assert_ne!(vk::SHIFT, vk::RSHIFT);
    assert_ne!(vk::CONTROL, vk::RCONTROL);
    assert_ne!(vk::MENU, vk::RMENU);
    assert_ne!(vk::LWIN, vk::RWIN);
    assert_eq!(windows_virtual_key(ControlKey::RShift), Some(vk::RSHIFT));
    assert_eq!(
        windows_virtual_key(ControlKey::RControl),
        Some(vk::RCONTROL)
    );
    assert_eq!(windows_virtual_key(ControlKey::RAlt), Some(vk::RMENU));
    assert_eq!(windows_virtual_key(ControlKey::RWin), Some(vk::RWIN));
    // The generic keys stay generic: the protocol does not name a side.
    assert_eq!(windows_virtual_key(ControlKey::Shift), Some(vk::SHIFT));
    assert_eq!(windows_virtual_key(ControlKey::Control), Some(vk::CONTROL));
    assert_eq!(windows_virtual_key(ControlKey::Alt), Some(vk::MENU));
    assert_eq!(windows_virtual_key(ControlKey::Meta), Some(vk::LWIN));
}

#[test]
fn every_control_key_is_either_mapped_or_explicitly_refused() {
    // `windows_virtual_key` matches exhaustively, so a new protocol key is a
    // compile error rather than a silent fallthrough. This test pins the
    // refusal set so an accidental remap of a Secure Attention Sequence or a
    // mobile-only key cannot pass review.
    const REFUSED: [ControlKey; 4] = [
        ControlKey::Unknown,
        ControlKey::Power,
        ControlKey::CtrlAltDel,
        ControlKey::LockScreen,
    ];
    for key in REFUSED {
        assert_eq!(
            windows_virtual_key(key),
            None,
            "{key:?} must be explicitly refused"
        );
    }
    const MAPPED: [ControlKey; 12] = [
        ControlKey::Return,
        ControlKey::Tab,
        ControlKey::Escape,
        ControlKey::Backspace,
        ControlKey::Space,
        ControlKey::F12,
        ControlKey::Numpad9,
        ControlKey::NumpadEnter,
        ControlKey::LeftArrow,
        ControlKey::VolumeUp,
        ControlKey::Kana,
        ControlKey::NumLock,
    ];
    for key in MAPPED {
        assert!(
            windows_virtual_key(key).is_some(),
            "{key:?} must map to a virtual key"
        );
    }
}

fn mouse(mask: i32, x: i32, y: i32) -> MouseEvent {
    MouseEvent {
        mask,
        x,
        y,
    }
}

#[test]
fn mouse_kinds_decode_or_are_dropped_never_guessed() {
    assert_eq!(
        decode_mouse(&mouse(MOUSE_TYPE_MOVE, 10, 20)),
        Some(MouseAction::MoveAbsolute { x: 10, y: 20 })
    );
    assert_eq!(
        decode_mouse(&mouse((MOUSE_BUTTON_LEFT << 3) | MOUSE_TYPE_DOWN, 1, 2)),
        Some(MouseAction::ButtonDown(MouseButton::Left))
    );
    assert_eq!(
        decode_mouse(&mouse((MOUSE_BUTTON_RIGHT << 3) | MOUSE_TYPE_UP, 1, 2)),
        Some(MouseAction::ButtonUp(MouseButton::Right))
    );
    // A chord is not a single button transition.
    assert_eq!(
        decode_mouse(&mouse(
            ((MOUSE_BUTTON_LEFT | MOUSE_BUTTON_RIGHT) << 3) | MOUSE_TYPE_DOWN,
            0,
            0
        )),
        None
    );
    // Unknown kind and out-of-range coordinates are rejected.
    assert_eq!(decode_mouse(&mouse(6, 0, 0)), None);
    assert_eq!(
        decode_mouse(&mouse(MOUSE_TYPE_MOVE, MAX_ABSOLUTE_COORDINATE + 1, 0)),
        None
    );
    // A negative coordinate is legal: the virtual desktop can start left of
    // the primary monitor, so only the magnitude is bounded.
    assert_eq!(
        decode_mouse(&mouse(MOUSE_TYPE_MOVE, -1, -1)),
        Some(MouseAction::MoveAbsolute { x: -1, y: -1 })
    );
    assert_eq!(
        decode_mouse(&mouse(MOUSE_TYPE_MOVE, i32::MIN, 0)),
        None,
        "i32::MIN must not panic or wrap into a valid coordinate"
    );
}

#[test]
fn wheel_negates_the_protocol_horizontal_axis() {
    // A positive protocol x is a left scroll on the peer.
    assert_eq!(
        decode_mouse(&mouse(MOUSE_TYPE_WHEEL, 3, 0)),
        Some(MouseAction::Wheel { dx: -3, dy: 0 })
    );
    assert_eq!(
        decode_mouse(&mouse(MOUSE_TYPE_WHEEL, 0, -2)),
        Some(MouseAction::Wheel { dx: 0, dy: -2 })
    );
    assert_eq!(
        decode_mouse(&mouse(MOUSE_TYPE_WHEEL, i32::MIN, 0)),
        None,
        "negating i32::MIN must not overflow"
    );
}

#[test]
fn relative_movement_keeps_signed_deltas_and_rejects_huge_ones() {
    assert_eq!(
        decode_mouse(&mouse(MOUSE_TYPE_MOVE_RELATIVE, -4, 7)),
        Some(MouseAction::MoveRelative { dx: -4, dy: 7 })
    );
    assert_eq!(
        decode_mouse(&mouse(MOUSE_TYPE_MOVE_RELATIVE, MAX_WHEEL_DELTA + 1, 0)),
        None
    );
}

#[test]
fn key_events_require_an_implemented_mode_and_a_known_identity() {
    let mut event = KeyEvent {
        down: true,
        press: false,
        mode: KeyboardMode::Legacy,
        payload: KeyPayload::Control(Some(ControlKey::Return)),
        modifiers: vec![],
    };
    assert_eq!(
        decode_key(&event),
        Some(KeyAction::Control {
            key: ControlKey::Return,
            down: true
        })
    );

    // Translate/Map modes are not implemented by this host; guessing legacy
    // semantics for them would inject the wrong key.
    event.mode = KeyboardMode::Translate;
    assert_eq!(decode_key(&event), None);

    event.mode = KeyboardMode::Legacy;
    event.payload = KeyPayload::Text("你好".into());
    assert_eq!(decode_key(&event), Some(KeyAction::Text("你好".into())));

    event.payload = KeyPayload::Chr('a' as u32);
    assert_eq!(
        decode_key(&event),
        Some(KeyAction::Character {
            character: 'a',
            down: true
        })
    );

    // A control character belongs to a control key, not to text.
    event.payload = KeyPayload::Chr(0x1b);
    assert_eq!(decode_key(&event), None);
    event.payload = KeyPayload::Chr(0x110000);
    assert_eq!(decode_key(&event), None);
}

#[test]
fn non_input_messages_are_never_treated_as_input() {
    // The position of a cursor and a piece of sound are messages of other kinds.
    assert_eq!(decode_message(&Message::Other), None);
    assert_eq!(decode_message(&Message::PointerDeviceEvent), None);
}

#[test]
fn the_middle_of_the_desktop_stays_in_the_middle() {
    assert_eq!(normalize_absolute(50, 50, 0, 0, 101, 101), (32_767, 32_767));
}

#[test]
fn a_point_further_right_is_never_injected_further_left() {
    for (origin, size) in [(0, 1920), (-1920, 3840), (7, 3), (0, 1), (0, 0), (0, -5)] {
        let mut last = 0;
        for x in -3000..3000 {
            let (scaled, _) = normalize_absolute(x, 0, origin, 0, size, 1);
            assert!((0..=65_535).contains(&scaled));
            assert!(scaled >= last);
            last = scaled;
        }
    }
}

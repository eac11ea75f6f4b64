//! What input becomes on Windows.
use rd_engine::control_key::ControlKey;
use rd_engine::input::{KeyAction, MouseAction, MouseButton, MAX_TEXT_BYTES};
use rd_engine::platform::windows_input::{
    button_flags, inject_character, inject_key, inject_mouse, inject_text, send, InjectError,
    InputRecord, VirtualDesktop, KEYEVENTF_UNICODE, MAX_RECORDS_PER_SEND, MOUSEEVENTF_HWHEEL,
    MOUSEEVENTF_WHEEL, XBUTTON2,
};

const DESKTOP: VirtualDesktop = VirtualDesktop {
    x: 0,
    y: 0,
    width: 1920,
    height: 1080,
};

#[test]
fn injection_is_refused_while_disarmed() {
    assert_eq!(
        inject_mouse(false, MouseAction::MoveRelative { dx: 1, dy: 1 }, DESKTOP),
        Err(InjectError::NotArmed)
    );
    assert_eq!(
        inject_key(
            false,
            &KeyAction::Control {
                key: ControlKey::Return,
                down: true
            }
        ),
        Err(InjectError::NotArmed)
    );
    // An armed call is handed to the system instead of being refused.
    assert_ne!(
        inject_mouse(true, MouseAction::MoveAbsolute { x: 0, y: 0 }, DESKTOP),
        Err(InjectError::NotArmed)
    );
}

#[test]
fn secure_attention_and_mobile_keys_are_refused_by_the_injector() {
    for key in [
        ControlKey::CtrlAltDel,
        ControlKey::LockScreen,
        ControlKey::Unknown,
        ControlKey::Power,
    ] {
        assert_eq!(
            inject_key(true, &KeyAction::Control { key, down: true }),
            Err(InjectError::Unsupported),
            "{key:?} must be refused, not remapped"
        );
    }
}

#[test]
fn an_oversized_text_payload_is_rejected_before_building_records() {
    let oversized = "a".repeat(MAX_TEXT_BYTES + 1);
    assert_eq!(inject_text(&oversized), Err(InjectError::TooLarge));
    // An empty string is a no-op, not an error.
    assert!(inject_text("").unwrap().iter().all(|batch| batch.is_empty()));
    assert_eq!(send(0, 0), Ok(()));
}

#[test]
fn a_missing_virtual_desktop_is_reported_rather_than_aimed_at_a_corner() {
    // In a session without an interactive desktop its size reads as zero, and an
    // absolute move must fail instead of clamping every point to the origin.
    let none = VirtualDesktop {
        x: 0,
        y: 0,
        width: 0,
        height: 0,
    };
    assert_eq!(
        inject_mouse(true, MouseAction::MoveAbsolute { x: 10, y: 10 }, none),
        Err(InjectError::Unsupported)
    );
}

#[test]
fn wheel_axes_map_to_their_documented_input_flags() {
    assert_ne!(MOUSEEVENTF_WHEEL, MOUSEEVENTF_HWHEEL);
    let vertical = inject_mouse(true, MouseAction::Wheel { dx: 0, dy: 1 }, DESKTOP).unwrap();
    let horizontal = inject_mouse(true, MouseAction::Wheel { dx: 1, dy: 0 }, DESKTOP).unwrap();
    assert!(vertical.iter().all(
        |record| matches!(record, InputRecord::Mouse { flags, .. } if *flags == MOUSEEVENTF_WHEEL)
    ));
    assert!(horizontal.iter().all(
        |record| matches!(record, InputRecord::Mouse { flags, .. } if *flags == MOUSEEVENTF_HWHEEL)
    ));
    assert_eq!((vertical.len(), horizontal.len()), (1, 1));
}

#[test]
fn text_goes_out_in_batches_that_the_system_takes() {
    let batches = inject_text(&"a".repeat(200)).unwrap();
    assert!(batches.iter().all(|batch| batch.len() <= MAX_RECORDS_PER_SEND));
    let records: usize = batches.iter().map(|batch| batch.len()).sum();
    assert_eq!(records, 400, "each unit goes down and up");
    assert_eq!(
        batches[0][0],
        InputRecord::Key {
            vk: 0,
            scan: 'a' as u16,
            flags: KEYEVENTF_UNICODE
        }
    );
    assert_eq!(send(3, 2), Err(InjectError::Rejected));
    assert_eq!(send(257, 257), Err(InjectError::TooLarge));
}

#[test]
fn a_character_beyond_the_basic_plane_is_typed_as_a_pair() {
    let down: usize = inject_character('😀', true).iter().map(|b| b.len()).sum();
    let up: usize = inject_character('😀', false).iter().map(|b| b.len()).sum();
    assert_eq!((down, up), (4, 0));
    let plain: usize = inject_character('a', false).iter().map(|b| b.len()).sum();
    assert_eq!(plain, 1);
}

#[test]
fn the_second_extra_button_is_named_in_the_data() {
    assert_eq!(button_flags(MouseButton::Forward, true).1, XBUTTON2);
}

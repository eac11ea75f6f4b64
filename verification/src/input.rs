//! Controlled-side input decoding.
//!
//! Pointer and key events become a small set of actions that no platform defines,
//! so what is injected is decided in one place. An event that is malformed or not
//! understood is dropped rather than guessed at.
use vstd::prelude::*;
use crate::control_key::ControlKey;
use crate::message::{KeyEvent, KeyPayload, KeyboardMode, Message, MouseEvent};
use crate::text;
use crate::vk;

verus! {

pub const MOUSE_TYPE_MOVE: i32 = 0;

pub const MOUSE_TYPE_DOWN: i32 = 1;

pub const MOUSE_TYPE_UP: i32 = 2;

pub const MOUSE_TYPE_WHEEL: i32 = 3;

pub const MOUSE_TYPE_TRACKPAD: i32 = 4;

pub const MOUSE_TYPE_MOVE_RELATIVE: i32 = 5;

pub const MOUSE_TYPE_MASK: i32 = 0x7;

pub const MOUSE_BUTTON_LEFT: i32 = 0x01;

pub const MOUSE_BUTTON_RIGHT: i32 = 0x02;

pub const MOUSE_BUTTON_WHEEL: i32 = 0x04;

pub const MOUSE_BUTTON_BACK: i32 = 0x08;

pub const MOUSE_BUTTON_FORWARD: i32 = 0x10;

/// Largest accepted magnitude of a pointer coordinate.
pub const MAX_ABSOLUTE_COORDINATE: i32 = 1048576;

/// Largest accepted single delta of a wheel or trackpad.
pub const MAX_WHEEL_DELTA: i32 = 16384;

/// The buttons an event may carry.
pub const MAX_BUTTON_BITS: i32 = 0x1f;

/// Bound for a single injected text.
pub const MAX_TEXT_BYTES: usize = 65536;

#[derive(Debug, Clone, Copy, PartialEq, Eq, Structural)]
pub enum MouseButton {
    Left,
    Right,
    Middle,
    Back,
    Forward,
}

/// A pointer action. Absolute actions carry desktop coordinates, relative ones
/// signed deltas.
#[derive(Debug, Clone, Copy, PartialEq, Eq, Structural)]
pub enum MouseAction {
    MoveAbsolute { x: i32, y: i32 },
    MoveRelative { dx: i32, dy: i32 },
    ButtonDown(MouseButton),
    ButtonUp(MouseButton),
    /// A wheel step; a positive `dy` scrolls the content up.
    Wheel { dx: i32, dy: i32 },
}

/// A key action.
#[derive(Debug, Clone, PartialEq, Eq)]
pub enum KeyAction {
    /// A whole string, the path for text that has no key identity.
    Text(String),
    /// A printable character.
    Character { character: char, down: bool },
    /// A named control key.
    Control { key: ControlKey, down: bool },
}

/// Decoded input.
#[derive(Debug, Clone, PartialEq, Eq)]
pub enum InputAction {
    Mouse(MouseAction),
    Key(KeyAction),
}

/// A key action with its text as a sequence.
pub enum KeyActionView {
    Text(Seq<char>),
    Character { character: char, down: bool },
    Control { key: ControlKey, down: bool },
}

impl View for KeyAction {
    type V = KeyActionView;

    open spec fn view(&self) -> KeyActionView {
        match *self {
            KeyAction::Text(text) => KeyActionView::Text(text@),
            KeyAction::Character { character, down } => KeyActionView::Character {
                character,
                down,
            },
            KeyAction::Control { key, down } => KeyActionView::Control { key, down },
        }
    }
}

/// Decoded input with its text as a sequence.
pub enum InputActionView {
    Mouse(MouseAction),
    Key(KeyActionView),
}

impl View for InputAction {
    type V = InputActionView;

    open spec fn view(&self) -> InputActionView {
        match *self {
            InputAction::Mouse(action) => InputActionView::Mouse(action),
            InputAction::Key(action) => InputActionView::Key(action@),
        }
    }
}

/// Whether a coordinate is within the bound.
pub open spec fn coordinate_ok(v: i32) -> bool {
    -MAX_ABSOLUTE_COORDINATE <= v <= MAX_ABSOLUTE_COORDINATE
}

/// Whether a delta is within the bound.
pub open spec fn delta_ok(v: int) -> bool {
    -MAX_WHEEL_DELTA <= v <= MAX_WHEEL_DELTA
}

/// The button that exactly one bit of `bits` names.
pub open spec fn button_of(bits: int) -> Option<MouseButton> {
    if bits == MOUSE_BUTTON_LEFT {
        Some(MouseButton::Left)
    } else if bits == MOUSE_BUTTON_RIGHT {
        Some(MouseButton::Right)
    } else if bits == MOUSE_BUTTON_WHEEL {
        Some(MouseButton::Middle)
    } else if bits == MOUSE_BUTTON_BACK {
        Some(MouseButton::Back)
    } else if bits == MOUSE_BUTTON_FORWARD {
        Some(MouseButton::Forward)
    } else {
        None
    }
}

/// The action of a pointer event. Horizontal wheel steps change their sign: a
/// positive number on the wire scrolls left.
pub open spec fn mouse_action(event: MouseEvent) -> Option<MouseAction> {
    let kind = event.mask % 8;
    let buttons = event.mask / 8;
    let x = event.x;
    let y = event.y;
    if event.mask < 0 || buttons > MAX_BUTTON_BITS {
        None
    } else if kind == MOUSE_TYPE_MOVE {
        if coordinate_ok(x) && coordinate_ok(y) {
            Some(MouseAction::MoveAbsolute { x, y })
        } else {
            None
        }
    } else if kind == MOUSE_TYPE_MOVE_RELATIVE {
        if delta_ok(x as int) && delta_ok(y as int) {
            Some(MouseAction::MoveRelative { dx: x, dy: y })
        } else {
            None
        }
    } else if kind == MOUSE_TYPE_DOWN || kind == MOUSE_TYPE_UP {
        match button_of(buttons as int) {
            Some(button) if coordinate_ok(x) && coordinate_ok(y) => if kind == MOUSE_TYPE_DOWN {
                Some(MouseAction::ButtonDown(button))
            } else {
                Some(MouseAction::ButtonUp(button))
            },
            _ => None,
        }
    } else if kind == MOUSE_TYPE_WHEEL || kind == MOUSE_TYPE_TRACKPAD {
        if delta_ok(-x) && delta_ok(y as int) {
            Some(MouseAction::Wheel { dx: (-x) as i32, dy: y })
        } else {
            None
        }
    } else {
        None
    }
}

fn decode_button(bits: i32) -> (r: Option<MouseButton>)
    ensures
        r == button_of(bits as int),
{
    if bits == MOUSE_BUTTON_LEFT {
        Some(MouseButton::Left)
    } else if bits == MOUSE_BUTTON_RIGHT {
        Some(MouseButton::Right)
    } else if bits == MOUSE_BUTTON_WHEEL {
        Some(MouseButton::Middle)
    } else if bits == MOUSE_BUTTON_BACK {
        Some(MouseButton::Back)
    } else if bits == MOUSE_BUTTON_FORWARD {
        Some(MouseButton::Forward)
    } else {
        None
    }
}

fn check_absolute(x: i32, y: i32) -> (r: bool)
    ensures
        r == (coordinate_ok(x) && coordinate_ok(y)),
{
    -MAX_ABSOLUTE_COORDINATE <= x && x <= MAX_ABSOLUTE_COORDINATE && -MAX_ABSOLUTE_COORDINATE <= y
        && y <= MAX_ABSOLUTE_COORDINATE
}

fn check_delta(value: i32) -> (r: bool)
    ensures
        r == delta_ok(value as int),
{
    -MAX_WHEEL_DELTA <= value && value <= MAX_WHEEL_DELTA
}

/// The action of a pointer event, or nothing where it is malformed.
pub fn decode_mouse(event: &MouseEvent) -> (r: Option<MouseAction>)
    ensures
        r == mouse_action(*event),
{
    if event.mask < 0 {
        return None;
    }
    let kind: i32 = event.mask % 8;
    let buttons: i32 = event.mask / 8;
    if buttons > MAX_BUTTON_BITS {
        return None;
    }
    if kind == MOUSE_TYPE_MOVE {
        if !check_absolute(event.x, event.y) {
            return None;
        }
        Some(MouseAction::MoveAbsolute { x: event.x, y: event.y })
    } else if kind == MOUSE_TYPE_MOVE_RELATIVE {
        if !check_delta(event.x) || !check_delta(event.y) {
            return None;
        }
        Some(MouseAction::MoveRelative { dx: event.x, dy: event.y })
    } else if kind == MOUSE_TYPE_DOWN || kind == MOUSE_TYPE_UP {
        match decode_button(buttons) {
            None => None,
            Some(button) => {
                if !check_absolute(event.x, event.y) {
                    return None;
                }
                if kind == MOUSE_TYPE_DOWN {
                    Some(MouseAction::ButtonDown(button))
                } else {
                    Some(MouseAction::ButtonUp(button))
                }
            },
        }
    } else if kind == MOUSE_TYPE_WHEEL || kind == MOUSE_TYPE_TRACKPAD {
        if event.x == i32::MIN {
            return None;
        }
        let dx: i32 = -event.x;
        if !check_delta(dx) || !check_delta(event.y) {
            return None;
        }
        Some(MouseAction::Wheel { dx, dy: event.y })
    } else {
        None
    }
}

/// `char::from_u32`: the character with the given scalar value, which every
/// number up to the largest one but the surrogates has.
pub assume_specification[ char::from_u32 ](i: u32) -> (r: Option<char>)
    ensures
        r is Some <==> i < 0xd800 || (0xdfff < i && i <= 0x10ffff),
        r matches Some(c) ==> c == i as char,
;

/// The action of a key event. Only the mode this host implements is accepted, and
/// control characters have to arrive as control keys.
pub open spec fn key_action(event: KeyEvent) -> Option<KeyActionView> {
    let down = event.down || event.press;
    if event.mode != KeyboardMode::Legacy {
        None
    } else {
        match event.payload {
            KeyPayload::Text(t) => if t@.len() > 0 && vstd::utf8::encode_utf8(t@).len()
                <= MAX_TEXT_BYTES {
                Some(KeyActionView::Text(t@))
            } else {
                None
            },
            KeyPayload::Control(Some(key)) => if key is Unknown {
                None
            } else {
                Some(KeyActionView::Control { key, down })
            },
            KeyPayload::Chr(code) => if (code < 0xd800 || (0xdfff < code && code <= 0x10ffff))
                && !text::control(code as char) {
                Some(KeyActionView::Character { character: code as char, down })
            } else {
                None
            },
            _ => None,
        }
    }
}

/// The action of a key event, or nothing where this host must not act on it.
pub fn decode_key(event: &KeyEvent) -> (r: Option<KeyAction>)
    ensures
        match r {
            Some(action) => key_action(*event) == Some(action@),
            None => key_action(*event) is None,
        },
{
    if event.mode != KeyboardMode::Legacy {
        return None;
    }
    let down = event.down || event.press;
    match &event.payload {
        KeyPayload::Text(t) => {
            if t.as_str().is_empty() || text::byte_len(t.as_str()) > MAX_TEXT_BYTES {
                return None;
            }
            Some(KeyAction::Text(t.clone()))
        },
        KeyPayload::Control(key) => {
            match key {
                None => None,
                Some(key) => {
                    if *key == ControlKey::Unknown {
                        return None;
                    }
                    Some(KeyAction::Control { key: *key, down })
                },
            }
        },
        KeyPayload::Chr(code) => {
            match char::from_u32(*code) {
                None => None,
                Some(character) => {
                    if text::is_control(character) {
                        return None;
                    }
                    Some(KeyAction::Character { character, down })
                },
            }
        },
        KeyPayload::Absent => None,
        KeyPayload::Unsupported => None,
    }
}

/// What one message asks to be injected.
pub open spec fn input_of(message: Message) -> Option<InputActionView> {
    match message {
        Message::MouseEvent(event) => match mouse_action(event) {
            Some(action) => Some(InputActionView::Mouse(action)),
            None => None,
        },
        Message::KeyEvent(event) => match key_action(event) {
            Some(action) => Some(InputActionView::Key(action)),
            None => None,
        },
        _ => None,
    }
}

/// Decodes one message; nothing where it is not input or must not be acted on.
pub fn decode_message(message: &Message) -> (r: Option<InputAction>)
    ensures
        match r {
            Some(action) => input_of(*message) == Some(action@),
            None => input_of(*message) is None,
        },
{
    match message {
        Message::MouseEvent(event) => match decode_mouse(event) {
            Some(action) => Some(InputAction::Mouse(action)),
            None => None,
        },
        Message::KeyEvent(event) => match decode_key(event) {
            Some(action) => Some(InputAction::Key(action)),
            None => None,
        },
        _ => None,
    }
}

/// The Windows virtual key of a control key. Secure attention sequences, which
/// Windows refuses to have injected, and keys of mobile devices have none.
pub open spec fn virtual_key(key: ControlKey) -> Option<u16> {
    match key {
        ControlKey::Unknown => None,
        ControlKey::Alt => Some(vk::MENU),
        ControlKey::Backspace => Some(vk::BACK),
        ControlKey::CapsLock => Some(vk::CAPITAL),
        ControlKey::Control => Some(vk::CONTROL),
        ControlKey::Delete => Some(vk::DELETE),
        ControlKey::DownArrow => Some(vk::DOWN),
        ControlKey::End => Some(vk::END),
        ControlKey::Escape => Some(vk::ESCAPE),
        ControlKey::F1 => Some(vk::F1),
        ControlKey::F2 => Some(vk::F2),
        ControlKey::F3 => Some(vk::F3),
        ControlKey::F4 => Some(vk::F4),
        ControlKey::F5 => Some(vk::F5),
        ControlKey::F6 => Some(vk::F6),
        ControlKey::F7 => Some(vk::F7),
        ControlKey::F8 => Some(vk::F8),
        ControlKey::F9 => Some(vk::F9),
        ControlKey::F10 => Some(vk::F10),
        ControlKey::F11 => Some(vk::F11),
        ControlKey::F12 => Some(vk::F12),
        ControlKey::Home => Some(vk::HOME),
        ControlKey::LeftArrow => Some(vk::LEFT),
        ControlKey::Meta => Some(vk::LWIN),
        ControlKey::OptionKey => Some(vk::MENU),
        ControlKey::Menu => Some(vk::MENU),
        ControlKey::PageDown => Some(vk::NEXT),
        ControlKey::PageUp => Some(vk::PRIOR),
        ControlKey::Return => Some(vk::RETURN),
        ControlKey::RightArrow => Some(vk::RIGHT),
        ControlKey::Shift => Some(vk::SHIFT),
        ControlKey::Space => Some(vk::SPACE),
        ControlKey::Tab => Some(vk::TAB),
        ControlKey::UpArrow => Some(vk::UP),
        ControlKey::Numpad0 => Some(vk::NUMPAD0),
        ControlKey::Numpad1 => Some(vk::NUMPAD1),
        ControlKey::Numpad2 => Some(vk::NUMPAD2),
        ControlKey::Numpad3 => Some(vk::NUMPAD3),
        ControlKey::Numpad4 => Some(vk::NUMPAD4),
        ControlKey::Numpad5 => Some(vk::NUMPAD5),
        ControlKey::Numpad6 => Some(vk::NUMPAD6),
        ControlKey::Numpad7 => Some(vk::NUMPAD7),
        ControlKey::Numpad8 => Some(vk::NUMPAD8),
        ControlKey::Numpad9 => Some(vk::NUMPAD9),
        ControlKey::NumpadEnter => Some(vk::RETURN),
        ControlKey::Cancel => Some(vk::CLEAR),
        ControlKey::Clear => Some(vk::CLEAR),
        ControlKey::Pause => Some(vk::PAUSE),
        ControlKey::Kana => Some(vk::KANA),
        ControlKey::Convert => Some(vk::KANA),
        ControlKey::Hangul => Some(vk::HANGEUL),
        ControlKey::Junja => Some(vk::JUNJA),
        ControlKey::Final => Some(vk::FINAL),
        ControlKey::Hanja => Some(vk::HANJA),
        ControlKey::Kanji => Some(vk::HANJA),
        ControlKey::Select => Some(vk::SELECT),
        ControlKey::Print => Some(vk::SNAPSHOT),
        ControlKey::Snapshot => Some(vk::SNAPSHOT),
        ControlKey::Execute => Some(vk::EXECUTE),
        ControlKey::Insert => Some(vk::INSERT),
        ControlKey::Help => Some(vk::HELP),
        ControlKey::Sleep => Some(vk::SLEEP),
        ControlKey::Separator => Some(vk::SEPARATOR),
        ControlKey::Scroll => Some(vk::SCROLL),
        ControlKey::NumLock => Some(vk::NUMLOCK),
        ControlKey::RWin => Some(vk::RWIN),
        ControlKey::Apps => Some(vk::APPS),
        ControlKey::Multiply => Some(vk::MULTIPLY),
        ControlKey::Add => Some(vk::ADD),
        ControlKey::Subtract => Some(vk::SUBTRACT),
        ControlKey::Decimal => Some(vk::DECIMAL),
        ControlKey::Divide => Some(vk::DIVIDE),
        ControlKey::Equals => Some(vk::OEM_NEC_EQUAL),
        ControlKey::RShift => Some(vk::RSHIFT),
        ControlKey::RControl => Some(vk::RCONTROL),
        ControlKey::RAlt => Some(vk::RMENU),
        ControlKey::VolumeMute => Some(vk::VOLUME_MUTE),
        ControlKey::VolumeUp => Some(vk::VOLUME_UP),
        ControlKey::VolumeDown => Some(vk::VOLUME_DOWN),
        ControlKey::Power => None,
        ControlKey::CtrlAltDel => None,
        ControlKey::LockScreen => None,
    }
}

/// The Windows virtual key of a control key, if it has one.
pub fn windows_virtual_key(key: ControlKey) -> (r: Option<u16>)
    ensures
        r == virtual_key(key),
{
    match key {
        ControlKey::Unknown => None,
        ControlKey::Alt => Some(vk::MENU),
        ControlKey::Backspace => Some(vk::BACK),
        ControlKey::CapsLock => Some(vk::CAPITAL),
        ControlKey::Control => Some(vk::CONTROL),
        ControlKey::Delete => Some(vk::DELETE),
        ControlKey::DownArrow => Some(vk::DOWN),
        ControlKey::End => Some(vk::END),
        ControlKey::Escape => Some(vk::ESCAPE),
        ControlKey::F1 => Some(vk::F1),
        ControlKey::F2 => Some(vk::F2),
        ControlKey::F3 => Some(vk::F3),
        ControlKey::F4 => Some(vk::F4),
        ControlKey::F5 => Some(vk::F5),
        ControlKey::F6 => Some(vk::F6),
        ControlKey::F7 => Some(vk::F7),
        ControlKey::F8 => Some(vk::F8),
        ControlKey::F9 => Some(vk::F9),
        ControlKey::F10 => Some(vk::F10),
        ControlKey::F11 => Some(vk::F11),
        ControlKey::F12 => Some(vk::F12),
        ControlKey::Home => Some(vk::HOME),
        ControlKey::LeftArrow => Some(vk::LEFT),
        ControlKey::Meta => Some(vk::LWIN),
        ControlKey::OptionKey => Some(vk::MENU),
        ControlKey::Menu => Some(vk::MENU),
        ControlKey::PageDown => Some(vk::NEXT),
        ControlKey::PageUp => Some(vk::PRIOR),
        ControlKey::Return => Some(vk::RETURN),
        ControlKey::RightArrow => Some(vk::RIGHT),
        ControlKey::Shift => Some(vk::SHIFT),
        ControlKey::Space => Some(vk::SPACE),
        ControlKey::Tab => Some(vk::TAB),
        ControlKey::UpArrow => Some(vk::UP),
        ControlKey::Numpad0 => Some(vk::NUMPAD0),
        ControlKey::Numpad1 => Some(vk::NUMPAD1),
        ControlKey::Numpad2 => Some(vk::NUMPAD2),
        ControlKey::Numpad3 => Some(vk::NUMPAD3),
        ControlKey::Numpad4 => Some(vk::NUMPAD4),
        ControlKey::Numpad5 => Some(vk::NUMPAD5),
        ControlKey::Numpad6 => Some(vk::NUMPAD6),
        ControlKey::Numpad7 => Some(vk::NUMPAD7),
        ControlKey::Numpad8 => Some(vk::NUMPAD8),
        ControlKey::Numpad9 => Some(vk::NUMPAD9),
        ControlKey::NumpadEnter => Some(vk::RETURN),
        ControlKey::Cancel => Some(vk::CLEAR),
        ControlKey::Clear => Some(vk::CLEAR),
        ControlKey::Pause => Some(vk::PAUSE),
        ControlKey::Kana => Some(vk::KANA),
        ControlKey::Convert => Some(vk::KANA),
        ControlKey::Hangul => Some(vk::HANGEUL),
        ControlKey::Junja => Some(vk::JUNJA),
        ControlKey::Final => Some(vk::FINAL),
        ControlKey::Hanja => Some(vk::HANJA),
        ControlKey::Kanji => Some(vk::HANJA),
        ControlKey::Select => Some(vk::SELECT),
        ControlKey::Print => Some(vk::SNAPSHOT),
        ControlKey::Snapshot => Some(vk::SNAPSHOT),
        ControlKey::Execute => Some(vk::EXECUTE),
        ControlKey::Insert => Some(vk::INSERT),
        ControlKey::Help => Some(vk::HELP),
        ControlKey::Sleep => Some(vk::SLEEP),
        ControlKey::Separator => Some(vk::SEPARATOR),
        ControlKey::Scroll => Some(vk::SCROLL),
        ControlKey::NumLock => Some(vk::NUMLOCK),
        ControlKey::RWin => Some(vk::RWIN),
        ControlKey::Apps => Some(vk::APPS),
        ControlKey::Multiply => Some(vk::MULTIPLY),
        ControlKey::Add => Some(vk::ADD),
        ControlKey::Subtract => Some(vk::SUBTRACT),
        ControlKey::Decimal => Some(vk::DECIMAL),
        ControlKey::Divide => Some(vk::DIVIDE),
        ControlKey::Equals => Some(vk::OEM_NEC_EQUAL),
        ControlKey::RShift => Some(vk::RSHIFT),
        ControlKey::RControl => Some(vk::RCONTROL),
        ControlKey::RAlt => Some(vk::RMENU),
        ControlKey::VolumeMute => Some(vk::VOLUME_MUTE),
        ControlKey::VolumeUp => Some(vk::VOLUME_UP),
        ControlKey::VolumeDown => Some(vk::VOLUME_DOWN),
        ControlKey::Power => None,
        ControlKey::CtrlAltDel => None,
        ControlKey::LockScreen => None,
    }
}

/// Exactly the secure attention sequences, the power key and the unknown key have
/// no virtual key.
pub proof fn lemma_refused_keys(key: ControlKey)
    ensures
        virtual_key(key) is None <==> (key is Unknown || key is Power || key is CtrlAltDel || key
            is LockScreen),
{
}

/// `v` moved into the range from `low` to `high`.
pub open spec fn clamped(v: int, low: int, high: int) -> int {
    if v < low {
        low
    } else if v > high {
        high
    } else {
        v
    }
}

/// A coordinate of a desktop `size` pixels long that starts at `origin`, scaled to
/// 0..=65535; outside the desktop it is the nearest edge.
pub open spec fn scaled(v: int, origin: int, size: int) -> int {
    let span = if size - 1 > 1 {
        size - 1
    } else {
        1
    };
    clamped(v - origin, 0, span) * 65535 / span
}

fn scale(v: i32, origin: i32, size: i32) -> (r: i32)
    ensures
        r == scaled(v as int, origin as int, size as int),
        0 <= r <= 65535,
{
    let wide: i64 = size as i64 - 1;
    let span: i64 = if wide > 1 {
        wide
    } else {
        1
    };
    let offset: i64 = v as i64 - origin as i64;
    let inside: i64 = if offset < 0 {
        0
    } else if offset > span {
        span
    } else {
        offset
    };
    proof {
        lemma_scaled_range(inside as int, span as int);
    }
    ((inside * 65535) / span) as i32
}

proof fn lemma_scaled_range(inside: int, span: int)
    by (nonlinear_arith)
    requires
        0 <= inside <= span,
        span >= 1,
    ensures
        0 <= inside * 65535 / span <= 65535,
{
}

/// A point of the virtual desktop in the range that absolute injection uses.
pub fn normalize_absolute(
    x: i32,
    y: i32,
    origin_x: i32,
    origin_y: i32,
    width: i32,
    height: i32,
) -> (r: (i32, i32))
    ensures
        r.0 == scaled(x as int, origin_x as int, width as int),
        r.1 == scaled(y as int, origin_y as int, height as int),
{
    (scale(x, origin_x, width), scale(y, origin_y, height))
}

/// The scaled range spans the whole desktop, and points outside it are not
/// wrapped onto the opposite edge.
pub proof fn lemma_scaled_edges(v: int, origin: int, size: int)
    requires
        size >= 2,
    ensures
        0 <= scaled(v, origin, size) <= 65535,
        v <= origin ==> scaled(v, origin, size) == 0,
        v >= origin + size - 1 ==> scaled(v, origin, size) == 65535,
{
    let span = if size - 1 > 1 {
        size - 1
    } else {
        1
    };
    lemma_scaled_range(clamped(v - origin, 0, span), span);
    vstd::arithmetic::div_mod::lemma_div_by_multiple(65535, span);
    assert(span * 65535 / span == 65535) by {
        vstd::arithmetic::mul::lemma_mul_is_commutative(span, 65535);
    }
}

proof fn lemma_quotient_order(a: int, b: int, span: int)
    by (nonlinear_arith)
    requires
        a <= b,
        span >= 1,
    ensures
        a * 65535 / span <= b * 65535 / span,
{
}

/// A point further right or down is never injected further left or up, and every point
/// is in the range of absolute injection, whatever the desktop.
pub proof fn lemma_scaled_is_monotone(v: int, w: int, origin: int, size: int)
    requires
        v <= w,
    ensures
        0 <= scaled(v, origin, size) <= scaled(w, origin, size) <= 65535,
{
    let span = if size - 1 > 1 {
        size - 1
    } else {
        1
    };
    let low = clamped(v - origin, 0, span);
    let high = clamped(w - origin, 0, span);
    lemma_scaled_range(low, span);
    lemma_scaled_range(high, span);
    lemma_quotient_order(low, high, span);
}

} // verus!

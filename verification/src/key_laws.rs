//! What holds of keys and of the pointer as a whole: each key keeps its identity on its
//! way from the keyboard of a viewer into the system that is controlled.
use vstd::prelude::*;
use crate::control_key::ControlKey;
use crate::input;
use crate::input::{MouseAction, MouseButton};
use crate::message::{KeyEvent, KeyPayload, MouseEvent};
use crate::platform::windows_input;
use crate::platform::windows_input::{InjectError, InputRecord, VirtualDesktop};
use crate::session_backend;
use crate::viewer::keys;
use crate::viewer::keys::ViewerKey;

verus! {

/// The control key that a virtual key of Windows is injected for is the one that Windows
/// documents under that number, and it is injected for no other: only keys that are one
/// key on a Windows keyboard share a number.
pub proof fn lemma_virtual_keys(key: ControlKey)
    ensures
        input::virtual_key(key) == Some(0x08u16) <==> key is Backspace,
        input::virtual_key(key) == Some(0x09u16) <==> key is Tab,
        input::virtual_key(key) == Some(0x0cu16) <==> (key is Cancel || key is Clear),
        input::virtual_key(key) == Some(0x0du16) <==> (key is Return || key is NumpadEnter),
        input::virtual_key(key) == Some(0x10u16) <==> key is Shift,
        input::virtual_key(key) == Some(0x11u16) <==> key is Control,
        input::virtual_key(key) == Some(0x12u16)
            <==> (key is Alt || key is OptionKey || key is Menu),
        input::virtual_key(key) == Some(0x13u16) <==> key is Pause,
        input::virtual_key(key) == Some(0x14u16) <==> key is CapsLock,
        input::virtual_key(key) == Some(0x15u16)
            <==> (key is Kana || key is Convert || key is Hangul),
        input::virtual_key(key) == Some(0x17u16) <==> key is Junja,
        input::virtual_key(key) == Some(0x18u16) <==> key is Final,
        input::virtual_key(key) == Some(0x19u16) <==> (key is Hanja || key is Kanji),
        input::virtual_key(key) == Some(0x1bu16) <==> key is Escape,
        input::virtual_key(key) == Some(0x20u16) <==> key is Space,
        input::virtual_key(key) == Some(0x21u16) <==> key is PageUp,
        input::virtual_key(key) == Some(0x22u16) <==> key is PageDown,
        input::virtual_key(key) == Some(0x23u16) <==> key is End,
        input::virtual_key(key) == Some(0x24u16) <==> key is Home,
        input::virtual_key(key) == Some(0x25u16) <==> key is LeftArrow,
        input::virtual_key(key) == Some(0x26u16) <==> key is UpArrow,
        input::virtual_key(key) == Some(0x27u16) <==> key is RightArrow,
        input::virtual_key(key) == Some(0x28u16) <==> key is DownArrow,
        input::virtual_key(key) == Some(0x29u16) <==> key is Select,
        input::virtual_key(key) == Some(0x2bu16) <==> key is Execute,
        input::virtual_key(key) == Some(0x2cu16) <==> (key is Print || key is Snapshot),
        input::virtual_key(key) == Some(0x2du16) <==> key is Insert,
        input::virtual_key(key) == Some(0x2eu16) <==> key is Delete,
        input::virtual_key(key) == Some(0x2fu16) <==> key is Help,
        input::virtual_key(key) == Some(0x5bu16) <==> key is Meta,
        input::virtual_key(key) == Some(0x5cu16) <==> key is RWin,
        input::virtual_key(key) == Some(0x5du16) <==> key is Apps,
        input::virtual_key(key) == Some(0x5fu16) <==> key is Sleep,
        input::virtual_key(key) == Some(0x60u16) <==> key is Numpad0,
        input::virtual_key(key) == Some(0x61u16) <==> key is Numpad1,
        input::virtual_key(key) == Some(0x62u16) <==> key is Numpad2,
        input::virtual_key(key) == Some(0x63u16) <==> key is Numpad3,
        input::virtual_key(key) == Some(0x64u16) <==> key is Numpad4,
        input::virtual_key(key) == Some(0x65u16) <==> key is Numpad5,
        input::virtual_key(key) == Some(0x66u16) <==> key is Numpad6,
        input::virtual_key(key) == Some(0x67u16) <==> key is Numpad7,
        input::virtual_key(key) == Some(0x68u16) <==> key is Numpad8,
        input::virtual_key(key) == Some(0x69u16) <==> key is Numpad9,
        input::virtual_key(key) == Some(0x6au16) <==> key is Multiply,
        input::virtual_key(key) == Some(0x6bu16) <==> key is Add,
        input::virtual_key(key) == Some(0x6cu16) <==> key is Separator,
        input::virtual_key(key) == Some(0x6du16) <==> key is Subtract,
        input::virtual_key(key) == Some(0x6eu16) <==> key is Decimal,
        input::virtual_key(key) == Some(0x6fu16) <==> key is Divide,
        input::virtual_key(key) == Some(0x70u16) <==> key is F1,
        input::virtual_key(key) == Some(0x71u16) <==> key is F2,
        input::virtual_key(key) == Some(0x72u16) <==> key is F3,
        input::virtual_key(key) == Some(0x73u16) <==> key is F4,
        input::virtual_key(key) == Some(0x74u16) <==> key is F5,
        input::virtual_key(key) == Some(0x75u16) <==> key is F6,
        input::virtual_key(key) == Some(0x76u16) <==> key is F7,
        input::virtual_key(key) == Some(0x77u16) <==> key is F8,
        input::virtual_key(key) == Some(0x78u16) <==> key is F9,
        input::virtual_key(key) == Some(0x79u16) <==> key is F10,
        input::virtual_key(key) == Some(0x7au16) <==> key is F11,
        input::virtual_key(key) == Some(0x7bu16) <==> key is F12,
        input::virtual_key(key) == Some(0x90u16) <==> key is NumLock,
        input::virtual_key(key) == Some(0x91u16) <==> key is Scroll,
        input::virtual_key(key) == Some(0x92u16) <==> key is Equals,
        input::virtual_key(key) == Some(0xa1u16) <==> key is RShift,
        input::virtual_key(key) == Some(0xa3u16) <==> key is RControl,
        input::virtual_key(key) == Some(0xa5u16) <==> key is RAlt,
        input::virtual_key(key) == Some(0xadu16) <==> key is VolumeMute,
        input::virtual_key(key) == Some(0xaeu16) <==> key is VolumeDown,
        input::virtual_key(key) == Some(0xafu16) <==> key is VolumeUp,
        input::virtual_key(key) is None <==> (key is Unknown || key is Power || key is CtrlAltDel
            || key is LockScreen),
{
}

/// The function key with number `n`.
pub open spec fn function_key(n: int) -> ControlKey {
    if n == 1 {
        ControlKey::F1
    } else if n == 2 {
        ControlKey::F2
    } else if n == 3 {
        ControlKey::F3
    } else if n == 4 {
        ControlKey::F4
    } else if n == 5 {
        ControlKey::F5
    } else if n == 6 {
        ControlKey::F6
    } else if n == 7 {
        ControlKey::F7
    } else if n == 8 {
        ControlKey::F8
    } else if n == 9 {
        ControlKey::F9
    } else if n == 10 {
        ControlKey::F10
    } else if n == 11 {
        ControlKey::F11
    } else {
        ControlKey::F12
    }
}

/// The key of the numeric pad with digit `n`.
pub open spec fn pad_key(n: int) -> ControlKey {
    if n == 0 {
        ControlKey::Numpad0
    } else if n == 1 {
        ControlKey::Numpad1
    } else if n == 2 {
        ControlKey::Numpad2
    } else if n == 3 {
        ControlKey::Numpad3
    } else if n == 4 {
        ControlKey::Numpad4
    } else if n == 5 {
        ControlKey::Numpad5
    } else if n == 6 {
        ControlKey::Numpad6
    } else if n == 7 {
        ControlKey::Numpad7
    } else if n == 8 {
        ControlKey::Numpad8
    } else {
        ControlKey::Numpad9
    }
}

/// Function keys and the digits of the numeric pad are numbered in their order, by
/// Windows, by X11 and by USB.
pub proof fn lemma_numbered_keys(n: int, d: int)
    requires
        1 <= n <= 12,
        0 <= d <= 9,
    ensures
        input::virtual_key(function_key(n)) == Some((0x6f + n) as u16),
        input::virtual_key(pad_key(d)) == Some((0x60 + d) as u16),
        session_backend::control_keysym(function_key(n)) == Some((0xffbd + n) as u32),
        keys::hid_control((0x39 + n) as u32) == Some(function_key(n)),
        keys::hid_control(
            if d == 0 {
                0x62u32
            } else {
                (0x58 + d) as u32
            },
        ) == Some(pad_key(d)),
{
}

/// The arrows, from the one that points left in the direction of a clock.
pub open spec fn arrow(n: int) -> ControlKey {
    if n == 0 {
        ControlKey::LeftArrow
    } else if n == 1 {
        ControlKey::UpArrow
    } else if n == 2 {
        ControlKey::RightArrow
    } else {
        ControlKey::DownArrow
    }
}

/// The arrows are numbered in the direction of a clock by Windows and by X11, and each
/// arrow of a keyboard is the arrow that is injected.
pub proof fn lemma_arrows(n: int)
    requires
        0 <= n <= 3,
    ensures
        input::virtual_key(arrow(n)) == Some((0x25 + n) as u16),
        session_backend::control_keysym(arrow(n)) == Some((0xff51 + n) as u32),
        keys::hid_control(0x4f) == Some(ControlKey::RightArrow),
        keys::hid_control(0x50) == Some(ControlKey::LeftArrow),
        keys::hid_control(0x51) == Some(ControlKey::DownArrow),
        keys::hid_control(0x52) == Some(ControlKey::UpArrow),
{
}

/// The control key that a keysym of X11 is sent for is the one that X11 has under that
/// number, and it is sent for no other.
pub proof fn lemma_keysyms(key: ControlKey)
    ensures
        session_backend::control_keysym(key) == Some(0x20u32) <==> key is Space,
        session_backend::control_keysym(key) == Some(0xff08u32) <==> key is Backspace,
        session_backend::control_keysym(key) == Some(0xff09u32) <==> key is Tab,
        session_backend::control_keysym(key) == Some(0xff0du32) <==> key is Return,
        session_backend::control_keysym(key) == Some(0xff1bu32) <==> key is Escape,
        session_backend::control_keysym(key) == Some(0xff50u32) <==> key is Home,
        session_backend::control_keysym(key) == Some(0xff51u32) <==> key is LeftArrow,
        session_backend::control_keysym(key) == Some(0xff52u32) <==> key is UpArrow,
        session_backend::control_keysym(key) == Some(0xff53u32) <==> key is RightArrow,
        session_backend::control_keysym(key) == Some(0xff54u32) <==> key is DownArrow,
        session_backend::control_keysym(key) == Some(0xff55u32) <==> key is PageUp,
        session_backend::control_keysym(key) == Some(0xff56u32) <==> key is PageDown,
        session_backend::control_keysym(key) == Some(0xff57u32) <==> key is End,
        session_backend::control_keysym(key) == Some(0xff63u32) <==> key is Insert,
        session_backend::control_keysym(key) == Some(0xffbeu32) <==> key is F1,
        session_backend::control_keysym(key) == Some(0xffbfu32) <==> key is F2,
        session_backend::control_keysym(key) == Some(0xffc0u32) <==> key is F3,
        session_backend::control_keysym(key) == Some(0xffc1u32) <==> key is F4,
        session_backend::control_keysym(key) == Some(0xffc2u32) <==> key is F5,
        session_backend::control_keysym(key) == Some(0xffc3u32) <==> key is F6,
        session_backend::control_keysym(key) == Some(0xffc4u32) <==> key is F7,
        session_backend::control_keysym(key) == Some(0xffc5u32) <==> key is F8,
        session_backend::control_keysym(key) == Some(0xffc6u32) <==> key is F9,
        session_backend::control_keysym(key) == Some(0xffc7u32) <==> key is F10,
        session_backend::control_keysym(key) == Some(0xffc8u32) <==> key is F11,
        session_backend::control_keysym(key) == Some(0xffc9u32) <==> key is F12,
        session_backend::control_keysym(key) == Some(0xffe1u32) <==> key is Shift,
        session_backend::control_keysym(key) == Some(0xffe3u32) <==> key is Control,
        session_backend::control_keysym(key) == Some(0xffe5u32) <==> key is CapsLock,
        session_backend::control_keysym(key) == Some(0xffe9u32) <==> key is Alt,
        session_backend::control_keysym(key) == Some(0xffebu32) <==> key is Meta,
        session_backend::control_keysym(key) == Some(0xffffu32) <==> key is Delete,
        session_backend::control_keysym(key) is Some
            <==> (key is Alt || key is Backspace || key is CapsLock || key is Control
            || key is Delete || key is DownArrow || key is End || key is Escape || key is F1
            || key is F2 || key is F3 || key is F4 || key is F5 || key is F6 || key is F7
            || key is F8 || key is F9 || key is F10 || key is F11 || key is F12 || key is Home
            || key is LeftArrow || key is Meta || key is PageDown || key is PageUp || key is Return
            || key is RightArrow || key is Shift || key is Space || key is Tab || key is UpArrow
            || key is Insert),
{
}

/// The control key of a usage code of USB is the one that the standard lists under that
/// number, and it has no other.
pub proof fn lemma_usage_codes(code: u32)
    ensures
        keys::hid_control(code) == Some(ControlKey::Return) <==> code == 0x28,
        keys::hid_control(code) == Some(ControlKey::Escape) <==> code == 0x29,
        keys::hid_control(code) == Some(ControlKey::Backspace) <==> code == 0x2a,
        keys::hid_control(code) == Some(ControlKey::Tab) <==> code == 0x2b,
        keys::hid_control(code) == Some(ControlKey::CapsLock) <==> code == 0x39,
        keys::hid_control(code) == Some(ControlKey::F1) <==> code == 0x3a,
        keys::hid_control(code) == Some(ControlKey::F2) <==> code == 0x3b,
        keys::hid_control(code) == Some(ControlKey::F3) <==> code == 0x3c,
        keys::hid_control(code) == Some(ControlKey::F4) <==> code == 0x3d,
        keys::hid_control(code) == Some(ControlKey::F5) <==> code == 0x3e,
        keys::hid_control(code) == Some(ControlKey::F6) <==> code == 0x3f,
        keys::hid_control(code) == Some(ControlKey::F7) <==> code == 0x40,
        keys::hid_control(code) == Some(ControlKey::F8) <==> code == 0x41,
        keys::hid_control(code) == Some(ControlKey::F9) <==> code == 0x42,
        keys::hid_control(code) == Some(ControlKey::F10) <==> code == 0x43,
        keys::hid_control(code) == Some(ControlKey::F11) <==> code == 0x44,
        keys::hid_control(code) == Some(ControlKey::F12) <==> code == 0x45,
        keys::hid_control(code) == Some(ControlKey::Pause) <==> code == 0x48,
        keys::hid_control(code) == Some(ControlKey::Insert) <==> code == 0x49,
        keys::hid_control(code) == Some(ControlKey::Home) <==> code == 0x4a,
        keys::hid_control(code) == Some(ControlKey::PageUp) <==> code == 0x4b,
        keys::hid_control(code) == Some(ControlKey::Delete) <==> code == 0x4c,
        keys::hid_control(code) == Some(ControlKey::End) <==> code == 0x4d,
        keys::hid_control(code) == Some(ControlKey::PageDown) <==> code == 0x4e,
        keys::hid_control(code) == Some(ControlKey::RightArrow) <==> code == 0x4f,
        keys::hid_control(code) == Some(ControlKey::LeftArrow) <==> code == 0x50,
        keys::hid_control(code) == Some(ControlKey::DownArrow) <==> code == 0x51,
        keys::hid_control(code) == Some(ControlKey::UpArrow) <==> code == 0x52,
        keys::hid_control(code) == Some(ControlKey::NumLock) <==> code == 0x53,
        keys::hid_control(code) == Some(ControlKey::Divide) <==> code == 0x54,
        keys::hid_control(code) == Some(ControlKey::Multiply) <==> code == 0x55,
        keys::hid_control(code) == Some(ControlKey::Subtract) <==> code == 0x56,
        keys::hid_control(code) == Some(ControlKey::Add) <==> code == 0x57,
        keys::hid_control(code) == Some(ControlKey::NumpadEnter) <==> code == 0x58,
        keys::hid_control(code) == Some(ControlKey::Numpad1) <==> code == 0x59,
        keys::hid_control(code) == Some(ControlKey::Numpad2) <==> code == 0x5a,
        keys::hid_control(code) == Some(ControlKey::Numpad3) <==> code == 0x5b,
        keys::hid_control(code) == Some(ControlKey::Numpad4) <==> code == 0x5c,
        keys::hid_control(code) == Some(ControlKey::Numpad5) <==> code == 0x5d,
        keys::hid_control(code) == Some(ControlKey::Numpad6) <==> code == 0x5e,
        keys::hid_control(code) == Some(ControlKey::Numpad7) <==> code == 0x5f,
        keys::hid_control(code) == Some(ControlKey::Numpad8) <==> code == 0x60,
        keys::hid_control(code) == Some(ControlKey::Numpad9) <==> code == 0x61,
        keys::hid_control(code) == Some(ControlKey::Numpad0) <==> code == 0x62,
        keys::hid_control(code) == Some(ControlKey::Decimal) <==> code == 0x63,
        keys::hid_control(code) == Some(ControlKey::Apps) <==> code == 0x65,
        keys::hid_control(code) == Some(ControlKey::Power) <==> code == 0x66,
        keys::hid_control(code) == Some(ControlKey::Equals) <==> code == 0x67,
        keys::hid_control(code) == Some(ControlKey::Control) <==> code == 0xe0,
        keys::hid_control(code) == Some(ControlKey::Shift) <==> code == 0xe1,
        keys::hid_control(code) == Some(ControlKey::Alt) <==> code == 0xe2,
        keys::hid_control(code) == Some(ControlKey::Meta) <==> code == 0xe3,
        keys::hid_control(code) == Some(ControlKey::RControl) <==> code == 0xe4,
        keys::hid_control(code) == Some(ControlKey::RShift) <==> code == 0xe5,
        keys::hid_control(code) == Some(ControlKey::RAlt) <==> code == 0xe6,
        keys::hid_control(code) == Some(ControlKey::RWin) <==> code == 0xe7,
{
}

/// A usage code below the control keys is the letter, digit or mark at its place of the US
/// layout, and two codes are never the same one.
pub proof fn lemma_layout(n: int, code: u32, other: u32)
    requires
        0 <= n < 26,
        code != other,
        keys::us_layout(code) is Some,
    ensures
        keys::us_layout((4 + n) as u32) == Some('a' as int + n),
        n < 9 ==> keys::us_layout((0x1e + n) as u32) == Some('1' as int + n),
        keys::us_layout(0x27) == Some('0' as int),
        keys::us_layout(code) != keys::us_layout(other),
        keys::us_layout(code) == Some('-' as int) <==> code == 0x2d,
        keys::us_layout(code) == Some('=' as int) <==> code == 0x2e,
        keys::us_layout(code) == Some('[' as int) <==> code == 0x2f,
        keys::us_layout(code) == Some(']' as int) <==> code == 0x30,
        keys::us_layout(code) == Some('\\' as int) <==> code == 0x31,
        keys::us_layout(code) == Some(';' as int) <==> code == 0x33,
        keys::us_layout(code) == Some('\'' as int) <==> code == 0x34,
        keys::us_layout(code) == Some('`' as int) <==> code == 0x35,
        keys::us_layout(code) == Some(',' as int) <==> code == 0x36,
        keys::us_layout(code) == Some('.' as int) <==> code == 0x37,
        keys::us_layout(code) == Some('/' as int) <==> code == 0x38,
        4 <= code <= 0x38,
        keys::hid_control(code) is None,
{
}

/// A key of a keyboard is a control key where its code is one, and else the character of
/// its event or of its place on the US layout.
pub proof fn lemma_keyboard_keys(code: u32)
    ensures
        keys::hid_control(code) matches Some(key) ==> forall|c: Seq<char>| #[trigger]
            keys::hid_key(code, c) == Some(ViewerKey::Control(key)),
        keys::hid_control(code) is None ==> (match keys::us_layout(code) {
            Some(n) => keys::hid_key(code, Seq::empty()) == Some(ViewerKey::Character(n as u32)),
            None => keys::hid_key(code, Seq::empty()) is None,
        }),
{
    assert(vstd::utf8::encode_utf8(Seq::<char>::empty()).len() == 0) by {
        reveal_with_fuel(vstd::utf8::encode_utf8, 1);
    }
}

/// A name stands for the key that it names, in the words of the protocol or in those of
/// Windows, and every such name stands for a key.
pub proof fn lemma_key_names(name: Seq<char>)
    ensures
        keys::named_control(name) == Some(ControlKey::Alt)
            ==> name == "Alt"@ || name == "RAlt"@ || name == "VK_MENU"@,
        keys::named_control(name) == Some(ControlKey::Backspace)
            ==> name == "Backspace"@ || name == "VK_BACK"@,
        keys::named_control(name) == Some(ControlKey::CapsLock)
            ==> name == "CapsLock"@ || name == "VK_CAPITAL"@,
        keys::named_control(name) == Some(ControlKey::Control)
            ==> name == "Control"@ || name == "VK_CONTROL"@,
        keys::named_control(name) == Some(ControlKey::RControl) ==> name == "RControl"@,
        keys::named_control(name) == Some(ControlKey::Shift)
            ==> name == "Shift"@ || name == "VK_SHIFT"@,
        keys::named_control(name) == Some(ControlKey::RShift) ==> name == "RShift"@,
        keys::named_control(name) == Some(ControlKey::Meta) ==> name == "Meta"@ || name == "RWin"@,
        keys::named_control(name) == Some(ControlKey::Delete)
            ==> name == "Delete"@ || name == "VK_DELETE"@,
        keys::named_control(name) == Some(ControlKey::DownArrow)
            ==> name == "DownArrow"@ || name == "VK_DOWN"@,
        keys::named_control(name) == Some(ControlKey::End) ==> name == "End"@ || name == "VK_END"@,
        keys::named_control(name) == Some(ControlKey::Escape)
            ==> name == "Escape"@ || name == "VK_ESCAPE"@,
        keys::named_control(name) == Some(ControlKey::F1) ==> name == "F1"@ || name == "VK_F1"@,
        keys::named_control(name) == Some(ControlKey::F2) ==> name == "F2"@ || name == "VK_F2"@,
        keys::named_control(name) == Some(ControlKey::F3) ==> name == "F3"@ || name == "VK_F3"@,
        keys::named_control(name) == Some(ControlKey::F4) ==> name == "F4"@ || name == "VK_F4"@,
        keys::named_control(name) == Some(ControlKey::F5) ==> name == "F5"@ || name == "VK_F5"@,
        keys::named_control(name) == Some(ControlKey::F6) ==> name == "F6"@ || name == "VK_F6"@,
        keys::named_control(name) == Some(ControlKey::F7) ==> name == "F7"@ || name == "VK_F7"@,
        keys::named_control(name) == Some(ControlKey::F8) ==> name == "F8"@ || name == "VK_F8"@,
        keys::named_control(name) == Some(ControlKey::F9) ==> name == "F9"@ || name == "VK_F9"@,
        keys::named_control(name) == Some(ControlKey::F10) ==> name == "F10"@ || name == "VK_F10"@,
        keys::named_control(name) == Some(ControlKey::F11) ==> name == "F11"@ || name == "VK_F11"@,
        keys::named_control(name) == Some(ControlKey::F12) ==> name == "F12"@ || name == "VK_F12"@,
        keys::named_control(name) == Some(ControlKey::Home)
            ==> name == "Home"@ || name == "VK_HOME"@,
        keys::named_control(name) == Some(ControlKey::LeftArrow)
            ==> name == "LeftArrow"@ || name == "VK_LEFT"@,
        keys::named_control(name) == Some(ControlKey::PageDown)
            ==> name == "PageDown"@ || name == "VK_NEXT"@,
        keys::named_control(name) == Some(ControlKey::PageUp)
            ==> name == "PageUp"@ || name == "VK_PRIOR"@,
        keys::named_control(name) == Some(ControlKey::Return)
            ==> name == "Return"@ || name == "VK_RETURN"@ || name == "VK_ENTER"@,
        keys::named_control(name) == Some(ControlKey::NumpadEnter) ==> name == "NumpadEnter"@,
        keys::named_control(name) == Some(ControlKey::RightArrow)
            ==> name == "RightArrow"@ || name == "VK_RIGHT"@,
        keys::named_control(name) == Some(ControlKey::Space)
            ==> name == "Space"@ || name == "VK_SPACE"@,
        keys::named_control(name) == Some(ControlKey::Tab) ==> name == "Tab"@ || name == "VK_TAB"@,
        keys::named_control(name) == Some(ControlKey::UpArrow)
            ==> name == "UpArrow"@ || name == "VK_UP"@,
        keys::named_control(name) == Some(ControlKey::Numpad0)
            ==> name == "Numpad0"@ || name == "VK_NUMPAD0"@,
        keys::named_control(name) == Some(ControlKey::Numpad1)
            ==> name == "Numpad1"@ || name == "VK_NUMPAD1"@,
        keys::named_control(name) == Some(ControlKey::Numpad2)
            ==> name == "Numpad2"@ || name == "VK_NUMPAD2"@,
        keys::named_control(name) == Some(ControlKey::Numpad3)
            ==> name == "Numpad3"@ || name == "VK_NUMPAD3"@,
        keys::named_control(name) == Some(ControlKey::Numpad4)
            ==> name == "Numpad4"@ || name == "VK_NUMPAD4"@,
        keys::named_control(name) == Some(ControlKey::Numpad5)
            ==> name == "Numpad5"@ || name == "VK_NUMPAD5"@,
        keys::named_control(name) == Some(ControlKey::Numpad6)
            ==> name == "Numpad6"@ || name == "VK_NUMPAD6"@,
        keys::named_control(name) == Some(ControlKey::Numpad7)
            ==> name == "Numpad7"@ || name == "VK_NUMPAD7"@,
        keys::named_control(name) == Some(ControlKey::Numpad8)
            ==> name == "Numpad8"@ || name == "VK_NUMPAD8"@,
        keys::named_control(name) == Some(ControlKey::Numpad9)
            ==> name == "Numpad9"@ || name == "VK_NUMPAD9"@,
        keys::named_control(name) == Some(ControlKey::Cancel)
            ==> name == "Cancel"@ || name == "VK_CANCEL"@,
        keys::named_control(name) == Some(ControlKey::Clear)
            ==> name == "Clear"@ || name == "VK_CLEAR"@,
        keys::named_control(name) == Some(ControlKey::Pause)
            ==> name == "Pause"@ || name == "VK_PAUSE"@,
        keys::named_control(name) == Some(ControlKey::Insert)
            ==> name == "Insert"@ || name == "VK_INSERT"@,
        keys::named_control(name) == Some(ControlKey::Print)
            ==> name == "Print"@ || name == "VK_PRINT"@,
        keys::named_control(name) == Some(ControlKey::Snapshot)
            ==> name == "Snapshot"@ || name == "VK_SNAPSHOT"@,
        keys::named_control(name) == Some(ControlKey::Scroll)
            ==> name == "Scroll"@ || name == "VK_SCROLL"@,
        keys::named_control(name) == Some(ControlKey::NumLock) ==> name == "NumLock"@,
        keys::named_control(name) == Some(ControlKey::Apps) ==> name == "Apps"@,
        keys::named_control(name) == Some(ControlKey::Multiply)
            ==> name == "Multiply"@ || name == "VK_MULTIPLY"@,
        keys::named_control(name) == Some(ControlKey::Add) ==> name == "Add"@ || name == "VK_ADD"@,
        keys::named_control(name) == Some(ControlKey::Subtract)
            ==> name == "Subtract"@ || name == "VK_SUBTRACT"@,
        keys::named_control(name) == Some(ControlKey::Decimal)
            ==> name == "Decimal"@ || name == "VK_DECIMAL"@,
        keys::named_control(name) == Some(ControlKey::Divide)
            ==> name == "Divide"@ || name == "VK_DIVIDE"@,
        keys::named_control(name) == Some(ControlKey::CtrlAltDel) ==> name == "CTRL_ALT_DEL"@,
        keys::named_control(name) == Some(ControlKey::LockScreen) ==> name == "LOCK_SCREEN"@,
        keys::named_control(name) is None ==> {
            &&& name != "Alt"@
            &&& name != "RAlt"@
            &&& name != "VK_MENU"@
            &&& name != "Backspace"@
            &&& name != "VK_BACK"@
            &&& name != "CapsLock"@
            &&& name != "VK_CAPITAL"@
            &&& name != "Control"@
            &&& name != "VK_CONTROL"@
            &&& name != "RControl"@
            &&& name != "Shift"@
            &&& name != "VK_SHIFT"@
            &&& name != "RShift"@
            &&& name != "Meta"@
            &&& name != "RWin"@
            &&& name != "Delete"@
            &&& name != "VK_DELETE"@
            &&& name != "DownArrow"@
            &&& name != "VK_DOWN"@
            &&& name != "End"@
            &&& name != "VK_END"@
            &&& name != "Escape"@
            &&& name != "VK_ESCAPE"@
            &&& name != "F1"@
            &&& name != "VK_F1"@
            &&& name != "F2"@
            &&& name != "VK_F2"@
            &&& name != "F3"@
            &&& name != "VK_F3"@
            &&& name != "F4"@
            &&& name != "VK_F4"@
            &&& name != "F5"@
            &&& name != "VK_F5"@
            &&& name != "F6"@
            &&& name != "VK_F6"@
            &&& name != "F7"@
            &&& name != "VK_F7"@
            &&& name != "F8"@
            &&& name != "VK_F8"@
            &&& name != "F9"@
            &&& name != "VK_F9"@
            &&& name != "F10"@
            &&& name != "VK_F10"@
            &&& name != "F11"@
            &&& name != "VK_F11"@
            &&& name != "F12"@
            &&& name != "VK_F12"@
            &&& name != "Home"@
            &&& name != "VK_HOME"@
            &&& name != "LeftArrow"@
            &&& name != "VK_LEFT"@
            &&& name != "PageDown"@
            &&& name != "VK_NEXT"@
            &&& name != "PageUp"@
            &&& name != "VK_PRIOR"@
            &&& name != "Return"@
            &&& name != "VK_RETURN"@
            &&& name != "VK_ENTER"@
            &&& name != "NumpadEnter"@
            &&& name != "RightArrow"@
            &&& name != "VK_RIGHT"@
            &&& name != "Space"@
            &&& name != "VK_SPACE"@
            &&& name != "Tab"@
            &&& name != "VK_TAB"@
            &&& name != "UpArrow"@
            &&& name != "VK_UP"@
            &&& name != "Numpad0"@
            &&& name != "VK_NUMPAD0"@
            &&& name != "Numpad1"@
            &&& name != "VK_NUMPAD1"@
            &&& name != "Numpad2"@
            &&& name != "VK_NUMPAD2"@
            &&& name != "Numpad3"@
            &&& name != "VK_NUMPAD3"@
            &&& name != "Numpad4"@
            &&& name != "VK_NUMPAD4"@
            &&& name != "Numpad5"@
            &&& name != "VK_NUMPAD5"@
            &&& name != "Numpad6"@
            &&& name != "VK_NUMPAD6"@
            &&& name != "Numpad7"@
            &&& name != "VK_NUMPAD7"@
            &&& name != "Numpad8"@
            &&& name != "VK_NUMPAD8"@
            &&& name != "Numpad9"@
            &&& name != "VK_NUMPAD9"@
            &&& name != "Cancel"@
            &&& name != "VK_CANCEL"@
            &&& name != "Clear"@
            &&& name != "VK_CLEAR"@
            &&& name != "Pause"@
            &&& name != "VK_PAUSE"@
            &&& name != "Insert"@
            &&& name != "VK_INSERT"@
            &&& name != "Print"@
            &&& name != "VK_PRINT"@
            &&& name != "Snapshot"@
            &&& name != "VK_SNAPSHOT"@
            &&& name != "Scroll"@
            &&& name != "VK_SCROLL"@
            &&& name != "NumLock"@
            &&& name != "Apps"@
            &&& name != "Multiply"@
            &&& name != "VK_MULTIPLY"@
            &&& name != "Add"@
            &&& name != "VK_ADD"@
            &&& name != "Subtract"@
            &&& name != "VK_SUBTRACT"@
            &&& name != "Decimal"@
            &&& name != "VK_DECIMAL"@
            &&& name != "Divide"@
            &&& name != "VK_DIVIDE"@
            &&& name != "CTRL_ALT_DEL"@
            &&& name != "LOCK_SCREEN"@
        },
{
}

/// A single character stands for itself, whatever it is, and a longer name for the control
/// key that it names.
pub proof fn lemma_characters_name_themselves(name: Seq<char>, c: char)
    ensures
        keys::named_key(seq![c]) == Some(ViewerKey::Character(c as u32)),
        name.len() != 1 ==> (keys::named_key(name) matches Some(key) ==> (key
            matches ViewerKey::Control(control) && keys::named_control(name) == Some(control))),
        name.len() != 1 ==> (keys::named_key(name) is None <==> keys::named_control(name) is None),
{
    assert(seq![c].len() == 1 && seq![c][0] == c);
}

/// Each modifier that is held is told once, and no other; in the order of the protocol to a
/// host, and with the control key first to a VNC server.
pub proof fn lemma_modifiers(alt: bool, ctrl: bool, shift: bool, command: bool)
    ensures
        ({
            let held = keys::modifiers_held(alt, ctrl, shift, command);
            let sent = session_backend::held_keysyms(alt, ctrl, shift, command);
            &&& held.contains(ControlKey::Alt) <==> alt
            &&& held.contains(ControlKey::Control) <==> ctrl
            &&& held.contains(ControlKey::Shift) <==> shift
            &&& held.contains(ControlKey::Meta) <==> command
            &&& sent.contains(0xffe9) <==> alt
            &&& sent.contains(0xffe3) <==> ctrl
            &&& sent.contains(0xffe1) <==> shift
            &&& sent.contains(0xffeb) <==> command
            &&& held.len() == sent.len()
            &&& held.len() == (if alt {
                1int
            } else {
                0
            }) + (if ctrl {
                1int
            } else {
                0
            }) + (if shift {
                1int
            } else {
                0
            }) + (if command {
                1int
            } else {
                0
            })
            &&& alt ==> held[0] is Alt
            &&& command ==> held.last() is Meta
            &&& ctrl ==> sent[0] == 0xffe3
            &&& command ==> sent.last() == 0xffeb
        }),
{
    let held = keys::modifiers_held(alt, ctrl, shift, command);
    let sent = session_backend::held_keysyms(alt, ctrl, shift, command);
    let a = if alt {
        1int
    } else {
        0
    };
    let c = if ctrl {
        1int
    } else {
        0
    };
    let s = if shift {
        1int
    } else {
        0
    };
    if alt {
        assert(held[0] is Alt);
        assert(sent[c] == 0xffe9);
    }
    if shift {
        assert(held[a] is Shift);
        assert(sent[c + a] == 0xffe1);
    }
    if ctrl {
        assert(held[a + s] is Control);
        assert(sent[0] == 0xffe3);
    }
    if command {
        assert(held[a + s + c] is Meta);
        assert(sent[c + a + s] == 0xffeb);
    }
}

/// Which button a pointer event is about: each by its own bit, and nothing for several at
/// once.
pub proof fn lemma_buttons(bits: int)
    ensures
        input::button_of(bits) == Some(MouseButton::Left) <==> bits == 1,
        input::button_of(bits) == Some(MouseButton::Right) <==> bits == 2,
        input::button_of(bits) == Some(MouseButton::Middle) <==> bits == 4,
        input::button_of(bits) == Some(MouseButton::Back) <==> bits == 8,
        input::button_of(bits) == Some(MouseButton::Forward) <==> bits == 16,
        input::button_of(bits) is Some
            <==> (bits == 1 || bits == 2 || bits == 4 || bits == 8 || bits
            == 16),
{
}

/// A pointer event is injected as what its kind says: moved to its place or by its numbers,
/// pressed, released, or scrolled, where the wheel turns the other way sideways. What has
/// no kind, several buttons, or numbers out of bounds is dropped.
pub proof fn lemma_pointer_events(kind: int, buttons: int, x: i32, y: i32)
    requires
        0 <= kind < 8,
        0 <= buttons < 0x1000,
    ensures
        ({
            let event = MouseEvent { mask: (8 * buttons + kind) as i32, x, y };
            let action = input::mouse_action(event);
            let near = -16384 <= x <= 16384 && -16384 <= y <= 16384;
            let on_desktop = -1048576 <= x <= 1048576 && -1048576 <= y <= 1048576;
            &&& buttons > 31 || kind > 5 ==> action is None
            &&& buttons <= 31 && kind == 0 ==> action == (if on_desktop {
                Some(MouseAction::MoveAbsolute { x, y })
            } else {
                None
            })
            &&& buttons <= 31 && kind == 5 ==> action == (if near {
                Some(MouseAction::MoveRelative { dx: x, dy: y })
            } else {
                None
            })
            &&& buttons <= 31 && kind == 1 ==> (action is Some <==> on_desktop && input::button_of(
                buttons,
            ) is Some)
            &&& kind == 1 ==> (action matches Some(a) ==> a == MouseAction::ButtonDown(
                input::button_of(buttons)->0,
            ))
            &&& buttons <= 31 && kind == 2 ==> (action is Some <==> on_desktop && input::button_of(
                buttons,
            ) is Some)
            &&& kind == 2 ==> (action matches Some(a) ==> a == MouseAction::ButtonUp(
                input::button_of(buttons)->0,
            ))
            &&& buttons <= 31 && (kind == 3 || kind == 4) ==> (if near {
                action matches Some(MouseAction::Wheel { dx, dy }) && dx == -x && dy == y
            } else {
                action is None
            })
        }),
{
}

/// A key event is injected as the key that it carries, down where it is down or a press.
/// Other modes, control characters as characters, empty or endless texts, and keys without
/// a name are dropped.
pub proof fn lemma_key_events(event: KeyEvent)
    ensures
        ({
            let action = input::key_action(event);
            &&& action is Some ==> event.mode is Legacy
            &&& event.mode is Legacy ==> match event.payload {
                KeyPayload::Control(Some(key)) => if key is Unknown {
                    action is None
                } else {
                    action matches Some(input::KeyActionView::Control { key: k, down }) && k == key
                        && down == (event.down || event.press)
                },
                KeyPayload::Text(t) => if 0 < t@.len() && vstd::utf8::encode_utf8(t@).len()
                    <= 65536 {
                    action == Some(input::KeyActionView::Text(t@))
                } else {
                    action is None
                },
                KeyPayload::Chr(code) => {
                    &&& code < 32 || 127 <= code < 160 || 0xd800 <= code <= 0xdfff || code
                        > 0x10ffff ==> action is None
                    &&& 32 <= code < 127 || 160 <= code < 0xd800 || 0xdfff < code <= 0x10ffff ==> (
                    action matches Some(input::KeyActionView::Character { character, down })
                        && character as u32 == code && down == (event.down || event.press))
                },
                _ => action is None,
            }
        }),
{
}

/// A button is pressed and released as itself: Windows has a number for each press, the
/// double of it is the release, and the two buttons at the side are told apart by a number
/// of their own.
pub proof fn lemma_button_records(button: MouseButton, other: MouseButton)
    ensures
        windows_input::flags_of(button, true).0 == (match button {
            MouseButton::Left => 2u32,
            MouseButton::Right => 8,
            MouseButton::Middle => 32,
            MouseButton::Back => 128,
            MouseButton::Forward => 128,
        }),
        windows_input::flags_of(button, false).0 == 2 * windows_input::flags_of(button, true).0,
        windows_input::flags_of(button, false).1 == windows_input::flags_of(button, true).1,
        windows_input::flags_of(button, true).1 == (if button is Back {
            1u32
        } else if button is Forward {
            2
        } else {
            0
        }),
        button != other ==> windows_input::flags_of(button, true) != windows_input::flags_of(
            other,
            true,
        ) && windows_input::flags_of(button, false) != windows_input::flags_of(other, false),
{
}

/// What is injected of a pointer action does what the action says: one record for each
/// axis of a wheel that turns, and one for everything else.
pub proof fn lemma_pointer_records(action: MouseAction, desktop: VirtualDesktop)
    ensures
        ({
            let records = windows_input::mouse_records(action, desktop);
            match action {
                MouseAction::MoveAbsolute { x, y } => {
                    &&& records.len() == 1
                    &&& records[0] matches InputRecord::Mouse { flags, dx, dy, data } && flags
                        == 0xc001 && data == 0 && dx == input::scaled(
                        x as int,
                        desktop.x as int,
                        desktop.width as int,
                    ) as i32 && dy == input::scaled(
                        y as int,
                        desktop.y as int,
                        desktop.height as int,
                    ) as i32
                },
                MouseAction::MoveRelative { dx, dy } => records == seq![
                    InputRecord::Mouse { flags: 1, dx, dy, data: 0 },
                ],
                MouseAction::ButtonDown(button) => {
                    &&& records.len() == 1
                    &&& records[0] matches InputRecord::Mouse { flags, dx, dy, data } && (
                    flags, data) == windows_input::flags_of(button, true) && dx == 0 && dy == 0
                },
                MouseAction::ButtonUp(button) => {
                    &&& records.len() == 1
                    &&& records[0] matches InputRecord::Mouse { flags, dx, dy, data } && (
                    flags, data) == windows_input::flags_of(button, false) && dx == 0 && dy == 0
                },
                MouseAction::Wheel { dx, dy } => {
                    let across = InputRecord::Mouse {
                        flags: 0x1000,
                        dx: 0,
                        dy: 0,
                        data: (if dx < 0 {
                            dx + 0x1_0000_0000
                        } else {
                            dx as int
                        }) as u32,
                    };
                    let along = InputRecord::Mouse {
                        flags: 0x800,
                        dx: 0,
                        dy: 0,
                        data: (if dy < 0 {
                            dy + 0x1_0000_0000
                        } else {
                            dy as int
                        }) as u32,
                    };
                    &&& dx != 0 ==> records.len() > 0 && records[0] == across
                    &&& dx == 0 || dy != 0 ==> records.len() > 0 && records.last() == along
                    &&& records.len() == if dx != 0 && dy != 0 {
                        2int
                    } else {
                        1
                    }
                },
            }
        }),
{
}

/// Nothing is injected that the local user did not arm, and no pointer is moved where there
/// is no desktop; everything else is injected.
pub proof fn lemma_what_is_not_injected(
    armed: bool,
    action: MouseAction,
    desktop: VirtualDesktop,
)
    ensures
        ({
            let refusal = windows_input::mouse_refusal(armed, action, desktop);
            &&& refusal == Some(InjectError::NotArmed) <==> !armed
            &&& refusal == Some(InjectError::Unsupported) <==> armed && action is MoveAbsolute && (
            desktop.width <= 0 || desktop.height <= 0)
            &&& refusal is None || refusal == Some(InjectError::NotArmed) || refusal == Some(
                InjectError::Unsupported,
            )
        }),
{
}

/// A character becomes the units of UTF-16 that stand for it: one that is its number, or
/// two from which its number can be read back.
pub proof fn lemma_units_of_a_character(c: char)
    ensures
        ({
            let units = windows_input::units_of(c);
            &&& c as int <= 0xffff ==> units.len() == 1 && units[0] == c as int
            &&& c as int > 0xffff ==> {
                &&& units.len() == 2
                &&& 0xd800 <= units[0] < 0xdc00
                &&& 0xdc00 <= units[1] < 0xe000
                &&& 0x10000 + (units[0] - 0xd800) * 0x400 + (units[1] - 0xdc00) == c as int
            }
        }),
{
    assert(c as int <= 0x10ffff);
}

/// The units of a text are those of its characters, one after the other.
pub proof fn lemma_units_of_a_text(a: Seq<char>, b: Seq<char>, c: char)
    ensures
        windows_input::utf16(a + b) == windows_input::utf16(a) + windows_input::utf16(b),
        windows_input::utf16(seq![c]) == windows_input::units_of(c),
        windows_input::utf16(Seq::empty()) == Seq::<u16>::empty(),
    decreases b.len(),
{
    if b.len() == 0 {
        assert(a + b =~= a);
        assert(windows_input::utf16(a) + windows_input::utf16(b) =~= windows_input::utf16(a));
    } else {
        lemma_units_of_a_text(a, b.drop_last(), c);
        assert((a + b).drop_last() =~= a + b.drop_last());
        assert(windows_input::utf16(a) + (windows_input::utf16(b.drop_last())
            + windows_input::units_of(b.last())) =~= windows_input::utf16(a)
            + windows_input::utf16(b.drop_last()) + windows_input::units_of(b.last()));
    }
    reveal_with_fuel(windows_input::utf16, 2);
    assert(seq![c].drop_last() =~= Seq::<char>::empty());
    assert(Seq::<u16>::empty() + windows_input::units_of(c) =~= windows_input::units_of(c));
}

/// A text is typed unit by unit in its order, each of them going down and up again, as a
/// character and not as a key.
pub proof fn lemma_typing(units: Seq<u16>, i: int)
    requires
        0 <= i < units.len(),
    ensures
        windows_input::typed(units).len() == 2 * units.len(),
        windows_input::typed(units)[2 * i] == (InputRecord::Key {
            vk: 0,
            scan: units[i],
            flags: 4,
        }),
        windows_input::typed(units)[2 * i + 1] == (InputRecord::Key {
            vk: 0,
            scan: units[i],
            flags: 6,
        }),
    decreases units.len(),
{
    let rest = units.drop_last();
    if rest.len() == 0 {
        assert(windows_input::typed(rest) =~= Seq::<InputRecord>::empty());
    } else if i < rest.len() {
        lemma_typing(rest, i);
    } else {
        lemma_typing(rest, 0);
    }
}

/// A key action is injected as what it is: a text by typing it, a character by its units,
/// down or up, and a control key by its virtual key.
pub proof fn lemma_key_actions(text: Seq<char>, c: char, key: ControlKey, down: bool)
    ensures
        windows_input::key_records(input::KeyActionView::Text(text)) == (if windows_input::utf16(
            text,
        ).len() <= 65536 {
            Ok::<Seq<InputRecord>, InjectError>(
                windows_input::typed(windows_input::utf16(text)),
            )
        } else {
            Err(InjectError::TooLarge)
        }),
        c as int <= 0xffff ==> windows_input::key_records(
            input::KeyActionView::Character { character: c, down },
        ) == Ok::<Seq<InputRecord>, InjectError>(
            seq![
                InputRecord::Key {
                    vk: 0,
                    scan: c as u16,
                    flags: if down {
                        4
                    } else {
                        6
                    },
                },
            ],
        ),
        c as int > 0xffff ==> windows_input::key_records(
            input::KeyActionView::Character { character: c, down },
        ) == Ok::<Seq<InputRecord>, InjectError>(
            if down {
                windows_input::typed(windows_input::units_of(c))
            } else {
                Seq::empty()
            },
        ),
        windows_input::key_records(input::KeyActionView::Control { key, down }) == (
        match input::virtual_key(key) {
            Some(number) => Ok::<Seq<InputRecord>, InjectError>(
                seq![
                    InputRecord::Key {
                        vk: number,
                        scan: 0,
                        flags: if down {
                            0
                        } else {
                            2
                        },
                    },
                ],
            ),
            None => Err(InjectError::Unsupported),
        }),
{
    lemma_units_of_a_text(Seq::empty(), Seq::empty(), c);
}

/// The pointer of a VNC server is told which button is held: each by its own bit, none
/// while it moves and none once it is released. What has no place there is refused.
pub proof fn lemma_vnc_pointer(kind: u32, button: u32, x: i32, y: i32)
    ensures
        ({
            let mask = session_backend::pointer_mask(kind, button, x, y);
            let bit = if button == 1 {
                1u8
            } else if button == 2 {
                4
            } else if button == 3 {
                2
            } else if button == 4 {
                8
            } else if button == 5 {
                16
            } else {
                0
            };
            &&& mask is Ok <==> x >= 0 && y >= 0 && (kind == 0 || kind <= 5 && button <= 5)
            &&& mask matches Ok(m) ==> m == if kind == 0 || kind == 2 {
                0u8
            } else {
                bit
            }
        }),
{
}

/// A character within Latin-1 is sent to a VNC server as itself, and no other is.
pub proof fn lemma_vnc_characters(code: u32)
    ensures
        code <= 0xff ==> session_backend::keysym_of(ViewerKey::Character(code)) == Ok::<
            u32,
            crate::vnc::VncErrorView,
        >(code),
        code > 0xff ==> session_backend::keysym_of(ViewerKey::Character(code)) is Err,
{
}

/// The control keys that a VNC server is sent are those with a keysym, as that keysym.
pub proof fn lemma_vnc_control_keys(key: ControlKey)
    ensures
        match session_backend::control_keysym(key) {
            Some(n) => session_backend::keysym_of(ViewerKey::Control(key)) == Ok::<
                u32,
                crate::vnc::VncErrorView,
            >(n),
            None => session_backend::keysym_of(ViewerKey::Control(key)) is Err,
        },
{
}

/// A key message names its key and says whether it goes down.
pub proof fn lemma_vnc_key_message(down: bool, keysym: u32)
    ensures
        ({
            let b = session_backend::key_message(down, keysym);
            &&& b.len() == 8
            &&& b[0] == 4
            &&& b[1] == if down {
                1u8
            } else {
                0
            }
            &&& b[4] * 16777216 + b[5] * 65536 + b[6] * 256 + b[7] == keysym
        }),
{
}

/// A text is typed character by character, each going down and up, as far as a VNC server
/// can be sent it.
pub proof fn lemma_vnc_typing(a: Seq<char>, c: char, b: Seq<char>)
    requires
        forall|i: int| 0 <= i < a.len() ==> #[trigger] a[i] as int <= 0xff,
    ensures
        session_backend::typed_messages(a + b) == session_backend::typed_messages(a)
            + session_backend::typed_messages(b),
        session_backend::typed_messages(a).len() == 2 * a.len(),
        session_backend::first_foreign(a) is None,
        session_backend::first_foreign(a + b) == session_backend::first_foreign(b),
        c as int <= 0xff ==> session_backend::typed_messages(seq![c]) == seq![
            session_backend::key_message(true, c as u32),
            session_backend::key_message(false, c as u32),
        ],
        c as int > 0xff ==> session_backend::typed_messages(seq![c] + b).len() == 0
            && session_backend::first_foreign(seq![c] + b) == Some(c),
    decreases a.len(),
{
    if a.len() == 0 {
        assert(a + b =~= b);
        assert(session_backend::typed_messages(a) + session_backend::typed_messages(b)
            =~= session_backend::typed_messages(b));
    } else {
        let rest = a.skip(1);
        assert(a[0] as int <= 0xff);
        assert forall|i: int| 0 <= i < rest.len() implies #[trigger] rest[i] as int <= 0xff by {
            assert(rest[i] == a[i + 1]);
        }
        lemma_vnc_typing(rest, c, b);
        assert((a + b).skip(1) =~= rest + b);
        let first = seq![
            session_backend::key_message(true, a[0] as u32),
            session_backend::key_message(false, a[0] as u32),
        ];
        assert(first + (session_backend::typed_messages(rest) + session_backend::typed_messages(b))
            =~= first + session_backend::typed_messages(rest) + session_backend::typed_messages(b));
    }
    reveal_with_fuel(session_backend::typed_messages, 2);
    assert(seq![c].skip(1) =~= Seq::<char>::empty());
    if c as int <= 0xff {
        assert(session_backend::typed_messages(seq![c]) =~= seq![
            session_backend::key_message(true, c as u32),
            session_backend::key_message(false, c as u32),
        ]);
    }
    assert((seq![c] + b)[0] == c);
}

} // verus!

//! Names and codes of keys.
use vstd::prelude::*;
use crate::control_key::ControlKey;
use crate::text;

verus! {

/// A key: a character by its code, or a control key of the protocol.
#[derive(Debug, Clone, Copy, PartialEq, Eq, Structural)]
pub enum ViewerKey {
    Character(u32),
    Control(ControlKey),
}

/// The modifiers that are held, in the order of the protocol.
pub open spec fn modifiers_held(alt: bool, ctrl: bool, shift: bool, command: bool) -> Seq<
    ControlKey,
> {
    let a = if alt {
        seq![ControlKey::Alt]
    } else {
        Seq::empty()
    };
    let s = if shift {
        seq![ControlKey::Shift]
    } else {
        Seq::empty()
    };
    let c = if ctrl {
        seq![ControlKey::Control]
    } else {
        Seq::empty()
    };
    let m = if command {
        seq![ControlKey::Meta]
    } else {
        Seq::empty()
    };
    a + s + c + m
}

/// The modifiers that are held, in the order of the protocol.
pub fn legacy_modifiers(alt: bool, ctrl: bool, shift: bool, command: bool) -> (r: Vec<ControlKey>)
    ensures
        r@ == modifiers_held(alt, ctrl, shift, command),
{
    let mut modifiers: Vec<ControlKey> = Vec::new();
    if alt {
        modifiers.push(ControlKey::Alt);
    }
    if shift {
        modifiers.push(ControlKey::Shift);
    }
    if ctrl {
        modifiers.push(ControlKey::Control);
    }
    if command {
        modifiers.push(ControlKey::Meta);
    }
    assert(modifiers@ =~= modifiers_held(alt, ctrl, shift, command));
    modifiers
}

/// The control key that a name stands for.
pub open spec fn named_control(name: Seq<char>) -> Option<ControlKey> {
    if name == "Alt"@ || name == "RAlt"@ || name == "VK_MENU"@ {
        Some(ControlKey::Alt)
    } else if name == "Backspace"@ || name == "VK_BACK"@ {
        Some(ControlKey::Backspace)
    } else if name == "CapsLock"@ || name == "VK_CAPITAL"@ {
        Some(ControlKey::CapsLock)
    } else if name == "Control"@ || name == "VK_CONTROL"@ {
        Some(ControlKey::Control)
    } else if name == "RControl"@ {
        Some(ControlKey::RControl)
    } else if name == "Shift"@ || name == "VK_SHIFT"@ {
        Some(ControlKey::Shift)
    } else if name == "RShift"@ {
        Some(ControlKey::RShift)
    } else if name == "Meta"@ || name == "RWin"@ {
        Some(ControlKey::Meta)
    } else if name == "Delete"@ || name == "VK_DELETE"@ {
        Some(ControlKey::Delete)
    } else if name == "DownArrow"@ || name == "VK_DOWN"@ {
        Some(ControlKey::DownArrow)
    } else if name == "End"@ || name == "VK_END"@ {
        Some(ControlKey::End)
    } else if name == "Escape"@ || name == "VK_ESCAPE"@ {
        Some(ControlKey::Escape)
    } else if name == "F1"@ || name == "VK_F1"@ {
        Some(ControlKey::F1)
    } else if name == "F2"@ || name == "VK_F2"@ {
        Some(ControlKey::F2)
    } else if name == "F3"@ || name == "VK_F3"@ {
        Some(ControlKey::F3)
    } else if name == "F4"@ || name == "VK_F4"@ {
        Some(ControlKey::F4)
    } else if name == "F5"@ || name == "VK_F5"@ {
        Some(ControlKey::F5)
    } else if name == "F6"@ || name == "VK_F6"@ {
        Some(ControlKey::F6)
    } else if name == "F7"@ || name == "VK_F7"@ {
        Some(ControlKey::F7)
    } else if name == "F8"@ || name == "VK_F8"@ {
        Some(ControlKey::F8)
    } else if name == "F9"@ || name == "VK_F9"@ {
        Some(ControlKey::F9)
    } else if name == "F10"@ || name == "VK_F10"@ {
        Some(ControlKey::F10)
    } else if name == "F11"@ || name == "VK_F11"@ {
        Some(ControlKey::F11)
    } else if name == "F12"@ || name == "VK_F12"@ {
        Some(ControlKey::F12)
    } else if name == "Home"@ || name == "VK_HOME"@ {
        Some(ControlKey::Home)
    } else if name == "LeftArrow"@ || name == "VK_LEFT"@ {
        Some(ControlKey::LeftArrow)
    } else if name == "PageDown"@ || name == "VK_NEXT"@ {
        Some(ControlKey::PageDown)
    } else if name == "PageUp"@ || name == "VK_PRIOR"@ {
        Some(ControlKey::PageUp)
    } else if name == "Return"@ || name == "VK_RETURN"@ || name == "VK_ENTER"@ {
        Some(ControlKey::Return)
    } else if name == "NumpadEnter"@ {
        Some(ControlKey::NumpadEnter)
    } else if name == "RightArrow"@ || name == "VK_RIGHT"@ {
        Some(ControlKey::RightArrow)
    } else if name == "Space"@ || name == "VK_SPACE"@ {
        Some(ControlKey::Space)
    } else if name == "Tab"@ || name == "VK_TAB"@ {
        Some(ControlKey::Tab)
    } else if name == "UpArrow"@ || name == "VK_UP"@ {
        Some(ControlKey::UpArrow)
    } else if name == "Numpad0"@ || name == "VK_NUMPAD0"@ {
        Some(ControlKey::Numpad0)
    } else if name == "Numpad1"@ || name == "VK_NUMPAD1"@ {
        Some(ControlKey::Numpad1)
    } else if name == "Numpad2"@ || name == "VK_NUMPAD2"@ {
        Some(ControlKey::Numpad2)
    } else if name == "Numpad3"@ || name == "VK_NUMPAD3"@ {
        Some(ControlKey::Numpad3)
    } else if name == "Numpad4"@ || name == "VK_NUMPAD4"@ {
        Some(ControlKey::Numpad4)
    } else if name == "Numpad5"@ || name == "VK_NUMPAD5"@ {
        Some(ControlKey::Numpad5)
    } else if name == "Numpad6"@ || name == "VK_NUMPAD6"@ {
        Some(ControlKey::Numpad6)
    } else if name == "Numpad7"@ || name == "VK_NUMPAD7"@ {
        Some(ControlKey::Numpad7)
    } else if name == "Numpad8"@ || name == "VK_NUMPAD8"@ {
        Some(ControlKey::Numpad8)
    } else if name == "Numpad9"@ || name == "VK_NUMPAD9"@ {
        Some(ControlKey::Numpad9)
    } else if name == "Cancel"@ || name == "VK_CANCEL"@ {
        Some(ControlKey::Cancel)
    } else if name == "Clear"@ || name == "VK_CLEAR"@ {
        Some(ControlKey::Clear)
    } else if name == "Pause"@ || name == "VK_PAUSE"@ {
        Some(ControlKey::Pause)
    } else if name == "Insert"@ || name == "VK_INSERT"@ {
        Some(ControlKey::Insert)
    } else if name == "Print"@ || name == "VK_PRINT"@ {
        Some(ControlKey::Print)
    } else if name == "Snapshot"@ || name == "VK_SNAPSHOT"@ {
        Some(ControlKey::Snapshot)
    } else if name == "Scroll"@ || name == "VK_SCROLL"@ {
        Some(ControlKey::Scroll)
    } else if name == "NumLock"@ {
        Some(ControlKey::NumLock)
    } else if name == "Apps"@ {
        Some(ControlKey::Apps)
    } else if name == "Multiply"@ || name == "VK_MULTIPLY"@ {
        Some(ControlKey::Multiply)
    } else if name == "Add"@ || name == "VK_ADD"@ {
        Some(ControlKey::Add)
    } else if name == "Subtract"@ || name == "VK_SUBTRACT"@ {
        Some(ControlKey::Subtract)
    } else if name == "Decimal"@ || name == "VK_DECIMAL"@ {
        Some(ControlKey::Decimal)
    } else if name == "Divide"@ || name == "VK_DIVIDE"@ {
        Some(ControlKey::Divide)
    } else if name == "CTRL_ALT_DEL"@ {
        Some(ControlKey::CtrlAltDel)
    } else if name == "LOCK_SCREEN"@ {
        Some(ControlKey::LockScreen)
    } else {
        None
    }
}

/// The control key that a name stands for.
fn control_key_name(name: &str) -> (r: Option<ControlKey>)
    ensures
        r == named_control(name@),
{
    if text::same_text(name, "Alt") || text::same_text(name, "RAlt") || text::same_text(name, "VK_MENU") {
        Some(ControlKey::Alt)
    } else if text::same_text(name, "Backspace") || text::same_text(name, "VK_BACK") {
        Some(ControlKey::Backspace)
    } else if text::same_text(name, "CapsLock") || text::same_text(name, "VK_CAPITAL") {
        Some(ControlKey::CapsLock)
    } else if text::same_text(name, "Control") || text::same_text(name, "VK_CONTROL") {
        Some(ControlKey::Control)
    } else if text::same_text(name, "RControl") {
        Some(ControlKey::RControl)
    } else if text::same_text(name, "Shift") || text::same_text(name, "VK_SHIFT") {
        Some(ControlKey::Shift)
    } else if text::same_text(name, "RShift") {
        Some(ControlKey::RShift)
    } else if text::same_text(name, "Meta") || text::same_text(name, "RWin") {
        Some(ControlKey::Meta)
    } else if text::same_text(name, "Delete") || text::same_text(name, "VK_DELETE") {
        Some(ControlKey::Delete)
    } else if text::same_text(name, "DownArrow") || text::same_text(name, "VK_DOWN") {
        Some(ControlKey::DownArrow)
    } else if text::same_text(name, "End") || text::same_text(name, "VK_END") {
        Some(ControlKey::End)
    } else if text::same_text(name, "Escape") || text::same_text(name, "VK_ESCAPE") {
        Some(ControlKey::Escape)
    } else if text::same_text(name, "F1") || text::same_text(name, "VK_F1") {
        Some(ControlKey::F1)
    } else if text::same_text(name, "F2") || text::same_text(name, "VK_F2") {
        Some(ControlKey::F2)
    } else if text::same_text(name, "F3") || text::same_text(name, "VK_F3") {
        Some(ControlKey::F3)
    } else if text::same_text(name, "F4") || text::same_text(name, "VK_F4") {
        Some(ControlKey::F4)
    } else if text::same_text(name, "F5") || text::same_text(name, "VK_F5") {
        Some(ControlKey::F5)
    } else if text::same_text(name, "F6") || text::same_text(name, "VK_F6") {
        Some(ControlKey::F6)
    } else if text::same_text(name, "F7") || text::same_text(name, "VK_F7") {
        Some(ControlKey::F7)
    } else if text::same_text(name, "F8") || text::same_text(name, "VK_F8") {
        Some(ControlKey::F8)
    } else if text::same_text(name, "F9") || text::same_text(name, "VK_F9") {
        Some(ControlKey::F9)
    } else if text::same_text(name, "F10") || text::same_text(name, "VK_F10") {
        Some(ControlKey::F10)
    } else if text::same_text(name, "F11") || text::same_text(name, "VK_F11") {
        Some(ControlKey::F11)
    } else if text::same_text(name, "F12") || text::same_text(name, "VK_F12") {
        Some(ControlKey::F12)
    } else if text::same_text(name, "Home") || text::same_text(name, "VK_HOME") {
        Some(ControlKey::Home)
    } else if text::same_text(name, "LeftArrow") || text::same_text(name, "VK_LEFT") {
        Some(ControlKey::LeftArrow)
    } else if text::same_text(name, "PageDown") || text::same_text(name, "VK_NEXT") {
        Some(ControlKey::PageDown)
    } else if text::same_text(name, "PageUp") || text::same_text(name, "VK_PRIOR") {
        Some(ControlKey::PageUp)
    } else if text::same_text(name, "Return") || text::same_text(name, "VK_RETURN") || text::same_text(name, "VK_ENTER") {
        Some(ControlKey::Return)
    } else if text::same_text(name, "NumpadEnter") {
        Some(ControlKey::NumpadEnter)
    } else if text::same_text(name, "RightArrow") || text::same_text(name, "VK_RIGHT") {
        Some(ControlKey::RightArrow)
    } else if text::same_text(name, "Space") || text::same_text(name, "VK_SPACE") {
        Some(ControlKey::Space)
    } else if text::same_text(name, "Tab") || text::same_text(name, "VK_TAB") {
        Some(ControlKey::Tab)
    } else if text::same_text(name, "UpArrow") || text::same_text(name, "VK_UP") {
        Some(ControlKey::UpArrow)
    } else if text::same_text(name, "Numpad0") || text::same_text(name, "VK_NUMPAD0") {
        Some(ControlKey::Numpad0)
    } else if text::same_text(name, "Numpad1") || text::same_text(name, "VK_NUMPAD1") {
        Some(ControlKey::Numpad1)
    } else if text::same_text(name, "Numpad2") || text::same_text(name, "VK_NUMPAD2") {
        Some(ControlKey::Numpad2)
    } else if text::same_text(name, "Numpad3") || text::same_text(name, "VK_NUMPAD3") {
        Some(ControlKey::Numpad3)
    } else if text::same_text(name, "Numpad4") || text::same_text(name, "VK_NUMPAD4") {
        Some(ControlKey::Numpad4)
    } else if text::same_text(name, "Numpad5") || text::same_text(name, "VK_NUMPAD5") {
        Some(ControlKey::Numpad5)
    } else if text::same_text(name, "Numpad6") || text::same_text(name, "VK_NUMPAD6") {
        Some(ControlKey::Numpad6)
    } else if text::same_text(name, "Numpad7") || text::same_text(name, "VK_NUMPAD7") {
        Some(ControlKey::Numpad7)
    } else if text::same_text(name, "Numpad8") || text::same_text(name, "VK_NUMPAD8") {
        Some(ControlKey::Numpad8)
    } else if text::same_text(name, "Numpad9") || text::same_text(name, "VK_NUMPAD9") {
        Some(ControlKey::Numpad9)
    } else if text::same_text(name, "Cancel") || text::same_text(name, "VK_CANCEL") {
        Some(ControlKey::Cancel)
    } else if text::same_text(name, "Clear") || text::same_text(name, "VK_CLEAR") {
        Some(ControlKey::Clear)
    } else if text::same_text(name, "Pause") || text::same_text(name, "VK_PAUSE") {
        Some(ControlKey::Pause)
    } else if text::same_text(name, "Insert") || text::same_text(name, "VK_INSERT") {
        Some(ControlKey::Insert)
    } else if text::same_text(name, "Print") || text::same_text(name, "VK_PRINT") {
        Some(ControlKey::Print)
    } else if text::same_text(name, "Snapshot") || text::same_text(name, "VK_SNAPSHOT") {
        Some(ControlKey::Snapshot)
    } else if text::same_text(name, "Scroll") || text::same_text(name, "VK_SCROLL") {
        Some(ControlKey::Scroll)
    } else if text::same_text(name, "NumLock") {
        Some(ControlKey::NumLock)
    } else if text::same_text(name, "Apps") {
        Some(ControlKey::Apps)
    } else if text::same_text(name, "Multiply") || text::same_text(name, "VK_MULTIPLY") {
        Some(ControlKey::Multiply)
    } else if text::same_text(name, "Add") || text::same_text(name, "VK_ADD") {
        Some(ControlKey::Add)
    } else if text::same_text(name, "Subtract") || text::same_text(name, "VK_SUBTRACT") {
        Some(ControlKey::Subtract)
    } else if text::same_text(name, "Decimal") || text::same_text(name, "VK_DECIMAL") {
        Some(ControlKey::Decimal)
    } else if text::same_text(name, "Divide") || text::same_text(name, "VK_DIVIDE") {
        Some(ControlKey::Divide)
    } else if text::same_text(name, "CTRL_ALT_DEL") {
        Some(ControlKey::CtrlAltDel)
    } else if text::same_text(name, "LOCK_SCREEN") {
        Some(ControlKey::LockScreen)
    } else {
        None
    }
}

/// The key that a name stands for. A single character stands for itself and never
/// for a control key.
pub open spec fn named_key(name: Seq<char>) -> Option<ViewerKey> {
    if name.len() == 1 {
        Some(ViewerKey::Character(name[0] as u32))
    } else {
        match named_control(name) {
            Some(key) => Some(ViewerKey::Control(key)),
            None => None,
        }
    }
}

/// The key that a name stands for, if it stands for any.
pub fn legacy_key_name(name: &str) -> (r: Option<ViewerKey>)
    ensures
        r == named_key(name@),
{
    let chars = text::chars_of(name);
    if chars.len() == 1 {
        return Some(ViewerKey::Character(text::code_of(chars[0])));
    }
    match control_key_name(name) {
        Some(key) => Some(ViewerKey::Control(key)),
        None => None,
    }
}

/// The control key of a USB HID usage code.
pub open spec fn hid_control(usb_hid: u32) -> Option<ControlKey> {
    match usb_hid {
        0x28 => Some(ControlKey::Return),
        0x29 => Some(ControlKey::Escape),
        0x2a => Some(ControlKey::Backspace),
        0x2b => Some(ControlKey::Tab),
        0x39 => Some(ControlKey::CapsLock),
        0x3a => Some(ControlKey::F1),
        0x3b => Some(ControlKey::F2),
        0x3c => Some(ControlKey::F3),
        0x3d => Some(ControlKey::F4),
        0x3e => Some(ControlKey::F5),
        0x3f => Some(ControlKey::F6),
        0x40 => Some(ControlKey::F7),
        0x41 => Some(ControlKey::F8),
        0x42 => Some(ControlKey::F9),
        0x43 => Some(ControlKey::F10),
        0x44 => Some(ControlKey::F11),
        0x45 => Some(ControlKey::F12),
        0x48 => Some(ControlKey::Pause),
        0x49 => Some(ControlKey::Insert),
        0x4a => Some(ControlKey::Home),
        0x4b => Some(ControlKey::PageUp),
        0x4c => Some(ControlKey::Delete),
        0x4d => Some(ControlKey::End),
        0x4e => Some(ControlKey::PageDown),
        0x4f => Some(ControlKey::RightArrow),
        0x50 => Some(ControlKey::LeftArrow),
        0x51 => Some(ControlKey::DownArrow),
        0x52 => Some(ControlKey::UpArrow),
        0x53 => Some(ControlKey::NumLock),
        0x54 => Some(ControlKey::Divide),
        0x55 => Some(ControlKey::Multiply),
        0x56 => Some(ControlKey::Subtract),
        0x57 => Some(ControlKey::Add),
        0x58 => Some(ControlKey::NumpadEnter),
        0x59 => Some(ControlKey::Numpad1),
        0x5a => Some(ControlKey::Numpad2),
        0x5b => Some(ControlKey::Numpad3),
        0x5c => Some(ControlKey::Numpad4),
        0x5d => Some(ControlKey::Numpad5),
        0x5e => Some(ControlKey::Numpad6),
        0x5f => Some(ControlKey::Numpad7),
        0x60 => Some(ControlKey::Numpad8),
        0x61 => Some(ControlKey::Numpad9),
        0x62 => Some(ControlKey::Numpad0),
        0x63 => Some(ControlKey::Decimal),
        0x65 => Some(ControlKey::Apps),
        0x66 => Some(ControlKey::Power),
        0x67 => Some(ControlKey::Equals),
        0xe0 => Some(ControlKey::Control),
        0xe1 => Some(ControlKey::Shift),
        0xe2 => Some(ControlKey::Alt),
        0xe3 => Some(ControlKey::Meta),
        0xe4 => Some(ControlKey::RControl),
        0xe5 => Some(ControlKey::RShift),
        0xe6 => Some(ControlKey::RAlt),
        0xe7 => Some(ControlKey::RWin),
        _ => None,
    }
}

/// The character that the US layout gives a USB HID usage code: letters, then the
/// digits from one to nine and zero, then punctuation.
pub open spec fn us_layout(usb_hid: u32) -> Option<int> {
    if 0x04 <= usb_hid <= 0x1d {
        Some(97 + (usb_hid - 0x04))
    } else if 0x1e <= usb_hid <= 0x26 {
        Some(49 + (usb_hid - 0x1e))
    } else if usb_hid == 0x27 {
        Some('0' as int)
    } else if usb_hid == 0x2d {
        Some('-' as int)
    } else if usb_hid == 0x2e {
        Some('=' as int)
    } else if usb_hid == 0x2f {
        Some('[' as int)
    } else if usb_hid == 0x30 {
        Some(']' as int)
    } else if usb_hid == 0x31 {
        Some('\\' as int)
    } else if usb_hid == 0x33 {
        Some(';' as int)
    } else if usb_hid == 0x34 {
        Some('\'' as int)
    } else if usb_hid == 0x35 {
        Some('`' as int)
    } else if usb_hid == 0x36 {
        Some(',' as int)
    } else if usb_hid == 0x37 {
        Some('.' as int)
    } else if usb_hid == 0x38 {
        Some('/' as int)
    } else {
        None
    }
}

/// The key of a USB HID usage code with the character of its event, if that has
/// one. A control key counts first; then a character of one byte that is no control
/// character; then the US layout.
pub open spec fn hid_key(usb_hid: u32, character: Seq<char>) -> Option<ViewerKey> {
    match hid_control(usb_hid) {
        Some(key) => Some(ViewerKey::Control(key)),
        None => if vstd::utf8::encode_utf8(character).len() == 1 && !text::control(character[0]) {
            Some(ViewerKey::Character(character[0] as u32))
        } else {
            match us_layout(usb_hid) {
                Some(code) => Some(ViewerKey::Character(code as u32)),
                None => None,
            }
        },
    }
}

fn control_of_hid(usb_hid: u32) -> (r: Option<ControlKey>)
    ensures
        r == hid_control(usb_hid),
{
    match usb_hid {
        0x28 => Some(ControlKey::Return),
        0x29 => Some(ControlKey::Escape),
        0x2a => Some(ControlKey::Backspace),
        0x2b => Some(ControlKey::Tab),
        0x39 => Some(ControlKey::CapsLock),
        0x3a => Some(ControlKey::F1),
        0x3b => Some(ControlKey::F2),
        0x3c => Some(ControlKey::F3),
        0x3d => Some(ControlKey::F4),
        0x3e => Some(ControlKey::F5),
        0x3f => Some(ControlKey::F6),
        0x40 => Some(ControlKey::F7),
        0x41 => Some(ControlKey::F8),
        0x42 => Some(ControlKey::F9),
        0x43 => Some(ControlKey::F10),
        0x44 => Some(ControlKey::F11),
        0x45 => Some(ControlKey::F12),
        0x48 => Some(ControlKey::Pause),
        0x49 => Some(ControlKey::Insert),
        0x4a => Some(ControlKey::Home),
        0x4b => Some(ControlKey::PageUp),
        0x4c => Some(ControlKey::Delete),
        0x4d => Some(ControlKey::End),
        0x4e => Some(ControlKey::PageDown),
        0x4f => Some(ControlKey::RightArrow),
        0x50 => Some(ControlKey::LeftArrow),
        0x51 => Some(ControlKey::DownArrow),
        0x52 => Some(ControlKey::UpArrow),
        0x53 => Some(ControlKey::NumLock),
        0x54 => Some(ControlKey::Divide),
        0x55 => Some(ControlKey::Multiply),
        0x56 => Some(ControlKey::Subtract),
        0x57 => Some(ControlKey::Add),
        0x58 => Some(ControlKey::NumpadEnter),
        0x59 => Some(ControlKey::Numpad1),
        0x5a => Some(ControlKey::Numpad2),
        0x5b => Some(ControlKey::Numpad3),
        0x5c => Some(ControlKey::Numpad4),
        0x5d => Some(ControlKey::Numpad5),
        0x5e => Some(ControlKey::Numpad6),
        0x5f => Some(ControlKey::Numpad7),
        0x60 => Some(ControlKey::Numpad8),
        0x61 => Some(ControlKey::Numpad9),
        0x62 => Some(ControlKey::Numpad0),
        0x63 => Some(ControlKey::Decimal),
        0x65 => Some(ControlKey::Apps),
        0x66 => Some(ControlKey::Power),
        0x67 => Some(ControlKey::Equals),
        0xe0 => Some(ControlKey::Control),
        0xe1 => Some(ControlKey::Shift),
        0xe2 => Some(ControlKey::Alt),
        0xe3 => Some(ControlKey::Meta),
        0xe4 => Some(ControlKey::RControl),
        0xe5 => Some(ControlKey::RShift),
        0xe6 => Some(ControlKey::RAlt),
        0xe7 => Some(ControlKey::RWin),
        _ => None,
    }
}

fn us_character(usb_hid: u32) -> (r: Option<u32>)
    ensures
        r == (match us_layout(usb_hid) {
            Some(code) => Some(code as u32),
            None => None,
        }),
{
    if 0x04 <= usb_hid && usb_hid <= 0x1d {
        Some(97 + (usb_hid - 0x04))
    } else if 0x1e <= usb_hid && usb_hid <= 0x26 {
        Some(49 + (usb_hid - 0x1e))
    } else if usb_hid == 0x27 {
        Some('0' as u32)
    } else if usb_hid == 0x2d {
        Some('-' as u32)
    } else if usb_hid == 0x2e {
        Some('=' as u32)
    } else if usb_hid == 0x2f {
        Some('[' as u32)
    } else if usb_hid == 0x30 {
        Some(']' as u32)
    } else if usb_hid == 0x31 {
        Some('\\' as u32)
    } else if usb_hid == 0x33 {
        Some(';' as u32)
    } else if usb_hid == 0x34 {
        Some('\'' as u32)
    } else if usb_hid == 0x35 {
        Some('`' as u32)
    } else if usb_hid == 0x36 {
        Some(',' as u32)
    } else if usb_hid == 0x37 {
        Some('.' as u32)
    } else if usb_hid == 0x38 {
        Some('/' as u32)
    } else {
        None
    }
}

/// The key of a USB HID usage code with the character of its event.
pub fn usb_hid_key(usb_hid: u32, character: &str) -> (r: Option<ViewerKey>)
    ensures
        r == hid_key(usb_hid, character@),
{
    if let Some(key) = control_of_hid(usb_hid) {
        return Some(ViewerKey::Control(key));
    }
    if text::byte_len(character) == 1 {
        assert(character@.len() > 0) by {
            reveal_with_fuel(vstd::utf8::encode_utf8, 1);
        }
        let chars = text::chars_of(character);
        if !text::is_control(chars[0]) {
            return Some(ViewerKey::Character(text::code_of(chars[0])));
        }
    }
    match us_character(usb_hid) {
        Some(code) => Some(ViewerKey::Character(code)),
        None => None,
    }
}

/// The character of an event is what is sent, whatever the layout of the keyboard;
/// only codes that have no control key get that far.
pub proof fn lemma_event_character_wins(usb_hid: u32, c: char)
    requires
        hid_control(usb_hid) is None,
        vstd::utf8::encode_utf8(seq![c]).len() == 1,
        !text::control(c),
    ensures
        hid_key(usb_hid, seq![c]) == Some(ViewerKey::Character(c as u32)),
{
}

} // verus!

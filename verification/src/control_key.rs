//! Control keys of the protocol.
use vstd::prelude::*;

verus! {

/// A control key of the protocol.
#[derive(Debug, Clone, Copy, PartialEq, Eq, Structural)]
pub enum ControlKey {
    Unknown,
    Alt,
    Backspace,
    CapsLock,
    Control,
    Delete,
    DownArrow,
    End,
    Escape,
    F1,
    F2,
    F3,
    F4,
    F5,
    F6,
    F7,
    F8,
    F9,
    F10,
    F11,
    F12,
    Home,
    LeftArrow,
    Meta,
    OptionKey,
    Menu,
    PageDown,
    PageUp,
    Return,
    RightArrow,
    Shift,
    Space,
    Tab,
    UpArrow,
    Numpad0,
    Numpad1,
    Numpad2,
    Numpad3,
    Numpad4,
    Numpad5,
    Numpad6,
    Numpad7,
    Numpad8,
    Numpad9,
    NumpadEnter,
    Cancel,
    Clear,
    Pause,
    Kana,
    Convert,
    Hangul,
    Junja,
    Final,
    Hanja,
    Kanji,
    Select,
    Print,
    Snapshot,
    Execute,
    Insert,
    Help,
    Sleep,
    Separator,
    Scroll,
    NumLock,
    RWin,
    Apps,
    Multiply,
    Add,
    Subtract,
    Decimal,
    Divide,
    Equals,
    RShift,
    RControl,
    RAlt,
    VolumeMute,
    VolumeUp,
    VolumeDown,
    Power,
    CtrlAltDel,
    LockScreen,
}

impl ControlKey {
    /// The name of this key.
    pub open spec fn name(self) -> Seq<char> {
        match self {
            ControlKey::Unknown => "Unknown"@,
            ControlKey::Alt => "Alt"@,
            ControlKey::Backspace => "Backspace"@,
            ControlKey::CapsLock => "CapsLock"@,
            ControlKey::Control => "Control"@,
            ControlKey::Delete => "Delete"@,
            ControlKey::DownArrow => "DownArrow"@,
            ControlKey::End => "End"@,
            ControlKey::Escape => "Escape"@,
            ControlKey::F1 => "F1"@,
            ControlKey::F2 => "F2"@,
            ControlKey::F3 => "F3"@,
            ControlKey::F4 => "F4"@,
            ControlKey::F5 => "F5"@,
            ControlKey::F6 => "F6"@,
            ControlKey::F7 => "F7"@,
            ControlKey::F8 => "F8"@,
            ControlKey::F9 => "F9"@,
            ControlKey::F10 => "F10"@,
            ControlKey::F11 => "F11"@,
            ControlKey::F12 => "F12"@,
            ControlKey::Home => "Home"@,
            ControlKey::LeftArrow => "LeftArrow"@,
            ControlKey::Meta => "Meta"@,
            ControlKey::OptionKey => "Option"@,
            ControlKey::Menu => "Menu"@,
            ControlKey::PageDown => "PageDown"@,
            ControlKey::PageUp => "PageUp"@,
            ControlKey::Return => "Return"@,
            ControlKey::RightArrow => "RightArrow"@,
            ControlKey::Shift => "Shift"@,
            ControlKey::Space => "Space"@,
            ControlKey::Tab => "Tab"@,
            ControlKey::UpArrow => "UpArrow"@,
            ControlKey::Numpad0 => "Numpad0"@,
            ControlKey::Numpad1 => "Numpad1"@,
            ControlKey::Numpad2 => "Numpad2"@,
            ControlKey::Numpad3 => "Numpad3"@,
            ControlKey::Numpad4 => "Numpad4"@,
            ControlKey::Numpad5 => "Numpad5"@,
            ControlKey::Numpad6 => "Numpad6"@,
            ControlKey::Numpad7 => "Numpad7"@,
            ControlKey::Numpad8 => "Numpad8"@,
            ControlKey::Numpad9 => "Numpad9"@,
            ControlKey::NumpadEnter => "NumpadEnter"@,
            ControlKey::Cancel => "Cancel"@,
            ControlKey::Clear => "Clear"@,
            ControlKey::Pause => "Pause"@,
            ControlKey::Kana => "Kana"@,
            ControlKey::Convert => "Convert"@,
            ControlKey::Hangul => "Hangul"@,
            ControlKey::Junja => "Junja"@,
            ControlKey::Final => "Final"@,
            ControlKey::Hanja => "Hanja"@,
            ControlKey::Kanji => "Kanji"@,
            ControlKey::Select => "Select"@,
            ControlKey::Print => "Print"@,
            ControlKey::Snapshot => "Snapshot"@,
            ControlKey::Execute => "Execute"@,
            ControlKey::Insert => "Insert"@,
            ControlKey::Help => "Help"@,
            ControlKey::Sleep => "Sleep"@,
            ControlKey::Separator => "Separator"@,
            ControlKey::Scroll => "Scroll"@,
            ControlKey::NumLock => "NumLock"@,
            ControlKey::RWin => "RWin"@,
            ControlKey::Apps => "Apps"@,
            ControlKey::Multiply => "Multiply"@,
            ControlKey::Add => "Add"@,
            ControlKey::Subtract => "Subtract"@,
            ControlKey::Decimal => "Decimal"@,
            ControlKey::Divide => "Divide"@,
            ControlKey::Equals => "Equals"@,
            ControlKey::RShift => "RShift"@,
            ControlKey::RControl => "RControl"@,
            ControlKey::RAlt => "RAlt"@,
            ControlKey::VolumeMute => "VolumeMute"@,
            ControlKey::VolumeUp => "VolumeUp"@,
            ControlKey::VolumeDown => "VolumeDown"@,
            ControlKey::Power => "Power"@,
            ControlKey::CtrlAltDel => "CtrlAltDel"@,
            ControlKey::LockScreen => "LockScreen"@,
        }
    }

    /// The name of this key.
    pub fn label(self) -> (r: &'static str)
        ensures
            r@ == self.name(),
    {
        match self {
            ControlKey::Unknown => "Unknown",
            ControlKey::Alt => "Alt",
            ControlKey::Backspace => "Backspace",
            ControlKey::CapsLock => "CapsLock",
            ControlKey::Control => "Control",
            ControlKey::Delete => "Delete",
            ControlKey::DownArrow => "DownArrow",
            ControlKey::End => "End",
            ControlKey::Escape => "Escape",
            ControlKey::F1 => "F1",
            ControlKey::F2 => "F2",
            ControlKey::F3 => "F3",
            ControlKey::F4 => "F4",
            ControlKey::F5 => "F5",
            ControlKey::F6 => "F6",
            ControlKey::F7 => "F7",
            ControlKey::F8 => "F8",
            ControlKey::F9 => "F9",
            ControlKey::F10 => "F10",
            ControlKey::F11 => "F11",
            ControlKey::F12 => "F12",
            ControlKey::Home => "Home",
            ControlKey::LeftArrow => "LeftArrow",
            ControlKey::Meta => "Meta",
            ControlKey::OptionKey => "Option",
            ControlKey::Menu => "Menu",
            ControlKey::PageDown => "PageDown",
            ControlKey::PageUp => "PageUp",
            ControlKey::Return => "Return",
            ControlKey::RightArrow => "RightArrow",
            ControlKey::Shift => "Shift",
            ControlKey::Space => "Space",
            ControlKey::Tab => "Tab",
            ControlKey::UpArrow => "UpArrow",
            ControlKey::Numpad0 => "Numpad0",
            ControlKey::Numpad1 => "Numpad1",
            ControlKey::Numpad2 => "Numpad2",
            ControlKey::Numpad3 => "Numpad3",
            ControlKey::Numpad4 => "Numpad4",
            ControlKey::Numpad5 => "Numpad5",
            ControlKey::Numpad6 => "Numpad6",
            ControlKey::Numpad7 => "Numpad7",
            ControlKey::Numpad8 => "Numpad8",
            ControlKey::Numpad9 => "Numpad9",
            ControlKey::NumpadEnter => "NumpadEnter",
            ControlKey::Cancel => "Cancel",
            ControlKey::Clear => "Clear",
            ControlKey::Pause => "Pause",
            ControlKey::Kana => "Kana",
            ControlKey::Convert => "Convert",
            ControlKey::Hangul => "Hangul",
            ControlKey::Junja => "Junja",
            ControlKey::Final => "Final",
            ControlKey::Hanja => "Hanja",
            ControlKey::Kanji => "Kanji",
            ControlKey::Select => "Select",
            ControlKey::Print => "Print",
            ControlKey::Snapshot => "Snapshot",
            ControlKey::Execute => "Execute",
            ControlKey::Insert => "Insert",
            ControlKey::Help => "Help",
            ControlKey::Sleep => "Sleep",
            ControlKey::Separator => "Separator",
            ControlKey::Scroll => "Scroll",
            ControlKey::NumLock => "NumLock",
            ControlKey::RWin => "RWin",
            ControlKey::Apps => "Apps",
            ControlKey::Multiply => "Multiply",
            ControlKey::Add => "Add",
            ControlKey::Subtract => "Subtract",
            ControlKey::Decimal => "Decimal",
            ControlKey::Divide => "Divide",
            ControlKey::Equals => "Equals",
            ControlKey::RShift => "RShift",
            ControlKey::RControl => "RControl",
            ControlKey::RAlt => "RAlt",
            ControlKey::VolumeMute => "VolumeMute",
            ControlKey::VolumeUp => "VolumeUp",
            ControlKey::VolumeDown => "VolumeDown",
            ControlKey::Power => "Power",
            ControlKey::CtrlAltDel => "CtrlAltDel",
            ControlKey::LockScreen => "LockScreen",
        }
    }
}

} // verus!

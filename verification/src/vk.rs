//! Windows virtual-key codes, with the values of the documented `VK_*` constants.
use vstd::prelude::*;

verus! {

pub const BACK: u16 = 0x08;

pub const TAB: u16 = 0x09;

pub const CLEAR: u16 = 0x0c;

pub const RETURN: u16 = 0x0d;

pub const SHIFT: u16 = 0x10;

pub const CONTROL: u16 = 0x11;

pub const MENU: u16 = 0x12;

pub const PAUSE: u16 = 0x13;

pub const CAPITAL: u16 = 0x14;

pub const KANA: u16 = 0x15;

pub const HANGEUL: u16 = 0x15;

pub const JUNJA: u16 = 0x17;

pub const FINAL: u16 = 0x18;

pub const HANJA: u16 = 0x19;

pub const KANJI: u16 = 0x19;

pub const ESCAPE: u16 = 0x1b;

pub const SPACE: u16 = 0x20;

pub const PRIOR: u16 = 0x21;

pub const NEXT: u16 = 0x22;

pub const END: u16 = 0x23;

pub const HOME: u16 = 0x24;

pub const LEFT: u16 = 0x25;

pub const UP: u16 = 0x26;

pub const RIGHT: u16 = 0x27;

pub const DOWN: u16 = 0x28;

pub const SELECT: u16 = 0x29;

pub const PRINT: u16 = 0x2a;

pub const EXECUTE: u16 = 0x2b;

pub const SNAPSHOT: u16 = 0x2c;

pub const INSERT: u16 = 0x2d;

pub const DELETE: u16 = 0x2e;

pub const HELP: u16 = 0x2f;

pub const LWIN: u16 = 0x5b;

pub const RWIN: u16 = 0x5c;

pub const APPS: u16 = 0x5d;

pub const SLEEP: u16 = 0x5f;

pub const NUMPAD0: u16 = 0x60;

pub const NUMPAD1: u16 = 0x61;

pub const NUMPAD2: u16 = 0x62;

pub const NUMPAD3: u16 = 0x63;

pub const NUMPAD4: u16 = 0x64;

pub const NUMPAD5: u16 = 0x65;

pub const NUMPAD6: u16 = 0x66;

pub const NUMPAD7: u16 = 0x67;

pub const NUMPAD8: u16 = 0x68;

pub const NUMPAD9: u16 = 0x69;

pub const MULTIPLY: u16 = 0x6a;

pub const ADD: u16 = 0x6b;

pub const SEPARATOR: u16 = 0x6c;

pub const SUBTRACT: u16 = 0x6d;

pub const DECIMAL: u16 = 0x6e;

pub const DIVIDE: u16 = 0x6f;

pub const F1: u16 = 0x70;

pub const F2: u16 = 0x71;

pub const F3: u16 = 0x72;

pub const F4: u16 = 0x73;

pub const F5: u16 = 0x74;

pub const F6: u16 = 0x75;

pub const F7: u16 = 0x76;

pub const F8: u16 = 0x77;

pub const F9: u16 = 0x78;

pub const F10: u16 = 0x79;

pub const F11: u16 = 0x7a;

pub const F12: u16 = 0x7b;

pub const NUMLOCK: u16 = 0x90;

pub const SCROLL: u16 = 0x91;

pub const LSHIFT: u16 = 0xa0;

pub const RSHIFT: u16 = 0xa1;

pub const LCONTROL: u16 = 0xa2;

pub const RCONTROL: u16 = 0xa3;

pub const LMENU: u16 = 0xa4;

pub const RMENU: u16 = 0xa5;

pub const OEM_NEC_EQUAL: u16 = 0x92;

pub const VOLUME_MUTE: u16 = 0xad;

pub const VOLUME_DOWN: u16 = 0xae;

pub const VOLUME_UP: u16 = 0xaf;

} // verus!

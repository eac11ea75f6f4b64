//! Input injection on Windows: which records an action turns into.
//!
//! Injection is armed only by an explicit local option. Secure attention sequences,
//! which the system refuses, are refused here and never mapped to something else. A
//! batch that the system takes only in part leaves a stuck key or button, so that
//! is an error and not tried again.
use vstd::prelude::*;
use crate::bytes;
use crate::control_key::ControlKey;
use crate::input;
use crate::input::{
    KeyAction, MAX_TEXT_BYTES, MouseAction, MouseButton, normalize_absolute, windows_virtual_key,
};
use crate::text;

verus! {

/// Most records in one batch.
pub const MAX_RECORDS_PER_SEND: usize = 256;

pub const MOUSEEVENTF_MOVE: u32 = 0x0001;

pub const MOUSEEVENTF_LEFTDOWN: u32 = 0x0002;

pub const MOUSEEVENTF_LEFTUP: u32 = 0x0004;

pub const MOUSEEVENTF_RIGHTDOWN: u32 = 0x0008;

pub const MOUSEEVENTF_RIGHTUP: u32 = 0x0010;

pub const MOUSEEVENTF_MIDDLEDOWN: u32 = 0x0020;

pub const MOUSEEVENTF_MIDDLEUP: u32 = 0x0040;

pub const MOUSEEVENTF_XDOWN: u32 = 0x0080;

pub const MOUSEEVENTF_XUP: u32 = 0x0100;

pub const MOUSEEVENTF_WHEEL: u32 = 0x0800;

pub const MOUSEEVENTF_HWHEEL: u32 = 0x1000;

pub const MOUSEEVENTF_VIRTUALDESK: u32 = 0x4000;

pub const MOUSEEVENTF_ABSOLUTE: u32 = 0x8000;

/// A move to a point of the whole virtual desktop: the flags `MOVE`, `ABSOLUTE` and
/// `VIRTUALDESK`, which share no bit.
pub const MOVE_ON_DESKTOP: u32 = MOUSEEVENTF_MOVE + MOUSEEVENTF_ABSOLUTE + MOUSEEVENTF_VIRTUALDESK;

pub const XBUTTON1: u32 = 1;

pub const XBUTTON2: u32 = 2;

pub const KEYEVENTF_KEYUP: u32 = 0x0002;

pub const KEYEVENTF_UNICODE: u32 = 0x0004;

/// A UTF-16 unit going up: the flags `UNICODE` and `KEYUP`.
pub const UNICODE_UP: u32 = KEYEVENTF_UNICODE + KEYEVENTF_KEYUP;

/// Why something is not injected.
#[derive(Debug, Clone, Copy, PartialEq, Eq, Structural)]
pub enum InjectError {
    /// Injection is not armed by local policy.
    NotArmed,
    /// The action cannot be injected.
    Unsupported,
    /// The system refused part or all of the input.
    Rejected,
    /// The payload exceeds what one injection may carry.
    TooLarge,
}

/// One record of injected input.
#[derive(Debug, Clone, Copy, PartialEq, Eq, Structural)]
pub enum InputRecord {
    Mouse { flags: u32, dx: i32, dy: i32, data: u32 },
    Key { vk: u16, scan: u16, flags: u32 },
}

/// The virtual desktop in physical pixels.
#[derive(Debug, Clone, Copy, PartialEq, Eq, Structural)]
pub struct VirtualDesktop {
    pub x: i32,
    pub y: i32,
    pub width: i32,
    pub height: i32,
}

/// The flags and the data of a button.
pub open spec fn flags_of(button: MouseButton, down: bool) -> (u32, u32) {
    match button {
        MouseButton::Left => if down {
            (MOUSEEVENTF_LEFTDOWN, 0)
        } else {
            (MOUSEEVENTF_LEFTUP, 0)
        },
        MouseButton::Right => if down {
            (MOUSEEVENTF_RIGHTDOWN, 0)
        } else {
            (MOUSEEVENTF_RIGHTUP, 0)
        },
        MouseButton::Middle => if down {
            (MOUSEEVENTF_MIDDLEDOWN, 0)
        } else {
            (MOUSEEVENTF_MIDDLEUP, 0)
        },
        MouseButton::Back => if down {
            (MOUSEEVENTF_XDOWN, XBUTTON1)
        } else {
            (MOUSEEVENTF_XUP, XBUTTON1)
        },
        MouseButton::Forward => if down {
            (MOUSEEVENTF_XDOWN, XBUTTON2)
        } else {
            (MOUSEEVENTF_XUP, XBUTTON2)
        },
    }
}

/// The flags and the data of a button.
pub fn button_flags(button: MouseButton, down: bool) -> (r: (u32, u32))
    ensures
        r == flags_of(button, down),
{
    match button {
        MouseButton::Left => if down {
            (MOUSEEVENTF_LEFTDOWN, 0)
        } else {
            (MOUSEEVENTF_LEFTUP, 0)
        },
        MouseButton::Right => if down {
            (MOUSEEVENTF_RIGHTDOWN, 0)
        } else {
            (MOUSEEVENTF_RIGHTUP, 0)
        },
        MouseButton::Middle => if down {
            (MOUSEEVENTF_MIDDLEDOWN, 0)
        } else {
            (MOUSEEVENTF_MIDDLEUP, 0)
        },
        MouseButton::Back => if down {
            (MOUSEEVENTF_XDOWN, XBUTTON1)
        } else {
            (MOUSEEVENTF_XUP, XBUTTON1)
        },
        MouseButton::Forward => if down {
            (MOUSEEVENTF_XDOWN, XBUTTON2)
        } else {
            (MOUSEEVENTF_XUP, XBUTTON2)
        },
    }
}

/// A wheel step on one axis; the data is the two's complement of the step.
pub open spec fn wheel_record(flags: u32, step: i32) -> InputRecord {
    InputRecord::Mouse { flags, dx: 0, dy: 0, data: bytes::complement32(step as int) as u32 }
}

/// The records of a pointer action on a desktop. One record carries one wheel axis,
/// so a step on both axes takes two.
pub open spec fn mouse_records(action: MouseAction, desktop: VirtualDesktop) -> Seq<InputRecord> {
    match action {
        MouseAction::MoveAbsolute { x, y } => seq![
            InputRecord::Mouse {
                flags: MOVE_ON_DESKTOP,
                dx: input::scaled(x as int, desktop.x as int, desktop.width as int) as i32,
                dy: input::scaled(y as int, desktop.y as int, desktop.height as int) as i32,
                data: 0,
            },
        ],
        MouseAction::MoveRelative { dx, dy } => seq![
            InputRecord::Mouse { flags: MOUSEEVENTF_MOVE, dx, dy, data: 0 },
        ],
        MouseAction::ButtonDown(button) => seq![
            InputRecord::Mouse {
                flags: flags_of(button, true).0,
                dx: 0,
                dy: 0,
                data: flags_of(button, true).1,
            },
        ],
        MouseAction::ButtonUp(button) => seq![
            InputRecord::Mouse {
                flags: flags_of(button, false).0,
                dx: 0,
                dy: 0,
                data: flags_of(button, false).1,
            },
        ],
        MouseAction::Wheel { dx, dy } => if dx != 0 && dy != 0 {
            seq![wheel_record(MOUSEEVENTF_HWHEEL, dx), wheel_record(MOUSEEVENTF_WHEEL, dy)]
        } else if dx != 0 {
            seq![wheel_record(MOUSEEVENTF_HWHEEL, dx)]
        } else {
            seq![wheel_record(MOUSEEVENTF_WHEEL, dy)]
        },
    }
}

/// Why a pointer action is not injected, if it is not. Without an interactive
/// desktop an absolute move fails instead of aiming at a corner.
pub open spec fn mouse_refusal(
    armed: bool,
    action: MouseAction,
    desktop: VirtualDesktop,
) -> Option<InjectError> {
    if !armed {
        Some(InjectError::NotArmed)
    } else if action is MoveAbsolute && (desktop.width <= 0 || desktop.height <= 0) {
        Some(InjectError::Unsupported)
    } else {
        None
    }
}

fn complement(v: i32) -> (r: u32)
    ensures
        r == bytes::complement32(v as int),
{
    if v < 0 {
        (v as i64 + 0x1_0000_0000) as u32
    } else {
        v as u32
    }
}

fn wheel(flags: u32, step: i32) -> (r: InputRecord)
    ensures
        r == wheel_record(flags, step),
{
    InputRecord::Mouse { flags, dx: 0, dy: 0, data: complement(step) }
}

/// The records of one pointer action, or why it is refused.
pub fn inject_mouse(armed: bool, action: MouseAction, desktop: VirtualDesktop) -> (r: Result<
    Vec<InputRecord>,
    InjectError,
>)
    ensures
        match r {
            Ok(records) => mouse_refusal(armed, action, desktop) is None && records@
                == mouse_records(action, desktop),
            Err(error) => mouse_refusal(armed, action, desktop) == Some(error),
        },
{
    if !armed {
        return Err(InjectError::NotArmed);
    }
    let mut records: Vec<InputRecord> = Vec::new();
    match action {
        MouseAction::MoveAbsolute { x, y } => {
            if desktop.width <= 0 || desktop.height <= 0 {
                return Err(InjectError::Unsupported);
            }
            let (dx, dy) = normalize_absolute(
                x,
                y,
                desktop.x,
                desktop.y,
                desktop.width,
                desktop.height,
            );
            records.push(InputRecord::Mouse { flags: MOVE_ON_DESKTOP, dx, dy, data: 0 });
        },
        MouseAction::MoveRelative { dx, dy } => {
            records.push(InputRecord::Mouse { flags: MOUSEEVENTF_MOVE, dx, dy, data: 0 });
        },
        MouseAction::ButtonDown(button) => {
            let (flags, data) = button_flags(button, true);
            records.push(InputRecord::Mouse { flags, dx: 0, dy: 0, data });
        },
        MouseAction::ButtonUp(button) => {
            let (flags, data) = button_flags(button, false);
            records.push(InputRecord::Mouse { flags, dx: 0, dy: 0, data });
        },
        MouseAction::Wheel { dx, dy } => {
            if dx != 0 {
                records.push(wheel(MOUSEEVENTF_HWHEEL, dx));
            }
            if dx == 0 || dy != 0 {
                records.push(wheel(MOUSEEVENTF_WHEEL, dy));
            }
        },
    }
    assert(records@ =~= mouse_records(action, desktop));
    Ok(records)
}

/// The UTF-16 units of a character: one, or a surrogate pair.
pub open spec fn units_of(c: char) -> Seq<u16> {
    let code = c as int;
    if code < 0x10000 {
        seq![code as u16]
    } else {
        seq![
            (0xd800 + (code - 0x10000) / 0x400) as u16,
            (0xdc00 + (code - 0x10000) % 0x400) as u16,
        ]
    }
}

/// The UTF-16 units of a text.
pub open spec fn utf16(s: Seq<char>) -> Seq<u16>
    decreases s.len(),
{
    if s.len() == 0 {
        Seq::empty()
    } else {
        utf16(s.drop_last()) + units_of(s.last())
    }
}

/// The UTF-16 units of a text.
pub fn utf16_units(s: &str) -> (r: Vec<u16>)
    ensures
        r@ == utf16(s@),
{
    let chars = text::chars_of(s);
    let mut units: Vec<u16> = Vec::new();
    let mut i: usize = 0;
    while i < chars.len()
        invariant
            i <= chars@.len(),
            units@ == utf16(chars@.take(i as int)),
        decreases chars@.len() - i,
    {
        let code: u32 = text::code_of(chars[i]);
        proof {
            assert(chars@.take(i + 1).drop_last() =~= chars@.take(i as int));
        }
        if code < 0x10000 {
            units.push(code as u16);
        } else {
            proof {
                lemma_scalar(chars@[i as int]);
            }
            units.push((0xd800 + (code - 0x10000) / 0x400) as u16);
            units.push((0xdc00 + (code - 0x10000) % 0x400) as u16);
        }
        assert(units@ =~= utf16(chars@.take(i + 1)));
        i = i + 1;
    }
    assert(chars@.take(i as int) =~= s@);
    units
}

/// A character is at most the largest scalar value.
proof fn lemma_scalar(c: char)
    ensures
        c as int <= 0x10ffff,
{
}

/// A UTF-16 unit typed: down, then up.
pub open spec fn typed_unit(unit: u16) -> Seq<InputRecord> {
    seq![
        InputRecord::Key { vk: 0, scan: unit, flags: KEYEVENTF_UNICODE },
        InputRecord::Key { vk: 0, scan: unit, flags: UNICODE_UP },
    ]
}

/// UTF-16 units typed one after the other.
pub open spec fn typed(units: Seq<u16>) -> Seq<InputRecord>
    decreases units.len(),
{
    if units.len() == 0 {
        Seq::empty()
    } else {
        typed(units.drop_last()) + typed_unit(units.last())
    }
}

/// `records` cut into batches of the largest size, the last one as long as is left.
pub open spec fn batches(records: Seq<InputRecord>) -> Seq<Seq<InputRecord>>
    decreases records.len(),
{
    if records.len() == 0 {
        Seq::empty()
    } else if records.len() <= MAX_RECORDS_PER_SEND {
        seq![records]
    } else {
        seq![records.take(MAX_RECORDS_PER_SEND as int)] + batches(
            records.skip(MAX_RECORDS_PER_SEND as int),
        )
    }
}

/// The batches as sequences.
pub open spec fn batch_views(v: Seq<Vec<InputRecord>>) -> Seq<Seq<InputRecord>> {
    Seq::new(v.len(), |i: int| v[i]@)
}

fn in_batches(records: &Vec<InputRecord>) -> (r: Vec<Vec<InputRecord>>)
    ensures
        batch_views(r@) == batches(records@),
{
    let mut out: Vec<Vec<InputRecord>> = Vec::new();
    let mut at: usize = 0;
    proof {
        assert(records@.skip(0) =~= records@);
        assert(batch_views(out@) =~= Seq::<Seq<InputRecord>>::empty());
        assert(batch_views(out@) + batches(records@.skip(0)) =~= batches(records@));
    }
    while at < records.len()
        invariant
            at <= records@.len(),
            batch_views(out@) + batches(records@.skip(at as int)) == batches(records@),
        decreases records@.len() - at,
    {
        let left: usize = records.len() - at;
        let size: usize = if left > MAX_RECORDS_PER_SEND {
            MAX_RECORDS_PER_SEND
        } else {
            left
        };
        let batch = vstd::slice::slice_to_vec(
            vstd::slice::slice_subrange(records.as_slice(), at, at + size),
        );
        let ghost rest = records@.skip(at as int);
        let ghost before = batch_views(out@);
        proof {
            assert(batch@ =~= rest.take(size as int));
            assert(records@.skip(at + size) =~= rest.skip(size as int));
        }
        out.push(batch);
        proof {
            assert(batch_views(out@) =~= before.push(batch@));
            if left <= MAX_RECORDS_PER_SEND {
                assert(rest.take(size as int) =~= rest);
                assert(rest.skip(size as int) =~= Seq::<InputRecord>::empty());
                assert(batches(rest) =~= seq![batch@]);
            }
            assert(batch_views(out@) + batches(rest.skip(size as int)) =~= before + batches(rest));
        }
        at = at + size;
    }
    proof {
        assert(records@.skip(at as int) =~= Seq::<InputRecord>::empty());
        assert(batch_views(out@) + batches(records@.skip(at as int)) =~= batch_views(out@));
    }
    out
}

/// Types a whole text, in batches to be sent in their order. A text of more UTF-16
/// units than one injection may carry is refused; an empty one is nothing to send.
pub fn inject_text(s: &str) -> (r: Result<Vec<Vec<InputRecord>>, InjectError>)
    ensures
        match r {
            Ok(sent) => utf16(s@).len() <= MAX_TEXT_BYTES && batch_views(sent@) == batches(
                typed(utf16(s@)),
            ),
            Err(error) => utf16(s@).len() > MAX_TEXT_BYTES && error == InjectError::TooLarge,
        },
{
    let units = utf16_units(s);
    if units.len() > MAX_TEXT_BYTES {
        return Err(InjectError::TooLarge);
    }
    let mut records: Vec<InputRecord> = Vec::new();
    let mut i: usize = 0;
    while i < units.len()
        invariant
            i <= units@.len(),
            records@ == typed(units@.take(i as int)),
        decreases units@.len() - i,
    {
        let unit: u16 = units[i];
        records.push(InputRecord::Key { vk: 0, scan: unit, flags: KEYEVENTF_UNICODE });
        records.push(InputRecord::Key { vk: 0, scan: unit, flags: UNICODE_UP });
        proof {
            assert(units@.take(i + 1).drop_last() =~= units@.take(i as int));
            assert(records@ =~= typed(units@.take(i as int)) + typed_unit(unit));
        }
        i = i + 1;
    }
    assert(units@.take(i as int) =~= units@);
    Ok(in_batches(&records))
}

/// The records of a single character: one for a UTF-16 unit, and a typed pair going
/// down for a character that takes two, whose way up is already covered there.
pub open spec fn character_records(c: char, down: bool) -> Seq<InputRecord> {
    if c as int > 0xffff {
        if down {
            typed(utf16(seq![c]))
        } else {
            Seq::empty()
        }
    } else {
        seq![
            InputRecord::Key {
                vk: 0,
                scan: c as u16,
                flags: if down {
                    KEYEVENTF_UNICODE
                } else {
                    UNICODE_UP
                },
            },
        ]
    }
}

/// Injects a single character.
pub fn inject_character(character: char, down: bool) -> (r: Vec<Vec<InputRecord>>)
    ensures
        batch_views(r@) == batches(character_records(character, down)),
{
    let code: u32 = text::code_of(character);
    let mut records: Vec<InputRecord> = Vec::new();
    if code > 0xffff {
        if down {
            let mut s = String::new();
            s.push(character);
            assert(s@ =~= seq![character]);
            proof {
                assert(s@.drop_last() =~= Seq::<char>::empty());
                assert(utf16(s@.drop_last()) =~= Seq::<u16>::empty());
                assert(utf16(s@) == utf16(s@.drop_last()) + units_of(s@.last()));
                assert(utf16(s@).len() <= 2);
            }
            if let Ok(sent) = inject_text(s.as_str()) {
                return sent;
            }
        }
    } else {
        let flags: u32 = if down {
            KEYEVENTF_UNICODE
        } else {
            UNICODE_UP
        };
        records.push(InputRecord::Key { vk: 0, scan: code as u16, flags });
    }
    assert(records@ =~= character_records(character, down));
    in_batches(&records)
}

/// The records of a key action, or why it is refused.
pub open spec fn key_records(action: input::KeyActionView) -> Result<Seq<InputRecord>, InjectError> {
    match action {
        input::KeyActionView::Text(s) => if utf16(s).len() <= MAX_TEXT_BYTES {
            Ok(typed(utf16(s)))
        } else {
            Err(InjectError::TooLarge)
        },
        input::KeyActionView::Character { character, down } => Ok(
            character_records(character, down),
        ),
        input::KeyActionView::Control { key, down } => match input::virtual_key(key) {
            Some(vk) => Ok(
                seq![
                    InputRecord::Key {
                        vk,
                        scan: 0,
                        flags: if down {
                            0
                        } else {
                            KEYEVENTF_KEYUP
                        },
                    },
                ],
            ),
            None => Err(InjectError::Unsupported),
        },
    }
}

/// Injects one key action, in batches to be sent in their order.
pub fn inject_key(armed: bool, action: &KeyAction) -> (r: Result<
    Vec<Vec<InputRecord>>,
    InjectError,
>)
    ensures
        match r {
            Ok(sent) => armed && key_records(action@) is Ok && batch_views(sent@) == batches(
                key_records(action@)->Ok_0,
            ),
            Err(error) => if armed {
                key_records(action@) == Err::<Seq<InputRecord>, InjectError>(error)
            } else {
                error == InjectError::NotArmed
            },
        },
{
    if !armed {
        return Err(InjectError::NotArmed);
    }
    match action {
        KeyAction::Text(s) => inject_text(s.as_str()),
        KeyAction::Character { character, down } => Ok(inject_character(*character, *down)),
        KeyAction::Control { key, down } => {
            match windows_virtual_key(*key) {
                None => Err(InjectError::Unsupported),
                Some(vk) => {
                    let flags: u32 = if *down {
                        0
                    } else {
                        KEYEVENTF_KEYUP
                    };
                    let mut records: Vec<InputRecord> = Vec::new();
                    records.push(InputRecord::Key { vk, scan: 0, flags });
                    assert(records@ =~= seq![InputRecord::Key { vk, scan: 0, flags }]);
                    Ok(in_batches(&records))
                },
            }
        },
    }
}

/// The result of sending a batch of `records` records of which the system took
/// `taken`.
pub fn send(records: usize, taken: usize) -> (r: Result<(), InjectError>)
    ensures
        r == (if records == 0 {
            Ok(())
        } else if records > MAX_RECORDS_PER_SEND {
            Err(InjectError::TooLarge)
        } else if taken == records {
            Ok(())
        } else {
            Err(InjectError::Rejected)
        }),
{
    if records == 0 {
        return Ok(());
    }
    if records > MAX_RECORDS_PER_SEND {
        return Err(InjectError::TooLarge);
    }
    if taken == records {
        Ok(())
    } else {
        Err(InjectError::Rejected)
    }
}

/// No batch is empty or too large for one call.
pub proof fn lemma_batches_fit(records: Seq<InputRecord>, i: int)
    requires
        0 <= i < batches(records).len(),
    ensures
        0 < batches(records)[i].len() <= MAX_RECORDS_PER_SEND,
    decreases records.len(),
{
    if records.len() > MAX_RECORDS_PER_SEND && i > 0 {
        lemma_batches_fit(records.skip(MAX_RECORDS_PER_SEND as int), i - 1);
    }
}

/// Nothing is lost or reordered by cutting records into batches.
pub proof fn lemma_batches_are_complete(records: Seq<InputRecord>)
    ensures
        batches(records).flatten() == records,
    decreases records.len(),
{
    let n = MAX_RECORDS_PER_SEND as int;
    reveal_with_fuel(Seq::flatten, 3);
    if records.len() == 0 {
    } else if records.len() <= n {
        assert(batches(records).drop_first() =~= Seq::<Seq<InputRecord>>::empty());
        assert(batches(records).flatten() =~= records);
    } else {
        lemma_batches_are_complete(records.skip(n));
        assert(batches(records).drop_first() =~= batches(records.skip(n)));
        assert(records.take(n) + records.skip(n) =~= records);
    }
}

/// A control key without a virtual key is refused, never mapped to another.
pub proof fn lemma_secure_keys_are_refused(key: ControlKey, down: bool)
    requires
        key is CtrlAltDel || key is LockScreen || key is Unknown || key is Power,
    ensures
        key_records(input::KeyActionView::Control { key, down }) == Err::<
            Seq<InputRecord>,
            InjectError,
        >(InjectError::Unsupported),
{
}

} // verus!

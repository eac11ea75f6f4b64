//! Pointer events of the frontend.
//!
//! The frontend describes pointer events as JSON with names of its own, while the
//! protocol packs them into a mask. This is the only place where one becomes the
//! other.
use vstd::prelude::*;
use crate::input;
use crate::input::{
    MOUSE_BUTTON_BACK, MOUSE_BUTTON_FORWARD, MOUSE_BUTTON_LEFT, MOUSE_BUTTON_RIGHT,
    MOUSE_BUTTON_WHEEL, MOUSE_TYPE_DOWN, MOUSE_TYPE_MOVE, MOUSE_TYPE_MOVE_RELATIVE,
    MOUSE_TYPE_TRACKPAD, MOUSE_TYPE_UP, MOUSE_TYPE_WHEEL,
};
use crate::json;
use crate::json::Field;
use crate::message::MouseEvent;
use crate::text;

verus! {

/// The button that a name stands for.
pub open spec fn named_button(name: Seq<char>) -> Option<i32> {
    if name == "left"@ {
        Some(MOUSE_BUTTON_LEFT)
    } else if name == "right"@ {
        Some(MOUSE_BUTTON_RIGHT)
    } else if name == "wheel"@ {
        Some(MOUSE_BUTTON_WHEEL)
    } else if name == "back"@ {
        Some(MOUSE_BUTTON_BACK)
    } else if name == "forward"@ {
        Some(MOUSE_BUTTON_FORWARD)
    } else {
        None
    }
}

fn button_bits(name: &str) -> (r: Option<i32>)
    ensures
        r == named_button(name@),
{
    if text::same_text(name, "left") {
        Some(MOUSE_BUTTON_LEFT)
    } else if text::same_text(name, "right") {
        Some(MOUSE_BUTTON_RIGHT)
    } else if text::same_text(name, "wheel") {
        Some(MOUSE_BUTTON_WHEEL)
    } else if text::same_text(name, "back") {
        Some(MOUSE_BUTTON_BACK)
    } else if text::same_text(name, "forward") {
        Some(MOUSE_BUTTON_FORWARD)
    } else {
        None
    }
}

/// The coordinate in a field: a whole number, or a text that spells one. Anything
/// else is no coordinate; nothing is rounded.
pub open spec fn coordinate_in(field: Option<json::FieldView>) -> Option<int> {
    match field {
        None => None,
        Some(field) => match field.text {
            Some(s) => text::parsed_signed(text::trimmed(s), i32::MIN as int, i32::MAX as nat),
            None => match field.integer {
                Some(n) => if i32::MIN <= n <= i32::MAX {
                    Some(n as int)
                } else {
                    None
                },
                None => None,
            },
        },
    }
}

/// The coordinate in a field.
pub fn coordinate(field: Option<&Field>) -> (r: Option<i32>)
    ensures
        ({
            let held = match field {
                Some(field) => Some(field@),
                None => None,
            };
            match r {
                Some(n) => coordinate_in(held) == Some(n as int),
                None => coordinate_in(held) is None,
            }
        }),
{
    match field {
        None => None,
        Some(field) => {
            let found: Option<i64> = match &field.text {
                Some(s) => text::parse_signed(text::trim(s.as_str()).as_str()),
                None => field.integer,
            };
            match found {
                Some(n) => {
                    if (i32::MIN as i64) <= n && n <= i32::MAX as i64 {
                        Some(n as i32)
                    } else {
                        None
                    }
                },
                None => None,
            }
        },
    }
}

/// The kind of event that a name stands for, and whether it needs a button.
pub open spec fn named_kind(name: Seq<char>) -> Option<(i32, bool)> {
    if name == "move"@ || name == "mousemove"@ {
        Some((MOUSE_TYPE_MOVE, false))
    } else if name == "down"@ || name == "mousedown"@ {
        Some((MOUSE_TYPE_DOWN, true))
    } else if name == "up"@ || name == "mouseup"@ {
        Some((MOUSE_TYPE_UP, true))
    } else if name == "wheel"@ {
        Some((MOUSE_TYPE_WHEEL, false))
    } else if name == "trackpad"@ {
        Some((MOUSE_TYPE_TRACKPAD, false))
    } else if name == "move_relative"@ {
        Some((MOUSE_TYPE_MOVE_RELATIVE, false))
    } else {
        None
    }
}

fn kind_of(name: &str) -> (r: Option<(i32, bool)>)
    ensures
        r == named_kind(name@),
{
    if text::same_text(name, "move") || text::same_text(name, "mousemove") {
        Some((MOUSE_TYPE_MOVE, false))
    } else if text::same_text(name, "down") || text::same_text(name, "mousedown") {
        Some((MOUSE_TYPE_DOWN, true))
    } else if text::same_text(name, "up") || text::same_text(name, "mouseup") {
        Some((MOUSE_TYPE_UP, true))
    } else if text::same_text(name, "wheel") {
        Some((MOUSE_TYPE_WHEEL, false))
    } else if text::same_text(name, "trackpad") {
        Some((MOUSE_TYPE_TRACKPAD, false))
    } else if text::same_text(name, "move_relative") {
        Some((MOUSE_TYPE_MOVE_RELATIVE, false))
    } else {
        None
    }
}

/// The mask of an event: its kind and, where it needs one, its button.
pub open spec fn mask_of(fields: Seq<json::FieldView>) -> Option<int> {
    match json::text_in(fields, "type"@) {
        None => None,
        Some(name) => match named_kind(name) {
            None => None,
            Some((kind, false)) => Some(kind as int),
            Some((kind, true)) => match json::text_in(fields, "buttons"@) {
                None => None,
                Some(button) => match named_button(button) {
                    None => None,
                    Some(bits) => Some(kind + bits * 8),
                },
            },
        },
    }
}

/// A coordinate of an event: zero where the field is absent. A field that is there
/// and holds no coordinate describes no event.
pub open spec fn coordinate_at_key(fields: Seq<json::FieldView>, key: Seq<char>) -> Option<int> {
    match json::field_of(fields, key) {
        None => Some(0),
        Some(field) => coordinate_in(Some(field)),
    }
}

/// The pointer event that fields describe, if they describe one exactly: a known
/// kind, a known button where the kind needs one, and coordinates that are whole
/// numbers where they are given.
pub open spec fn described_event(fields: Seq<json::FieldView>) -> Option<MouseEvent> {
    match (mask_of(fields), coordinate_at_key(fields, "x"@), coordinate_at_key(fields, "y"@)) {
        (Some(mask), Some(x), Some(y)) => Some(
            MouseEvent { mask: mask as i32, x: x as i32, y: y as i32 },
        ),
        _ => None,
    }
}

fn coordinate_at(fields: &[Field], key: &str) -> (r: Option<i32>)
    ensures
        match r {
            Some(n) => coordinate_at_key(json::field_views(fields@), key@) == Some(n as int),
            None => coordinate_at_key(json::field_views(fields@), key@) is None,
        },
{
    let field = json::find_field(fields, key);
    if field.is_none() {
        return Some(0);
    }
    coordinate(field)
}

/// The pointer event that fields describe. What describes none exactly is dropped,
/// so that a coordinate that cannot be read never moves the pointer.
pub fn mouse_event_from_json(fields: &[Field]) -> (r: Option<MouseEvent>)
    ensures
        r == described_event(json::field_views(fields@)),
{
    let (kind, needs_button) = match json::find_text(fields, "type") {
        None => {
            return None;
        },
        Some(name) => match kind_of(name) {
            None => {
                return None;
            },
            Some(kind) => kind,
        },
    };
    let mut mask: i32 = kind;
    if needs_button {
        match json::find_text(fields, "buttons") {
            None => {
                return None;
            },
            Some(button) => match button_bits(button) {
                None => {
                    return None;
                },
                Some(bits) => {
                    mask = kind + bits * 8;
                },
            },
        }
    }
    match (coordinate_at(fields, "x"), coordinate_at(fields, "y")) {
        (Some(x), Some(y)) => Some(MouseEvent { mask, x, y }),
        _ => None,
    }
}

/// The kind and the button of the pointer event that fields describe.
pub fn decode_pointer(fields: &[Field]) -> (r: Option<(u32, u32)>)
    ensures
        r == (match described_event(json::field_views(fields@)) {
            Some(event) => Some(((event.mask % 8) as u32, (event.mask / 8) as u32)),
            None => None,
        }),
{
    match mouse_event_from_json(fields) {
        None => None,
        Some(event) => {
            assert(0 <= event.mask <= 2 + 16 * 8);
            Some(((event.mask % 8) as u32, (event.mask / 8) as u32))
        },
    }
}

/// A key event as a JSON text.
pub fn key_payload_json(name: &str, down: bool, press: bool) -> (r: String)
    ensures
        r@ == json::ObjectView::empty().with("name"@, json::json_string(name@)).with(
            "down"@,
            text::truth(down),
        ).with("press"@, text::truth(press)).text(),
{
    let mut object = json::Object::new();
    object.put_text("name", name);
    object.put_bool("down", down);
    object.put_bool("press", press);
    object.text()
}

/// An event that is described is one that a host can act on: its kind is one of the
/// protocol's, and it carries exactly one button where its kind is about one.
pub proof fn lemma_described_events_are_known(fields: Seq<json::FieldView>)
    requires
        described_event(fields) is Some,
    ensures
        ({
            let event = described_event(fields)->0;
            let kind = event.mask % 8;
            let button = event.mask / 8;
            &&& event.mask >= 0
            &&& 0 <= kind <= 5
            &&& kind == 1 || kind == 2 ==> input::button_of(button as int) is Some
            &&& kind != 1 && kind != 2 ==> button == 0
        }),
{
}

/// A coordinate that is given and cannot be read exactly drops the event, whatever
/// else the fields say.
pub proof fn lemma_unreadable_coordinates_are_refused(fields: Seq<json::FieldView>)
    requires
        ({
            let x = json::field_of(fields, "x"@);
            let y = json::field_of(fields, "y"@);
            (x is Some && coordinate_in(x) is None) || (y is Some && coordinate_in(y) is None)
        }),
    ensures
        described_event(fields) is None,
{
}

/// An event that is described carries the coordinates that its fields give, and zero
/// for one that they leave out.
pub proof fn lemma_described_coordinates(fields: Seq<json::FieldView>)
    requires
        described_event(fields) is Some,
    ensures
        ({
            let event = described_event(fields)->0;
            let x = json::field_of(fields, "x"@);
            let y = json::field_of(fields, "y"@);
            &&& x is None ==> event.x == 0
            &&& x is Some ==> coordinate_in(x) == Some(event.x as int)
            &&& y is None ==> event.y == 0
            &&& y is Some ==> coordinate_in(y) == Some(event.y as int)
        }),
{
}

} // verus!

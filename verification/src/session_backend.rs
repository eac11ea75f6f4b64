//! One interface over the protocols that a session can speak.
//!
//! The vocabulary is that of the first protocol: a snapshot, pointer and keyboard
//! events, clipboard text. VNC performs the same operations; where it cannot, the
//! request is refused in so many words instead of being accepted in vain:
//! - it negotiates no image quality;
//! - it changes no resolution of the server;
//! - it has one framebuffer, and so only display 0.
//!
//! What has to be sent is returned; sockets and queues belong to the caller.
use vstd::prelude::*;
use vstd::string::StringExecFns;
use crate::bytes;
use crate::control_key::ControlKey;
use crate::message;
use crate::message::{DisplayInfo, Message, PeerInfo};
use crate::text;
use crate::viewer;
use crate::viewer::keys;
use crate::viewer::keys::ViewerKey;
use crate::viewer::{
    AuthCommand, QueueState, Viewer, ViewerError, ViewerImageQuality, ViewerSnapshot,
};
use crate::vnc;
use crate::vnc::VncError;
use crate::vnc::live;
use crate::vnc::live::VncLiveSession;
use crate::vnc::protocol;
use crate::vnc::session;
use crate::vnc::protocol::{
    POINTER_BUTTON_LEFT, POINTER_BUTTON_MIDDLE, POINTER_BUTTON_RIGHT, POINTER_BUTTON_WHEEL_DOWN,
    POINTER_BUTTON_WHEEL_UP,
};

verus! {

/// A session, whichever protocol it speaks.
pub enum SessionBackend {
    /// The first protocol, with a decoded video stream.
    RustDesk(Viewer),
    /// VNC, whose framebuffer is raw pixels.
    Vnc(VncLiveSession),
}

/// The key messages of one stroke on a VNC server. The messages before it are sent
/// first, and where one of them fails nothing else is; those after it are sent even
/// where the stroke itself failed, so that no modifier stays down.
#[derive(Debug)]
pub struct KeyStroke {
    pub before: Vec<[u8; 8]>,
    pub stroke: Vec<[u8; 8]>,
    pub after: Vec<[u8; 8]>,
}

/// What is to be sent.
pub enum Outgoing {
    /// Nothing.
    Nothing,
    /// A message on the queue of the viewer.
    Message(Message),
    /// A command of the login on its queue.
    Command(AuthCommand),
    /// Bytes on the socket of a VNC server.
    Bytes(Vec<u8>),
    /// Key messages on the socket of a VNC server.
    Keys(KeyStroke),
}

/// Whether `error` is an error of a VNC session that reads `view`.
pub open spec fn vnc_error(error: ViewerError, view: vnc::VncErrorView) -> bool {
    error matches ViewerError::Vnc(e) && e@ == view
}

/// The RFB button of a button number.
pub open spec fn named_button(number: u32) -> Option<u8> {
    match number {
        0 => Some(0u8),
        1 => Some(POINTER_BUTTON_LEFT),
        2 => Some(POINTER_BUTTON_RIGHT),
        3 => Some(POINTER_BUTTON_MIDDLE),
        4 => Some(POINTER_BUTTON_WHEEL_UP),
        5 => Some(POINTER_BUTTON_WHEEL_DOWN),
        _ => None,
    }
}

/// The RFB button mask of a pointer action, or why there is none. A move and a
/// release hold no button; a release of an unknown button is refused all the same.
pub open spec fn pointer_mask(kind: u32, button: u32, x: i32, y: i32) -> Result<
    u8,
    vnc::VncErrorView,
> {
    if x < 0 || y < 0 {
        Err(
            vnc::VncErrorView::Geometry(
                "pointer ("@ + text::signed_decimal(x as int) + ","@ + text::signed_decimal(
                    y as int,
                ) + ") is negative"@,
            ),
        )
    } else if kind == 0 {
        Ok(0u8)
    } else if kind <= 5 {
        match named_button(button) {
            Some(mask) => if kind == 2 {
                Ok(0u8)
            } else {
                Ok(mask)
            },
            None => Err(
                vnc::VncErrorView::Protocol(
                    "button "@ + text::decimal(button as nat) + " has no RFB equivalent"@,
                ),
            ),
        }
    } else {
        Err(
            vnc::VncErrorView::Protocol(
                "mouse event kind "@ + text::decimal(kind as nat) + " has no RFB equivalent"@,
            ),
        )
    }
}

/// The RFB button mask and position of a pointer action.
pub fn vnc_pointer(kind: u32, button: u32, x: i32, y: i32) -> (r: Result<
    (u8, u16, u16),
    ViewerError,
>)
    ensures
        match (pointer_mask(kind, button, x, y), r) {
            (Ok(mask), Ok(found)) => found == (mask, (x % 65536) as u16, (y % 65536) as u16),
            (Err(view), Err(error)) => vnc_error(error, view),
            _ => false,
        },
{
    if x < 0 || y < 0 {
        let mut message = text::joined("pointer (", text::signed_text(x as i64).as_str());
        message.append(",");
        message.append(text::signed_text(y as i64).as_str());
        message.append(") is negative");
        return Err(ViewerError::Vnc(VncError::geometry(message)));
    }
    let position: (u16, u16) = ((x % 65536) as u16, (y % 65536) as u16);
    if kind == 0 {
        return Ok((0, position.0, position.1));
    }
    if kind > 5 {
        let mut message = text::joined(
            "mouse event kind ",
            text::decimal_text(kind as u64).as_str(),
        );
        message.append(" has no RFB equivalent");
        return Err(ViewerError::Vnc(VncError::protocol(message)));
    }
    let mask: u8 = match button {
        0 => 0,
        1 => POINTER_BUTTON_LEFT,
        2 => POINTER_BUTTON_RIGHT,
        3 => POINTER_BUTTON_MIDDLE,
        4 => POINTER_BUTTON_WHEEL_UP,
        5 => POINTER_BUTTON_WHEEL_DOWN,
        _ => {
            let mut message = text::joined("button ", text::decimal_text(button as u64).as_str());
            message.append(" has no RFB equivalent");
            return Err(ViewerError::Vnc(VncError::protocol(message)));
        },
    };
    if kind == 2 {
        Ok((0, position.0, position.1))
    } else {
        Ok((mask, position.0, position.1))
    }
}

/// The X11 keysyms of the modifiers that are held, in the order in which they go
/// down.
pub open spec fn held_keysyms(alt: bool, ctrl: bool, shift: bool, command: bool) -> Seq<u32> {
    let c = if ctrl {
        seq![0xffe3u32]
    } else {
        Seq::empty()
    };
    let a = if alt {
        seq![0xffe9u32]
    } else {
        Seq::empty()
    };
    let s = if shift {
        seq![0xffe1u32]
    } else {
        Seq::empty()
    };
    let m = if command {
        seq![0xffebu32]
    } else {
        Seq::empty()
    };
    c + a + s + m
}

/// The X11 keysyms of the modifiers that are held.
pub fn vnc_modifiers(alt: bool, ctrl: bool, shift: bool, command: bool) -> (r: Vec<u32>)
    ensures
        r@ == held_keysyms(alt, ctrl, shift, command),
{
    let mut modifiers: Vec<u32> = Vec::new();
    if ctrl {
        modifiers.push(0xffe3);
    }
    if alt {
        modifiers.push(0xffe9);
    }
    if shift {
        modifiers.push(0xffe1);
    }
    if command {
        modifiers.push(0xffeb);
    }
    assert(modifiers@ =~= held_keysyms(alt, ctrl, shift, command));
    modifiers
}

/// The X11 keysym of a control key, where it has one.
pub open spec fn control_keysym(key: ControlKey) -> Option<u32> {
    match key {
        ControlKey::Alt => Some(0xffe9),
        ControlKey::Backspace => Some(0xff08),
        ControlKey::CapsLock => Some(0xffe5),
        ControlKey::Control => Some(0xffe3),
        ControlKey::Delete => Some(0xffff),
        ControlKey::DownArrow => Some(0xff54),
        ControlKey::End => Some(0xff57),
        ControlKey::Escape => Some(0xff1b),
        ControlKey::F1 => Some(0xffbe),
        ControlKey::F2 => Some(0xffbf),
        ControlKey::F3 => Some(0xffc0),
        ControlKey::F4 => Some(0xffc1),
        ControlKey::F5 => Some(0xffc2),
        ControlKey::F6 => Some(0xffc3),
        ControlKey::F7 => Some(0xffc4),
        ControlKey::F8 => Some(0xffc5),
        ControlKey::F9 => Some(0xffc6),
        ControlKey::F10 => Some(0xffc7),
        ControlKey::F11 => Some(0xffc8),
        ControlKey::F12 => Some(0xffc9),
        ControlKey::Home => Some(0xff50),
        ControlKey::LeftArrow => Some(0xff51),
        ControlKey::Meta => Some(0xffeb),
        ControlKey::PageDown => Some(0xff56),
        ControlKey::PageUp => Some(0xff55),
        ControlKey::Return => Some(0xff0d),
        ControlKey::RightArrow => Some(0xff53),
        ControlKey::Shift => Some(0xffe1),
        ControlKey::Space => Some(0x20),
        ControlKey::Tab => Some(0xff09),
        ControlKey::UpArrow => Some(0xff52),
        ControlKey::Insert => Some(0xff63),
        _ => None,
    }
}

/// The X11 keysym of a key, or why it has none: a character has to be in Latin-1.
pub open spec fn keysym_of(key: ViewerKey) -> Result<u32, vnc::VncErrorView> {
    match key {
        ViewerKey::Character(value) => if value > 0xff {
            Err(
                vnc::VncErrorView::Protocol(
                    "key code "@ + text::decimal(value as nat) + " has no Latin-1 keysym"@,
                ),
            )
        } else {
            Ok(value)
        },
        ViewerKey::Control(control) => match control_keysym(control) {
            Some(keysym) => Ok(keysym),
            None => Err(
                vnc::VncErrorView::Protocol(
                    "control key "@ + control.name() + " has no X11 keysym"@,
                ),
            ),
        },
    }
}

fn keysym_of_control(key: ControlKey) -> (r: Option<u32>)
    ensures
        r == control_keysym(key),
{
    match key {
        ControlKey::Alt => Some(0xffe9),
        ControlKey::Backspace => Some(0xff08),
        ControlKey::CapsLock => Some(0xffe5),
        ControlKey::Control => Some(0xffe3),
        ControlKey::Delete => Some(0xffff),
        ControlKey::DownArrow => Some(0xff54),
        ControlKey::End => Some(0xff57),
        ControlKey::Escape => Some(0xff1b),
        ControlKey::F1 => Some(0xffbe),
        ControlKey::F2 => Some(0xffbf),
        ControlKey::F3 => Some(0xffc0),
        ControlKey::F4 => Some(0xffc1),
        ControlKey::F5 => Some(0xffc2),
        ControlKey::F6 => Some(0xffc3),
        ControlKey::F7 => Some(0xffc4),
        ControlKey::F8 => Some(0xffc5),
        ControlKey::F9 => Some(0xffc6),
        ControlKey::F10 => Some(0xffc7),
        ControlKey::F11 => Some(0xffc8),
        ControlKey::F12 => Some(0xffc9),
        ControlKey::Home => Some(0xff50),
        ControlKey::LeftArrow => Some(0xff51),
        ControlKey::Meta => Some(0xffeb),
        ControlKey::PageDown => Some(0xff56),
        ControlKey::PageUp => Some(0xff55),
        ControlKey::Return => Some(0xff0d),
        ControlKey::RightArrow => Some(0xff53),
        ControlKey::Shift => Some(0xffe1),
        ControlKey::Space => Some(0x20),
        ControlKey::Tab => Some(0xff09),
        ControlKey::UpArrow => Some(0xff52),
        ControlKey::Insert => Some(0xff63),
        _ => None,
    }
}

/// The X11 keysym of a key. A shifted character is already another character, so
/// `shift` adds nothing.
pub fn vnc_keysym(key: ViewerKey, shift: bool) -> (r: Result<u32, ViewerError>)
    ensures
        match (keysym_of(key), r) {
            (Ok(keysym), Ok(found)) => found == keysym,
            (Err(view), Err(error)) => vnc_error(error, view),
            _ => false,
        },
{
    let _ = shift;
    match key {
        ViewerKey::Character(value) => {
            if value > 0xff {
                let mut message = text::joined(
                    "key code ",
                    text::decimal_text(value as u64).as_str(),
                );
                message.append(" has no Latin-1 keysym");
                return Err(ViewerError::Vnc(VncError::protocol(message)));
            }
            Ok(value)
        },
        ViewerKey::Control(control) => {
            match keysym_of_control(control) {
                Some(keysym) => Ok(keysym),
                None => {
                    let mut message = text::joined("control key ", control.label());
                    message.append(" has no X11 keysym");
                    Err(ViewerError::Vnc(VncError::protocol(message)))
                },
            }
        },
    }
}

/// The message of a key going down or up.
pub open spec fn key_message(down: bool, keysym: u32) -> Seq<u8> {
    seq![protocol::C2S_KEY_EVENT, protocol::flag(down), 0, 0] + bytes::be32(keysym as int)
}

/// The messages of keys going down or up, one after the other.
pub open spec fn key_messages(down: bool, keysyms: Seq<u32>) -> Seq<Seq<u8>> {
    Seq::new(keysyms.len(), |i: int| key_message(down, keysyms[i]))
}

/// Messages as sequences.
pub open spec fn message_views(v: Seq<[u8; 8]>) -> Seq<Seq<u8>> {
    Seq::new(v.len(), |i: int| v[i]@)
}

/// Whether `keys` is one stroke of a key with the given modifiers: they go down
/// before it and up after it in the opposite order. A press is a stroke down and up.
pub open spec fn strokes(
    keys: KeyStroke,
    keysym: u32,
    down: bool,
    press: bool,
    modifiers: Seq<u32>,
) -> bool {
    &&& message_views(keys.before@) == key_messages(true, modifiers)
    &&& message_views(keys.stroke@) == (if down && press {
        seq![key_message(true, keysym), key_message(false, keysym)]
    } else {
        seq![key_message(down, keysym)]
    })
    &&& message_views(keys.after@) == key_messages(false, modifiers.reverse())
}

fn stroke(
    session: &VncLiveSession,
    keysym: u32,
    down: bool,
    press: bool,
    modifiers: &Vec<u32>,
) -> (r: KeyStroke)
    ensures
        strokes(r, keysym, down, press, modifiers@),
{
    let mut before: Vec<[u8; 8]> = Vec::new();
    let mut i: usize = 0;
    while i < modifiers.len()
        invariant
            i <= modifiers@.len(),
            message_views(before@) =~= key_messages(true, modifiers@.take(i as int)),
        decreases modifiers@.len() - i,
    {
        let ghost views = message_views(before@);
        before.push(session.send_key(true, modifiers[i]));
        proof {
            let next = key_message(true, modifiers@[i as int]);
            assert(message_views(before@) =~= views.push(next));
            assert(key_messages(true, modifiers@.take(i + 1)) =~= key_messages(
                true,
                modifiers@.take(i as int),
            ).push(next));
        }
        i = i + 1;
    }
    assert(modifiers@.take(i as int) =~= modifiers@);
    let mut pressed: Vec<[u8; 8]> = Vec::new();
    if down {
        pressed.push(session.send_key(true, keysym));
    }
    if !down || press {
        pressed.push(session.send_key(false, keysym));
    }
    assert(message_views(pressed@) =~= (if down && press {
        seq![key_message(true, keysym), key_message(false, keysym)]
    } else {
        seq![key_message(down, keysym)]
    }));
    let mut after: Vec<[u8; 8]> = Vec::new();
    let mut left: usize = modifiers.len();
    while left > 0
        invariant
            left <= modifiers@.len(),
            message_views(after@) =~= key_messages(
                false,
                modifiers@.reverse().take(modifiers@.len() - left),
            ),
        decreases left,
    {
        left = left - 1;
        let ghost views = message_views(after@);
        after.push(session.send_key(false, modifiers[left]));
        proof {
            let done = modifiers@.len() - left;
            let next = key_message(false, modifiers@[left as int]);
            assert(message_views(after@) =~= views.push(next));
            assert(key_messages(false, modifiers@.reverse().take(done)) =~= key_messages(
                false,
                modifiers@.reverse().take(done - 1),
            ).push(next));
        }
    }
    assert(modifiers@.reverse().take(modifiers@.len() as int) =~= modifiers@.reverse());
    KeyStroke { before, stroke: pressed, after }
}

/// The snapshot of a VNC session in the shared vocabulary. It has no codec but raw
/// pixels, no route but the direct one, no quality and no rate, and it is neither
/// encrypted nor verified.
pub open spec fn vnc_seen(s: VncLiveSession) -> viewer::ViewerSnapshotView {
    viewer::ViewerSnapshotView {
        phase: live::phase_of(&s),
        error: match s.failure {
            Some(text) => Some(text@),
            None => None,
        },
        width: s.width as i32,
        height: s.height as i32,
        codec: "raw"@,
        route: "direct_tcp"@,
        received_units: s.received_updates,
        pushed_units: s.taken_frames,
        render_submissions: s.taken_frames,
        keyboard_allowed: s.keyboard_allowed,
        clipboard_allowed: true,
        image_quality: "n/a"@,
        closed: s.closed,
        ..viewer::ViewerSnapshotView::blank()
    }
}

/// What a VNC server says about itself in the shared vocabulary: its name, its
/// version, and its framebuffer as the only display.
pub open spec fn vnc_peer(s: VncLiveSession) -> message::PeerInfoView {
    message::PeerInfoView {
        username: Seq::empty(),
        hostname: s.name@,
        platform: "VNC"@,
        version: s.version@,
        displays: seq![
            message::DisplayInfoView {
                x: 0,
                y: 0,
                width: s.width as i32,
                height: s.height as i32,
                name: s.name@,
                cursor_embedded: false,
            },
        ],
        current_display: 0,
    }
}

/// The refusal of a display that a VNC server does not have.
pub open spec fn no_display(display: i32) -> vnc::VncErrorView {
    vnc::VncErrorView::Geometry(
        "a VNC server has one framebuffer, so display "@ + text::signed_decimal(display as int)
            + " does not exist"@,
    )
}

/// The request for the whole framebuffer.
pub open spec fn full_request(s: VncLiveSession) -> Seq<u8> {
    seq![protocol::C2S_FRAMEBUFFER_UPDATE_REQUEST, 0, 0, 0, 0, 0] + bytes::be16(s.width as int)
        + bytes::be16(s.height as int)
}

/// The answer of a VNC session to a request for the picture of a display.
pub open spec fn refresh_answer(
    r: Result<Outgoing, ViewerError>,
    s: VncLiveSession,
    display: i32,
) -> bool {
    if display != 0 {
        r matches Err(error) && vnc_error(error, no_display(display))
    } else {
        r matches Ok(Outgoing::Bytes(sent)) && sent@ == full_request(s)
    }
}

/// The answer of a VNC session to a pointer action: outside the framebuffer it is
/// refused.
pub open spec fn pointer_answer(
    r: Result<Outgoing, ViewerError>,
    s: VncLiveSession,
    kind: u32,
    button: u32,
    x: i32,
    y: i32,
) -> bool {
    match pointer_mask(kind, button, x, y) {
        Err(view) => r matches Err(error) && vnc_error(error, view),
        Ok(mask) => {
            let px = (x % 65536) as u16;
            let py = (y % 65536) as u16;
            if px < s.width && py < s.height {
                r matches Ok(Outgoing::Bytes(sent)) && sent@ == seq![
                    protocol::C2S_POINTER_EVENT,
                    mask,
                ] + bytes::be16(px as int) + bytes::be16(py as int)
            } else {
                r matches Err(error) && vnc_error(
                    error,
                    vnc::VncErrorView::Geometry(
                        "pointer ("@ + text::decimal(px as nat) + ","@ + text::decimal(py as nat)
                            + ") is outside the "@ + session::dimensions(
                            s.width as int,
                            s.height as int,
                        ) + " framebuffer"@,
                    ),
                )
            }
        },
    }
}

/// The answer of a VNC session to a key.
pub open spec fn stroke_answer(
    r: Result<Outgoing, ViewerError>,
    key: ViewerKey,
    down: bool,
    press: bool,
    modifiers: Seq<u32>,
) -> bool {
    match keysym_of(key) {
        Err(view) => r matches Err(error) && vnc_error(error, view),
        Ok(keysym) => r matches Ok(Outgoing::Keys(keys)) && strokes(
            keys,
            keysym,
            down,
            press,
            modifiers,
        ),
    }
}

/// The key messages of a text, up to its first character that is not in Latin-1.
pub open spec fn typed_messages(value: Seq<char>) -> Seq<Seq<u8>>
    decreases value.len(),
{
    if value.len() == 0 || value[0] as int > 0xff {
        Seq::empty()
    } else {
        seq![key_message(true, value[0] as u32), key_message(false, value[0] as u32)]
            + typed_messages(value.skip(1))
    }
}

/// The first character of a text that is not in Latin-1, if there is one.
pub open spec fn first_foreign(value: Seq<char>) -> Option<char>
    decreases value.len(),
{
    if value.len() == 0 {
        None
    } else if value[0] as int > 0xff {
        Some(value[0])
    } else {
        first_foreign(value.skip(1))
    }
}

/// The refusal of a character that is not in Latin-1.
pub open spec fn foreign_text(c: char) -> vnc::VncErrorView {
    vnc::VncErrorView::Protocol(
        "character "@ + text::quoted_char_text(c) + " has no Latin-1 keysym, which VNC needs"@,
    )
}

fn foreign(c: char) -> (r: ViewerError)
    ensures
        vnc_error(r, foreign_text(c)),
{
    let mut message = text::joined("character ", text::quoted_char(c).as_str());
    message.append(" has no Latin-1 keysym, which VNC needs");
    ViewerError::Vnc(VncError::protocol(message))
}

fn type_text(session: &VncLiveSession, value: &str) -> (r: (
    Vec<[u8; 8]>,
    Result<(), ViewerError>,
))
    ensures
        message_views((r.0)@) == typed_messages(value@),
        match first_foreign(value@) {
            Some(c) => r.1 matches Err(error) && vnc_error(error, foreign_text(c)),
            None => r.1 is Ok,
        },
{
    let chars = text::chars_of(value);
    let mut sent: Vec<[u8; 8]> = Vec::new();
    let mut i: usize = 0;
    proof {
        assert(chars@.skip(0) =~= value@);
        assert(message_views(sent@) + typed_messages(value@) =~= typed_messages(value@));
    }
    while i < chars.len()
        invariant
            i <= chars@.len(),
            message_views(sent@) + typed_messages(chars@.skip(i as int)) == typed_messages(value@),
            first_foreign(chars@.skip(i as int)) == first_foreign(value@),
        decreases chars@.len() - i,
    {
        let ghost rest = chars@.skip(i as int);
        let ghost before = message_views(sent@);
        let code: u32 = text::code_of(chars[i]);
        assert(rest[0] == chars@[i as int]);
        if code > 0xff {
            assert(before + typed_messages(rest) =~= before);
            return (sent, Err(foreign(chars[i])));
        }
        sent.push(session.send_key(true, code));
        sent.push(session.send_key(false, code));
        proof {
            assert(rest.skip(1) =~= chars@.skip(i + 1));
            assert(message_views(sent@) =~= before + seq![
                key_message(true, code),
                key_message(false, code),
            ]);
            assert(message_views(sent@) + typed_messages(rest.skip(1)) =~= before
                + typed_messages(rest));
        }
        i = i + 1;
    }
    proof {
        assert(chars@.skip(i as int) =~= Seq::<char>::empty());
        assert(message_views(sent@) + typed_messages(chars@.skip(i as int)) =~= message_views(
            sent@,
        ));
    }
    (sent, Ok(()))
}

fn refusal(what: &str) -> (r: ViewerError)
    ensures
        vnc_error(r, vnc::VncErrorView::Protocol(what@)),
{
    ViewerError::Vnc(VncError::protocol(what.to_owned()))
}

fn missing_display(display: i32) -> (r: ViewerError)
    ensures
        vnc_error(r, no_display(display)),
{
    let mut message = text::joined(
        "a VNC server has one framebuffer, so display ",
        text::signed_text(display as i64).as_str(),
    );
    message.append(" does not exist");
    ViewerError::Vnc(VncError::geometry(message))
}

fn sent(r: Result<Message, ViewerError>) -> (out: Result<Outgoing, ViewerError>)
    ensures
        match (r, out) {
            (Ok(message), Ok(outgoing)) => outgoing == Outgoing::Message(message),
            (Err(error), Err(same)) => same == error,
            _ => false,
        },
{
    match r {
        Ok(message) => Ok(Outgoing::Message(message)),
        Err(error) => Err(error),
    }
}

fn perhaps_sent(r: Result<Option<Message>, ViewerError>) -> (out: Result<Outgoing, ViewerError>)
    ensures
        match (r, out) {
            (Ok(Some(message)), Ok(outgoing)) => outgoing == Outgoing::Message(message),
            (Ok(None), Ok(outgoing)) => outgoing == Outgoing::Nothing,
            (Err(error), Err(same)) => same == error,
            _ => false,
        },
{
    match r {
        Ok(Some(message)) => Ok(Outgoing::Message(message)),
        Ok(None) => Ok(Outgoing::Nothing),
        Err(error) => Err(error),
    }
}

fn commanded(r: Result<AuthCommand, ViewerError>) -> (out: Result<Outgoing, ViewerError>)
    ensures
        match (r, out) {
            (Ok(command), Ok(outgoing)) => outgoing == Outgoing::Command(command),
            (Err(error), Err(same)) => same == error,
            _ => false,
        },
{
    match r {
        Ok(command) => Ok(Outgoing::Command(command)),
        Err(error) => Err(error),
    }
}

/// What a viewer answered, of what was sent.
pub open spec fn answered(out: Result<Outgoing, ViewerError>) -> Result<Message, ViewerError> {
    match out {
        Ok(Outgoing::Message(message)) => Ok(message),
        Err(error) => Err(error),
        _ => arbitrary(),
    }
}

/// Whether a message or an error was answered.
pub open spec fn is_message(out: Result<Outgoing, ViewerError>) -> bool {
    out matches Ok(outgoing) ==> outgoing is Message
}

/// What a viewer answered, of what was perhaps sent.
pub open spec fn perhaps_answered(out: Result<Outgoing, ViewerError>) -> Result<
    Option<Message>,
    ViewerError,
> {
    match out {
        Ok(Outgoing::Message(message)) => Ok(Some(message)),
        Ok(_) => Ok(None),
        Err(error) => Err(error),
    }
}

/// Whether a message, nothing or an error was answered.
pub open spec fn is_message_or_nothing(out: Result<Outgoing, ViewerError>) -> bool {
    out matches Ok(outgoing) ==> outgoing is Message || outgoing is Nothing
}

/// What a login answered, of what was sent.
pub open spec fn command_of(out: Result<Outgoing, ViewerError>) -> Result<
    AuthCommand,
    ViewerError,
> {
    match out {
        Ok(Outgoing::Command(command)) => Ok(command),
        Err(error) => Err(error),
        _ => arbitrary(),
    }
}

/// Whether a command or an error was answered.
pub open spec fn is_command(out: Result<Outgoing, ViewerError>) -> bool {
    out matches Ok(outgoing) ==> outgoing is Command
}

impl SessionBackend {
    /// Whether the session speaks the first protocol.
    pub fn is_rustdesk(&self) -> (r: bool)
        ensures
            r == (*self is RustDesk),
    {
        match self {
            SessionBackend::RustDesk(_) => true,
            SessionBackend::Vnc(_) => false,
        }
    }

    /// Whether the session speaks VNC.
    pub fn is_vnc(&self) -> (r: bool)
        ensures
            r == (*self is Vnc),
    {
        match self {
            SessionBackend::RustDesk(_) => false,
            SessionBackend::Vnc(_) => true,
        }
    }

    /// The name of the protocol.
    pub fn protocol(&self) -> (r: &'static str)
        ensures
            r@ == (match *self {
                SessionBackend::RustDesk(_) => "rustdesk"@,
                SessionBackend::Vnc(_) => "vnc"@,
            }),
    {
        match self {
            SessionBackend::RustDesk(_) => "rustdesk",
            SessionBackend::Vnc(_) => "vnc",
        }
    }

    /// What is seen of the session.
    pub open spec fn seen(self) -> viewer::ViewerSnapshotView {
        match self {
            SessionBackend::RustDesk(viewer) => viewer@.seen(),
            SessionBackend::Vnc(session) => vnc_seen(session),
        }
    }

    /// What is seen of the session.
    pub fn snapshot(&self) -> (r: ViewerSnapshot)
        ensures
            r@ == self.seen(),
    {
        match self {
            SessionBackend::RustDesk(viewer) => viewer.snapshot(),
            SessionBackend::Vnc(session) => {
                let s = session.snapshot();
                let mut out = ViewerSnapshot::default();
                out.phase = s.phase;
                out.error = s.error;
                out.width = s.width;
                out.height = s.height;
                out.codec = "raw".to_owned();
                out.route = "direct_tcp".to_owned();
                out.received_units = s.received_units;
                out.pushed_units = s.taken_frames;
                out.render_submissions = s.taken_frames;
                out.keyboard_allowed = s.keyboard_allowed;
                out.clipboard_allowed = s.clipboard_allowed;
                out.image_quality = "n/a".to_owned();
                out.closed = s.closed;
                out
            },
        }
    }

    /// What the peer says about itself.
    pub fn peer_info(&self) -> (r: Option<PeerInfo>)
        ensures
            match *self {
                SessionBackend::RustDesk(viewer) => match (viewer.peer_info, r) {
                    (Some(info), Some(copy)) => copy@ == info@,
                    (info, copy) => info is None && copy is None,
                },
                SessionBackend::Vnc(session) => r matches Some(info) && info@ == vnc_peer(session),
            },
    {
        match self {
            SessionBackend::RustDesk(viewer) => match viewer.peer_info() {
                Some(info) => Some(info.copy()),
                None => None,
            },
            SessionBackend::Vnc(session) => {
                let mut displays: Vec<DisplayInfo> = Vec::new();
                displays.push(
                    DisplayInfo {
                        x: 0,
                        y: 0,
                        width: session.width() as i32,
                        height: session.height() as i32,
                        name: session.server_name().to_owned(),
                        cursor_embedded: false,
                    },
                );
                let info = PeerInfo {
                    username: String::new(),
                    hostname: session.server_name().to_owned(),
                    platform: "VNC".to_owned(),
                    version: session.server_version().to_owned(),
                    displays,
                    current_display: 0,
                };
                assert(info@.username =~= Seq::<char>::empty());
                assert(info@.displays =~= vnc_peer(*session).displays);
                Some(info)
            },
        }
    }

    /// Which gate keeps pointer input from being sent. A VNC server that takes no
    /// input just ignores it, so there never is one.
    pub fn mouse_refusal(&self) -> (r: Option<&'static str>)
        ensures
            match *self {
                SessionBackend::RustDesk(viewer) => match r {
                    Some(gate) => viewer::closed_gate(viewer@) == Some(gate@),
                    None => viewer::closed_gate(viewer@) is None,
                },
                SessionBackend::Vnc(_) => r is None,
            },
    {
        match self {
            SessionBackend::RustDesk(viewer) => viewer.mouse_refusal(),
            SessionBackend::Vnc(_) => None,
        }
    }

    /// Pointer input.
    pub fn send_mouse(&self, kind: u32, button: u32, x: i32, y: i32, queue: QueueState) -> (r:
        Result<Outgoing, ViewerError>)
        ensures
            match *self {
                SessionBackend::RustDesk(viewer) => is_message(r) && answered(r)
                    == viewer::mouse_result(viewer@, kind, button, x, y, queue),
                SessionBackend::Vnc(session) => pointer_answer(r, session, kind, button, x, y),
            },
    {
        match self {
            SessionBackend::RustDesk(viewer) => sent(viewer.send_mouse(kind, button, x, y, queue)),
            SessionBackend::Vnc(session) => {
                match vnc_pointer(kind, button, x, y) {
                    Err(error) => Err(error),
                    Ok((mask, px, py)) => match session.send_mouse(mask, px, py) {
                        Err(error) => Err(ViewerError::Vnc(error)),
                        Ok(message) => Ok(
                            Outgoing::Bytes(vstd::slice::slice_to_vec(message.as_slice())),
                        ),
                    },
                }
            },
        }
    }

    /// Keyboard input.
    pub fn send_key(
        &self,
        key: ViewerKey,
        down: bool,
        press: bool,
        alt: bool,
        ctrl: bool,
        shift: bool,
        command: bool,
        queue: QueueState,
    ) -> (r: Result<Outgoing, ViewerError>)
        ensures
            match *self {
                SessionBackend::RustDesk(viewer) => is_message(r) && viewer::key_answer(
                    answered(r),
                    viewer@,
                    key,
                    down,
                    press,
                    keys::modifiers_held(alt, ctrl, shift, command),
                    queue,
                ),
                SessionBackend::Vnc(session) => stroke_answer(
                    r,
                    key,
                    down,
                    press,
                    held_keysyms(alt, ctrl, shift, command),
                ),
            },
    {
        match self {
            SessionBackend::RustDesk(viewer) => sent(
                viewer.send_key(key, down, press, alt, ctrl, shift, command, queue),
            ),
            SessionBackend::Vnc(session) => {
                let modifiers = vnc_modifiers(alt, ctrl, shift, command);
                match vnc_keysym(key, shift) {
                    Err(error) => Err(error),
                    Ok(keysym) => Ok(
                        Outgoing::Keys(stroke(session, keysym, down, press, &modifiers)),
                    ),
                }
            },
        }
    }

    /// A text that is typed. A VNC server is sent its characters as far as they are
    /// in Latin-1; the result tells whether all of them are.
    pub fn send_text(&self, value: &str, queue: QueueState) -> (r: (
        Vec<[u8; 8]>,
        Result<Outgoing, ViewerError>,
    ))
        ensures
            match *self {
                SessionBackend::RustDesk(viewer) => (r.0)@.len() == 0 && is_message(r.1)
                    && viewer::text_answer(answered(r.1), viewer@, value@, queue),
                SessionBackend::Vnc(session) => {
                    &&& message_views((r.0)@) == typed_messages(value@)
                    &&& match first_foreign(value@) {
                        Some(c) => r.1 matches Err(error) && vnc_error(error, foreign_text(c)),
                        None => r.1 == Ok::<Outgoing, ViewerError>(Outgoing::Nothing),
                    }
                },
            },
    {
        match self {
            SessionBackend::RustDesk(viewer) => {
                let none: Vec<[u8; 8]> = Vec::new();
                (none, sent(viewer.send_text(value, queue)))
            },
            SessionBackend::Vnc(session) => {
                let (typed, result) = type_text(session, value);
                match result {
                    Ok(_) => (typed, Ok(Outgoing::Nothing)),
                    Err(error) => (typed, Err(error)),
                }
            },
        }
    }

    /// A text for the clipboard of the peer. `compressed` is the text compressed, or
    /// empty where that failed.
    pub fn send_clipboard_text(&self, value: &str, compressed: &[u8], queue: QueueState) -> (r:
        Result<Outgoing, ViewerError>)
        ensures
            match *self {
                SessionBackend::RustDesk(viewer) => is_message(r) && viewer::clipboard_answer(
                    answered(r),
                    viewer@,
                    value@,
                    compressed@,
                    queue,
                ),
                SessionBackend::Vnc(session) => {
                    let body = vstd::utf8::encode_utf8(value@);
                    if body.len() <= u32::MAX {
                        r matches Ok(Outgoing::Bytes(out)) && out@ == seq![
                            protocol::C2S_CLIENT_CUT_TEXT,
                            0,
                            0,
                            0,
                        ] + bytes::be32(body.len() as int) + body
                    } else {
                        r matches Err(error) && vnc_error(
                            error,
                            vnc::VncErrorView::Protocol("clipboard text too long"@),
                        )
                    }
                },
            },
    {
        match self {
            SessionBackend::RustDesk(viewer) => sent(
                viewer.send_clipboard_text(value, compressed, queue),
            ),
            SessionBackend::Vnc(session) => match session.send_clipboard(value) {
                Ok(out) => Ok(Outgoing::Bytes(out)),
                Err(error) => Err(ViewerError::Vnc(error)),
            },
        }
    }

    /// Takes a clipboard text that came in.
    pub fn take_clipboard_text(&mut self) -> (r: Option<String>)
        ensures
            match (*old(self), *final(self)) {
                (SessionBackend::RustDesk(before), SessionBackend::RustDesk(after)) =>
                viewer::taken_text(r, before@, after@),
                (SessionBackend::Vnc(before), SessionBackend::Vnc(after)) => r == before.clipboard
                    && after == (VncLiveSession { clipboard: None, ..before }),
                _ => false,
            },
    {
        match self {
            SessionBackend::RustDesk(viewer) => viewer.take_clipboard_text(),
            SessionBackend::Vnc(session) => session.take_clipboard(),
        }
    }

    /// Asks for a capture rate. A VNC server has none; a sensible number is accepted
    /// and nothing is sent.
    pub fn set_requested_fps(&mut self, fps: u32, queue: QueueState) -> (r: Result<
        Outgoing,
        ViewerError,
    >)
        ensures
            match (*old(self), *final(self)) {
                (SessionBackend::RustDesk(before), SessionBackend::RustDesk(after)) =>
                is_message_or_nothing(r) && viewer::fps_answer(
                    perhaps_answered(r),
                    before@,
                    after@,
                    fps,
                    queue,
                ),
                (SessionBackend::Vnc(before), SessionBackend::Vnc(after)) => after == before
                    && if 1 <= fps <= 240 {
                    r == Ok::<Outgoing, ViewerError>(Outgoing::Nothing)
                } else {
                    r matches Err(error) && vnc_error(
                        error,
                        vnc::VncErrorView::Protocol("requested fps "@ + text::decimal(fps as nat)),
                    )
                },
                _ => false,
            },
    {
        match self {
            SessionBackend::RustDesk(viewer) => perhaps_sent(viewer.set_requested_fps(fps, queue)),
            SessionBackend::Vnc(session) => match session.set_requested_fps(fps) {
                Ok(_) => Ok(Outgoing::Nothing),
                Err(error) => Err(ViewerError::Vnc(error)),
            },
        }
    }

    /// Asks for an image quality, which a VNC server has not.
    pub fn set_image_quality(&mut self, quality: ViewerImageQuality, queue: QueueState) -> (r:
        Result<Outgoing, ViewerError>)
        ensures
            match (*old(self), *final(self)) {
                (SessionBackend::RustDesk(before), SessionBackend::RustDesk(after)) =>
                is_message_or_nothing(r) && viewer::quality_answer(
                    perhaps_answered(r),
                    before@,
                    after@,
                    quality,
                    queue,
                ),
                (SessionBackend::Vnc(before), SessionBackend::Vnc(after)) => after == before && (
                r matches Err(error) && vnc_error(
                    error,
                    vnc::VncErrorView::Protocol(
                        "VNC has no image-quality control, so "@ + quality.name()
                            + " cannot be requested"@,
                    ),
                )),
                _ => false,
            },
    {
        match self {
            SessionBackend::RustDesk(viewer) => perhaps_sent(
                viewer.set_image_quality(quality, queue),
            ),
            SessionBackend::Vnc(_) => {
                let mut what = text::joined(
                    "VNC has no image-quality control, so ",
                    quality.label(),
                );
                what.append(" cannot be requested");
                Err(ViewerError::Vnc(VncError::protocol(what)))
            },
        }
    }

    /// Asks for another display. A VNC server has display 0 only, whose size it
    /// reports itself; its picture is asked for anew.
    pub fn switch_display(&self, display: i32, width: i32, height: i32, queue: QueueState) -> (r: (
        Vec<Message>,
        Result<Outgoing, ViewerError>,
    ))
        ensures
            match *self {
                SessionBackend::RustDesk(viewer) => {
                    &&& (r.0)@ == viewer::switch_sent(viewer@, display, width, height, queue)
                    &&& match viewer::switch_result(viewer@, display, width, height, queue) {
                        Ok(_) => r.1 == Ok::<Outgoing, ViewerError>(Outgoing::Nothing),
                        Err(error) => r.1 == Err::<Outgoing, ViewerError>(error),
                    }
                },
                SessionBackend::Vnc(session) => (r.0)@.len() == 0 && refresh_answer(
                    r.1,
                    session,
                    display,
                ),
            },
    {
        match self {
            SessionBackend::RustDesk(viewer) => {
                let (messages, result) = viewer.switch_display(display, width, height, queue);
                match result {
                    Ok(_) => (messages, Ok(Outgoing::Nothing)),
                    Err(error) => (messages, Err(error)),
                }
            },
            SessionBackend::Vnc(session) => {
                let none: Vec<Message> = Vec::new();
                if display != 0 {
                    return (none, Err(missing_display(display)));
                }
                (none, Ok(Outgoing::Bytes(session.refresh())))
            },
        }
    }

    /// Asks for another resolution, which a VNC server cannot be asked for.
    pub fn change_resolution(
        &self,
        display: i32,
        width: i32,
        height: i32,
        queue: QueueState,
    ) -> (r: Result<Outgoing, ViewerError>)
        ensures
            match *self {
                SessionBackend::RustDesk(viewer) => is_message(r) && answered(r)
                    == viewer::resolution_result(viewer@, display, width, height, queue),
                SessionBackend::Vnc(_) => r matches Err(error) && vnc_error(
                    error,
                    vnc::VncErrorView::Protocol("VNC cannot change the remote resolution"@),
                ),
            },
    {
        match self {
            SessionBackend::RustDesk(viewer) => sent(
                viewer.change_resolution(display, width, height, queue),
            ),
            SessionBackend::Vnc(_) => Err(refusal("VNC cannot change the remote resolution")),
        }
    }

    /// Asks for the picture of a display anew.
    pub fn refresh_video(&self, display: i32, queue: QueueState) -> (r: Result<
        Outgoing,
        ViewerError,
    >)
        ensures
            match *self {
                SessionBackend::RustDesk(viewer) => is_message(r) && answered(r)
                    == viewer::refresh_result(viewer@, display, queue),
                SessionBackend::Vnc(session) => refresh_answer(r, session, display),
            },
    {
        match self {
            SessionBackend::RustDesk(viewer) => sent(viewer.refresh_video(display, queue)),
            SessionBackend::Vnc(session) => {
                if display != 0 {
                    return Err(missing_display(display));
                }
                Ok(Outgoing::Bytes(session.refresh()))
            },
        }
    }

    /// A password of the user. A VNC server asks for it before there is a session.
    pub fn submit_password(&self, password: &str, queue: QueueState) -> (r: Result<
        Outgoing,
        ViewerError,
    >)
        ensures
            match *self {
                SessionBackend::RustDesk(_) => is_command(r) && viewer::password_answer(
                    command_of(r),
                    password@,
                    queue,
                ),
                SessionBackend::Vnc(_) => r matches Err(error) && vnc_error(
                    error,
                    vnc::VncErrorView::Protocol(
                        "VNC authenticates during the handshake, so a password cannot be submitted afterwards"@,
                    ),
                ),
            },
    {
        match self {
            SessionBackend::RustDesk(viewer) => commanded(viewer.submit_password(password, queue)),
            SessionBackend::Vnc(_) => Err(
                refusal(
                    "VNC authenticates during the handshake, so a password cannot be submitted afterwards",
                ),
            ),
        }
    }

    /// A second factor of the user, which a VNC server does not know.
    pub fn submit_second_factor(&self, code: &str, queue: QueueState) -> (r: Result<
        Outgoing,
        ViewerError,
    >)
        ensures
            match *self {
                SessionBackend::RustDesk(_) => is_command(r) && viewer::factor_answer(
                    command_of(r),
                    code@,
                    queue,
                ),
                SessionBackend::Vnc(_) => r matches Err(error) && vnc_error(
                    error,
                    vnc::VncErrorView::Protocol(
                        "VNC has no second factor beyond its own authentication"@,
                    ),
                ),
            },
    {
        match self {
            SessionBackend::RustDesk(viewer) => commanded(viewer.submit_second_factor(code, queue)),
            SessionBackend::Vnc(_) => Err(
                refusal("VNC has no second factor beyond its own authentication"),
            ),
        }
    }

    /// The user's decision about a peer that is not verified. A VNC server never is,
    /// and nothing waits for the decision.
    pub fn continue_insecure(&self, allow: bool, queue: QueueState) -> (r: Result<
        Outgoing,
        ViewerError,
    >)
        ensures
            match *self {
                SessionBackend::RustDesk(_) => is_command(r) && viewer::insecure_answer(
                    command_of(r),
                    allow,
                    queue,
                ),
                SessionBackend::Vnc(_) => r == Ok::<Outgoing, ViewerError>(Outgoing::Nothing),
            },
    {
        match self {
            SessionBackend::RustDesk(viewer) => commanded(viewer.continue_insecure(allow, queue)),
            SessionBackend::Vnc(_) => Ok(Outgoing::Nothing),
        }
    }

    /// The session is to close.
    pub fn request_close(&mut self)
        ensures
            match (*old(self), *final(self)) {
                (SessionBackend::RustDesk(before), SessionBackend::RustDesk(after)) =>
                after@.closing(before@),
                (SessionBackend::Vnc(before), SessionBackend::Vnc(after)) => after == (
                VncLiveSession { closed: true, ..before }),
                _ => false,
            },
    {
        match self {
            SessionBackend::RustDesk(viewer) => {
                viewer.request_close();
            },
            SessionBackend::Vnc(session) => {
                let _ = session.close();
            },
        }
    }

    /// The newest picture as raw pixels, where the session has one and it was not
    /// taken before. A decoded stream has none.
    pub fn take_raw_frame(&mut self) -> (r: Option<(u32, u32, Vec<u8>)>)
        ensures
            match (*old(self), *final(self)) {
                (SessionBackend::RustDesk(before), SessionBackend::RustDesk(after)) => r is None
                    && after == before,
                (SessionBackend::Vnc(before), SessionBackend::Vnc(after)) => {
                    &&& r is Some <==> before.frame_ready && before.framebuffer@.len() > 0
                    &&& r matches Some((w, h, pixels)) ==> w == before.width && h == before.height
                        && pixels@ == before.framebuffer@
                    &&& after == (VncLiveSession {
                        frame_ready: before.frame_ready && r is None,
                        taken_frames: if r is Some {
                            live::wrapped_next(before.taken_frames)
                        } else {
                            before.taken_frames
                        },
                        ..before
                    })
                },
                _ => false,
            },
    {
        match self {
            SessionBackend::RustDesk(_) => None,
            SessionBackend::Vnc(session) => session.take_frame(),
        }
    }
}

/// Every modifier that goes down for a stroke comes up after it, the last one
/// first.
pub proof fn lemma_modifiers_come_up_again(
    keys: KeyStroke,
    keysym: u32,
    down: bool,
    press: bool,
    modifiers: Seq<u32>,
    i: int,
)
    requires
        strokes(keys, keysym, down, press, modifiers),
        0 <= i < modifiers.len(),
    ensures
        keys.before@.len() == modifiers.len(),
        keys.after@.len() == modifiers.len(),
        keys.before@[i]@ == key_message(true, modifiers[i]),
        keys.after@[modifiers.len() - 1 - i]@ == key_message(false, modifiers[i]),
{
    let n = modifiers.len() as int;
    assert(message_views(keys.before@).len() == keys.before@.len());
    assert(message_views(keys.after@).len() == keys.after@.len());
    assert(message_views(keys.before@)[i] == keys.before@[i]@);
    assert(message_views(keys.after@)[n - 1 - i] == keys.after@[n - 1 - i]@);
    assert(modifiers.reverse()[n - 1 - i] == modifiers[i]);
}

} // verus!

//! What the frontend calls.
//!
//! Each function here answers one call of the frontend. A call that goes to the viewer
//! of a session returns what the viewer answers: the message that is to be sent, or why
//! nothing is sent; it returns nothing where there is no such viewer. The frontend is
//! never told that something was done which was not. What this engine does not have
//! stands in [`absent`].
use vstd::prelude::*;
use crate::control_key::ControlKey;
use crate::entries;
use crate::flutter_input;
use crate::flutter_session;
use crate::flutter_session::{AddOptions, Session, Sessions, StartPlan, TargetReading};
use crate::flutter_state;
use crate::flutter_state::{AppConfig, OptionPlan, PeerConfig};
use crate::flutter_surface;
use crate::flutter_surface::Textures;
use crate::identity;
use crate::bytes;
use crate::json;
use crate::message::Message;
use crate::text;
use crate::viewer;
use crate::viewer::keys;
use crate::viewer::keys::ViewerKey;
use crate::viewer::{AuthCommand, QueueState, Viewer, ViewerError};

pub mod absent;

verus! {

/// Identifies a session.
pub type SessionID = u128;

/// A reply that the frontend waits for.
#[derive(Debug, Clone, Copy, PartialEq, Eq)]
pub struct SyncReturn<T>(pub T);

pub(crate) fn nothing() -> (r: String)
    ensures
        r@ == Seq::<char>::empty(),
{
    let r = String::new();
    assert(r@ =~= Seq::<char>::empty());
    r
}

/// How many sessions there are; every kind of session counts.
#[allow(unused_variables)]
pub fn peer_get_sessions_count(sessions: &Sessions, id: String, conn_type: i32) -> (r: SyncReturn<
    usize,
>)
    ensures
        r.0 == sessions.map@.len(),
{
    SyncReturn(flutter_session::count(sessions, conn_type))
}

/// Joins a session that exists; an empty reply means that it does.
#[allow(unused_variables)]
pub fn session_add_existed_sync(
    sessions: &Sessions,
    id: String,
    session_id: SessionID,
    displays: Vec<i32>,
    is_view_camera: bool,
) -> (r: SyncReturn<String>)
    ensures
        r.0@ == (if sessions.map@.dom().contains(session_id) {
            Seq::empty()
        } else {
            "Session not found"@
        }),
{
    if flutter_session::session_exists(sessions, session_id) {
        SyncReturn(nothing())
    } else {
        SyncReturn("Session not found".to_owned())
    }
}

/// Creates a session; an empty reply means that it was created. `reading` is how `id`
/// reads as an address.
#[allow(unused_variables)]
pub fn session_add_sync(
    sessions: &mut Sessions,
    reading: &TargetReading,
    session_id: SessionID,
    id: String,
    is_file_transfer: bool,
    is_view_camera: bool,
    is_port_forward: bool,
    is_rdp: bool,
    is_terminal: bool,
    switch_uuid: String,
    force_relay: bool,
    password: String,
    is_shared_password: bool,
    conn_token: Option<String>,
) -> (r: SyncReturn<String>)
    ensures
        ({
            let options = AddOptions {
                is_file_transfer,
                is_view_camera,
                is_port_forward,
                is_rdp,
                is_terminal,
                force_relay,
                password,
            };
            let before = old(sessions).map@;
            let after = final(sessions).map@;
            match flutter_session::add_refusal(before, session_id, id@, *reading, options) {
                Some(what) => r.0@ == what && after == before,
                None => {
                    &&& r.0@ == Seq::<char>::empty()
                    &&& after == before.insert(session_id, after[session_id])
                    &&& flutter_session::created(
                        after[session_id],
                        session_id,
                        id@,
                        *reading,
                        options,
                    )
                },
            }
        }),
{
    let options = AddOptions {
        is_file_transfer,
        is_view_camera,
        is_port_forward,
        is_rdp,
        is_terminal,
        force_relay,
        password,
    };
    match crate::flutter_session::add(sessions, session_id, id.as_str(), reading, options) {
        Ok(_) => SyncReturn(nothing()),
        Err(what) => SyncReturn(what),
    }
}

/// What is left to do for a session that starts.
pub struct Started {
    /// The session had a stream for events before, which is to be ended.
    pub replaced: bool,
    /// How to run the viewer; nothing where it runs already.
    pub plan: Option<StartPlan>,
}

/// Whether `r` is the answer to the start of a session with a stream for its events.
pub open spec fn session_start_answer(
    r: Result<Started, String>,
    before: Map<u128, Session>,
    after: Map<u128, Session>,
    textures: Textures,
    textures_after: Textures,
    config: AppConfig,
    public: Seq<char>,
    id: u128,
) -> bool {
    if !before.dom().contains(id) {
        &&& r matches Err(what)
        &&& what@ == "Session not found"@
        &&& after == before
        &&& textures_after == textures
    } else {
        let attached = flutter_session::attached(before, id);
        match r {
            Ok(started) => started.replaced == before[id].events && flutter_session::start_answer(
                Ok(started.plan),
                attached,
                after,
                textures,
                textures_after,
                config,
                public,
                id,
            ),
            Err(what) => flutter_session::start_answer(
                Err(what),
                attached,
                after,
                textures,
                textures_after,
                config,
                public,
                id,
            ),
        }
    }
}

/// Starts a session with a stream for its events.
#[allow(unused_variables)]
pub fn session_start(
    sessions: &mut Sessions,
    textures: &mut Textures,
    config: &AppConfig,
    public: &str,
    session_id: SessionID,
    id: String,
) -> (r: Result<Started, String>)
    ensures
        session_start_answer(
            r,
            old(sessions).map@,
            final(sessions).map@,
            *old(textures),
            *final(textures),
            *config,
            public@,
            session_id,
        ),
{
    let replaced = match flutter_session::attach_stream(sessions, session_id) {
        Err(what) => {
            return Err(what);
        },
        Ok(replaced) => replaced,
    };
    match flutter_session::start(sessions, textures, config, public, session_id) {
        Err(what) => Err(what),
        Ok(plan) => Ok(Started { replaced, plan }),
    }
}

/// Starts a session with a stream for its events; which displays are wanted makes no
/// difference.
#[allow(unused_variables)]
pub fn session_start_with_displays(
    sessions: &mut Sessions,
    textures: &mut Textures,
    config: &AppConfig,
    public: &str,
    session_id: SessionID,
    id: String,
    displays: Vec<i32>,
) -> (r: Result<Started, String>)
    ensures
        session_start_answer(
            r,
            old(sessions).map@,
            final(sessions).map@,
            *old(textures),
            *final(textures),
            *config,
            public@,
            session_id,
        ),
{
    session_start(sessions, textures, config, public, session_id, id)
}

/// Whether a switch of a session is on; nothing where there is no such session.
pub fn session_get_toggle_option(sessions: &Sessions, session_id: SessionID, arg: String) -> (r:
    Option<bool>)
    ensures
        r == (if sessions.map@.dom().contains(session_id) {
            Some(flutter_session::switch_value(arg@))
        } else {
            None
        }),
{
    flutter_session::toggle_option(sessions, session_id, arg.as_str())
}

/// Whether a switch of a session is on; without such a session every one is off.
pub fn session_get_toggle_option_sync(sessions: &Sessions, session_id: SessionID, arg: String) -> (r:
    SyncReturn<bool>)
    ensures
        r.0 == (sessions.map@.dom().contains(session_id) && flutter_session::switch_value(arg@)),
{
    match flutter_session::toggle_option(sessions, session_id, arg.as_str()) {
        Some(on) => SyncReturn(on),
        None => SyncReturn(false),
    }
}

/// The value of an option of a session, where it is known.
pub fn session_get_option(sessions: &Sessions, session_id: SessionID, arg: String) -> (r: Option<
    String,
>)
    ensures
        ({
            let value = if sessions.map@.dom().contains(session_id) {
                flutter_session::option_value(sessions.map@[session_id], arg@)
            } else {
                None
            };
            match r {
                Some(found) => value == Some(found@),
                None => value is None,
            }
        }),
{
    flutter_session::session_option(sessions, session_id, arg.as_str())
}

/// Answers the request for a password. `queue` is the queue for answers.
#[allow(unused_variables)]
pub fn session_login(
    sessions: &Sessions,
    session_id: SessionID,
    os_username: String,
    os_password: String,
    password: String,
    remember: bool,
    queue: QueueState,
) -> (r: Option<Result<AuthCommand, ViewerError>>)
    ensures
        r is Some == (flutter_session::viewer_of(sessions.map@, session_id) is Some),
        r matches Some(answer) ==> viewer::password_answer(answer, password@, queue),
{
    match flutter_session::session_viewer(sessions, session_id) {
        None => None,
        Some(viewer) => Some(viewer.submit_password(password.as_str(), queue)),
    }
}

/// Answers the request for a second factor. `queue` is the queue for answers.
#[allow(unused_variables)]
pub fn session_send2fa(
    sessions: &Sessions,
    session_id: SessionID,
    code: String,
    trust_this_device: bool,
    queue: QueueState,
) -> (r: Option<Result<AuthCommand, ViewerError>>)
    ensures
        r is Some == (flutter_session::viewer_of(sessions.map@, session_id) is Some),
        r matches Some(answer) ==> viewer::factor_answer(answer, code@, queue),
{
    match flutter_session::session_viewer(sessions, session_id) {
        None => None,
        Some(viewer) => Some(viewer.submit_second_factor(code.as_str(), queue)),
    }
}

/// Whether a session is gone.
pub fn will_session_close_close_session(sessions: &Sessions, session_id: SessionID) -> (r:
    SyncReturn<bool>)
    ensures
        r.0 == !sessions.map@.dom().contains(session_id),
{
    SyncReturn(!flutter_session::session_exists(sessions, session_id))
}

/// Whether a session and its texture are gone, with its viewer about to close.
pub open spec fn session_gone(
    r: Option<Session>,
    before: Map<u128, Session>,
    after: Map<u128, Session>,
    textures: Textures,
    textures_after: Textures,
    id: u128,
) -> bool {
    &&& after == before.remove(id)
    &&& textures_after.next == textures.next
    &&& textures_after.leases@ == textures.leases@.remove(id)
    &&& match r {
        Some(session) => before.dom().contains(id) && flutter_session::closing(before[id], session),
        None => !before.dom().contains(id),
    }
}

/// Ends a session, and returns what is left of it.
pub fn session_close(sessions: &mut Sessions, textures: &mut Textures, session_id: SessionID) -> (r:
    Option<Session>)
    ensures
        session_gone(
            r,
            old(sessions).map@,
            final(sessions).map@,
            *old(textures),
            *final(textures),
            session_id,
        ),
{
    let removed = flutter_session::remove(sessions, session_id);
    flutter_surface::release_lease(textures, session_id);
    removed
}

/// Ends a session; the frontend creates it anew.
#[allow(unused_variables)]
pub fn session_reconnect(
    sessions: &mut Sessions,
    textures: &mut Textures,
    session_id: SessionID,
    force_relay: bool,
) -> (r: Option<Session>)
    ensures
        session_gone(
            r,
            old(sessions).map@,
            final(sessions).map@,
            *old(textures),
            *final(textures),
            session_id,
        ),
{
    session_close(sessions, textures, session_id)
}

/// Asks for the picture anew. A display that has no number in the protocol stands for
/// the first one.
pub fn session_refresh(
    sessions: &Sessions,
    session_id: SessionID,
    display: usize,
    queue: QueueState,
) -> (r: Option<Result<Message, ViewerError>>)
    ensures
        r == (match flutter_session::viewer_of(sessions.map@, session_id) {
            None => None,
            Some(viewer) => Some(
                viewer::refresh_result(
                    viewer@,
                    if display <= i32::MAX {
                        display as i32
                    } else {
                        0
                    },
                    queue,
                ),
            ),
        }),
{
    let number: i32 = if display <= 0x7fff_ffff {
        display as i32
    } else {
        0
    };
    match flutter_session::session_viewer(sessions, session_id) {
        None => None,
        Some(viewer) => Some(viewer.refresh_video(number, queue)),
    }
}

/// Flips a switch of a session; this engine has none that can be flipped.
#[allow(unused_variables)]
pub fn session_toggle_option(session_id: SessionID, value: String) {
}

/// Whether `r` is the answer of the viewer of a session to a key.
pub open spec fn key_reply(
    r: Option<Result<Message, ViewerError>>,
    viewer: Option<Viewer>,
    key: Option<ViewerKey>,
    down: bool,
    press: bool,
    modifiers: Seq<ControlKey>,
    queue: QueueState,
) -> bool {
    match (viewer, key) {
        (Some(v), Some(k)) => r matches Some(answer) && viewer::key_answer(
            answer,
            v@,
            k,
            down,
            press,
            modifiers,
            queue,
        ),
        _ => r is None,
    }
}

/// No modifiers.
pub open spec fn no_modifiers() -> Seq<ControlKey> {
    keys::modifiers_held(false, false, false, false)
}

fn plain_key(
    sessions: &Sessions,
    session_id: SessionID,
    key: ViewerKey,
    down: bool,
    queue: QueueState,
) -> (r: Option<Result<Message, ViewerError>>)
    ensures
        key_reply(
            r,
            flutter_session::viewer_of(sessions.map@, session_id),
            Some(key),
            down,
            false,
            no_modifiers(),
            queue,
        ),
{
    match flutter_session::session_viewer(sessions, session_id) {
        None => None,
        Some(viewer) => Some(viewer.send_key(key, down, false, false, false, false, false, queue)),
    }
}

/// Asks the peer to lock its screen.
pub fn session_lock_screen(sessions: &Sessions, session_id: SessionID, queue: QueueState) -> (r:
    Option<Result<Message, ViewerError>>)
    ensures
        key_reply(
            r,
            flutter_session::viewer_of(sessions.map@, session_id),
            Some(ViewerKey::Control(ControlKey::LockScreen)),
            true,
            false,
            no_modifiers(),
            queue,
        ),
{
    plain_key(sessions, session_id, ViewerKey::Control(ControlKey::LockScreen), true, queue)
}

/// Asks the peer for its secure attention sequence.
pub fn session_ctrl_alt_del(sessions: &Sessions, session_id: SessionID, queue: QueueState) -> (r:
    Option<Result<Message, ViewerError>>)
    ensures
        key_reply(
            r,
            flutter_session::viewer_of(sessions.map@, session_id),
            Some(ViewerKey::Control(ControlKey::CtrlAltDel)),
            true,
            false,
            no_modifiers(),
            queue,
        ),
{
    plain_key(sessions, session_id, ViewerKey::Control(ControlKey::CtrlAltDel), true, queue)
}

/// Sends a key by its USB HID usage code and the character of its event. A negative
/// code stands for none.
#[allow(unused_variables)]
pub fn session_handle_flutter_key_event(
    sessions: &Sessions,
    session_id: SessionID,
    character: String,
    usb_hid: i32,
    lock_modes: i32,
    down_or_up: bool,
    queue: QueueState,
) -> (r: Option<Result<Message, ViewerError>>)
    ensures
        key_reply(
            r,
            flutter_session::viewer_of(sessions.map@, session_id),
            keys::hid_key(
                if usb_hid < 0 {
                    0
                } else {
                    usb_hid as u32
                },
                character@,
            ),
            down_or_up,
            false,
            no_modifiers(),
            queue,
        ),
{
    let code: u32 = if usb_hid < 0 {
        0
    } else {
        usb_hid as u32
    };
    match keys::usb_hid_key(code, character.as_str()) {
        None => None,
        Some(key) => plain_key(sessions, session_id, key, down_or_up, queue),
    }
}

/// Sends a key of the platform by its name.
#[allow(unused_variables)]
pub fn session_handle_flutter_raw_key_event(
    sessions: &Sessions,
    session_id: SessionID,
    name: String,
    platform_code: i32,
    position_code: i32,
    lock_modes: i32,
    down_or_up: bool,
    queue: QueueState,
) -> (r: Option<Result<Message, ViewerError>>)
    ensures
        key_reply(
            r,
            flutter_session::viewer_of(sessions.map@, session_id),
            keys::named_key(name@),
            down_or_up,
            false,
            no_modifiers(),
            queue,
        ),
{
    match keys::legacy_key_name(name.as_str()) {
        None => None,
        Some(key) => plain_key(sessions, session_id, key, down_or_up, queue),
    }
}

/// The keyboard focus enters or leaves a session. It is no matter of the peer.
pub fn session_enter_or_leave(_session_id: SessionID, _enter: bool) -> (r: SyncReturn<()>) {
    SyncReturn(())
}

/// Sends a key by its name, with modifiers.
pub fn session_input_key(
    sessions: &Sessions,
    session_id: SessionID,
    name: String,
    down: bool,
    press: bool,
    alt: bool,
    ctrl: bool,
    shift: bool,
    command: bool,
    queue: QueueState,
) -> (r: Option<Result<Message, ViewerError>>)
    ensures
        key_reply(
            r,
            flutter_session::viewer_of(sessions.map@, session_id),
            keys::named_key(name@),
            down,
            press,
            keys::modifiers_held(alt, ctrl, shift, command),
            queue,
        ),
{
    match keys::legacy_key_name(name.as_str()) {
        None => None,
        Some(key) => match flutter_session::session_viewer(sessions, session_id) {
            None => None,
            Some(viewer) => Some(
                viewer.send_key(key, down, press, alt, ctrl, shift, command, queue),
            ),
        },
    }
}

/// Types a text.
pub fn session_input_string(
    sessions: &Sessions,
    session_id: SessionID,
    value: String,
    queue: QueueState,
) -> (r: Option<Result<Message, ViewerError>>)
    ensures
        match flutter_session::viewer_of(sessions.map@, session_id) {
            None => r is None,
            Some(viewer) => r matches Some(answer) && viewer::text_answer(
                answer,
                viewer@,
                value@,
                queue,
            ),
        },
{
    match flutter_session::session_viewer(sessions, session_id) {
        None => None,
        Some(viewer) => Some(viewer.send_text(value.as_str(), queue)),
    }
}

/// Types the password of the user of the peer.
pub fn session_input_os_password(
    sessions: &Sessions,
    session_id: SessionID,
    value: String,
    queue: QueueState,
) -> (r: Option<Result<Message, ViewerError>>)
    ensures
        match flutter_session::viewer_of(sessions.map@, session_id) {
            None => r is None,
            Some(viewer) => r matches Some(answer) && viewer::text_answer(
                answer,
                viewer@,
                value@,
                queue,
            ),
        },
{
    session_input_string(sessions, session_id, value, queue)
}

/// Sets an option of the peer of a session, and tells whether its configuration `peer`
/// has to be stored.
pub fn session_peer_option(
    sessions: &Sessions,
    peer: &mut PeerConfig,
    session_id: SessionID,
    name: String,
    value: String,
) -> (r: bool)
    ensures
        r == (sessions.map@.dom().contains(session_id) && name@.len() > 0
            && vstd::utf8::encode_utf8(value@).len() <= flutter_state::MAX_PEER_VALUE),
        final(peer).options@ == (if r {
            entries::placed(old(peer).options@, name@, value@)
        } else {
            old(peer).options@
        }),
        final(peer).password == old(peer).password,
        final(peer).hostname == old(peer).hostname,
{
    flutter_session::set_peer_option(sessions, peer, session_id, name.as_str(), value.as_str())
}

/// The value of an option of the peer of a session, or nothing.
pub fn session_get_peer_option(
    sessions: &Sessions,
    peer: &PeerConfig,
    session_id: SessionID,
    name: String,
) -> (r: String)
    ensures
        r@ == (if sessions.map@.dom().contains(session_id) {
            entries::value_or_empty(peer.options@, name@)
        } else {
            Seq::empty()
        }),
{
    flutter_session::peer_option(sessions, peer, session_id, name.as_str())
}

/// What the viewer of a session answers to the pointer event that fields describe.
pub open spec fn pointer_reply(
    viewer: Option<Viewer>,
    fields: Seq<json::FieldView>,
    queue: QueueState,
) -> Option<Result<Message, ViewerError>> {
    match (viewer, flutter_input::described_event(fields)) {
        (Some(v), Some(event)) => Some(
            viewer::mouse_result(
                v@,
                (event.mask % 8) as u32,
                (event.mask / 8) as u32,
                event.x,
                event.y,
                queue,
            ),
        ),
        _ => None,
    }
}

/// Sends the pointer event that fields describe, where they describe one. `queue` is
/// the queue for input.
pub fn send_described_pointer(
    sessions: &Sessions,
    session_id: SessionID,
    fields: &[json::Field],
    queue: QueueState,
) -> (r: Option<Result<Message, ViewerError>>)
    ensures
        r == pointer_reply(
            flutter_session::viewer_of(sessions.map@, session_id),
            json::field_views(fields@),
            queue,
        ),
{
    match (flutter_input::mouse_event_from_json(fields), flutter_input::decode_pointer(fields)) {
        (Some(event), Some((kind, button))) => match flutter_session::session_viewer(
            sessions,
            session_id,
        ) {
            None => None,
            Some(viewer) => Some(viewer.send_mouse(kind, button, event.x, event.y, queue)),
        },
        _ => None,
    }
}

/// Sends the pointer event of a JSON text.
pub fn session_send_mouse(
    sessions: &Sessions,
    session_id: SessionID,
    msg: String,
    queue: QueueState,
) -> (r: Option<Result<Message, ViewerError>>)
    ensures
        r == (match json::json_fields(msg@) {
            None => None,
            Some(fields) => pointer_reply(
                flutter_session::viewer_of(sessions.map@, session_id),
                fields,
                queue,
            ),
        }),
{
    match json::read_fields(msg.as_str()) {
        None => None,
        Some(fields) => send_described_pointer(sessions, session_id, fields.as_slice(), queue),
    }
}

/// Sends the gesture of a JSON text, which is a pointer event too.
pub fn session_send_pointer(
    sessions: &Sessions,
    session_id: SessionID,
    msg: String,
    queue: QueueState,
) -> (r: Option<Result<Message, ViewerError>>)
    ensures
        r == (match json::json_fields(msg@) {
            None => None,
            Some(fields) => pointer_reply(
                flutter_session::viewer_of(sessions.map@, session_id),
                fields,
                queue,
            ),
        }),
{
    session_send_mouse(sessions, session_id, msg, queue)
}

/// The identifier of a session as a text.
pub fn session_get_conn_session_id(session_id: SessionID) -> (r: SyncReturn<String>)
    ensures
        forall|b: Seq<u8>|
            b.len() == 16 && #[trigger] bytes::be_value(b) == session_id ==> r.0@
                == identity::uuid_text(b),
{
    SyncReturn(identity::id_text(session_id))
}

/// Whether the user goes on with a peer that is not verified.
pub open spec fn goes_on(value: Seq<char>) -> bool {
    text::lowered(value) == "y"@
}

/// Answers the question whether to go on with a peer that is not verified; a viewer
/// that is not to go on closes. Nothing else can be set. `queue` is the queue for
/// answers.
pub fn session_set_common(
    sessions: &mut Sessions,
    session_id: SessionID,
    key: String,
    value: String,
    queue: QueueState,
) -> (r: Option<Result<AuthCommand, ViewerError>>)
    ensures
        ({
            let before = old(sessions).map@;
            let after = final(sessions).map@;
            if key@ == "continue-insecure-connection"@ && flutter_session::viewer_of(
                before,
                session_id,
            ) is Some {
                &&& r matches Some(answer)
                &&& viewer::insecure_answer(answer, goes_on(value@), queue)
                &&& if goes_on(value@) {
                    after == before
                } else {
                    &&& after == before.insert(session_id, after[session_id])
                    &&& flutter_session::closing(before[session_id], after[session_id])
                }
            } else {
                r is None && after == before
            }
        }),
{
    if !text::same_text(key.as_str(), "continue-insecure-connection") {
        return None;
    }
    let allow = text::same_text(text::ascii_lowercase(value.as_str()).as_str(), "y");
    let answer = match flutter_session::session_viewer(sessions, session_id) {
        None => {
            return None;
        },
        Some(viewer) => viewer.continue_insecure(allow, queue),
    };
    if !allow {
        flutter_session::close_viewer(sessions, session_id);
    }
    Some(answer)
}

/// The value of an option of the frontend, or nothing.
pub fn get_local_flutter_option(config: &AppConfig, k: String) -> (r: SyncReturn<String>)
    ensures
        r.0@ == entries::value_or_empty(config.local_options@, k@),
{
    SyncReturn(flutter_state::get_local_option(config, k.as_str()))
}

/// The value of an option of this machine alone, or nothing.
pub fn main_get_local_option(config: &AppConfig, key: String) -> (r: SyncReturn<String>)
    ensures
        r.0@ == entries::value_or_empty(config.local_options@, key@),
{
    SyncReturn(flutter_state::get_local_option(config, key.as_str()))
}

/// The value of an option, or nothing.
pub fn main_get_option(config: &AppConfig, key: String) -> (r: String)
    ensures
        r@ == entries::value_or_empty(config.options@, key@),
{
    flutter_state::get_option(config, key.as_str())
}

/// The value of an option, or nothing.
pub fn main_get_option_sync(config: &AppConfig, key: String) -> (r: SyncReturn<String>)
    ensures
        r.0@ == entries::value_or_empty(config.options@, key@),
{
    SyncReturn(flutter_state::get_option(config, key.as_str()))
}

/// All options as a JSON text.
pub fn main_get_options(config: &AppConfig) -> (r: String)
    ensures
        r@ == flutter_state::as_texts(json::ObjectView::empty(), config.options@).text(),
{
    flutter_state::options_json(config)
}

/// All options as a JSON text.
pub fn main_get_options_sync(config: &AppConfig) -> (r: SyncReturn<String>)
    ensures
        r.0@ == flutter_state::as_texts(json::ObjectView::empty(), config.options@).text(),
{
    SyncReturn(flutter_state::options_json(config))
}

/// What is to be done for a JSON text to take the place of all options.
pub fn main_set_options(config: &AppConfig, json: String) -> (r: OptionPlan)
    ensures
        match json::json_object(json@) {
            Some(fields) => flutter_state::pair_views(r.writes@) == flutter_state::writes_of(
                fields,
            ) && text::texts(r.removals@) == flutter_state::gone_keys(
                config.options@,
                flutter_state::writes_of(fields),
            ),
            None => r.writes@.len() == 0 && r.removals@.len() == 0,
        },
{
    flutter_state::option_plan(&config.options, json.as_str())
}

/// What became of the last job.
pub fn main_get_async_status() -> (r: String)
    ensures
        r@ == Seq::<char>::empty(),
{
    flutter_state::async_job_status()
}

/// What went wrong last.
pub fn main_get_error() -> (r: String)
    ensures
        r@ == Seq::<char>::empty(),
{
    flutter_state::last_error()
}

/// The name of the product.
pub fn main_get_app_name() -> (r: String)
    ensures
        r@ == "RustDesk"@,
{
    flutter_state::app_name()
}

/// The name of the product.
pub fn main_get_app_name_sync() -> (r: SyncReturn<String>)
    ensures
        r.0@ == "RustDesk"@,
{
    SyncReturn(flutter_state::app_name())
}

/// The scheme of links.
pub fn main_uri_prefix_sync() -> (r: SyncReturn<String>)
    ensures
        r.0@ == "rustdesk"@,
{
    SyncReturn(flutter_state::uri_prefix())
}

/// The licence of a custom client.
pub fn main_get_license() -> (r: String)
    ensures
        r@ == Seq::<char>::empty(),
{
    flutter_state::license()
}

/// The version that peers are told.
pub fn main_get_version() -> (r: String)
    ensures
        r@ == "1.4.9"@,
{
    flutter_state::version()
}

/// The state of the connection to the server, of which there is none.
pub fn main_get_connect_status() -> (r: String)
    ensures
        r@ == Seq::<char>::empty(),
{
    flutter_state::connect_status()
}

/// Nothing is kept of the state of the connection that could be brought up to date.
pub fn main_check_connect_status() {
}

/// Whether the public server is used.
pub fn main_is_using_public_server(config: &AppConfig, public: &str) -> (r: bool)
    ensures
        r == (flutter_surface::chosen_key(
            entries::value_or_empty(config.options@, "key"@),
            public@,
        ) == public@),
{
    flutter_state::is_using_public_server(config, public)
}

/// The server of accounts.
pub fn main_get_api_server() -> (r: String)
    ensures
        r@ == Seq::<char>::empty(),
{
    flutter_state::api_server()
}

/// The number by which peers know this machine.
pub fn main_get_my_id(config: &AppConfig) -> (r: String)
    ensures
        r@ == config.id@,
{
    flutter_state::my_id(config)
}

/// What identifies the machine, written out; nothing where it is not sixteen bytes.
pub fn main_get_uuid(config: &AppConfig) -> (r: String)
    ensures
        r@ == (if config.machine@.len() == 16 {
            identity::uuid_text(config.machine@)
        } else {
            Seq::empty()
        }),
{
    flutter_state::uuid(config)
}

/// The value of an option of a peer, or nothing.
#[allow(unused_variables)]
pub fn main_get_peer_option(peer: &PeerConfig, id: String, key: String) -> (r: String)
    ensures
        r@ == entries::value_or_empty(peer.options@, key@),
{
    flutter_state::peer_option(peer, key.as_str())
}

/// The value of an option of a peer, or nothing.
#[allow(unused_variables)]
pub fn main_get_peer_option_sync(peer: &PeerConfig, id: String, key: String) -> (r: SyncReturn<
    String,
>)
    ensures
        r.0@ == entries::value_or_empty(peer.options@, key@),
{
    SyncReturn(flutter_state::peer_option(peer, key.as_str()))
}

/// The value of an option of the frontend for a peer, or nothing.
#[allow(unused_variables)]
pub fn main_get_peer_flutter_option_sync(peer: &PeerConfig, id: String, k: String) -> (r:
    SyncReturn<String>)
    ensures
        r.0@ == entries::value_or_empty(peer.options@, flutter_state::flutter_key(k@)),
{
    SyncReturn(flutter_state::peer_flutter_option(peer, k.as_str()))
}

/// Sets an option of the frontend for a peer.
pub fn main_set_peer_flutter_option_sync(peer: &mut PeerConfig, id: String, k: String, v: String) -> (r:
    SyncReturn<()>)
    ensures
        final(peer).options@ == (if flutter_state::settable(id@, k@, v@) {
            entries::placed(old(peer).options@, flutter_state::flutter_key(k@), v@)
        } else {
            old(peer).options@
        }),
        final(peer).password == old(peer).password,
        final(peer).hostname == old(peer).hostname,
{
    let _ = flutter_state::set_peer_flutter_option(peer, id.as_str(), k.as_str(), v.as_str());
    SyncReturn(())
}

/// Sets an option of a peer, and tells whether its configuration has to be stored.
pub fn main_set_peer_option(peer: &mut PeerConfig, id: String, key: String, value: String) -> (r:
    bool)
    ensures
        r == flutter_state::settable(id@, key@, value@),
        final(peer).options@ == (if r {
            entries::placed(old(peer).options@, key@, value@)
        } else {
            old(peer).options@
        }),
        final(peer).password == old(peer).password,
        final(peer).hostname == old(peer).hostname,
{
    flutter_state::set_peer_option(peer, id.as_str(), key.as_str(), value.as_str())
}

/// Sets an option of a peer. The reply says that the call was taken.
pub fn main_set_peer_option_sync(peer: &mut PeerConfig, id: String, key: String, value: String) -> (r:
    SyncReturn<bool>)
    ensures
        r.0,
        final(peer).options@ == (if flutter_state::settable(id@, key@, value@) {
            entries::placed(old(peer).options@, key@, value@)
        } else {
            old(peer).options@
        }),
        final(peer).password == old(peer).password,
        final(peer).hostname == old(peer).hostname,
{
    let _ = flutter_state::set_peer_option(peer, id.as_str(), key.as_str(), value.as_str());
    SyncReturn(true)
}

/// Gives a peer another name, and tells whether its configuration has to be stored.
pub fn main_set_peer_alias(peer: &mut PeerConfig, id: String, alias: String) -> (r: bool)
    ensures
        r == (id@.len() > 0 && vstd::utf8::encode_utf8(alias@).len()
            <= flutter_state::MAX_PEER_VALUE),
        final(peer).options@ == (if r {
            entries::placed(old(peer).options@, "alias"@, alias@)
        } else {
            old(peer).options@
        }),
        final(peer).password == old(peer).password,
        final(peer).hostname == old(peer).hostname,
{
    flutter_state::set_peer_alias(peer, id.as_str(), alias.as_str())
}

/// Forgets the password of a peer.
#[allow(unused_variables)]
pub fn main_forget_password(peer: &mut PeerConfig, id: String)
    ensures
        final(peer).password@ == Seq::<u8>::empty(),
        final(peer).options == old(peer).options,
        final(peer).hostname == old(peer).hostname,
{
    flutter_state::forget_password(peer)
}

/// Whether a password of a peer is stored.
#[allow(unused_variables)]
pub fn main_peer_has_password(peer: &PeerConfig, id: String) -> (r: bool)
    ensures
        r == (peer.password@.len() > 0),
{
    flutter_state::peer_has_password(peer)
}

/// Whether anything is known of a peer.
#[allow(unused_variables)]
pub fn main_peer_exists(peer: &PeerConfig, id: String) -> (r: bool)
    ensures
        r == (peer.options@.len() > 0 || peer.hostname@.len() > 0),
{
    flutter_state::peer_exists(peer)
}

/// Whether everything stored about a peer is to be removed.
pub fn main_remove_peer(id: String) -> (r: bool)
    ensures
        r == (0 < vstd::utf8::encode_utf8(id@).len() <= 256),
{
    flutter_state::remove_peer(id.as_str())
}

/// Whether the build fixes an option.
pub fn main_is_option_fixed(key: String) -> (r: SyncReturn<bool>)
    ensures
        !r.0,
{
    SyncReturn(flutter_state::is_option_fixed(key.as_str()))
}

/// The languages that the settings offer, as a JSON array.
pub fn main_get_langs() -> (r: String)
    ensures
        r@ == json::array_of(
            seq![
                flutter_state::language("en"@, "English"@),
                flutter_state::language("zh-cn"@, "简体中文"@),
            ],
        ),
{
    flutter_state::langs_json()
}

/// The release, in place of the date of a build.
pub fn main_get_build_date() -> (r: String)
    ensures
        r@ == flutter_state::PACKAGE_VERSION@,
{
    flutter_state::build_date()
}

/// The text for a key in a language.
pub fn translate(name: String, locale: String) -> (r: SyncReturn<String>)
    ensures
        r.0@ == name@,
{
    SyncReturn(flutter_state::translate(name, locale))
}

/// Whether the options are in step with the service: there is no other place where
/// they are kept.
pub fn option_synced() -> (r: bool)
    ensures
        r,
{
    true
}

/// What the settings ask for by name, or nothing.
pub fn main_get_common(config: &AppConfig, key: String) -> (r: String)
    ensures
        r@ == (match flutter_state::common_value(*config, key@) {
            Some(value) => value,
            None => Seq::empty(),
        }),
{
    match flutter_state::common(config, key.as_str()) {
        Some(value) => value,
        None => nothing(),
    }
}

/// What the settings ask for by name, or nothing.
pub fn main_get_common_sync(config: &AppConfig, key: String) -> (r: SyncReturn<String>)
    ensures
        r.0@ == (match flutter_state::common_value(*config, key@) {
            Some(value) => value,
            None => Seq::empty(),
        }),
{
    SyncReturn(main_get_common(config, key))
}

/// Nothing is sent to a session without a viewer, whatever is asked for.
pub proof fn lemma_no_viewer_no_input(
    r: Option<Result<Message, ViewerError>>,
    sessions: Map<u128, Session>,
    id: u128,
    key: Option<ViewerKey>,
    down: bool,
    press: bool,
    modifiers: Seq<ControlKey>,
    fields: Seq<json::FieldView>,
    queue: QueueState,
)
    requires
        flutter_session::viewer_of(sessions, id) is None,
    ensures
        key_reply(
            r,
            flutter_session::viewer_of(sessions, id),
            key,
            down,
            press,
            modifiers,
            queue,
        ) == (r is None),
        pointer_reply(flutter_session::viewer_of(sessions, id), fields, queue) is None,
{
}

} // verus!

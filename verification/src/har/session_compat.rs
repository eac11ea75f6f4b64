//! Sessions of the application.
//!
//! A session is created with a target and options, gets a surface, and then runs until
//! it is closed. The application asks for events; each change is one event, and events
//! wait until they are asked for. Replies are JSON texts with the state of the session.
use std::collections::VecDeque;
use vstd::prelude::*;
use crate::flutter_session;
use crate::flutter_session::{Route, TargetReading};
use crate::flutter_state::AppConfig;
use crate::flutter_surface;
use crate::flutter_surface::RendezvousConfig;
use crate::har::engine;
use crate::host::Address;
use crate::json;
use crate::message::Message;
use crate::text;
use crate::viewer;
use crate::viewer::{AuthCommand, Connector, QueueState, Viewer, ViewerImageQuality, ViewerOptions, ViewerSnapshot};

verus! {

/// Most sessions at once.
pub const MAX_COMPAT_SESSIONS: usize = 6;

/// Most events that are handed out at once.
pub const MAX_POLLED_EVENTS: u32 = 256;

/// The surface of a session, which may come after the session was started. Once there
/// is one, there is never another.
#[derive(Debug, Clone, Copy, PartialEq, Eq, Structural)]
pub struct DeferredSurface {
    pub lease: Option<u64>,
    pub cancelled: bool,
}

impl DeferredSurface {
    /// Why a surface is not bound, if it is not.
    pub open spec fn refusal(self, id: u64, retained: bool) -> Option<Seq<char>> {
        if !retained {
            Some("Cannot retain Surface"@)
        } else if self.cancelled {
            Some("Session is closing"@)
        } else if self.lease is Some && self.lease != Some(id) {
            Some("A running decoder cannot be rebound to another Surface"@)
        } else {
            None
        }
    }

    /// No surface yet.
    pub fn new() -> (r: DeferredSurface)
        ensures
            r.lease is None,
            !r.cancelled,
    {
        DeferredSurface { lease: None, cancelled: false }
    }

    /// Binds a surface; `retained` tells whether the platform keeps it.
    pub fn bind(&mut self, id: u64, retained: bool) -> (r: Result<(), String>)
        ensures
            match r {
                Ok(_) => old(self).refusal(id, retained) is None && *final(self) == (
                DeferredSurface { lease: Some(id), ..*old(self) }),
                Err(what) => old(self).refusal(id, retained) == Some(what@) && *final(self) == *old(self),
            },
    {
        if !retained {
            return Err("Cannot retain Surface".to_owned());
        }
        if self.cancelled {
            return Err("Session is closing".to_owned());
        }
        if let Some(current) = self.lease {
            if current == id {
                return Ok(());
            }
            return Err("A running decoder cannot be rebound to another Surface".to_owned());
        }
        self.lease = Some(id);
        Ok(())
    }

    /// Nobody waits for a surface any more.
    pub fn cancel(&mut self)
        ensures
            *final(self) == (DeferredSurface { cancelled: true, ..*old(self) }),
    {
        self.cancelled = true;
    }

    /// The surface to open a decoder on: the one that is bound, none where nobody waits
    /// any more, and nothing as long as it has to be waited for.
    pub fn surface_id(&self) -> (r: Option<u64>)
        ensures
            r == (if self.lease is Some {
                self.lease
            } else if self.cancelled {
                Some(0u64)
            } else {
                None
            }),
    {
        match self.lease {
            Some(id) => Some(id),
            None => {
                if self.cancelled {
                    Some(0)
                } else {
                    None
                }
            },
        }
    }
}

/// A session.
pub struct CompatSession {
    pub id: String,
    pub target: String,
    pub route: Route,
    pub password: String,
    pub initial_password_supplied: bool,
    pub force_relay: bool,
    pub view_only: bool,
    pub requested_fps: u32,
    pub codec_preference: String,
    pub image_quality: String,
    pub show_remote_cursor: bool,
    pub disable_audio: bool,
    pub phase: String,
    pub viewer: Option<Viewer>,
    pub surface: DeferredSurface,
    /// Events that wait to be asked for, as JSON texts.
    pub pending_events: VecDeque<String>,
    pub last_engine_phase: String,
    pub login_attempts: u64,
    pub prompted_login_attempts: u64,
    pub peer_info_emitted: bool,
    pub permission_emitted: bool,
    pub close_emitted: bool,
    pub last_codec: String,
}

/// All sessions.
pub struct CompatSessions {
    pub items: Vec<CompatSession>,
}

/// Where the session `id` stands; the number of sessions where there is none.
pub open spec fn place(items: Seq<CompatSession>, id: Seq<char>) -> int
    decreases items.len(),
{
    if items.len() == 0 {
        0
    } else if items[0].id@ == id {
        0
    } else {
        1 + place(items.skip(1), id)
    }
}

/// Whether there is a session `id`.
pub open spec fn known(items: Seq<CompatSession>, id: Seq<char>) -> bool {
    place(items, id) < items.len()
}

proof fn lemma_place(items: Seq<CompatSession>, id: Seq<char>, i: int)
    requires
        0 <= i <= items.len(),
        forall|j: int| 0 <= j < i ==> (#[trigger] items[j]).id@ != id,
        i < items.len() ==> items[i].id@ == id,
    ensures
        place(items, id) == i,
    decreases i,
{
    if i > 0 {
        assert forall|j: int| 0 <= j < i - 1 implies (#[trigger] items.skip(1)[j]).id@ != id by {
            assert(items.skip(1)[j] == items[j + 1]);
        }
        lemma_place(items.skip(1), id, i - 1);
        assert(items[0].id@ != id);
    }
}

proof fn lemma_place_bounds(items: Seq<CompatSession>, id: Seq<char>)
    ensures
        0 <= place(items, id) <= items.len(),
        place(items, id) < items.len() ==> items[place(items, id)].id@ == id,
        forall|j: int| 0 <= j < place(items, id) ==> (#[trigger] items[j]).id@ != id,
    decreases items.len(),
{
    if items.len() > 0 && items[0].id@ != id {
        lemma_place_bounds(items.skip(1), id);
        assert forall|j: int| 0 <= j < place(items, id) implies (#[trigger] items[j]).id@ != id by {
            if j > 0 {
                assert(items.skip(1)[j - 1] == items[j]);
            }
        }
    }
}

impl CompatSessions {
    /// No sessions.
    pub fn new() -> (r: CompatSessions)
        ensures
            r.items@.len() == 0,
            r.wf(),
    {
        CompatSessions { items: Vec::new() }
    }

    /// There are not too many sessions, and no two have the same identifier.
    pub open spec fn wf(self) -> bool {
        &&& self.items@.len() <= MAX_COMPAT_SESSIONS
        &&& forall|i: int, j: int|
            0 <= i < j < self.items@.len() ==> (#[trigger] self.items@[i]).id@ != (
            #[trigger] self.items@[j]).id@
    }

    /// Where the session `id` stands, if there is one.
    pub fn find(&self, id: &str) -> (r: Option<usize>)
        ensures
            match r {
                Some(i) => i == place(self.items@, id@) && i < self.items@.len()
                    && self.items@[i as int].id@ == id@,
                None => !known(self.items@, id@) && place(self.items@, id@) == self.items@.len(),
            },
    {
        let mut i: usize = 0;
        while i < self.items.len()
            invariant
                i <= self.items@.len(),
                forall|j: int| 0 <= j < i ==> (#[trigger] self.items@[j]).id@ != id@,
            decreases self.items@.len() - i,
        {
            if text::same_text(self.items[i].id.as_str(), id) {
                proof {
                    lemma_place(self.items@, id@, i as int);
                }
                return Some(i);
            }
            i = i + 1;
        }
        proof {
            lemma_place(self.items@, id@, i as int);
        }
        None
    }
}

/// The phase that a session shows: that of its viewer, or else its own.
pub open spec fn shown_phase(session: CompatSession) -> Seq<char> {
    match session.viewer {
        Some(viewer) => viewer@.seen().phase,
        None => session.phase@,
    }
}

/// A session as a JSON object.
pub open spec fn session_json(session: CompatSession) -> Seq<char> {
    json::ObjectView::empty().with("sessionId"@, json::json_string(session.id@)).with(
        "coreSessionId"@,
        json::json_string("enhanced:"@ + session.id@),
    ).with("phase"@, json::json_string(shown_phase(session))).with(
        "peerTarget"@,
        json::json_string(session.target@),
    ).with("viewOnly"@, text::truth(session.view_only)).text()
}

fn session_value(session: &CompatSession) -> (r: String)
    ensures
        r@ == session_json(*session),
{
    let phase = match &session.viewer {
        Some(viewer) => viewer.snapshot().phase,
        None => session.phase.clone(),
    };
    let mut object = json::Object::new();
    object.put_text("sessionId", session.id.as_str());
    object.put_text("coreSessionId", text::joined("enhanced:", session.id.as_str()).as_str());
    object.put_text("phase", phase.as_str());
    object.put_text("peerTarget", session.target.as_str());
    object.put_bool("viewOnly", session.view_only);
    object.text()
}

/// A reply: what was asked for, whether it was done, a text, and the session.
pub open spec fn reply(
    name: Seq<char>,
    ok: bool,
    message: Seq<char>,
    session: Option<CompatSession>,
) -> Seq<char> {
    json::ObjectView::empty().with("ok"@, text::truth(ok)).with(
        "action"@,
        json::json_string(name),
    ).with("message"@, json::json_string(message)).with(
        "session"@,
        match session {
            Some(s) => session_json(s),
            None => "null"@,
        },
    ).text()
}

/// A session, if there is one, by value.
pub open spec fn held(session: Option<&CompatSession>) -> Option<CompatSession> {
    match session {
        Some(s) => Some(*s),
        None => None,
    }
}

/// The JSON text of a reply.
pub fn action(name: &str, ok: bool, message: &str, session: Option<&CompatSession>) -> (r: String)
    ensures
        r@ == reply(name@, ok, message@, held(session)),
{
    let mut object = json::Object::new();
    object.put_bool("ok", ok);
    object.put_text("action", name);
    object.put_text("message", message);
    match session {
        Some(s) => object.put("session", session_value(s).as_str()),
        None => object.put("session", "null"),
    }
    object.text()
}

/// The event of a box with a message.
pub open spec fn password_event(retry: bool) -> Seq<char> {
    flutter_session::box_event(
        if retry {
            "re-input-password"@
        } else {
            "input-password"@
        },
        "Password Required"@,
        if retry {
            "Wrong Password"@
        } else {
            "Password Required"@
        },
    )
}

/// The event with the peer: nothing is known of it but the target.
pub open spec fn peer_event(target: Seq<char>, s: viewer::ViewerSnapshotView) -> Seq<char> {
    flutter_session::enveloped(
        seq![
            ("name"@, "peer_info"@),
            ("username"@, Seq::empty()),
            ("hostname"@, target),
            ("platform"@, Seq::empty()),
            ("version"@, Seq::empty()),
            ("current_display"@, "0"@),
            (
                "displays"@,
                json::array_of(seq![flutter_session::stream_display(s.width, s.height)]),
            ),
        ],
    )
}

fn peer_text(target: &str, s: &ViewerSnapshot) -> (r: String)
    ensures
        r@ == peer_event(target@, s@),
{
    let mut displays: Vec<String> = Vec::new();
    displays.push(flutter_session::stream_display_text(s.width, s.height));
    assert(text::texts(displays@) =~= seq![
        flutter_session::stream_display(s.width, s.height),
    ]);
    let mut fields: Vec<(&'static str, String)> = Vec::new();
    fields.push(("name", "peer_info".to_owned()));
    fields.push(("username", String::new()));
    fields.push(("hostname", target.to_owned()));
    fields.push(("platform", String::new()));
    fields.push(("version", String::new()));
    fields.push(("current_display", "0".to_owned()));
    fields.push(("displays", json::array_text(&displays)));
    assert(flutter_session::named_values(fields@) =~= seq![
        ("name"@, "peer_info"@),
        ("username"@, Seq::<char>::empty()),
        ("hostname"@, target@),
        ("platform"@, Seq::<char>::empty()),
        ("version"@, Seq::<char>::empty()),
        ("current_display"@, "0"@),
        ("displays"@, json::array_of(seq![flutter_session::stream_display(s.width, s.height)])),
    ]);
    flutter_session::envelope(&fields)
}

/// The event with what the peer allows.
pub open spec fn keyboard_event(allowed: bool) -> Seq<char> {
    flutter_session::enveloped(
        seq![("name"@, "permission"@), ("keyboard"@, text::truth(allowed))],
    )
}

fn keyboard_text(allowed: bool) -> (r: String)
    ensures
        r@ == keyboard_event(allowed),
{
    let mut fields: Vec<(&'static str, String)> = Vec::new();
    fields.push(("name", "permission".to_owned()));
    fields.push(("keyboard", text::truth_text(allowed).to_owned()));
    assert(flutter_session::named_values(fields@) =~= seq![
        ("name"@, "permission"@),
        ("keyboard"@, text::truth(allowed)),
    ]);
    flutter_session::envelope(&fields)
}

/// The event of the end.
pub open spec fn close_event() -> Seq<char> {
    flutter_session::enveloped(seq![("name"@, "close"@)])
}

fn close_text() -> (r: String)
    ensures
        r@ == close_event(),
{
    let mut fields: Vec<(&'static str, String)> = Vec::new();
    fields.push(("name", "close".to_owned()));
    assert(flutter_session::named_values(fields@) =~= seq![("name"@, "close"@)]);
    flutter_session::envelope(&fields)
}

/// Whether the user has to be asked for a password.
pub open spec fn asks_password(session: CompatSession, s: viewer::ViewerSnapshotView) -> bool {
    s.phase == "awaiting_password"@ && (session.last_engine_phase@ != s.phase
        || session.prompted_login_attempts != session.login_attempts)
}

/// What the user is asked.
pub open spec fn question_events(session: CompatSession, s: viewer::ViewerSnapshotView) -> Seq<
    Seq<char>,
> {
    let changed = session.last_engine_phase@ != s.phase;
    flutter_session::event_if(
        changed && s.phase == "awaiting_insecure_confirmation"@,
        flutter_session::insecure_event(),
    ) + flutter_session::event_if(
        asks_password(session, s),
        password_event(session.initial_password_supplied || session.login_attempts > 0),
    ) + flutter_session::event_if(
        changed && flutter_session::waits_for_factor(s.phase),
        flutter_session::factor_event(s.phase),
    )
}

/// What is reported of the connection, the peer and the picture.
pub open spec fn status_events(session: CompatSession, s: viewer::ViewerSnapshotView) -> Seq<
    Seq<char>,
> {
    let introduce = s.phase == "authenticated"@ && !session.peer_info_emitted;
    flutter_session::event_if(introduce, flutter_session::ready_event(s))
        + flutter_session::event_if(introduce, peer_event(session.target@, s))
        + flutter_session::event_if(
        (session.peer_info_emitted || introduce) && !session.permission_emitted,
        keyboard_event(s.keyboard_allowed),
    ) + flutter_session::event_if(
        s.codec.len() > 0 && session.last_codec@ != s.codec,
        flutter_session::codec_event(s.codec),
    )
}

/// What is reported of the end.
pub open spec fn end_events(session: CompatSession, s: viewer::ViewerSnapshotView) -> Seq<
    Seq<char>,
> {
    let ended = s.closed && !session.close_emitted;
    flutter_session::event_if(
        ended && s.error is Some,
        flutter_session::box_event("error"@, "Connection Error"@, s.error->0),
    ) + flutter_session::event_if(ended, close_event())
}

/// All that is reported.
pub open spec fn engine_events(session: CompatSession, s: viewer::ViewerSnapshotView) -> Seq<
    Seq<char>,
> {
    question_events(session, s) + status_events(session, s) + end_events(session, s)
}

/// Whether `after` is the session after all of that was reported.
pub open spec fn reported(
    before: CompatSession,
    after: CompatSession,
    s: viewer::ViewerSnapshotView,
) -> bool {
    let known = before.peer_info_emitted || s.phase == "authenticated"@;
    &&& after == (CompatSession {
        phase: after.phase,
        pending_events: after.pending_events,
        last_engine_phase: after.last_engine_phase,
        prompted_login_attempts: if asks_password(before, s) {
            before.login_attempts
        } else {
            before.prompted_login_attempts
        },
        peer_info_emitted: known,
        permission_emitted: before.permission_emitted || known,
        close_emitted: before.close_emitted || s.closed,
        last_codec: after.last_codec,
        ..before
    })
    &&& after.phase@ == s.phase
    &&& after.last_engine_phase@ == s.phase
    &&& after.last_codec@ == (if s.codec.len() > 0 {
        s.codec
    } else {
        before.last_codec@
    })
    &&& text::texts(after.pending_events@) == text::texts(before.pending_events@) + engine_events(
        before,
        s,
    )
}

fn collect_questions(session: &CompatSession, s: &ViewerSnapshot) -> (r: Vec<String>)
    ensures
        text::texts(r@) == question_events(*session, s@),
{
    let changed = !text::same_text(session.last_engine_phase.as_str(), s.phase.as_str());
    let mut out: Vec<String> = Vec::new();
    let insecure = changed && text::same_text(s.phase.as_str(), "awaiting_insecure_confirmation");
    if insecure {
        out.push(
            flutter_session::msgbox(
                "insecure-connection",
                "Insecure Connection",
                "Direct IP connection could not verify the remote identity. Continue only if you trust this network and endpoint.",
            ),
        );
    }
    let ghost b = text::texts(out@);
    assert(b =~= flutter_session::event_if(insecure, flutter_session::insecure_event()));
    let ask = text::same_text(s.phase.as_str(), "awaiting_password") && (changed
        || session.prompted_login_attempts != session.login_attempts);
    let retry = session.initial_password_supplied || session.login_attempts > 0;
    if ask {
        if retry {
            out.push(
                flutter_session::msgbox(
                    "re-input-password",
                    "Password Required",
                    "Wrong Password",
                ),
            );
        } else {
            out.push(
                flutter_session::msgbox(
                    "input-password",
                    "Password Required",
                    "Password Required",
                ),
            );
        }
    }
    let ghost c = text::texts(out@);
    assert(c =~= b + flutter_session::event_if(ask, password_event(retry)));
    let again = text::same_text(s.phase.as_str(), "awaiting_2fa_retry");
    let factor = changed && (text::same_text(s.phase.as_str(), "awaiting_2fa") || again);
    if factor {
        out.push(
            flutter_session::msgbox(
                "input-2fa",
                "2FA Required",
                if again {
                    "Wrong 2FA Code"
                } else {
                    "2FA Required"
                },
            ),
        );
    }
    assert(text::texts(out@) =~= c + flutter_session::event_if(
        factor,
        flutter_session::factor_event(s@.phase),
    ));
    out
}

fn collect_status(session: &CompatSession, s: &ViewerSnapshot) -> (r: Vec<String>)
    ensures
        text::texts(r@) == status_events(*session, s@),
{
    let mut out: Vec<String> = Vec::new();
    let introduce = text::same_text(s.phase.as_str(), "authenticated")
        && !session.peer_info_emitted;
    if introduce {
        out.push(flutter_session::ready_text(s));
        out.push(peer_text(session.target.as_str(), s));
    }
    let ghost a = text::texts(out@);
    assert(a =~= flutter_session::event_if(introduce, flutter_session::ready_event(s@))
        + flutter_session::event_if(introduce, peer_event(session.target@, s@)));
    let permission = (session.peer_info_emitted || introduce) && !session.permission_emitted;
    if permission {
        out.push(keyboard_text(s.keyboard_allowed));
    }
    let ghost b = text::texts(out@);
    assert(b =~= a + flutter_session::event_if(permission, keyboard_event(s.keyboard_allowed)));
    let recoded = !s.codec.as_str().is_empty() && !text::same_text(
        session.last_codec.as_str(),
        s.codec.as_str(),
    );
    if recoded {
        out.push(flutter_session::codec_text(s.codec.as_str()));
    }
    assert(text::texts(out@) =~= b + flutter_session::event_if(
        recoded,
        flutter_session::codec_event(s@.codec),
    ));
    out
}

fn collect_end(session: &CompatSession, s: &ViewerSnapshot) -> (r: Vec<String>)
    ensures
        text::texts(r@) == end_events(*session, s@),
{
    let mut out: Vec<String> = Vec::new();
    let ended = s.closed && !session.close_emitted;
    if ended {
        if let Some(error) = &s.error {
            out.push(flutter_session::msgbox("error", "Connection Error", error.as_str()));
        }
    }
    let ghost e = text::texts(out@);
    assert(e =~= flutter_session::event_if(
        ended && s@.error is Some,
        flutter_session::box_event("error"@, "Connection Error"@, s@.error->0),
    ));
    if ended {
        out.push(close_text());
    }
    assert(text::texts(out@) =~= e + flutter_session::event_if(ended, close_event()));
    out
}

fn queue_events(pending: &mut VecDeque<String>, events: &Vec<String>)
    ensures
        text::texts(final(pending)@) == text::texts(old(pending)@) + text::texts(events@),
{
    let ghost before = pending@;
    let mut i: usize = 0;
    while i < events.len()
        invariant
            i <= events@.len(),
            text::texts(pending@) =~= text::texts(before) + text::texts(events@).take(i as int),
        decreases events@.len() - i,
    {
        let ghost held = pending@;
        pending.push_back(events[i].clone());
        assert(text::texts(pending@) =~= text::texts(held).push(events@[i as int]@));
        assert(text::texts(events@).take(i + 1) =~= text::texts(events@).take(i as int).push(
            events@[i as int]@,
        ));
        i = i + 1;
    }
    assert(text::texts(events@).take(i as int) =~= text::texts(events@));
}

/// Puts what a snapshot reports at the end of the events that wait.
pub fn collect_engine_events(session: &mut CompatSession, snapshot: &ViewerSnapshot)
    ensures
        reported(*old(session), *final(session), snapshot@),
{
    let mut events = collect_questions(session, snapshot);
    let mut status = collect_status(session, snapshot);
    let mut end = collect_end(session, snapshot);
    let ghost (a, b, c) = (events@, status@, end@);
    events.append(&mut status);
    events.append(&mut end);
    assert(text::texts(events@) =~= text::texts(a) + text::texts(b) + text::texts(c));
    queue_events(&mut session.pending_events, &events);
    let changed = !text::same_text(session.last_engine_phase.as_str(), snapshot.phase.as_str());
    if text::same_text(snapshot.phase.as_str(), "awaiting_password") && (changed
        || session.prompted_login_attempts != session.login_attempts) {
        session.prompted_login_attempts = session.login_attempts;
    }
    if text::same_text(snapshot.phase.as_str(), "authenticated") {
        session.peer_info_emitted = true;
    }
    if session.peer_info_emitted {
        session.permission_emitted = true;
    }
    if !snapshot.codec.as_str().is_empty() {
        session.last_codec = snapshot.codec.clone();
    }
    if snapshot.closed {
        session.close_emitted = true;
    }
    session.last_engine_phase = snapshot.phase.clone();
    session.phase = snapshot.phase.clone();
}

/// The session `id`, if there is one.
pub open spec fn session_of(items: Seq<CompatSession>, id: Seq<char>) -> Option<CompatSession> {
    if known(items, id) {
        Some(items[place(items, id)])
    } else {
        None
    }
}

/// Whether only the session `id` changed, and to `after`.
pub open spec fn became(
    before: Seq<CompatSession>,
    after: Seq<CompatSession>,
    id: Seq<char>,
    session: CompatSession,
) -> bool {
    known(before, id) && after == before.update(place(before, id), session)
}

/// The text of a field, or nothing.
pub open spec fn text_or_empty(fields: Seq<json::FieldView>, key: Seq<char>) -> Seq<char> {
    match json::text_in(fields, key) {
        Some(s) => s,
        None => Seq::empty(),
    }
}

fn find_text_or_empty(fields: &[json::Field], key: &str) -> (r: String)
    ensures
        r@ == text_or_empty(json::field_views(fields@), key@),
{
    match json::find_text(fields, key) {
        Some(s) => s.to_owned(),
        None => {
            let r = String::new();
            assert(r@ =~= Seq::<char>::empty());
            r
        },
    }
}

/// Why a session is not created, if it is not, once its options are known to be JSON.
pub open spec fn add_refusal(
    items: Seq<CompatSession>,
    id: Seq<char>,
    target: Seq<char>,
    reading: TargetReading,
    fields: Seq<json::FieldView>,
) -> Option<Seq<char>> {
    if flutter_session::routes(None, target, reading) {
        Some("Invalid peer target"@)
    } else if !(0 < vstd::utf8::encode_utf8(id).len() <= 64) || text::has_control(id) {
        Some("Invalid session ID"@)
    } else if json::true_in(fields, "isFileTransfer"@) || json::true_in(fields, "isViewCamera"@) {
        Some("This compatibility milestone supports desktop viewer sessions only"@)
    } else if vstd::utf8::encode_utf8(text_or_empty(fields, "password"@)).len() > 4096 {
        Some("Password is too long"@)
    } else if known(items, id) {
        Some("Session already exists"@)
    } else if items.len() >= MAX_COMPAT_SESSIONS {
        Some("Session limit reached"@)
    } else {
        None
    }
}

/// Whether a session was just created.
pub open spec fn created(
    session: CompatSession,
    id: Seq<char>,
    target: Seq<char>,
    reading: TargetReading,
    fields: Seq<json::FieldView>,
) -> bool {
    &&& session.id@ == id
    &&& session.target@ == text::trimmed(target)
    &&& flutter_session::routes(Some(session.route), target, reading)
    &&& session.password@ == text_or_empty(fields, "password"@)
    &&& session.initial_password_supplied == (session.password@.len() > 0)
    &&& session.force_relay == json::true_in(fields, "forceRelay"@)
    &&& session.view_only == json::true_in(fields, "isViewOnly"@)
    &&& session.requested_fps == 60
    &&& session.codec_preference@ == "auto"@
    &&& session.image_quality@ == "balanced"@
    &&& !session.show_remote_cursor
    &&& session.disable_audio
    &&& session.phase@ == "created"@
    &&& session.viewer is None
    &&& session.surface == (DeferredSurface { lease: None, cancelled: false })
    &&& session.pending_events@.len() == 0
    &&& session.last_engine_phase@ == Seq::<char>::empty()
    &&& session.login_attempts == 0
    &&& session.prompted_login_attempts == u64::MAX
    &&& !session.peer_info_emitted
    &&& !session.permission_emitted
    &&& !session.close_emitted
    &&& session.last_codec@ == Seq::<char>::empty()
}

/// Whether `r` is the answer to a session that is to be created.
pub open spec fn add_answer(
    r: Seq<char>,
    before: Seq<CompatSession>,
    after: Seq<CompatSession>,
    id: Seq<char>,
    target: Seq<char>,
    reading: TargetReading,
    fields: Seq<json::FieldView>,
) -> bool {
    match add_refusal(before, id, target, reading, fields) {
        Some(what) => r == reply("session_add"@, false, what, None) && after == before,
        None => {
            &&& after == before.push(after.last())
            &&& created(after.last(), id, target, reading, fields)
            &&& r == reply(
                "session_add"@,
                true,
                "Created RustDesk Enhanced session"@,
                Some(after.last()),
            )
        },
    }
}

fn new_session(session_id: &str, peer_target: &str, route: Route, fields: &[json::Field]) -> (r:
    CompatSession)
    ensures
        r.route == route,
        forall|reading: TargetReading|
            flutter_session::routes(Some(route), peer_target@, reading) ==> #[trigger] created(
                r,
                session_id@,
                peer_target@,
                reading,
                json::field_views(fields@),
            ),
{
    let password = find_text_or_empty(fields, "password");
    let nothing = String::new();
    assert(nothing@ =~= Seq::<char>::empty());
    CompatSession {
        id: session_id.to_owned(),
        target: text::trim(peer_target),
        route,
        initial_password_supplied: !password.as_str().is_empty(),
        password,
        force_relay: json::find_true(fields, "forceRelay"),
        view_only: json::find_true(fields, "isViewOnly"),
        requested_fps: 60,
        codec_preference: "auto".to_owned(),
        image_quality: "balanced".to_owned(),
        show_remote_cursor: false,
        disable_audio: true,
        phase: "created".to_owned(),
        viewer: None,
        surface: DeferredSurface::new(),
        pending_events: VecDeque::new(),
        last_engine_phase: nothing.clone(),
        login_attempts: 0,
        prompted_login_attempts: u64::MAX,
        peer_info_emitted: false,
        permission_emitted: false,
        close_emitted: false,
        last_codec: nothing,
    }
}

/// Creates a session with the options that fields describe.
pub fn add_described(
    registry: &mut CompatSessions,
    session_id: &str,
    peer_target: &str,
    reading: &TargetReading,
    fields: &[json::Field],
) -> (r: String)
    requires
        old(registry).wf(),
    ensures
        final(registry).wf(),
        add_answer(
            r@,
            old(registry).items@,
            final(registry).items@,
            session_id@,
            peer_target@,
            *reading,
            json::field_views(fields@),
        ),
{
    let route = match flutter_session::parse_route(peer_target, reading) {
        None => {
            return action("session_add", false, "Invalid peer target", None);
        },
        Some(route) => route,
    };
    let id_len: usize = text::byte_len(session_id);
    if id_len == 0 || id_len > 64 || text::contains_control(session_id) {
        return action("session_add", false, "Invalid session ID", None);
    }
    if json::find_true(fields, "isFileTransfer") || json::find_true(fields, "isViewCamera") {
        return action(
            "session_add",
            false,
            "This compatibility milestone supports desktop viewer sessions only",
            None,
        );
    }
    if text::byte_len(find_text_or_empty(fields, "password").as_str()) > 4096 {
        return action("session_add", false, "Password is too long", None);
    }
    if registry.find(session_id).is_some() {
        return action("session_add", false, "Session already exists", None);
    }
    if registry.items.len() >= MAX_COMPAT_SESSIONS {
        return action("session_add", false, "Session limit reached", None);
    }
    let ghost before = registry.items@;
    let session = new_session(session_id, peer_target, route, fields);
    assert(created(session, session_id@, peer_target@, *reading, json::field_views(fields@)));
    let r = action("session_add", true, "Created RustDesk Enhanced session", Some(&session));
    registry.items.push(session);
    proof {
        lemma_place_bounds(before, session_id@);
        assert(registry.items@ =~= before.push(registry.items@.last()));
    }
    r
}

/// Creates a session. `reading` is how the target reads as an address.
pub fn session_add(
    registry: &mut CompatSessions,
    session_id: &str,
    peer_target: &str,
    reading: &TargetReading,
    options_json: &str,
) -> (r: String)
    requires
        old(registry).wf(),
    ensures
        final(registry).wf(),
        match json::json_fields(options_json@) {
            None => r@ == reply("session_add"@, false, "Invalid session options"@, None)
                && final(registry).items@ == old(registry).items@,
            Some(fields) => add_answer(
                r@,
                old(registry).items@,
                final(registry).items@,
                session_id@,
                peer_target@,
                *reading,
                fields,
            ),
        },
{
    match json::read_fields(options_json) {
        None => action("session_add", false, "Invalid session options", None),
        Some(fields) => add_described(
            registry,
            session_id,
            peer_target,
            reading,
            fields.as_slice(),
        ),
    }
}

/// Lets a session only watch, or not. That cannot change once it was started.
pub fn session_set_view_only(registry: &mut CompatSessions, session_id: &str, enabled: bool) -> (r:
    String)
    requires
        old(registry).wf(),
    ensures
        final(registry).wf(),
        match session_of(old(registry).items@, session_id@) {
            None => r@ == reply("session_set_view_only"@, false, "Session not found"@, None)
                && final(registry).items@ == old(registry).items@,
            Some(session) => if session.viewer is Some {
                &&& r@ == reply(
                    "session_set_view_only"@,
                    false,
                    "View-only policy cannot change after session start"@,
                    Some(session),
                )
                &&& final(registry).items@ == old(registry).items@
            } else {
                let after = CompatSession { view_only: enabled, ..session };
                &&& r@ == reply(
                    "session_set_view_only"@,
                    true,
                    "Updated local input policy"@,
                    Some(after),
                )
                &&& became(old(registry).items@, final(registry).items@, session_id@, after)
            },
        },
{
    let i: usize = match registry.find(session_id) {
        None => {
            return action("session_set_view_only", false, "Session not found", None);
        },
        Some(i) => i,
    };
    if registry.items[i].viewer.is_some() {
        return action(
            "session_set_view_only",
            false,
            "View-only policy cannot change after session start",
            Some(&registry.items[i]),
        );
    }
    let session = &mut registry.items[i];
    session.view_only = enabled;
    action("session_set_view_only", true, "Updated local input policy", Some(&registry.items[i]))
}

/// Whether a codec can be preferred.
pub open spec fn preferable(codec: Seq<char>) -> bool {
    codec == "auto"@ || codec == "h265"@
}

/// Prefers a codec.
pub fn session_set_codec_preference(
    registry: &mut CompatSessions,
    session_id: &str,
    codec: &str,
) -> (r: String)
    requires
        old(registry).wf(),
    ensures
        final(registry).wf(),
        ({
            let name = text::lowered(text::trimmed(codec@));
            match session_of(old(registry).items@, session_id@) {
                None => r@ == reply(
                    "session_set_codec_preference"@,
                    false,
                    "Session not found"@,
                    None,
                ) && final(registry).items@ == old(registry).items@,
                Some(session) => if !preferable(name) {
                    &&& r@ == reply(
                        "session_set_codec_preference"@,
                        false,
                        "Explicit H264 preference is not connected in this milestone"@,
                        Some(session),
                    )
                    &&& final(registry).items@ == old(registry).items@
                } else {
                    let after = final(registry).items@[place(
                        old(registry).items@,
                        session_id@,
                    )];
                    &&& r@ == reply(
                        "session_set_codec_preference"@,
                        true,
                        "Codec preference accepted"@,
                        Some(after),
                    )
                    &&& became(old(registry).items@, final(registry).items@, session_id@, after)
                    &&& after == (CompatSession {
                        codec_preference: after.codec_preference,
                        ..session
                    })
                    &&& after.codec_preference@ == name
                },
            }
        }),
{
    let normalized = text::ascii_lowercase(text::trim(codec).as_str());
    let i: usize = match registry.find(session_id) {
        None => {
            return action("session_set_codec_preference", false, "Session not found", None);
        },
        Some(i) => i,
    };
    if !text::same_text(normalized.as_str(), "auto") && !text::same_text(
        normalized.as_str(),
        "h265",
    ) {
        return action(
            "session_set_codec_preference",
            false,
            "Explicit H264 preference is not connected in this milestone",
            Some(&registry.items[i]),
        );
    }
    let session = &mut registry.items[i];
    session.codec_preference = normalized;
    action(
        "session_set_codec_preference",
        true,
        "Codec preference accepted",
        Some(&registry.items[i]),
    )
}

/// What is needed to run the viewer of a session.
pub struct ViewerPlan {
    pub options: ViewerOptions,
    pub connector: Connector,
    /// Where the peer is found, where it is found by its number.
    pub rendezvous: Option<RendezvousConfig>,
}

/// Whether `o` are the options of the viewer of a session.
pub open spec fn viewer_options_of(
    o: ViewerOptions,
    session: CompatSession,
    local_id: Seq<char>,
) -> bool {
    &&& match session.route {
        Route::Direct(address) => o.address matches Some(a) && flutter_session::same_address(
            a,
            address,
        ) && o.username@ == address.ip@,
        Route::Rendezvous(peer) => o.address is None && o.username@ == peer@,
    }
    &&& o.local_id@ == local_id
    &&& o.local_name@ == "RustDesk HMOS"@
    &&& o.password@ == session.password@
    &&& o.requested_fps == session.requested_fps
    &&& !o.clipboard_enabled
    &&& o.image_quality is Balanced
}

/// Whether a viewer can be started for a session.
pub open spec fn startable(session: CompatSession, local_id: Seq<char>) -> bool {
    let username = match session.route {
        Route::Direct(address) => address.ip@,
        Route::Rendezvous(peer) => peer@,
    };
    &&& session.route matches Route::Direct(address) ==> address.port != 0
    &&& 0 < vstd::utf8::encode_utf8(username).len() <= 512
    &&& 0 < vstd::utf8::encode_utf8(local_id).len() <= 512
    &&& vstd::utf8::encode_utf8(session.password@).len() <= 4096
    &&& 1 <= session.requested_fps <= 240
}

/// What starting the viewer of a session comes to.
pub enum Start {
    /// A viewer was started.
    Started(ViewerPlan),
    /// Nothing was started, for a reason that has a text.
    Refused(&'static str),
    /// The viewer could not start.
    Failed,
}

/// Whether `r` is what starting the viewer of a session comes to.
pub open spec fn start_outcome(
    r: Start,
    session: CompatSession,
    config: AppConfig,
    public: Seq<char>,
) -> bool {
    if session.force_relay {
        r matches Start::Refused(what) && what@
            == "Forced relay routing is not connected in this milestone"@
    } else if session.route is Rendezvous && flutter_surface::key_of(
        crate::encoding::base64_bytes(engine::trusted_key(config, public)),
    ) is None {
        r matches Start::Refused(what) && what@ == "Configured rendezvous trust anchor is invalid"@
    } else if !startable(session, config.id@) {
        r is Failed
    } else {
        &&& r matches Start::Started(plan)
        &&& viewer_options_of(plan.options, session, config.id@)
        &&& match session.route {
            Route::Direct(_) => plan.connector is Unverified && plan.rendezvous is None,
            Route::Rendezvous(peer) => {
                &&& plan.connector matches Connector::Rendezvous { id }
                &&& id@ == peer@
                &&& plan.rendezvous matches Some(found)
                &&& found.id@ == peer@
                &&& found.rendezvous_server@ == config.rendezvous_server@
                &&& found.licence_key@ == engine::trusted_key(config, public)
                &&& flutter_surface::key_of(crate::encoding::base64_bytes(found.licence_key@))
                    == Some(found.server_key@)
            },
        }
    }
}

/// Whether `after` is the session after its viewer was to be started: its password was
/// handed over, and its phase tells how far it came.
pub open spec fn after_start(before: CompatSession, after: CompatSession, r: Start) -> bool {
    &&& after == (CompatSession {
        password: after.password,
        phase: after.phase,
        viewer: after.viewer,
        ..before
    })
    &&& after.password@ == Seq::<char>::empty()
    &&& after.phase@ == (if r is Failed {
        "failed"@
    } else {
        "starting"@
    })
    &&& match r {
        Start::Started(plan) => after.viewer matches Some(v) && v@
            == viewer::ViewerView::started(plan.options),
        _ => after.viewer is None,
    }
}

fn copy_address(a: &Address) -> (r: Address)
    ensures
        flutter_session::same_address(r, *a),
{
    Address { ip: a.ip.clone(), text: a.text.clone(), port: a.port }
}

fn take_options(session: &mut CompatSession, local_id: String) -> (r: ViewerOptions)
    ensures
        viewer_options_of(r, *old(session), local_id@),
        *final(session) == (CompatSession {
            password: final(session).password,
            phase: final(session).phase,
            ..*old(session)
        }),
        final(session).password@ == Seq::<char>::empty(),
        final(session).phase@ == "starting"@,
{
    let mut password = String::new();
    std::mem::swap(&mut password, &mut session.password);
    assert(session.password@ =~= Seq::<char>::empty());
    let (address, username) = match &session.route {
        Route::Direct(address) => (Some(copy_address(address)), address.ip.clone()),
        Route::Rendezvous(peer) => (None, peer.clone()),
    };
    session.phase = "starting".to_owned();
    ViewerOptions {
        address,
        username,
        local_id,
        local_name: "RustDesk HMOS".to_owned(),
        password,
        requested_fps: session.requested_fps,
        clipboard_enabled: false,
        image_quality: ViewerImageQuality::default(),
    }
}

fn start_viewer(session: &mut CompatSession, config: &AppConfig, public: &str) -> (r: Start)
    requires
        old(session).viewer is None,
    ensures
        start_outcome(r, *old(session), *config, public@),
        after_start(*old(session), *final(session), r),
{
    let options = take_options(session, config.id.clone());
    proof {
        reveal_strlit("RustDesk HMOS");
        assert(vstd::utf8::is_ascii_chars("RustDesk HMOS"@));
        vstd::utf8::is_ascii_chars_encode_utf8("RustDesk HMOS"@);
    }
    if session.force_relay {
        return Start::Refused("Forced relay routing is not connected in this milestone");
    }
    let peer: Option<String> = match &session.route {
        Route::Direct(_) => None,
        Route::Rendezvous(peer) => Some(peer.clone()),
    };
    let (started, connector, rendezvous) = match peer {
        None => (Viewer::start(&options), Connector::Unverified, None),
        Some(peer) => {
            let id = peer.clone();
            match flutter_surface::rendezvous_config(config, public, peer) {
                Err(_) => {
                    return Start::Refused("Configured rendezvous trust anchor is invalid");
                },
                Ok(found) => {
                    let started = Viewer::start_rendezvous(&options, found.id.as_str());
                    (started, Connector::Rendezvous { id }, Some(found))
                },
            }
        },
    };
    match started {
        Ok(viewer) => {
            session.viewer = Some(viewer);
            Start::Started(ViewerPlan { options, connector, rendezvous })
        },
        Err(_) => {
            session.phase = "failed".to_owned();
            Start::Failed
        },
    }
}

/// What the start of a session is answered, and whether it succeeded.
pub open spec fn start_message(r: Start) -> (bool, Seq<char>) {
    match r {
        Start::Started(_) => (true, "RustDesk Enhanced viewer started"@),
        Start::Refused(what) => (false, what@),
        Start::Failed => (false, "RustDesk Enhanced viewer could not start"@),
    }
}

/// Starts the viewer of a session. `public` is the key of the public server.
pub fn session_start(
    registry: &mut CompatSessions,
    session_id: &str,
    config: &AppConfig,
    public: &str,
) -> (r: (String, Option<ViewerPlan>))
    requires
        old(registry).wf(),
    ensures
        final(registry).wf(),
        ({
            let before = old(registry).items@;
            let after = final(registry).items@;
            match session_of(before, session_id@) {
                None => {
                    &&& r.0@ == reply("session_start"@, false, "Session not found"@, None)
                    &&& r.1 is None
                    &&& after == before
                },
                Some(session) => if session.viewer is Some {
                    &&& r.0@ == reply(
                        "session_start"@,
                        true,
                        "Session already started"@,
                        Some(session),
                    )
                    &&& r.1 is None
                    &&& after == before
                } else if config.id@.len() == 0 {
                    &&& r.0@ == reply(
                        "session_start"@,
                        false,
                        "Runtime identity is unavailable"@,
                        Some(session),
                    )
                    &&& r.1 is None
                    &&& after == before
                } else {
                    let now = after[place(before, session_id@)];
                    &&& became(before, after, session_id@, now)
                    &&& exists|outcome: Start| #[trigger]
                        start_outcome(outcome, session, *config, public@) && after_start(
                            session,
                            now,
                            outcome,
                        ) && r.0@ == reply(
                            "session_start"@,
                            start_message(outcome).0,
                            start_message(outcome).1,
                            Some(now),
                        ) && r.1 == (match outcome {
                            Start::Started(plan) => Some(plan),
                            _ => None,
                        })
                },
            }
        }),
{
    let i: usize = match registry.find(session_id) {
        None => {
            return (action("session_start", false, "Session not found", None), None);
        },
        Some(i) => i,
    };
    if registry.items[i].viewer.is_some() {
        return (
            action(
                "session_start",
                true,
                "Session already started",
                Some(&registry.items[i]),
            ),
            None,
        );
    }
    if config.id.as_str().is_empty() {
        return (
            action(
                "session_start",
                false,
                "Runtime identity is unavailable",
                Some(&registry.items[i]),
            ),
            None,
        );
    }
    let ghost before = registry.items@;
    let outcome = start_viewer(&mut registry.items[i], config, public);
    assert(registry.items@ =~= before.update(i as int, registry.items@[i as int]));
    let (ok, message) = match &outcome {
        Start::Started(_) => (true, "RustDesk Enhanced viewer started"),
        Start::Refused(what) => (false, *what),
        Start::Failed => (false, "RustDesk Enhanced viewer could not start"),
    };
    let text = action("session_start", ok, message, Some(&registry.items[i]));
    assert(start_outcome(outcome, before[i as int], *config, public@));
    match outcome {
        Start::Started(plan) => (text, Some(plan)),
        _ => (text, None),
    }
}

/// What binding a surface comes to: whether it was done, a text, and what the surface
/// of the session is then.
pub open spec fn bind_outcome(
    surface: DeferredSurface,
    display: u32,
    surface_id: Seq<char>,
    retained: bool,
) -> (bool, Seq<char>, DeferredSurface) {
    if display != 0 {
        (false, "Multi-display Surface binding is not connected in this milestone"@, surface)
    } else if text::trimmed(surface_id).len() == 0 {
        if surface.lease is None {
            (true, "Surface binding is already empty"@, surface)
        } else {
            (
                false,
                "A retained decoder Surface can only be released by closing the session"@,
                surface,
            )
        }
    } else {
        match engine::surface_number(surface_id) {
            None => (false, "Invalid native Surface ID"@, surface),
            Some(id) => match surface.refusal(id as u64, retained) {
                Some(what) => (false, what, surface),
                None => (
                    true,
                    "Bound retained native Surface"@,
                    DeferredSurface { lease: Some(id as u64), ..surface },
                ),
            },
        }
    }
}

fn bind(surface: &mut DeferredSurface, display: u32, surface_id: &str, retained: bool) -> (r: (
    bool,
    String,
))
    ensures
        (r.0, r.1@, *final(surface)) == bind_outcome(
            *old(surface),
            display,
            surface_id@,
            retained,
        ),
{
    if display != 0 {
        return (
            false,
            "Multi-display Surface binding is not connected in this milestone".to_owned(),
        );
    }
    if text::trim(surface_id).as_str().is_empty() {
        if surface.lease.is_none() {
            return (true, "Surface binding is already empty".to_owned());
        }
        return (
            false,
            "A retained decoder Surface can only be released by closing the session".to_owned(),
        );
    }
    match engine::parse_surface(surface_id) {
        None => (false, "Invalid native Surface ID".to_owned()),
        Some(id) => match surface.bind(id, retained) {
            Ok(_) => (true, "Bound retained native Surface".to_owned()),
            Err(what) => (false, what),
        },
    }
}

/// Binds a surface to a session; `retained` tells whether the platform keeps it.
pub fn session_bind_surface(
    registry: &mut CompatSessions,
    session_id: &str,
    display: u32,
    surface_id: &str,
    retained: bool,
) -> (r: String)
    requires
        old(registry).wf(),
    ensures
        final(registry).wf(),
        match session_of(old(registry).items@, session_id@) {
            None => r@ == reply("session_bind_surface"@, false, "Session not found"@, None)
                && final(registry).items@ == old(registry).items@,
            Some(session) => {
                let bound = bind_outcome(session.surface, display, surface_id@, retained);
                let after = CompatSession { surface: bound.2, ..session };
                &&& r@ == reply("session_bind_surface"@, bound.0, bound.1, Some(after))
                &&& became(old(registry).items@, final(registry).items@, session_id@, after)
            },
        },
{
    let i: usize = match registry.find(session_id) {
        None => {
            return action("session_bind_surface", false, "Session not found", None);
        },
        Some(i) => i,
    };
    let ghost before = registry.items@;
    let session = &mut registry.items[i];
    let (ok, message) = bind(&mut session.surface, display, surface_id, retained);
    assert(registry.items@ =~= before.update(i as int, registry.items@[i as int]));
    action("session_bind_surface", ok, message.as_str(), Some(&registry.items[i]))
}

/// The smaller of two numbers.
pub open spec fn least(a: nat, b: nat) -> nat {
    if a < b {
        a
    } else {
        b
    }
}

fn take_events(pending: &mut VecDeque<String>, limit: u32) -> (r: Vec<String>)
    ensures
        ({
            let n = least(old(pending)@.len(), least(limit as nat, MAX_POLLED_EVENTS as nat));
            &&& r@ == old(pending)@.take(n as int)
            &&& final(pending)@ == old(pending)@.skip(n as int)
        }),
{
    let ghost before = pending@;
    let most: u32 = if limit < MAX_POLLED_EVENTS {
        limit
    } else {
        MAX_POLLED_EVENTS
    };
    let mut out: Vec<String> = Vec::new();
    let mut i: u32 = 0;
    assert(before.take(0) =~= Seq::<String>::empty());
    assert(before.skip(0) =~= before);
    while i < most && pending.len() > 0
        invariant
            i <= most,
            i <= before.len(),
            out@ == before.take(i as int),
            pending@ == before.skip(i as int),
        decreases most - i,
    {
        if let Some(event) = pending.pop_front() {
            out.push(event);
        }
        i = i + 1;
        assert(out@ =~= before.take(i as int));
        assert(pending@ =~= before.skip(i as int));
    }
    out
}

/// Whether `after` is the session after its viewer was looked at, where it has one.
pub open spec fn looked_at(before: CompatSession, after: CompatSession) -> bool {
    match before.viewer {
        Some(v) => reported(before, after, v@.seen()),
        None => after == before,
    }
}

/// What polling does to a session: first everything is reported, then the oldest
/// events are taken.
pub open spec fn polled(before: CompatSession, after: CompatSession, limit: u32, events: Seq<
    Seq<char>,
>) -> bool {
    exists|between: CompatSession|
        {
            let n = least(
                between.pending_events@.len(),
                least(limit as nat, MAX_POLLED_EVENTS as nat),
            );
            &&& #[trigger] looked_at(before, between)
            &&& events == text::texts(between.pending_events@.take(n as int))
            &&& after == (CompatSession { pending_events: after.pending_events, ..between })
            &&& after.pending_events@ == between.pending_events@.skip(n as int)
        }
}

fn poll(session: &mut CompatSession, limit: u32) -> (r: Vec<String>)
    ensures
        polled(*old(session), *final(session), limit, text::texts(r@)),
{
    let ghost before = *session;
    let snapshot: Option<ViewerSnapshot> = match &session.viewer {
        Some(viewer) => Some(viewer.snapshot()),
        None => None,
    };
    if let Some(s) = &snapshot {
        collect_engine_events(session, s);
    }
    let ghost between = *session;
    let events = take_events(&mut session.pending_events, limit);
    assert(looked_at(before, between));
    events
}

/// The events of a session that wait, with its state.
pub fn session_poll_events(registry: &mut CompatSessions, session_id: &str, limit: u32) -> (r: String)
    requires
        old(registry).wf(),
    ensures
        final(registry).wf(),
        ({
            let before = old(registry).items@;
            let after = final(registry).items@;
            match session_of(before, session_id@) {
                None => r@ == reply("session_poll_events"@, false, "Session not found"@, None)
                    && after == before,
                Some(session) => {
                    let now = after[place(before, session_id@)];
                    &&& became(before, after, session_id@, now)
                    &&& exists|events: Seq<Seq<char>>| #[trigger]
                        polled(session, now, limit, events) && r@ == poll_reply(events, now)
                },
            }
        }),
{
    let i: usize = match registry.find(session_id) {
        None => {
            return action("session_poll_events", false, "Session not found", None);
        },
        Some(i) => i,
    };
    let ghost before = registry.items@;
    let events = poll(&mut registry.items[i], limit);
    assert(registry.items@ =~= before.update(i as int, registry.items@[i as int]));
    assert(polled(before[i as int], registry.items@[i as int], limit, text::texts(events@)));
    let mut object = json::Object::new();
    object.put_bool("ok", true);
    object.put_text("action", "session_poll_events");
    object.put_text("message", "Polled RustDesk Enhanced session");
    object.put("events", json::array_text(&events).as_str());
    object.put("session", session_value(&registry.items[i]).as_str());
    object.text()
}

/// The reply with events.
pub open spec fn poll_reply(events: Seq<Seq<char>>, session: CompatSession) -> Seq<char> {
    json::ObjectView::empty().with("ok"@, text::truth(true)).with(
        "action"@,
        json::json_string("session_poll_events"@),
    ).with("message"@, json::json_string("Polled RustDesk Enhanced session"@)).with(
        "events"@,
        json::array_of(events),
    ).with("session"@, session_json(session)).text()
}

/// Whether `r` is the answer to a password for a session.
pub open spec fn login_answer(
    r: (String, Option<AuthCommand>),
    before: Seq<CompatSession>,
    after: Seq<CompatSession>,
    id: Seq<char>,
    password: Seq<char>,
    queue: QueueState,
) -> bool {
    match session_of(before, id) {
        None => {
            &&& r.0@ == reply("session_login"@, false, "Session not found"@, None)
            &&& r.1 is None
            &&& after == before
        },
        Some(session) => if session.viewer is None {
            &&& r.0@ == reply("session_login"@, false, "Session is not started"@, Some(session))
            &&& r.1 is None
            &&& after == before
        } else {
            match r.1 {
                Some(command) => {
                    let now = after[place(before, id)];
                    &&& viewer::password_answer(Ok(command), password, queue)
                    &&& became(before, after, id, now)
                    &&& now == (CompatSession {
                        login_attempts: if session.login_attempts == u64::MAX {
                            u64::MAX
                        } else {
                            (session.login_attempts + 1) as u64
                        },
                        phase: now.phase,
                        ..session
                    })
                    &&& now.phase@ == "authenticating"@
                    &&& r.0@ == reply("session_login"@, true, "Password submitted"@, Some(now))
                },
                None => {
                    &&& exists|e: viewer::ViewerError| #[trigger]
                        viewer::password_answer(Err(e), password, queue)
                    &&& after == before
                    &&& r.0@ == reply(
                        "session_login"@,
                        false,
                        "Password could not be submitted in the current state"@,
                        Some(session),
                    )
                },
            }
        },
    }
}

/// Answers the request for a password. `queue` is the queue for answers.
pub fn login_with(registry: &mut CompatSessions, session_id: &str, password: &str, queue: QueueState) -> (r:
    (String, Option<AuthCommand>))
    requires
        old(registry).wf(),
    ensures
        final(registry).wf(),
        login_answer(
            r,
            old(registry).items@,
            final(registry).items@,
            session_id@,
            password@,
            queue,
        ),
{
    let i: usize = match registry.find(session_id) {
        None => {
            return (action("session_login", false, "Session not found", None), None);
        },
        Some(i) => i,
    };
    let submitted = match &registry.items[i].viewer {
        None => {
            return (
                action(
                    "session_login",
                    false,
                    "Session is not started",
                    Some(&registry.items[i]),
                ),
                None,
            );
        },
        Some(viewer) => viewer.submit_password(password, queue),
    };
    match submitted {
        Err(e) => {
            assert(viewer::password_answer(Err(e), password@, queue));
            (
                action(
                    "session_login",
                    false,
                    "Password could not be submitted in the current state",
                    Some(&registry.items[i]),
                ),
                None,
            )
        },
        Ok(command) => {
            let ghost before = registry.items@;
            let session = &mut registry.items[i];
            session.login_attempts = session.login_attempts.saturating_add(1);
            session.phase = "authenticating".to_owned();
            assert(registry.items@ =~= before.update(i as int, registry.items@[i as int]));
            (
                action("session_login", true, "Password submitted", Some(&registry.items[i])),
                Some(command),
            )
        },
    }
}

/// Answers the request for a password with the one of a JSON text.
pub fn session_login(
    registry: &mut CompatSessions,
    session_id: &str,
    login_json: &str,
    queue: QueueState,
) -> (r: (String, Option<AuthCommand>))
    requires
        old(registry).wf(),
    ensures
        final(registry).wf(),
        match json::json_fields(login_json@) {
            None => {
                &&& r.0@ == reply("session_login"@, false, "Invalid login payload"@, None)
                &&& r.1 is None
                &&& final(registry).items@ == old(registry).items@
            },
            Some(fields) => login_answer(
                r,
                old(registry).items@,
                final(registry).items@,
                session_id@,
                text_or_empty(fields, "password"@),
                queue,
            ),
        },
{
    match json::read_fields(login_json) {
        None => (action("session_login", false, "Invalid login payload", None), None),
        Some(fields) => {
            let password = find_text_or_empty(fields.as_slice(), "password");
            login_with(registry, session_id, password.as_str(), queue)
        },
    }
}

/// Answers the request for a second factor. `queue` is the queue for answers.
#[allow(unused_variables)]
pub fn session_send2_fa(
    registry: &CompatSessions,
    session_id: &str,
    code: &str,
    trust_this_device: bool,
    queue: QueueState,
) -> (r: (String, Option<AuthCommand>))
    ensures
        match session_of(registry.items@, session_id@) {
            None => r.0@ == reply("session_send_2fa"@, false, "Session not found"@, None) && r.1
                is None,
            Some(session) => if session.viewer is None {
                r.0@ == reply(
                    "session_send_2fa"@,
                    false,
                    "Session is not started"@,
                    Some(session),
                ) && r.1 is None
            } else {
                match r.1 {
                    Some(command) => viewer::factor_answer(Ok(command), code@, queue) && r.0@
                        == reply(
                        "session_send_2fa"@,
                        true,
                        "Second factor submitted"@,
                        Some(session),
                    ),
                    None => {
                        &&& exists|e: viewer::ViewerError| #[trigger]
                            viewer::factor_answer(Err(e), code@, queue)
                        &&& r.0@ == reply(
                            "session_send_2fa"@,
                            false,
                            "Second factor could not be submitted in the current state"@,
                            Some(session),
                        )
                    },
                }
            },
        },
{
    let i: usize = match registry.find(session_id) {
        None => {
            return (action("session_send_2fa", false, "Session not found", None), None);
        },
        Some(i) => i,
    };
    let session = &registry.items[i];
    match &session.viewer {
        None => (
            action("session_send_2fa", false, "Session is not started", Some(session)),
            None,
        ),
        Some(viewer) => match viewer.submit_second_factor(code, queue) {
            Ok(command) => (
                action("session_send_2fa", true, "Second factor submitted", Some(session)),
                Some(command),
            ),
            Err(e) => {
                assert(viewer::factor_answer(Err(e), code@, queue));
                (
                    action(
                        "session_send_2fa",
                        false,
                        "Second factor could not be submitted in the current state",
                        Some(session),
                    ),
                    None,
                )
            },
        },
    }
}

fn session_at<'a>(registry: &'a CompatSessions, session_id: &str) -> (r: Option<&'a CompatSession>)
    ensures
        held(r) == session_of(registry.items@, session_id@),
{
    match registry.find(session_id) {
        Some(i) => Some(&registry.items[i]),
        None => None,
    }
}

/// Names a place for files of the clipboard, which this runtime does not transfer.
#[allow(unused_variables)]
pub fn session_set_clipboard_file_root(registry: &CompatSessions, session_id: &str, root: &str) -> (r:
    String)
    ensures
        r@ == reply(
            "session_set_clipboard_file_root"@,
            false,
            "Clipboard file transfer is not connected in this milestone"@,
            session_of(registry.items@, session_id@),
        ),
{
    action(
        "session_set_clipboard_file_root",
        false,
        "Clipboard file transfer is not connected in this milestone",
        session_at(registry, session_id),
    )
}

/// The message of a pointer action, if it may be sent.
pub open spec fn pointer_message(
    session: Option<CompatSession>,
    kind: u32,
    button: u32,
    x: i32,
    y: i32,
    queue: QueueState,
) -> Option<Message> {
    match session {
        Some(s) => if s.view_only {
            None
        } else {
            match s.viewer {
                Some(v) => match viewer::mouse_result(v@, kind, button, x, y, queue) {
                    Ok(message) => Some(message),
                    Err(_) => None,
                },
                None => None,
            }
        },
        None => None,
    }
}

/// The message of a pointer action; nothing where it is not sent. A session that only
/// watches sends none. `queue` is the queue for input.
#[allow(unused_variables)]
pub fn session_send_mouse_event(
    registry: &CompatSessions,
    session_id: &str,
    event_kind: u32,
    button: u32,
    x: i32,
    y: i32,
    relative_marker: i32,
    queue: QueueState,
) -> (r: Option<Message>)
    ensures
        r == pointer_message(
            session_of(registry.items@, session_id@),
            event_kind,
            button,
            x,
            y,
            queue,
        ),
{
    match session_at(registry, session_id) {
        None => None,
        Some(session) => {
            if session.view_only {
                return None;
            }
            match &session.viewer {
                None => None,
                Some(viewer) => match viewer.send_mouse(event_kind, button, x, y, queue) {
                    Ok(message) => Some(message),
                    Err(_) => None,
                },
            }
        },
    }
}

/// Whether `after` is `before` with its viewer about to close and nobody waiting for a
/// surface.
pub open spec fn closing(before: CompatSession, after: CompatSession) -> bool {
    &&& after == (CompatSession {
        surface: DeferredSurface { cancelled: true, ..before.surface },
        viewer: after.viewer,
        ..before
    })
    &&& match (before.viewer, after.viewer) {
        (Some(old_viewer), Some(new_viewer)) => new_viewer@.closing(old_viewer@),
        (old_viewer, new_viewer) => old_viewer is None && new_viewer is None,
    }
}

/// Closes a session, and returns what is left of it.
pub fn session_close(registry: &mut CompatSessions, session_id: &str) -> (r: (
    String,
    Option<CompatSession>,
))
    requires
        old(registry).wf(),
    ensures
        final(registry).wf(),
        ({
            let before = old(registry).items@;
            let after = final(registry).items@;
            match session_of(before, session_id@) {
                None => {
                    &&& r.0@ == reply("session_close"@, true, "Session is already closed"@, None)
                    &&& r.1 is None
                    &&& after == before
                },
                Some(session) => {
                    &&& after == before.remove(place(before, session_id@))
                    &&& r.1 matches Some(left)
                    &&& closing(session, left)
                    &&& r.0@ == reply(
                        "session_close"@,
                        true,
                        "Closed RustDesk Enhanced session"@,
                        Some(left),
                    )
                },
            }
        }),
{
    let i: usize = match registry.find(session_id) {
        None => {
            return (action("session_close", true, "Session is already closed", None), None);
        },
        Some(i) => i,
    };
    let mut session = registry.items.remove(i);
    session.surface.cancel();
    if let Some(viewer) = &mut session.viewer {
        viewer.request_close();
    }
    (
        action("session_close", true, "Closed RustDesk Enhanced session", Some(&session)),
        Some(session),
    )
}

/// The token of a connection, of which there is none.
#[allow(unused_variables)]
pub fn session_get_conn_token(session_id: &str) -> (r: Option<String>)
    ensures
        r is None,
{
    None
}

/// Whether there are trusted devices: there are none.
#[allow(unused_variables)]
pub fn session_get_enable_trusted_devices(session_id: &str) -> (r: bool)
    ensures
        !r,
{
    false
}

/// The quality that is wanted for a session.
pub fn session_get_image_quality(registry: &CompatSessions, session_id: &str) -> (r: Option<String>)
    ensures
        match (r, session_of(registry.items@, session_id@)) {
            (Some(quality), Some(session)) => quality@ == session.image_quality@,
            (quality, session) => quality is None && session is None,
        },
{
    match session_at(registry, session_id) {
        Some(session) => Some(session.image_quality.clone()),
        None => None,
    }
}

/// Keeps the quality that is wanted for a session.
pub fn session_set_image_quality(
    registry: &mut CompatSessions,
    session_id: &str,
    quality: String,
) -> (r: String)
    requires
        old(registry).wf(),
    ensures
        final(registry).wf(),
        match session_of(old(registry).items@, session_id@) {
            None => r@ == reply("session_set_image_quality"@, false, "Session not found"@, None)
                && final(registry).items@ == old(registry).items@,
            Some(session) => {
                let after = CompatSession { image_quality: quality, ..session };
                &&& r@ == reply(
                    "session_set_image_quality"@,
                    true,
                    "Stored quality preference for this session"@,
                    Some(after),
                )
                &&& became(old(registry).items@, final(registry).items@, session_id@, after)
            },
        },
{
    let i: usize = match registry.find(session_id) {
        None => {
            return action("session_set_image_quality", false, "Session not found", None);
        },
        Some(i) => i,
    };
    let session = &mut registry.items[i];
    session.image_quality = quality;
    action(
        "session_set_image_quality",
        true,
        "Stored quality preference for this session",
        Some(&registry.items[i]),
    )
}

/// Sets a quality by number, which this runtime does not.
#[allow(unused_variables)]
pub fn session_set_custom_image_quality(session_id: &str, quality: u32) {
}

/// Asks for a rate, which can be done before the session is started.
pub fn session_set_custom_fps(registry: &mut CompatSessions, session_id: &str, fps: u32) -> (r:
    String)
    requires
        old(registry).wf(),
    ensures
        final(registry).wf(),
        match session_of(old(registry).items@, session_id@) {
            None => r@ == reply("session_set_custom_fps"@, false, "Session not found"@, None)
                && final(registry).items@ == old(registry).items@,
            Some(session) => if session.viewer is Some || !(1 <= fps <= 240) {
                &&& r@ == reply(
                    "session_set_custom_fps"@,
                    false,
                    "FPS must be set before session start and be within 1..240"@,
                    Some(session),
                )
                &&& final(registry).items@ == old(registry).items@
            } else {
                let after = CompatSession { requested_fps: fps, ..session };
                &&& r@ == reply(
                    "session_set_custom_fps"@,
                    true,
                    "Updated requested FPS"@,
                    Some(after),
                )
                &&& became(old(registry).items@, final(registry).items@, session_id@, after)
            },
        },
{
    let i: usize = match registry.find(session_id) {
        None => {
            return action("session_set_custom_fps", false, "Session not found", None);
        },
        Some(i) => i,
    };
    if registry.items[i].viewer.is_some() || fps < 1 || fps > 240 {
        return action(
            "session_set_custom_fps",
            false,
            "FPS must be set before session start and be within 1..240",
            Some(&registry.items[i]),
        );
    }
    let session = &mut registry.items[i];
    session.requested_fps = fps;
    action("session_set_custom_fps", true, "Updated requested FPS", Some(&registry.items[i]))
}

/// Shows the cursor of the peer, or not.
pub fn session_set_show_remote_cursor(
    registry: &mut CompatSessions,
    session_id: &str,
    enabled: bool,
) -> (r: String)
    requires
        old(registry).wf(),
    ensures
        final(registry).wf(),
        match session_of(old(registry).items@, session_id@) {
            None => r@ == reply(
                "session_set_show_remote_cursor"@,
                false,
                "Session not found"@,
                None,
            ) && final(registry).items@ == old(registry).items@,
            Some(session) => {
                let after = CompatSession { show_remote_cursor: enabled, ..session };
                &&& r@ == reply(
                    "session_set_show_remote_cursor"@,
                    true,
                    "Updated local remote-cursor presentation policy"@,
                    Some(after),
                )
                &&& became(old(registry).items@, final(registry).items@, session_id@, after)
            },
        },
{
    let i: usize = match registry.find(session_id) {
        None => {
            return action("session_set_show_remote_cursor", false, "Session not found", None);
        },
        Some(i) => i,
    };
    let session = &mut registry.items[i];
    session.show_remote_cursor = enabled;
    action(
        "session_set_show_remote_cursor",
        true,
        "Updated local remote-cursor presentation policy",
        Some(&registry.items[i]),
    )
}

/// Whether a switch of a session is on; one that is not known is off.
pub fn session_get_toggle_option(registry: &CompatSessions, session_id: &str, option: &str) -> (r:
    bool)
    ensures
        r == match session_of(registry.items@, session_id@) {
            Some(session) => if option@ == "show-remote-cursor"@ {
                session.show_remote_cursor
            } else if option@ == "disable-audio"@ {
                session.disable_audio
            } else {
                false
            },
            None => false,
        },
{
    match session_at(registry, session_id) {
        None => false,
        Some(session) => {
            if text::same_text(option, "show-remote-cursor") {
                session.show_remote_cursor
            } else if text::same_text(option, "disable-audio") {
                session.disable_audio
            } else {
                false
            }
        },
    }
}

/// A session with a switch flipped, where it is one.
pub open spec fn flipped(session: CompatSession, option: Seq<char>) -> CompatSession {
    if option == "show-remote-cursor"@ {
        CompatSession { show_remote_cursor: !session.show_remote_cursor, ..session }
    } else if option == "disable-audio"@ {
        CompatSession { disable_audio: !session.disable_audio, ..session }
    } else {
        session
    }
}

/// Flips a switch of a session.
pub fn session_toggle_option(registry: &mut CompatSessions, session_id: &str, option: &str)
    requires
        old(registry).wf(),
    ensures
        final(registry).wf(),
        match session_of(old(registry).items@, session_id@) {
            None => final(registry).items@ == old(registry).items@,
            Some(session) => became(
                old(registry).items@,
                final(registry).items@,
                session_id@,
                flipped(session, option@),
            ),
        },
{
    if let Some(i) = registry.find(session_id) {
        let ghost before = registry.items@;
        let session = &mut registry.items[i];
        if text::same_text(option, "show-remote-cursor") {
            session.show_remote_cursor = !session.show_remote_cursor;
        } else if text::same_text(option, "disable-audio") {
            session.disable_audio = !session.disable_audio;
        }
        assert(registry.items@ =~= before.update(
            i as int,
            flipped(before[i as int], option@),
        ));
    }
}

/// Answers the question whether to go on with a peer that is not verified; a viewer
/// that is not to go on closes. Nothing else can be set. `queue` is the queue for
/// answers.
pub fn session_set_common(
    registry: &mut CompatSessions,
    session_id: &str,
    key: &str,
    value: &str,
    queue: QueueState,
) -> (r: Option<Result<AuthCommand, viewer::ViewerError>>)
    requires
        old(registry).wf(),
    ensures
        final(registry).wf(),
        ({
            let before = old(registry).items@;
            let after = final(registry).items@;
            let allow = text::lowered(value@) == "y"@;
            match session_of(before, session_id@) {
                Some(session) => if session.viewer is Some && key@
                    == "continue-insecure-connection"@ {
                    let now = after[place(before, session_id@)];
                    &&& r matches Some(answer)
                    &&& viewer::insecure_answer(answer, allow, queue)
                    &&& became(before, after, session_id@, now)
                    &&& if allow {
                        now == session
                    } else {
                        &&& now == (CompatSession { viewer: now.viewer, ..session })
                        &&& now.viewer matches Some(v)
                        &&& v@.closing(session.viewer->0@)
                    }
                } else {
                    r is None && after == before
                },
                None => r is None && after == before,
            }
        }),
{
    let i: usize = match registry.find(session_id) {
        None => {
            return None;
        },
        Some(i) => i,
    };
    if !text::same_text(key, "continue-insecure-connection") {
        return None;
    }
    let allow = text::same_text(text::ascii_lowercase(value).as_str(), "y");
    let answer = match &registry.items[i].viewer {
        None => {
            return None;
        },
        Some(viewer) => viewer.continue_insecure(allow, queue),
    };
    let ghost before = registry.items@;
    if !allow {
        let session = &mut registry.items[i];
        if let Some(viewer) = &mut session.viewer {
            viewer.request_close();
        }
    }
    assert(registry.items@ =~= before.update(i as int, registry.items@[i as int]));
    Some(answer)
}

/// The sound of a session, of which there is none.
pub fn session_get_remote_audio_state(registry: &CompatSessions, session_id: &str) -> (r: String)
    ensures
        r@ == (match session_of(registry.items@, session_id@) {
            None => reply("session_get_remote_audio_state"@, false, "Session not found"@, None),
            Some(session) => json::ObjectView::empty().with("ok"@, text::truth(true)).with(
                "action"@,
                json::json_string("session_get_remote_audio_state"@),
            ).with(
                "audio"@,
                json::ObjectView::empty().with("available"@, text::truth(false)).with(
                    "muted"@,
                    text::truth(session.disable_audio),
                ).with("rendererActive"@, text::truth(false)).with(
                    "errorText"@,
                    json::json_string("Remote audio is not connected in this milestone"@),
                ).text(),
            ).with("session"@, session_json(session)).text(),
        }),
{
    match session_at(registry, session_id) {
        None => action("session_get_remote_audio_state", false, "Session not found", None),
        Some(session) => {
            let mut audio = json::Object::new();
            audio.put_bool("available", false);
            audio.put_bool("muted", session.disable_audio);
            audio.put_bool("rendererActive", false);
            audio.put_text("errorText", "Remote audio is not connected in this milestone");
            let mut object = json::Object::new();
            object.put_bool("ok", true);
            object.put_text("action", "session_get_remote_audio_state");
            object.put("audio", audio.text().as_str());
            object.put("session", session_value(session).as_str());
            object.text()
        },
    }
}

/// How pictures are shown without a surface, which they are not.
#[allow(unused_variables)]
pub fn session_get_software_present_state(session_id: &str, display: u32) -> (r: String)
    ensures
        r@ == json::ObjectView::empty().with("available"@, text::truth(false)).with(
            "active"@,
            text::truth(false),
        ).with("state"@, json::json_string("native-surface"@)).with(
            "reason"@,
            json::json_string("hardware-surface-path"@),
        ).text(),
{
    let mut object = json::Object::new();
    object.put_bool("available", false);
    object.put_bool("active", false);
    object.put_text("state", "native-surface");
    object.put_text("reason", "hardware-surface-path");
    object.text()
}

/// Pauses the picture, which this runtime cannot.
pub fn session_set_video_paused(registry: &CompatSessions, session_id: &str, paused: bool) -> (r:
    String)
    ensures
        r@ == reply(
            "session_set_video_paused"@,
            !paused,
            if paused {
                "Video pause is not connected in this milestone"@
            } else {
                "Viewer is already receiving video"@
            },
            session_of(registry.items@, session_id@),
        ),
{
    action(
        "session_set_video_paused",
        !paused,
        if paused {
            "Video pause is not connected in this milestone"
        } else {
            "Viewer is already receiving video"
        },
        session_at(registry, session_id),
    )
}

/// Asks for the picture anew, which a new stream does by itself.
#[allow(unused_variables)]
pub fn session_refresh(registry: &CompatSessions, session_id: &str, display: u32) -> (r: String)
    ensures
        r@ == reply(
            "session_refresh"@,
            session_of(registry.items@, session_id@) is Some,
            "The active stream supplies its initial refresh"@,
            session_of(registry.items@, session_id@),
        ),
{
    let session = session_at(registry, session_id);
    action(
        "session_refresh",
        session.is_some(),
        "The active stream supplies its initial refresh",
        session,
    )
}

/// Sets the size of the picture, which the surface decides.
#[allow(unused_variables)]
pub fn session_set_size(
    registry: &CompatSessions,
    session_id: &str,
    display: u32,
    width: u32,
    height: u32,
) -> (r: String)
    ensures
        r@ == reply(
            "session_set_size"@,
            session_of(registry.items@, session_id@) is Some,
            "ArkUI Surface owns presentation size"@,
            session_of(registry.items@, session_id@),
        ),
{
    let session = session_at(registry, session_id);
    action("session_set_size", session.is_some(), "ArkUI Surface owns presentation size", session)
}

/// A session that only watches sends no pointer action.
pub proof fn lemma_view_only_sends_nothing(
    session: CompatSession,
    kind: u32,
    button: u32,
    x: i32,
    y: i32,
    queue: QueueState,
)
    requires
        session.view_only,
    ensures
        pointer_message(Some(session), kind, button, x, y, queue) is None,
{
}

/// A surface that was bound stays the one of the session, whatever is bound later.
pub proof fn lemma_surface_is_kept(
    surface: DeferredSurface,
    display: u32,
    surface_id: Seq<char>,
    retained: bool,
)
    requires
        surface.lease is Some,
    ensures
        bind_outcome(surface, display, surface_id, retained).2 == surface,
{
}

/// The same snapshot is not reported twice: looking again right away adds no event.
pub proof fn lemma_reports_are_not_repeated(
    before: CompatSession,
    after: CompatSession,
    s: viewer::ViewerSnapshotView,
)
    requires
        reported(before, after, s),
    ensures
        engine_events(after, s) == Seq::<Seq<char>>::empty(),
{
    assert(question_events(after, s) =~= Seq::<Seq<char>>::empty());
    assert(status_events(after, s) =~= Seq::<Seq<char>>::empty());
    assert(end_events(after, s) =~= Seq::<Seq<char>>::empty());
    assert(engine_events(after, s) =~= Seq::<Seq<char>>::empty());
}

/// No event is lost: what is handed out and what still waits is what waited and what
/// was reported, in order.
pub proof fn lemma_events_keep_their_order(
    before: CompatSession,
    after: CompatSession,
    limit: u32,
    events: Seq<Seq<char>>,
)
    requires
        polled(before, after, limit, events),
    ensures
        events + text::texts(after.pending_events@) == text::texts(before.pending_events@) + (
        match before.viewer {
            Some(v) => engine_events(before, v@.seen()),
            None => Seq::empty(),
        }),
        events.len() <= MAX_POLLED_EVENTS,
{
    let between = choose|between: CompatSession|
        {
            let n = least(
                between.pending_events@.len(),
                least(limit as nat, MAX_POLLED_EVENTS as nat),
            );
            &&& #[trigger] looked_at(before, between)
            &&& events == text::texts(between.pending_events@.take(n as int))
            &&& after == (CompatSession { pending_events: after.pending_events, ..between })
            &&& after.pending_events@ == between.pending_events@.skip(n as int)
        };
    assert(events + text::texts(after.pending_events@) =~= text::texts(
        between.pending_events@,
    ));
    if before.viewer is None {
        assert(text::texts(before.pending_events@) + Seq::<Seq<char>>::empty() =~= text::texts(
            before.pending_events@,
        ));
    }
}

} // verus!

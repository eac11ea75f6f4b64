//! The screen on which the user hosts.
//!
//! It shows the one host that there is, whose peers are let in by a click. What this
//! runtime does not have (a second factor, trusted devices, permissions of a single
//! peer) is answered as not there, and never made up.
use vstd::prelude::*;
use crate::entries;
use crate::entries::Entries;
use crate::flutter_state;
use crate::har;
use crate::har::engine;
use crate::har::engine::Initialization;
use crate::har::host_bridge;
use crate::har::host_bridge::{HostRegistry, KeyPair, StartedHost};
use crate::har::compat;
use crate::host;
use crate::host::HostSnapshot;
use crate::json;
use crate::text;

verus! {

/// Most settings that are kept.
pub const MAX_SETTINGS: usize = 64;

/// Longest name or value of a setting, in bytes.
pub const MAX_SETTING_LEN: usize = 512;

/// Longest permanent password, in bytes.
pub const MAX_PASSWORD_LEN: usize = 128;

/// The rate of a screen: the number as a text, whether it lies between 1 and 60, and
/// its value where it is an integer.
#[derive(Debug)]
pub struct Rate {
    pub shown: String,
    pub in_range: bool,
    pub whole: Option<i64>,
}

/// A screen as the user's screen describes it, with sides that are rounded.
#[derive(Debug)]
pub struct Screen {
    pub width: i32,
    pub height: i32,
    pub rate: Rate,
}

/// What is kept for the screen: the geometry, the host that was started, the settings,
/// and what was last seen of the host.
pub struct ControlledState {
    pub width: i32,
    pub height: i32,
    pub rate: Option<i64>,
    pub handle: Option<String>,
    pub settings: Entries,
    pub running: bool,
}

impl ControlledState {
    /// Nothing is known of the screen yet.
    pub fn new() -> (r: ControlledState)
        ensures
            r.width == 0 && r.height == 0,
            r.rate == Some(30i64),
            r.handle is None,
            r.settings@ == Seq::<(Seq<char>, Seq<char>)>::empty(),
            !r.running,
    {
        ControlledState {
            width: 0,
            height: 0,
            rate: Some(30),
            handle: None,
            settings: Entries::new(),
            running: false,
        }
    }
}

/// Whether somebody still listens: the host is there, not closed, and did not stop.
pub open spec fn listening(snapshot: Option<host::HostSnapshotView>) -> bool {
    snapshot matches Some(s) && !s.closed && s.phase != "stopped"@
}

/// What is seen of a host, if there is one.
pub open spec fn seen(snapshot: Option<&HostSnapshot>) -> Option<host::HostSnapshotView> {
    match snapshot {
        Some(s) => Some(s@),
        None => None,
    }
}

/// Whether somebody still listens.
pub fn host_running(snapshot: Option<&HostSnapshot>) -> (r: bool)
    ensures
        r == listening(seen(snapshot)),
{
    match snapshot {
        None => false,
        Some(s) => !s.closed && !text::same_text(s.phase, "stopped"),
    }
}

/// The host that was started, if it still exists.
pub open spec fn started_host(state: ControlledState, registry: HostRegistry) -> Option<
    host::HostSnapshotView,
> {
    match state.handle {
        Some(handle) => if host_bridge::is_host(registry, handle@) {
            Some(registry.entry->0.host@.snapshot)
        } else {
            None
        },
        None => None,
    }
}

/// What is seen of the host that was started, if it still exists.
pub fn snapshot<'a>(state: &ControlledState, registry: &'a HostRegistry) -> (r: Option<
    &'a HostSnapshot,
>)
    ensures
        seen(r) == started_host(*state, *registry),
{
    match (&state.handle, &registry.entry) {
        (Some(handle), Some(entry)) => {
            if text::byte_len(handle.as_str()) <= 64 && text::same_text(
                entry.id.as_str(),
                handle.as_str(),
            ) {
                Some(entry.host.snapshot())
            } else {
                None
            }
        },
        _ => None,
    }
}

/// The number that the screen shows: the one to host with, or else the one of the
/// configuration.
pub open spec fn shown_id(
    state: Option<Initialization>,
    keys: KeyPair,
    configured: Seq<char>,
) -> Seq<char> {
    if host_bridge::material_refusal(state, keys) is None && engine::identity_of(state)->0.len()
        > 0 {
        engine::identity_of(state)->0
    } else {
        configured
    }
}

/// The number that the screen shows.
pub fn identity_id(state: &Option<Initialization>, keys: &KeyPair, configured: &str) -> (r: String)
    ensures
        r@ == shown_id(*state, *keys, configured@),
{
    match host_bridge::identity_material(state, keys) {
        Ok(id) => {
            if !id.as_str().is_empty() {
                return id;
            }
        },
        Err(_) => {},
    }
    configured.to_owned()
}

/// The error that a host shows, or nothing.
pub open spec fn shown_error(snapshot: Option<host::HostSnapshotView>) -> Seq<char> {
    match snapshot {
        Some(s) => match s.error {
            Some(error) => error.shown(),
            None => Seq::empty(),
        },
        None => Seq::empty(),
    }
}

/// The state of the host as a JSON object. How a session ended is no error of the host
/// while it listens.
pub open spec fn status_object(snapshot: Option<host::HostSnapshotView>, id: Seq<char>) -> json::ObjectView {
    let running = listening(snapshot);
    let connected = snapshot matches Some(s) && s.connected;
    let reported = shown_error(snapshot);
    json::ObjectView::empty().with("ok"@, text::truth(true)).with(
        "state"@,
        json::json_string(
            if running {
                "ready"@
            } else {
                "disabled"@
            },
        ),
    ).with("serverRunning"@, text::truth(running)).with("myId"@, json::json_string(id)).with(
        "temporaryPassword"@,
        json::json_string(Seq::empty()),
    ).with(
        "clientCount"@,
        text::decimal(
            if connected {
                1
            } else {
                0
            },
        ),
    ).with(
        "lastError"@,
        json::json_string(
            if running {
                Seq::empty()
            } else {
                reported
            },
        ),
    ).with(
        "sessionOutcome"@,
        json::json_string(
            if running {
                reported
            } else {
                Seq::empty()
            },
        ),
    ).with(
        "message"@,
        json::json_string(
            if running {
                "引擎 host 已在本机监听，连接需要本地点按确认"@
            } else {
                "被看服务未运行"@
            },
        ),
    )
}

/// The state of the host as a JSON text.
pub open spec fn status_json(snapshot: Option<host::HostSnapshotView>, id: Seq<char>) -> Seq<
    char,
> {
    status_object(snapshot, id).text()
}

fn nothing() -> (r: String)
    ensures
        r@ == Seq::<char>::empty(),
{
    let r = String::new();
    assert(r@ =~= Seq::<char>::empty());
    r
}

/// The state of the host as a JSON text.
pub fn status_payload(snapshot: Option<&HostSnapshot>, id: &str) -> (r: String)
    ensures
        r@ == status_json(seen(snapshot), id@),
{
    let running = host_running(snapshot);
    let mut connected = false;
    let mut reported = nothing();
    if let Some(s) = snapshot {
        connected = s.connected;
        if let Some(error) = &s.error {
            reported = error.to_string();
        }
    }
    let count: u64 = if connected {
        1
    } else {
        0
    };
    let none = nothing();
    let mut object = json::Object::new();
    object.put_bool("ok", true);
    object.put_text(
        "state",
        if running {
            "ready"
        } else {
            "disabled"
        },
    );
    object.put_bool("serverRunning", running);
    object.put_text("myId", id);
    object.put_text("temporaryPassword", none.as_str());
    object.put_count("clientCount", count);
    object.put_text(
        "lastError",
        if running {
            none.as_str()
        } else {
            reported.as_str()
        },
    );
    object.put_text(
        "sessionOutcome",
        if running {
            reported.as_str()
        } else {
            none.as_str()
        },
    );
    object.put_text(
        "message",
        if running {
            "引擎 host 已在本机监听，连接需要本地点按确认"
        } else {
            "被看服务未运行"
        },
    );
    object.text()
}

/// The state of capture as a JSON object. Capture lasts as long as the host does.
pub open spec fn capture_json(snapshot: Option<host::HostSnapshotView>) -> Seq<char> {
    let running = listening(snapshot);
    let frames = match snapshot {
        Some(s) => s.sent_units as nat,
        None => 0,
    };
    json::ObjectView::empty().with("ok"@, text::truth(true)).with(
        "active"@,
        text::truth(running),
    ).with(
        "nativeStateCode"@,
        text::decimal(
            if running {
                0
            } else {
                1
            },
        ),
    ).with("systemCaptureConfirmed"@, text::truth(running)).with(
        "framesObserved"@,
        text::decimal(frames),
    ).with("audioFramesObserved"@, text::decimal(0)).with(
        "audioFramesForwarded"@,
        text::decimal(0),
    ).with(
        "message"@,
        json::json_string(
            if running {
                "引擎 host 正在采集屏幕"@
            } else {
                "屏幕采集未运行"@
            },
        ),
    ).text()
}

/// The state of capture as a JSON text.
pub fn capture_payload(snapshot: Option<&HostSnapshot>) -> (r: String)
    ensures
        r@ == capture_json(seen(snapshot)),
{
    let running = host_running(snapshot);
    let frames: u64 = match snapshot {
        Some(s) => s.sent_units,
        None => 0,
    };
    let code: u64 = if running {
        0
    } else {
        1
    };
    let mut object = json::Object::new();
    object.put_bool("ok", true);
    object.put_bool("active", running);
    object.put_count("nativeStateCode", code);
    object.put_bool("systemCaptureConfirmed", running);
    object.put_count("framesObserved", frames);
    object.put_count("audioFramesObserved", 0);
    object.put_count("audioFramesForwarded", 0);
    object.put_text(
        "message",
        if running {
            "引擎 host 正在采集屏幕"
        } else {
            "屏幕采集未运行"
        },
    );
    object.text()
}

/// Whether a screen can be hosted.
pub open spec fn acceptable(screen: Screen) -> bool {
    &&& screen.width >= 2
    &&& screen.height >= 2
    &&& screen.width % 2 == 0
    &&& screen.height % 2 == 0
    &&& screen.rate.in_range
}

/// What is answered to a screen.
pub open spec fn screen_reply(screen: Screen, active: bool) -> Seq<char> {
    json::ObjectView::empty().with("ok"@, text::truth(true)).with(
        "active"@,
        text::truth(active),
    ).with(
        "message"@,
        json::json_string(
            "屏幕参数已记录 "@ + text::signed_decimal(screen.width as int) + "x"@
                + text::signed_decimal(screen.height as int) + "@"@ + screen.rate.shown@,
        ),
    ).text()
}

/// Takes note of the screen that a text describes. `screen` is what the numbers of the
/// text come to; it is not looked at where the text is no JSON.
pub fn controlled_screen_configure(
    state: &mut ControlledState,
    config_json: &str,
    screen: &Screen,
) -> (r: String)
    ensures
        match json::json_content(config_json@) {
            Some(_) => screen_noted(r@, *old(state), *final(state), *screen),
            None => r@ == compat::reply(false, "屏幕参数不是有效 JSON"@) && *final(state) == *old(state),
        },
{
    if json::read_content(config_json).is_none() {
        return compat::action(false, "屏幕参数不是有效 JSON");
    }
    note_screen(state, screen)
}

/// Whether `r` answers a screen, and `after` has taken note of it: only of one that a
/// host can show.
pub open spec fn screen_noted(
    r: Seq<char>,
    before: ControlledState,
    after: ControlledState,
    s: Screen,
) -> bool {
    if acceptable(s) {
        &&& r == screen_reply(s, before.handle is Some)
        &&& after == (ControlledState {
            width: s.width,
            height: s.height,
            rate: s.rate.whole,
            ..before
        })
    } else {
        &&& r == compat::reply(false, "屏幕参数超出本机 host 接受的范围"@)
        &&& after == before
    }
}

/// Takes note of a screen, where a host can show it.
pub fn note_screen(state: &mut ControlledState, s: &Screen) -> (r: String)
    ensures
        screen_noted(r@, *old(state), *final(state), *s),
{
    if s.width < 2 || s.height < 2 || s.width % 2 != 0 || s.height % 2 != 0 || !s.rate.in_range {
        return compat::action(false, "屏幕参数超出本机 host 接受的范围");
    }
    state.width = s.width;
    state.height = s.height;
    state.rate = s.rate.whole;
    let mut message = text::joined("屏幕参数已记录 ", text::signed_text(s.width as i64).as_str());
    message = text::joined(message.as_str(), "x");
    message = text::joined(message.as_str(), text::signed_text(s.height as i64).as_str());
    message = text::joined(message.as_str(), "@");
    message = text::joined(message.as_str(), s.rate.shown.as_str());
    let mut object = json::Object::new();
    object.put_bool("ok", true);
    object.put_bool("active", state.handle.is_some());
    object.put_text("message", message.as_str());
    object.text()
}

/// What is needed to host: the identity, the keys, and the number of the configuration.
pub struct HostIdentity {
    pub state: Option<Initialization>,
    pub keys: KeyPair,
    pub configured: String,
}

impl HostIdentity {
    /// The number that the screen shows.
    pub open spec fn shown(self) -> Seq<char> {
        shown_id(self.state, self.keys, self.configured@)
    }
}

/// Starts the host on the screen that was described. Where one is there already, it is
/// reported and nothing else happens, because the screen starts again when it resumes.
pub fn controlled_server_start(
    state: &mut ControlledState,
    registry: &mut HostRegistry,
    identity: &HostIdentity,
) -> (r: (String, Option<StartedHost>))
    ensures
        ({
            let here = started_host(*old(state), *old(registry));
            let refusal = host_bridge::start_refusal(
                *old(registry),
                identity.state,
                identity.keys,
                Some(old(state).width as i64),
                Some(old(state).height as i64),
                old(state).rate,
            );
            if here is Some {
                &&& r.0@ == status_json(here, identity.shown())
                &&& r.1 is None
                &&& *final(state) == *old(state)
                &&& *final(registry) == *old(registry)
            } else if old(state).width < 2 || old(state).height < 2 {
                &&& r.0@ == compat::reply(false, "屏幕参数尚未配置，无法启动被看服务"@)
                &&& r.1 is None
                &&& *final(state) == *old(state)
                &&& *final(registry) == *old(registry)
            } else if refusal is None && host_bridge::identity_fits(identity.state) {
                &&& r.1 matches Some(started)
                &&& host_bridge::host_options_of(
                    started.options,
                    engine::identity_of(identity.state)->0,
                    identity.keys,
                    old(state).width as int,
                    old(state).height as int,
                    old(state).rate->0 as int,
                )
                &&& started.id@ == host_bridge::host_handle(old(registry).next)
                &&& final(state).handle matches Some(handle)
                &&& handle@ == started.id@
                &&& *final(state) == (ControlledState { handle: final(state).handle, ..*old(state) })
                &&& final(registry).entry matches Some(entry)
                &&& entry.id@ == started.id@
                &&& entry.host@ == host::HostView::started(
                    old(state).width,
                    old(state).height,
                    old(state).rate->0 as u32,
                )
                &&& r.0@ == status_json(
                    started_host(*final(state), *final(registry)),
                    identity.shown(),
                )
            } else {
                let error = match refusal {
                    Some(what) => what,
                    None => har::failure(host::HostError::InvalidOptions.shown()),
                };
                &&& r.0@ == compat::reply(false, "被看服务启动失败："@ + error.shown())
                &&& r.1 is None
                &&& *final(state) == *old(state)
                &&& final(registry).entry == old(registry).entry
            }
        }),
{
    let id = identity_id(&identity.state, &identity.keys, identity.configured.as_str());
    {
        let here = snapshot(state, registry);
        if here.is_some() {
            return (status_payload(here, id.as_str()), None);
        }
    }
    if state.width < 2 || state.height < 2 {
        return (compat::action(false, "屏幕参数尚未配置，无法启动被看服务"), None);
    }
    let keys = KeyPair {
        secret: vstd::slice::slice_to_vec(identity.keys.secret.as_slice()),
        public: vstd::slice::slice_to_vec(identity.keys.public.as_slice()),
    };
    let started = registry.engine_host_start(
        &identity.state,
        keys,
        Some(state.width as i64),
        Some(state.height as i64),
        state.rate,
    );
    match started {
        Err(error) => (
            compat::action(
                false,
                text::joined("被看服务启动失败：", error.to_string().as_str()).as_str(),
            ),
            None,
        ),
        Ok(started) => {
            state.handle = Some(started.id.clone());
            let status = status_payload(snapshot(state, registry), id.as_str());
            (status, Some(started))
        },
    }
}

/// The host was closed, or closing it failed; then it is still held. Either way the
/// screen is told that nobody listens.
pub fn controlled_server_stop(
    state: &mut ControlledState,
    identity: &HostIdentity,
    closed: bool,
) -> (r: String)
    ensures
        r@ == status_json(None, identity.shown()),
        final(state).handle == (if closed {
            None
        } else {
            old(state).handle
        }),
        *final(state) == (ControlledState { handle: final(state).handle, ..*old(state) }),
{
    if closed {
        state.handle = None;
    }
    let id = identity_id(&identity.state, &identity.keys, identity.configured.as_str());
    status_payload(None, id.as_str())
}

/// The line that is logged when the host starts or stops to listen.
pub open spec fn trace_line(snapshot: Option<host::HostSnapshotView>) -> Seq<char> {
    "controlled_host listener_running="@ + text::truth(listening(snapshot)) + " phase="@ + (
    match snapshot {
        Some(s) => s.phase,
        None => "absent"@,
    }) + " error="@ + shown_error(snapshot)
}

/// The state of the host, and a line to log where it starts or stops to listen.
pub fn controlled_server_get_status(
    state: &mut ControlledState,
    registry: &HostRegistry,
    identity: &HostIdentity,
) -> (r: (String, Option<String>))
    ensures
        ({
            let here = started_host(*old(state), *registry);
            &&& r.0@ == status_json(here, identity.shown())
            &&& *final(state) == (ControlledState { running: listening(here), ..*old(state) })
            &&& match r.1 {
                Some(line) => old(state).running != listening(here) && line@ == trace_line(here),
                None => old(state).running == listening(here),
            }
        }),
{
    let here = snapshot(state, registry);
    let running = host_running(here);
    let mut line: Option<String> = None;
    if state.running != running {
        let mut s = text::joined("controlled_host listener_running=", text::truth_text(running));
        s = text::joined(s.as_str(), " phase=");
        s = match here {
            Some(seen) => text::joined(s.as_str(), seen.phase),
            None => text::joined(s.as_str(), "absent"),
        };
        s = text::joined(s.as_str(), " error=");
        if let Some(seen) = here {
            if let Some(error) = &seen.error {
                s = text::joined(s.as_str(), error.to_string().as_str());
            }
        }
        assert(s@ =~= trace_line(seen(here)));
        line = Some(s);
    }
    let id = identity_id(&identity.state, &identity.keys, identity.configured.as_str());
    let status = status_payload(here, id.as_str());
    state.running = running;
    (status, line)
}

/// The state of capture.
pub fn controlled_screen_capture_get_status(state: &ControlledState, registry: &HostRegistry) -> (r:
    String)
    ensures
        r@ == capture_json(started_host(*state, *registry)),
{
    capture_payload(snapshot(state, registry))
}

/// Starts capture, which lasts as long as the host does: its state.
pub fn controlled_screen_capture_start(state: &ControlledState, registry: &HostRegistry) -> (r:
    String)
    ensures
        r@ == capture_json(started_host(*state, *registry)),
{
    capture_payload(snapshot(state, registry))
}

/// Stops capture, which stops with the host.
pub fn controlled_screen_capture_stop() -> (r: String)
    ensures
        r@ == json::ObjectView::empty().with("ok"@, text::truth(true)).with(
            "active"@,
            text::truth(false),
        ).with("nativeStateCode"@, text::decimal(1)).with(
            "systemCaptureConfirmed"@,
            text::truth(false),
        ).with("message"@, json::json_string("屏幕采集随被看服务停止"@)).text(),
{
    let mut object = json::Object::new();
    object.put_bool("ok", true);
    object.put_bool("active", false);
    object.put_count("nativeStateCode", 1);
    object.put_bool("systemCaptureConfirmed", false);
    object.put_text("message", "屏幕采集随被看服务停止");
    object.text()
}

/// A peer as a JSON object.
pub open spec fn client_json(
    request: Seq<char>,
    peer: Seq<char>,
    name: Seq<char>,
    authorized: bool,
) -> Seq<char> {
    json::ObjectView::empty().with("requestId"@, json::json_string(request)).with(
        "peerId"@,
        json::json_string(peer),
    ).with("peerName"@, json::json_string(name)).with("authorized"@, text::truth(authorized)).text()
}

fn client_text(request: &str, peer: &str, name: &str, authorized: bool) -> (r: String)
    ensures
        r@ == client_json(request@, peer@, name@, authorized),
{
    let mut object = json::Object::new();
    object.put_text("requestId", request);
    object.put_text("peerId", peer);
    object.put_text("peerName", name);
    object.put_bool("authorized", authorized);
    object.text()
}

/// The peers and the requests that a host has: at most one of each. A peer that was
/// let in is named by where its request came from, as long as that is known.
pub open spec fn incoming_of(snapshot: Option<host::HostSnapshotView>) -> (
    Seq<Seq<char>>,
    Seq<Seq<char>>,
) {
    match snapshot {
        None => (Seq::empty(), Seq::empty()),
        Some(s) => {
            let entry = client_json(
                s.approval_request,
                s.approval_origin,
                s.approval_origin,
                s.connected,
            );
            if s.approval_origin.len() > 0 {
                (
                    seq![entry],
                    if s.connected {
                        Seq::empty()
                    } else {
                        seq![entry]
                    },
                )
            } else if s.connected {
                (seq![client_json(Seq::empty(), Seq::empty(), "远端会话"@, true)], Seq::empty())
            } else {
                (Seq::empty(), Seq::empty())
            }
        },
    }
}

/// The peers and the requests of the host, as a JSON text.
pub fn incoming_payload(snapshot: Option<&HostSnapshot>) -> (r: String)
    ensures
        r@ == json::ObjectView::empty().with("ok"@, text::truth(true)).with(
            "clients"@,
            json::array_of(incoming_of(seen(snapshot)).0),
        ).with("requests"@, json::array_of(incoming_of(seen(snapshot)).1)).text(),
{
    let mut clients: Vec<String> = Vec::new();
    let mut requests: Vec<String> = Vec::new();
    if let Some(s) = snapshot {
        let origin = s.approval_origin.as_str();
        if s.connected && origin.is_empty() {
            let none = nothing();
            clients.push(client_text(none.as_str(), none.as_str(), "远端会话", true));
        } else if !origin.is_empty() {
            let request = s.approval_request.as_str();
            clients.push(client_text(request, origin, origin, s.connected));
            if !s.connected {
                requests.push(client_text(request, origin, origin, s.connected));
            }
        }
    }
    assert(text::texts(clients@) =~= incoming_of(seen(snapshot)).0);
    assert(text::texts(requests@) =~= incoming_of(seen(snapshot)).1);
    let mut object = json::Object::new();
    object.put_bool("ok", true);
    object.put("clients", json::array_text(&clients).as_str());
    object.put("requests", json::array_text(&requests).as_str());
    object.text()
}

/// The peers and the requests of the host that was started, whatever the limit.
pub fn controlled_incoming_poll(state: &ControlledState, registry: &HostRegistry) -> (r: String)
    ensures
        ({
            let incoming = incoming_of(started_host(*state, *registry));
            r@ == json::ObjectView::empty().with("ok"@, text::truth(true)).with(
                "clients"@,
                json::array_of(incoming.0),
            ).with("requests"@, json::array_of(incoming.1)).text()
        }),
{
    incoming_payload(snapshot(state, registry))
}

/// The user's decision about a request.
pub fn controlled_incoming_resolve(
    state: &ControlledState,
    registry: &mut HostRegistry,
    request_id: &str,
    accepted: bool,
) -> (r: String)
    ensures
        ({
            let len = vstd::utf8::encode_utf8(request_id@).len();
            match state.handle {
                None => r@ == compat::reply(false, "被看服务未运行"@) && *final(registry) == *old(registry),
                Some(handle) => if !(0 < len <= 256) {
                    &&& r@ == compat::reply(
                        false,
                        "处理连接请求失败："@ + har::invalidity(
                            "Invalid local approval request"@,
                        ).shown(),
                    )
                    &&& *final(registry) == *old(registry)
                } else if !host_bridge::is_host(*old(registry), handle@) {
                    &&& exists|e: har::BridgeErrorView| #[trigger]
                        host_bridge::host_lookup_error(e, handle@) && r@ == compat::reply(
                            false,
                            "处理连接请求失败："@ + e.shown(),
                        )
                    &&& *final(registry) == *old(registry)
                } else {
                    let before = old(registry).entry->0;
                    let counts = !before.closing && host_bridge::approves(
                        before.host,
                        request_id@,
                    );
                    &&& r@ == (if counts {
                        compat::reply(true, "已处理该连接请求"@)
                    } else {
                        compat::reply(false, "该请求已失效或被拒绝"@)
                    })
                    &&& final(registry).entry matches Some(after)
                    &&& after.id == before.id
                    &&& after.host@ == (host::HostView {
                        grant: if counts {
                            before.host.grant.decided(before.host.grant.epoch, accepted)
                        } else {
                            before.host.grant
                        },
                        ..before.host@
                    })
                },
            }
        }),
{
    match &state.handle {
        None => compat::action(false, "被看服务未运行"),
        Some(handle) => match registry.engine_host_approve(handle.as_str(), request_id, accepted) {
            Ok(counts) => {
                if counts {
                    compat::action(true, "已处理该连接请求")
                } else {
                    compat::action(false, "该请求已失效或被拒绝")
                }
            },
            Err(error) => {
                compat::action(
                    false,
                    text::joined("处理连接请求失败：", error.to_string().as_str()).as_str(),
                )
            },
        },
    }
}

/// Grants a permission to a single peer, which this host cannot.
pub fn controlled_incoming_set_permission() -> (r: String)
    ensures
        r@ == compat::reply(false, "本机构建为仅观看 host，不支持按请求授予权限"@),
{
    compat::action(false, "本机构建为仅观看 host，不支持按请求授予权限")
}

/// What is known of the passwords: the temporary one, which of them count as the
/// configuration says, and whether there is a permanent one.
pub struct Passwords {
    pub temporary: String,
    pub method: String,
    pub permanent_set: bool,
}

/// The passwords as a JSON object.
pub open spec fn passwords_json(p: Passwords) -> Seq<char> {
    json::ObjectView::empty().with("ok"@, text::truth(true)).with(
        "temporaryPassword"@,
        json::json_string(p.temporary@),
    ).with(
        "verificationMethod"@,
        json::json_string(
            if p.method@.len() == 0 {
                "use-both-passwords"@
            } else {
                p.method@
            },
        ),
    ).with("permanentPasswordSet"@, text::truth(p.permanent_set)).with(
        "localPermanentPasswordSet"@,
        text::truth(false),
    ).with("verificationMethodFixed"@, text::truth(false)).with(
        "permanentPasswordChangeDisabled"@,
        text::truth(false),
    ).with("maxPasswordLength"@, text::decimal(128)).with(
        "message"@,
        json::json_string("临时密码由本机生成，客户端输入即可连接"@),
    ).text()
}

/// The passwords.
pub fn controlled_password_get(p: &Passwords) -> (r: String)
    ensures
        r@ == passwords_json(*p),
{
    let mut object = json::Object::new();
    object.put_bool("ok", true);
    object.put_text("temporaryPassword", p.temporary.as_str());
    object.put_text(
        "verificationMethod",
        if p.method.as_str().is_empty() {
            "use-both-passwords"
        } else {
            p.method.as_str()
        },
    );
    object.put_bool("permanentPasswordSet", p.permanent_set);
    object.put_bool("localPermanentPasswordSet", false);
    object.put_bool("verificationMethodFixed", false);
    object.put_bool("permanentPasswordChangeDisabled", false);
    object.put_count("maxPasswordLength", 128);
    object.put_text("message", "临时密码由本机生成，客户端输入即可连接");
    object.text()
}

/// The passwords after a new temporary one was made.
pub fn controlled_password_refresh(p: &Passwords) -> (r: String)
    ensures
        r@ == passwords_json(*p),
{
    controlled_password_get(p)
}

/// Whether a permanent password may be stored; an empty one clears it.
pub fn accepts_permanent(password: &str) -> (r: bool)
    ensures
        r == (vstd::utf8::encode_utf8(password@).len() <= MAX_PASSWORD_LEN),
{
    text::byte_len(password) <= MAX_PASSWORD_LEN
}

/// The answer to a permanent password that was to be stored; `written` tells whether
/// it was, and `p` what is known of the passwords then.
pub fn controlled_password_set_permanent(password: &str, written: bool, p: &Passwords) -> (r: String)
    ensures
        r@ == (if vstd::utf8::encode_utf8(password@).len() > MAX_PASSWORD_LEN {
            compat::reply(false, "固定密码超出长度限制"@)
        } else if !written {
            compat::reply(false, "固定密码写入失败"@)
        } else {
            passwords_json(*p)
        }),
{
    if !accepts_permanent(password) {
        return compat::action(false, "固定密码超出长度限制");
    }
    if !written {
        return compat::action(false, "固定密码写入失败");
    }
    controlled_password_get(p)
}

/// Whether there is such a way to choose between the passwords.
pub open spec fn is_method(method: Seq<char>) -> bool {
    method == "use-temporary-password"@ || method == "use-permanent-password"@ || method
        == "use-both-passwords"@
}

/// Whether there is such a way to choose between the passwords.
pub fn accepts_method(method: &str) -> (r: bool)
    ensures
        r == is_method(method@),
{
    text::same_text(method, "use-temporary-password") || text::same_text(
        method,
        "use-permanent-password",
    ) || text::same_text(method, "use-both-passwords")
}

/// The answer to a way to choose between the passwords; `p` is what is known of the
/// passwords after it was stored.
pub fn controlled_password_set_verification_method(method: &str, p: &Passwords) -> (r: String)
    ensures
        r@ == (if is_method(method@) {
            passwords_json(*p)
        } else {
            compat::reply(false, "未知的密码模式"@)
        }),
{
    if !accepts_method(method) {
        return compat::action(false, "未知的密码模式");
    }
    controlled_password_get(p)
}

/// The settings.
pub fn controlled_settings_get(state: &ControlledState) -> (r: String)
    ensures
        r@ == json::ObjectView::empty().with("ok"@, text::truth(true)).with(
            "settings"@,
            flutter_state::as_texts(json::ObjectView::empty(), state.settings@).text(),
        ).text(),
{
    let mut object = json::Object::new();
    object.put_bool("ok", true);
    object.put("settings", flutter_state::entries_json(&state.settings).text().as_str());
    object.text()
}

/// Why a setting is not kept, if it is not.
pub open spec fn setting_refusal(
    settings: Seq<(Seq<char>, Seq<char>)>,
    key: Seq<char>,
    value: Seq<char>,
) -> Option<Seq<char>> {
    let key_len = vstd::utf8::encode_utf8(key).len();
    if !(0 < key_len <= MAX_SETTING_LEN) || vstd::utf8::encode_utf8(value).len()
        > MAX_SETTING_LEN {
        Some("设置项超出长度限制"@)
    } else if entries::value_of(settings, key) is None && settings.len() >= MAX_SETTINGS {
        Some("设置项数量超出限制"@)
    } else {
        None
    }
}

/// Keeps a setting.
pub fn controlled_setting_set(state: &mut ControlledState, key: &str, value: &str) -> (r: String)
    ensures
        match setting_refusal(old(state).settings@, key@, value@) {
            Some(what) => r@ == compat::reply(false, what) && *final(state) == *old(state),
            None => {
                &&& r@ == json::ObjectView::empty().with("ok"@, text::truth(true)).text()
                &&& final(state).settings@ == entries::placed(old(state).settings@, key@, value@)
                &&& *final(state) == (ControlledState {
                    settings: final(state).settings,
                    ..*old(state)
                })
            },
        },
{
    let key_len: usize = text::byte_len(key);
    if key_len == 0 || key_len > MAX_SETTING_LEN || text::byte_len(value) > MAX_SETTING_LEN {
        return compat::action(false, "设置项超出长度限制");
    }
    if state.settings.get(key).is_none() && state.settings.len() >= MAX_SETTINGS {
        return compat::action(false, "设置项数量超出限制");
    }
    state.settings.put(key, value);
    let mut object = json::Object::new();
    object.put_bool("ok", true);
    object.text()
}

/// A second factor, of which there is none, as a JSON object.
pub open spec fn no_factor() -> Seq<char> {
    json::ObjectView::empty().with("ok"@, text::truth(true)).with(
        "enabled"@,
        text::truth(false),
    ).with("trustedDevicesEnabled"@, text::truth(false)).with(
        "trustedDevicesFixed"@,
        text::truth(true),
    ).with("trustedDevices"@, "[]"@).with(
        "message"@,
        json::json_string("本机构建不支持两步验证"@),
    ).text()
}

fn two_factor_absent() -> (r: String)
    ensures
        r@ == no_factor(),
{
    let mut object = json::Object::new();
    object.put_bool("ok", true);
    object.put_bool("enabled", false);
    object.put_bool("trustedDevicesEnabled", false);
    object.put_bool("trustedDevicesFixed", true);
    object.put("trustedDevices", "[]");
    object.put_text("message", "本机构建不支持两步验证");
    object.text()
}

/// The second factor.
pub fn controlled_two_factor_get() -> (r: String)
    ensures
        r@ == no_factor(),
{
    two_factor_absent()
}

/// Begins to set up a second factor.
pub fn controlled_two_factor_begin() -> (r: String)
    ensures
        r@ == compat::reply(false, "本机构建不支持两步验证"@),
{
    compat::action(false, "本机构建不支持两步验证")
}

/// Checks a second factor, whatever it is.
pub fn controlled_two_factor_verify() -> (r: String)
    ensures
        r@ == compat::reply(false, "本机构建不支持两步验证"@),
{
    compat::action(false, "本机构建不支持两步验证")
}

/// Takes the second factor away.
pub fn controlled_two_factor_disable() -> (r: String)
    ensures
        r@ == no_factor(),
{
    two_factor_absent()
}

/// Forgets trusted devices, of which none was ever kept.
pub fn controlled_two_factor_remove_trusted_devices() -> (r: String)
    ensures
        r@ == compat::reply(true, "本机构建没有受信任设备记录"@),
{
    compat::action(true, "本机构建没有受信任设备记录")
}

/// Forgets all trusted devices.
pub fn controlled_two_factor_clear_trusted_devices() -> (r: String)
    ensures
        r@ == compat::reply(true, "本机构建没有受信任设备记录"@),
{
    compat::action(true, "本机构建没有受信任设备记录")
}

/// While a host listens, how its last session ended is the outcome of that session and
/// no error of the host; a host that is gone shows it as its error.
pub proof fn lemma_outcome_is_no_host_error(
    snapshot: Option<host::HostSnapshotView>,
    id: Seq<char>,
)
    ensures
        ({
            let shown = json::json_string(shown_error(snapshot));
            let empty = json::json_string(Seq::empty());
            let object = status_object(snapshot, id).entries;
            &&& entries::value_of(object, "lastError"@) == Some(
                if listening(snapshot) {
                    empty
                } else {
                    shown
                },
            )
            &&& entries::value_of(object, "sessionOutcome"@) == Some(
                if listening(snapshot) {
                    shown
                } else {
                    empty
                },
            )
        }),
{
    let object = status_object(snapshot, id);
    let empty = json::json_string(Seq::<char>::empty());
    let shown = json::json_string(shown_error(snapshot));
    reveal_strlit("lastError");
    reveal_strlit("sessionOutcome");
    reveal_strlit("message");
    let running = listening(snapshot);
    let text = json::json_string(
        if running {
            "引擎 host 已在本机监听，连接需要本地点按确认"@
        } else {
            "被看服务未运行"@
        },
    );
    let last = if running {
        empty
    } else {
        shown
    };
    let outcome = if running {
        shown
    } else {
        empty
    };
    assert("lastError"@.len() == 9 && "sessionOutcome"@.len() == 14 && "message"@.len() == 7);
    let connected = snapshot matches Some(s) && s.connected;
    let base = json::ObjectView::empty().with("ok"@, text::truth(true)).with(
        "state"@,
        json::json_string(
            if running {
                "ready"@
            } else {
                "disabled"@
            },
        ),
    ).with("serverRunning"@, text::truth(running)).with("myId"@, json::json_string(id)).with(
        "temporaryPassword"@,
        empty,
    ).with(
        "clientCount"@,
        text::decimal(
            if connected {
                1
            } else {
                0
            },
        ),
    );
    let with_last = base.with("lastError"@, last);
    let with_outcome = with_last.with("sessionOutcome"@, outcome);
    assert(object == with_outcome.with("message"@, text));
    entries::lemma_put_is_found(base.entries, "lastError"@, last, "lastError"@);
    entries::lemma_put_is_found(with_last.entries, "sessionOutcome"@, outcome, "lastError"@);
    entries::lemma_put_is_found(with_outcome.entries, "message"@, text, "lastError"@);
    entries::lemma_put_is_found(with_outcome.entries, "message"@, text, "sessionOutcome"@);
}

} // verus!

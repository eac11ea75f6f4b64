//! Sessions of the frontend.
//!
//! The frontend creates a session, hands over a stream for its events, and then calls
//! into the session until it is removed. An event is a JSON object whose `name` says
//! what it is about; the text `close` alone ends the stream. What is reported is what
//! was observed, and each change is reported once.
use std::collections::HashMap;
use vstd::prelude::*;
use crate::entries;
use crate::flutter_state;
use crate::flutter_state::{AppConfig, PeerConfig};
use crate::flutter_surface;
use crate::flutter_surface::{RendezvousConfig, TextureLease, Textures};
use crate::host::Address;
use crate::json;
use crate::message;
use crate::message::{DisplayInfo, PeerInfo};
use crate::text;
use crate::viewer;
use crate::viewer::{Connector, Viewer, ViewerImageQuality, ViewerOptions, ViewerSnapshot};

verus! {

/// The port of a direct connection.
pub const DEFAULT_DIRECT_PORT: u16 = 21118;

/// Most sessions at once.
pub const MAX_SESSIONS: usize = 16;

/// How often events are looked for, in milliseconds.
pub const PUMP_INTERVAL_MILLIS: u64 = 50;

/// Where a session connects.
#[derive(Debug, Clone, PartialEq, Eq)]
pub enum Route {
    Direct(Address),
    Rendezvous(String),
}

/// How a target reads: as an address with a port, or as an address alone, to which
/// the port of direct connections is added.
#[derive(Debug)]
pub struct TargetReading {
    pub socket: Option<Address>,
    pub ip: Option<Address>,
}

/// What the frontend asks of a new session.
#[derive(Clone)]
pub struct AddOptions {
    pub is_file_transfer: bool,
    pub is_view_camera: bool,
    pub is_port_forward: bool,
    pub is_rdp: bool,
    pub is_terminal: bool,
    pub force_relay: bool,
    pub password: String,
}

impl Default for AddOptions {
    fn default() -> (r: AddOptions)
        ensures
            !r.is_file_transfer && !r.is_view_camera && !r.is_port_forward && !r.is_rdp
                && !r.is_terminal && !r.force_relay,
            r.password@ == Seq::<char>::empty(),
    {
        let r = AddOptions {
            is_file_transfer: false,
            is_view_camera: false,
            is_port_forward: false,
            is_rdp: false,
            is_terminal: false,
            force_relay: false,
            password: String::new(),
        };
        assert(r.password@ =~= Seq::<char>::empty());
        r
    }
}

/// What was reported of a session.
#[derive(Debug)]
pub struct PumpState {
    pub last_phase: String,
    pub peer_info_sent: bool,
    pub permission_sent: bool,
    pub close_sent: bool,
    pub last_codec: String,
    pub last_width: i32,
    pub last_height: i32,
    pub display_sent: bool,
}

/// What was reported of a session, with texts as sequences.
pub struct PumpView {
    pub last_phase: Seq<char>,
    pub peer_info_sent: bool,
    pub permission_sent: bool,
    pub close_sent: bool,
    pub last_codec: Seq<char>,
    pub last_width: i32,
    pub last_height: i32,
    pub display_sent: bool,
}

impl View for PumpState {
    type V = PumpView;

    open spec fn view(&self) -> PumpView {
        PumpView {
            last_phase: self.last_phase@,
            peer_info_sent: self.peer_info_sent,
            permission_sent: self.permission_sent,
            close_sent: self.close_sent,
            last_codec: self.last_codec@,
            last_width: self.last_width,
            last_height: self.last_height,
            display_sent: self.display_sent,
        }
    }
}

impl PumpView {
    /// Nothing was reported yet.
    pub open spec fn silent() -> PumpView {
        PumpView {
            last_phase: Seq::empty(),
            peer_info_sent: false,
            permission_sent: false,
            close_sent: false,
            last_codec: Seq::empty(),
            last_width: 0,
            last_height: 0,
            display_sent: false,
        }
    }
}

impl Default for PumpState {
    fn default() -> (r: PumpState)
        ensures
            r@ == PumpView::silent(),
    {
        let r = PumpState {
            last_phase: String::new(),
            peer_info_sent: false,
            permission_sent: false,
            close_sent: false,
            last_codec: String::new(),
            last_width: 0,
            last_height: 0,
            display_sent: false,
        };
        assert(r@.last_phase =~= Seq::<char>::empty());
        assert(r@.last_codec =~= Seq::<char>::empty());
        r
    }
}

/// An event for the frontend.
#[derive(Debug, Clone, PartialEq, Eq)]
pub enum EventToUI {
    Event(String),
    Rgba(usize),
    Texture(usize, bool),
}

/// A session.
pub struct Session {
    pub id: u128,
    pub peer: String,
    pub route: Route,
    pub options: AddOptions,
    pub viewer: Option<Viewer>,
    /// Whether the frontend handed over a stream for events.
    pub events: bool,
    pub pump: PumpState,
}

/// All sessions.
pub struct Sessions {
    pub map: HashMap<u128, Session>,
}

impl Sessions {
    /// No sessions.
    pub fn new() -> (r: Sessions)
        ensures
            r.map@ == Map::<u128, Session>::empty(),
    {
        Sessions { map: HashMap::new() }
    }
}

/// Whether a text can name a peer.
pub open spec fn is_peer_name(name: Seq<char>) -> bool {
    0 < vstd::utf8::encode_utf8(name).len() <= 256 && !text::has_control(name)
}

/// Whether `route` is the route to a target: an address with a port that is not zero,
/// an address alone, or else the number of a peer. An address with the port zero is no
/// target.
pub open spec fn routes(route: Option<Route>, target: Seq<char>, reading: TargetReading) -> bool {
    match reading.socket {
        Some(address) => if address.port != 0 {
            route matches Some(Route::Direct(a)) && same_address(a, address)
        } else {
            route is None
        },
        None => match reading.ip {
            Some(address) => route matches Some(Route::Direct(a)) && same_address(a, address),
            None => if is_peer_name(text::trimmed(target)) {
                route matches Some(Route::Rendezvous(name)) && name@ == text::trimmed(target)
            } else {
                route is None
            },
        },
    }
}

/// Whether two addresses read the same.
pub open spec fn same_address(a: Address, b: Address) -> bool {
    a.ip@ == b.ip@ && a.text@ == b.text@ && a.port == b.port
}

fn copy_address(a: &Address) -> (r: Address)
    ensures
        same_address(r, *a),
{
    Address { ip: a.ip.clone(), text: a.text.clone(), port: a.port }
}

/// The route to a target, where it is one. `reading` is how the target reads without
/// the white space at its ends.
pub fn parse_route(target: &str, reading: &TargetReading) -> (r: Option<Route>)
    ensures
        routes(r, target@, *reading),
{
    if let Some(address) = &reading.socket {
        if address.port == 0 {
            return None;
        }
        return Some(Route::Direct(copy_address(address)));
    }
    if let Some(address) = &reading.ip {
        return Some(Route::Direct(copy_address(address)));
    }
    let name = text::trim(target);
    let len: usize = text::byte_len(name.as_str());
    if len > 0 && len <= 256 && !text::contains_control(name.as_str()) {
        return Some(Route::Rendezvous(name));
    }
    None
}

/// Why a session is not created, if it is not: kinds of sessions that this engine does
/// not have, options that make no sense, a target that is none, and then what exists
/// already.
pub open spec fn add_refusal(
    sessions: Map<u128, Session>,
    id: u128,
    target: Seq<char>,
    reading: TargetReading,
    options: AddOptions,
) -> Option<Seq<char>> {
    if options.is_terminal {
        Some("Terminal sessions are not supported by this runtime"@)
    } else if options.is_file_transfer || options.is_port_forward || options.is_rdp {
        Some("Only remote-control sessions are supported by this runtime"@)
    } else if vstd::utf8::encode_utf8(options.password@).len() > 4096 {
        Some("Password is too long"@)
    } else if options.force_relay {
        Some("Forced relay routing is not supported by this runtime"@)
    } else if routes(None, target, reading) {
        Some("Invalid peer target"@)
    } else if sessions.dom().contains(id) {
        Some("Session already exists"@)
    } else if sessions.len() >= MAX_SESSIONS {
        Some("Session limit reached"@)
    } else {
        None
    }
}

/// Whether `session` was just created.
pub open spec fn created(
    session: Session,
    id: u128,
    target: Seq<char>,
    reading: TargetReading,
    options: AddOptions,
) -> bool {
    &&& session.id == id
    &&& session.peer@ == text::trimmed(target)
    &&& routes(Some(session.route), target, reading)
    &&& session.options == options
    &&& session.viewer is None
    &&& !session.events
    &&& session.pump@ == PumpView::silent()
}

/// Creates a session.
pub fn add(
    sessions: &mut Sessions,
    id: u128,
    peer: &str,
    reading: &TargetReading,
    options: AddOptions,
) -> (r: Result<(), String>)
    ensures
        match r {
            Ok(_) => {
                &&& add_refusal(old(sessions).map@, id, peer@, *reading, options) is None
                &&& final(sessions).map@ == old(sessions).map@.insert(
                    id,
                    final(sessions).map@[id],
                )
                &&& created(final(sessions).map@[id], id, peer@, *reading, options)
                &&& final(sessions).map@.len() <= MAX_SESSIONS
            },
            Err(what) => {
                &&& add_refusal(old(sessions).map@, id, peer@, *reading, options) == Some(what@)
                &&& final(sessions).map@ == old(sessions).map@
            },
        },
{
    broadcast use vstd::std_specs::hash::group_hash_axioms;

    if options.is_terminal {
        return Err("Terminal sessions are not supported by this runtime".to_owned());
    }
    if options.is_file_transfer || options.is_port_forward || options.is_rdp {
        return Err("Only remote-control sessions are supported by this runtime".to_owned());
    }
    if text::byte_len(options.password.as_str()) > 4096 {
        return Err("Password is too long".to_owned());
    }
    if options.force_relay {
        return Err("Forced relay routing is not supported by this runtime".to_owned());
    }
    let route = match parse_route(peer, reading) {
        None => {
            return Err("Invalid peer target".to_owned());
        },
        Some(route) => route,
    };
    if sessions.map.contains_key(&id) {
        return Err("Session already exists".to_owned());
    }
    if sessions.map.len() >= MAX_SESSIONS {
        return Err("Session limit reached".to_owned());
    }
    let session = Session {
        id,
        peer: text::trim(peer),
        route,
        options,
        viewer: None,
        events: false,
        pump: PumpState::default(),
    };
    sessions.map.insert(id, session);
    assert(sessions.map@ =~= old(sessions).map@.insert(id, sessions.map@[id]));
    Ok(())
}

/// Whether there is a session.
pub fn session_exists(sessions: &Sessions, id: u128) -> (r: bool)
    ensures
        r == sessions.map@.dom().contains(id),
{
    broadcast use vstd::std_specs::hash::group_hash_axioms;

    sessions.map.contains_key(&id)
}

/// Whether `after` is `before` with its viewer about to close.
pub open spec fn closing(before: Session, after: Session) -> bool {
    &&& after == (Session { viewer: after.viewer, ..before })
    &&& match (before.viewer, after.viewer) {
        (Some(old_viewer), Some(new_viewer)) => new_viewer@.closing(old_viewer@),
        (old_viewer, new_viewer) => old_viewer is None && new_viewer is None,
    }
}

/// Removes a session and asks its viewer to close.
pub fn remove(sessions: &mut Sessions, id: u128) -> (r: Option<Session>)
    ensures
        final(sessions).map@ == old(sessions).map@.remove(id),
        match r {
            Some(session) => old(sessions).map@.dom().contains(id) && closing(
                old(sessions).map@[id],
                session,
            ),
            None => !old(sessions).map@.dom().contains(id),
        },
{
    broadcast use vstd::std_specs::hash::group_hash_axioms;

    let removed = sessions.map.remove(&id);
    assert(sessions.map@ =~= old(sessions).map@.remove(id));
    match removed {
        None => None,
        Some(session) => {
            let mut session = session;
            match &mut session.viewer {
                Some(viewer) => {
                    viewer.request_close();
                },
                None => {},
            }
            Some(session)
        },
    }
}

/// The sessions with a stream for the events of one of them, which report its end
/// anew.
pub open spec fn attached(sessions: Map<u128, Session>, id: u128) -> Map<u128, Session> {
    let before = sessions[id];
    sessions.insert(
        id,
        Session {
            events: true,
            pump: PumpState { close_sent: false, ..before.pump },
            ..before
        },
    )
}

/// Takes note that the frontend handed over a stream for the events of a session, and
/// tells whether there was one before, which then has to be ended.
pub fn attach_stream(sessions: &mut Sessions, id: u128) -> (r: Result<bool, String>)
    ensures
        match r {
            Ok(replaced) => {
                &&& old(sessions).map@.dom().contains(id)
                &&& replaced == old(sessions).map@[id].events
                &&& final(sessions).map@ == attached(old(sessions).map@, id)
            },
            Err(what) => {
                &&& !old(sessions).map@.dom().contains(id)
                &&& what@ == "Session not found"@
                &&& final(sessions).map@ == old(sessions).map@
            },
        },
{
    broadcast use vstd::std_specs::hash::group_hash_axioms;

    match sessions.map.remove(&id) {
        None => {
            assert(sessions.map@ =~= old(sessions).map@);
            Err("Session not found".to_owned())
        },
        Some(session) => {
            let mut session = session;
            let replaced = session.events;
            session.events = true;
            session.pump.close_sent = false;
            sessions.map.insert(id, session);
            assert(sessions.map@ =~= attached(old(sessions).map@, id));
            Ok(replaced)
        },
    }
}

/// What is needed to run the viewer of a session.
pub struct StartPlan {
    pub options: ViewerOptions,
    pub connector: Connector,
    /// Where the peer is found, where it is found by its number.
    pub rendezvous: Option<RendezvousConfig>,
    pub lease: TextureLease,
}

/// Whether `o` are the options of the viewer of a session.
pub open spec fn viewer_options_of(o: ViewerOptions, session: Session, local_id: Seq<char>) -> bool {
    &&& match session.route {
        Route::Direct(address) => o.address matches Some(a) && same_address(a, address)
            && o.username@ == address.ip@,
        Route::Rendezvous(peer) => o.address is None && o.username@ == peer@,
    }
    &&& o.local_id@ == local_id
    &&& o.local_name@ == "RustDesk"@
    &&& o.password@ == session.options.password@
    &&& o.requested_fps == 60
    &&& o.clipboard_enabled
    &&& o.image_quality is Balanced
}

/// Whether a viewer can be started with the options of a session.
pub open spec fn startable(session: Session, local_id: Seq<char>) -> bool {
    let username = match session.route {
        Route::Direct(address) => address.ip@,
        Route::Rendezvous(peer) => peer@,
    };
    &&& session.route matches Route::Direct(address) ==> address.port != 0
    &&& 0 < vstd::utf8::encode_utf8(username).len() <= 512
    &&& 0 < vstd::utf8::encode_utf8(local_id).len() <= 512
    &&& vstd::utf8::encode_utf8(session.options.password@).len() <= 4096
}

/// Why a session does not start, if it does not. A session that runs starts no more.
pub open spec fn start_refusal(
    sessions: Map<u128, Session>,
    config: AppConfig,
    public: Seq<char>,
    id: u128,
) -> Option<Seq<char>> {
    if config.id@.len() == 0 {
        Some("Runtime identity is unavailable"@)
    } else if !sessions.dom().contains(id) {
        Some("Session not found"@)
    } else if sessions[id].viewer is Some {
        None
    } else if sessions[id].route is Rendezvous && flutter_surface::key_of(
        crate::encoding::base64_bytes(
            flutter_surface::chosen_key(
                entries::value_or_empty(config.options@, "key"@),
                public,
            ),
        ),
    ) is None {
        Some("Configured rendezvous trust anchor is invalid"@)
    } else if !startable(sessions[id], config.id@) {
        Some("Viewer could not start"@)
    } else {
        None
    }
}

fn viewer_options(session: &mut Session, local_id: String) -> (r: ViewerOptions)
    ensures
        viewer_options_of(r, *old(session), local_id@),
        *final(session) == (Session {
            options: AddOptions { password: final(session).options.password, ..old(session).options },
            ..*old(session)
        }),
        final(session).options.password@ == Seq::<char>::empty(),
{
    let mut password = String::new();
    std::mem::swap(&mut password, &mut session.options.password);
    assert(session.options.password@ =~= Seq::<char>::empty());
    let (address, username) = match &session.route {
        Route::Direct(address) => (Some(copy_address(address)), address.ip.clone()),
        Route::Rendezvous(peer) => (None, peer.clone()),
    };
    ViewerOptions {
        address,
        username,
        local_id,
        local_name: crate::APP_NAME.to_owned(),
        password,
        requested_fps: 60,
        clipboard_enabled: true,
        image_quality: ViewerImageQuality::default(),
    }
}

/// What starting does to a session: its password is handed over, and it has a viewer
/// unless that could not start.
pub open spec fn after_start(before: Session, after: Session, started: bool) -> bool {
    &&& after == (Session {
        options: AddOptions { password: after.options.password, ..before.options },
        viewer: after.viewer,
        ..before
    })
    &&& after.options.password@ == Seq::<char>::empty()
    &&& if started {
        after.viewer is Some
    } else {
        after.viewer is None
    }
}

fn start_session(
    session: &mut Session,
    config: &AppConfig,
    public: &str,
    lease: TextureLease,
) -> (r: Result<StartPlan, String>)
    requires
        old(session).viewer is None,
        config.id@.len() > 0,
    ensures
        after_start(*old(session), *final(session), r is Ok),
        ({
            let one = Map::<u128, Session>::empty().insert(0, *old(session));
            match r {
                Ok(plan) => start_refusal(one, *config, public@, 0) is None && viewer_options_of(
                    plan.options,
                    *old(session),
                    config.id@,
                ) && plan.lease == lease && plans(plan, *old(session), *config, public@)
                    && final(session).viewer->0@ == viewer::ViewerView::started(plan.options),
                Err(what) => start_refusal(one, *config, public@, 0) == Some(what@),
            }
        }),
{
    let ghost before = *session;
    let ghost one = Map::<u128, Session>::empty().insert(0, before);
    assert(one[0] == before && one.dom().contains(0));
    let options = viewer_options(session, config.id.clone());
    proof {
        reveal_strlit("RustDesk");
        assert(vstd::utf8::is_ascii_chars("RustDesk"@));
        vstd::utf8::is_ascii_chars_encode_utf8("RustDesk"@);
    }
    let peer: Option<String> = match &session.route {
        Route::Direct(_) => None,
        Route::Rendezvous(peer) => Some(peer.clone()),
    };
    match peer {
        None => match Viewer::start(&options) {
            Ok(viewer) => {
                session.viewer = Some(viewer);
                Ok(StartPlan { options, connector: Connector::Unverified, rendezvous: None, lease })
            },
            Err(_) => Err("Viewer could not start".to_owned()),
        },
        Some(peer) => {
            let id = peer.clone();
            match flutter_surface::rendezvous_config(config, public, peer) {
                Err(what) => Err(what),
                Ok(found) => match Viewer::start_rendezvous(&options, found.id.as_str()) {
                    Ok(viewer) => {
                        session.viewer = Some(viewer);
                        Ok(
                            StartPlan {
                                options,
                                connector: Connector::Rendezvous { id },
                                rendezvous: Some(found),
                                lease,
                            },
                        )
                    },
                    Err(_) => Err("Viewer could not start".to_owned()),
                },
            }
        },
    }
}

/// How the viewer of a session reaches its peer.
pub open spec fn plans(plan: StartPlan, session: Session, config: AppConfig, public: Seq<char>) -> bool {
    match session.route {
        Route::Direct(_) => plan.connector is Unverified && plan.rendezvous is None,
        Route::Rendezvous(peer) => {
            &&& plan.connector matches Connector::Rendezvous { id }
            &&& id@ == peer@
            &&& plan.rendezvous matches Some(found)
            &&& found.id@ == peer@
            &&& found.rendezvous_server@ == config.rendezvous_server@
            &&& found.licence_key@ == flutter_surface::chosen_key(
                entries::value_or_empty(config.options@, "key"@),
                public,
            )
            &&& flutter_surface::key_of(crate::encoding::base64_bytes(found.licence_key@)) == Some(
                found.server_key@,
            )
        },
    }
}

/// What starting a session does to the sessions, and what it returns.
pub open spec fn start_answer(
    r: Result<Option<StartPlan>, String>,
    before: Map<u128, Session>,
    after: Map<u128, Session>,
    textures: Textures,
    textures_after: Textures,
    config: AppConfig,
    public: Seq<char>,
    id: u128,
) -> bool {
    let refusal = start_refusal(before, config, public, id);
    match r {
        Ok(None) => refusal is None && before[id].viewer is Some && after == before
            && textures_after == textures,
        Ok(Some(plan)) => {
            &&& refusal is None
            &&& before[id].viewer is None
            &&& after == before.insert(id, after[id])
            &&& after_start(before[id], after[id], true)
            &&& viewer_options_of(plan.options, before[id], config.id@)
            &&& plans(plan, before[id], config, public)
            &&& after[id].viewer->0@ == viewer::ViewerView::started(plan.options)
            &&& flutter_surface::leased(textures, textures_after, id, plan.lease)
        },
        Err(what) => {
            &&& refusal == Some(what@)
            &&& if config.id@.len() == 0 || !before.dom().contains(id) {
                after == before && textures_after == textures
            } else {
                &&& after == before.insert(id, after[id])
                &&& after_start(before[id], after[id], false)
                &&& textures_after.leases@.dom().contains(id)
                &&& flutter_surface::leased(
                    textures,
                    textures_after,
                    id,
                    textures_after.leases@[id],
                )
            }
        },
    }
}

/// Starts the viewer of a session. `public` is the key of the public server. Nothing
/// is returned for a session that runs already.
pub fn start(
    sessions: &mut Sessions,
    textures: &mut Textures,
    config: &AppConfig,
    public: &str,
    id: u128,
) -> (r: Result<Option<StartPlan>, String>)
    ensures
        start_answer(
            r,
            old(sessions).map@,
            final(sessions).map@,
            *old(textures),
            *final(textures),
            *config,
            public@,
            id,
        ),
{
    broadcast use vstd::std_specs::hash::group_hash_axioms;

    if config.id.as_str().is_empty() {
        return Err("Runtime identity is unavailable".to_owned());
    }
    let ghost before = sessions.map@;
    match sessions.map.remove(&id) {
        None => {
            assert(sessions.map@ =~= before);
            Err("Session not found".to_owned())
        },
        Some(session) => {
            let mut session = session;
            if session.viewer.is_some() {
                sessions.map.insert(id, session);
                assert(sessions.map@ =~= before);
                return Ok(None);
            }
            let lease = flutter_surface::lease_for(textures, id);
            let ghost one = Map::<u128, Session>::empty().insert(0, before[id]);
            let started = start_session(&mut session, config, public, lease);
            sessions.map.insert(id, session);
            proof {
                assert(sessions.map@ =~= before.insert(id, sessions.map@[id]));
                assert(one.dom().contains(0) && one[0] == before[id]);
            }
            match started {
                Ok(plan) => Ok(Some(plan)),
                Err(what) => Err(what),
            }
        },
    }
}

/// Names and values of an event as sequences.
pub open spec fn named_values(fields: Seq<(&'static str, String)>) -> Seq<(Seq<char>, Seq<char>)> {
    Seq::new(fields.len(), |i: int| (fields[i].0@, fields[i].1@))
}

/// The JSON text of an event with the given names and texts.
pub open spec fn enveloped(fields: Seq<(Seq<char>, Seq<char>)>) -> Seq<char> {
    flutter_state::as_texts(json::ObjectView::empty(), fields).text()
}

/// The JSON text of an event.
pub fn envelope(fields: &Vec<(&'static str, String)>) -> (r: String)
    ensures
        r@ == enveloped(named_values(fields@)),
{
    let mut object = json::Object::new();
    let mut i: usize = 0;
    let ghost all = named_values(fields@);
    assert(all.take(0) =~= Seq::<(Seq<char>, Seq<char>)>::empty());
    while i < fields.len()
        invariant
            i <= fields@.len(),
            all == named_values(fields@),
            object@ == flutter_state::as_texts(json::ObjectView::empty(), all.take(i as int)),
        decreases fields@.len() - i,
    {
        proof {
            assert(all.take(i + 1).drop_last() =~= all.take(i as int));
            assert(all.take(i + 1).last() == (fields@[i as int].0@, fields@[i as int].1@));
        }
        object.put_text(fields[i].0, fields[i].1.as_str());
        i = i + 1;
    }
    assert(all.take(i as int) =~= all);
    object.text()
}

/// A display as a JSON object.
pub open spec fn display_json(d: message::DisplayInfoView) -> Seq<char> {
    json::ObjectView::empty().with("x"@, text::signed_decimal(d.x as int)).with(
        "y"@,
        text::signed_decimal(d.y as int),
    ).with("width"@, text::signed_decimal(d.width as int)).with(
        "height"@,
        text::signed_decimal(d.height as int),
    ).with("cursor_embedded"@, text::truth(d.cursor_embedded)).with(
        "name"@,
        json::json_string(d.name),
    ).text()
}

/// The display of a stream without a report of the peer, as a JSON object.
pub open spec fn stream_display(width: i32, height: i32) -> Seq<char> {
    json::ObjectView::empty().with("x"@, text::signed_decimal(0)).with(
        "y"@,
        text::signed_decimal(0),
    ).with("width"@, text::signed_decimal(width as int)).with(
        "height"@,
        text::signed_decimal(height as int),
    ).with("cursor_embedded"@, text::truth(false)).text()
}

/// The displays that the peer reported, or else the one of the stream, as a JSON
/// array.
pub open spec fn displays_of(peer: Option<message::PeerInfoView>, width: i32, height: i32) -> Seq<
    char,
> {
    match peer {
        Some(info) => if info.displays.len() > 0 {
            json::array_of(
                Seq::new(info.displays.len(), |i: int| display_json(info.displays[i])),
            )
        } else {
            json::array_of(seq![stream_display(width, height)])
        },
        None => json::array_of(seq![stream_display(width, height)]),
    }
}

fn display_text(d: &DisplayInfo) -> (r: String)
    ensures
        r@ == display_json(d@),
{
    let mut object = json::Object::new();
    object.put_number("x", d.x);
    object.put_number("y", d.y);
    object.put_number("width", d.width);
    object.put_number("height", d.height);
    object.put_bool("cursor_embedded", d.cursor_embedded);
    object.put_text("name", d.name.as_str());
    object.text()
}

/// The display of a stream without a report of the peer, as a JSON object.
pub fn stream_display_text(width: i32, height: i32) -> (r: String)
    ensures
        r@ == stream_display(width, height),
{
    let mut object = json::Object::new();
    object.put_number("x", 0);
    object.put_number("y", 0);
    object.put_number("width", width);
    object.put_number("height", height);
    object.put_bool("cursor_embedded", false);
    object.text()
}

/// A peer as plain values, if there is one.
pub open spec fn peer_view(peer: Option<&PeerInfo>) -> Option<message::PeerInfoView> {
    match peer {
        Some(info) => Some(info@),
        None => None,
    }
}

fn displays_json(peer: Option<&PeerInfo>, width: i32, height: i32) -> (r: String)
    ensures
        r@ == displays_of(peer_view(peer), width, height),
{
    if let Some(info) = peer {
        if info.displays.len() > 0 {
            let mut items: Vec<String> = Vec::new();
            let mut i: usize = 0;
            while i < info.displays.len()
                invariant
                    i <= info.displays@.len(),
                    items@.len() == i,
                    forall|j: int|
                        0 <= j < i ==> (#[trigger] items@[j])@ == display_json(info@.displays[j]),
                decreases info.displays@.len() - i,
            {
                items.push(display_text(&info.displays[i]));
                i = i + 1;
            }
            assert(text::texts(items@) =~= Seq::new(
                info@.displays.len(),
                |i: int| display_json(info@.displays[i]),
            ));
            return json::array_text(&items);
        }
    }
    let mut items: Vec<String> = Vec::new();
    items.push(stream_display_text(width, height));
    assert(text::texts(items@) =~= seq![stream_display(width, height)]);
    json::array_text(&items)
}

/// The event of a box with a message.
pub open spec fn box_event(kind: Seq<char>, title: Seq<char>, text: Seq<char>) -> Seq<char> {
    enveloped(seq![("name"@, "msgbox"@), ("type"@, kind), ("title"@, title), ("text"@, text)])
}

/// The JSON text of the event of a box with a message.
pub fn msgbox(kind: &str, title: &str, text: &str) -> (r: String)
    ensures
        r@ == box_event(kind@, title@, text@),
{
    let mut fields: Vec<(&'static str, String)> = Vec::new();
    fields.push(("name", "msgbox".to_owned()));
    fields.push(("type", kind.to_owned()));
    fields.push(("title", title.to_owned()));
    fields.push(("text", text.to_owned()));
    assert(named_values(fields@) =~= seq![
        ("name"@, "msgbox"@),
        ("type"@, kind@),
        ("title"@, title@),
        ("text"@, text@),
    ]);
    envelope(&fields)
}

/// The event of a connection that is there.
pub open spec fn ready_event(s: viewer::ViewerSnapshotView) -> Seq<char> {
    enveloped(
        seq![
            ("name"@, "connection_ready"@),
            ("secure"@, text::truth(s.encrypted)),
            ("direct"@, text::truth(s.route == "direct_tcp"@)),
            ("stream_type"@, s.route),
        ],
    )
}

/// The JSON text of the event of a connection that is there.
pub fn ready_text(s: &ViewerSnapshot) -> (r: String)
    ensures
        r@ == ready_event(s@),
{
    let direct = text::same_text(s.route.as_str(), "direct_tcp");
    let mut fields: Vec<(&'static str, String)> = Vec::new();
    fields.push(("name", "connection_ready".to_owned()));
    fields.push(("secure", text::truth_text(s.encrypted).to_owned()));
    fields.push(("direct", text::truth_text(direct).to_owned()));
    fields.push(("stream_type", s.route.clone()));
    assert(named_values(fields@) =~= seq![
        ("name"@, "connection_ready"@),
        ("secure"@, text::truth(s.encrypted)),
        ("direct"@, text::truth(s@.route == "direct_tcp"@)),
        ("stream_type"@, s@.route),
    ]);
    envelope(&fields)
}

/// The event with what a peer says about itself; nothing is made up for a peer that
/// says nothing.
pub open spec fn peer_event(
    peer: Option<message::PeerInfoView>,
    s: viewer::ViewerSnapshotView,
) -> Seq<char> {
    let info = match peer {
        Some(info) => info,
        None => message::PeerInfoView {
            username: Seq::empty(),
            hostname: Seq::empty(),
            platform: Seq::empty(),
            version: Seq::empty(),
            displays: Seq::empty(),
            current_display: 0,
        },
    };
    enveloped(
        seq![
            ("name"@, "peer_info"@),
            ("username"@, info.username),
            ("hostname"@, info.hostname),
            ("platform"@, info.platform),
            ("version"@, info.version),
            ("current_display"@, text::signed_decimal(info.current_display as int)),
            ("displays"@, displays_of(peer, s.width, s.height)),
        ],
    )
}

fn peer_text(peer: Option<&PeerInfo>, s: &ViewerSnapshot) -> (r: String)
    ensures
        r@ == peer_event(peer_view(peer), s@),
{
    let displays = displays_json(peer, s.width, s.height);
    let mut fields: Vec<(&'static str, String)> = Vec::new();
    fields.push(("name", "peer_info".to_owned()));
    match peer {
        Some(info) => {
            fields.push(("username", info.username.clone()));
            fields.push(("hostname", info.hostname.clone()));
            fields.push(("platform", info.platform.clone()));
            fields.push(("version", info.version.clone()));
            fields.push(("current_display", text::signed_text(info.current_display as i64)));
            fields.push(("displays", displays));
            assert(named_values(fields@) =~= seq![
                ("name"@, "peer_info"@),
                ("username"@, info@.username),
                ("hostname"@, info@.hostname),
                ("platform"@, info@.platform),
                ("version"@, info@.version),
                ("current_display"@, text::signed_decimal(info@.current_display as int)),
                ("displays"@, displays_of(peer_view(peer), s@.width, s@.height)),
            ]);
        },
        None => {
            fields.push(("username", String::new()));
            fields.push(("hostname", String::new()));
            fields.push(("platform", String::new()));
            fields.push(("version", String::new()));
            fields.push(("current_display", text::signed_text(0)));
            fields.push(("displays", displays));
            assert(named_values(fields@) =~= seq![
                ("name"@, "peer_info"@),
                ("username"@, Seq::<char>::empty()),
                ("hostname"@, Seq::<char>::empty()),
                ("platform"@, Seq::<char>::empty()),
                ("version"@, Seq::<char>::empty()),
                ("current_display"@, text::signed_decimal(0)),
                ("displays"@, displays_of(peer_view(peer), s@.width, s@.height)),
            ]);
        },
    }
    envelope(&fields)
}

/// The event with what the peer allows.
pub open spec fn permission_event(s: viewer::ViewerSnapshotView) -> Seq<char> {
    enveloped(
        seq![
            ("name"@, "permission"@),
            ("keyboard"@, text::truth(s.keyboard_allowed)),
            ("clipboard"@, text::truth(s.clipboard_allowed)),
        ],
    )
}

fn permission_text(s: &ViewerSnapshot) -> (r: String)
    ensures
        r@ == permission_event(s@),
{
    let mut fields: Vec<(&'static str, String)> = Vec::new();
    fields.push(("name", "permission".to_owned()));
    fields.push(("keyboard", text::truth_text(s.keyboard_allowed).to_owned()));
    fields.push(("clipboard", text::truth_text(s.clipboard_allowed).to_owned()));
    assert(named_values(fields@) =~= seq![
        ("name"@, "permission"@),
        ("keyboard"@, text::truth(s.keyboard_allowed)),
        ("clipboard"@, text::truth(s.clipboard_allowed)),
    ]);
    envelope(&fields)
}

/// The event of a picture of another size.
pub open spec fn display_event(width: i32, height: i32) -> Seq<char> {
    let w = text::signed_decimal(width as int);
    let h = text::signed_decimal(height as int);
    enveloped(
        seq![
            ("name"@, "switch_display"@),
            ("display"@, "0"@),
            ("x"@, "0"@),
            ("y"@, "0"@),
            ("width"@, w),
            ("height"@, h),
            ("cursor_embedded"@, "0"@),
            ("resolutions"@, "[]"@),
            ("original_width"@, w),
            ("original_height"@, h),
        ],
    )
}

fn display_event_text(width: i32, height: i32) -> (r: String)
    ensures
        r@ == display_event(width, height),
{
    let mut fields: Vec<(&'static str, String)> = Vec::new();
    fields.push(("name", "switch_display".to_owned()));
    fields.push(("display", "0".to_owned()));
    fields.push(("x", "0".to_owned()));
    fields.push(("y", "0".to_owned()));
    fields.push(("width", text::signed_text(width as i64)));
    fields.push(("height", text::signed_text(height as i64)));
    fields.push(("cursor_embedded", "0".to_owned()));
    fields.push(("resolutions", "[]".to_owned()));
    fields.push(("original_width", text::signed_text(width as i64)));
    fields.push(("original_height", text::signed_text(height as i64)));
    assert(named_values(fields@) =~= seq![
        ("name"@, "switch_display"@),
        ("display"@, "0"@),
        ("x"@, "0"@),
        ("y"@, "0"@),
        ("width"@, text::signed_decimal(width as int)),
        ("height"@, text::signed_decimal(height as int)),
        ("cursor_embedded"@, "0"@),
        ("resolutions"@, "[]"@),
        ("original_width"@, text::signed_decimal(width as int)),
        ("original_height"@, text::signed_decimal(height as int)),
    ]);
    envelope(&fields)
}

/// The event of another codec.
pub open spec fn codec_event(codec: Seq<char>) -> Seq<char> {
    enveloped(
        seq![
            ("name"@, "update_quality_status"@),
            ("codec_format"@, codec),
            ("fps"@, Seq::empty()),
            ("delay"@, Seq::empty()),
            ("speed"@, Seq::empty()),
            ("target_bitrate"@, Seq::empty()),
            ("chroma"@, Seq::empty()),
        ],
    )
}

/// The JSON text of the event of another codec.
pub fn codec_text(codec: &str) -> (r: String)
    ensures
        r@ == codec_event(codec@),
{
    let mut fields: Vec<(&'static str, String)> = Vec::new();
    fields.push(("name", "update_quality_status".to_owned()));
    fields.push(("codec_format", codec.to_owned()));
    fields.push(("fps", String::new()));
    fields.push(("delay", String::new()));
    fields.push(("speed", String::new()));
    fields.push(("target_bitrate", String::new()));
    fields.push(("chroma", String::new()));
    assert(named_values(fields@) =~= seq![
        ("name"@, "update_quality_status"@),
        ("codec_format"@, codec@),
        ("fps"@, Seq::<char>::empty()),
        ("delay"@, Seq::<char>::empty()),
        ("speed"@, Seq::<char>::empty()),
        ("target_bitrate"@, Seq::<char>::empty()),
        ("chroma"@, Seq::<char>::empty()),
    ]);
    envelope(&fields)
}

/// One event or none.
pub open spec fn event_if(due: bool, event: Seq<char>) -> Seq<Seq<char>> {
    if due {
        seq![event]
    } else {
        Seq::empty()
    }
}

/// The warning about a peer that is not verified.
pub open spec fn insecure_event() -> Seq<char> {
    box_event(
        "insecure-connection"@,
        "Insecure Connection"@,
        "Direct IP connection could not verify the remote identity. Continue only if you trust this network and endpoint."@,
    )
}

/// The question for a second factor.
pub open spec fn factor_event(phase: Seq<char>) -> Seq<char> {
    box_event(
        "input-2fa"@,
        "2FA Required"@,
        if phase == "awaiting_2fa_retry"@ {
            "Wrong 2FA Code"@
        } else {
            "2FA Required"@
        },
    )
}

/// Whether a phase waits for a second factor.
pub open spec fn waits_for_factor(phase: Seq<char>) -> bool {
    phase == "awaiting_2fa"@ || phase == "awaiting_2fa_retry"@
}

/// Whether the geometry of a picture has to be reported.
pub open spec fn display_due(p: PumpView, s: viewer::ViewerSnapshotView, known: bool, sent: bool) -> bool {
    known && s.width > 0 && s.height > 0 && (!sent || s.width != p.last_width || s.height
        != p.last_height)
}

/// What a report is about.
#[derive(Debug, Clone, Copy, PartialEq, Eq, Structural)]
pub enum ReportKind {
    Ready,
    Peer,
    Permission,
    Display,
    Codec,
    Question,
    Error,
    Close,
}

/// A report to the frontend.
pub enum Report {
    /// There is a connection.
    Ready { snapshot: viewer::ViewerSnapshotView },
    /// Who the peer is.
    Peer { peer: Option<message::PeerInfoView>, snapshot: viewer::ViewerSnapshotView },
    /// What the peer allows.
    Permission { snapshot: viewer::ViewerSnapshotView },
    /// The size of the picture.
    Display { width: i32, height: i32 },
    /// The codec of the stream.
    Codec { codec: Seq<char> },
    /// The warning about a peer that is not verified.
    Insecure,
    /// The question for the password.
    Password,
    /// The question for a second factor.
    Factor { phase: Seq<char> },
    /// What went wrong.
    Error { error: Seq<char> },
    /// The session is over.
    Close,
}

impl Report {
    /// What the report is about.
    pub open spec fn kind(self) -> ReportKind {
        match self {
            Report::Ready { .. } => ReportKind::Ready,
            Report::Peer { .. } => ReportKind::Peer,
            Report::Permission { .. } => ReportKind::Permission,
            Report::Display { .. } => ReportKind::Display,
            Report::Codec { .. } => ReportKind::Codec,
            Report::Insecure => ReportKind::Question,
            Report::Password => ReportKind::Question,
            Report::Factor { .. } => ReportKind::Question,
            Report::Error { .. } => ReportKind::Error,
            Report::Close => ReportKind::Close,
        }
    }

    /// The report as the frontend gets it.
    pub open spec fn text(self) -> Seq<char> {
        match self {
            Report::Ready { snapshot } => ready_event(snapshot),
            Report::Peer { peer, snapshot } => peer_event(peer, snapshot),
            Report::Permission { snapshot } => permission_event(snapshot),
            Report::Display { width, height } => display_event(width, height),
            Report::Codec { codec } => codec_event(codec),
            Report::Insecure => insecure_event(),
            Report::Password => box_event(
                "input-password"@,
                "Password Required"@,
                "Password Required"@,
            ),
            Report::Factor { phase } => factor_event(phase),
            Report::Error { error } => box_event("error"@, "Connection Error"@, error),
            Report::Close => "close"@,
        }
    }
}

/// One report or none.
pub open spec fn report_if(due: bool, report: Report) -> Seq<Report> {
    if due {
        seq![report]
    } else {
        Seq::empty()
    }
}

/// Reports as the frontend gets them.
pub open spec fn rendered(reports: Seq<Report>) -> Seq<Seq<char>> {
    Seq::new(reports.len(), |i: int| reports[i].text())
}

/// What is reported of the connection, the peer and the picture.
#[verifier::opaque]
pub open spec fn status_reports(
    p: PumpView,
    s: viewer::ViewerSnapshotView,
    peer: Option<message::PeerInfoView>,
) -> Seq<Report> {
    let introduce = s.phase == "authenticated"@ && !p.peer_info_sent;
    let known = p.peer_info_sent || introduce;
    report_if(introduce, Report::Ready { snapshot: s }) + report_if(
        introduce,
        Report::Peer { peer, snapshot: s },
    ) + report_if(known && !p.permission_sent, Report::Permission { snapshot: s }) + report_if(
        display_due(p, s, known, p.display_sent && !introduce),
        Report::Display { width: s.width, height: s.height },
    ) + report_if(
        s.codec.len() > 0 && p.last_codec != s.codec,
        Report::Codec { codec: s.codec },
    )
}

/// What the user is asked when the phase changes.
#[verifier::opaque]
pub open spec fn question_reports(p: PumpView, s: viewer::ViewerSnapshotView) -> Seq<Report> {
    let changed = p.last_phase != s.phase;
    report_if(changed && s.phase == "awaiting_insecure_confirmation"@, Report::Insecure)
        + report_if(changed && s.phase == "awaiting_password"@, Report::Password) + report_if(
        changed && waits_for_factor(s.phase),
        Report::Factor { phase: s.phase },
    )
}

/// What is reported of the end.
#[verifier::opaque]
pub open spec fn end_reports(p: PumpView, s: viewer::ViewerSnapshotView) -> Seq<Report> {
    let ended = s.closed && !p.close_sent;
    report_if(ended && s.error is Some, Report::Error { error: s.error->0 }) + report_if(
        ended,
        Report::Close,
    )
}

/// All that is reported of a session in one look at it.
pub open spec fn reports(
    p: PumpView,
    s: viewer::ViewerSnapshotView,
    peer: Option<message::PeerInfoView>,
) -> Seq<Report> {
    status_reports(p, s, peer) + question_reports(p, s) + end_reports(p, s)
}

/// What was reported after all of that is.
pub open spec fn after_report(p: PumpView, s: viewer::ViewerSnapshotView) -> PumpView {
    let introduce = s.phase == "authenticated"@ && !p.peer_info_sent;
    let known = p.peer_info_sent || introduce;
    let sent = p.display_sent && !introduce;
    let resized = display_due(p, s, known, sent);
    PumpView {
        last_phase: s.phase,
        peer_info_sent: known,
        permission_sent: p.permission_sent || known,
        close_sent: p.close_sent || s.closed,
        last_codec: if s.codec.len() > 0 {
            s.codec
        } else {
            p.last_codec
        },
        last_width: if resized {
            s.width
        } else {
            p.last_width
        },
        last_height: if resized {
            s.height
        } else {
            p.last_height
        },
        display_sent: sent || resized,
    }
}

/// What is reported, and what was reported then.
pub open spec fn collected(
    p: PumpView,
    s: viewer::ViewerSnapshotView,
    peer: Option<message::PeerInfoView>,
) -> (PumpView, Seq<Seq<char>>) {
    (after_report(p, s), rendered(reports(p, s, peer)))
}

fn collect_status(pump: &mut PumpState, s: &ViewerSnapshot, peer: Option<&PeerInfo>) -> (r: Vec<
    String,
>)
    ensures
        text::texts(r@) == rendered(status_reports(old(pump)@, s@, peer_view(peer))),
        final(pump)@ == (PumpView {
            last_phase: old(pump)@.last_phase,
            close_sent: old(pump)@.close_sent,
            ..after_report(old(pump)@, s@)
        }),
{
    reveal(status_reports);
    let mut out: Vec<String> = Vec::new();
    let introduce = text::same_text(s.phase.as_str(), "authenticated") && !pump.peer_info_sent;
    if introduce {
        out.push(ready_text(s));
        out.push(peer_text(peer, s));
        pump.peer_info_sent = true;
        pump.display_sent = false;
    }
    let ghost a = report_if(introduce, Report::Ready { snapshot: s@ }) + report_if(
        introduce,
        Report::Peer { peer: peer_view(peer), snapshot: s@ },
    );
    assert(text::texts(out@) =~= rendered(a));
    let permission = pump.peer_info_sent && !pump.permission_sent;
    if permission {
        out.push(permission_text(s));
        pump.permission_sent = true;
    }
    let ghost b = a + report_if(permission, Report::Permission { snapshot: s@ });
    assert(text::texts(out@) =~= rendered(b));
    let resized = pump.peer_info_sent && s.width > 0 && s.height > 0 && (!pump.display_sent
        || s.width != pump.last_width || s.height != pump.last_height);
    if resized {
        pump.last_width = s.width;
        pump.last_height = s.height;
        pump.display_sent = true;
        out.push(display_event_text(s.width, s.height));
    }
    let ghost c = b + report_if(resized, Report::Display { width: s.width, height: s.height });
    assert(text::texts(out@) =~= rendered(c));
    let recoded = !s.codec.as_str().is_empty() && !text::same_text(
        pump.last_codec.as_str(),
        s.codec.as_str(),
    );
    if recoded {
        pump.last_codec = s.codec.clone();
        out.push(codec_text(s.codec.as_str()));
    }
    assert(text::texts(out@) =~= rendered(
        c + report_if(recoded, Report::Codec { codec: s@.codec }),
    ));
    out
}

fn collect_questions(pump: &PumpState, s: &ViewerSnapshot) -> (r: Vec<String>)
    ensures
        text::texts(r@) == rendered(question_reports(pump@, s@)),
{
    reveal(question_reports);
    let changed = !text::same_text(pump.last_phase.as_str(), s.phase.as_str());
    let mut out: Vec<String> = Vec::new();
    let insecure = changed && text::same_text(s.phase.as_str(), "awaiting_insecure_confirmation");
    if insecure {
        out.push(
            msgbox(
                "insecure-connection",
                "Insecure Connection",
                "Direct IP connection could not verify the remote identity. Continue only if you trust this network and endpoint.",
            ),
        );
    }
    let ghost b = report_if(insecure, Report::Insecure);
    assert(text::texts(out@) =~= rendered(b));
    let password = changed && text::same_text(s.phase.as_str(), "awaiting_password");
    if password {
        out.push(msgbox("input-password", "Password Required", "Password Required"));
    }
    let ghost c = b + report_if(password, Report::Password);
    assert(text::texts(out@) =~= rendered(c));
    let retry = text::same_text(s.phase.as_str(), "awaiting_2fa_retry");
    let factor = changed && (text::same_text(s.phase.as_str(), "awaiting_2fa") || retry);
    if factor {
        out.push(
            msgbox(
                "input-2fa",
                "2FA Required",
                if retry {
                    "Wrong 2FA Code"
                } else {
                    "2FA Required"
                },
            ),
        );
    }
    assert(text::texts(out@) =~= rendered(
        c + report_if(factor, Report::Factor { phase: s@.phase }),
    ));
    out
}

fn collect_end(pump: &mut PumpState, s: &ViewerSnapshot) -> (r: Vec<String>)
    ensures
        text::texts(r@) == rendered(end_reports(old(pump)@, s@)),
        final(pump)@ == (PumpView {
            close_sent: old(pump)@.close_sent || s.closed,
            ..old(pump)@
        }),
{
    reveal(end_reports);
    let mut out: Vec<String> = Vec::new();
    let ended = s.closed && !pump.close_sent;
    if ended {
        if let Some(error) = &s.error {
            out.push(msgbox("error", "Connection Error", error.as_str()));
        }
        pump.close_sent = true;
    }
    let ghost e = report_if(ended && s@.error is Some, Report::Error { error: s@.error->0 });
    assert(text::texts(out@) =~= rendered(e));
    if ended {
        out.push("close".to_owned());
    }
    assert(text::texts(out@) =~= rendered(e + report_if(ended, Report::Close)));
    out
}

/// What is reported of a session, as JSON texts and the closing text.
pub fn collect(pump: &mut PumpState, snapshot: &ViewerSnapshot, peer: Option<&PeerInfo>) -> (r: Vec<
    String,
>)
    ensures
        (final(pump)@, text::texts(r@)) == collected(old(pump)@, snapshot@, peer_view(peer)),
{
    let ghost (status, asked, ended) = (
        status_reports(pump@, snapshot@, peer_view(peer)),
        question_reports(pump@, snapshot@),
        end_reports(pump@, snapshot@),
    );
    let mut out = collect_status(pump, snapshot, peer);
    assert(question_reports(pump@, snapshot@) == asked) by {
        reveal(question_reports);
    }
    let mut questions = collect_questions(pump, snapshot);
    assert(end_reports(pump@, snapshot@) == ended) by {
        reveal(end_reports);
    }
    let mut end = collect_end(pump, snapshot);
    let ghost (a, b, c) = (out@, questions@, end@);
    out.append(&mut questions);
    out.append(&mut end);
    assert(text::texts(out@) =~= text::texts(a) + text::texts(b) + text::texts(c));
    assert(rendered(status + asked + ended) =~= rendered(status) + rendered(asked) + rendered(
        ended,
    ));
    pump.last_phase = snapshot.phase.clone();
    out
}

/// What is reported of a session: nothing where there is no session, no stream, or no
/// viewer.
pub fn pump(sessions: &mut Sessions, id: u128) -> (r: Vec<EventToUI>)
    ensures
        ({
            let before = old(sessions).map@;
            let after = final(sessions).map@;
            if before.dom().contains(id) && before[id].events && before[id].viewer is Some {
                let viewer = before[id].viewer->0;
                let reported = collected(
                    before[id].pump@,
                    viewer@.seen(),
                    match viewer.peer_info {
                        Some(info) => Some(info@),
                        None => None,
                    },
                );
                &&& after == before.insert(id, after[id])
                &&& after[id] == (Session { pump: after[id].pump, ..before[id] })
                &&& after[id].pump@ == reported.0
                &&& r@.len() == reported.1.len()
                &&& forall|i: int|
                    0 <= i < r@.len() ==> ((#[trigger] r@[i]) matches EventToUI::Event(text)
                        && text@ == reported.1[i])
            } else {
                r@.len() == 0 && after == before
            }
        }),
{
    broadcast use vstd::std_specs::hash::group_hash_axioms;

    let ghost before = sessions.map@;
    let mut out: Vec<EventToUI> = Vec::new();
    match sessions.map.remove(&id) {
        None => {
            assert(sessions.map@ =~= before);
            out
        },
        Some(session) => {
            let mut session = session;
            if session.events {
                if let Some(viewer) = &session.viewer {
                    let snapshot = viewer.snapshot();
                    let texts = collect(&mut session.pump, &snapshot, viewer.peer_info());
                    let mut i: usize = 0;
                    while i < texts.len()
                        invariant
                            i <= texts@.len(),
                            out@.len() == i,
                            forall|j: int|
                                0 <= j < i ==> ((#[trigger] out@[j]) matches EventToUI::Event(text)
                                    && text@ == texts@[j]@),
                        decreases texts@.len() - i,
                    {
                        out.push(EventToUI::Event(texts[i].clone()));
                        i = i + 1;
                    }
                    assert forall|j: int| 0 <= j < out@.len() implies ((
                    #[trigger] out@[j]) matches EventToUI::Event(text) && text@ == text::texts(
                        texts@,
                    )[j]) by {
                        assert(text::texts(texts@)[j] == texts@[j]@);
                    }
                }
            }
            sessions.map.insert(id, session);
            assert(sessions.map@ =~= before.insert(id, sessions.map@[id]));
            proof {
                if !(before[id].events && before[id].viewer is Some) {
                    assert(sessions.map@ =~= before);
                }
            }
            out
        },
    }
}

/// Whether events of a session are still looked for.
pub fn pump_wanted(sessions: &Sessions, id: u128) -> (r: bool)
    ensures
        r == (sessions.map@.dom().contains(id) && sessions.map@[id].events),
{
    broadcast use vstd::std_specs::hash::group_hash_axioms;

    match sessions.map.get(&id) {
        Some(session) => session.events,
        None => false,
    }
}

/// Whether nothing more is reported of a session: it is gone, or its end was.
pub fn pump_finished(sessions: &Sessions, id: u128) -> (r: bool)
    ensures
        r == (!sessions.map@.dom().contains(id) || sessions.map@[id].pump.close_sent),
{
    broadcast use vstd::std_specs::hash::group_hash_axioms;

    match sessions.map.get(&id) {
        Some(session) => session.pump.close_sent,
        None => true,
    }
}

/// The viewer of a session, if it has one.
pub open spec fn viewer_of(sessions: Map<u128, Session>, id: u128) -> Option<Viewer> {
    if sessions.dom().contains(id) {
        sessions[id].viewer
    } else {
        None
    }
}

/// The viewer of a session, if it has one.
pub fn session_viewer(sessions: &Sessions, id: u128) -> (r: Option<&Viewer>)
    ensures
        match r {
            Some(viewer) => viewer_of(sessions.map@, id) == Some(*viewer),
            None => viewer_of(sessions.map@, id) is None,
        },
{
    broadcast use vstd::std_specs::hash::group_hash_axioms;

    match sessions.map.get(&id) {
        Some(session) => session.viewer.as_ref(),
        None => None,
    }
}

/// Asks the viewer of a session to close; the session stays.
pub fn close_viewer(sessions: &mut Sessions, id: u128)
    ensures
        if viewer_of(old(sessions).map@, id) is Some {
            &&& final(sessions).map@ == old(sessions).map@.insert(id, final(sessions).map@[id])
            &&& closing(old(sessions).map@[id], final(sessions).map@[id])
        } else {
            final(sessions).map@ == old(sessions).map@
        },
{
    broadcast use vstd::std_specs::hash::group_hash_axioms;

    let ghost before = sessions.map@;
    match sessions.map.remove(&id) {
        None => {
            assert(sessions.map@ =~= before);
        },
        Some(session) => {
            let mut session = session;
            match &mut session.viewer {
                Some(viewer) => {
                    viewer.request_close();
                },
                None => {},
            }
            sessions.map.insert(id, session);
            assert(sessions.map@ =~= before.insert(id, sessions.map@[id]));
            proof {
                if before[id].viewer is None {
                    assert(sessions.map@ =~= before);
                }
            }
        },
    }
}

/// The value of an option of a session, as far as this engine can tell.
pub open spec fn option_value(session: Session, arg: Seq<char>) -> Option<Seq<char>> {
    if arg == "peer-id"@ || arg == "id"@ {
        Some(session.peer@)
    } else if arg == "view-only"@ || arg == "show-remote-cursor"@ {
        Some("N"@)
    } else if arg == "disable-audio"@ {
        Some("Y"@)
    } else {
        None
    }
}

/// The value of an option of a session.
pub fn session_option(sessions: &Sessions, id: u128, arg: &str) -> (r: Option<String>)
    ensures
        ({
            let value = if sessions.map@.dom().contains(id) {
                option_value(sessions.map@[id], arg@)
            } else {
                None
            };
            match r {
                Some(found) => value == Some(found@),
                None => value is None,
            }
        }),
{
    broadcast use vstd::std_specs::hash::group_hash_axioms;

    match sessions.map.get(&id) {
        None => None,
        Some(session) => {
            if text::same_text(arg, "peer-id") || text::same_text(arg, "id") {
                Some(session.peer.clone())
            } else if text::same_text(arg, "view-only") || text::same_text(
                arg,
                "show-remote-cursor",
            ) {
                Some("N".to_owned())
            } else if text::same_text(arg, "disable-audio") {
                Some("Y".to_owned())
            } else {
                None
            }
        },
    }
}

/// Whether a switch of a session is on. Sound is the one that is off for good, so its
/// switch is on; a switch that this engine does not have reads as off.
pub open spec fn switch_value(arg: Seq<char>) -> bool {
    arg == "disable-audio"@
}

/// Whether a switch of a session is on; nothing where there is no such session.
pub fn toggle_option(sessions: &Sessions, id: u128, arg: &str) -> (r: Option<bool>)
    ensures
        r == (if sessions.map@.dom().contains(id) {
            Some(switch_value(arg@))
        } else {
            None
        }),
{
    if !session_exists(sessions, id) {
        return None;
    }
    Some(text::same_text(arg, "disable-audio"))
}

/// The peer of a session, whose options are those of the session too.
pub fn session_peer(sessions: &Sessions, id: u128) -> (r: Option<String>)
    ensures
        match r {
            Some(peer) => sessions.map@.dom().contains(id) && peer@ == sessions.map@[id].peer@,
            None => !sessions.map@.dom().contains(id),
        },
{
    broadcast use vstd::std_specs::hash::group_hash_axioms;

    match sessions.map.get(&id) {
        Some(session) => Some(session.peer.clone()),
        None => None,
    }
}

/// Sets an option of the peer of a session, and tells whether its configuration has to
/// be stored.
pub fn set_peer_option(sessions: &Sessions, peer: &mut PeerConfig, id: u128, name: &str, value: &str) -> (r:
    bool)
    ensures
        r == (sessions.map@.dom().contains(id) && name@.len() > 0 && vstd::utf8::encode_utf8(
            value@,
        ).len() <= flutter_state::MAX_PEER_VALUE),
        final(peer).options@ == (if r {
            entries::placed(old(peer).options@, name@, value@)
        } else {
            old(peer).options@
        }),
        final(peer).password == old(peer).password,
        final(peer).hostname == old(peer).hostname,
{
    if !session_exists(sessions, id) || name.is_empty() || text::byte_len(value)
        > flutter_state::MAX_PEER_VALUE {
        return false;
    }
    peer.options.put(name, value);
    true
}

/// The value of an option of the peer of a session, or nothing.
pub fn peer_option(sessions: &Sessions, peer: &PeerConfig, id: u128, name: &str) -> (r: String)
    ensures
        r@ == (if sessions.map@.dom().contains(id) {
            entries::value_or_empty(peer.options@, name@)
        } else {
            Seq::empty()
        }),
{
    if !session_exists(sessions, id) {
        let r = String::new();
        assert(r@ =~= Seq::<char>::empty());
        return r;
    }
    peer.options.get_or_empty(name)
}

/// Whether a session only watches: it does once its end was reported.
pub fn view_only(sessions: &Sessions, id: u128) -> (r: bool)
    ensures
        r == (sessions.map@.dom().contains(id) && sessions.map@[id].pump.close_sent),
{
    broadcast use vstd::std_specs::hash::group_hash_axioms;

    match sessions.map.get(&id) {
        Some(session) => session.pump.close_sent,
        None => false,
    }
}

/// How many sessions there are, of whatever kind.
pub fn count(sessions: &Sessions, conn_type: i32) -> (r: usize)
    ensures
        r == sessions.map@.len(),
{
    broadcast use vstd::std_specs::hash::group_hash_axioms;

    let _ = conn_type;
    sessions.map.len()
}

/// The same snapshot is not reported twice: looking again right away reports nothing.
pub proof fn lemma_reports_are_not_repeated(
    p: PumpView,
    s: viewer::ViewerSnapshotView,
    peer: Option<message::PeerInfoView>,
)
    ensures
        ({
            let once = collected(p, s, peer).0;
            &&& collected(once, s, peer).1 == Seq::<Seq<char>>::empty()
            &&& collected(once, s, peer).0 == once
        }),
{
    let once = collected(p, s, peer).0;
    reveal(status_reports);
    reveal(question_reports);
    reveal(end_reports);
    assert(status_reports(once, s, peer) =~= Seq::<Report>::empty());
    assert(question_reports(once, s) =~= Seq::<Report>::empty());
    assert(end_reports(once, s) =~= Seq::<Report>::empty());
    assert(reports(once, s, peer) =~= Seq::<Report>::empty());
    assert(collected(once, s, peer).1 =~= Seq::<Seq<char>>::empty());
}

/// The end of a session is reported once, and as the last event.
pub proof fn lemma_close_is_last(
    p: PumpView,
    s: viewer::ViewerSnapshotView,
    peer: Option<message::PeerInfoView>,
)
    requires
        s.closed,
        !p.close_sent,
    ensures
        collected(p, s, peer).1.len() > 0,
        collected(p, s, peer).1.last() == "close"@,
        collected(p, s, peer).0.close_sent,
{
    reveal(end_reports);
}

/// Nothing is said about a peer, what it allows or its picture before it let the viewer
/// in, but for the codec of a stream.
pub proof fn lemma_nothing_before_the_peer(
    p: PumpView,
    s: viewer::ViewerSnapshotView,
    peer: Option<message::PeerInfoView>,
)
    requires
        !p.peer_info_sent,
        s.phase != "authenticated"@,
    ensures
        status_reports(p, s, peer) == report_if(
            s.codec.len() > 0 && p.last_codec != s.codec,
            Report::Codec { codec: s.codec },
        ),
        !collected(p, s, peer).0.peer_info_sent,
        collected(p, s, peer).0.display_sent == p.display_sent,
        collected(p, s, peer).0.permission_sent == p.permission_sent,
{
    reveal(status_reports);
    assert(status_reports(p, s, peer) =~= report_if(
        s.codec.len() > 0 && p.last_codec != s.codec,
        Report::Codec { codec: s.codec },
    ));
}

/// How many reports are about something.
pub open spec fn times(reports: Seq<Report>, kind: ReportKind) -> nat
    decreases reports.len(),
{
    if reports.len() == 0 {
        0
    } else {
        times(reports.drop_last(), kind) + if reports.last().kind() == kind {
            1nat
        } else {
            0nat
        }
    }
}

proof fn lemma_times_joined(a: Seq<Report>, b: Seq<Report>, kind: ReportKind)
    ensures
        times(a + b, kind) == times(a, kind) + times(b, kind),
    decreases b.len(),
{
    if b.len() == 0 {
        assert(a + b =~= a);
    } else {
        lemma_times_joined(a, b.drop_last(), kind);
        assert((a + b).drop_last() =~= a + b.drop_last());
    }
}

proof fn lemma_times_one(due: bool, report: Report, kind: ReportKind)
    ensures
        times(report_if(due, report), kind) == (if due && report.kind() == kind {
            1nat
        } else {
            0nat
        }),
{
    reveal_with_fuel(times, 2);
}

/// How often one look at a session reports each of what is reported once.
proof fn lemma_times_in_one_look(
    p: PumpView,
    s: viewer::ViewerSnapshotView,
    peer: Option<message::PeerInfoView>,
    kind: ReportKind,
)
    ensures
        ({
            let introduce = s.phase == "authenticated"@ && !p.peer_info_sent;
            let known = p.peer_info_sent || introduce;
            let n = times(reports(p, s, peer), kind);
            &&& kind is Ready || kind is Peer ==> n == if introduce {
                1nat
            } else {
                0
            }
            &&& kind is Permission ==> n == if known && !p.permission_sent {
                1nat
            } else {
                0
            }
            &&& kind is Close ==> n == if s.closed && !p.close_sent {
                1nat
            } else {
                0
            }
        }),
{
    reveal(status_reports);
    reveal(question_reports);
    reveal(end_reports);
    let introduce = s.phase == "authenticated"@ && !p.peer_info_sent;
    let known = p.peer_info_sent || introduce;
    let resized = display_due(p, s, known, p.display_sent && !introduce);
    let recoded = s.codec.len() > 0 && p.last_codec != s.codec;
    let changed = p.last_phase != s.phase;
    let insecure = changed && s.phase == "awaiting_insecure_confirmation"@;
    let password = changed && s.phase == "awaiting_password"@;
    let factor = changed && waits_for_factor(s.phase);
    let ended = s.closed && !p.close_sent;
    let ready = Report::Ready { snapshot: s };
    let who = Report::Peer { peer, snapshot: s };
    let may = Report::Permission { snapshot: s };
    let shown = Report::Display { width: s.width, height: s.height };
    let coded = Report::Codec { codec: s.codec };
    let second = Report::Factor { phase: s.phase };
    let failed = Report::Error { error: s.error->0 };
    let r1 = report_if(introduce, ready);
    let r2 = r1 + report_if(introduce, who);
    let r3 = r2 + report_if(known && !p.permission_sent, may);
    let r4 = r3 + report_if(resized, shown);
    lemma_times_one(introduce, ready, kind);
    lemma_times_one(introduce, who, kind);
    lemma_times_one(known && !p.permission_sent, may, kind);
    lemma_times_one(resized, shown, kind);
    lemma_times_one(recoded, coded, kind);
    lemma_times_joined(r1, report_if(introduce, who), kind);
    lemma_times_joined(r2, report_if(known && !p.permission_sent, may), kind);
    lemma_times_joined(r3, report_if(resized, shown), kind);
    lemma_times_joined(r4, report_if(recoded, coded), kind);
    let q1 = report_if(insecure, Report::Insecure);
    let q2 = q1 + report_if(password, Report::Password);
    lemma_times_one(insecure, Report::Insecure, kind);
    lemma_times_one(password, Report::Password, kind);
    lemma_times_one(factor, second, kind);
    lemma_times_joined(q1, report_if(password, Report::Password), kind);
    lemma_times_joined(q2, report_if(factor, second), kind);
    let e1 = report_if(ended && s.error is Some, failed);
    lemma_times_one(ended && s.error is Some, failed, kind);
    lemma_times_one(ended, Report::Close, kind);
    lemma_times_joined(e1, report_if(ended, Report::Close), kind);
    lemma_times_joined(status_reports(p, s, peer), question_reports(p, s), kind);
    lemma_times_joined(
        status_reports(p, s, peer) + question_reports(p, s),
        end_reports(p, s),
        kind,
    );
}

/// What is seen in one look at a session.
pub struct Look {
    pub snapshot: viewer::ViewerSnapshotView,
    pub peer: Option<message::PeerInfoView>,
}

/// What was reported of a session after several looks at it, from a first one on.
pub open spec fn pump_after(looks: Seq<Look>) -> PumpView
    decreases looks.len(),
{
    if looks.len() == 0 {
        PumpView::silent()
    } else {
        after_report(pump_after(looks.drop_last()), looks.last().snapshot)
    }
}

/// All that is reported in several looks at a session, in order.
pub open spec fn run_reports(looks: Seq<Look>) -> Seq<Report>
    decreases looks.len(),
{
    if looks.len() == 0 {
        Seq::empty()
    } else {
        run_reports(looks.drop_last()) + reports(
            pump_after(looks.drop_last()),
            looks.last().snapshot,
            looks.last().peer,
        )
    }
}

proof fn lemma_run_counts(looks: Seq<Look>, kind: ReportKind)
    ensures
        ({
            let p = pump_after(looks);
            let n = times(run_reports(looks), kind);
            &&& kind is Ready || kind is Peer ==> n == if p.peer_info_sent {
                1nat
            } else {
                0
            }
            &&& kind is Permission ==> n == if p.permission_sent {
                1nat
            } else {
                0
            }
            &&& kind is Close ==> n == if p.close_sent {
                1nat
            } else {
                0
            }
            &&& p.permission_sent ==> p.peer_info_sent
        }),
    decreases looks.len(),
{
    if looks.len() > 0 {
        let before = looks.drop_last();
        let look = looks.last();
        lemma_run_counts(before, kind);
        lemma_times_in_one_look(pump_after(before), look.snapshot, look.peer, kind);
        lemma_times_joined(
            run_reports(before),
            reports(pump_after(before), look.snapshot, look.peer),
            kind,
        );
    }
}

/// However often a session is looked at, and whatever is seen, the connection, the peer,
/// what it allows and the end are each reported at most once.
pub proof fn lemma_reported_at_most_once(looks: Seq<Look>)
    ensures
        times(run_reports(looks), ReportKind::Ready) <= 1,
        times(run_reports(looks), ReportKind::Peer) <= 1,
        times(run_reports(looks), ReportKind::Permission) <= 1,
        times(run_reports(looks), ReportKind::Close) <= 1,
{
    lemma_run_counts(looks, ReportKind::Ready);
    lemma_run_counts(looks, ReportKind::Peer);
    lemma_run_counts(looks, ReportKind::Permission);
    lemma_run_counts(looks, ReportKind::Close);
}

/// Once a look has seen the session closed, its end was reported.
pub proof fn lemma_end_is_reported(looks: Seq<Look>, i: int)
    requires
        0 <= i < looks.len(),
        looks[i].snapshot.closed,
    ensures
        times(run_reports(looks), ReportKind::Close) == 1,
    decreases looks.len(),
{
    lemma_run_counts(looks, ReportKind::Close);
    if i < looks.len() - 1 {
        lemma_end_is_reported(looks.drop_last(), i);
        lemma_run_counts(looks.drop_last(), ReportKind::Close);
    }
}

/// Whether one of the first `n` reports says who the peer is.
pub open spec fn introduced(reports: Seq<Report>, n: int) -> bool {
    exists|j: int| 0 <= j < n && (#[trigger] reports[j]).kind() is Peer
}

proof fn lemma_status_kinds(
    p: PumpView,
    s: viewer::ViewerSnapshotView,
    peer: Option<message::PeerInfoView>,
    i: int,
)
    requires
        0 <= i < status_reports(p, s, peer).len(),
    ensures
        ({
            let all = status_reports(p, s, peer);
            let kind = all[i].kind();
            &&& !(kind is Question || kind is Error || kind is Close)
            &&& (kind is Permission || kind is Display) && !p.peer_info_sent ==> i > 1
                && all[1].kind() is Peer
        }),
{
    reveal(status_reports);
}

proof fn lemma_question_kinds(p: PumpView, s: viewer::ViewerSnapshotView, i: int)
    requires
        0 <= i < question_reports(p, s).len(),
    ensures
        question_reports(p, s)[i].kind() is Question,
{
    reveal(question_reports);
}

proof fn lemma_end_kinds(p: PumpView, s: viewer::ViewerSnapshotView, i: int)
    requires
        0 <= i < end_reports(p, s).len(),
    ensures
        ({
            let all = end_reports(p, s);
            &&& s.closed && !p.close_sent
            &&& all.last().kind() is Close
            &&& all.len() == if s.error is Some {
                2nat
            } else {
                1nat
            }
            &&& i < all.len() - 1 ==> all[i] == (Report::Error { error: s.error->0 })
        }),
{
    reveal(end_reports);
}

proof fn lemma_end_is_there(p: PumpView, s: viewer::ViewerSnapshotView)
    ensures
        end_reports(p, s).len() > 0 <==> s.closed && !p.close_sent,
{
    reveal(end_reports);
}

proof fn lemma_introduced_before(
    p: PumpView,
    s: viewer::ViewerSnapshotView,
    peer: Option<message::PeerInfoView>,
    i: int,
)
    requires
        0 <= i < reports(p, s, peer).len(),
        reports(p, s, peer)[i].kind() is Permission || reports(p, s, peer)[i].kind() is Display,
        !p.peer_info_sent,
    ensures
        i > 1,
        reports(p, s, peer)[1].kind() is Peer,
{
    let status = status_reports(p, s, peer);
    let asked = question_reports(p, s);
    let ended = end_reports(p, s);
    if i < status.len() {
        assert(reports(p, s, peer)[i] == status[i]);
        lemma_status_kinds(p, s, peer, i);
        assert(reports(p, s, peer)[1] == status[1]);
    } else if i < status.len() + asked.len() {
        assert(reports(p, s, peer)[i] == asked[i - status.len()]);
        lemma_question_kinds(p, s, i - status.len());
    } else {
        let k = i - status.len() - asked.len();
        assert(reports(p, s, peer)[i] == ended[k]);
        lemma_end_kinds(p, s, k);
    }
}

proof fn lemma_run_introduces(looks: Seq<Look>)
    requires
        pump_after(looks).peer_info_sent,
    ensures
        introduced(run_reports(looks), run_reports(looks).len() as int),
    decreases looks.len(),
{
    lemma_run_counts(looks, ReportKind::Peer);
    lemma_times_finds(run_reports(looks), ReportKind::Peer);
}

proof fn lemma_times_finds(reports: Seq<Report>, kind: ReportKind)
    requires
        times(reports, kind) > 0,
    ensures
        exists|j: int| 0 <= j < reports.len() && (#[trigger] reports[j]).kind() == kind,
    decreases reports.len(),
{
    if reports.last().kind() == kind {
        assert(reports[reports.len() - 1].kind() == kind);
    } else {
        lemma_times_finds(reports.drop_last(), kind);
        let j = choose|j: int|
            0 <= j < reports.drop_last().len() && (#[trigger] reports.drop_last()[j]).kind()
                == kind;
        assert(reports[j].kind() == kind);
    }
}

/// What a peer allows and the size of its picture are never reported before it is
/// reported who the peer is.
pub proof fn lemma_peer_comes_first(looks: Seq<Look>, i: int)
    requires
        0 <= i < run_reports(looks).len(),
        run_reports(looks)[i].kind() is Permission || run_reports(looks)[i].kind() is Display,
    ensures
        introduced(run_reports(looks), i),
    decreases looks.len(),
{
    let before = looks.drop_last();
    let look = looks.last();
    let p = pump_after(before);
    let earlier = run_reports(before);
    let now = reports(p, look.snapshot, look.peer);
    let all = run_reports(looks);
    if i < earlier.len() {
        assert(all[i] == earlier[i]);
        lemma_peer_comes_first(before, i);
        let j = choose|j: int| 0 <= j < i && (#[trigger] earlier[j]).kind() is Peer;
        assert(all[j].kind() is Peer);
    } else {
        let k = i - earlier.len();
        assert(all[i] == now[k]);
        if p.peer_info_sent {
            lemma_run_introduces(before);
            let j = choose|j: int|
                0 <= j < earlier.len() && (#[trigger] earlier[j]).kind() is Peer;
            assert(all[j].kind() is Peer);
        } else {
            lemma_introduced_before(p, look.snapshot, look.peer, k);
            assert(all[earlier.len() as int + 1] == now[1]);
        }
    }
}

/// The end is the last that a look reports. What went wrong is reported directly before
/// it, where something did, and nowhere else.
pub proof fn lemma_end_of_a_look(
    p: PumpView,
    s: viewer::ViewerSnapshotView,
    peer: Option<message::PeerInfoView>,
    i: int,
)
    requires
        0 <= i < reports(p, s, peer).len(),
    ensures
        ({
            let all = reports(p, s, peer);
            let n = all.len();
            &&& all[i].kind() is Close <==> (i == n - 1 && s.closed && !p.close_sent)
            &&& all[i].kind() is Error <==> (i == n - 2 && all.last().kind() is Close && s.error
                is Some)
            &&& all[i].kind() is Error ==> all[i] == (Report::Error { error: s.error->0 })
        }),
{
    let status = status_reports(p, s, peer);
    let asked = question_reports(p, s);
    let ended = end_reports(p, s);
    let all = reports(p, s, peer);
    let before = (status.len() + asked.len()) as int;
    lemma_end_is_there(p, s);
    if i < status.len() {
        assert(all[i] == status[i]);
        lemma_status_kinds(p, s, peer, i);
    } else if i < before {
        assert(all[i] == asked[i - status.len()]);
        lemma_question_kinds(p, s, i - status.len());
    } else {
        assert(all[i] == ended[i - before]);
        lemma_end_kinds(p, s, i - before);
    }
    if ended.len() > 0 {
        lemma_end_kinds(p, s, 0);
        assert(all.last() == ended.last());
    } else if i == all.len() - 2 {
        let last = all.len() - 1;
        if last < status.len() {
            assert(all[last] == status[last]);
            lemma_status_kinds(p, s, peer, last);
        } else {
            assert(all[last] == asked[last - status.len()]);
            lemma_question_kinds(p, s, last - status.len());
        }
    }
}

} // verus!

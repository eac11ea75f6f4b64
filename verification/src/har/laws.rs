//! What holds of the application's engine and its sessions as a whole: where it may live,
//! who may connect as whom, how a session comes about, what is told of it and when.
use vstd::prelude::*;
use crate::encoding;
use crate::entries;
use crate::flutter_session;
use crate::flutter_session::{Route, TargetReading};
use crate::flutter_state::AppConfig;
use crate::har;
use crate::har::engine;
use crate::har::engine::{Binding, DirectArguments, Directory, IdArguments, Initialization, Request};
use crate::har::session_compat;
use crate::har::session_compat::{CompatSession, DeferredSurface, Start};
use crate::har::xcomponent;
use crate::har::BridgeError;
use crate::json;
use crate::message::Message;
use crate::text;
use crate::viewer;
use crate::viewer::{AuthCommand, Connector, QueueState};

verus! {

/// A path stays one that never goes up when a part is added to it, unless that part is two
/// dots.
pub proof fn lemma_a_part_more(path: Seq<char>, part: Seq<char>)
    requires
        engine::plain_path(path),
        forall|i: int| 0 <= i < part.len() ==> #[trigger] part[i] != '/',
    ensures
        engine::plain_path(path + seq!['/'] + part) <==> part != seq!['.', '.'],
{
    let longer = path + seq!['/'] + part;
    let n = path.len() as int;
    if part == seq!['.', '.'] {
        assert(longer[n] == '/');
        assert(longer[n + 1] == '.');
        assert(longer[n + 2] == '.');
        assert(engine::parent_at(longer, n + 1));
    } else {
        assert forall|i: int| !#[trigger] engine::parent_at(longer, i) by {
            if engine::parent_at(longer, i) {
                if i + 1 < n {
                    assert(longer[i] == path[i]);
                    assert(longer[i + 1] == path[i + 1]);
                    if i > 0 {
                        assert(longer[i - 1] == path[i - 1]);
                    }
                    if i + 2 < n {
                        assert(longer[i + 2] == path[i + 2]);
                    }
                    assert(engine::parent_at(path, i));
                } else if i + 1 == n {
                    assert(longer[i + 1] == '/');
                } else if i == n {
                    assert(longer[i] == '/');
                } else if i == n + 1 {
                    assert(longer[i] == part[0]);
                    assert(longer[i + 1] == part[1]);
                    if part.len() > 2 {
                        assert(longer[i + 2] == part[2]);
                    }
                    assert(part =~= seq!['.', '.']);
                } else {
                    assert(longer[i - 1] == part[i - 2 - n]);
                }
            }
        }
        assert(longer[0] == path[0]);
    }
}

/// The root never goes up, a path that does not begin at the root is none, and a path that
/// goes up once goes up however it is continued.
pub proof fn lemma_going_up(path: Seq<char>, i: int, rest: Seq<char>)
    ensures
        engine::plain_path(seq!['/']),
        path.len() == 0 || path[0] != '/' ==> !engine::plain_path(path),
        engine::parent_at(path, i) ==> !engine::plain_path(path) && !engine::plain_path(
            path + seq!['/'] + rest,
        ),
{
    let longer = path + seq!['/'] + rest;
    if engine::parent_at(path, i) {
        assert(longer[i] == path[i]);
        assert(longer[i + 1] == path[i + 1]);
        if i > 0 {
            assert(longer[i - 1] == path[i - 1]);
        }
        if i + 2 < path.len() {
            assert(longer[i + 2] == path[i + 2]);
        } else {
            assert(longer[i + 2] == '/');
        }
        assert(engine::parent_at(longer, i));
    }
}

/// The directory of the application is bound once: the first one that is there is taken and
/// has to be set up, the same one again gives the identity that it was set up with, and
/// another one is never taken.
pub proof fn lemma_bound_once(
    r: Result<Binding, BridgeError>,
    before: Option<Initialization>,
    after: Option<Initialization>,
    directory: Option<Directory>,
)
    requires
        engine::bind_answer(r, before, after, directory),
    ensures
        ({
            let there = directory matches Some(d) && d.is_directory && d.has_parent;
            &&& before is Some ==> after == before
            &&& after is Some <==> before is Some || there
            &&& before is None && there ==> after->0.directory@ == directory->0.path@
                && after->0.id is None
            &&& (r matches Ok(Binding::SetUp)) <==> before is None && there
            &&& r matches Ok(Binding::Known(id)) ==> (before matches Some(state)
                && state.directory@ == directory->0.path@ && (state.id matches Some(own) && own@
                == id@))
            &&& r is Ok && before is Some ==> (r matches Ok(Binding::Known(_)))
            &&& before matches Some(state) ==> (there && state.directory@ == directory->0.path@
                && state.id is Some ==> r is Ok)
            &&& r matches Err(e) ==> (e.status == har::BridgeStatus::GenericFailure <==> there
                && (before matches Some(state) && state.directory@ == directory->0.path@))
            &&& r matches Err(e) ==> (!there || (before matches Some(state) && (
            state.directory@ != directory->0.path@ || state.id is None)))
        }),
{
}

/// The engine is set up where the platform gave its keys and both directories and the
/// identity was stored and says something; the first of these that is missing is named.
pub proof fn lemma_set_up(report: engine::SetUpReport)
    ensures
        ({
            let failure = engine::set_up_failure(report);
            let known = report.id@.len() > 0 && report.stored;
            &&& failure is None <==> report.crypto && report.app_directory && report.home_directory
                && known
            &&& !report.crypto ==> failure == Some("Crypto initialization failed"@)
            &&& report.crypto && !report.app_directory ==> failure == Some(
                "App directory configuration unavailable"@,
            )
            &&& report.crypto && report.app_directory && !report.home_directory ==> failure == Some(
                "App home configuration unavailable"@,
            )
            &&& report.crypto && report.app_directory && report.home_directory && !known
                ==> failure == Some("Authoritative local identity unavailable"@)
        }),
{
}

/// One connects as the identity of the application and as no other, and not before there is
/// one.
pub proof fn lemma_identity(state: Option<Initialization>, id: Seq<char>, other: Seq<char>)
    ensures
        engine::identity_refusal(state, id) is None ==> (engine::identity_refusal(state, other)
            is None <==> other == id),
        engine::identity_refusal(state, id) is None <==> (state matches Some(kept) && (
        kept.id matches Some(own) && own@ == id)),
        engine::identity_refusal(state, id) matches Some(e) ==> (e.status
            == har::BridgeStatus::InvalidArg <==> (state matches Some(kept) && kept.id is Some)),
{
}

/// The number of a surface is written in digits and is not zero.
pub proof fn lemma_surface_numbers(s: Seq<char>)
    ensures
        engine::surface_number(s) matches Some(n) ==> 0 < n <= 0xffff_ffff_ffff_ffff
            && text::parsed_unsigned(s, 0xffff_ffff_ffff_ffff) == Some(n),
        engine::surface_number(s) is None ==> (text::parsed_unsigned(s, 0xffff_ffff_ffff_ffff)
            matches Some(n) ==> n == 0),
{
}

/// A direct connection is made as the application's identity, for a surface, to an address
/// with a port, with names and a password that are not too long, at a rate from 1 to 240.
pub proof fn lemma_direct_connections(
    r: Result<Request, BridgeError>,
    state: Option<Initialization>,
    a: DirectArguments,
    password: Seq<char>,
    pin: Option<(Seq<char>, Seq<u8>)>,
)
    requires
        engine::direct_answer(r, state, a, password, pin),
    ensures
        r is Ok <==> ({
            &&& engine::identity_refusal(state, a.local_id@) is None
            &&& engine::surface_number(a.surface_id@) is Some
            &&& a.address matches Some(to)
            &&& to.port != 0
            &&& ({
                let name = if a.username@.len() > 0 {
                    a.username@
                } else {
                    to.ip@
                };
                0 < vstd::utf8::encode_utf8(name).len() <= 256
            })
            &&& 0 < vstd::utf8::encode_utf8(a.local_id@).len() <= 256
            &&& vstd::utf8::encode_utf8(a.local_name@).len() <= 256
            &&& vstd::utf8::encode_utf8(password).len() <= 4096
            &&& a.fps matches Some(n)
            &&& 1 <= n <= 240
        }),
        r matches Ok(request) ==> {
            &&& engine::surface_number(a.surface_id@) == Some(request.surface as nat)
            &&& request.options.address == a.address
            &&& a.username@.len() > 0 ==> request.options.username@ == a.username@
            &&& a.username@.len() == 0 ==> request.options.username@ == a.address->0.ip@
            &&& request.options.local_id@ == a.local_id@
            &&& request.options.local_name@ == a.local_name@
            &&& request.options.password@ == password
            &&& Some(request.options.requested_fps as i64) == a.fps
            &&& !request.options.clipboard_enabled
            &&& request.rendezvous is None
            &&& pin is Some <==> request.peer_key is Some
            &&& pin is None <==> request.connector is Unverified
            &&& pin matches Some((id, key)) ==> (request.connector matches Connector::Pinned {
                expected_id,
            } && expected_id@ == id && request.peer_key->0@ == key)
        },
        r matches Err(e) ==> (e@.status == har::BridgeStatus::GenericFailure <==> (
        state matches Some(kept) ==> kept.id is None)),
{
}

/// A pin is a number that is not too long and 44 characters that stand for 32 bytes, which
/// are then the key.
pub proof fn lemma_pins(peer_id: Seq<char>, key: Seq<char>)
    ensures
        ({
            let pin = engine::pin_of(peer_id, key);
            let decoded = encoding::base64_bytes(key);
            &&& pin is Ok <==> 0 < vstd::utf8::encode_utf8(peer_id).len() <= 512
                && vstd::utf8::encode_utf8(key).len() == 44 && (decoded matches Some(b) && b.len()
                == 32)
            &&& pin matches Ok(b) ==> decoded == Some(b)
            &&& pin matches Err(e) ==> e.status == har::BridgeStatus::InvalidArg
        }),
{
}

/// A peer that is known by a pin is logged in to under the given name or else under its
/// pinned number, whatever its address is.
pub proof fn lemma_pinned_names(username: Seq<char>, peer_id: Seq<char>)
    ensures
        username.len() > 0 ==> engine::pinned_name(username, peer_id) == username,
        username.len() == 0 ==> engine::pinned_name(username, peer_id) == peer_id,
{
}

/// A peer is looked for by its number without the white space at its ends, with names and a
/// password that are not too long, and where the server is known by a key: the configured
/// one, or else the public one.
pub proof fn lemma_connections_by_number(
    state: Option<Initialization>,
    config: AppConfig,
    public: Seq<char>,
    a: IdArguments,
    password: Seq<char>,
)
    ensures
        ({
            let refusal = engine::id_refusal(state, config, public, a, password);
            let peer = text::trimmed(a.peer_id@);
            let configured = entries::value_or_empty(config.options@, "key"@);
            let trusted = encoding::base64_bytes(
                if configured.len() > 0 {
                    configured
                } else {
                    public
                },
            );
            let known = engine::identity_refusal(state, a.local_id@) is None;
            let surface = engine::surface_number(a.surface_id@) is Some;
            let named = 0 < vstd::utf8::encode_utf8(peer).len() <= 256 && 0
                < vstd::utf8::encode_utf8(a.local_id@).len() <= 256 && vstd::utf8::encode_utf8(
                a.local_name@,
            ).len() <= 256 && vstd::utf8::encode_utf8(password).len() <= 4096 && !text::has_control(
                peer,
            );
            let rate = a.fps matches Some(n) && 1 <= n <= 240;
            let anchored = trusted matches Some(b) && b.len() == 32;
            &&& refusal is None <==> known && surface && named && rate && anchored
            &&& known && surface && named && rate && !anchored ==> refusal == Some(
                har::failure("Configured rendezvous trust anchor is invalid"@),
            )
            &&& known && !(surface && named && rate) ==> (refusal matches Some(e) && e.status
                == har::BridgeStatus::InvalidArg)
        }),
{
}

/// A session gets a slot while fewer than four are taken, for a surface that no session
/// holds.
pub proof fn lemma_slots(registry: engine::Registry, surface: u64)
    ensures
        engine::reserve_refusal(registry, surface) is None <==> registry.entries@.len() < 4
            && !engine::holds_surface(registry.entries@, surface) && registry.next != u64::MAX,
        registry.entries@.len() < 4 && engine::holds_surface(registry.entries@, surface)
            ==> engine::reserve_refusal(registry, surface) == Some(
            "Surface is still owned by a modern session"@,
        ),
{
}

/// The numbers of a pointer action are those of the protocol: the kind and the button are
/// not negative, and all of them fit in 32 bits.
pub proof fn lemma_pointer_numbers(
    kind: Option<i64>,
    button: Option<i64>,
    x: Option<i64>,
    y: Option<i64>,
)
    ensures
        engine::valid_pointer(kind, button, x, y) <==> ({
            &&& kind matches Some(k)
            &&& button matches Some(b)
            &&& x matches Some(left)
            &&& y matches Some(top)
            &&& 0 <= k <= 0xffff_ffff
            &&& 0 <= b <= 0xffff_ffff
            &&& -0x8000_0000 <= left <= 0x7fff_ffff
            &&& -0x8000_0000 <= top <= 0x7fff_ffff
        }),
{
}

/// A rate is asked for where the expected one lies in the range and the range in what the
/// platform has: from zero to 240, and at least one is expected.
pub proof fn lemma_rates(expected: i32, min: i32, max: i32, status: i32, found: bool)
    ensures
        xcomponent::valid_range(expected, min, max) ==> 0 <= min <= expected <= max <= 240
            && expected > 0,
        !xcomponent::valid_range(expected, min, max) ==> min < 0 || min > expected || expected > max
            || max > 240 || expected < 1,
        xcomponent::step_code(status, found) == 0 <==> status == 0 && found,
        status != 0 ==> xcomponent::step_code(status, found) == status,
        status == 0 && !found ==> xcomponent::step_code(status, found) == -1,
{
}

/// A surface is bound while the session is open and the platform keeps it; once bound it is
/// never another one.
pub proof fn lemma_surfaces_are_bound_once(
    surface: DeferredSurface,
    display: u32,
    surface_id: Seq<char>,
    retained: bool,
)
    ensures
        ({
            let (ok, message, after) = session_compat::bind_outcome(
                surface,
                display,
                surface_id,
                retained,
            );
            let id = engine::surface_number(surface_id);
            let blank = text::trimmed(surface_id).len() == 0;
            &&& after.cancelled == surface.cancelled
            &&& surface.lease is Some ==> after.lease == surface.lease
            &&& after.lease is Some && surface.lease is None ==> id == Some(after.lease->0 as nat)
            &&& after.lease is Some && surface.lease is None ==> ok && !blank && display == 0
                && retained && !surface.cancelled
            &&& ok <==> display == 0 && (if blank {
                surface.lease is None
            } else {
                id is Some && retained && !surface.cancelled && (surface.lease matches Some(held)
                    ==> id == Some(held as nat))
            })
            &&& ok && !blank ==> (after.lease matches Some(held) && id == Some(held as nat))
            &&& !ok || blank ==> after == surface
        }),
{
}

/// A session is created for a target that leads somewhere, under an identifier that is free
/// and not too long, to control a desktop, with a password that is not too long, while
/// there is room.
pub proof fn lemma_when_sessions_are_created(
    items: Seq<CompatSession>,
    id: Seq<char>,
    target: Seq<char>,
    reading: TargetReading,
    fields: Seq<json::FieldView>,
)
    ensures
        ({
            let refusal = session_compat::add_refusal(items, id, target, reading, fields);
            let nowhere = flutter_session::routes(None, target, reading);
            let named = 0 < vstd::utf8::encode_utf8(id).len() <= 64 && !text::has_control(id);
            let other = json::true_in(fields, "isFileTransfer"@) || json::true_in(
                fields,
                "isViewCamera"@,
            );
            let password = json::text_in(fields, "password"@);
            let long = password matches Some(s) && vstd::utf8::encode_utf8(s).len() > 4096;
            let there = session_compat::known(items, id);
            &&& refusal is None <==> !nowhere && named && !other && !long && !there && items.len()
                < 6
            &&& nowhere ==> refusal == Some("Invalid peer target"@)
            &&& !nowhere && !named ==> refusal == Some("Invalid session ID"@)
            &&& !nowhere && named && other ==> refusal == Some(
                "This compatibility milestone supports desktop viewer sessions only"@,
            )
            &&& !nowhere && named && !other && long ==> refusal == Some("Password is too long"@)
            &&& !nowhere && named && !other && !long && there ==> refusal == Some(
                "Session already exists"@,
            )
        }),
{
    assert(vstd::utf8::encode_utf8(Seq::empty()).len() == 0);
}

/// A session that is created keeps the others as they are, waits with the password that it
/// was given, watches only where it was told to, and has no viewer, surface or event yet.
pub proof fn lemma_created_sessions(
    r: Seq<char>,
    before: Seq<CompatSession>,
    after: Seq<CompatSession>,
    id: Seq<char>,
    target: Seq<char>,
    reading: TargetReading,
    fields: Seq<json::FieldView>,
)
    requires
        session_compat::add_answer(r, before, after, id, target, reading, fields),
    ensures
        session_compat::add_refusal(before, id, target, reading, fields) is Some
            ==> after == before,
        session_compat::add_refusal(before, id, target, reading, fields) is None ==> {
            let new = after.last();
            let password = json::text_in(fields, "password"@);
            &&& after.len() == before.len() + 1
            &&& after.drop_last() == before
            &&& new.id@ == id
            &&& new.target@ == text::trimmed(target)
            &&& flutter_session::routes(Some(new.route), target, reading)
            &&& password matches Some(s) ==> new.password@ == s
            &&& password is None ==> new.password@.len() == 0
            &&& new.initial_password_supplied <==> (password matches Some(s) && s.len() > 0)
            &&& new.view_only <==> json::true_in(fields, "isViewOnly"@)
            &&& new.force_relay <==> json::true_in(fields, "forceRelay"@)
            &&& new.requested_fps == 60
            &&& new.disable_audio && !new.show_remote_cursor
            &&& new.viewer is None && new.surface.lease is None && !new.surface.cancelled
            &&& new.pending_events@.len() == 0
            &&& !new.peer_info_emitted && !new.permission_emitted && !new.close_emitted
        },
{
    if session_compat::add_refusal(before, id, target, reading, fields) is None {
        assert(after.drop_last() =~= before);
    }
}

/// A viewer is started for a session that is not forced over a relay, whose server is known
/// by a key where it has to be asked; it goes where the session goes, with the session's
/// password and rate.
pub proof fn lemma_started_sessions(
    r: Start,
    session: CompatSession,
    config: AppConfig,
    public: Seq<char>,
)
    requires
        session_compat::start_outcome(r, session, config, public),
    ensures
        ({
            let configured = entries::value_or_empty(config.options@, "key"@);
            let licence = if configured.len() > 0 {
                configured
            } else {
                public
            };
            let anchored = encoding::base64_bytes(licence) matches Some(b) && b.len() == 32;
            let asked = session.route is Rendezvous;
            &&& r is Started <==> !session.force_relay && (asked ==> anchored)
                && session_compat::startable(session, config.id@)
            &&& r is Failed <==> !session.force_relay && (asked ==> anchored)
                && !session_compat::startable(session, config.id@)
            &&& session.force_relay ==> (r matches Start::Refused(what) && what@
                == "Forced relay routing is not connected in this milestone"@)
            &&& !session.force_relay && asked && !anchored ==> (r matches Start::Refused(what)
                && what@ == "Configured rendezvous trust anchor is invalid"@)
            &&& r matches Start::Started(plan) ==> {
                &&& plan.options.password@ == session.password@
                &&& plan.options.requested_fps == session.requested_fps
                &&& plan.options.local_id@ == config.id@
                &&& !plan.options.clipboard_enabled
                &&& plan.rendezvous is Some <==> asked
                &&& session.route matches Route::Direct(to) ==> (plan.options.address matches Some(
                    a,
                ) && a.ip@ == to.ip@ && a.port == to.port && a.port != 0
                    && plan.options.username@ == to.ip@ && plan.connector is Unverified)
                &&& session.route matches Route::Rendezvous(peer) ==> (plan.options.address is None
                    && plan.options.username@ == peer@ && (plan.connector
                    matches Connector::Rendezvous { id } && id@ == peer@)
                    && plan.rendezvous->0.id@ == peer@ && plan.rendezvous->0.licence_key@ == licence
                    && plan.rendezvous->0.rendezvous_server@ == config.rendezvous_server@
                    && encoding::base64_bytes(licence) == Some(plan.rendezvous->0.server_key@))
            }
        }),
{
}

/// Starting a session hands its password over and leaves nothing of it behind; a viewer is
/// there afterwards exactly where one was started.
pub proof fn lemma_after_a_start(before: CompatSession, after: CompatSession, r: Start)
    requires
        session_compat::after_start(before, after, r),
    ensures
        after.password@.len() == 0,
        after.viewer is Some <==> r is Started,
        r matches Start::Started(plan) ==> after.viewer->0@ == viewer::ViewerView::started(
            plan.options,
        ),
        r is Failed ==> after.phase@ == "failed"@,
        !(r is Failed) ==> after.phase@ == "starting"@,
        after.id == before.id && after.target == before.target && after.route == before.route,
        after.view_only == before.view_only && after.surface == before.surface,
        after.pending_events == before.pending_events,
        session_compat::start_message(r).0 <==> r is Started,
        r matches Start::Refused(what) ==> session_compat::start_message(r).1 == what@,
{
}

proof fn lemma_joined(a: Seq<Seq<char>>, b: Seq<Seq<char>>, e: Seq<char>)
    ensures
        (a + b).contains(e) <==> a.contains(e) || b.contains(e),
{
    if a.contains(e) {
        let i = choose|i: int| 0 <= i < a.len() && a[i] == e;
        assert((a + b)[i] == e);
    }
    if b.contains(e) {
        let i = choose|i: int| 0 <= i < b.len() && b[i] == e;
        assert((a + b)[a.len() + i] == e);
    }
    if (a + b).contains(e) {
        let i = choose|i: int| 0 <= i < (a + b).len() && (a + b)[i] == e;
        if i < a.len() {
            assert(a[i] == e);
        } else {
            assert(b[i - a.len()] == e);
        }
    }
}

proof fn lemma_due(due: bool, event: Seq<char>, e: Seq<char>)
    ensures
        flutter_session::event_if(due, event).contains(e) <==> due && e == event,
{
    if due {
        assert(seq![event][0] == event);
    }
}

/// What is told of a session: who it is connected to, once, when it is let in; what its
/// user may do, once, from then on; each codec when it changes; the end once, behind its
/// reason.
pub proof fn lemma_what_is_told(session: CompatSession, s: viewer::ViewerSnapshotView, e: Seq<char>)
    ensures
        ({
            let introduced = s.phase == "authenticated"@ && !session.peer_info_emitted;
            let in_now = s.phase == "authenticated"@ || session.peer_info_emitted;
            let ended = s.closed && !session.close_emitted;
            let told = introduced && e == flutter_session::ready_event(s) || introduced && e
                == session_compat::peer_event(session.target@, s) || in_now
                && !session.permission_emitted && e == session_compat::keyboard_event(
                s.keyboard_allowed,
            ) || s.codec.len() > 0 && s.codec != session.last_codec@ && e
                == flutter_session::codec_event(s.codec);
            &&& session_compat::status_events(session, s).contains(e) <==> told
            &&& introduced ==> session_compat::status_events(session, s).len() >= 2
                && session_compat::status_events(session, s)[0] == flutter_session::ready_event(s)
            &&& session_compat::end_events(session, s).len() == (if !ended {
                0int
            } else if s.error is Some {
                2
            } else {
                1
            })
            &&& ended ==> session_compat::end_events(session, s).last()
                == session_compat::close_event()
            &&& ended ==> (s.error matches Some(why) ==> session_compat::end_events(session, s)[0]
                == flutter_session::box_event("error"@, "Connection Error"@, why))
        }),
{
    let introduce = s.phase == "authenticated"@ && !session.peer_info_emitted;
    let a = flutter_session::event_if(introduce, flutter_session::ready_event(s));
    let b = flutter_session::event_if(introduce, session_compat::peer_event(session.target@, s));
    let c = flutter_session::event_if(
        (session.peer_info_emitted || introduce) && !session.permission_emitted,
        session_compat::keyboard_event(s.keyboard_allowed),
    );
    let d = flutter_session::event_if(
        s.codec.len() > 0 && session.last_codec@ != s.codec,
        flutter_session::codec_event(s.codec),
    );
    assert(session_compat::status_events(session, s) == a + b + c + d);
    lemma_joined(a + b + c, d, e);
    lemma_joined(a + b, c, e);
    lemma_joined(a, b, e);
    lemma_due(introduce, flutter_session::ready_event(s), e);
    lemma_due(introduce, session_compat::peer_event(session.target@, s), e);
    lemma_due(
        (session.peer_info_emitted || introduce) && !session.permission_emitted,
        session_compat::keyboard_event(s.keyboard_allowed),
        e,
    );
    lemma_due(
        s.codec.len() > 0 && session.last_codec@ != s.codec,
        flutter_session::codec_event(s.codec),
        e,
    );
}

/// What the user is asked: for a password when the viewer waits for one and was not asked
/// since the last answer, as a repetition where one was given before; for trust in a peer
/// that is not verified and for a second factor when the viewer begins to wait for them.
pub proof fn lemma_what_is_asked(
    session: CompatSession,
    s: viewer::ViewerSnapshotView,
    e: Seq<char>,
)
    ensures
        ({
            let changed = session.last_engine_phase@ != s.phase;
            let password = s.phase == "awaiting_password"@ && (changed
                || session.prompted_login_attempts != session.login_attempts);
            let again = session.initial_password_supplied || session.login_attempts > 0;
            let question = if again {
                flutter_session::box_event(
                    "re-input-password"@,
                    "Password Required"@,
                    "Wrong Password"@,
                )
            } else {
                flutter_session::box_event(
                    "input-password"@,
                    "Password Required"@,
                    "Password Required"@,
                )
            };
            session_compat::question_events(session, s).contains(e) <==> changed && s.phase
                == "awaiting_insecure_confirmation"@ && e == flutter_session::insecure_event()
                || password && e == question || changed && (s.phase == "awaiting_2fa"@ || s.phase
                == "awaiting_2fa_retry"@) && e == flutter_session::factor_event(s.phase)
        }),
{
    let changed = session.last_engine_phase@ != s.phase;
    let again = session.initial_password_supplied || session.login_attempts > 0;
    let a = flutter_session::event_if(
        changed && s.phase == "awaiting_insecure_confirmation"@,
        flutter_session::insecure_event(),
    );
    let b = flutter_session::event_if(
        session_compat::asks_password(session, s),
        session_compat::password_event(again),
    );
    let c = flutter_session::event_if(
        changed && flutter_session::waits_for_factor(s.phase),
        flutter_session::factor_event(s.phase),
    );
    assert(session_compat::question_events(session, s) == a + b + c);
    lemma_joined(a + b, c, e);
    lemma_joined(a, b, e);
    lemma_due(
        changed && s.phase == "awaiting_insecure_confirmation"@,
        flutter_session::insecure_event(),
        e,
    );
    lemma_due(
        session_compat::asks_password(session, s),
        session_compat::password_event(again),
        e,
    );
    lemma_due(
        changed && flutter_session::waits_for_factor(s.phase),
        flutter_session::factor_event(s.phase),
        e,
    );
}

/// A look at a session adds what is new behind what waits: questions, then the state, then
/// the end. A second look at the same tells of nothing.
pub proof fn lemma_each_change_is_told_once(
    before: CompatSession,
    after: CompatSession,
    s: viewer::ViewerSnapshotView,
)
    requires
        session_compat::reported(before, after, s),
    ensures
        text::texts(after.pending_events@) == text::texts(before.pending_events@)
            + session_compat::question_events(before, s) + session_compat::status_events(before, s)
            + session_compat::end_events(before, s),
        session_compat::engine_events(after, s).len() == 0,
        after.phase@ == s.phase,
        after.peer_info_emitted <==> before.peer_info_emitted || s.phase == "authenticated"@,
        after.close_emitted <==> before.close_emitted || s.closed,
        s.codec.len() == 0 ==> after.last_codec@ == before.last_codec@,
        after.id == before.id && after.viewer == before.viewer && after.surface == before.surface,
        after.login_attempts == before.login_attempts,
{
    assert(text::texts(before.pending_events@) + session_compat::engine_events(before, s)
        =~= text::texts(before.pending_events@) + session_compat::question_events(before, s)
        + session_compat::status_events(before, s) + session_compat::end_events(before, s));
}

/// Events are handed out oldest first, at most as many as were asked for and never more than
/// 256; what is not handed out waits on.
pub proof fn lemma_events_are_handed_out_in_order(
    before: CompatSession,
    after: CompatSession,
    limit: u32,
    events: Seq<Seq<char>>,
)
    requires
        session_compat::polled(before, after, limit, events),
    ensures
        exists|between: CompatSession| #[trigger]
            session_compat::looked_at(before, between) && events + text::texts(
                after.pending_events@,
            ) == text::texts(between.pending_events@),
        events.len() <= limit && events.len() <= 256,
        after.pending_events@.len() > 0 ==> events.len() == limit || events.len() == 256,
        before.viewer is None ==> events + text::texts(after.pending_events@) == text::texts(
            before.pending_events@,
        ),
{
    let between = choose|between: CompatSession|
        {
            let n = session_compat::least(
                between.pending_events@.len(),
                session_compat::least(limit as nat, session_compat::MAX_POLLED_EVENTS as nat),
            );
            &&& #[trigger] session_compat::looked_at(before, between)
            &&& events == text::texts(between.pending_events@.take(n as int))
            &&& after == (CompatSession { pending_events: after.pending_events, ..between })
            &&& after.pending_events@ == between.pending_events@.skip(n as int)
        };
    let n = session_compat::least(
        between.pending_events@.len(),
        session_compat::least(limit as nat, session_compat::MAX_POLLED_EVENTS as nat),
    ) as int;
    let all = between.pending_events@;
    assert(text::texts(all.take(n)) + text::texts(all.skip(n)) =~= text::texts(all));
}

/// A session that only watches sends no pointer action, and neither does one without a
/// viewer; another one sends what its viewer sends.
pub proof fn lemma_watching_sends_nothing(
    session: Option<CompatSession>,
    kind: u32,
    button: u32,
    x: i32,
    y: i32,
    queue: QueueState,
)
    ensures
        session_compat::pointer_message(session, kind, button, x, y, queue) matches Some(m) ==> (
        session matches Some(s) && !s.view_only && (s.viewer matches Some(v)
            && viewer::mouse_result(v@, kind, button, x, y, queue) == Ok::<
            Message,
            viewer::ViewerError,
        >(m))),
        session matches Some(s) ==> (s.viewer matches Some(v) ==> (!s.view_only
            && viewer::mouse_result(v@, kind, button, x, y, queue) is Ok
            ==> session_compat::pointer_message(session, kind, button, x, y, queue) is Some)),
{
}

/// Closing cancels the surface and the viewer and leaves the rest.
pub proof fn lemma_closing(before: CompatSession, after: CompatSession)
    requires
        session_compat::closing(before, after),
    ensures
        after.surface.cancelled,
        after.surface.lease == before.surface.lease,
        after.viewer is Some <==> before.viewer is Some,
        before.viewer matches Some(v) ==> after.viewer->0@.closing(v@),
        after.id == before.id && after.phase == before.phase,
        after.pending_events == before.pending_events,
        forall|id: u64, retained: bool| #[trigger] after.surface.refusal(id, retained) is Some,
{
}

/// The switches of a session are the cursor and the sound; each flips its own, flipping it
/// twice changes nothing, and no other name flips any.
pub proof fn lemma_switches(session: CompatSession, option: Seq<char>)
    ensures
        ({
            let after = session_compat::flipped(session, option);
            &&& after.show_remote_cursor != session.show_remote_cursor ==> option
                == "show-remote-cursor"@
            &&& after.disable_audio != session.disable_audio ==> option == "disable-audio"@
            &&& after == session ==> option != "show-remote-cursor"@ && option != "disable-audio"@
            &&& session_compat::flipped(after, option) == session
            &&& after == (CompatSession {
                show_remote_cursor: after.show_remote_cursor,
                disable_audio: after.disable_audio,
                ..session
            })
        }),
{
    reveal_strlit("show-remote-cursor");
    reveal_strlit("disable-audio");
    assert("show-remote-cursor"@.len() == 18);
    assert("disable-audio"@.len() == 13);
}

/// Automatic choice and H.265 are the codecs that can be preferred.
pub proof fn lemma_preferable_codecs(codec: Seq<char>)
    ensures
        session_compat::preferable(codec) ==> codec == "auto"@ || codec == "h265"@,
        !session_compat::preferable(codec) ==> codec != "auto"@ && codec != "h265"@,
{
}

/// A password goes to the viewer of a session that is started; one that is taken counts as
/// an attempt, one that is not changes nothing, and no other session changes.
pub proof fn lemma_passwords_are_passed_on(
    r: (String, Option<AuthCommand>),
    before: Seq<CompatSession>,
    after: Seq<CompatSession>,
    id: Seq<char>,
    password: Seq<char>,
    queue: QueueState,
    i: int,
)
    requires
        session_compat::login_answer(r, before, after, id, password, queue),
        0 <= i < before.len(),
    ensures
        after.len() == before.len(),
        i != session_compat::place(before, id) ==> after[i] == before[i],
        r.1 is None ==> after == before,
        r.1 is Some ==> session_compat::known(before, id) && before[session_compat::place(
            before,
            id,
        )].viewer is Some,
        r.1 is Some && i == session_compat::place(before, id) ==> {
            &&& after[i].phase@ == "authenticating"@
            &&& before[i].login_attempts < u64::MAX ==> after[i].login_attempts
                == before[i].login_attempts + 1
            &&& viewer::password_answer(Ok(r.1->0), password, queue)
            &&& after[i].viewer == before[i].viewer
        },
{
    lemma_place_is_not_negative(before, id);
}

/// A session is found by its identifier: the first one that has it, and none where none
/// has.
pub proof fn lemma_sessions_are_found(items: Seq<CompatSession>, id: Seq<char>, i: int)
    requires
        0 <= i < items.len(),
    ensures
        session_compat::known(items, id) ==> (session_compat::session_of(items, id) matches Some(s)
            && s.id@ == id),
        items[i].id@ == id ==> session_compat::known(items, id) && 0 <= session_compat::place(
            items,
            id,
        ) <= i,
        !session_compat::known(items, id) ==> session_compat::session_of(items, id) is None,
    decreases items.len(),
{
    let rest = items.skip(1);
    if items[0].id@ != id {
        if rest.len() > 0 {
            lemma_sessions_are_found(rest, id, if i > 0 {
                i - 1
            } else {
                0
            });
            if i > 0 {
                assert(rest[i - 1] == items[i]);
            }
            if session_compat::known(items, id) {
                let at = session_compat::place(rest, id);
                lemma_place_is_not_negative(rest, id);
                assert(session_compat::known(rest, id));
                assert(items[at + 1] == rest[at]);
            }
        } else {
            assert(session_compat::place(rest, id) == 0);
        }
    }
}

proof fn lemma_place_is_not_negative(items: Seq<CompatSession>, id: Seq<char>)
    ensures
        0 <= session_compat::place(items, id) <= items.len(),
    decreases items.len(),
{
    if items.len() > 0 {
        lemma_place_is_not_negative(items.skip(1), id);
    }
}

/// A viewer starts for valid options: to an address where it connects directly, to a peer
/// with a number that is not too long where that is pinned, and without an address under the
/// number that it looks for.
pub proof fn lemma_which_requests_start(request: Request)
    ensures
        request.connector is Unverified ==> (engine::starts(request) <==> viewer::valid_options(
            request.options,
        ) && viewer::has_address(request.options)),
        request.connector matches Connector::Pinned { expected_id } ==> (engine::starts(request)
            <==> viewer::valid_options(request.options) && viewer::has_address(request.options) && 0
            < vstd::utf8::encode_utf8(expected_id@).len() && vstd::utf8::encode_utf8(
            expected_id@,
        ).len() <= 512),
        request.connector matches Connector::Rendezvous { id } ==> (engine::starts(request)
            <==> viewer::valid_options(request.options) && request.options.address is None
            && request.options.username@ == id@),
{
}

/// A session that is asked to close is about to close, keeps its handle and its surface, and
/// a wait for its end that was begun is never given up; the other sessions stay.
pub proof fn lemma_cancelled_sessions(
    before: Seq<engine::Entry>,
    after: Seq<engine::Entry>,
    i: int,
    join: bool,
    j: int,
)
    requires
        engine::cancelled_at(before, after, i, join),
        0 <= j < before.len(),
    ensures
        after.len() == before.len(),
        after[i].closing,
        after[i].id == before[i].id && after[i].surface == before[i].surface,
        after[i].join_pending <==> before[i].join_pending || join,
        after[i].viewer@.closing(before[i].viewer@),
        j != i ==> after[j] == before[j],
{
}

/// A handle is found where it stands first, and it stands nowhere exactly where no session
/// has it.
pub proof fn lemma_handles_are_found(entries: Seq<engine::Entry>, id: Seq<char>, i: int, j: int)
    requires
        0 <= i < entries.len(),
    ensures
        entries[i].id@ == id ==> !engine::stands_nowhere(entries, id),
        engine::stands_at(entries, id, i) ==> entries[i].id@ == id,
        engine::stands_at(entries, id, i) && engine::stands_at(entries, id, j) ==> i == j,
        entries[0].id@ == id ==> engine::stands_at(entries, id, 0),
        entries[i].id@ == id && engine::stands_at(entries, id, j) ==> j <= i,
{
}

} // verus!

//! What holds of the sessions of the frontend as a whole: how they come about, what is
//! reported of them and when, and what the frontend's pointer and settings mean.
use vstd::prelude::*;
use crate::control_key::ControlKey;
use crate::encoding;
use crate::entries;
use crate::flutter_ffi;
use crate::flutter_ffi::Started;
use crate::flutter_input;
use crate::flutter_session;
use crate::flutter_session::{
    AddOptions, PumpView, Report, Route, Session, StartPlan, TargetReading,
};
use crate::flutter_state;
use crate::flutter_state::AppConfig;
use crate::flutter_surface;
use crate::flutter_surface::{TextureLease, Textures};
use crate::json;
use crate::message;
use crate::message::Message;
use crate::text;
use crate::viewer;
use crate::viewer::keys::ViewerKey;
use crate::viewer::{Connector, QueueState, Viewer, ViewerError, ViewerOptions};

verus! {

/// A target with a port is connected to directly, an address alone on the port of direct
/// connections, and everything else is looked for by its name without the white space at
/// its ends; a port of zero leads nowhere.
pub proof fn lemma_routes(route: Option<Route>, target: Seq<char>, reading: TargetReading)
    requires
        flutter_session::routes(route, target, reading),
    ensures
        reading.socket matches Some(a) ==> (a.port == 0 <==> route is None),
        reading.socket matches Some(a) ==> (route matches Some(r) ==> (r matches Route::Direct(to)
            && to.ip@ == a.ip@ && to.port == a.port && to.text@ == a.text@)),
        reading.socket is None ==> (reading.ip matches Some(a) ==> (route matches Some(
            Route::Direct(to),
        ) && to.ip@ == a.ip@ && to.port == a.port && to.text@ == a.text@)),
        reading.socket is None && reading.ip is None ==> (route matches Some(r) ==> (
        r matches Route::Rendezvous(name) && name@ == text::trimmed(target))),
        reading.socket is None && reading.ip is None ==> (route is Some <==> ({
            let name = text::trimmed(target);
            let len = vstd::utf8::encode_utf8(name).len();
            0 < len <= 256 && !text::has_control(name)
        })),
{
}

/// A session is created for remote control alone, with a password that is not endless, not
/// by force over a relay, for a target that leads somewhere, under a number that is free,
/// while there is room; and what stands in the way is named in this order.
pub proof fn lemma_when_sessions_are_created(
    sessions: Map<u128, Session>,
    id: u128,
    target: Seq<char>,
    reading: TargetReading,
    o: AddOptions,
)
    ensures
        ({
            let refusal = flutter_session::add_refusal(sessions, id, target, reading, o);
            let other = o.is_file_transfer || o.is_port_forward || o.is_rdp;
            let long = vstd::utf8::encode_utf8(o.password@).len() > 4096;
            let nowhere = flutter_session::routes(None, target, reading);
            &&& refusal is None <==> !o.is_terminal && !other && !long && !o.force_relay && !nowhere
                && !sessions.dom().contains(id) && sessions.len() < 16
            &&& o.is_terminal ==> refusal == Some(
                "Terminal sessions are not supported by this runtime"@,
            )
            &&& !o.is_terminal && other ==> refusal == Some(
                "Only remote-control sessions are supported by this runtime"@,
            )
            &&& !o.is_terminal && !other && long ==> refusal == Some("Password is too long"@)
            &&& !o.is_terminal && !other && !long && o.force_relay ==> refusal == Some(
                "Forced relay routing is not supported by this runtime"@,
            )
            &&& !o.is_terminal && !other && !long && !o.force_relay && nowhere ==> refusal == Some(
                "Invalid peer target"@,
            )
            &&& !o.is_terminal && !other && !long && !o.force_relay && !nowhere
                && sessions.dom().contains(id) ==> refusal == Some("Session already exists"@)
        }),
{
}

/// A session that was created has its number, its peer and its options, no viewer and no
/// stream, and nothing of it was reported.
pub proof fn lemma_created_sessions(
    session: Session,
    id: u128,
    target: Seq<char>,
    reading: TargetReading,
    options: AddOptions,
)
    requires
        flutter_session::created(session, id, target, reading, options),
    ensures
        session.id == id && session.peer@ == text::trimmed(target),
        session.options == options,
        session.viewer is None && !session.events,
        !session.pump.peer_info_sent && !session.pump.permission_sent && !session.pump.close_sent
            && !session.pump.display_sent,
        session.pump.last_phase@.len() == 0 && session.pump.last_codec@.len() == 0,
        flutter_session::routes(Some(session.route), target, reading),
{
}

/// The viewer of a session goes where the session goes, in the name of this machine, with
/// the password of the session, the clipboard open, at sixty frames and balanced quality.
pub proof fn lemma_viewers_of_sessions(
    o: ViewerOptions,
    session: Session,
    local_id: Seq<char>,
    plan: StartPlan,
    config: AppConfig,
    public: Seq<char>,
)
    requires
        flutter_session::viewer_options_of(o, session, local_id),
        flutter_session::plans(plan, session, config, public),
    ensures
        o.local_id@ == local_id && o.password@ == session.options.password@,
        o.requested_fps == 60 && o.clipboard_enabled && o.image_quality is Balanced,
        session.route matches Route::Direct(a) ==> o.username@ == a.ip@ && (o.address
            matches Some(to) && to.ip@ == a.ip@ && to.port == a.port) && plan.connector
            is Unverified && plan.rendezvous is None,
        session.route matches Route::Rendezvous(peer) ==> o.username@ == peer@ && o.address is None
            && (plan.connector matches Connector::Rendezvous { id } && id@ == peer@) && (
        plan.rendezvous matches Some(found) && found.id@ == peer@ && found.rendezvous_server@
            == config.rendezvous_server@ && encoding::base64_bytes(found.licence_key@) == Some(
            found.server_key@,
        ) && found.server_key@.len() == 32),
        session.route is Rendezvous ==> ({
            let configured = entries::value_or_empty(config.options@, "key"@);
            &&& configured.len() > 0 ==> plan.rendezvous->0.licence_key@ == configured
            &&& configured.len() == 0 ==> plan.rendezvous->0.licence_key@ == public
        }),
{
}

/// A new stream for the events of a session has the end reported to it again, and changes
/// nothing else.
pub proof fn lemma_attached_streams(sessions: Map<u128, Session>, id: u128, other: u128)
    requires
        sessions.dom().contains(id),
    ensures
        ({
            let after = flutter_session::attached(sessions, id);
            &&& after[id].events
            &&& !after[id].pump.close_sent
            &&& after[id].viewer == sessions[id].viewer && after[id].route == sessions[id].route
                && after[id].peer == sessions[id].peer && after[id].id == sessions[id].id
            &&& after[id].pump.peer_info_sent == sessions[id].pump.peer_info_sent
                && after[id].pump.permission_sent == sessions[id].pump.permission_sent
            &&& other != id ==> after.dom().contains(other) == sessions.dom().contains(other)
            &&& other != id && sessions.dom().contains(other) ==> after[other] == sessions[other]
        }),
{
}

proof fn lemma_joined(a: Seq<Report>, b: Seq<Report>, r: Report)
    ensures
        (a + b).contains(r) <==> a.contains(r) || b.contains(r),
{
    if a.contains(r) {
        let i = choose|i: int| 0 <= i < a.len() && a[i] == r;
        assert((a + b)[i] == r);
    }
    if b.contains(r) {
        let i = choose|i: int| 0 <= i < b.len() && b[i] == r;
        assert((a + b)[a.len() + i] == r);
    }
    if (a + b).contains(r) {
        let i = choose|i: int| 0 <= i < (a + b).len() && (a + b)[i] == r;
        assert(if i < a.len() {
            a[i] == r
        } else {
            b[i - a.len()] == r
        });
    }
}

proof fn lemma_perhaps(due: bool, report: Report, r: Report)
    ensures
        flutter_session::report_if(due, report).contains(r) <==> due && r == report,
{
    if due {
        assert(flutter_session::report_if(due, report)[0] == report);
    }
}

/// What is reported of the connection, the peer and the picture, and exactly when: the
/// connection and the peer once it let the viewer in, what it allows after that, the size of
/// the picture whenever it is another one, and the codec whenever it is another one.
pub proof fn lemma_what_is_reported(
    p: PumpView,
    s: viewer::ViewerSnapshotView,
    peer: Option<message::PeerInfoView>,
    r: Report,
)
    ensures
        ({
            let first = s.phase == "authenticated"@ && !p.peer_info_sent;
            let known = p.peer_info_sent || first;
            let shown = p.display_sent && !first && p.last_width == s.width && p.last_height
                == s.height;
            flutter_session::status_reports(p, s, peer).contains(r) <==> {
                ||| first && r == (Report::Ready { snapshot: s })
                ||| first && r == (Report::Peer { peer, snapshot: s })
                ||| known && !p.permission_sent && r == (Report::Permission { snapshot: s })
                ||| known && s.width > 0 && s.height > 0 && !shown && r == (Report::Display {
                    width: s.width,
                    height: s.height,
                })
                ||| s.codec.len() > 0 && s.codec != p.last_codec && r == (Report::Codec {
                    codec: s.codec,
                })
            }
        }),
{
    reveal(flutter_session::status_reports);
    let introduce = s.phase == "authenticated"@ && !p.peer_info_sent;
    let known = p.peer_info_sent || introduce;
    let due = flutter_session::display_due(p, s, known, p.display_sent && !introduce);
    let recoded = s.codec.len() > 0 && p.last_codec != s.codec;
    let a = flutter_session::report_if(introduce, Report::Ready { snapshot: s });
    let b = flutter_session::report_if(introduce, Report::Peer { peer, snapshot: s });
    let c = flutter_session::report_if(
        known && !p.permission_sent,
        Report::Permission { snapshot: s },
    );
    let d = flutter_session::report_if(due, Report::Display { width: s.width, height: s.height });
    let e = flutter_session::report_if(recoded, Report::Codec { codec: s.codec });
    lemma_joined(a, b, r);
    lemma_joined(a + b, c, r);
    lemma_joined(a + b + c, d, r);
    lemma_joined(a + b + c + d, e, r);
    lemma_perhaps(introduce, Report::Ready { snapshot: s }, r);
    lemma_perhaps(introduce, Report::Peer { peer, snapshot: s }, r);
    lemma_perhaps(known && !p.permission_sent, Report::Permission { snapshot: s }, r);
    lemma_perhaps(due, Report::Display { width: s.width, height: s.height }, r);
    lemma_perhaps(recoded, Report::Codec { codec: s.codec }, r);
}

/// What the user is asked, and exactly when: whenever the phase turns to one that waits for
/// the user; and what is reported of the end, once.
pub proof fn lemma_what_is_asked(p: PumpView, s: viewer::ViewerSnapshotView, r: Report)
    ensures
        flutter_session::question_reports(p, s).contains(r) <==> s.phase != p.last_phase && {
            ||| s.phase == "awaiting_insecure_confirmation"@ && r == Report::Insecure
            ||| s.phase == "awaiting_password"@ && r == Report::Password
            ||| (s.phase == "awaiting_2fa"@ || s.phase == "awaiting_2fa_retry"@) && r == (
            Report::Factor { phase: s.phase })
        },
        flutter_session::end_reports(p, s).contains(r) <==> s.closed && !p.close_sent && {
            ||| r == Report::Close
            ||| s.error is Some && r == (Report::Error { error: s.error->0 })
        },
{
    reveal(flutter_session::question_reports);
    reveal(flutter_session::end_reports);
    let changed = p.last_phase != s.phase;
    let insecure = changed && s.phase == "awaiting_insecure_confirmation"@;
    let password = changed && s.phase == "awaiting_password"@;
    let factor = changed && flutter_session::waits_for_factor(s.phase);
    let a = flutter_session::report_if(insecure, Report::Insecure);
    let b = flutter_session::report_if(password, Report::Password);
    let c = flutter_session::report_if(factor, Report::Factor { phase: s.phase });
    lemma_joined(a, b, r);
    lemma_joined(a + b, c, r);
    lemma_perhaps(insecure, Report::Insecure, r);
    lemma_perhaps(password, Report::Password, r);
    lemma_perhaps(factor, Report::Factor { phase: s.phase }, r);
    let ended = s.closed && !p.close_sent;
    let failed = Report::Error { error: s.error->0 };
    let e = flutter_session::report_if(ended && s.error is Some, failed);
    let f = flutter_session::report_if(ended, Report::Close);
    lemma_joined(e, f, r);
    lemma_perhaps(ended && s.error is Some, failed, r);
    lemma_perhaps(ended, Report::Close, r);
}

/// What was reported is remembered: the phase, the codec and the size that were seen last,
/// and that the peer, what it allows and the end were told.
pub proof fn lemma_what_is_remembered(p: PumpView, s: viewer::ViewerSnapshotView)
    ensures
        ({
            let after = flutter_session::after_report(p, s);
            let told = p.peer_info_sent || s.phase == "authenticated"@;
            &&& after.last_phase == s.phase
            &&& after.peer_info_sent == told
            &&& after.permission_sent == (p.permission_sent || told)
            &&& after.close_sent == (p.close_sent || s.closed)
            &&& after.last_codec == if s.codec.len() > 0 {
                s.codec
            } else {
                p.last_codec
            }
            &&& told && s.width > 0 && s.height > 0 ==> after.display_sent && after.last_width
                == s.width && after.last_height == s.height
            &&& !told || s.width <= 0 || s.height <= 0 ==> after.last_width == p.last_width
                && after.last_height == p.last_height
        }),
{
}

/// What an event is called and what it carries.
pub proof fn lemma_events_carry_what_they_say(
    s: viewer::ViewerSnapshotView,
    info: message::PeerInfoView,
    width: i32,
    height: i32,
    codec: Seq<char>,
)
    ensures
        ({
            let secure = if s.encrypted {
                "true"@
            } else {
                "false"@
            };
            let direct = if s.route == "direct_tcp"@ {
                "true"@
            } else {
                "false"@
            };
            let keyboard = if s.keyboard_allowed {
                "true"@
            } else {
                "false"@
            };
            let clipboard = if s.clipboard_allowed {
                "true"@
            } else {
                "false"@
            };
            let w = text::signed_decimal(width as int);
            let h = text::signed_decimal(height as int);
            &&& (Report::Ready { snapshot: s }).text() == flutter_session::enveloped(
                seq![
                    ("name"@, "connection_ready"@),
                    ("secure"@, secure),
                    ("direct"@, direct),
                    ("stream_type"@, s.route),
                ],
            )
            &&& (Report::Peer { peer: Some(info), snapshot: s }).text()
                == flutter_session::enveloped(
                seq![
                    ("name"@, "peer_info"@),
                    ("username"@, info.username),
                    ("hostname"@, info.hostname),
                    ("platform"@, info.platform),
                    ("version"@, info.version),
                    ("current_display"@, text::signed_decimal(info.current_display as int)),
                    ("displays"@, flutter_session::displays_of(Some(info), s.width, s.height)),
                ],
            )
            &&& (Report::Permission { snapshot: s }).text() == flutter_session::enveloped(
                seq![
                    ("name"@, "permission"@),
                    ("keyboard"@, keyboard),
                    ("clipboard"@, clipboard),
                ],
            )
            &&& (Report::Display { width, height }).text() == flutter_session::enveloped(
                seq![
                    ("name"@, "switch_display"@),
                    ("display"@, "0"@),
                    ("x"@, "0"@),
                    ("y"@, "0"@),
                    ("width"@, w),
                    ("height"@, h),
                    ("cursor_embedded"@, "0"@),
                    ("resolutions"@, "[]"@),
                    ("original_width"@, w),
                    ("original_height"@, h),
                ],
            )
            &&& Report::Close.text() == "close"@
            &&& Report::Password.text() == flutter_session::box_event(
                "input-password"@,
                "Password Required"@,
                "Password Required"@,
            )
            &&& (Report::Factor { phase: "awaiting_2fa_retry"@ }).text()
                == flutter_session::box_event("input-2fa"@, "2FA Required"@, "Wrong 2FA Code"@)
            &&& (Report::Error { error: codec }).text() == flutter_session::box_event(
                "error"@,
                "Connection Error"@,
                codec,
            )
        }),
{
}

/// The displays that a peer reports are told one by one in their order; without a report
/// the picture itself is the display.
pub proof fn lemma_displays_are_told(info: message::PeerInfoView, width: i32, height: i32)
    ensures
        info.displays.len() > 0 ==> flutter_session::displays_of(Some(info), width, height)
            == json::array_of(
            info.displays.map_values(|d: message::DisplayInfoView| flutter_session::display_json(d)),
        ),
        info.displays.len() == 0 ==> flutter_session::displays_of(Some(info), width, height)
            == flutter_session::displays_of(None, width, height),
        flutter_session::displays_of(None, width, height) == json::array_of(
            seq![flutter_session::stream_display(width, height)],
        ),
{
    if info.displays.len() > 0 {
        assert(Seq::new(
            info.displays.len(),
            |i: int| flutter_session::display_json(info.displays[i]),
        ) =~= info.displays.map_values(
            |d: message::DisplayInfoView| flutter_session::display_json(d),
        ));
    }
}

/// Each button and each kind of pointer event of the frontend has its own word, and no
/// other word stands for any.
pub proof fn lemma_words_of_the_pointer(name: Seq<char>)
    ensures
        flutter_input::named_button(name) == Some(1i32) ==> name == "left"@,
        flutter_input::named_button(name) == Some(2i32) ==> name == "right"@,
        flutter_input::named_button(name) == Some(4i32) ==> name == "wheel"@,
        flutter_input::named_button(name) == Some(8i32) ==> name == "back"@,
        flutter_input::named_button(name) == Some(16i32) ==> name == "forward"@,
        flutter_input::named_button(name) matches Some(n) ==> n == 1 || n == 2 || n == 4 || n == 8
            || n == 16,
        flutter_input::named_button(name) is None ==> name != "left"@ && name != "right"@ && name
            != "wheel"@ && name != "back"@ && name != "forward"@,
        flutter_input::named_kind(name) == Some((0i32, false)) ==> name == "move"@ || name
            == "mousemove"@,
        flutter_input::named_kind(name) == Some((1i32, true)) ==> name == "down"@ || name
            == "mousedown"@,
        flutter_input::named_kind(name) == Some((2i32, true)) ==> name == "up"@ || name
            == "mouseup"@,
        flutter_input::named_kind(name) == Some((3i32, false)) ==> name == "wheel"@,
        flutter_input::named_kind(name) == Some((4i32, false)) ==> name == "trackpad"@,
        flutter_input::named_kind(name) == Some((5i32, false)) ==> name == "move_relative"@,
        flutter_input::named_kind(name) matches Some((kind, pressed)) ==> 0 <= kind <= 5 && (pressed
            <==> kind == 1 || kind == 2),
        flutter_input::named_kind(name) is None ==> name != "move"@ && name != "mousemove"@ && name
            != "down"@ && name != "mousedown"@ && name != "up"@ && name != "mouseup"@ && name
            != "wheel"@ && name != "trackpad"@ && name != "move_relative"@,
{
}

/// A pointer event of the frontend has the kind and the button that its words stand for.
pub proof fn lemma_described_masks(fields: Seq<json::FieldView>)
    ensures
        ({
            let mask = flutter_input::mask_of(fields);
            match json::text_in(fields, "type"@) {
                None => mask is None,
                Some(word) => match flutter_input::named_kind(word) {
                    None => mask is None,
                    Some((kind, false)) => mask == Some(kind as int),
                    Some((kind, true)) => match json::text_in(fields, "buttons"@) {
                        None => mask is None,
                        Some(button) => match flutter_input::named_button(button) {
                            None => mask is None,
                            Some(bit) => mask == Some(8 * bit + kind),
                        },
                    },
                },
            }
        }),
{
}

/// What the settings ask for by name is answered by its own value, and nothing else is.
pub proof fn lemma_common_values(config: AppConfig, key: Seq<char>)
    ensures
        flutter_state::common_value(config, "my-id"@) == Some(config.id@),
        flutter_state::common_value(config, key) is Some ==> key == "my-id"@ || key == "app-name"@
            || key == "version"@ || key == "build-date"@ || key == "uri-prefix"@ || key
            == "license"@,
        flutter_state::common_value(config, key) is None ==> key != "my-id"@ && key != "app-name"@
            && key != "version"@ && key != "build-date"@ && key != "uri-prefix"@ && key
            != "license"@,
{
}

/// An option of a peer is set where the peer and the option have a name and the value is
/// not endless.
pub proof fn lemma_settable_options(id: Seq<char>, key: Seq<char>, value: Seq<char>)
    ensures
        flutter_state::settable(id, key, value) <==> id.len() > 0 && key.len() > 0
            && vstd::utf8::encode_utf8(value).len() <= 4096,
        flutter_state::flutter_key(key) == "flutter-"@ + key,
{
}

/// The value of a write is the text of its field, or else the JSON text of it; the writes
/// are as many as the fields and in their order.
pub proof fn lemma_writes_of_fields(fields: Seq<json::FieldView>, i: int)
    requires
        0 <= i < fields.len(),
    ensures
        flutter_state::writes_of(fields).len() == fields.len(),
        flutter_state::writes_of(fields)[i].0 == fields[i].key,
        fields[i].text matches Some(t) ==> flutter_state::writes_of(fields)[i].1 == t,
        fields[i].text is None ==> flutter_state::writes_of(fields)[i].1 == fields[i].json,
{
}

/// The writes that did not take are counted one by one.
pub proof fn lemma_refused_writes(
    writes: Seq<(String, String)>,
    stored: Seq<String>,
    n: nat,
)
    requires
        stored.len() == writes.len(),
        n < writes.len(),
    ensures
        flutter_state::refused(writes, stored, 0) == 0,
        stored[n as int]@ == writes[n as int].1@ ==> flutter_state::refused(writes, stored, n + 1)
            == flutter_state::refused(writes, stored, n),
        stored[n as int]@ != writes[n as int].1@ ==> flutter_state::refused(writes, stored, n + 1)
            == flutter_state::refused(writes, stored, n) + 1,
{
}

/// An object of texts holds each text under its key, as JSON.
pub proof fn lemma_objects_of_texts(items: Seq<(Seq<char>, Seq<char>)>, key: Seq<char>)
    ensures
        entries::value_of(
            flutter_state::as_texts(json::ObjectView::empty(), items).entries,
            key,
        ) == (match entries::last_value(items, key) {
            Some(value) => Some(json::json_string(value)),
            None => None,
        }),
    decreases items.len(),
{
    if items.len() > 0 {
        let before = flutter_state::as_texts(json::ObjectView::empty(), items.drop_last());
        lemma_objects_of_texts(items.drop_last(), key);
        entries::lemma_put_is_found(
            before.entries,
            items.last().0,
            json::json_string(items.last().1),
            key,
        );
    }
}

/// A session answers for its peer, and for the switches that it has.
pub proof fn lemma_session_options(session: Session, arg: Seq<char>)
    ensures
        flutter_session::option_value(session, arg) is Some ==> arg == "peer-id"@ || arg == "id"@
            || arg == "view-only"@ || arg == "show-remote-cursor"@ || arg == "disable-audio"@,
        arg == "peer-id"@ || arg == "id"@ ==> flutter_session::option_value(session, arg) == Some(
            session.peer@,
        ),
        flutter_session::option_value(session, arg) is None ==> arg != "view-only"@ && arg
            != "show-remote-cursor"@ && arg != "disable-audio"@,
        arg == "view-only"@ || arg == "show-remote-cursor"@ ==> flutter_session::option_value(
            session,
            arg,
        ) == Some("N"@),
        arg == "disable-audio"@ ==> flutter_session::option_value(session, arg) == Some("Y"@),
        flutter_session::switch_value(arg) <==> arg == "disable-audio"@,
{
    reveal_strlit("peer-id");
    reveal_strlit("id");
    reveal_strlit("view-only");
    reveal_strlit("show-remote-cursor");
    reveal_strlit("disable-audio");
    assert("peer-id"@.len() == 7);
    assert("id"@.len() == 2);
    assert("view-only"@.len() == 9);
    assert("show-remote-cursor"@.len() == 18);
    assert("disable-audio"@.len() == 13);
}

/// A session that starts is known, gets the stream that it is started with, and keeps all
/// other sessions; a viewer that runs already goes on, and what stands in the way of one is
/// told.
pub proof fn lemma_starting_sessions(
    r: Result<Started, String>,
    before: Map<u128, Session>,
    after: Map<u128, Session>,
    textures: Textures,
    textures_after: Textures,
    config: AppConfig,
    public: Seq<char>,
    id: u128,
    other: u128,
)
    requires
        flutter_ffi::session_start_answer(
            r,
            before,
            after,
            textures,
            textures_after,
            config,
            public,
            id,
        ),
    ensures
        after.dom() == before.dom(),
        other != id && before.dom().contains(other) ==> after[other] == before[other],
        !before.dom().contains(id) ==> (r matches Err(what) && what@ == "Session not found"@),
        before.dom().contains(id) ==> after[id].events,
        r matches Ok(started) ==> before.dom().contains(id) && after[id].viewer is Some,
        r matches Ok(started) ==> (started.replaced <==> before[id].events),
        r matches Ok(started) ==> (started.plan is Some <==> before[id].viewer is None),
        r matches Ok(started) ==> (started.plan matches Some(plan) ==> after[id].viewer->0@
            == viewer::ViewerView::started(plan.options)),
        r is Ok && before[id].viewer is Some ==> after[id].viewer == before[id].viewer,
        r is Err && before.dom().contains(id) && config.id@.len() > 0 ==> after[id].viewer is None
            && after[id].options.password@.len() == 0,
{
    assert(after.dom() =~= before.dom());
}

/// A session that is closed is gone with its texture, and the others stay.
pub proof fn lemma_closed_sessions(
    r: Option<Session>,
    before: Map<u128, Session>,
    after: Map<u128, Session>,
    textures: Textures,
    textures_after: Textures,
    id: u128,
    other: u128,
)
    requires
        flutter_ffi::session_gone(r, before, after, textures, textures_after, id),
    ensures
        !after.dom().contains(id),
        !textures_after.leases@.dom().contains(id),
        r is Some <==> before.dom().contains(id),
        r matches Some(session) ==> flutter_session::closing(before[id], session),
        other != id && before.dom().contains(other) ==> after.dom().contains(other) && after[other]
            == before[other],
        other != id && textures.leases@.dom().contains(other) ==> textures_after.leases@.dom()
            .contains(other) && textures_after.leases@[other] == textures.leases@[other],
{
}

/// One goes on with a peer that is not verified by the letter for yes, large or small, and
/// by nothing else.
pub proof fn lemma_going_on(value: Seq<char>)
    ensures
        flutter_ffi::goes_on(value) <==> value == seq!['y'] || value == seq!['Y'],
{
    reveal_strlit("y");
    assert("y"@ =~= seq!['y']);
    let low = text::lowered(value);
    if flutter_ffi::goes_on(value) {
        assert(low.len() == 1 && low[0] == 'y');
        assert(text::ascii_lower(value[0]) == 'y');
        if value[0] as int == 89 {
            assert(value =~= seq!['Y']);
        } else {
            assert(value =~= seq!['y']);
        }
    }
    if value == seq!['y'] || value == seq!['Y'] {
        assert(low =~= "y"@);
    }
}

/// A coordinate that is not given is zero; one that is given counts where it is a whole
/// number.
pub proof fn lemma_coordinates(fields: Seq<json::FieldView>, key: Seq<char>)
    ensures
        json::field_of(fields, key) is None ==> flutter_input::coordinate_at_key(fields, key)
            == Some(0int),
        json::field_of(fields, key) matches Some(field) ==> flutter_input::coordinate_at_key(
            fields,
            key,
        ) == flutter_input::coordinate_in(Some(field)),
{
}

/// A viewer is started once the application has an identity, for a session that is there;
/// where it has to be asked for, the server has to be known by a key.
pub proof fn lemma_when_viewers_start(
    sessions: Map<u128, Session>,
    config: AppConfig,
    public: Seq<char>,
    id: u128,
)
    ensures
        ({
            let refusal = flutter_session::start_refusal(sessions, config, public, id);
            let session = sessions[id];
            let configured = entries::value_or_empty(config.options@, "key"@);
            let licence = if configured.len() > 0 {
                configured
            } else {
                public
            };
            let anchored = session.route is Rendezvous ==> (encoding::base64_bytes(licence)
                matches Some(b) && b.len() == 32);
            let known = config.id@.len() > 0;
            let there = sessions.dom().contains(id);
            let able = flutter_session::startable(session, config.id@);
            &&& refusal is None <==> known && there && (session.viewer is Some || anchored && able)
            &&& !known ==> refusal == Some("Runtime identity is unavailable"@)
            &&& known && !there ==> refusal == Some("Session not found"@)
            &&& known && there && session.viewer is None && !anchored ==> refusal == Some(
                "Configured rendezvous trust anchor is invalid"@,
            )
            &&& known && there && session.viewer is None && anchored && !able ==> refusal == Some(
                "Viewer could not start"@,
            )
        }),
{
}

/// A viewer can be started with a port where it connects directly, and with names and a
/// password that are not too long.
pub proof fn lemma_startable_sessions(session: Session, local_id: Seq<char>)
    ensures
        flutter_session::startable(session, local_id) <==> ({
            let name = match session.route {
                Route::Direct(to) => to.ip@,
                Route::Rendezvous(peer) => peer@,
            };
            let password = session.options.password@;
            &&& session.route matches Route::Direct(to) ==> to.port > 0
            &&& 1 <= vstd::utf8::encode_utf8(name).len() && vstd::utf8::encode_utf8(name).len()
                <= 512
            &&& 1 <= vstd::utf8::encode_utf8(local_id).len() && vstd::utf8::encode_utf8(
                local_id,
            ).len() <= 512
            &&& vstd::utf8::encode_utf8(password).len() <= 4096
        }),
{
}

/// Nothing of the password stays with a session that was to be started, and it has a viewer
/// exactly where that started.
pub proof fn lemma_sessions_after_a_start(before: Session, after: Session, started: bool)
    requires
        flutter_session::after_start(before, after, started),
    ensures
        after.options.password@.len() == 0,
        after.viewer is Some <==> started,
        after.route == before.route && after.events == before.events && after.pump == before.pump,
{
}

/// A session keeps its texture; a new one gets the next number, and the textures of the
/// others stay.
pub proof fn lemma_textures(
    before: Textures,
    after: Textures,
    id: u128,
    lease: TextureLease,
    other: u128,
)
    requires
        flutter_surface::leased(before, after, id, lease),
    ensures
        after.leases@.dom().contains(id) && after.leases@[id] == lease,
        before.leases@.dom().contains(id) ==> lease == before.leases@[id] && after == before,
        !before.leases@.dom().contains(id) ==> lease.texture_key == before.next,
        !before.leases@.dom().contains(id) && before.next < i32::MAX ==> after.next == before.next
            + 1,
        other != id && before.leases@.dom().contains(other) ==> after.leases@.dom().contains(other)
            && after.leases@[other] == before.leases@[other],
{
}

/// Of a peer that says nothing about itself nothing is told but the display that is seen.
pub proof fn lemma_silent_peers(s: viewer::ViewerSnapshotView)
    ensures
        (Report::Peer { peer: None, snapshot: s }).text() == flutter_session::enveloped(
            seq![
                ("name"@, "peer_info"@),
                ("username"@, Seq::empty()),
                ("hostname"@, Seq::empty()),
                ("platform"@, Seq::empty()),
                ("version"@, Seq::empty()),
                ("current_display"@, text::signed_decimal(0)),
                ("displays"@, flutter_session::displays_of(None, s.width, s.height)),
            ],
        ),
{
}

/// The pointer event that is described goes to the viewer of the session: its kind in the
/// last three bits, the buttons in the others.
pub proof fn lemma_described_pointers(
    viewer: Option<Viewer>,
    fields: Seq<json::FieldView>,
    queue: QueueState,
    kind: u32,
    buttons: u32,
)
    requires
        kind < 8,
        buttons < 0x1000,
    ensures
        flutter_input::described_event(fields) matches Some(event) ==> (event.mask == buttons * 8
            + kind ==> (viewer matches Some(v) ==> flutter_ffi::pointer_reply(viewer, fields, queue)
            == Some(viewer::mouse_result(v@, kind, buttons, event.x, event.y, queue)))),
        viewer is None ==> flutter_ffi::pointer_reply(viewer, fields, queue) is None,
        flutter_input::described_event(fields) is None ==> flutter_ffi::pointer_reply(
            viewer,
            fields,
            queue,
        ) is None,
{
}

/// No modifier is held where none is said to be.
pub proof fn lemma_no_modifiers()
    ensures
        flutter_ffi::no_modifiers().len() == 0,
{
}

/// A key reaches the viewer of a session where there is one and the key is known; else
/// nothing is sent.
pub proof fn lemma_keys_are_passed_on(
    r: Option<Result<Message, ViewerError>>,
    viewer: Option<Viewer>,
    key: Option<ViewerKey>,
    down: bool,
    press: bool,
    modifiers: Seq<ControlKey>,
    queue: QueueState,
)
    requires
        flutter_ffi::key_reply(r, viewer, key, down, press, modifiers, queue),
    ensures
        r is Some <==> viewer is Some && key is Some,
        r matches Some(answer) ==> viewer::key_answer(
            answer,
            viewer->0@,
            key->0,
            down,
            press,
            modifiers,
            queue,
        ),
{
}

} // verus!

//! What holds of the replies to the application, and of the host that it controls.
use vstd::prelude::*;
use crate::entries;
use crate::flutter_session;
use crate::flutter_state;
use crate::flutter_state::AppConfig;
use crate::frontend_laws;
use crate::har::capability;
use crate::har::capability::{AdvertisedCodec, CapabilityReport, CodecDirection, SizeEvidence};
use crate::har::compat;
use crate::har::controlled_host;
use crate::har::engine;
use crate::har::host_bridge;
use crate::har::session_compat;
use crate::har::session_compat::CompatSession;
use crate::host;
use crate::json;
use crate::message;
use crate::text;
use crate::viewer;

verus! {

/// A value that is put into an object is found under its key, and all others stay.
pub proof fn lemma_member(o: json::ObjectView, key: Seq<char>, value: Seq<char>)
    ensures
        forall|other: Seq<char>| #[trigger]
            entries::value_of(o.with(key, value).entries, other) == (if other == key {
                Some(value)
            } else {
                entries::value_of(o.entries, other)
            }),
{
    assert forall|other: Seq<char>| #[trigger]
        entries::value_of(o.with(key, value).entries, other) == (if other == key {
            Some(value)
        } else {
            entries::value_of(o.entries, other)
        }) by {
        entries::lemma_put_is_found(o.entries, key, value, other);
    }
}

/// What a viewer is seen to do stands in its report, each thing under its own name.
pub proof fn lemma_viewer_report(s: viewer::ViewerSnapshotView) -> (o: json::ObjectView)
    ensures
        engine::snapshot_json(s) == o.text(),
        entries::value_of(o.entries, "phase"@) == Some(json::json_string(s.phase)),
        entries::value_of(o.entries, "error"@) == Some(json::optional_string(s.error)),
        entries::value_of(o.entries, "width"@) == Some(text::signed_decimal(s.width as int)),
        entries::value_of(o.entries, "height"@) == Some(text::signed_decimal(s.height as int)),
        entries::value_of(o.entries, "codec"@) == Some(json::json_string(s.codec)),
        entries::value_of(o.entries, "route"@) == Some(json::json_string(s.route)),
        entries::value_of(o.entries, "received_units"@)
            == Some(text::decimal(s.received_units as nat)),
        entries::value_of(o.entries, "pushed_units"@) == Some(text::decimal(s.pushed_units as nat)),
        entries::value_of(o.entries, "render_submissions"@)
            == Some(text::decimal(s.render_submissions as nat)),
        entries::value_of(o.entries, "keyboard_allowed"@) == Some(text::truth(s.keyboard_allowed)),
        entries::value_of(o.entries, "closed"@) == Some(text::truth(s.closed)),
        entries::value_of(o.entries, "encrypted"@) == Some(text::truth(s.encrypted)),
        entries::value_of(o.entries, "peer_verified"@) == Some(text::truth(s.peer_verified)),
{
    reveal_strlit("phase");
    reveal_strlit("error");
    reveal_strlit("width");
    reveal_strlit("height");
    reveal_strlit("codec");
    reveal_strlit("route");
    reveal_strlit("received_units");
    reveal_strlit("pushed_units");
    reveal_strlit("render_submissions");
    reveal_strlit("keyboard_allowed");
    reveal_strlit("closed");
    reveal_strlit("encrypted");
    reveal_strlit("peer_verified");
    assert("phase"@.len() == 5 && "phase"@[0] == 'p');
    assert("error"@.len() == 5 && "error"@[0] == 'e');
    assert("width"@.len() == 5 && "width"@[0] == 'w');
    assert("height"@.len() == 6 && "height"@[0] == 'h');
    assert("codec"@.len() == 5 && "codec"@[0] == 'c');
    assert("route"@.len() == 5 && "route"@[0] == 'r');
    assert("received_units"@.len() == 14 && "received_units"@[0] == 'r');
    assert("pushed_units"@.len() == 12 && "pushed_units"@[0] == 'p');
    assert("render_submissions"@.len() == 18 && "render_submissions"@[0] == 'r');
    assert("keyboard_allowed"@.len() == 16 && "keyboard_allowed"@[0] == 'k');
    assert("closed"@.len() == 6 && "closed"@[0] == 'c');
    assert("encrypted"@.len() == 9 && "encrypted"@[0] == 'e');
    assert("peer_verified"@.len() == 13 && "peer_verified"@[0] == 'p');
    let empty = json::ObjectView::empty();
    lemma_member(empty, "phase"@, json::json_string(s.phase));
    let o0 = empty.with("phase"@, json::json_string(s.phase));
    lemma_member(o0, "error"@, json::optional_string(s.error));
    let o1 = o0.with("error"@, json::optional_string(s.error));
    lemma_member(o1, "width"@, text::signed_decimal(s.width as int));
    let o2 = o1.with("width"@, text::signed_decimal(s.width as int));
    lemma_member(o2, "height"@, text::signed_decimal(s.height as int));
    let o3 = o2.with("height"@, text::signed_decimal(s.height as int));
    lemma_member(o3, "codec"@, json::json_string(s.codec));
    let o4 = o3.with("codec"@, json::json_string(s.codec));
    lemma_member(o4, "route"@, json::json_string(s.route));
    let o5 = o4.with("route"@, json::json_string(s.route));
    lemma_member(o5, "received_units"@, text::decimal(s.received_units as nat));
    let o6 = o5.with("received_units"@, text::decimal(s.received_units as nat));
    lemma_member(o6, "pushed_units"@, text::decimal(s.pushed_units as nat));
    let o7 = o6.with("pushed_units"@, text::decimal(s.pushed_units as nat));
    lemma_member(o7, "render_submissions"@, text::decimal(s.render_submissions as nat));
    let o8 = o7.with("render_submissions"@, text::decimal(s.render_submissions as nat));
    lemma_member(o8, "keyboard_allowed"@, text::truth(s.keyboard_allowed));
    let o9 = o8.with("keyboard_allowed"@, text::truth(s.keyboard_allowed));
    lemma_member(o9, "closed"@, text::truth(s.closed));
    let o10 = o9.with("closed"@, text::truth(s.closed));
    lemma_member(o10, "encrypted"@, text::truth(s.encrypted));
    let o11 = o10.with("encrypted"@, text::truth(s.encrypted));
    lemma_member(o11, "peer_verified"@, text::truth(s.peer_verified));
    let o12 = o11.with("peer_verified"@, text::truth(s.peer_verified));
    o12
}

/// What a host is seen to do stands in its report, each thing under its own name.
pub proof fn lemma_host_report(s: host::HostSnapshotView) -> (o: json::ObjectView)
    ensures
        host_bridge::host_json(s) == o.text(),
        entries::value_of(o.entries, "phase"@) == Some(json::json_string(s.phase)),
        s.error is None
            ==> entries::value_of(o.entries, "error"@) == Some(json::optional_string(None)),
        s.error matches Some(why) ==> entries::value_of(o.entries, "error"@) == Some(
            json::optional_string(Some(why.shown())),
        ),
        entries::value_of(o.entries, "approval_request"@)
            == Some(json::json_string(s.approval_request)),
        entries::value_of(o.entries, "approval_origin"@)
            == Some(json::json_string(s.approval_origin)),
        entries::value_of(o.entries, "width"@) == Some(text::signed_decimal(s.width as int)),
        entries::value_of(o.entries, "height"@) == Some(text::signed_decimal(s.height as int)),
        entries::value_of(o.entries, "fps"@) == Some(text::decimal(s.fps as nat)),
        entries::value_of(o.entries, "codec"@) == Some(json::json_string(s.codec)),
        entries::value_of(o.entries, "connected"@) == Some(text::truth(s.connected)),
        entries::value_of(o.entries, "encrypted"@) == Some(text::truth(s.encrypted)),
        entries::value_of(o.entries, "sent_units"@) == Some(text::decimal(s.sent_units as nat)),
        entries::value_of(o.entries, "sent_bytes"@) == Some(text::decimal(s.sent_bytes as nat)),
        entries::value_of(o.entries, "closed"@) == Some(text::truth(s.closed)),
{
    let why = match s.error {
        Some(error) => Some(error.shown()),
        None => None,
    };
    reveal_strlit("phase");
    reveal_strlit("error");
    reveal_strlit("approval_request");
    reveal_strlit("approval_origin");
    reveal_strlit("width");
    reveal_strlit("height");
    reveal_strlit("fps");
    reveal_strlit("codec");
    reveal_strlit("connected");
    reveal_strlit("encrypted");
    reveal_strlit("sent_units");
    reveal_strlit("sent_bytes");
    reveal_strlit("closed");
    assert("phase"@.len() == 5 && "phase"@[0] == 'p');
    assert("error"@.len() == 5 && "error"@[0] == 'e');
    assert("approval_request"@.len() == 16 && "approval_request"@[0] == 'a');
    assert("approval_origin"@.len() == 15 && "approval_origin"@[0] == 'a');
    assert("width"@.len() == 5 && "width"@[0] == 'w');
    assert("height"@.len() == 6 && "height"@[0] == 'h');
    assert("fps"@.len() == 3 && "fps"@[0] == 'f');
    assert("codec"@.len() == 5 && "codec"@[0] == 'c');
    assert("connected"@.len() == 9 && "connected"@[0] == 'c');
    assert("encrypted"@.len() == 9 && "encrypted"@[0] == 'e');
    assert("sent_units"@.len() == 10 && "sent_units"@[0] == 's' && "sent_units"@[5] == 'u');
    assert("sent_bytes"@.len() == 10 && "sent_bytes"@[0] == 's' && "sent_bytes"@[5] == 'b');
    assert("closed"@.len() == 6 && "closed"@[0] == 'c');
    let empty = json::ObjectView::empty();
    lemma_member(empty, "phase"@, json::json_string(s.phase));
    let o0 = empty.with("phase"@, json::json_string(s.phase));
    lemma_member(o0, "error"@, json::optional_string(why));
    let o1 = o0.with("error"@, json::optional_string(why));
    lemma_member(o1, "approval_request"@, json::json_string(s.approval_request));
    let o2 = o1.with("approval_request"@, json::json_string(s.approval_request));
    lemma_member(o2, "approval_origin"@, json::json_string(s.approval_origin));
    let o3 = o2.with("approval_origin"@, json::json_string(s.approval_origin));
    lemma_member(o3, "width"@, text::signed_decimal(s.width as int));
    let o4 = o3.with("width"@, text::signed_decimal(s.width as int));
    lemma_member(o4, "height"@, text::signed_decimal(s.height as int));
    let o5 = o4.with("height"@, text::signed_decimal(s.height as int));
    lemma_member(o5, "fps"@, text::decimal(s.fps as nat));
    let o6 = o5.with("fps"@, text::decimal(s.fps as nat));
    lemma_member(o6, "codec"@, json::json_string(s.codec));
    let o7 = o6.with("codec"@, json::json_string(s.codec));
    lemma_member(o7, "connected"@, text::truth(s.connected));
    let o8 = o7.with("connected"@, text::truth(s.connected));
    lemma_member(o8, "encrypted"@, text::truth(s.encrypted));
    let o9 = o8.with("encrypted"@, text::truth(s.encrypted));
    lemma_member(o9, "sent_units"@, text::decimal(s.sent_units as nat));
    let o10 = o9.with("sent_units"@, text::decimal(s.sent_units as nat));
    lemma_member(o10, "sent_bytes"@, text::decimal(s.sent_bytes as nat));
    let o11 = o10.with("sent_bytes"@, text::decimal(s.sent_bytes as nat));
    lemma_member(o11, "closed"@, text::truth(s.closed));
    let o12 = o11.with("closed"@, text::truth(s.closed));
    o12
}

/// A session is shown with its identifiers, its phase, its target and whether it only watches.
pub proof fn lemma_session_report(session: CompatSession) -> (o: json::ObjectView)
    ensures
        session_compat::session_json(session) == o.text(),
        entries::value_of(o.entries, "sessionId"@) == Some(json::json_string(session.id@)),
        entries::value_of(o.entries, "coreSessionId"@)
            == Some(json::json_string("enhanced:"@ + session.id@)),
        entries::value_of(o.entries, "phase"@)
            == Some(json::json_string(session_compat::shown_phase(session))),
        entries::value_of(o.entries, "peerTarget"@) == Some(json::json_string(session.target@)),
        entries::value_of(o.entries, "viewOnly"@) == Some(text::truth(session.view_only)),
{
    reveal_strlit("sessionId");
    reveal_strlit("coreSessionId");
    reveal_strlit("phase");
    reveal_strlit("peerTarget");
    reveal_strlit("viewOnly");
    assert("sessionId"@.len() == 9 && "sessionId"@[0] == 's');
    assert("coreSessionId"@.len() == 13 && "coreSessionId"@[0] == 'c');
    assert("phase"@.len() == 5 && "phase"@[0] == 'p');
    assert("peerTarget"@.len() == 10 && "peerTarget"@[0] == 'p');
    assert("viewOnly"@.len() == 8 && "viewOnly"@[0] == 'v');
    let empty = json::ObjectView::empty();
    lemma_member(empty, "sessionId"@, json::json_string(session.id@));
    let o0 = empty.with("sessionId"@, json::json_string(session.id@));
    lemma_member(o0, "coreSessionId"@, json::json_string("enhanced:"@ + session.id@));
    let o1 = o0.with("coreSessionId"@, json::json_string("enhanced:"@ + session.id@));
    lemma_member(o1, "phase"@, json::json_string(session_compat::shown_phase(session)));
    let o2 = o1.with("phase"@, json::json_string(session_compat::shown_phase(session)));
    lemma_member(o2, "peerTarget"@, json::json_string(session.target@));
    let o3 = o2.with("peerTarget"@, json::json_string(session.target@));
    lemma_member(o3, "viewOnly"@, text::truth(session.view_only));
    let o4 = o3.with("viewOnly"@, text::truth(session.view_only));
    o4
}

/// A session shows the phase of its viewer where it has one, and else its own.
pub proof fn lemma_shown_phases(session: CompatSession)
    ensures
        session.viewer matches Some(v) ==> session_compat::shown_phase(session) == v@.seen().phase,
        session.viewer is None ==> session_compat::shown_phase(session) == session.phase@,
{
}

/// A reply names what was asked for, says whether it was done, and shows the session
/// where there is one.
pub proof fn lemma_session_replies(
    name: Seq<char>,
    ok: bool,
    message: Seq<char>,
    session: Option<CompatSession>,
) -> (o: json::ObjectView)
    ensures
        session_compat::reply(name, ok, message, session) == o.text(),
        ok ==> entries::value_of(o.entries, "ok"@) == Some("true"@),
        !ok ==> entries::value_of(o.entries, "ok"@) == Some("false"@),
        entries::value_of(o.entries, "action"@) == Some(json::json_string(name)),
        entries::value_of(o.entries, "message"@) == Some(json::json_string(message)),
        session is None ==> entries::value_of(o.entries, "session"@) == Some("null"@),
        session matches Some(s) ==> entries::value_of(o.entries, "session"@) == Some(
            session_compat::session_json(s),
        ),
{
    let shown = match session {
        Some(s) => session_compat::session_json(s),
        None => "null"@,
    };
    reveal_strlit("ok");
    reveal_strlit("action");
    reveal_strlit("message");
    reveal_strlit("session");
    assert("ok"@.len() == 2 && "ok"@[0] == 'o');
    assert("action"@.len() == 6 && "action"@[0] == 'a');
    assert("message"@.len() == 7 && "message"@[0] == 'm');
    assert("session"@.len() == 7 && "session"@[0] == 's');
    let empty = json::ObjectView::empty();
    lemma_member(empty, "ok"@, text::truth(ok));
    let o0 = empty.with("ok"@, text::truth(ok));
    lemma_member(o0, "action"@, json::json_string(name));
    let o1 = o0.with("action"@, json::json_string(name));
    lemma_member(o1, "message"@, json::json_string(message));
    let o2 = o1.with("message"@, json::json_string(message));
    lemma_member(o2, "session"@, shown);
    let o3 = o2.with("session"@, shown);
    o3
}

/// A short reply says whether something was done, and a text.
pub proof fn lemma_short_replies(ok: bool, message: Seq<char>) -> (o: json::ObjectView)
    ensures
        compat::reply(ok, message) == o.text(),
        ok ==> entries::value_of(o.entries, "ok"@) == Some("true"@),
        !ok ==> entries::value_of(o.entries, "ok"@) == Some("false"@),
        entries::value_of(o.entries, "message"@) == Some(json::json_string(message)),
{
    reveal_strlit("ok");
    reveal_strlit("message");
    assert("ok"@.len() == 2 && "ok"@[0] == 'o');
    assert("message"@.len() == 7 && "message"@[0] == 'm');
    let empty = json::ObjectView::empty();
    lemma_member(empty, "ok"@, text::truth(ok));
    let o0 = empty.with("ok"@, text::truth(ok));
    lemma_member(o0, "message"@, json::json_string(message));
    let o1 = o0.with("message"@, json::json_string(message));
    o1
}

/// The state of a host: ready while it listens and disabled else, with the peer that is
/// connected counted; how it ended is an error of the host only where it does not listen any
/// more.
pub proof fn lemma_host_state(
    snapshot: Option<host::HostSnapshotView>,
    id: Seq<char>,
) -> (o: json::ObjectView)
    ensures
        controlled_host::status_json(snapshot, id) == o.text(),
        entries::value_of(o.entries, "myId"@) == Some(json::json_string(id)),
        controlled_host::listening(snapshot)
            ==> entries::value_of(o.entries, "state"@) == Some(json::json_string("ready"@)),
        !controlled_host::listening(snapshot)
            ==> entries::value_of(o.entries, "state"@) == Some(json::json_string("disabled"@)),
        controlled_host::listening(snapshot)
            ==> entries::value_of(o.entries, "serverRunning"@) == Some("true"@),
        !controlled_host::listening(snapshot)
            ==> entries::value_of(o.entries, "serverRunning"@) == Some("false"@),
        (snapshot matches Some(s) && s.connected)
            ==> entries::value_of(o.entries, "clientCount"@) == Some(text::decimal(1)),
        !(snapshot matches Some(s) && s.connected)
            ==> entries::value_of(o.entries, "clientCount"@) == Some(text::decimal(0)),
        controlled_host::listening(snapshot)
            ==> entries::value_of(o.entries, "lastError"@) == Some(json::json_string(Seq::empty())),
        !controlled_host::listening(snapshot)
            ==> entries::value_of(o.entries, "sessionOutcome"@)
            == Some(json::json_string(Seq::empty())),
        snapshot matches Some(s) ==> (s.error matches Some(why) ==> (if controlled_host::listening(
            snapshot,
        ) {
            entries::value_of(o.entries, "sessionOutcome"@) == Some(
                json::json_string(why.shown()),
            )
        } else {
            entries::value_of(o.entries, "lastError"@) == Some(json::json_string(why.shown()))
        })),
        (snapshot matches Some(s) ==> s.error is None) ==> entries::value_of(
            o.entries,
            "lastError"@,
        ) == Some(json::json_string(Seq::empty())),
        entries::value_of(o.entries, "temporaryPassword"@) == Some(json::json_string(Seq::empty())),
{
    let running = controlled_host::listening(snapshot);
    let connected = snapshot matches Some(s) && s.connected;
    let reported = controlled_host::shown_error(snapshot);
    let state = json::json_string(
        if running {
            "ready"@
        } else {
            "disabled"@
        },
    );
    let count = text::decimal(
        if connected {
            1
        } else {
            0
        },
    );
    let last = json::json_string(
        if running {
            Seq::empty()
        } else {
            reported
        },
    );
    let outcome = json::json_string(
        if running {
            reported
        } else {
            Seq::empty()
        },
    );
    let message = json::json_string(
        if running {
            "引擎 host 已在本机监听，连接需要本地点按确认"@
        } else {
            "被看服务未运行"@
        },
    );
    reveal_strlit("ok");
    reveal_strlit("state");
    reveal_strlit("serverRunning");
    reveal_strlit("myId");
    reveal_strlit("temporaryPassword");
    reveal_strlit("clientCount");
    reveal_strlit("lastError");
    reveal_strlit("sessionOutcome");
    reveal_strlit("message");
    assert("ok"@.len() == 2 && "ok"@[0] == 'o');
    assert("state"@.len() == 5 && "state"@[0] == 's');
    assert("serverRunning"@.len() == 13 && "serverRunning"@[0] == 's');
    assert("myId"@.len() == 4 && "myId"@[0] == 'm');
    assert("temporaryPassword"@.len() == 17 && "temporaryPassword"@[0] == 't');
    assert("clientCount"@.len() == 11 && "clientCount"@[0] == 'c');
    assert("lastError"@.len() == 9 && "lastError"@[0] == 'l');
    assert("sessionOutcome"@.len() == 14 && "sessionOutcome"@[0] == 's');
    assert("message"@.len() == 7 && "message"@[0] == 'm');
    let empty = json::ObjectView::empty();
    lemma_member(empty, "ok"@, text::truth(true));
    let o0 = empty.with("ok"@, text::truth(true));
    lemma_member(o0, "state"@, state);
    let o1 = o0.with("state"@, state);
    lemma_member(o1, "serverRunning"@, text::truth(running));
    let o2 = o1.with("serverRunning"@, text::truth(running));
    lemma_member(o2, "myId"@, json::json_string(id));
    let o3 = o2.with("myId"@, json::json_string(id));
    lemma_member(o3, "temporaryPassword"@, json::json_string(Seq::empty()));
    let o4 = o3.with("temporaryPassword"@, json::json_string(Seq::empty()));
    lemma_member(o4, "clientCount"@, count);
    let o5 = o4.with("clientCount"@, count);
    lemma_member(o5, "lastError"@, last);
    let o6 = o5.with("lastError"@, last);
    lemma_member(o6, "sessionOutcome"@, outcome);
    let o7 = o6.with("sessionOutcome"@, outcome);
    lemma_member(o7, "message"@, message);
    let o8 = o7.with("message"@, message);
    o8
}

/// The screen is captured as long as the host listens, and the frames are those that were
/// sent.
pub proof fn lemma_capture_state(snapshot: Option<host::HostSnapshotView>) -> (o: json::ObjectView)
    ensures
        controlled_host::capture_json(snapshot) == o.text(),
        controlled_host::listening(snapshot)
            ==> entries::value_of(o.entries, "active"@) == Some("true"@),
        !controlled_host::listening(snapshot)
            ==> entries::value_of(o.entries, "active"@) == Some("false"@),
        controlled_host::listening(snapshot)
            ==> entries::value_of(o.entries, "systemCaptureConfirmed"@) == Some("true"@),
        !controlled_host::listening(snapshot)
            ==> entries::value_of(o.entries, "systemCaptureConfirmed"@) == Some("false"@),
        controlled_host::listening(snapshot)
            ==> entries::value_of(o.entries, "nativeStateCode"@) == Some(text::decimal(0)),
        !controlled_host::listening(snapshot)
            ==> entries::value_of(o.entries, "nativeStateCode"@) == Some(text::decimal(1)),
        snapshot matches Some(s) ==> entries::value_of(o.entries, "framesObserved"@) == Some(
            text::decimal(s.sent_units as nat),
        ),
        snapshot is None
            ==> entries::value_of(o.entries, "framesObserved"@) == Some(text::decimal(0)),
        entries::value_of(o.entries, "audioFramesObserved"@) == Some(text::decimal(0)),
        entries::value_of(o.entries, "audioFramesForwarded"@) == Some(text::decimal(0)),
{
    let running = controlled_host::listening(snapshot);
    let frames = match snapshot {
        Some(s) => s.sent_units as nat,
        None => 0,
    };
    let code = text::decimal(
        if running {
            0
        } else {
            1
        },
    );
    let message = json::json_string(
        if running {
            "引擎 host 正在采集屏幕"@
        } else {
            "屏幕采集未运行"@
        },
    );
    reveal_strlit("ok");
    reveal_strlit("active");
    reveal_strlit("nativeStateCode");
    reveal_strlit("systemCaptureConfirmed");
    reveal_strlit("framesObserved");
    reveal_strlit("audioFramesObserved");
    reveal_strlit("audioFramesForwarded");
    reveal_strlit("message");
    assert("ok"@.len() == 2 && "ok"@[0] == 'o');
    assert("active"@.len() == 6 && "active"@[0] == 'a');
    assert("nativeStateCode"@.len() == 15 && "nativeStateCode"@[0] == 'n');
    assert("systemCaptureConfirmed"@.len() == 22 && "systemCaptureConfirmed"@[0] == 's');
    assert("framesObserved"@.len() == 14 && "framesObserved"@[0] == 'f');
    assert("audioFramesObserved"@.len() == 19 && "audioFramesObserved"@[0] == 'a');
    assert("audioFramesForwarded"@.len() == 20 && "audioFramesForwarded"@[0] == 'a');
    assert("message"@.len() == 7 && "message"@[0] == 'm');
    let empty = json::ObjectView::empty();
    lemma_member(empty, "ok"@, text::truth(true));
    let o0 = empty.with("ok"@, text::truth(true));
    lemma_member(o0, "active"@, text::truth(running));
    let o1 = o0.with("active"@, text::truth(running));
    lemma_member(o1, "nativeStateCode"@, code);
    let o2 = o1.with("nativeStateCode"@, code);
    lemma_member(o2, "systemCaptureConfirmed"@, text::truth(running));
    let o3 = o2.with("systemCaptureConfirmed"@, text::truth(running));
    lemma_member(o3, "framesObserved"@, text::decimal(frames));
    let o4 = o3.with("framesObserved"@, text::decimal(frames));
    lemma_member(o4, "audioFramesObserved"@, text::decimal(0));
    let o5 = o4.with("audioFramesObserved"@, text::decimal(0));
    lemma_member(o5, "audioFramesForwarded"@, text::decimal(0));
    let o6 = o5.with("audioFramesForwarded"@, text::decimal(0));
    lemma_member(o6, "message"@, message);
    let o7 = o6.with("message"@, message);
    o7
}

/// A peer is shown with its request, its number, its name and whether it was let in.
pub proof fn lemma_peer_report(
    request: Seq<char>,
    peer: Seq<char>,
    name: Seq<char>,
    authorized: bool,
) -> (o: json::ObjectView)
    ensures
        controlled_host::client_json(request, peer, name, authorized) == o.text(),
        entries::value_of(o.entries, "requestId"@) == Some(json::json_string(request)),
        entries::value_of(o.entries, "peerId"@) == Some(json::json_string(peer)),
        entries::value_of(o.entries, "peerName"@) == Some(json::json_string(name)),
        entries::value_of(o.entries, "authorized"@) == Some(text::truth(authorized)),
{
    reveal_strlit("requestId");
    reveal_strlit("peerId");
    reveal_strlit("peerName");
    reveal_strlit("authorized");
    assert("requestId"@.len() == 9 && "requestId"@[0] == 'r');
    assert("peerId"@.len() == 6 && "peerId"@[0] == 'p');
    assert("peerName"@.len() == 8 && "peerName"@[0] == 'p');
    assert("authorized"@.len() == 10 && "authorized"@[0] == 'a');
    let empty = json::ObjectView::empty();
    lemma_member(empty, "requestId"@, json::json_string(request));
    let o0 = empty.with("requestId"@, json::json_string(request));
    lemma_member(o0, "peerId"@, json::json_string(peer));
    let o1 = o0.with("peerId"@, json::json_string(peer));
    lemma_member(o1, "peerName"@, json::json_string(name));
    let o2 = o1.with("peerName"@, json::json_string(name));
    lemma_member(o2, "authorized"@, text::truth(authorized));
    let o3 = o2.with("authorized"@, text::truth(authorized));
    o3
}

/// The passwords are shown with the temporary one, whether there is a permanent one, and which
/// of them count: both, where nothing else was chosen.
pub proof fn lemma_password_report(p: controlled_host::Passwords) -> (o: json::ObjectView)
    ensures
        controlled_host::passwords_json(p) == o.text(),
        entries::value_of(o.entries, "temporaryPassword"@) == Some(json::json_string(p.temporary@)),
        p.method@.len() > 0
            ==> entries::value_of(o.entries, "verificationMethod"@)
            == Some(json::json_string(p.method@)),
        p.method@.len() == 0
            ==> entries::value_of(o.entries, "verificationMethod"@)
            == Some(json::json_string("use-both-passwords"@)),
        entries::value_of(o.entries, "permanentPasswordSet"@) == Some(text::truth(p.permanent_set)),
        entries::value_of(o.entries, "maxPasswordLength"@) == Some(text::decimal(128)),
        entries::value_of(o.entries, "permanentPasswordChangeDisabled"@) == Some("false"@),
        entries::value_of(o.entries, "verificationMethodFixed"@) == Some("false"@),
{
    let method = json::json_string(
        if p.method@.len() == 0 {
            "use-both-passwords"@
        } else {
            p.method@
        },
    );
    reveal_strlit("ok");
    reveal_strlit("temporaryPassword");
    reveal_strlit("verificationMethod");
    reveal_strlit("permanentPasswordSet");
    reveal_strlit("localPermanentPasswordSet");
    reveal_strlit("verificationMethodFixed");
    reveal_strlit("permanentPasswordChangeDisabled");
    reveal_strlit("maxPasswordLength");
    reveal_strlit("message");
    assert("ok"@.len() == 2 && "ok"@[0] == 'o');
    assert("temporaryPassword"@.len() == 17 && "temporaryPassword"@[0] == 't');
    assert("verificationMethod"@.len() == 18 && "verificationMethod"@[0] == 'v');
    assert("permanentPasswordSet"@.len() == 20 && "permanentPasswordSet"@[0] == 'p');
    assert("localPermanentPasswordSet"@.len() == 25 && "localPermanentPasswordSet"@[0] == 'l');
    assert("verificationMethodFixed"@.len() == 23 && "verificationMethodFixed"@[0] == 'v');
    assert("permanentPasswordChangeDisabled"@.len() == 31
        && "permanentPasswordChangeDisabled"@[0] == 'p');
    assert("maxPasswordLength"@.len() == 17 && "maxPasswordLength"@[0] == 'm');
    assert("message"@.len() == 7 && "message"@[0] == 'm');
    let empty = json::ObjectView::empty();
    lemma_member(empty, "ok"@, text::truth(true));
    let o0 = empty.with("ok"@, text::truth(true));
    lemma_member(o0, "temporaryPassword"@, json::json_string(p.temporary@));
    let o1 = o0.with("temporaryPassword"@, json::json_string(p.temporary@));
    lemma_member(o1, "verificationMethod"@, method);
    let o2 = o1.with("verificationMethod"@, method);
    lemma_member(o2, "permanentPasswordSet"@, text::truth(p.permanent_set));
    let o3 = o2.with("permanentPasswordSet"@, text::truth(p.permanent_set));
    lemma_member(o3, "localPermanentPasswordSet"@, text::truth(false));
    let o4 = o3.with("localPermanentPasswordSet"@, text::truth(false));
    lemma_member(o4, "verificationMethodFixed"@, text::truth(false));
    let o5 = o4.with("verificationMethodFixed"@, text::truth(false));
    lemma_member(o5, "permanentPasswordChangeDisabled"@, text::truth(false));
    let o6 = o5.with("permanentPasswordChangeDisabled"@, text::truth(false));
    lemma_member(o6, "maxPasswordLength"@, text::decimal(128));
    let o7 = o6.with("maxPasswordLength"@, text::decimal(128));
    lemma_member(o7, "message"@, json::json_string("临时密码由本机生成，客户端输入即可连接"@));
    let o8 = o7.with("message"@, json::json_string("临时密码由本机生成，客户端输入即可连接"@));
    o8
}

/// The servers are those of the configuration; they are the official ones exactly where no
/// other rendezvous server was set.
pub proof fn lemma_server_report(config: AppConfig) -> (o: json::ObjectView)
    ensures
        compat::servers_json(config) == o.text(),
        entries::value_of(o.entries, "idServer"@)
            == Some(json::json_string(config.rendezvous_server@)),
        entries::value_of(o.entries, "relayServer"@)
            == Some(json::json_string(compat::option_of(config, "relay-server"@))),
        entries::value_of(o.entries, "apiServer"@)
            == Some(json::json_string(compat::option_of(config, "api-server"@))),
        entries::value_of(o.entries, "effectiveApiServer"@)
            == Some(json::json_string(compat::option_of(config, "api-server"@))),
        entries::value_of(o.entries, "key"@)
            == Some(json::json_string(compat::option_of(config, "key"@))),
        compat::option_of(config, "custom-rendezvous-server"@).len() > 0
            ==> entries::value_of(o.entries, "mode"@) == Some(json::json_string("custom"@)),
        !(compat::option_of(config, "custom-rendezvous-server"@).len() > 0)
            ==> entries::value_of(o.entries, "mode"@) == Some(json::json_string("official"@)),
        compat::option_of(config, "custom-rendezvous-server"@).len() > 0
            ==> entries::value_of(o.entries, "usingPublicServer"@) == Some("false"@),
        !(compat::option_of(config, "custom-rendezvous-server"@).len() > 0)
            ==> entries::value_of(o.entries, "usingPublicServer"@) == Some("true"@),
        entries::value_of(o.entries, "remoteReachable"@) == Some("false"@),
{
    let custom = compat::option_of(config, "custom-rendezvous-server"@).len() > 0;
    let mode = json::json_string(
        if custom {
            "custom"@
        } else {
            "official"@
        },
    );
    reveal_strlit("idServer");
    reveal_strlit("relayServer");
    reveal_strlit("apiServer");
    reveal_strlit("effectiveApiServer");
    reveal_strlit("key");
    reveal_strlit("mode");
    reveal_strlit("usingPublicServer");
    reveal_strlit("remoteReachable");
    reveal_strlit("accountAvailable");
    reveal_strlit("resultState");
    reveal_strlit("message");
    reveal_strlit("idServerTestState");
    reveal_strlit("relayServerTestState");
    reveal_strlit("apiServerTestState");
    assert("idServer"@.len() == 8 && "idServer"@[0] == 'i');
    assert("relayServer"@.len() == 11 && "relayServer"@[0] == 'r' && "relayServer"@[2] == 'l');
    assert("apiServer"@.len() == 9 && "apiServer"@[0] == 'a');
    assert("effectiveApiServer"@.len() == 18 && "effectiveApiServer"@[0] == 'e');
    assert("key"@.len() == 3 && "key"@[0] == 'k');
    assert("mode"@.len() == 4 && "mode"@[0] == 'm');
    assert("usingPublicServer"@.len() == 17 && "usingPublicServer"@[0] == 'u');
    assert("remoteReachable"@.len() == 15 && "remoteReachable"@[0] == 'r');
    assert("accountAvailable"@.len() == 16 && "accountAvailable"@[0] == 'a');
    assert("resultState"@.len() == 11 && "resultState"@[0] == 'r' && "resultState"@[2] == 's');
    assert("message"@.len() == 7 && "message"@[0] == 'm');
    assert("idServerTestState"@.len() == 17 && "idServerTestState"@[0] == 'i');
    assert("relayServerTestState"@.len() == 20 && "relayServerTestState"@[0] == 'r');
    assert("apiServerTestState"@.len() == 18 && "apiServerTestState"@[0] == 'a');
    let empty = json::ObjectView::empty();
    lemma_member(empty, "idServer"@, json::json_string(config.rendezvous_server@));
    let o0 = empty.with("idServer"@, json::json_string(config.rendezvous_server@));
    lemma_member(o0, "relayServer"@, json::json_string(compat::option_of(config, "relay-server"@)));
    let o1 = o0.with("relayServer"@, json::json_string(compat::option_of(config, "relay-server"@)));
    lemma_member(o1, "apiServer"@, json::json_string(compat::option_of(config, "api-server"@)));
    let o2 = o1.with("apiServer"@, json::json_string(compat::option_of(config, "api-server"@)));
    lemma_member(o2, "effectiveApiServer"@, json::json_string(compat::option_of(config, "api-server"@)));
    let o3 = o2.with("effectiveApiServer"@, json::json_string(compat::option_of(config, "api-server"@)));
    lemma_member(o3, "key"@, json::json_string(compat::option_of(config, "key"@)));
    let o4 = o3.with("key"@, json::json_string(compat::option_of(config, "key"@)));
    lemma_member(o4, "mode"@, mode);
    let o5 = o4.with("mode"@, mode);
    lemma_member(o5, "usingPublicServer"@, text::truth(!custom));
    let o6 = o5.with("usingPublicServer"@, text::truth(!custom));
    lemma_member(o6, "remoteReachable"@, text::truth(false));
    let o7 = o6.with("remoteReachable"@, text::truth(false));
    lemma_member(o7, "accountAvailable"@, text::truth(false));
    let o8 = o7.with("accountAvailable"@, text::truth(false));
    lemma_member(o8, "resultState"@, json::json_string("idle"@));
    let o9 = o8.with("resultState"@, json::json_string("idle"@));
    lemma_member(o9, "message"@, json::json_string(Seq::empty()));
    let o10 = o9.with("message"@, json::json_string(Seq::empty()));
    lemma_member(o10, "idServerTestState"@, json::json_string("untested"@));
    let o11 = o10.with("idServerTestState"@, json::json_string("untested"@));
    lemma_member(o11, "relayServerTestState"@, json::json_string("untested"@));
    let o12 = o11.with("relayServerTestState"@, json::json_string("untested"@));
    lemma_member(o12, "apiServerTestState"@, json::json_string("untested"@));
    let o13 = o12.with("apiServerTestState"@, json::json_string("untested"@));
    o13
}

/// A decoder is there where the platform names one that is in hardware; where the platform
/// says why it names none, that is told.
pub proof fn lemma_decoder_report(
    codec: Seq<char>,
    mime: Seq<char>,
    result: Result<AdvertisedCodec, String>,
) -> (o: json::ObjectView)
    ensures
        compat::decoder_reply(codec, mime, result) == o.text(),
        entries::value_of(o.entries, "codec"@) == Some(json::json_string(codec)),
        entries::value_of(o.entries, "mime"@) == Some(json::json_string(mime)),
        (result matches Ok(c) && c.hardware && c.codec_name@.len() > 0)
            ==> entries::value_of(o.entries, "hardwareAvailable"@) == Some("true"@),
        !(result matches Ok(c) && c.hardware && c.codec_name@.len() > 0)
            ==> entries::value_of(o.entries, "hardwareAvailable"@) == Some("false"@),
        (result matches Ok(c) && c.hardware && c.codec_name@.len() > 0)
            ==> entries::value_of(o.entries, "recommendedAvailable"@) == Some("true"@),
        !(result matches Ok(c) && c.hardware && c.codec_name@.len() > 0)
            ==> entries::value_of(o.entries, "recommendedAvailable"@) == Some("false"@),
        result matches Ok(c) ==> entries::value_of(o.entries, "hardwareName"@) == Some(
            json::json_string(c.codec_name@),
        ),
        result is Err ==> entries::value_of(o.entries, "hardwareName"@) == Some(
            json::json_string(Seq::empty()),
        ),
        result matches Err(e) ==> entries::value_of(o.entries, "error"@) == Some(
            json::json_string(e@),
        ),
        result is Ok ==> entries::value_of(o.entries, "error"@) is None,
        entries::value_of(o.entries, "softwareAvailable"@) == Some("false"@),
{
    let there = result matches Ok(c) && c.hardware && c.codec_name@.len() > 0;
    let name = match result {
        Ok(c) => c.codec_name@,
        Err(_) => Seq::empty(),
    };
    let why = match result {
        Ok(_) => Seq::empty(),
        Err(e) => json::json_string(e@),
    };
    reveal_strlit("codec");
    reveal_strlit("mime");
    reveal_strlit("recommendedAvailable");
    reveal_strlit("mimeAvailable");
    reveal_strlit("recommendedName");
    reveal_strlit("recommendedIsHardware");
    reveal_strlit("hardwareAvailable");
    reveal_strlit("hardwareName");
    reveal_strlit("softwareAvailable");
    reveal_strlit("softwareName");
    reveal_strlit("error");
    assert("codec"@.len() == 5 && "codec"@[0] == 'c');
    assert("mime"@.len() == 4 && "mime"@[0] == 'm');
    assert("recommendedAvailable"@.len() == 20 && "recommendedAvailable"@[0] == 'r');
    assert("mimeAvailable"@.len() == 13 && "mimeAvailable"@[0] == 'm');
    assert("recommendedName"@.len() == 15 && "recommendedName"@[0] == 'r');
    assert("recommendedIsHardware"@.len() == 21 && "recommendedIsHardware"@[0] == 'r');
    assert("hardwareAvailable"@.len() == 17 && "hardwareAvailable"@[0] == 'h');
    assert("hardwareName"@.len() == 12 && "hardwareName"@[0] == 'h');
    assert("softwareAvailable"@.len() == 17 && "softwareAvailable"@[0] == 's');
    assert("softwareName"@.len() == 12 && "softwareName"@[0] == 's');
    assert("error"@.len() == 5 && "error"@[0] == 'e');
    let empty = json::ObjectView::empty();
    lemma_member(empty, "codec"@, json::json_string(codec));
    let o0 = empty.with("codec"@, json::json_string(codec));
    lemma_member(o0, "mime"@, json::json_string(mime));
    let o1 = o0.with("mime"@, json::json_string(mime));
    lemma_member(o1, "recommendedAvailable"@, text::truth(there));
    let o2 = o1.with("recommendedAvailable"@, text::truth(there));
    lemma_member(o2, "mimeAvailable"@, text::truth(there));
    let o3 = o2.with("mimeAvailable"@, text::truth(there));
    lemma_member(o3, "recommendedName"@, json::json_string(name));
    let o4 = o3.with("recommendedName"@, json::json_string(name));
    lemma_member(o4, "recommendedIsHardware"@, text::truth(there));
    let o5 = o4.with("recommendedIsHardware"@, text::truth(there));
    lemma_member(o5, "hardwareAvailable"@, text::truth(there));
    let o6 = o5.with("hardwareAvailable"@, text::truth(there));
    lemma_member(o6, "hardwareName"@, json::json_string(name));
    let o7 = o6.with("hardwareName"@, json::json_string(name));
    lemma_member(o7, "softwareAvailable"@, text::truth(false));
    let o8 = o7.with("softwareAvailable"@, text::truth(false));
    lemma_member(o8, "softwareName"@, json::json_string(Seq::empty()));
    let o9 = o8.with("softwareName"@, json::json_string(Seq::empty()));
    lemma_member(o9, "error"@, why);
    let o10 = o9.with("error"@, why);
    if result is Ok {
        o9
    } else {
        o10
    }
}

/// What is known of a size stands in its report, each thing under its own name.
pub proof fn lemma_size_report(size: SizeEvidence) -> (o: json::ObjectView)
    ensures
        capability::size_json(size) == o.text(),
        entries::value_of(o.entries, "width"@) == Some(text::signed_decimal(size.width as int)),
        entries::value_of(o.entries, "height"@) == Some(text::signed_decimal(size.height as int)),
        entries::value_of(o.entries, "fps"@) == Some(text::signed_decimal(size.fps as int)),
        entries::value_of(o.entries, "size_supported"@) == Some(text::truth(size.size_supported)),
        entries::value_of(o.entries, "size_and_rate_supported"@)
            == Some(text::truth(size.size_and_rate_supported)),
        entries::value_of(o.entries, "frame_rate_range"@)
            == Some(capability::range_evidence(size.frame_rate_range)),
{
    reveal_strlit("width");
    reveal_strlit("height");
    reveal_strlit("fps");
    reveal_strlit("size_supported");
    reveal_strlit("size_and_rate_supported");
    reveal_strlit("frame_rate_range");
    assert("width"@.len() == 5 && "width"@[0] == 'w');
    assert("height"@.len() == 6 && "height"@[0] == 'h');
    assert("fps"@.len() == 3 && "fps"@[0] == 'f');
    assert("size_supported"@.len() == 14 && "size_supported"@[0] == 's');
    assert("size_and_rate_supported"@.len() == 23 && "size_and_rate_supported"@[0] == 's');
    assert("frame_rate_range"@.len() == 16 && "frame_rate_range"@[0] == 'f');
    let empty = json::ObjectView::empty();
    lemma_member(empty, "width"@, text::signed_decimal(size.width as int));
    let o0 = empty.with("width"@, text::signed_decimal(size.width as int));
    lemma_member(o0, "height"@, text::signed_decimal(size.height as int));
    let o1 = o0.with("height"@, text::signed_decimal(size.height as int));
    lemma_member(o1, "fps"@, text::signed_decimal(size.fps as int));
    let o2 = o1.with("fps"@, text::signed_decimal(size.fps as int));
    lemma_member(o2, "size_supported"@, text::truth(size.size_supported));
    let o3 = o2.with("size_supported"@, text::truth(size.size_supported));
    lemma_member(o3, "size_and_rate_supported"@, text::truth(size.size_and_rate_supported));
    let o4 = o3.with("size_and_rate_supported"@, text::truth(size.size_and_rate_supported));
    lemma_member(o4, "frame_rate_range"@, capability::range_evidence(size.frame_rate_range));
    let o5 = o4.with("frame_rate_range"@, capability::range_evidence(size.frame_rate_range));
    o5
}

/// What is known of a codec stands in its report, each thing under its own name.
pub proof fn lemma_codec_report(codec: AdvertisedCodec) -> (o: json::ObjectView)
    ensures
        capability::codec_json(codec) == o.text(),
        codec.direction is Encode
            ==> entries::value_of(o.entries, "direction"@) == Some(json::json_string("encode"@)),
        codec.direction is Decode
            ==> entries::value_of(o.entries, "direction"@) == Some(json::json_string("decode"@)),
        entries::value_of(o.entries, "mime"@) == Some(json::json_string(codec.mime@)),
        entries::value_of(o.entries, "codec_name"@) == Some(json::json_string(codec.codec_name@)),
        entries::value_of(o.entries, "hardware"@) == Some(text::truth(codec.hardware)),
        entries::value_of(o.entries, "profiles"@)
            == Some(capability::list_evidence(codec.profiles)),
        entries::value_of(o.entries, "main10_advertised"@)
            == Some(capability::truth_evidence(codec.main10_advertised)),
        entries::value_of(o.entries, "main10_levels"@)
            == Some(capability::list_evidence(codec.main10_levels)),
        entries::value_of(o.entries, "native_buffer_formats"@)
            == Some(capability::list_evidence(codec.native_buffer_formats)),
        entries::value_of(o.entries, "pixel_formats"@)
            == Some(capability::list_evidence(codec.pixel_formats)),
        entries::value_of(o.entries, "width_alignment"@)
            == Some(capability::number_evidence(codec.width_alignment)),
        entries::value_of(o.entries, "height_alignment"@)
            == Some(capability::number_evidence(codec.height_alignment)),
        entries::value_of(o.entries, "sizes"@) == Some(capability::sizes_json(codec.sizes@)),
{
    let direction = json::json_string(
        match codec.direction {
            CodecDirection::Encode => "encode"@,
            CodecDirection::Decode => "decode"@,
        },
    );
    reveal_strlit("direction");
    reveal_strlit("mime");
    reveal_strlit("codec_name");
    reveal_strlit("hardware");
    reveal_strlit("profiles");
    reveal_strlit("main10_advertised");
    reveal_strlit("main10_levels");
    reveal_strlit("native_buffer_formats");
    reveal_strlit("pixel_formats");
    reveal_strlit("width_alignment");
    reveal_strlit("height_alignment");
    reveal_strlit("sizes");
    assert("direction"@.len() == 9 && "direction"@[0] == 'd');
    assert("mime"@.len() == 4 && "mime"@[0] == 'm');
    assert("codec_name"@.len() == 10 && "codec_name"@[0] == 'c');
    assert("hardware"@.len() == 8 && "hardware"@[0] == 'h');
    assert("profiles"@.len() == 8 && "profiles"@[0] == 'p');
    assert("main10_advertised"@.len() == 17 && "main10_advertised"@[0] == 'm');
    assert("main10_levels"@.len() == 13 && "main10_levels"@[0] == 'm');
    assert("native_buffer_formats"@.len() == 21 && "native_buffer_formats"@[0] == 'n');
    assert("pixel_formats"@.len() == 13 && "pixel_formats"@[0] == 'p');
    assert("width_alignment"@.len() == 15 && "width_alignment"@[0] == 'w');
    assert("height_alignment"@.len() == 16 && "height_alignment"@[0] == 'h');
    assert("sizes"@.len() == 5 && "sizes"@[0] == 's');
    let empty = json::ObjectView::empty();
    lemma_member(empty, "direction"@, direction);
    let o0 = empty.with("direction"@, direction);
    lemma_member(o0, "mime"@, json::json_string(codec.mime@));
    let o1 = o0.with("mime"@, json::json_string(codec.mime@));
    lemma_member(o1, "codec_name"@, json::json_string(codec.codec_name@));
    let o2 = o1.with("codec_name"@, json::json_string(codec.codec_name@));
    lemma_member(o2, "hardware"@, text::truth(codec.hardware));
    let o3 = o2.with("hardware"@, text::truth(codec.hardware));
    lemma_member(o3, "profiles"@, capability::list_evidence(codec.profiles));
    let o4 = o3.with("profiles"@, capability::list_evidence(codec.profiles));
    lemma_member(o4, "main10_advertised"@, capability::truth_evidence(codec.main10_advertised));
    let o5 = o4.with("main10_advertised"@, capability::truth_evidence(codec.main10_advertised));
    lemma_member(o5, "main10_levels"@, capability::list_evidence(codec.main10_levels));
    let o6 = o5.with("main10_levels"@, capability::list_evidence(codec.main10_levels));
    lemma_member(o6, "native_buffer_formats"@, capability::list_evidence(codec.native_buffer_formats));
    let o7 = o6.with("native_buffer_formats"@, capability::list_evidence(codec.native_buffer_formats));
    lemma_member(o7, "pixel_formats"@, capability::list_evidence(codec.pixel_formats));
    let o8 = o7.with("pixel_formats"@, capability::list_evidence(codec.pixel_formats));
    lemma_member(o8, "width_alignment"@, capability::number_evidence(codec.width_alignment));
    let o9 = o8.with("width_alignment"@, capability::number_evidence(codec.width_alignment));
    lemma_member(o9, "height_alignment"@, capability::number_evidence(codec.height_alignment));
    let o10 = o9.with("height_alignment"@, capability::number_evidence(codec.height_alignment));
    lemma_member(o10, "sizes"@, capability::sizes_json(codec.sizes@));
    let o11 = o10.with("sizes"@, capability::sizes_json(codec.sizes@));
    o11
}

/// The encoder and the decoder are reported each under its own name, and what was not
/// measured is said not to be.
pub proof fn lemma_capability_report(
    report: CapabilityReport,
    reference: Seq<char>,
) -> (o: json::ObjectView)
    ensures
        capability::report_json(report, reference) == o.text(),
        entries::value_of(o.entries, "evidence"@) == Some(json::json_string("advertised-only"@)),
        entries::value_of(o.entries, "codec_family"@) == Some(json::json_string("HEVC"@)),
        entries::value_of(o.entries, "encoder"@)
            == Some(capability::codec_evidence(report.encoder)),
        entries::value_of(o.entries, "decoder"@)
            == Some(capability::codec_evidence(report.decoder)),
        entries::value_of(o.entries, "screen_capture_rate"@)
            == Some(capability::capture_json(report.screen_capture_rate)),
        entries::value_of(o.entries, "codec_throughput"@)
            == Some(json::json_string("not-measured"@)),
        entries::value_of(o.entries, "hdr_display"@) == Some(json::json_string("not-measured"@)),
        entries::value_of(o.entries, "screen_capture_hdr"@)
            == Some(json::json_string("not-measured"@)),
        entries::value_of(o.entries, "reference"@) == Some(json::json_string(reference)),
{
    reveal_strlit("evidence");
    reveal_strlit("codec_family");
    reveal_strlit("encoder");
    reveal_strlit("decoder");
    reveal_strlit("screen_capture_rate");
    reveal_strlit("codec_throughput");
    reveal_strlit("hdr_display");
    reveal_strlit("screen_capture_hdr");
    reveal_strlit("reference");
    assert("evidence"@.len() == 8 && "evidence"@[0] == 'e');
    assert("codec_family"@.len() == 12 && "codec_family"@[0] == 'c');
    assert("encoder"@.len() == 7 && "encoder"@[0] == 'e');
    assert("decoder"@.len() == 7 && "decoder"@[0] == 'd');
    assert("screen_capture_rate"@.len() == 19 && "screen_capture_rate"@[0] == 's');
    assert("codec_throughput"@.len() == 16 && "codec_throughput"@[0] == 'c');
    assert("hdr_display"@.len() == 11 && "hdr_display"@[0] == 'h');
    assert("screen_capture_hdr"@.len() == 18 && "screen_capture_hdr"@[0] == 's');
    assert("reference"@.len() == 9 && "reference"@[0] == 'r');
    let empty = json::ObjectView::empty();
    lemma_member(empty, "evidence"@, json::json_string("advertised-only"@));
    let o0 = empty.with("evidence"@, json::json_string("advertised-only"@));
    lemma_member(o0, "codec_family"@, json::json_string("HEVC"@));
    let o1 = o0.with("codec_family"@, json::json_string("HEVC"@));
    lemma_member(o1, "encoder"@, capability::codec_evidence(report.encoder));
    let o2 = o1.with("encoder"@, capability::codec_evidence(report.encoder));
    lemma_member(o2, "decoder"@, capability::codec_evidence(report.decoder));
    let o3 = o2.with("decoder"@, capability::codec_evidence(report.decoder));
    lemma_member(o3, "screen_capture_rate"@, capability::capture_json(report.screen_capture_rate));
    let o4 = o3.with("screen_capture_rate"@, capability::capture_json(report.screen_capture_rate));
    lemma_member(o4, "codec_throughput"@, json::json_string("not-measured"@));
    let o5 = o4.with("codec_throughput"@, json::json_string("not-measured"@));
    lemma_member(o5, "hdr_display"@, json::json_string("not-measured"@));
    let o6 = o5.with("hdr_display"@, json::json_string("not-measured"@));
    lemma_member(o6, "screen_capture_hdr"@, json::json_string("not-measured"@));
    let o7 = o6.with("screen_capture_hdr"@, json::json_string("not-measured"@));
    lemma_member(o7, "reference"@, json::json_string(reference));
    let o8 = o7.with("reference"@, json::json_string(reference));
    o8
}

/// A value that is known is given and said to be known.
pub proof fn lemma_known_values(value: Seq<char>) -> (o: json::ObjectView)
    ensures
        capability::known(value) == o.text(),
        entries::value_of(o.entries, "ok"@) == Some("true"@),
        entries::value_of(o.entries, "value"@) == Some(value),
{
    reveal_strlit("ok");
    reveal_strlit("value");
    assert("ok"@.len() == 2 && "ok"@[0] == 'o');
    assert("value"@.len() == 5 && "value"@[0] == 'v');
    let empty = json::ObjectView::empty();
    lemma_member(empty, "ok"@, text::truth(true));
    let o0 = empty.with("ok"@, text::truth(true));
    lemma_member(o0, "value"@, value);
    let o1 = o0.with("value"@, value);
    o1
}

/// A value that is not known is said not to be, with the reason.
pub proof fn lemma_unknown_values(error: Seq<char>) -> (o: json::ObjectView)
    ensures
        capability::unknown(error) == o.text(),
        entries::value_of(o.entries, "ok"@) == Some("false"@),
        entries::value_of(o.entries, "error"@) == Some(json::json_string(error)),
{
    reveal_strlit("ok");
    reveal_strlit("error");
    assert("ok"@.len() == 2 && "ok"@[0] == 'o');
    assert("error"@.len() == 5 && "error"@[0] == 'e');
    let empty = json::ObjectView::empty();
    lemma_member(empty, "ok"@, text::truth(false));
    let o0 = empty.with("ok"@, text::truth(false));
    lemma_member(o0, "error"@, json::json_string(error));
    let o1 = o0.with("error"@, json::json_string(error));
    o1
}

/// A list, a number, a yes or no and a range are known where the platform gave them, and
/// else the reason that it gave is told.
pub proof fn lemma_evidence(
    list: Result<Vec<i32>, String>,
    number: Result<i32, String>,
    truth: Result<bool, String>,
    codec: Result<AdvertisedCodec, String>,
)
    ensures
        list matches Ok(v) ==> capability::list_evidence(list) == capability::known(
            json::array_of(v@.map_values(|n: i32| text::signed_decimal(n as int))),
        ),
        list matches Err(e) ==> capability::list_evidence(list) == capability::unknown(e@),
        number matches Ok(n) ==> capability::number_evidence(number) == capability::known(
            text::signed_decimal(n as int),
        ),
        number matches Err(e) ==> capability::number_evidence(number) == capability::unknown(e@),
        truth matches Ok(b) ==> capability::truth_evidence(truth) == capability::known(
            if b {
                "true"@
            } else {
                "false"@
            },
        ),
        truth matches Err(e) ==> capability::truth_evidence(truth) == capability::unknown(e@),
        codec matches Ok(c) ==> capability::codec_evidence(codec) == capability::known(
            capability::codec_json(c),
        ),
        codec matches Err(e) ==> capability::codec_evidence(codec) == capability::unknown(e@),
{
    if let Ok(v) = list {
        assert(Seq::new(v@.len(), |i: int| text::signed_decimal(v@[i] as int)) =~= v@.map_values(
            |n: i32| text::signed_decimal(n as int),
        ));
    }
}

/// A range is told with its lowest and its highest rate.
pub proof fn lemma_range_report(min: i32, max: i32) -> (o: json::ObjectView)
    ensures
        capability::range_evidence(Ok((min, max))) == capability::known(o.text()),
        entries::value_of(o.entries, "min"@) == Some(text::signed_decimal(min as int)),
        entries::value_of(o.entries, "max"@) == Some(text::signed_decimal(max as int)),
{
    reveal_strlit("min");
    reveal_strlit("max");
    assert("min"@.len() == 3 && "min"@[0] == 'm' && "min"@[1] == 'i');
    assert("max"@.len() == 3 && "max"@[0] == 'm' && "max"@[1] == 'a');
    let empty = json::ObjectView::empty();
    lemma_member(empty, "min"@, text::signed_decimal(min as int));
    let o0 = empty.with("min"@, text::signed_decimal(min as int));
    lemma_member(o0, "max"@, text::signed_decimal(max as int));
    let o1 = o0.with("max"@, text::signed_decimal(max as int));
    o1
}

/// A display is shown with its place, its size, whether the pointer is part of the picture,
/// and its name.
pub proof fn lemma_display_report(d: message::DisplayInfoView) -> (o: json::ObjectView)
    ensures
        flutter_session::display_json(d) == o.text(),
        entries::value_of(o.entries, "x"@) == Some(text::signed_decimal(d.x as int)),
        entries::value_of(o.entries, "y"@) == Some(text::signed_decimal(d.y as int)),
        entries::value_of(o.entries, "width"@) == Some(text::signed_decimal(d.width as int)),
        entries::value_of(o.entries, "height"@) == Some(text::signed_decimal(d.height as int)),
        entries::value_of(o.entries, "cursor_embedded"@) == Some(text::truth(d.cursor_embedded)),
        entries::value_of(o.entries, "name"@) == Some(json::json_string(d.name)),
{
    reveal_strlit("x");
    reveal_strlit("y");
    reveal_strlit("width");
    reveal_strlit("height");
    reveal_strlit("cursor_embedded");
    reveal_strlit("name");
    assert("x"@.len() == 1 && "x"@[0] == 'x');
    assert("y"@.len() == 1 && "y"@[0] == 'y');
    assert("width"@.len() == 5 && "width"@[0] == 'w');
    assert("height"@.len() == 6 && "height"@[0] == 'h');
    assert("cursor_embedded"@.len() == 15 && "cursor_embedded"@[0] == 'c');
    assert("name"@.len() == 4 && "name"@[0] == 'n');
    let empty = json::ObjectView::empty();
    lemma_member(empty, "x"@, text::signed_decimal(d.x as int));
    let o0 = empty.with("x"@, text::signed_decimal(d.x as int));
    lemma_member(o0, "y"@, text::signed_decimal(d.y as int));
    let o1 = o0.with("y"@, text::signed_decimal(d.y as int));
    lemma_member(o1, "width"@, text::signed_decimal(d.width as int));
    let o2 = o1.with("width"@, text::signed_decimal(d.width as int));
    lemma_member(o2, "height"@, text::signed_decimal(d.height as int));
    let o3 = o2.with("height"@, text::signed_decimal(d.height as int));
    lemma_member(o3, "cursor_embedded"@, text::truth(d.cursor_embedded));
    let o4 = o3.with("cursor_embedded"@, text::truth(d.cursor_embedded));
    lemma_member(o4, "name"@, json::json_string(d.name));
    let o5 = o4.with("name"@, json::json_string(d.name));
    o5
}

/// The picture without a report is a display at the corner with the size of the picture.
pub proof fn lemma_stream_report(width: i32, height: i32) -> (o: json::ObjectView)
    ensures
        flutter_session::stream_display(width, height) == o.text(),
        entries::value_of(o.entries, "x"@) == Some(text::signed_decimal(0)),
        entries::value_of(o.entries, "y"@) == Some(text::signed_decimal(0)),
        entries::value_of(o.entries, "width"@) == Some(text::signed_decimal(width as int)),
        entries::value_of(o.entries, "height"@) == Some(text::signed_decimal(height as int)),
        entries::value_of(o.entries, "cursor_embedded"@) == Some(text::truth(false)),
{
    reveal_strlit("x");
    reveal_strlit("y");
    reveal_strlit("width");
    reveal_strlit("height");
    reveal_strlit("cursor_embedded");
    assert("x"@.len() == 1 && "x"@[0] == 'x');
    assert("y"@.len() == 1 && "y"@[0] == 'y');
    assert("width"@.len() == 5 && "width"@[0] == 'w');
    assert("height"@.len() == 6 && "height"@[0] == 'h');
    assert("cursor_embedded"@.len() == 15 && "cursor_embedded"@[0] == 'c');
    let empty = json::ObjectView::empty();
    lemma_member(empty, "x"@, text::signed_decimal(0));
    let o0 = empty.with("x"@, text::signed_decimal(0));
    lemma_member(o0, "y"@, text::signed_decimal(0));
    let o1 = o0.with("y"@, text::signed_decimal(0));
    lemma_member(o1, "width"@, text::signed_decimal(width as int));
    let o2 = o1.with("width"@, text::signed_decimal(width as int));
    lemma_member(o2, "height"@, text::signed_decimal(height as int));
    let o3 = o2.with("height"@, text::signed_decimal(height as int));
    lemma_member(o3, "cursor_embedded"@, text::truth(false));
    let o4 = o3.with("cursor_embedded"@, text::truth(false));
    o4
}

/// The identity that others pin is the number of this machine and its public key.
pub proof fn lemma_identity_report(id: Seq<char>, key: Seq<char>) -> (o: json::ObjectView)
    ensures
        host_bridge::identity_json(id, key) == o.text(),
        entries::value_of(o.entries, "id"@) == Some(json::json_string(id)),
        entries::value_of(o.entries, "peer_signing_key_base64"@) == Some(json::json_string(key)),
{
    reveal_strlit("id");
    reveal_strlit("peer_signing_key_base64");
    assert("id"@.len() == 2 && "id"@[0] == 'i');
    assert("peer_signing_key_base64"@.len() == 23 && "peer_signing_key_base64"@[0] == 'p');
    let empty = json::ObjectView::empty();
    lemma_member(empty, "id"@, json::json_string(id));
    let o0 = empty.with("id"@, json::json_string(id));
    lemma_member(o0, "peer_signing_key_base64"@, json::json_string(key));
    let o1 = o0.with("peer_signing_key_base64"@, json::json_string(key));
    o1
}

/// A message is shown in a box of a kind, with a title and a text.
pub proof fn lemma_boxes(
    kind: Seq<char>,
    title: Seq<char>,
    text: Seq<char>,
) -> (o: json::ObjectView)
    ensures
        flutter_session::box_event(kind, title, text) == o.text(),
        entries::value_of(o.entries, "name"@) == Some(json::json_string("msgbox"@)),
        entries::value_of(o.entries, "type"@) == Some(json::json_string(kind)),
        entries::value_of(o.entries, "title"@) == Some(json::json_string(title)),
        entries::value_of(o.entries, "text"@) == Some(json::json_string(text)),
{
    let items = seq![("name"@, "msgbox"@), ("type"@, kind), ("title"@, title), ("text"@, text)];
    let o = flutter_state::as_texts(json::ObjectView::empty(), items);
    reveal_strlit("name");
    reveal_strlit("type");
    reveal_strlit("title");
    reveal_strlit("text");
    assert("name"@.len() == 4 && "name"@[0] == 'n');
    assert("type"@.len() == 4 && "type"@[0] == 't' && "type"@[1] == 'y');
    assert("title"@.len() == 5);
    assert("text"@.len() == 4 && "text"@[0] == 't' && "text"@[1] == 'e');
    frontend_laws::lemma_objects_of_texts(items, "name"@);
    frontend_laws::lemma_objects_of_texts(items, "type"@);
    frontend_laws::lemma_objects_of_texts(items, "title"@);
    frontend_laws::lemma_objects_of_texts(items, "text"@);
    let a = items.drop_last();
    let b = a.drop_last();
    let c = b.drop_last();
    assert(a =~= seq![items[0], items[1], items[2]]);
    assert(b =~= seq![items[0], items[1]]);
    assert(c =~= seq![items[0]]);
    reveal_with_fuel(entries::last_value, 5);
    o
}

} // verus!

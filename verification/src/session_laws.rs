//! What holds of sessions whichever protocol they speak, and of how they end.
use vstd::prelude::*;
use crate::message::EncodedFrame;
use crate::platform::ohos_decoder;
use crate::platform::ohos_decoder::{AccessUnit, DecoderError, DecoderStats};
use crate::session_backend;
use crate::session_backend::{KeyStroke, Outgoing};
use crate::viewer;
use crate::viewer::feed;
use crate::viewer::keys::ViewerKey;
use crate::viewer::ViewerError;
use crate::vnc::live;
use crate::vnc::live::VncLiveSession;

verus! {

/// A VNC session is closed once it was closed, has failed where reading failed, streams from
/// its first picture on, and is merely connected before.
pub proof fn lemma_phases_of_vnc(s: VncLiveSession)
    ensures
        ({
            let seen = session_backend::vnc_seen(s);
            let pictured = s.frame_ready || s.framebuffer@.len() > 0;
            &&& s.closed ==> seen.phase == "closed"@
            &&& !s.closed && s.failure is Some ==> seen.phase == "failed"@
            &&& !s.closed && s.failure is None && pictured ==> seen.phase == "streaming"@
            &&& !s.closed && s.failure is None && !pictured ==> seen.phase == "connected"@
        }),
{
}

/// What is seen of a VNC session: the size of its framebuffer, the updates that came and the
/// pictures that were taken, whether it may be typed to; it is neither encrypted nor
/// verified, and its pixels are raw.
pub proof fn lemma_what_is_seen_of_vnc(s: VncLiveSession)
    ensures
        ({
            let seen = session_backend::vnc_seen(s);
            &&& seen.width == s.width
            &&& seen.height == s.height
            &&& seen.received_units == s.received_updates
            &&& seen.pushed_units == s.taken_frames
            &&& seen.render_submissions == s.taken_frames
            &&& seen.keyboard_allowed == s.keyboard_allowed
            &&& seen.clipboard_allowed
            &&& seen.closed == s.closed
            &&& !seen.encrypted
            &&& !seen.peer_verified
            &&& seen.codec == "raw"@
            &&& seen.route == "direct_tcp"@
            &&& seen.error is Some <==> s.failure is Some
            &&& s.failure matches Some(why) ==> seen.error == Some(why@)
        }),
{
}

/// A VNC server has its framebuffer as the only display, at the corner and with the size of
/// the framebuffer.
pub proof fn lemma_display_of_vnc(s: VncLiveSession)
    ensures
        ({
            let peer = session_backend::vnc_peer(s);
            &&& peer.displays.len() == 1
            &&& peer.current_display == 0
            &&& peer.displays[0].x == 0 && peer.displays[0].y == 0
            &&& peer.displays[0].width == s.width
            &&& peer.displays[0].height == s.height
            &&& peer.hostname == s.name@
            &&& peer.version == s.version@
            &&& peer.platform == "VNC"@
            &&& peer.username.len() == 0
        }),
{
}

/// The whole framebuffer is asked for, and of the first display only.
pub proof fn lemma_pictures_of_vnc(
    r: Result<Outgoing, ViewerError>,
    s: VncLiveSession,
    display: i32,
)
    requires
        session_backend::refresh_answer(r, s, display),
    ensures
        r is Ok <==> display == 0,
        r matches Ok(out) ==> (out matches Outgoing::Bytes(sent) && sent@.len() == 10 && sent@[0]
            == 3 && sent@[1] == 0 && sent@[2] == 0 && sent@[3] == 0 && sent@[4] == 0 && sent@[5]
            == 0 && sent@[6] * 256 + sent@[7] == s.width && sent@[8] * 256 + sent@[9] == s.height),
{
}

/// A pointer action reaches a VNC server with its place, if that lies on the framebuffer.
pub proof fn lemma_pointer_of_vnc(
    r: Result<Outgoing, ViewerError>,
    s: VncLiveSession,
    kind: u32,
    button: u32,
    x: i32,
    y: i32,
)
    requires
        session_backend::pointer_answer(r, s, kind, button, x, y),
        0 <= x < 65536,
        0 <= y < 65536,
    ensures
        r is Ok <==> x < s.width && y < s.height && (kind == 0 || kind <= 5 && button <= 5),
        r matches Ok(out) ==> (out matches Outgoing::Bytes(sent) && sent@.len() == 6 && sent@[0]
            == 5 && sent@[2] * 256 + sent@[3] == x && sent@[4] * 256 + sent@[5] == y),
        r matches Ok(out) ==> (kind == 0 || kind == 2 ==> (out matches Outgoing::Bytes(sent)
            && sent@[1] == 0)),
{
}

/// The modifiers that are held are sent as keys of their own: control, then the alternate
/// key, then shift, then the command key, and those that are not held are not sent.
pub proof fn lemma_held_modifiers(alt: bool, ctrl: bool, shift: bool, command: bool)
    ensures
        ({
            let held = session_backend::held_keysyms(alt, ctrl, shift, command);
            &&& held.contains(0xffe3) <==> ctrl
            &&& held.contains(0xffe9) <==> alt
            &&& held.contains(0xffe1) <==> shift
            &&& held.contains(0xffeb) <==> command
            &&& forall|i: int|
                0 <= i < held.len() ==> #[trigger] held[i] == 0xffe3 || held[i] == 0xffe9 || held[i]
                    == 0xffe1 || held[i] == 0xffeb
            &&& ctrl ==> held[0] == 0xffe3
            &&& command ==> held.last() == 0xffeb
        }),
{
    let held = session_backend::held_keysyms(alt, ctrl, shift, command);
    let n = if ctrl {
        1int
    } else {
        0
    };
    let m = n + if alt {
        1int
    } else {
        0
    };
    let k = m + if shift {
        1int
    } else {
        0
    };
    if ctrl {
        assert(held[0] == 0xffe3);
    }
    if alt {
        assert(held[n] == 0xffe9);
    }
    if shift {
        assert(held[m] == 0xffe1);
    }
    if command {
        assert(held[k] == 0xffeb);
    }
}

/// A key that goes down is sent as going down, one that comes up as coming up, and a press
/// is both in this order.
pub proof fn lemma_strokes(
    keys: KeyStroke,
    keysym: u32,
    down: bool,
    press: bool,
    modifiers: Seq<u32>,
)
    requires
        session_backend::strokes(keys, keysym, down, press, modifiers),
    ensures
        keys.stroke@.len() == (if down && press {
            2int
        } else {
            1
        }),
        keys.stroke@[0]@[0] == 4,
        keys.stroke@[0]@[1] == (if down {
            1u8
        } else {
            0
        }),
        down && press ==> keys.stroke@[1]@[0] == 4 && keys.stroke@[1]@[1] == 0,
        keys.stroke@[0]@[4] * 16777216 + keys.stroke@[0]@[5] * 65536 + keys.stroke@[0]@[6] * 256
            + keys.stroke@[0]@[7] == keysym,
        down && press ==> keys.stroke@[1]@.skip(4) == keys.stroke@[0]@.skip(4),
        keys.before@.len() == modifiers.len() && keys.after@.len() == modifiers.len(),
{
    let views = session_backend::message_views(keys.stroke@);
    assert(views.len() == keys.stroke@.len());
    assert(views[0] == keys.stroke@[0]@);
    if down && press {
        assert(views[1] == keys.stroke@[1]@);
        assert(session_backend::key_message(true, keysym).skip(4) =~= session_backend::key_message(
            false,
            keysym,
        ).skip(4));
    }
    assert(session_backend::message_views(keys.before@).len() == keys.before@.len());
    assert(session_backend::message_views(keys.after@).len() == keys.after@.len());
    assert(session_backend::key_messages(true, modifiers).len() == modifiers.len());
    assert(session_backend::key_messages(false, modifiers.reverse()).len() == modifiers.len());
}

/// A key that a VNC server has no number for is refused; every other one is sent.
pub proof fn lemma_keys_of_vnc(
    r: Result<Outgoing, ViewerError>,
    key: ViewerKey,
    down: bool,
    press: bool,
    modifiers: Seq<u32>,
)
    requires
        session_backend::stroke_answer(r, key, down, press, modifiers),
    ensures
        r is Ok <==> session_backend::keysym_of(key) is Ok,
        r matches Ok(out) ==> (out matches Outgoing::Keys(keys) && session_backend::strokes(
            keys,
            session_backend::keysym_of(key)->Ok_0,
            down,
            press,
            modifiers,
        )),
        r matches Err(e) ==> (e matches ViewerError::Vnc(_)),
{
}

/// Counts go on by one, and start again behind the last number.
pub proof fn lemma_counts_go_on(n: u64)
    ensures
        n < u64::MAX ==> live::wrapped_next(n) == n + 1,
        n == u64::MAX ==> live::wrapped_next(n) == 0,
{
}

/// The first error that a task of a session ended with is what the session ends with, but a
/// decoder that could not be destroyed counts before all; a task that panicked is an error.
pub proof fn lemma_how_sessions_end(
    result: Result<(), ViewerError>,
    joined: Option<Result<(), ViewerError>>,
)
    ensures
        ({
            let after = feed::merged(result, joined);
            let failed = joined is None || joined->0 is Err;
            let stuck = joined matches Some(Err(ViewerError::Decoder(DecoderError::DestroyFailed {
                ..
            })));
            &&& after is Ok <==> result is Ok && !failed
            &&& result is Err && !stuck ==> after == result
            &&& stuck ==> Some(after) == joined
            &&& result is Ok && joined is Some && failed ==> Some(after) == joined
            &&& result is Ok && joined is None ==> after == Err::<(), ViewerError>(
                ViewerError::TaskFailed,
            )
        }),
{
}

/// A decoder that closed well ends well; how it failed, or that its task did, is passed on.
pub proof fn lemma_how_decoders_close(closed: Option<Result<DecoderStats, DecoderError>>)
    ensures
        feed::close_result(closed) is Ok <==> (closed matches Some(Ok(_))),
        closed is None ==> feed::close_result(closed) == Err::<(), ViewerError>(
            ViewerError::TaskFailed,
        ),
        closed matches Some(Err(e)) ==> feed::close_result(closed) == Err::<(), ViewerError>(
            ViewerError::Decoder(e),
        ),
{
}

/// What a decoder counted is added to what the viewer counts when it is taken away; its
/// resources are known to be free where its worker ended cleanly.
pub proof fn lemma_counts_outlive_decoders(v: viewer::ViewerView)
    ensures
        ({
            let after = feed::without_decoder(v);
            let stats = feed::closed_stats(v);
            &&& after.decoder is None
            &&& stats is None ==> after.snapshot == v.snapshot && after.resources_unconfirmed
                == v.resources_unconfirmed
            &&& stats matches Some(counted) ==> {
                &&& v.snapshot.pushed_units + counted.pushed_units <= u64::MAX
                    ==> after.snapshot.pushed_units == v.snapshot.pushed_units
                    + counted.pushed_units
                &&& v.snapshot.render_submissions + counted.render_submissions <= u64::MAX
                    ==> after.snapshot.render_submissions == v.snapshot.render_submissions
                    + counted.render_submissions
                &&& after.resources_unconfirmed <==> v.resources_unconfirmed && (!counted.closed
                    || counted.quarantined)
            }
            &&& after.snapshot.received_units == v.snapshot.received_units
            &&& after.snapshot.phase == v.snapshot.phase
        }),
{
}

/// A frame goes into the decoder with its bytes, with its time in microseconds, and as a key
/// frame exactly where it is one.
pub proof fn lemma_frames_become_units(unit: AccessUnit, frame: EncodedFrame)
    requires
        feed::unit_of(unit, frame),
    ensures
        unit.bytes@ == frame.data@,
        unit.pts_us == 1000 * frame.pts,
        unit.kind matches ohos_decoder::AccessUnitKind::Frame { key } && key == frame.key,
{
}

/// The time of a frame fits where its microseconds do.
pub proof fn lemma_times_that_fit(frame: EncodedFrame)
    ensures
        feed::time_fits(frame) <==> -9_223_372_036_854_775 <= frame.pts && frame.pts
            <= 9_223_372_036_854_775,
{
}

/// Nothing is known of a viewer that nothing was heard of: it may not be typed to, its
/// clipboard is closed, and it is neither over nor encrypted nor verified.
pub proof fn lemma_blank_snapshots()
    ensures
        ({
            let s = viewer::ViewerSnapshotView::blank();
            &&& !s.keyboard_allowed && !s.clipboard_allowed
            &&& !s.closed && !s.encrypted && !s.peer_verified
            &&& s.error is None && s.phase.len() == 0 && s.codec.len() == 0 && s.route.len() == 0
            &&& s.width == 0 && s.height == 0 && s.requested_fps == 0
            &&& s.received_units == 0 && s.pushed_units == 0 && s.render_submissions == 0
        }),
{
}

} // verus!

//! What holds of the host that the application controls: when it starts and with what, who
//! is shown to be there, and which settings are kept.
use vstd::prelude::*;
use crate::entries;
use crate::har;
use crate::har::controlled_host;
use crate::har::controlled_host::{ControlledState, Screen};
use crate::har::engine;
use crate::har::engine::Initialization;
use crate::har::host_bridge;
use crate::har::host_bridge::{HostEntry, HostRegistry, KeyPair};
use crate::host;
use crate::host::{Host, HostOptions};
use crate::text;

verus! {

/// There is something to host with once the application has an identity and a pair of keys
/// of 64 and 32 bytes.
pub proof fn lemma_host_material(state: Option<Initialization>, keys: KeyPair)
    ensures
        ({
            let refusal = host_bridge::material_refusal(state, keys);
            let known = state matches Some(kept) && kept.id is Some;
            &&& refusal is None <==> known && keys.secret@.len() == 64 && keys.public@.len() == 32
            &&& !known ==> refusal == Some(
                "Initialize after privacy consent before enabling a host"@,
            )
            &&& known && keys.secret@.len() != 64 ==> refusal == Some(
                "Configured Ed25519 signing key has invalid length"@,
            )
            &&& known && keys.secret@.len() == 64 && keys.public@.len() != 32 ==> refusal == Some(
                "Configured Ed25519 public key has invalid length"@,
            )
        }),
{
}

/// A host starts with even sides from 2 to 3840 of at most the area of 3840 by 2160, at a
/// rate from 1 to 60, while no other host is there; wrong numbers are wrong arguments, all
/// else is a failure.
pub proof fn lemma_when_a_host_starts(
    registry: HostRegistry,
    state: Option<Initialization>,
    keys: KeyPair,
    width: Option<i64>,
    height: Option<i64>,
    fps: Option<i64>,
)
    ensures
        ({
            let refusal = host_bridge::start_refusal(registry, state, keys, width, height, fps);
            let fits = {
                &&& width matches Some(w)
                &&& height matches Some(h)
                &&& fps matches Some(rate)
                &&& 2 <= w <= 3840 && 2 <= h <= 3840 && 1 <= rate <= 60
                &&& w % 2 == 0 && h % 2 == 0 && w * h <= 8_294_400
            };
            let able = registry.entry is None && host_bridge::material_refusal(state, keys) is None
                && registry.next != u64::MAX;
            &&& refusal is None <==> fits && able
            &&& refusal matches Some(e) ==> (e.status == har::BridgeStatus::InvalidArg <==> !fits)
            &&& fits && registry.entry is Some ==> refusal == Some(
                har::failure("A host is still active, closing or quarantined"@),
            )
        }),
{
}

/// Turning a screen on its side changes nothing about whether it can be hosted.
pub proof fn lemma_turned_screens(width: int, height: int)
    ensures
        host_bridge::shows(width, height) <==> host_bridge::shows(height, width),
        host_bridge::shows(3840, 2160),
        host_bridge::shows(width, height) ==> !host_bridge::shows(width + 1, height),
{
    assert(width * height == height * width) by (nonlinear_arith);
}

/// A host listens everywhere on port 21118, with the identity and the secret key of the
/// application and the size and rate it was asked for, and takes no input.
pub proof fn lemma_options_of_a_host(
    o: HostOptions,
    id: Seq<char>,
    keys: KeyPair,
    width: int,
    height: int,
    fps: int,
)
    requires
        host_bridge::host_options_of(o, id, keys, width, height, fps),
    ensures
        o.listen.port == 21118,
        o.listen.ip@ == "0.0.0.0"@,
        o.id@ == id,
        o.signing_key@ == keys.secret@,
        o.width == width && o.height == height && o.fps == fps,
        o.bitrate == 16_000_000 && !o.bitrate_auto,
        o.platform@ == "HarmonyOS"@,
        !o.input_injection && !o.input_sink,
{
}

/// No two hosts have the same handle, and every handle begins with the same word.
pub proof fn lemma_host_handles(a: u64, b: u64)
    ensures
        a != b ==> host_bridge::host_handle(a) != host_bridge::host_handle(b),
        host_bridge::host_handle(a).take(12) == "modern-host-"@,
{
    reveal_strlit("modern-host-");
    let prefix = "modern-host-"@;
    assert(prefix.len() == 12);
    assert(host_bridge::host_handle(a).take(12) =~= prefix);
    if host_bridge::host_handle(a) == host_bridge::host_handle(b) {
        assert(host_bridge::host_handle(a).skip(12) =~= text::hexadecimal(a as nat));
        assert(host_bridge::host_handle(b).skip(12) =~= text::hexadecimal(b as nat));
        if a != b {
            text::lemma_hexadecimal_is_unique(a as nat, b as nat);
        }
    }
}

/// The host answers to its own handle alone.
pub proof fn lemma_host_is_found(registry: HostRegistry, id: Seq<char>, other: Seq<char>)
    ensures
        host_bridge::is_host(registry, id) && host_bridge::is_host(registry, other) ==> id == other,
        registry.entry is None ==> !host_bridge::is_host(registry, id),
        registry.entry matches Some(entry) ==> (host_bridge::is_host(registry, entry.id@)
            <==> vstd::utf8::encode_utf8(entry.id@).len() <= 64),
{
}

/// A request is decided about while the host is there, by its number, and only the one that
/// is open.
pub proof fn lemma_decisions(h: Host, request_id: Seq<char>)
    ensures
        host_bridge::approves(h, request_id) ==> !h.cancelled && (text::parsed_unsigned(
            request_id,
            0xffff_ffff_ffff_ffff,
        ) matches Some(epoch) && h.grant.open_for(epoch as u64)),
        !host_bridge::approves(h, request_id) ==> h.cancelled || (text::parsed_unsigned(
            request_id,
            0xffff_ffff_ffff_ffff,
        ) matches Some(epoch) ==> !h.grant.open_for(epoch as u64)),
{
}

/// Asking a host to close keeps its handle, and a wait for its end that was begun is never
/// given up.
pub proof fn lemma_closing_hosts(
    before: Option<HostEntry>,
    after: Option<HostEntry>,
    join: bool,
)
    requires
        host_bridge::host_cancelled(before, after, join),
    ensures
        before is Some && after is Some,
        after->0.id == before->0.id,
        after->0.closing,
        after->0.host@.cancelled,
        join || before->0.join_pending <==> after->0.join_pending,
{
}

/// A host listens until it is closed or stopped; one that is not there does not.
pub proof fn lemma_listening(snapshot: Option<host::HostSnapshotView>)
    ensures
        controlled_host::listening(snapshot) ==> (snapshot matches Some(s) && !s.closed && s.phase
            != "stopped"@),
        !controlled_host::listening(snapshot) ==> (snapshot matches Some(s) ==> s.closed || s.phase
            == "stopped"@),
{
}

/// The host that is looked at is the one that was started here, and none where another one
/// runs.
pub proof fn lemma_own_host(state: ControlledState, registry: HostRegistry)
    ensures
        controlled_host::started_host(state, registry) is Some <==> (state.handle matches Some(
            handle,
        ) && host_bridge::is_host(registry, handle@)),
        controlled_host::started_host(state, registry) matches Some(s) ==> s
            == registry.entry->0.host@.snapshot,
{
}

/// The number that is shown is the one to host with, and where there is none the configured
/// one.
pub proof fn lemma_shown_numbers(
    state: Option<Initialization>,
    keys: KeyPair,
    configured: Seq<char>,
)
    ensures
        ({
            let shown = controlled_host::shown_id(state, keys, configured);
            let own = engine::identity_of(state);
            let able = host_bridge::material_refusal(state, keys) is None;
            &&& able && own->0.len() > 0 ==> own == Some(shown)
            &&& !able || own->0.len() == 0 ==> shown == configured
        }),
{
}

/// A screen is hosted with even sides of at least two and a rate from 1 to 60; then the next
/// host has its size and rate, and otherwise nothing changes.
pub proof fn lemma_noted_screens(
    r: Seq<char>,
    before: ControlledState,
    after: ControlledState,
    s: Screen,
)
    requires
        controlled_host::screen_noted(r, before, after, s),
    ensures
        ({
            let fits = s.width >= 2 && s.height >= 2 && s.width % 2 == 0 && s.height % 2 == 0
                && s.rate.in_range;
            &&& fits ==> after.width == s.width && after.height == s.height && after.rate
                == s.rate.whole
            &&& !fits ==> after == before
            &&& after.handle == before.handle
            &&& after.settings == before.settings
            &&& after.running == before.running
        }),
{
}

/// Who is there: nobody where there is no host, and else the one whose request is known,
/// as a request until it is let in and as a peer from its request on; one that was let in
/// stays a peer when its origin is forgotten.
pub proof fn lemma_who_is_there(snapshot: Option<host::HostSnapshotView>)
    ensures
        ({
            let (clients, requests) = controlled_host::incoming_of(snapshot);
            &&& snapshot is None ==> clients.len() == 0 && requests.len() == 0
            &&& snapshot matches Some(s) ==> {
                let named = s.approval_origin.len() > 0;
                &&& clients.len() == (if s.connected || named {
                    1int
                } else {
                    0
                })
                &&& requests.len() == (if named && !s.connected {
                    1int
                } else {
                    0
                })
                &&& requests.len() == 1 ==> requests == clients
                &&& named ==> clients[0] == controlled_host::client_json(
                    s.approval_request,
                    s.approval_origin,
                    s.approval_origin,
                    s.connected,
                )
                &&& s.connected && !named ==> clients[0] == controlled_host::client_json(
                    Seq::empty(),
                    Seq::empty(),
                    "远端会话"@,
                    true,
                )
            }
        }),
{
}

/// The passwords that count are the temporary one, the permanent one, or both.
pub proof fn lemma_password_methods(method: Seq<char>)
    ensures
        controlled_host::is_method(method) ==> method == "use-temporary-password"@ || method
            == "use-permanent-password"@ || method == "use-both-passwords"@,
        !controlled_host::is_method(method) ==> method != "use-temporary-password"@ && method
            != "use-permanent-password"@ && method != "use-both-passwords"@,
{
}

/// A setting is kept where its name says something, neither it nor its value is longer than
/// 512 bytes, and there is room among 64 or it stands there already; what is kept is found
/// again, and the others stay.
pub proof fn lemma_kept_settings(
    settings: Seq<(Seq<char>, Seq<char>)>,
    key: Seq<char>,
    value: Seq<char>,
    other: Seq<char>,
)
    ensures
        ({
            let refusal = controlled_host::setting_refusal(settings, key, value);
            let fits = 0 < vstd::utf8::encode_utf8(key).len() <= 512 && vstd::utf8::encode_utf8(
                value,
            ).len() <= 512;
            let after = entries::placed(settings, key, value);
            &&& refusal is None <==> fits && (settings.len() < 64 || entries::value_of(
                settings,
                key,
            ) is Some)
            &&& !fits ==> refusal == Some("设置项超出长度限制"@)
            &&& entries::value_of(after, key) == Some(value)
            &&& other != key ==> entries::value_of(after, other) == entries::value_of(
                settings,
                other,
            )
            &&& refusal is None ==> controlled_host::setting_refusal(after, key, value) is None
        }),
{
    entries::lemma_put_is_found(settings, key, value, other);
}

} // verus!

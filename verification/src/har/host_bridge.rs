//! The host behind the application. It only shows its screen.
//!
//! There is one host at most, and it keeps its place until it is known to be over. That
//! a host was started approves nobody: each peer waits for the user.
use vstd::prelude::*;
use crate::encoding;
use crate::flutter_surface;
use crate::har;
use crate::har::engine;
use crate::har::engine::Initialization;
use crate::har::BridgeError;
use crate::host;
use crate::host::{Address, Host, HostError, HostOptions, HostSnapshot};
use crate::json;
use crate::publisher::{CodecSelection, PublisherBackend};
use crate::text;

verus! {

/// The port that a host listens on.
pub const HOST_PORT: u16 = 21118;

/// The rate of bits that a host starts with.
pub const HOST_BITRATE: i64 = 16_000_000;

/// Length of a secret signing key.
pub const SECRET_KEY_BYTES: usize = 64;

/// A host: its handle, and how far closing it has come.
pub struct HostEntry {
    pub id: String,
    pub host: Host,
    pub closing: bool,
    /// Somebody waits for the host to be over.
    pub join_pending: bool,
}

/// The host, if there is one, and the number of the next one.
pub struct HostRegistry {
    pub next: u64,
    pub entry: Option<HostEntry>,
}

/// The keys of this machine.
pub struct KeyPair {
    pub secret: Vec<u8>,
    pub public: Vec<u8>,
}

/// Why there is no identity to host with, if there is none.
pub open spec fn material_refusal(state: Option<Initialization>, keys: KeyPair) -> Option<
    Seq<char>,
> {
    if engine::identity_of(state) is None {
        Some("Initialize after privacy consent before enabling a host"@)
    } else if keys.secret@.len() != SECRET_KEY_BYTES {
        Some("Configured Ed25519 signing key has invalid length"@)
    } else if keys.public@.len() != flutter_surface::PUBLIC_KEY_BYTES {
        Some("Configured Ed25519 public key has invalid length"@)
    } else {
        None
    }
}

/// The identity of the application, where it has one and its keys are keys.
pub fn identity_material(state: &Option<Initialization>, keys: &KeyPair) -> (r: Result<
    String,
    BridgeError,
>)
    ensures
        match r {
            Ok(id) => material_refusal(*state, *keys) is None && engine::identity_of(*state)
                == Some(id@),
            Err(error) => material_refusal(*state, *keys) matches Some(what) && error@
                == har::failure(what),
        },
{
    let mut known: Option<String> = None;
    if let Some(kept) = state {
        if let Some(id) = &kept.id {
            known = Some(id.clone());
        }
    }
    match known {
        None => Err(har::failed("Initialize after privacy consent before enabling a host")),
        Some(id) => {
            if keys.secret.len() != SECRET_KEY_BYTES {
                return Err(har::failed("Configured Ed25519 signing key has invalid length"));
            }
            if keys.public.len() != flutter_surface::PUBLIC_KEY_BYTES {
                return Err(har::failed("Configured Ed25519 public key has invalid length"));
            }
            Ok(id)
        },
    }
}

/// Whether a picture can be shown: even sides, no side too long, and no more pixels
/// than a screen of the largest kind has.
pub open spec fn shows(width: int, height: int) -> bool {
    width % 2 == 0 && height % 2 == 0 && width * height <= 3840 * 2160
}

/// The handle of a host.
pub open spec fn host_handle(sequence: u64) -> Seq<char> {
    "modern-host-"@ + text::hexadecimal(sequence as nat)
}

/// Why a host does not start, if it does not. It can still be refused by the host
/// itself for an identity that is too long.
pub open spec fn start_refusal(
    registry: HostRegistry,
    state: Option<Initialization>,
    keys: KeyPair,
    width: Option<i64>,
    height: Option<i64>,
    fps: Option<i64>,
) -> Option<har::BridgeErrorView> {
    if !har::in_range(width, 2, 3840) || !har::in_range(height, 2, 3840) || !har::in_range(
        fps,
        1,
        60,
    ) {
        Some(har::invalidity("Expected an integer in the supported range"@))
    } else if !shows(width->0 as int, height->0 as int) {
        Some(har::invalidity("Host geometry must be even and at most UHD pixel area"@))
    } else if registry.entry is Some {
        Some(har::failure("A host is still active, closing or quarantined"@))
    } else if material_refusal(state, keys) is Some {
        Some(har::failure(material_refusal(state, keys)->0))
    } else if registry.next == u64::MAX {
        Some(har::failure("Host identifier space exhausted"@))
    } else {
        None
    }
}

/// Whether `o` are the options of a host: it listens on every address, and takes no
/// input.
pub open spec fn host_options_of(
    o: HostOptions,
    id: Seq<char>,
    keys: KeyPair,
    width: int,
    height: int,
    fps: int,
) -> bool {
    &&& o.listen.ip@ == "0.0.0.0"@
    &&& o.listen.text@ == "0.0.0.0:21118"@
    &&& o.listen.port == HOST_PORT
    &&& o.id@ == id
    &&& o.signing_key@ == keys.secret@
    &&& o.width == width
    &&& o.height == height
    &&& o.fps == fps
    &&& o.bitrate == HOST_BITRATE
    &&& !o.bitrate_auto
    &&& o.platform@ == "HarmonyOS"@
    &&& o.publisher_backend is Auto
    &&& o.output_index == 0
    &&& o.codec_selection is Auto
    &&& !o.input_injection
    &&& !o.input_sink
}

/// What became of starting a host.
pub struct StartedHost {
    pub id: String,
    pub options: HostOptions,
}

/// Whether the options of a host are accepted: its identity is not too long.
pub open spec fn identity_fits(state: Option<Initialization>) -> bool {
    0 < vstd::utf8::encode_utf8(engine::identity_of(state)->0).len() <= 512
}

fn geometry(width: Option<i64>, height: Option<i64>, fps: Option<i64>) -> (r: Result<
    (i32, i32, u32),
    BridgeError,
>)
    ensures
        match r {
            Ok((w, h, f)) => {
                &&& width == Some(w as i64) && height == Some(h as i64) && fps == Some(f as i64)
                &&& 2 <= w <= 3840 && 2 <= h <= 3840 && 1 <= f <= 60
                &&& shows(w as int, h as int)
            },
            Err(error) => if !har::in_range(width, 2, 3840) || !har::in_range(height, 2, 3840)
                || !har::in_range(fps, 1, 60) {
                error@ == har::invalidity("Expected an integer in the supported range"@)
            } else {
                !shows(width->0 as int, height->0 as int) && error@ == har::invalidity(
                    "Host geometry must be even and at most UHD pixel area"@,
                )
            },
        },
{
    let w: i64 = match har::integer(width, 2, 3840) {
        Err(error) => {
            return Err(error);
        },
        Ok(n) => n,
    };
    let h: i64 = match har::integer(height, 2, 3840) {
        Err(error) => {
            return Err(error);
        },
        Ok(n) => n,
    };
    let f: i64 = match har::integer(fps, 1, 60) {
        Err(error) => {
            return Err(error);
        },
        Ok(n) => n,
    };
    proof {
        assert(0 <= w * h <= 3840 * 3840) by (nonlinear_arith)
            requires
                2 <= w <= 3840,
                2 <= h <= 3840,
        ;
    }
    if w % 2 != 0 || h % 2 != 0 || w * h > 8_294_400 {
        return Err(har::invalid("Host geometry must be even and at most UHD pixel area"));
    }
    Ok((w as i32, h as i32, f as u32))
}

/// The error that a handle is none.
pub open spec fn host_lookup_error(e: har::BridgeErrorView, id: Seq<char>) -> bool {
    e == if vstd::utf8::encode_utf8(id).len() > 64 {
        har::invalidity("Invalid modern host handle"@)
    } else {
        har::invalidity("Unknown modern host"@)
    }
}

/// Whether `id` is the handle of the host.
pub open spec fn is_host(registry: HostRegistry, id: Seq<char>) -> bool {
    &&& vstd::utf8::encode_utf8(id).len() <= 64
    &&& registry.entry matches Some(entry)
    &&& entry.id@ == id
}

impl HostRegistry {
    /// No host.
    pub fn new() -> (r: HostRegistry)
        ensures
            r.next == 1,
            r.entry is None,
    {
        HostRegistry { next: 1, entry: None }
    }

    fn lookup(&self, id: &str) -> (r: Result<(), BridgeError>)
        ensures
            match r {
                Ok(_) => is_host(*self, id@),
                Err(error) => !is_host(*self, id@) && host_lookup_error(error@, id@),
            },
    {
        if text::byte_len(id) > 64 {
            return Err(har::invalid("Invalid modern host handle"));
        }
        match &self.entry {
            Some(entry) => {
                if text::same_text(entry.id.as_str(), id) {
                    return Ok(());
                }
            },
            None => {},
        }
        Err(har::invalid("Unknown modern host"))
    }

    /// Starts a host, as the user wants it. It approves nobody.
    pub fn engine_host_start(
        &mut self,
        state: &Option<Initialization>,
        keys: KeyPair,
        width: Option<i64>,
        height: Option<i64>,
        fps: Option<i64>,
    ) -> (r: Result<StartedHost, BridgeError>)
        ensures
            ({
                let refusal = start_refusal(*old(self), *state, keys, width, height, fps);
                match r {
                    Ok(started) => {
                        &&& refusal is None
                        &&& identity_fits(*state)
                        &&& started.id@ == host_handle(old(self).next)
                        &&& host_options_of(
                            started.options,
                            engine::identity_of(*state)->0,
                            keys,
                            width->0 as int,
                            height->0 as int,
                            fps->0 as int,
                        )
                        &&& final(self).next == old(self).next + 1
                        &&& final(self).entry matches Some(entry)
                        &&& entry.id@ == started.id@
                        &&& entry.host@ == host::HostView::started(
                            width->0 as i32,
                            height->0 as i32,
                            fps->0 as u32,
                        )
                        &&& !entry.closing && !entry.join_pending
                    },
                    Err(error) => {
                        &&& final(self).entry == old(self).entry
                        &&& match refusal {
                            Some(what) => error@ == what && final(self).next == old(self).next,
                            None => !identity_fits(*state) && error@ == har::failure(
                                HostError::InvalidOptions.shown(),
                            ) && final(self).next == old(self).next + 1,
                        }
                    },
                }
            }),
    {
        let (w, h, f) = match geometry(width, height, fps) {
            Err(error) => {
                return Err(error);
            },
            Ok(g) => g,
        };
        if self.entry.is_some() {
            return Err(har::failed("A host is still active, closing or quarantined"));
        }
        let id = match identity_material(state, &keys) {
            Err(error) => {
                return Err(error);
            },
            Ok(id) => id,
        };
        if self.next == u64::MAX {
            return Err(har::failed("Host identifier space exhausted"));
        }
        let sequence: u64 = self.next;
        self.next = sequence + 1;
        let options = HostOptions {
            listen: Address {
                ip: "0.0.0.0".to_owned(),
                text: "0.0.0.0:21118".to_owned(),
                port: HOST_PORT,
            },
            id,
            signing_key: keys.secret,
            width: w,
            height: h,
            fps: f,
            bitrate: HOST_BITRATE,
            bitrate_auto: false,
            platform: "HarmonyOS".to_owned(),
            publisher_backend: PublisherBackend::Auto,
            output_index: 0,
            codec_selection: CodecSelection::Auto,
            input_injection: false,
            input_sink: false,
        };
        proof {
            reveal_strlit("HarmonyOS");
            assert(w * h <= 33_554_432);
        }
        match Host::start(&options) {
            Err(error) => Err(har::failed(error.to_string().as_str())),
            Ok(host) => {
                let handle = text::joined("modern-host-", text::hexadecimal_text(sequence).as_str());
                self.entry = Some(
                    HostEntry { id: handle.clone(), host, closing: false, join_pending: false },
                );
                Ok(StartedHost { id: handle, options })
            },
        }
    }

    /// What is seen of the host, as a JSON text.
    pub fn engine_host_snapshot(&self, id: &str) -> (r: Result<String, BridgeError>)
        ensures
            match r {
                Ok(text) => is_host(*self, id@) && text@ == host_json(
                    self.entry->0.host@.snapshot,
                ),
                Err(error) => !is_host(*self, id@) && host_lookup_error(error@, id@),
            },
    {
        match self.lookup(id) {
            Err(error) => {
                return Err(error);
            },
            Ok(_) => {},
        }
        match &self.entry {
            Some(entry) => Ok(host_text(entry.host.snapshot())),
            None => Err(har::invalid("Unknown modern host")),
        }
    }

    /// The user's decision about a request. It does not count where the host is
    /// closing.
    pub fn engine_host_approve(&mut self, id: &str, request_id: &str, allow: bool) -> (r: Result<
        bool,
        BridgeError,
    >)
        ensures
            final(self).next == old(self).next,
            ({
                let len = vstd::utf8::encode_utf8(request_id@).len();
                match r {
                    Ok(counts) => {
                        let before = old(self).entry->0;
                        &&& 0 < len <= 256
                        &&& is_host(*old(self), id@)
                        &&& counts == (!before.closing && approves(before.host, request_id@))
                        &&& final(self).entry matches Some(after)
                        &&& after.id == before.id
                        &&& after.closing == before.closing
                        &&& after.join_pending == before.join_pending
                        &&& after.host@ == (host::HostView {
                            grant: if counts {
                                before.host.grant.decided(before.host.grant.epoch, allow)
                            } else {
                                before.host.grant
                            },
                            ..before.host@
                        })
                    },
                    Err(error) => {
                        &&& *final(self) == *old(self)
                        &&& if 0 < len <= 256 {
                            !is_host(*old(self), id@) && host_lookup_error(error@, id@)
                        } else {
                            error@ == har::invalidity("Invalid local approval request"@)
                        }
                    },
                }
            }),
    {
        let len: usize = text::byte_len(request_id);
        if len == 0 || len > 256 {
            return Err(har::invalid("Invalid local approval request"));
        }
        match self.lookup(id) {
            Err(error) => {
                return Err(error);
            },
            Ok(_) => {},
        }
        match &mut self.entry {
            Some(entry) => {
                if entry.closing {
                    return Ok(false);
                }
                Ok(entry.host.approve(request_id, allow))
            },
            None => Err(har::invalid("Unknown modern host")),
        }
    }

    /// Asks the host to close.
    pub fn engine_host_request_close(&mut self, id: &str) -> (r: Result<(), BridgeError>)
        ensures
            final(self).next == old(self).next,
            match r {
                Ok(_) => is_host(*old(self), id@) && host_cancelled(
                    old(self).entry,
                    final(self).entry,
                    false,
                ),
                Err(error) => !is_host(*old(self), id@) && host_lookup_error(error@, id@)
                    && *final(self) == *old(self),
            },
    {
        match self.lookup(id) {
            Err(error) => {
                return Err(error);
            },
            Ok(_) => {},
        }
        if let Some(entry) = &mut self.entry {
            entry.closing = true;
            entry.host.request_close();
        }
        Ok(())
    }

    /// Asks the host to close, and takes it upon the caller to wait for that. Only one
    /// caller waits.
    pub fn begin_close(&mut self, id: &str) -> (r: Result<(), BridgeError>)
        ensures
            final(self).next == old(self).next,
            match r {
                Ok(_) => is_host(*old(self), id@) && !old(self).entry->0.join_pending
                    && host_cancelled(old(self).entry, final(self).entry, true),
                Err(error) => if is_host(*old(self), id@) {
                    &&& old(self).entry->0.join_pending
                    &&& error@ == har::failure("Host close already pending or quarantined"@)
                    &&& host_cancelled(old(self).entry, final(self).entry, true)
                } else {
                    host_lookup_error(error@, id@) && *final(self) == *old(self)
                },
            },
    {
        match self.lookup(id) {
            Err(error) => {
                return Err(error);
            },
            Ok(_) => {},
        }
        let mut pending = false;
        if let Some(entry) = &mut self.entry {
            entry.closing = true;
            entry.host.request_close();
            pending = entry.join_pending;
            entry.join_pending = true;
        }
        if pending {
            return Err(har::failed("Host close already pending or quarantined"));
        }
        Ok(())
    }

    /// Waiting for the host is over; `panicked` tells whether its task did. The place is
    /// free where everything was released, and otherwise the host keeps it.
    pub fn engine_host_close(&mut self, id: &str, panicked: bool) -> (r: Result<(), BridgeError>)
        requires
            is_host(*old(self), id@),
        ensures
            final(self).next == old(self).next,
            ({
                let before = old(self).entry->0;
                let released = !before.host.unreclaimed && !panicked
                    && before.host.snapshot.closed;
                match r {
                    Ok(_) => released && final(self).entry is None,
                    Err(error) => {
                        &&& !released
                        &&& error@ == har::failure(HostError::ReclamationUnconfirmed.shown())
                        &&& final(self).entry matches Some(after)
                        &&& after.id == before.id
                        &&& after.closing == before.closing
                        &&& after.join_pending == before.join_pending
                        &&& after.host@ == (host::HostView {
                            cancelled: true,
                            unreclaimed: before.host.unreclaimed || panicked,
                            ..before.host@
                        })
                    },
                }
            }),
    {
        let mut outcome: Result<(), HostError> = Ok(());
        if let Some(entry) = &mut self.entry {
            outcome = entry.host.close(panicked);
        }
        match outcome {
            Err(error) => Err(har::failed(error.to_string().as_str())),
            Ok(_) => {
                self.entry = None;
                Ok(())
            },
        }
    }
}

/// Whether the host waits for a decision about a request.
pub open spec fn approves(h: Host, request_id: Seq<char>) -> bool {
    !h.cancelled && match text::parsed_unsigned(request_id, u64::MAX as nat) {
        Some(epoch) => h.grant.open_for(epoch as u64),
        None => false,
    }
}

/// Whether the host was asked to close, and nothing else of it changed.
pub open spec fn host_cancelled(
    before: Option<HostEntry>,
    after: Option<HostEntry>,
    join: bool,
) -> bool {
    &&& before is Some
    &&& after matches Some(entry)
    &&& entry.id == before->0.id
    &&& entry.closing
    &&& entry.join_pending == (before->0.join_pending || join)
    &&& entry.host@ == (host::HostView { cancelled: true, ..before->0.host@ })
}

/// What is seen of a host, as a JSON object.
pub open spec fn host_json(s: host::HostSnapshotView) -> Seq<char> {
    json::ObjectView::empty().with("phase"@, json::json_string(s.phase)).with(
        "error"@,
        json::optional_string(
            match s.error {
                Some(error) => Some(error.shown()),
                None => None,
            },
        ),
    ).with("approval_request"@, json::json_string(s.approval_request)).with(
        "approval_origin"@,
        json::json_string(s.approval_origin),
    ).with("width"@, text::signed_decimal(s.width as int)).with(
        "height"@,
        text::signed_decimal(s.height as int),
    ).with("fps"@, text::decimal(s.fps as nat)).with("codec"@, json::json_string(s.codec)).with(
        "connected"@,
        text::truth(s.connected),
    ).with("encrypted"@, text::truth(s.encrypted)).with(
        "sent_units"@,
        text::decimal(s.sent_units as nat),
    ).with("sent_bytes"@, text::decimal(s.sent_bytes as nat)).with(
        "closed"@,
        text::truth(s.closed),
    ).text()
}

/// What is seen of a host, as a JSON text.
pub fn host_text(s: &HostSnapshot) -> (r: String)
    ensures
        r@ == host_json(s@),
{
    let mut object = json::Object::new();
    object.put_text("phase", s.phase);
    match &s.error {
        Some(error) => object.put_text("error", error.to_string().as_str()),
        None => object.put("error", "null"),
    }
    object.put_text("approval_request", s.approval_request.as_str());
    object.put_text("approval_origin", s.approval_origin.as_str());
    object.put_number("width", s.width);
    object.put_number("height", s.height);
    object.put_count("fps", s.fps as u64);
    object.put_text("codec", s.codec);
    object.put_bool("connected", s.connected);
    object.put_bool("encrypted", s.encrypted);
    object.put_count("sent_units", s.sent_units);
    object.put_count("sent_bytes", s.sent_bytes);
    object.put_bool("closed", s.closed);
    object.text()
}

/// The identity that a user gives to others, so that they can pin this machine: its
/// number and its public key, never the secret one.
pub open spec fn identity_json(id: Seq<char>, key: Seq<char>) -> Seq<char> {
    json::ObjectView::empty().with("id"@, json::json_string(id)).with(
        "peer_signing_key_base64"@,
        json::json_string(key),
    ).text()
}

/// The identity of this machine, for others to pin.
pub fn engine_host_identity(state: &Option<Initialization>, keys: &KeyPair) -> (r: Result<
    String,
    BridgeError,
>)
    ensures
        match r {
            Ok(text) => material_refusal(*state, *keys) is None && text@ == identity_json(
                engine::identity_of(*state)->0,
                encoding::base64_text(keys.public@),
            ),
            Err(error) => material_refusal(*state, *keys) matches Some(what) && error@
                == har::failure(what),
        },
{
    match identity_material(state, keys) {
        Err(error) => Err(error),
        Ok(id) => {
            let key = public_pin(keys);
            let mut object = json::Object::new();
            object.put_text("id", id.as_str());
            object.put_text("peer_signing_key_base64", key.as_str());
            Ok(object.text())
        },
    }
}

/// The public key as others pin it: the pin that a connection to this machine takes,
/// and from which it gets the key back.
pub fn public_pin(keys: &KeyPair) -> (r: String)
    requires
        keys.public@.len() == flutter_surface::PUBLIC_KEY_BYTES,
    ensures
        r@ == encoding::base64_text(keys.public@),
        forall|peer_id: Seq<char>|
            0 < vstd::utf8::encode_utf8(peer_id).len() <= 512 ==> #[trigger] engine::pin_of(
                peer_id,
                r@,
            ) == Ok::<Seq<u8>, har::BridgeErrorView>(keys.public@),
{
    encoding::encode_base64(keys.public.as_slice())
}

/// A host that is closing decides about nobody any more.
pub proof fn lemma_closing_host_approves_nobody(
    before: Option<HostEntry>,
    after: Option<HostEntry>,
    join: bool,
    request_id: Seq<char>,
)
    requires
        host_cancelled(before, after, join),
    ensures
        !approves(after->0.host, request_id),
{
    assert(after->0.host@.cancelled);
}

} // verus!

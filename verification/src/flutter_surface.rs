//! Textures of the frontend, and where peers are found.
//!
//! The frontend registers a texture for a session before it starts one. No frame is
//! delivered to it yet: a lease names no surface, so that opening a decoder on it
//! fails instead of leaving the texture black.
use std::collections::HashMap;
use vstd::prelude::*;
use crate::encoding;
use crate::flutter_state::AppConfig;
use crate::entries;

verus! {

/// The number that stands for no surface.
pub const NO_SURFACE: u64 = 0;

/// How long finding a peer may take, in seconds.
pub const CONNECT_TIMEOUT_SECS: u64 = 45;

/// A texture that a session renders to.
#[derive(Debug, Clone, Copy, PartialEq, Eq, Structural)]
pub struct TextureLease {
    pub texture_key: i32,
}

impl TextureLease {
    /// The surface of this lease: none.
    pub fn surface_id(&self) -> (r: u64)
        ensures
            r == NO_SURFACE,
    {
        NO_SURFACE
    }
}

/// The number after `key`; after the largest comes the smallest.
pub open spec fn next_key(key: i32) -> i32 {
    if key == i32::MAX {
        i32::MIN
    } else {
        (key + 1) as i32
    }
}

/// The textures: the next key, and the lease of each session.
pub struct Textures {
    pub next: i32,
    pub leases: HashMap<u128, TextureLease>,
}

impl Textures {
    /// Whether every key on lease was given out before the next one, and to one session
    /// alone.
    pub open spec fn wf(self) -> bool {
        &&& forall|id: u128| #[trigger]
            self.leases@.dom().contains(id) ==> self.leases@[id].texture_key < self.next
        &&& forall|a: u128, b: u128|
            #![trigger self.leases@.dom().contains(a), self.leases@.dom().contains(b)]
            self.leases@.dom().contains(a) && self.leases@.dom().contains(b) && a != b
                ==> self.leases@[a].texture_key != self.leases@[b].texture_key
    }

    /// No session has a lease yet.
    pub fn new() -> (r: Textures)
        ensures
            r.wf(),
            r.next == 1,
            r.leases@ == Map::<u128, TextureLease>::empty(),
    {
        Textures { next: 1, leases: HashMap::new() }
    }
}

/// The next key.
pub fn next_texture_key(textures: &mut Textures) -> (r: i32)
    ensures
        r == old(textures).next,
        *final(textures) == (Textures { next: next_key(old(textures).next), ..*old(textures) }),
        old(textures).wf() && old(textures).next < i32::MAX ==> final(textures).wf(),
{
    let key: i32 = textures.next;
    textures.next = if key == i32::MAX {
        i32::MIN
    } else {
        key + 1
    };
    key
}

/// Whether `lease` is the lease of a session: the one that it had, or a new one that
/// it keeps.
pub open spec fn leased(before: Textures, after: Textures, id: u128, lease: TextureLease) -> bool {
    if before.leases@.dom().contains(id) {
        after == before && lease == before.leases@[id]
    } else {
        &&& lease.texture_key == before.next
        &&& after.next == next_key(before.next)
        &&& after.leases@ == before.leases@.insert(id, lease)
    }
}

/// The lease of a session: the one that it has, or a new one that it keeps.
pub fn lease_for(textures: &mut Textures, id: u128) -> (r: TextureLease)
    ensures
        leased(*old(textures), *final(textures), id, r),
        old(textures).wf() && old(textures).next < i32::MAX ==> final(textures).wf(),
{
    broadcast use vstd::std_specs::hash::group_hash_axioms;

    if let Some(lease) = textures.leases.get(&id) {
        return *lease;
    }
    let lease = TextureLease { texture_key: next_texture_key(textures) };
    textures.leases.insert(id, lease);
    lease
}

/// A session needs its lease no more.
pub fn release_lease(textures: &mut Textures, id: u128)
    ensures
        final(textures).next == old(textures).next,
        final(textures).leases@ == old(textures).leases@.remove(id),
        old(textures).wf() ==> final(textures).wf(),
{
    broadcast use vstd::std_specs::hash::group_hash_axioms;

    textures.leases.remove(&id);
    assert(textures.leases@ =~= old(textures).leases@.remove(id));
}

/// Where a peer is found, and whom to trust about it.
#[derive(Debug)]
pub struct RendezvousConfig {
    pub id: String,
    pub rendezvous_server: String,
    /// The key of the server.
    pub server_key: Vec<u8>,
    pub licence_key: String,
    pub relay_server: Option<String>,
    pub connect_timeout_secs: u64,
}

/// Length of a public key.
pub const PUBLIC_KEY_BYTES: usize = 32;

/// The key that the configuration names: its own, or else the public one.
pub open spec fn chosen_key(configured: Seq<char>, public: Seq<char>) -> Seq<char> {
    if configured.len() == 0 {
        public
    } else {
        configured
    }
}

/// A key as bytes, where it is one.
pub open spec fn key_of(decoded: Option<Seq<u8>>) -> Option<Seq<u8>> {
    match decoded {
        Some(b) => if b.len() == PUBLIC_KEY_BYTES {
            Some(b)
        } else {
            None
        },
        None => None,
    }
}

/// Bytes that a key decoded to, where they are one.
pub fn public_key(decoded: Option<Vec<u8>>) -> (r: Option<Vec<u8>>)
    ensures
        ({
            let held = match decoded {
                Some(b) => Some(b@),
                None => None,
            };
            match r {
                Some(key) => key_of(held) == Some(key@),
                None => key_of(held) is None,
            }
        }),
{
    match decoded {
        Some(b) => {
            if b.len() == PUBLIC_KEY_BYTES {
                Some(b)
            } else {
                None
            }
        },
        None => None,
    }
}

/// Where a peer is found, from the configuration. `public` is the key of the public
/// server. A configured key that is none is an error and never replaced by the
/// public one, which would trust the wrong server.
pub fn rendezvous_config(config: &AppConfig, public: &str, id: String) -> (r: Result<
    RendezvousConfig,
    String,
>)
    ensures
        ({
            let key = chosen_key(entries::value_or_empty(config.options@, "key"@), public@);
            match r {
                Ok(found) => {
                    &&& found.id@ == id@
                    &&& found.rendezvous_server@ == config.rendezvous_server@
                    &&& key_of(encoding::base64_bytes(key)) == Some(found.server_key@)
                    &&& found.licence_key@ == key
                    &&& found.relay_server is None
                    &&& found.connect_timeout_secs == CONNECT_TIMEOUT_SECS
                },
                Err(what) => {
                    &&& key_of(encoding::base64_bytes(key)) is None
                    &&& what@ == "Configured rendezvous trust anchor is invalid"@
                },
            }
        }),
{
    let configured = config.options.get_or_empty("key");
    let licence_key = if configured.as_str().is_empty() {
        public.to_owned()
    } else {
        configured
    };
    match public_key(encoding::decode_base64(licence_key.as_str())) {
        None => Err("Configured rendezvous trust anchor is invalid".to_owned()),
        Some(server_key) => Ok(
            RendezvousConfig {
                id,
                rendezvous_server: config.rendezvous_server.clone(),
                server_key,
                licence_key,
                relay_server: None,
                connect_timeout_secs: CONNECT_TIMEOUT_SECS,
            },
        ),
    }
}

/// The next key is another one, and a larger one as long as there is one.
pub proof fn lemma_keys_do_not_repeat(key: i32)
    ensures
        next_key(key) != key,
        key < i32::MAX ==> next_key(key) > key,
{
}

/// A session that asks again has the lease that it had, and nothing else changes.
pub proof fn lemma_lease_is_kept(
    before: Textures,
    between: Textures,
    after: Textures,
    id: u128,
    first: TextureLease,
    second: TextureLease,
)
    requires
        leased(before, between, id, first),
        leased(between, after, id, second),
    ensures
        second == first,
        after == between,
{
}

/// A session that releases its lease and asks again gets another one, whatever other
/// sessions hold.
pub proof fn lemma_released_lease_is_gone(
    before: Textures,
    released: Textures,
    after: Textures,
    id: u128,
    lease: TextureLease,
)
    requires
        before.wf(),
        before.leases@.dom().contains(id),
        released.next == before.next,
        released.leases@ == before.leases@.remove(id),
        leased(released, after, id, lease),
    ensures
        lease != before.leases@[id],
        after.leases@[id] == lease,
{
}

/// A lease that a session did not have yet is one that no session holds.
pub proof fn lemma_new_lease_is_free(
    before: Textures,
    after: Textures,
    id: u128,
    other: u128,
    lease: TextureLease,
)
    requires
        before.wf(),
        !before.leases@.dom().contains(id),
        leased(before, after, id, lease),
        before.leases@.dom().contains(other),
    ensures
        lease != before.leases@[other],
{
}

/// The lease of a session does not change when another one asks for or releases its own.
pub proof fn lemma_other_leases_are_kept(
    before: Textures,
    asked: Textures,
    released: Textures,
    id: u128,
    other: u128,
    lease: TextureLease,
)
    requires
        id != other,
        leased(before, asked, id, lease),
        released.leases@ == before.leases@.remove(id),
    ensures
        asked.leases@.dom().contains(other) == before.leases@.dom().contains(other),
        released.leases@.dom().contains(other) == before.leases@.dom().contains(other),
        before.leases@.dom().contains(other) ==> asked.leases@[other] == before.leases@[other]
            && released.leases@[other] == before.leases@[other],
{
}

/// Keys on lease stay in front of the next one, and stay those of one session, whatever
/// is asked for and released, as long as keys do not start again from the smallest.
pub proof fn lemma_leases_stay_apart(
    before: Textures,
    asked: Textures,
    released: Textures,
    id: u128,
    lease: TextureLease,
)
    requires
        before.wf(),
        leased(before, asked, id, lease),
        released.next == before.next,
        released.leases@ == before.leases@.remove(id),
    ensures
        before.next < i32::MAX ==> asked.wf(),
        released.wf(),
{
}

} // verus!

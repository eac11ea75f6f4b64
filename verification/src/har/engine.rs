//! The engine behind the application: its configuration, its viewers and what the
//! hardware can do.
//!
//! A viewer holds its surface until its session is known to be over. A session that
//! does not end keeps its slot and its surface, so that nothing is freed under it.
use vstd::prelude::*;
use crate::encoding;
use crate::entries;
use crate::flutter_state::AppConfig;
use crate::flutter_surface;
use crate::flutter_surface::RendezvousConfig;
use crate::har;
use crate::har::BridgeError;
use crate::host::Address;
use crate::json;
use crate::text;
use crate::viewer;
use crate::viewer::{Connector, QueueState, Viewer, ViewerError, ViewerImageQuality, ViewerOptions, ViewerSnapshot};

verus! {

/// Most sessions at once.
pub const MAX_SESSIONS: usize = 4;

/// The configuration of the application, bound to a directory. It has an identity once
/// everything went well, and never another directory.
#[derive(Debug)]
pub struct Initialization {
    pub directory: String,
    pub id: Option<String>,
}

/// A directory that exists, with its path without links.
#[derive(Debug)]
pub struct Directory {
    pub path: String,
    pub is_directory: bool,
    pub has_parent: bool,
}

/// What binding a directory leaves to do.
#[derive(Debug, PartialEq, Eq)]
pub enum Binding {
    /// The directory was bound before; this is the identity.
    Known(String),
    /// The directory is bound now and has to be set up.
    SetUp,
}

/// Whether two dots stand at `i` as a part of a path.
pub open spec fn parent_at(path: Seq<char>, i: int) -> bool {
    &&& 0 <= i
    &&& i + 1 < path.len()
    &&& path[i] == '.'
    &&& path[i + 1] == '.'
    &&& (i == 0 || path[i - 1] == '/')
    &&& (i + 2 == path.len() || path[i + 2] == '/')
}

/// Whether a path is absolute and never goes up.
pub open spec fn plain_path(path: Seq<char>) -> bool {
    &&& path.len() > 0 && path[0] == '/'
    &&& forall|i: int| !#[trigger] parent_at(path, i)
}

/// Checks that the path of the application is absolute and never goes up.
pub fn check_path(app_dir: &str) -> (r: Result<(), BridgeError>)
    ensures
        match r {
            Ok(_) => plain_path(app_dir@),
            Err(error) => !plain_path(app_dir@) && error@ == har::invalidity(
                "Expected the absolute Ability files directory"@,
            ),
        },
{
    let path = text::chars_of(app_dir);
    if path.len() == 0 || path[0] != '/' {
        return Err(har::invalid("Expected the absolute Ability files directory"));
    }
    let mut i: usize = 0;
    while i < path.len() - 1
        invariant
            path@ == app_dir@,
            path@.len() >= 1,
            i < path@.len(),
            forall|j: int| 0 <= j < i ==> !#[trigger] parent_at(path@, j),
        decreases path@.len() - i,
    {
        if path[i] == '.' && path[i + 1] == '.' && (i == 0 || path[i - 1] == '/') && (path.len() - i
            == 2 || path[i + 2] == '/') {
            assert(parent_at(path@, i as int));
            return Err(har::invalid("Expected the absolute Ability files directory"));
        }
        assert(!parent_at(path@, i as int));
        i = i + 1;
    }
    Ok(())
}

/// What binding a directory does.
pub open spec fn bind_answer(
    r: Result<Binding, BridgeError>,
    before: Option<Initialization>,
    after: Option<Initialization>,
    directory: Option<Directory>,
) -> bool {
    match directory {
        None => {
            &&& r matches Err(error)
            &&& error@ == har::invalidity("App directory is unavailable"@)
            &&& after == before
        },
        Some(found) => if !found.is_directory || !found.has_parent {
            &&& r matches Err(error)
            &&& error@ == har::invalidity("Expected an existing private App directory"@)
            &&& after == before
        } else {
            match before {
                Some(state) => {
                    &&& after == before
                    &&& if state.directory@ != found.path@ {
                        r matches Err(error) && error@ == har::invalidity(
                            "Cannot reinitialize with another App directory"@,
                        )
                    } else {
                        match state.id {
                            Some(id) => r matches Ok(Binding::Known(known)) && known@ == id@,
                            None => r matches Err(error) && error@ == har::failure(
                                "App initialization previously failed"@,
                            ),
                        }
                    }
                },
                None => {
                    &&& r matches Ok(Binding::SetUp)
                    &&& after matches Some(state)
                    &&& state.directory@ == found.path@
                    &&& state.id is None
                },
            }
        },
    }
}

/// Binds the configuration to a directory. It stays bound even where setting it up
/// fails, so that it is never bound to another identity.
pub fn bind_directory(state: &mut Option<Initialization>, directory: &Option<Directory>) -> (r:
    Result<Binding, BridgeError>)
    ensures
        bind_answer(r, *old(state), *final(state), *directory),
{
    let found = match directory {
        None => {
            return Err(har::invalid("App directory is unavailable"));
        },
        Some(found) => found,
    };
    if !found.is_directory || !found.has_parent {
        return Err(har::invalid("Expected an existing private App directory"));
    }
    if let Some(previous) = &*state {
        if !text::same_text(previous.directory.as_str(), found.path.as_str()) {
            return Err(har::invalid("Cannot reinitialize with another App directory"));
        }
        return match &previous.id {
            Some(id) => Ok(Binding::Known(id.clone())),
            None => Err(har::failed("App initialization previously failed")),
        };
    }
    *state = Some(Initialization { directory: found.path.clone(), id: None });
    Ok(Binding::SetUp)
}

/// What became of setting up the directory, in the order of its steps.
#[derive(Debug)]
pub struct SetUpReport {
    pub crypto: bool,
    pub app_directory: bool,
    pub home_directory: bool,
    /// The identity, or nothing where there is none.
    pub id: String,
    /// Whether the identity is stored in a file.
    pub stored: bool,
}

/// Why setting up a directory failed, if it did.
pub open spec fn set_up_failure(report: SetUpReport) -> Option<Seq<char>> {
    if !report.crypto {
        Some("Crypto initialization failed"@)
    } else if !report.app_directory {
        Some("App directory configuration unavailable"@)
    } else if !report.home_directory {
        Some("App home configuration unavailable"@)
    } else if report.id@.len() == 0 || !report.stored {
        Some("Authoritative local identity unavailable"@)
    } else {
        None
    }
}

/// Finishes setting up a directory. Only then does the application have an identity.
pub fn finish_set_up(state: &mut Option<Initialization>, report: &SetUpReport) -> (r: Result<
    String,
    BridgeError,
>)
    ensures
        match r {
            Ok(id) => {
                &&& set_up_failure(*report) is None
                &&& id@ == report.id@
                &&& match (*old(state), *final(state)) {
                    (Some(before), Some(after)) => after.directory == before.directory && (
                    after.id matches Some(kept) && kept@ == report.id@),
                    (before, after) => before is None && after is None,
                }
            },
            Err(error) => {
                &&& set_up_failure(*report) matches Some(what)
                &&& error@ == har::failure(what)
                &&& *final(state) == *old(state)
            },
        },
{
    if !report.crypto {
        return Err(har::failed("Crypto initialization failed"));
    }
    if !report.app_directory {
        return Err(har::failed("App directory configuration unavailable"));
    }
    if !report.home_directory {
        return Err(har::failed("App home configuration unavailable"));
    }
    if report.id.as_str().is_empty() || !report.stored {
        return Err(har::failed("Authoritative local identity unavailable"));
    }
    if let Some(kept) = state {
        kept.id = Some(report.id.clone());
    }
    Ok(report.id.clone())
}

/// The identity of the application, once it has one.
pub open spec fn identity_of(state: Option<Initialization>) -> Option<Seq<char>> {
    match state {
        Some(kept) => match kept.id {
            Some(id) => Some(id@),
            None => None,
        },
        None => None,
    }
}

/// Why a connection may not be made as `id`, if it may not.
pub open spec fn identity_refusal(state: Option<Initialization>, id: Seq<char>) -> Option<
    har::BridgeErrorView,
> {
    match identity_of(state) {
        Some(authoritative) => if authoritative == id {
            None
        } else {
            Some(har::invalidity("Local identity does not match initialized configuration"@))
        },
        None => Some(har::failure("Initialize after privacy consent before connecting"@)),
    }
}

/// Checks that `id` is the identity of the application.
pub fn require_local_identity(state: &Option<Initialization>, id: &str) -> (r: Result<
    (),
    BridgeError,
>)
    ensures
        match r {
            Ok(_) => identity_refusal(*state, id@) is None,
            Err(error) => identity_refusal(*state, id@) == Some(error@),
        },
{
    if let Some(kept) = state {
        if let Some(authoritative) = &kept.id {
            if text::same_text(authoritative.as_str(), id) {
                return Ok(());
            }
            return Err(har::invalid("Local identity does not match initialized configuration"));
        }
    }
    Err(har::failed("Initialize after privacy consent before connecting"))
}

/// The number of a surface: a positive one.
pub open spec fn surface_number(s: Seq<char>) -> Option<nat> {
    match text::parsed_unsigned(s, u64::MAX as nat) {
        Some(n) => if n != 0 {
            Some(n)
        } else {
            None
        },
        None => None,
    }
}

/// The number of a surface, where the text is one.
pub fn parse_surface(s: &str) -> (r: Option<u64>)
    ensures
        match r {
            Some(n) => surface_number(s@) == Some(n as nat),
            None => surface_number(s@) is None,
        },
{
    match text::parse_unsigned(s, u64::MAX) {
        Some(n) => {
            if n != 0 {
                Some(n)
            } else {
                None
            }
        },
        None => None,
    }
}

/// What is needed to start a viewer.
pub struct Request {
    pub surface: u64,
    pub options: ViewerOptions,
    pub connector: Connector,
    /// The key of the peer, where it is known.
    pub peer_key: Option<Vec<u8>>,
    /// Where the peer is found, where it is found by its number.
    pub rendezvous: Option<RendezvousConfig>,
}

/// Arguments of a direct connection. `address` is how the address reads, where it is
/// one.
pub struct DirectArguments {
    pub surface_id: String,
    pub address: Option<Address>,
    pub username: String,
    pub local_id: String,
    pub local_name: String,
    pub fps: Option<i64>,
}

/// The name that a direct connection logs in with: the given one, or else the address
/// without its port, which proves nothing about the peer.
pub open spec fn login_name(username: Seq<char>, address: Address) -> Seq<char> {
    if username.len() == 0 {
        address.ip@
    } else {
        username
    }
}

/// Whether names and the password are not too long.
pub open spec fn names_fit(
    username: Seq<char>,
    local_id: Seq<char>,
    local_name: Seq<char>,
    password: Seq<char>,
) -> bool {
    &&& 0 < vstd::utf8::encode_utf8(username).len() <= 256
    &&& 0 < vstd::utf8::encode_utf8(local_id).len() <= 256
    &&& vstd::utf8::encode_utf8(local_name).len() <= 256
    &&& vstd::utf8::encode_utf8(password).len() <= 4096
}

/// Why a direct connection is not made, if it is not.
pub open spec fn direct_refusal(
    state: Option<Initialization>,
    a: DirectArguments,
    password: Seq<char>,
) -> Option<har::BridgeErrorView> {
    if identity_refusal(state, a.local_id@) is Some {
        identity_refusal(state, a.local_id@)
    } else if surface_number(a.surface_id@) is None {
        Some(har::invalidity("Invalid Surface ID"@))
    } else if a.address is None {
        Some(har::invalidity("Use an IP address and port"@))
    } else if a.address->0.port == 0 || !names_fit(
        login_name(a.username@, a.address->0),
        a.local_id@,
        a.local_name@,
        password,
    ) {
        Some(har::invalidity("Invalid modern connection options"@))
    } else if !har::in_range(a.fps, 1, 240) {
        Some(har::invalidity("Expected an integer in the supported range"@))
    } else {
        None
    }
}

/// Whether `o` are the options of a viewer with the given login.
pub open spec fn options_of(
    o: ViewerOptions,
    username: Seq<char>,
    local_id: Seq<char>,
    local_name: Seq<char>,
    password: Seq<char>,
    fps: Option<i64>,
) -> bool {
    &&& o.username@ == username
    &&& o.local_id@ == local_id
    &&& o.local_name@ == local_name
    &&& o.password@ == password
    &&& fps == Some(o.requested_fps as i64)
    &&& !o.clipboard_enabled
    &&& o.image_quality is Balanced
}

fn take_text(s: &mut String) -> (r: String)
    ensures
        r@ == old(s)@,
        final(s)@ == Seq::<char>::empty(),
{
    let mut taken = String::new();
    std::mem::swap(&mut taken, s);
    assert(s@ =~= Seq::<char>::empty());
    taken
}

/// Whether `r` is the answer to a direct connection, where `pin` is what is known of
/// the peer: its number and its key.
pub open spec fn direct_answer(
    r: Result<Request, BridgeError>,
    state: Option<Initialization>,
    a: DirectArguments,
    password: Seq<char>,
    pin: Option<(Seq<char>, Seq<u8>)>,
) -> bool {
    match r {
        Ok(request) => {
            &&& direct_refusal(state, a, password) is None
            &&& surface_number(a.surface_id@) == Some(request.surface as nat)
            &&& request.options.address == a.address
            &&& options_of(
                request.options,
                login_name(a.username@, a.address->0),
                a.local_id@,
                a.local_name@,
                password,
                a.fps,
            )
            &&& request.rendezvous is None
            &&& match pin {
                Some((id, key)) => {
                    &&& request.connector matches Connector::Pinned { expected_id }
                    &&& expected_id@ == id
                    &&& request.peer_key matches Some(held)
                    &&& held@ == key
                },
                None => request.connector is Unverified && request.peer_key is None,
            }
        },
        Err(error) => direct_refusal(state, a, password) == Some(error@),
    }
}

fn check_direct(state: &Option<Initialization>, a: &DirectArguments, password: &str) -> (r: Result<
    (u64, u32),
    BridgeError,
>)
    ensures
        match r {
            Ok((surface, fps)) => direct_refusal(*state, *a, password@) is None && surface_number(
                a.surface_id@,
            ) == Some(surface as nat) && a.fps == Some(fps as i64),
            Err(error) => direct_refusal(*state, *a, password@) == Some(error@),
        },
{
    match require_local_identity(state, a.local_id.as_str()) {
        Err(error) => {
            return Err(error);
        },
        Ok(_) => {},
    }
    let surface: u64 = match parse_surface(a.surface_id.as_str()) {
        None => {
            return Err(har::invalid("Invalid Surface ID"));
        },
        Some(surface) => surface,
    };
    let address = match &a.address {
        None => {
            return Err(har::invalid("Use an IP address and port"));
        },
        Some(address) => address,
    };
    let username_len: usize = if a.username.as_str().is_empty() {
        text::byte_len(address.ip.as_str())
    } else {
        text::byte_len(a.username.as_str())
    };
    let local_len: usize = text::byte_len(a.local_id.as_str());
    if address.port == 0 || username_len == 0 || username_len > 256 || local_len == 0 || local_len
        > 256 || text::byte_len(a.local_name.as_str()) > 256 || text::byte_len(password) > 4096 {
        return Err(har::invalid("Invalid modern connection options"));
    }
    match har::integer(a.fps, 1, 240) {
        Err(error) => Err(error),
        Ok(fps) => Ok((surface, fps as u32)),
    }
}

/// Checks the arguments of a direct connection. The password is handed over with the
/// request, or else it is wiped.
pub fn connect(
    state: &Option<Initialization>,
    arguments: DirectArguments,
    password: &mut String,
    pin: Option<(String, Vec<u8>)>,
) -> (r: Result<Request, BridgeError>)
    ensures
        final(password)@ == Seq::<char>::empty(),
        direct_answer(
            r,
            *state,
            arguments,
            old(password)@,
            match pin {
                Some((id, key)) => Some((id@, key@)),
                None => None,
            },
        ),
{
    let checked = check_direct(state, &arguments, password.as_str());
    let (surface, requested_fps) = match checked {
        Err(error) => {
            encoding::wipe(password);
            return Err(error);
        },
        Ok(checked) => checked,
    };
    let a = arguments;
    let username = match &a.address {
        Some(address) => {
            if a.username.as_str().is_empty() {
                address.ip.clone()
            } else {
                a.username.clone()
            }
        },
        None => a.username.clone(),
    };
    let options = ViewerOptions {
        address: a.address,
        username,
        local_id: a.local_id,
        local_name: a.local_name,
        password: take_text(password),
        requested_fps,
        clipboard_enabled: false,
        image_quality: ViewerImageQuality::default(),
    };
    let (connector, peer_key) = match pin {
        Some((expected_id, key)) => (Connector::Pinned { expected_id }, Some(key)),
        None => (Connector::Unverified, None),
    };
    Ok(Request { surface, options, connector, peer_key, rendezvous: None })
}

/// A direct connection to a peer whose identity is not checked.
pub fn engine_connect(
    state: &Option<Initialization>,
    arguments: DirectArguments,
    password: &mut String,
) -> (r: Result<Request, BridgeError>)
    ensures
        final(password)@ == Seq::<char>::empty(),
        direct_answer(r, *state, arguments, old(password)@, None),
{
    connect(state, arguments, password, None)
}

/// The key that a pin names, if it names one.
pub open spec fn pinned_key(decoded: Option<Seq<u8>>) -> Result<Seq<u8>, har::BridgeErrorView> {
    match decoded {
        None => Err(har::invalidity("Expected a base64 Ed25519 peer signing public key"@)),
        Some(b) => if b.len() == flutter_surface::PUBLIC_KEY_BYTES {
            Ok(b)
        } else {
            Err(har::invalidity("Expected a 32-byte Ed25519 peer signing public key"@))
        },
    }
}

/// Bytes as a sequence, where there are any.
pub open spec fn held_bytes(b: Option<Vec<u8>>) -> Option<Seq<u8>> {
    match b {
        Some(v) => Some(v@),
        None => None,
    }
}

/// The key that a pin names, from what the pin decodes to.
pub fn key_of_pin(decoded: Option<Vec<u8>>) -> (r: Result<Vec<u8>, BridgeError>)
    ensures
        match r {
            Ok(key) => pinned_key(held_bytes(decoded)) == Ok::<Seq<u8>, har::BridgeErrorView>(key@),
            Err(error) => pinned_key(held_bytes(decoded)) == Err::<Seq<u8>, har::BridgeErrorView>(
                error@,
            ),
        },
{
    match decoded {
        None => Err(har::invalid("Expected a base64 Ed25519 peer signing public key")),
        Some(b) => {
            if b.len() == flutter_surface::PUBLIC_KEY_BYTES {
                Ok(b)
            } else {
                Err(har::invalid("Expected a 32-byte Ed25519 peer signing public key"))
            }
        },
    }
}

/// What a pin stands for: the error, or the key.
pub open spec fn pin_of(peer_id: Seq<char>, key: Seq<char>) -> Result<
    Seq<u8>,
    har::BridgeErrorView,
> {
    if !(0 < vstd::utf8::encode_utf8(peer_id).len() <= 512) || vstd::utf8::encode_utf8(key).len()
        != 44 {
        Err(har::invalidity("Invalid out-of-band host pin"@))
    } else {
        pinned_key(encoding::base64_bytes(key))
    }
}

/// Reads a pin: the number of the peer, and its key in base64.
pub fn read_pin(peer_id: &str, key: &str) -> (r: Result<Vec<u8>, BridgeError>)
    ensures
        match r {
            Ok(b) => pin_of(peer_id@, key@) == Ok::<Seq<u8>, har::BridgeErrorView>(b@),
            Err(error) => pin_of(peer_id@, key@) == Err::<Seq<u8>, har::BridgeErrorView>(error@),
        },
{
    let len: usize = text::byte_len(peer_id);
    if len == 0 || len > 512 || text::byte_len(key) != 44 {
        return Err(har::invalid("Invalid out-of-band host pin"));
    }
    key_of_pin(encoding::decode_base64(key))
}

/// The arguments of a connection to a pinned peer: without a name to log in with, the
/// pinned number is that name, never the address.
pub open spec fn pinned_name(username: Seq<char>, peer_id: Seq<char>) -> Seq<char> {
    if username.len() == 0 {
        peer_id
    } else {
        username
    }
}

/// A direct connection to a peer that was pinned before. A pin that is none opens
/// nothing.
pub fn engine_connect_verified(
    state: &Option<Initialization>,
    arguments: DirectArguments,
    password: &mut String,
    expected_peer_id: String,
    peer_signing_key_base64: String,
) -> (r: Result<Request, BridgeError>)
    ensures
        final(password)@ == Seq::<char>::empty(),
        match pin_of(expected_peer_id@, peer_signing_key_base64@) {
            Err(what) => r matches Err(error) && error@ == what,
            Ok(key) => exists|username: String|
                username@ == pinned_name(arguments.username@, expected_peer_id@)
                    && #[trigger] direct_answer(
                    r,
                    *state,
                    DirectArguments { username, ..arguments },
                    old(password)@,
                    Some((expected_peer_id@, key)),
                ),
        },
{
    let key = match read_pin(expected_peer_id.as_str(), peer_signing_key_base64.as_str()) {
        Err(error) => {
            encoding::wipe(password);
            return Err(error);
        },
        Ok(key) => key,
    };
    let username = if arguments.username.as_str().is_empty() {
        expected_peer_id.clone()
    } else {
        arguments.username.clone()
    };
    assert(username@ == pinned_name(arguments.username@, expected_peer_id@));
    let named = DirectArguments { username, ..arguments };
    connect(state, named, password, Some((expected_peer_id, key)))
}

/// Arguments of a connection to a peer by its number.
pub struct IdArguments {
    pub surface_id: String,
    pub peer_id: String,
    pub local_id: String,
    pub local_name: String,
    pub fps: Option<i64>,
}

/// The key of the server that the configuration trusts.
pub open spec fn trusted_key(config: AppConfig, public: Seq<char>) -> Seq<char> {
    flutter_surface::chosen_key(entries::value_or_empty(config.options@, "key"@), public)
}

/// Why a peer is not looked for, if it is not.
pub open spec fn id_refusal(
    state: Option<Initialization>,
    config: AppConfig,
    public: Seq<char>,
    a: IdArguments,
    password: Seq<char>,
) -> Option<har::BridgeErrorView> {
    let peer = text::trimmed(a.peer_id@);
    if identity_refusal(state, a.local_id@) is Some {
        identity_refusal(state, a.local_id@)
    } else if surface_number(a.surface_id@) is None {
        Some(har::invalidity("Invalid Surface ID"@))
    } else if !names_fit(peer, a.local_id@, a.local_name@, password) || text::has_control(peer) {
        Some(har::invalidity("Invalid modern ID connection options"@))
    } else if !har::in_range(a.fps, 1, 240) {
        Some(har::invalidity("Expected an integer in the supported range"@))
    } else if flutter_surface::key_of(encoding::base64_bytes(trusted_key(config, public)))
        is None {
        Some(har::failure("Configured rendezvous trust anchor is invalid"@))
    } else {
        None
    }
}

fn check_id(state: &Option<Initialization>, a: &IdArguments, peer: &str, password: &str) -> (r:
    Result<(u64, u32), BridgeError>)
    requires
        peer@ == text::trimmed(a.peer_id@),
    ensures
        forall|config: AppConfig, public: Seq<char>|
            match r {
                Ok((surface, fps)) => #[trigger] id_refusal(
                    *state,
                    config,
                    public,
                    *a,
                    password@,
                ) == (if flutter_surface::key_of(
                    encoding::base64_bytes(trusted_key(config, public)),
                ) is None {
                    Some(har::failure("Configured rendezvous trust anchor is invalid"@))
                } else {
                    None
                }) && surface_number(a.surface_id@) == Some(surface as nat) && a.fps == Some(
                    fps as i64,
                ),
                Err(error) => id_refusal(*state, config, public, *a, password@) == Some(error@),
            },
{
    match require_local_identity(state, a.local_id.as_str()) {
        Err(error) => {
            return Err(error);
        },
        Ok(_) => {},
    }
    let surface: u64 = match parse_surface(a.surface_id.as_str()) {
        None => {
            return Err(har::invalid("Invalid Surface ID"));
        },
        Some(surface) => surface,
    };
    let peer_len: usize = text::byte_len(peer);
    let local_len: usize = text::byte_len(a.local_id.as_str());
    if peer_len == 0 || peer_len > 256 || text::contains_control(peer) || local_len == 0
        || local_len > 256 || text::byte_len(a.local_name.as_str()) > 256 || text::byte_len(
        password,
    ) > 4096 {
        return Err(har::invalid("Invalid modern ID connection options"));
    }
    match har::integer(a.fps, 1, 240) {
        Err(error) => Err(error),
        Ok(fps) => Ok((surface, fps as u32)),
    }
}

/// A connection to a peer by its number. The configuration says which server finds it
/// and vouches for it; `public` is the key of the public server.
pub fn engine_connect_id(
    state: &Option<Initialization>,
    config: &AppConfig,
    public: &str,
    arguments: IdArguments,
    password: &mut String,
) -> (r: Result<Request, BridgeError>)
    ensures
        final(password)@ == Seq::<char>::empty(),
        ({
            let a = arguments;
            let refusal = id_refusal(*state, *config, public@, a, old(password)@);
            match r {
                Ok(request) => {
                    let peer = text::trimmed(a.peer_id@);
                    &&& refusal is None
                    &&& surface_number(a.surface_id@) == Some(request.surface as nat)
                    &&& request.options.address is None
                    &&& options_of(
                        request.options,
                        peer,
                        a.local_id@,
                        a.local_name@,
                        old(password)@,
                        a.fps,
                    )
                    &&& request.connector matches Connector::Rendezvous { id }
                    &&& id@ == peer
                    &&& request.peer_key is None
                    &&& request.rendezvous matches Some(found)
                    &&& found.id@ == peer
                    &&& found.rendezvous_server@ == config.rendezvous_server@
                    &&& found.licence_key@ == trusted_key(*config, public@)
                    &&& flutter_surface::key_of(encoding::base64_bytes(found.licence_key@))
                        == Some(found.server_key@)
                    &&& found.relay_server is None
                    &&& found.connect_timeout_secs == flutter_surface::CONNECT_TIMEOUT_SECS
                },
                Err(error) => refusal == Some(error@),
            }
        }),
{
    let peer = text::trim(arguments.peer_id.as_str());
    let checked = check_id(state, &arguments, peer.as_str(), password.as_str());
    let (surface, requested_fps) = match checked {
        Err(error) => {
            encoding::wipe(password);
            return Err(error);
        },
        Ok(checked) => checked,
    };
    let found = match flutter_surface::rendezvous_config(config, public, peer.clone()) {
        Err(what) => {
            encoding::wipe(password);
            return Err(har::failed(what.as_str()));
        },
        Ok(found) => found,
    };
    let options = ViewerOptions {
        address: None,
        username: peer.clone(),
        local_id: arguments.local_id,
        local_name: arguments.local_name,
        password: take_text(password),
        requested_fps,
        clipboard_enabled: false,
        image_quality: ViewerImageQuality::default(),
    };
    Ok(
        Request {
            surface,
            options,
            connector: Connector::Rendezvous { id: peer },
            peer_key: None,
            rendezvous: Some(found),
        },
    )
}

/// The handle of a session.
pub open spec fn handle(sequence: u64) -> Seq<char> {
    "modern-"@ + text::hexadecimal(sequence as nat)
}

/// A session: its handle, the surface that it holds, its viewer, and how far closing
/// it has come.
pub struct Entry {
    pub id: String,
    pub surface: u64,
    pub viewer: Viewer,
    pub closing: bool,
    /// Somebody waits for the session to be over.
    pub join_pending: bool,
}

/// All sessions, and the number of the next one.
pub struct Registry {
    pub next: u64,
    pub entries: Vec<Entry>,
}

/// Whether `id` is the handle of the session at `i`, and of none before it.
pub open spec fn stands_at(entries: Seq<Entry>, id: Seq<char>, i: int) -> bool {
    &&& 0 <= i < entries.len()
    &&& entries[i].id@ == id
    &&& forall|j: int| 0 <= j < i ==> (#[trigger] entries[j]).id@ != id
}

/// Whether `id` is the handle of no session.
pub open spec fn stands_nowhere(entries: Seq<Entry>, id: Seq<char>) -> bool {
    forall|j: int| 0 <= j < entries.len() ==> (#[trigger] entries[j]).id@ != id
}

/// Whether a surface is held by a session.
pub open spec fn holds_surface(entries: Seq<Entry>, surface: u64) -> bool {
    exists|j: int| 0 <= j < entries.len() && (#[trigger] entries[j]).surface == surface
}

/// Whether `e` is the answer to a handle that is none.
pub open spec fn lookup_error(e: har::BridgeErrorView, id: Seq<char>) -> bool {
    e == if vstd::utf8::encode_utf8(id).len() > 64 {
        har::invalidity("Invalid session ID"@)
    } else {
        har::invalidity("Unknown modern session"@)
    }
}

/// Why a surface gets no session, if it gets none.
pub open spec fn reserve_refusal(registry: Registry, surface: u64) -> Option<Seq<char>> {
    if registry.entries@.len() >= MAX_SESSIONS {
        Some(
            "Modern session limit reached; pending/quarantined sessions retain their slots"@,
        )
    } else if holds_surface(registry.entries@, surface) {
        Some("Surface is still owned by a modern session"@)
    } else if registry.next == u64::MAX {
        Some("Session identifier space exhausted"@)
    } else {
        None
    }
}

impl Registry {
    /// No sessions.
    pub fn new() -> (r: Registry)
        ensures
            r.next == 1,
            r.entries@.len() == 0,
            r.wf(),
    {
        Registry { next: 1, entries: Vec::new() }
    }

    /// There are not too many sessions, and no two hold the same surface.
    pub open spec fn wf(self) -> bool {
        &&& self.entries@.len() <= MAX_SESSIONS
        &&& forall|i: int, j: int|
            0 <= i < j < self.entries@.len() ==> (#[trigger] self.entries@[i]).surface != (
            #[trigger] self.entries@[j]).surface
    }

    /// Where the session with a handle stands.
    pub fn lookup(&self, id: &str) -> (r: Result<usize, BridgeError>)
        ensures
            match r {
                Ok(i) => vstd::utf8::encode_utf8(id@).len() <= 64 && stands_at(
                    self.entries@,
                    id@,
                    i as int,
                ),
                Err(error) => lookup_error(error@, id@) && (vstd::utf8::encode_utf8(id@).len() > 64
                    || stands_nowhere(self.entries@, id@)),
            },
    {
        if text::byte_len(id) > 64 {
            return Err(har::invalid("Invalid session ID"));
        }
        let mut i: usize = 0;
        while i < self.entries.len()
            invariant
                i <= self.entries@.len(),
                vstd::utf8::encode_utf8(id@).len() <= 64,
                forall|j: int| 0 <= j < i ==> (#[trigger] self.entries@[j]).id@ != id@,
            decreases self.entries@.len() - i,
        {
            if text::same_text(self.entries[i].id.as_str(), id) {
                return Ok(i);
            }
            i = i + 1;
        }
        Err(har::invalid("Unknown modern session"))
    }

    /// Takes the number of a new session on a surface. After that the surface has to be
    /// acquired and the session registered.
    pub fn reserve(&mut self, surface: u64) -> (r: Result<u64, BridgeError>)
        ensures
            final(self).entries == old(self).entries,
            match r {
                Ok(sequence) => reserve_refusal(*old(self), surface) is None && sequence
                    == old(self).next && final(self).next == old(self).next + 1,
                Err(error) => {
                    &&& reserve_refusal(*old(self), surface) matches Some(what)
                    &&& error@ == har::failure(what)
                    &&& final(self).next == old(self).next
                },
            },
    {
        if self.entries.len() >= MAX_SESSIONS {
            return Err(
                har::failed(
                    "Modern session limit reached; pending/quarantined sessions retain their slots",
                ),
            );
        }
        let mut i: usize = 0;
        while i < self.entries.len()
            invariant
                i <= self.entries@.len(),
                self.entries == old(self).entries,
                self.next == old(self).next,
                self.entries@.len() < MAX_SESSIONS,
                forall|j: int| 0 <= j < i ==> (#[trigger] self.entries@[j]).surface != surface,
            decreases self.entries@.len() - i,
        {
            if self.entries[i].surface == surface {
                return Err(har::failed("Surface is still owned by a modern session"));
            }
            i = i + 1;
        }
        if self.next == u64::MAX {
            return Err(har::failed("Session identifier space exhausted"));
        }
        let sequence: u64 = self.next;
        self.next = sequence + 1;
        Ok(sequence)
    }

    /// Starts the viewer of a request on a surface that was acquired, under the number
    /// that was taken for it.
    pub fn register(&mut self, sequence: u64, request: &Request) -> (r: Result<String, BridgeError>)
        requires
            old(self).wf(),
            old(self).entries@.len() < MAX_SESSIONS,
            !holds_surface(old(self).entries@, request.surface),
        ensures
            final(self).wf(),
            final(self).next == old(self).next,
            match r {
                Ok(id) => {
                    let entry = final(self).entries@.last();
                    &&& starts(*request)
                    &&& id@ == handle(sequence)
                    &&& final(self).entries@ == old(self).entries@.push(entry)
                    &&& entry.id@ == handle(sequence)
                    &&& entry.surface == request.surface
                    &&& entry.viewer@ == viewer::ViewerView::started(request.options)
                    &&& !entry.closing && !entry.join_pending
                },
                Err(error) => {
                    &&& !starts(*request)
                    &&& error@ == har::failure("Modern viewer could not start"@)
                    &&& final(self).entries@ == old(self).entries@
                },
            },
    {
        let ghost before = self.entries@;
        let started = match &request.connector {
            Connector::Unverified => Viewer::start(&request.options),
            Connector::Pinned { expected_id } => Viewer::start_verified(
                &request.options,
                expected_id.as_str(),
            ),
            Connector::Rendezvous { id } => Viewer::start_rendezvous(
                &request.options,
                id.as_str(),
            ),
        };
        match started {
            Err(_) => Err(har::failed("Modern viewer could not start")),
            Ok(viewer) => {
                let id = text::joined("modern-", text::hexadecimal_text(sequence).as_str());
                self.entries.push(
                    Entry {
                        id: id.clone(),
                        surface: request.surface,
                        viewer,
                        closing: false,
                        join_pending: false,
                    },
                );
                assert(self.entries@ =~= before.push(self.entries@.last()));
                Ok(id)
            },
        }
    }

    /// What is seen of a session, as a JSON text.
    pub fn engine_snapshot(&self, id: &str) -> (r: Result<String, BridgeError>)
        ensures
            match r {
                Ok(text) => exists|i: int| #[trigger] stands_at(self.entries@, id@, i) && text@
                    == snapshot_json(self.entries@[i].viewer@.seen()),
                Err(error) => lookup_error(error@, id@) && (vstd::utf8::encode_utf8(id@).len() > 64
                    || stands_nowhere(self.entries@, id@)),
            },
    {
        match self.lookup(id) {
            Err(error) => Err(error),
            Ok(i) => {
                assert(stands_at(self.entries@, id@, i as int));
                Ok(snapshot_text(&self.entries[i].viewer.snapshot()))
            },
        }
    }

    /// Sends a pointer action. Nothing is returned where the session is closing, and
    /// otherwise what the viewer answers. `queue` is the queue for input.
    pub fn engine_mouse(
        &self,
        id: &str,
        kind: Option<i64>,
        button: Option<i64>,
        x: Option<i64>,
        y: Option<i64>,
        queue: QueueState,
    ) -> (r: Result<Option<Result<crate::message::Message, ViewerError>>, BridgeError>)
        ensures
            ({
                let valid = valid_pointer(kind, button, x, y);
                match r {
                    Ok(answer) => {
                        &&& valid
                        &&& exists|i: int| #[trigger]
                            stands_at(self.entries@, id@, i) && answer == (if self.entries@[i].closing {
                                None
                            } else {
                                Some(
                                    viewer::mouse_result(
                                        self.entries@[i].viewer@,
                                        kind->0 as u32,
                                        button->0 as u32,
                                        x->0 as i32,
                                        y->0 as i32,
                                        queue,
                                    ),
                                )
                            })
                    },
                    Err(error) => if valid {
                        lookup_error(error@, id@) && (vstd::utf8::encode_utf8(id@).len() > 64
                            || stands_nowhere(self.entries@, id@))
                    } else {
                        error@ == har::invalidity("Expected an integer in the supported range"@)
                    },
                }
            }),
    {
        let k: i64 = match har::integer(kind, 0, u32::MAX as i64) {
            Err(error) => {
                return Err(error);
            },
            Ok(n) => n,
        };
        let b: i64 = match har::integer(button, 0, u32::MAX as i64) {
            Err(error) => {
                return Err(error);
            },
            Ok(n) => n,
        };
        let px: i64 = match har::integer(x, i32::MIN as i64, i32::MAX as i64) {
            Err(error) => {
                return Err(error);
            },
            Ok(n) => n,
        };
        let py: i64 = match har::integer(y, i32::MIN as i64, i32::MAX as i64) {
            Err(error) => {
                return Err(error);
            },
            Ok(n) => n,
        };
        match self.lookup(id) {
            Err(error) => Err(error),
            Ok(i) => {
                assert(stands_at(self.entries@, id@, i as int));
                if self.entries[i].closing {
                    return Ok(None);
                }
                Ok(
                    Some(
                        self.entries[i].viewer.send_mouse(
                            k as u32,
                            b as u32,
                            px as i32,
                            py as i32,
                            queue,
                        ),
                    ),
                )
            },
        }
    }

    fn cancel(&mut self, i: usize, join: bool)
        requires
            i < old(self).entries@.len(),
            old(self).wf(),
        ensures
            final(self).wf(),
            final(self).next == old(self).next,
            cancelled_at(old(self).entries@, final(self).entries@, i as int, join),
    {
        let ghost before = self.entries@;
        let entry = &mut self.entries[i];
        entry.closing = true;
        entry.viewer.request_close();
        entry.join_pending = entry.join_pending || join;
        assert(self.entries@ =~= before.update(i as int, self.entries@[i as int]));
    }

    /// Asks the viewer of a session to close. The surface is still held.
    pub fn engine_request_close(&mut self, id: &str) -> (r: Result<(), BridgeError>)
        requires
            old(self).wf(),
        ensures
            final(self).wf(),
            final(self).next == old(self).next,
            match r {
                Ok(_) => exists|i: int| #[trigger] stands_at(old(self).entries@, id@, i)
                    && cancelled_at(old(self).entries@, final(self).entries@, i, false),
                Err(error) => lookup_error(error@, id@) && final(self).entries@
                    == old(self).entries@ && (vstd::utf8::encode_utf8(id@).len() > 64
                    || stands_nowhere(old(self).entries@, id@)),
            },
    {
        match self.lookup(id) {
            Err(error) => Err(error),
            Ok(i) => {
                assert(stands_at(self.entries@, id@, i as int));
                self.cancel(i, false);
                Ok(())
            },
        }
    }

    /// Asks the viewer of a session to close, and takes it upon the caller to wait for
    /// that. Only one caller waits.
    pub fn begin_close(&mut self, id: &str) -> (r: Result<(), BridgeError>)
        requires
            old(self).wf(),
        ensures
            final(self).wf(),
            final(self).next == old(self).next,
            match r {
                Ok(_) => exists|i: int| #[trigger] stands_at(old(self).entries@, id@, i) && !old(self).entries@[i].join_pending && cancelled_at(
                    old(self).entries@,
                    final(self).entries@,
                    i,
                    true,
                ),
                Err(error) => if vstd::utf8::encode_utf8(id@).len() > 64 || stands_nowhere(
                    old(self).entries@,
                    id@,
                ) {
                    lookup_error(error@, id@) && final(self).entries@ == old(self).entries@
                } else {
                    &&& error@ == har::failure(
                        "Close already pending or quarantined; keep the Surface mounted"@,
                    )
                    &&& exists|i: int| #[trigger] stands_at(old(self).entries@, id@, i) && old(self).entries@[i].join_pending && cancelled_at(
                        old(self).entries@,
                        final(self).entries@,
                        i,
                        true,
                    )
                },
            },
    {
        match self.lookup(id) {
            Err(error) => Err(error),
            Ok(i) => {
                let pending = self.entries[i].join_pending;
                assert(stands_at(self.entries@, id@, i as int));
                assert(!stands_nowhere(self.entries@, id@));
                self.cancel(i, true);
                if pending {
                    return Err(
                        har::failed("Close already pending or quarantined; keep the Surface mounted"),
                    );
                }
                Ok(())
            },
        }
    }

    /// Waiting for a session is over. Where it is known to be over, its slot and its
    /// surface are free; otherwise it keeps them.
    pub fn engine_close(&mut self, id: &str, closed: Result<(), ViewerError>) -> (r: Result<
        (),
        BridgeError,
    >)
        requires
            old(self).wf(),
        ensures
            final(self).wf(),
            final(self).next == old(self).next,
            match closed {
                Ok(_) => {
                    &&& r is Ok
                    &&& if stands_nowhere(old(self).entries@, id@) {
                        final(self).entries@ == old(self).entries@
                    } else {
                        exists|i: int| #[trigger] stands_at(old(self).entries@, id@, i) && final(self).entries@ == old(self).entries@.remove(i)
                    }
                },
                Err(_) => {
                    &&& r matches Err(error)
                    &&& error@ == har::failure(
                        "Decoder teardown not proven; keep the Surface mounted"@,
                    )
                    &&& final(self).entries@ == old(self).entries@
                },
            },
    {
        if closed.is_err() {
            return Err(har::failed("Decoder teardown not proven; keep the Surface mounted"));
        }
        let mut i: usize = 0;
        while i < self.entries.len()
            invariant
                i <= self.entries@.len(),
                *self == *old(self),
                old(self).wf(),
                closed is Ok,
                forall|j: int| 0 <= j < i ==> (#[trigger] self.entries@[j]).id@ != id@,
            decreases self.entries@.len() - i,
        {
            if text::same_text(self.entries[i].id.as_str(), id) {
                assert(stands_at(self.entries@, id@, i as int));
                assert(!stands_nowhere(self.entries@, id@));
                let _ = self.entries.remove(i);
                return Ok(());
            }
            i = i + 1;
        }
        Ok(())
    }
}

/// Whether the numbers of a pointer action are integers of the protocol.
pub open spec fn valid_pointer(
    kind: Option<i64>,
    button: Option<i64>,
    x: Option<i64>,
    y: Option<i64>,
) -> bool {
    &&& har::in_range(kind, 0, u32::MAX as i64)
    &&& har::in_range(button, 0, u32::MAX as i64)
    &&& har::in_range(x, i32::MIN as i64, i32::MAX as i64)
    &&& har::in_range(y, i32::MIN as i64, i32::MAX as i64)
}

/// Whether the viewer of a request starts.
pub open spec fn starts(request: Request) -> bool {
    &&& viewer::valid_options(request.options)
    &&& match request.connector {
        Connector::Unverified => viewer::has_address(request.options),
        Connector::Pinned { expected_id } => viewer::has_address(request.options) && 0
            < vstd::utf8::encode_utf8(expected_id@).len() <= 512,
        Connector::Rendezvous { id } => request.options.address is None
            && request.options.username@ == id@,
    }
}

/// Whether only the session at `i` was asked to close.
pub open spec fn cancelled_at(before: Seq<Entry>, after: Seq<Entry>, i: int, join: bool) -> bool {
    &&& 0 <= i < before.len()
    &&& after == before.update(i, after[i])
    &&& after[i].id == before[i].id
    &&& after[i].surface == before[i].surface
    &&& after[i].closing
    &&& after[i].join_pending == (before[i].join_pending || join)
    &&& after[i].viewer@.closing(before[i].viewer@)
}

/// What is seen of a viewer, as a JSON object.
pub open spec fn snapshot_json(s: viewer::ViewerSnapshotView) -> Seq<char> {
    json::ObjectView::empty().with("phase"@, json::json_string(s.phase)).with(
        "error"@,
        json::optional_string(s.error),
    ).with("width"@, text::signed_decimal(s.width as int)).with(
        "height"@,
        text::signed_decimal(s.height as int),
    ).with("codec"@, json::json_string(s.codec)).with("route"@, json::json_string(s.route)).with(
        "received_units"@,
        text::decimal(s.received_units as nat),
    ).with("pushed_units"@, text::decimal(s.pushed_units as nat)).with(
        "render_submissions"@,
        text::decimal(s.render_submissions as nat),
    ).with("keyboard_allowed"@, text::truth(s.keyboard_allowed)).with(
        "closed"@,
        text::truth(s.closed),
    ).with("encrypted"@, text::truth(s.encrypted)).with(
        "peer_verified"@,
        text::truth(s.peer_verified),
    ).text()
}

/// What is seen of a viewer, as a JSON text.
pub fn snapshot_text(s: &ViewerSnapshot) -> (r: String)
    ensures
        r@ == snapshot_json(s@),
{
    let mut object = json::Object::new();
    object.put_text("phase", s.phase.as_str());
    match &s.error {
        Some(error) => object.put_text("error", error.as_str()),
        None => object.put("error", "null"),
    }
    object.put_number("width", s.width);
    object.put_number("height", s.height);
    object.put_text("codec", s.codec.as_str());
    object.put_text("route", s.route.as_str());
    object.put_count("received_units", s.received_units);
    object.put_count("pushed_units", s.pushed_units);
    object.put_count("render_submissions", s.render_submissions);
    object.put_bool("keyboard_allowed", s.keyboard_allowed);
    object.put_bool("closed", s.closed);
    object.put_bool("encrypted", s.encrypted);
    object.put_bool("peer_verified", s.peer_verified);
    object.text()
}

/// Two sessions never have the same handle.
pub proof fn lemma_handles_differ(a: u64, b: u64)
    requires
        a != b,
    ensures
        handle(a) != handle(b),
{
    let prefix = "modern-"@;
    if handle(a) == handle(b) {
        assert(handle(a).skip(prefix.len() as int) =~= text::hexadecimal(a as nat));
        assert(handle(b).skip(prefix.len() as int) =~= text::hexadecimal(b as nat));
        text::lemma_hexadecimal_is_unique(a as nat, b as nat);
    }
}

/// A request that was made from valid arguments is one whose viewer starts.
pub proof fn lemma_valid_requests_start(
    r: Result<Request, BridgeError>,
    state: Option<Initialization>,
    a: DirectArguments,
    password: Seq<char>,
    pin: Option<(Seq<char>, Seq<u8>)>,
)
    requires
        direct_answer(r, state, a, password, pin),
        pin matches Some((id, key)) ==> 0 < vstd::utf8::encode_utf8(id).len() <= 512,
    ensures
        r matches Ok(request) ==> starts(request),
{
}

/// No connection is made before the application has an identity.
pub proof fn lemma_no_connection_without_identity(
    state: Option<Initialization>,
    config: AppConfig,
    public: Seq<char>,
    a: DirectArguments,
    b: IdArguments,
    password: Seq<char>,
)
    requires
        identity_of(state) is None,
    ensures
        direct_refusal(state, a, password) is Some,
        id_refusal(state, config, public, b, password) is Some,
{
}

/// Asking a session to close frees neither its slot nor its surface.
pub proof fn lemma_surfaces_are_kept(before: Registry, after: Registry, i: int, join: bool)
    requires
        before.wf(),
        cancelled_at(before.entries@, after.entries@, i, join),
    ensures
        forall|surface: u64|
            holds_surface(before.entries@, surface) ==> #[trigger] holds_surface(
                after.entries@,
                surface,
            ),
        after.entries@.len() == before.entries@.len(),
{
    assert forall|surface: u64| holds_surface(before.entries@, surface) implies #[trigger] holds_surface(
        after.entries@,
        surface,
    ) by {
        let j = choose|j: int|
            0 <= j < before.entries@.len() && (#[trigger] before.entries@[j]).surface == surface;
        assert(after.entries@[j].surface == surface);
    }
}

} // verus!

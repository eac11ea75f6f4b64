//! Who a host lets in: the names it answers to, its passwords, what it grants, and
//! the exchange until a peer is authorized.
use vstd::prelude::*;
use crate::authentication::{Approval, ApproveMode, Permissions, PrimaryPolicy};
use crate::host;
use crate::host::{Address, Host, HostError, HostOptions, LocalGrant};
use crate::publisher::{Codec, CodecSelection, Encoders, PublisherConfig};
use crate::text;

verus! {

/// Most records read before a peer has to be authorized.
pub const MAX_RECORDS: u8 = 64;

/// The part of a spelling before its only colon.
pub open spec fn host_part(spelling: Seq<char>) -> Option<Seq<char>> {
    match text::split_at_last(spelling, ':') {
        Some((before, _)) => if before.contains(':') {
            None
        } else {
            Some(before)
        },
        None => None,
    }
}

/// Whether an address is a wildcard: one that a socket is bound to and that no peer
/// ever sends.
pub open spec fn unspecified(address: Seq<char>) -> bool {
    address == "0.0.0.0"@ || address == "::"@ || address == "[::]"@
}

/// Whether a spelling is a wildcard, bare or with a port.
pub open spec fn wildcard(target: Seq<char>) -> bool {
    ||| unspecified(target)
    ||| text::split_at_last(target, ':') matches Some((before, after)) && text::all_digits(after)
        && unspecified(before)
}

/// The ways in which this machine is written.
pub open spec fn spelled(
    target: Seq<char>,
    id: Seq<char>,
    local: (Seq<char>, Seq<char>),
    listen: (Seq<char>, Seq<char>),
) -> bool {
    ||| target == id
    ||| target == local.0
    ||| target == local.1
    ||| target == listen.0
    ||| target == listen.1
    ||| host_part(id) == Some(target)
    ||| host_part(local.1) == Some(target)
    ||| host_part(listen.1) == Some(target)
}

/// Whether a peer may ask for `target`.
pub open spec fn accepted(target: Seq<char>, options: HostOptions, local: Address) -> bool {
    &&& target.len() > 0
    &&& !wildcard(target)
    &&& spelled(
        target,
        options.id@,
        (local.ip@, local.text@),
        (options.listen.ip@, options.listen.text@),
    )
}

fn is_unspecified(address: &str) -> (r: bool)
    ensures
        r == unspecified(address@),
{
    text::same_text(address, "0.0.0.0") || text::same_text(address, "::") || text::same_text(
        address,
        "[::]",
    )
}

fn is_wildcard(target: &str) -> (r: bool)
    ensures
        r == wildcard(target@),
{
    if let Some((before, after)) = text::rsplit_once(target, ':') {
        if text::only_digits(after.as_str()) && is_unspecified(before.as_str()) {
            return true;
        }
    }
    is_unspecified(target)
}

/// Adds a spelling where a peer could send it.
fn add_target(targets: &mut Vec<String>, target: &str)
    requires
        text::ascending(text::texts(old(targets)@)),
    ensures
        text::ascending(text::texts(final(targets)@)),
        forall|t: Seq<char>|
            #[trigger] text::texts(final(targets)@).contains(t) <==> (text::texts(old(targets)@).contains(t)
                || (t == target@ && t.len() > 0 && !wildcard(t))),
{
    if target.is_empty() || is_wildcard(target) {
        return;
    }
    text::insert_ascending(targets, target.to_owned());
}

fn add_host_part(targets: &mut Vec<String>, spelling: &str)
    requires
        text::ascending(text::texts(old(targets)@)),
    ensures
        text::ascending(text::texts(final(targets)@)),
        forall|t: Seq<char>|
            #[trigger] text::texts(final(targets)@).contains(t) <==> (text::texts(old(targets)@).contains(t)
                || (host_part(spelling@) == Some(t) && t.len() > 0 && !wildcard(t))),
{
    if let Some((before, _)) = text::rsplit_once(spelling, ':') {
        if !text::has_char(before.as_str(), ':') {
            add_target(targets, before.as_str());
            assert(host_part(spelling@) == Some(before@));
        }
    }
}

/// Every spelling of this machine that a peer may ask for, in ascending order and
/// each once.
pub fn accepted_targets(options: &HostOptions, local: &Address) -> (r: Vec<String>)
    ensures
        text::ascending(text::texts(r@)),
        forall|t: Seq<char>|
            #[trigger] text::texts(r@).contains(t) <==> accepted(t, *options, *local),
{
    let mut targets: Vec<String> = Vec::new();
    assert(text::texts(targets@) =~= Seq::<Seq<char>>::empty());
    add_target(&mut targets, options.id.as_str());
    add_target(&mut targets, local.ip.as_str());
    add_target(&mut targets, local.text.as_str());
    add_target(&mut targets, options.listen.ip.as_str());
    add_target(&mut targets, options.listen.text.as_str());
    add_host_part(&mut targets, options.id.as_str());
    add_host_part(&mut targets, local.text.as_str());
    add_host_part(&mut targets, options.listen.text.as_str());
    targets
}

/// An operator who names the host by address and port lets in a peer that sends
/// either that name or the bare address, whatever the socket is bound to.
pub proof fn lemma_advertised_address_is_accepted(
    options: HostOptions,
    local: Address,
    address: Seq<char>,
    port: Seq<char>,
)
    requires
        options.id@ == address + seq![':'] + port,
        address.len() > 0,
        !address.contains(':'),
        !port.contains(':'),
        !wildcard(address),
        !wildcard(options.id@),
    ensures
        accepted(options.id@, options, local),
        accepted(address, options, local),
{
    let id = options.id@;
    text::lemma_last_place(id, ':');
    let at = text::last_place(id, ':');
    assert(id[address.len() as int] == ':');
    assert(at == address.len()) by {
        if at > address.len() {
            assert(port[at - address.len() - 1] == ':');
            assert(port.contains(':'));
        }
    }
    assert(id.take(at) =~= address);
}

/// No wildcard is ever a name of this machine, neither bare nor with a port.
pub proof fn lemma_wildcards_are_never_accepted(
    address: Seq<char>,
    port: Seq<char>,
    options: HostOptions,
    local: Address,
)
    requires
        unspecified(address),
        text::all_digits(port),
    ensures
        !accepted(address, options, local),
        !accepted(address + seq![':'] + port, options, local),
{
    let whole = address + seq![':'] + port;
    text::lemma_last_place(whole, ':');
    let at = text::last_place(whole, ':');
    assert(whole[address.len() as int] == ':');
    assert(at == address.len()) by {
        if at > address.len() {
            assert(port[at - address.len() - 1] == ':');
        }
    }
    assert(whole.take(at) =~= address);
    assert(whole.skip(at + 1) =~= port);
}

/// The passwords that a host accepts: the permanent one as it is stored, and the
/// one-time password salted for this session, each where the operator allows it and
/// it is set.
pub open spec fn passwords(
    temporary: Seq<char>,
    salted: [u8; 32],
    permanent: Option<[u8; 32]>,
    allow_permanent: bool,
    allow_temporary: bool,
) -> Seq<[u8; 32]> {
    let stored = match permanent {
        Some(hash) if allow_permanent => seq![hash],
        _ => Seq::empty(),
    };
    if allow_temporary && temporary.len() > 0 {
        stored.push(salted)
    } else {
        stored
    }
}

/// The passwords that a host accepts. `salted` is the one-time password `temporary`
/// hashed with the salt that this session announces.
pub fn host_passwords(
    temporary: &str,
    salted: [u8; 32],
    permanent: Option<[u8; 32]>,
    allow_permanent: bool,
    allow_temporary: bool,
) -> (r: Vec<[u8; 32]>)
    ensures
        r@ == passwords(temporary@, salted, permanent, allow_permanent, allow_temporary),
{
    let mut values: Vec<[u8; 32]> = Vec::new();
    if allow_permanent {
        if let Some(hash) = permanent {
            values.push(hash);
        }
    }
    if allow_temporary && !temporary.is_empty() {
        values.push(salted);
    }
    assert(values@ =~= passwords(
        temporary@,
        salted,
        permanent,
        allow_permanent,
        allow_temporary,
    ));
    values
}

/// The salt that a session announces: the stored one, with which a permanent
/// password was hashed, or else fresh random bytes in hexadecimal.
pub fn session_salt(stored: &str, random: &[u8]) -> (r: String)
    ensures
        r@ == (if stored@.len() > 0 {
            stored@
        } else {
            text::hex_of(random@)
        }),
{
    if !stored.is_empty() {
        return stored.to_owned();
    }
    let mut salt = String::new();
    assert(salt@ =~= text::hex_of(random@.take(0)));
    let mut i: usize = 0;
    while i < random.len()
        invariant
            i <= random@.len(),
            salt@ == text::hex_of(random@.take(i as int)),
        decreases random@.len() - i,
    {
        text::push_hex_pair(&mut salt, random[i]);
        proof {
            assert(random@.take(i + 1).drop_last() =~= random@.take(i as int));
        }
        i = i + 1;
    }
    assert(random@.take(i as int) =~= random@);
    salt
}

/// What a host asks of a peer under an operator's setting.
pub fn host_policy(mode: ApproveMode) -> (r: PrimaryPolicy)
    ensures
        r == (match mode {
            ApproveMode::Password => PrimaryPolicy::PasswordOnly,
            ApproveMode::Click => PrimaryPolicy::ClickOnly,
            ApproveMode::Both => PrimaryPolicy::PasswordOrClick,
        }),
{
    match mode {
        ApproveMode::Password => PrimaryPolicy::PasswordOnly,
        ApproveMode::Click => PrimaryPolicy::ClickOnly,
        ApproveMode::Both => PrimaryPolicy::PasswordOrClick,
    }
}

/// What a peer of a session may be granted at most: input where the operator armed
/// it and this platform can inject it, and nothing else.
pub open spec fn local_grant(options: HostOptions) -> Permissions {
    Permissions {
        keyboard: options.input_injection && options.input_sink,
        ..Permissions::nothing()
    }
}

/// What a peer of a session may be granted at most.
pub fn local_permissions(options: &HostOptions) -> (r: Permissions)
    ensures
        r == local_grant(*options),
{
    Permissions {
        keyboard: options.input_injection && options.input_sink,
        clipboard: false,
        audio: false,
        file: false,
    }
}

/// What the publisher of a session is opened with.
pub fn publisher_config(options: &HostOptions, codec: Codec, fps: u32) -> (r: PublisherConfig)
    ensures
        r == (PublisherConfig {
            codec,
            width: options.width,
            height: options.height,
            fps,
            bitrate: options.bitrate,
            auto_bitrate: options.bitrate_auto,
            max_queued_units: 2,
            max_queued_bytes: 33_554_432,
            backend: options.publisher_backend,
            output_index: options.output_index,
        }),
{
    PublisherConfig {
        codec,
        width: options.width,
        height: options.height,
        fps,
        bitrate: options.bitrate,
        auto_bitrate: options.bitrate_auto,
        max_queued_units: 2,
        max_queued_bytes: 33_554_432,
        backend: options.publisher_backend,
        output_index: options.output_index,
    }
}

/// The encoders that both the hardware has and the operator allows.
pub open spec fn usable(supported: Encoders, selection: CodecSelection) -> Encoders {
    Encoders {
        h264: supported.h264 && !(selection is H265),
        h265: supported.h265 && !(selection is H264),
    }
}

/// The encoders of a host. `supported` is what the hardware has, if that is known.
pub fn encoders(supported: Option<Encoders>, selection: CodecSelection) -> (r: Result<
    Encoders,
    HostError,
>)
    ensures
        match r {
            Ok(found) => supported is Some && found == usable(supported->0, selection) && (
            found.h264 || found.h265),
            Err(error) => error == HostError::NoHardwareCodec && (supported is None || {
                let found = usable(supported->0, selection);
                !found.h264 && !found.h265
            }),
        },
{
    match supported {
        None => Err(HostError::NoHardwareCodec),
        Some(supported) => {
            let mut h264 = supported.h264;
            let mut h265 = supported.h265;
            match selection {
                CodecSelection::Auto => {},
                CodecSelection::H264 => {
                    h265 = false;
                },
                CodecSelection::H265 => {
                    h264 = false;
                },
            }
            if !h264 && !h265 {
                return Err(HostError::NoHardwareCodec);
            }
            Ok(Encoders { h264, h265 })
        },
    }
}

/// What a host tells a peer about itself. It has one display, online and unscaled.
#[derive(Debug, Clone, PartialEq, Eq)]
pub struct HostPeerInfo {
    pub hostname: &'static str,
    pub platform: String,
    pub version: &'static str,
    pub display_name: &'static str,
    pub width: i32,
    pub height: i32,
    pub encoding: Encoders,
}

/// What a host tells a peer about itself.
pub fn peer_info(options: &HostOptions, codecs: Encoders) -> (r: HostPeerInfo)
    ensures
        r.hostname@ == "RustDesk"@,
        r.platform@ == options.platform@,
        r.version@ == "1.4.9"@,
        r.display_name@ == "Screen"@,
        r.width == options.width,
        r.height == options.height,
        r.encoding == codecs,
{
    HostPeerInfo {
        hostname: "RustDesk",
        platform: options.platform.clone(),
        version: crate::REPORTED_VERSION,
        display_name: "Screen",
        width: options.width,
        height: options.height,
        encoding: codecs,
    }
}

/// The operator's decision about request `epoch`. A yes grants exactly what local
/// policy armed; a decision about another request is none.
pub open spec fn approval_of(grant: LocalGrant, epoch: u64, armed: Permissions) -> Approval {
    if grant.epoch != epoch {
        Approval::Pending
    } else if grant.decision == 1 {
        Approval::Approved(armed)
    } else if grant.decision == 2 {
        Approval::Denied
    } else {
        Approval::Pending
    }
}

/// The operator's decision about request `epoch`.
pub fn check_approval(grant: &LocalGrant, epoch: u64, armed: Permissions) -> (r: Approval)
    ensures
        r == approval_of(*grant, epoch, armed),
{
    if grant.epoch != epoch {
        return Approval::Pending;
    }
    match grant.decision {
        1 => Approval::Approved(armed),
        2 => Approval::Denied,
        _ => Approval::Pending,
    }
}

/// An approval cannot widen what the operator armed, and a yes to one request is
/// none to another.
pub proof fn lemma_approval_cannot_widen(
    grant: LocalGrant,
    epoch: u64,
    armed: Permissions,
    decided: u64,
    allow: bool,
)
    requires
        grant.open_for(decided),
    ensures
        approval_of(grant.decided(decided, allow), epoch, armed) matches Approval::Approved(granted)
            ==> granted == armed && epoch == decided && allow,
{
}

/// The number of the next request, while there are numbers left.
pub fn next_request(last: u64) -> (r: Result<u64, HostError>)
    ensures
        r == (if last == u64::MAX {
            Err(HostError::AuthenticationFailed)
        } else {
            Ok((last + 1) as u64)
        }),
{
    if last == u64::MAX {
        Err(HostError::AuthenticationFailed)
    } else {
        Ok(last + 1)
    }
}

/// What happened while a peer is being authorized.
#[derive(Debug, Clone, Copy, PartialEq, Eq, Structural)]
pub enum HostEvent {
    /// The exchange went on.
    Progress,
    /// The peer waits for the operator.
    AwaitApproval,
    /// The login was refused.
    LoginRejected,
    /// The peer is authorized; `complete` says whether its session could be taken
    /// over.
    Authorized { complete: bool },
    /// A record that means nothing here.
    Unsupported,
    /// The peer closed the connection.
    Closed,
    /// Receiving failed.
    ReceiveFailed,
    /// The host is to close.
    Cancelled,
}

/// What follows from an event.
#[derive(Debug, Clone, Copy, PartialEq, Eq, Structural)]
pub enum AuthStep {
    Continue,
    Authorized,
    Failed(HostError),
}

/// A peer that is being authorized: the number of its request, where it comes from,
/// and how many records it has sent.
pub struct Authentication {
    pub epoch: u64,
    pub origin: String,
    pub records: u8,
}

/// The step after an event, when `records` records came before it. A flood of
/// records that settle nothing comes to an end.
pub open spec fn auth_step(records: u8, event: HostEvent) -> AuthStep {
    match event {
        HostEvent::Cancelled => AuthStep::Failed(HostError::TransportFailed),
        HostEvent::ReceiveFailed => AuthStep::Failed(HostError::AuthenticationFailed),
        HostEvent::Authorized { complete } => if complete {
            AuthStep::Authorized
        } else {
            AuthStep::Failed(HostError::AuthenticationFailed)
        },
        HostEvent::Closed | HostEvent::LoginRejected => AuthStep::Failed(HostError::ApprovalDenied),
        _ => if records + 1 >= MAX_RECORDS {
            AuthStep::Failed(HostError::AuthenticationFailed)
        } else {
            AuthStep::Continue
        },
    }
}

/// The host after an event of the request `epoch` from `origin`.
pub open spec fn host_after(
    before: host::HostView,
    epoch: u64,
    origin: Seq<char>,
    event: HostEvent,
) -> host::HostView {
    match event {
        HostEvent::AwaitApproval => host::HostView {
            grant: LocalGrant { epoch, ..before.grant },
            snapshot: host::HostSnapshotView {
                phase: "awaiting_approval"@,
                approval_request: text::decimal(epoch as nat),
                approval_origin: origin,
                ..before.snapshot
            },
            ..before
        },
        HostEvent::Authorized { .. } => before.cleared(),
        _ => before,
    }
}

impl Authentication {
    /// Starts with request `epoch` from `origin`. No earlier request stays open.
    pub fn begin(host: &mut Host, epoch: u64, origin: String) -> (r: Authentication)
        ensures
            final(host)@ == old(host)@.cleared(),
            r == (Authentication { epoch, origin, records: 0 }),
    {
        host.clear_request();
        Authentication { epoch, origin, records: 0 }
    }

    /// What follows from an event.
    pub fn on_event(&mut self, host: &mut Host, event: HostEvent) -> (r: AuthStep)
        requires
            old(self).records < MAX_RECORDS,
        ensures
            r == auth_step(old(self).records, event),
            final(host)@ == host_after(old(host)@, old(self).epoch, old(self).origin@, event),
            final(self).epoch == old(self).epoch,
            final(self).origin == old(self).origin,
            final(self).records == (if event is Progress || event is AwaitApproval || event
                is Unsupported {
                (old(self).records + 1) as u8
            } else {
                old(self).records
            }),
            r is Continue ==> final(self).records < MAX_RECORDS,
    {
        match event {
            HostEvent::Cancelled => {
                return AuthStep::Failed(HostError::TransportFailed);
            },
            HostEvent::ReceiveFailed => {
                return AuthStep::Failed(HostError::AuthenticationFailed);
            },
            HostEvent::AwaitApproval => {
                host.grant.epoch = self.epoch;
                host.snapshot.phase = "awaiting_approval";
                host.snapshot.approval_request = text::decimal_text(self.epoch);
                host.snapshot.approval_origin = self.origin.clone();
            },
            HostEvent::Authorized { complete } => {
                host.clear_request();
                return if complete {
                    AuthStep::Authorized
                } else {
                    AuthStep::Failed(HostError::AuthenticationFailed)
                };
            },
            HostEvent::Closed | HostEvent::LoginRejected => {
                return AuthStep::Failed(HostError::ApprovalDenied);
            },
            HostEvent::Progress | HostEvent::Unsupported => {},
        }
        self.records = self.records + 1;
        if self.records >= MAX_RECORDS {
            return AuthStep::Failed(HostError::AuthenticationFailed);
        }
        AuthStep::Continue
    }
}

/// The step after all of `events`, or none while there were no events.
pub open spec fn auth_run(events: Seq<HostEvent>) -> Option<AuthStep>
    decreases events.len(),
{
    if events.len() == 0 {
        None
    } else {
        match auth_run(events.drop_last()) {
            Some(AuthStep::Continue) | None => Some(
                auth_step((events.len() - 1) as u8, events.last()),
            ),
            settled => settled,
        }
    }
}

/// The exchange is settled after the last admissible record at the latest.
pub proof fn lemma_exchange_is_bounded(events: Seq<HostEvent>)
    requires
        events.len() == MAX_RECORDS,
    ensures
        auth_run(events) is Some && !(auth_run(events)->0 is Continue),
{
}

/// Repeated requests for approval keep a decision that was made.
pub proof fn lemma_repeated_request_keeps_decision(
    before: host::HostView,
    epoch: u64,
    origin: Seq<char>,
    allow: bool,
)
    requires
        before.grant.open_for(epoch),
    ensures
        ({
            let decided = host::HostView { grant: before.grant.decided(epoch, allow), ..before };
            host_after(decided, epoch, origin, HostEvent::AwaitApproval).grant == decided.grant
        }),
{
}

} // verus!

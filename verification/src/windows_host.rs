//! The host program for Windows: its arguments, its identity file, its commands and
//! what it reports.
use vstd::prelude::*;
use vstd::string::StringExecFns;
use crate::bitrate;
use crate::bitrate::{BitrateCodec, auto_bitrate_bps};
use crate::bytes;
use crate::encoding;
use crate::host;
use crate::host::{Address, HostError, HostOptions, HostSnapshot};
use crate::publisher::{CodecSelection, PublisherBackend};
use crate::text;

verus! {

/// What the arguments ask for.
#[derive(Debug)]
pub struct Cli {
    /// The address to listen on, as it is written.
    pub listen: String,
    pub id: String,
    pub backend: PublisherBackend,
    pub output: usize,
    pub codec: CodecSelection,
    pub fps: u32,
    /// Zero leaves the choice to the shape of the session.
    pub bitrate: i64,
    pub test_auto_approve: bool,
    pub identity: Option<String>,
    pub list_outputs: bool,
    pub allow_input: bool,
}

/// What the arguments ask for, with texts as sequences.
pub struct CliView {
    pub listen: Seq<char>,
    pub id: Seq<char>,
    pub backend: PublisherBackend,
    pub output: usize,
    pub codec: CodecSelection,
    pub fps: u32,
    pub bitrate: i64,
    pub test_auto_approve: bool,
    pub identity: Option<Seq<char>>,
    pub list_outputs: bool,
    pub allow_input: bool,
}

impl View for Cli {
    type V = CliView;

    open spec fn view(&self) -> CliView {
        CliView {
            listen: self.listen@,
            id: self.id@,
            backend: self.backend,
            output: self.output,
            codec: self.codec,
            fps: self.fps,
            bitrate: self.bitrate,
            test_auto_approve: self.test_auto_approve,
            identity: match self.identity {
                Some(path) => Some(path@),
                None => None,
            },
            list_outputs: self.list_outputs,
            allow_input: self.allow_input,
        }
    }
}

impl CliView {
    /// Without any argument.
    pub open spec fn plain() -> CliView {
        CliView {
            listen: "0.0.0.0:21118"@,
            id: "rd-engine-windows-host"@,
            backend: PublisherBackend::Auto,
            output: 0,
            codec: CodecSelection::Auto,
            fps: 60,
            bitrate: 0,
            test_auto_approve: false,
            identity: None,
            list_outputs: false,
            allow_input: false,
        }
    }
}

impl Default for Cli {
    fn default() -> (r: Cli)
        ensures
            r@ == CliView::plain(),
    {
        Cli {
            listen: "0.0.0.0:21118".to_owned(),
            id: "rd-engine-windows-host".to_owned(),
            backend: PublisherBackend::Auto,
            output: 0,
            codec: CodecSelection::Auto,
            fps: 60,
            bitrate: 0,
            test_auto_approve: false,
            identity: None,
            list_outputs: false,
            allow_input: false,
        }
    }
}

/// What the arguments amount to.
#[derive(Debug)]
pub enum Request {
    Run(Cli),
    /// The usage is to be printed.
    Help,
}

/// What the arguments amount to, or what is wrong with them.
pub enum RequestView {
    Run(CliView),
    Help,
    Wrong(Seq<char>),
}

/// Whether an argument is followed by a value.
pub open spec fn takes_value(arg: Seq<char>) -> bool {
    ||| arg == "--listen"@
    ||| arg == "--id"@
    ||| arg == "--backend"@
    ||| arg == "--output"@
    ||| arg == "--codec"@
    ||| arg == "--fps"@
    ||| arg == "--bitrate"@
    ||| arg == "--identity"@
}

/// What `value` makes of `cli` as the value of `arg`. `address` says whether it
/// reads as a socket address.
pub open spec fn with_value(
    cli: CliView,
    arg: Seq<char>,
    value: Seq<char>,
    address: bool,
) -> Result<CliView, Seq<char>> {
    if arg == "--listen"@ {
        if address {
            Ok(CliView { listen: value, ..cli })
        } else {
            Err("invalid --listen"@)
        }
    } else if arg == "--id"@ {
        Ok(CliView { id: value, ..cli })
    } else if arg == "--backend"@ {
        if value == "auto"@ {
            Ok(CliView { backend: PublisherBackend::Auto, ..cli })
        } else if value == "dxgi-nvenc"@ {
            Ok(CliView { backend: PublisherBackend::DxgiNvenc, ..cli })
        } else {
            Err("--backend must be auto or dxgi-nvenc"@)
        }
    } else if arg == "--output"@ {
        match text::parsed_unsigned(value, usize::MAX as nat) {
            Some(n) => Ok(CliView { output: n as usize, ..cli }),
            None => Err("invalid --output"@),
        }
    } else if arg == "--codec"@ {
        if value == "auto"@ {
            Ok(CliView { codec: CodecSelection::Auto, ..cli })
        } else if value == "h264"@ {
            Ok(CliView { codec: CodecSelection::H264, ..cli })
        } else if value == "h265"@ {
            Ok(CliView { codec: CodecSelection::H265, ..cli })
        } else {
            Err("--codec must be auto, h264, or h265"@)
        }
    } else if arg == "--fps"@ {
        match text::parsed_unsigned(value, u32::MAX as nat) {
            Some(n) => Ok(CliView { fps: n as u32, ..cli }),
            None => Err("invalid --fps"@),
        }
    } else if arg == "--bitrate"@ {
        if text::lowered(value) == "auto"@ {
            Ok(CliView { bitrate: 0, ..cli })
        } else {
            match text::parsed_signed(value, i64::MIN as int, i64::MAX as nat) {
                Some(n) => Ok(CliView { bitrate: n as i64, ..cli }),
                None => Err("invalid --bitrate"@),
            }
        }
    } else {
        Ok(CliView { identity: Some(value), ..cli })
    }
}

/// What the arguments from place `at` on make of `cli`. A later argument overrides
/// an earlier one.
pub open spec fn requested(
    args: Seq<Seq<char>>,
    addresses: Seq<bool>,
    at: int,
    cli: CliView,
) -> RequestView
    decreases args.len() - at,
{
    if at < 0 || at >= args.len() {
        RequestView::Run(cli)
    } else if takes_value(args[at]) {
        if at + 1 >= args.len() {
            RequestView::Wrong("missing value for "@ + args[at])
        } else {
            match with_value(cli, args[at], args[at + 1], addresses[at + 1]) {
                Ok(next) => requested(args, addresses, at + 2, next),
                Err(what) => RequestView::Wrong(what),
            }
        }
    } else if args[at] == "--allow-input"@ {
        requested(args, addresses, at + 1, CliView { allow_input: true, ..cli })
    } else if args[at] == "--list-outputs"@ {
        requested(args, addresses, at + 1, CliView { list_outputs: true, ..cli })
    } else if args[at] == "--test-auto-approve"@ {
        requested(args, addresses, at + 1, CliView { test_auto_approve: true, ..cli })
    } else if args[at] == "--help"@ || args[at] == "-h"@ {
        RequestView::Help
    } else {
        RequestView::Wrong("unknown argument: "@ + args[at])
    }
}

fn is_valued(arg: &str) -> (r: bool)
    ensures
        r == takes_value(arg@),
{
    text::same_text(arg, "--listen") || text::same_text(arg, "--id") || text::same_text(
        arg,
        "--backend",
    ) || text::same_text(arg, "--output") || text::same_text(arg, "--codec") || text::same_text(
        arg,
        "--fps",
    ) || text::same_text(arg, "--bitrate") || text::same_text(arg, "--identity")
}

fn apply_value(cli: Cli, arg: &str, value: &str, address: bool) -> (r: Result<Cli, String>)
    requires
        takes_value(arg@),
    ensures
        match r {
            Ok(next) => with_value(cli@, arg@, value@, address) == Ok::<CliView, Seq<char>>(next@),
            Err(what) => with_value(cli@, arg@, value@, address) == Err::<CliView, Seq<char>>(
                what@,
            ),
        },
{
    let mut cli = cli;
    if text::same_text(arg, "--listen") {
        if !address {
            return Err("invalid --listen".to_owned());
        }
        cli.listen = value.to_owned();
    } else if text::same_text(arg, "--id") {
        cli.id = value.to_owned();
    } else if text::same_text(arg, "--backend") {
        if text::same_text(value, "auto") {
            cli.backend = PublisherBackend::Auto;
        } else if text::same_text(value, "dxgi-nvenc") {
            cli.backend = PublisherBackend::DxgiNvenc;
        } else {
            return Err("--backend must be auto or dxgi-nvenc".to_owned());
        }
    } else if text::same_text(arg, "--output") {
        match text::parse_unsigned(value, usize::MAX as u64) {
            Some(n) => {
                cli.output = n as usize;
            },
            None => {
                return Err("invalid --output".to_owned());
            },
        }
    } else if text::same_text(arg, "--codec") {
        if text::same_text(value, "auto") {
            cli.codec = CodecSelection::Auto;
        } else if text::same_text(value, "h264") {
            cli.codec = CodecSelection::H264;
        } else if text::same_text(value, "h265") {
            cli.codec = CodecSelection::H265;
        } else {
            return Err("--codec must be auto, h264, or h265".to_owned());
        }
    } else if text::same_text(arg, "--fps") {
        match text::parse_unsigned(value, u32::MAX as u64) {
            Some(n) => {
                cli.fps = n as u32;
            },
            None => {
                return Err("invalid --fps".to_owned());
            },
        }
    } else if text::same_text(arg, "--bitrate") {
        if text::same_text(text::ascii_lowercase(value).as_str(), "auto") {
            cli.bitrate = 0;
        } else {
            match text::parse_signed(value) {
                Some(n) => {
                    cli.bitrate = n;
                },
                None => {
                    return Err("invalid --bitrate".to_owned());
                },
            }
        }
    } else {
        cli.identity = Some(value.to_owned());
    }
    Ok(cli)
}

/// Reads the arguments. `addresses` says of each whether it reads as a socket
/// address.
pub fn parse_args(argv: &Vec<String>, addresses: &Vec<bool>) -> (r: Result<Request, String>)
    requires
        addresses@.len() == argv@.len(),
    ensures
        match r {
            Ok(Request::Run(cli)) => requested(
                text::texts(argv@),
                addresses@,
                0,
                CliView::plain(),
            ) == RequestView::Run(cli@),
            Ok(Request::Help) => requested(text::texts(argv@), addresses@, 0, CliView::plain())
                is Help,
            Err(what) => requested(text::texts(argv@), addresses@, 0, CliView::plain())
                == RequestView::Wrong(what@),
        },
{
    let mut cli = Cli::default();
    let mut at: usize = 0;
    let ghost args = text::texts(argv@);
    while at < argv.len()
        invariant
            at <= argv@.len(),
            addresses@.len() == argv@.len(),
            args == text::texts(argv@),
            requested(args, addresses@, at as int, cli@) == requested(
                args,
                addresses@,
                0,
                CliView::plain(),
            ),
        decreases argv@.len() - at,
    {
        let arg = argv[at].as_str();
        assert(args[at as int] == arg@);
        if is_valued(arg) {
            if argv.len() - at < 2 {
                return Err(text::joined("missing value for ", arg));
            }
            assert(args[at + 1] == argv@[at + 1]@);
            match apply_value(cli, arg, argv[at + 1].as_str(), addresses[at + 1]) {
                Ok(next) => {
                    cli = next;
                },
                Err(what) => {
                    return Err(what);
                },
            }
            at = at + 2;
        } else if text::same_text(arg, "--allow-input") {
            cli.allow_input = true;
            at = at + 1;
        } else if text::same_text(arg, "--list-outputs") {
            cli.list_outputs = true;
            at = at + 1;
        } else if text::same_text(arg, "--test-auto-approve") {
            cli.test_auto_approve = true;
            at = at + 1;
        } else if text::same_text(arg, "--help") || text::same_text(arg, "-h") {
            return Ok(Request::Help);
        } else {
            return Err(text::joined("unknown argument: ", arg));
        }
    }
    Ok(Request::Run(cli))
}

/// Input stays off unless it is asked for: no argument but its own arms it.
pub proof fn lemma_input_is_off_by_default(
    args: Seq<Seq<char>>,
    addresses: Seq<bool>,
    at: int,
    cli: CliView,
)
    requires
        0 <= at,
        !args.contains("--allow-input"@),
        !cli.allow_input,
    ensures
        requested(args, addresses, at, cli) matches RequestView::Run(run) ==> !run.allow_input,
    decreases args.len() - at,
{
    if at < args.len() {
        assert(args.contains(args[at]));
        if takes_value(args[at]) {
            if at + 1 < args.len() {
                match with_value(cli, args[at], args[at + 1], addresses[at + 1]) {
                    Ok(next) => {
                        lemma_input_is_off_by_default(args, addresses, at + 2, next);
                    },
                    Err(_) => {},
                }
            }
        } else if args[at] == "--list-outputs"@ {
            lemma_input_is_off_by_default(
                args,
                addresses,
                at + 1,
                CliView { list_outputs: true, ..cli },
            );
        } else if args[at] == "--test-auto-approve"@ {
            lemma_input_is_off_by_default(
                args,
                addresses,
                at + 1,
                CliView { test_auto_approve: true, ..cli },
            );
        }
    }
}

/// The bitrate that the encoder is opened with: the one asked for, or else the one
/// of the session's shape for H.265, or a default where the shape is unusable.
pub fn resolve_bitrate(cli: &Cli, width: i32, height: i32) -> (r: Result<i64, String>)
    ensures
        r matches Ok(rate) && rate == (if cli.bitrate > 0 {
            cli.bitrate as int
        } else if width > 0 && height > 0 && cli.fps > 0 {
            bitrate::auto_rate(width as int, height as int, cli.fps as int, BitrateCodec::H265)
        } else {
            20_000_000
        }),
{
    if cli.bitrate > 0 {
        return Ok(cli.bitrate);
    }
    match auto_bitrate_bps(width, height, cli.fps, BitrateCodec::H265) {
        Some(rate) => Ok(rate),
        None => Ok(20_000_000),
    }
}

/// The options of the host for the arguments, the display that is captured, the
/// address as it is read, the key, and the resolved bitrate.
pub fn host_options(
    cli: &Cli,
    listen: Address,
    signing_key: Vec<u8>,
    width: i32,
    height: i32,
    bitrate: i64,
) -> (r: HostOptions)
    ensures
        r.listen == listen,
        r.signing_key == signing_key,
        r.id@ == cli.id@,
        r.width == width,
        r.height == height,
        r.fps == cli.fps,
        r.bitrate == bitrate,
        r.bitrate_auto == (cli.bitrate <= 0),
        r.platform@ == "Windows"@,
        r.publisher_backend == cli.backend,
        r.output_index == cli.output,
        r.codec_selection == cli.codec,
        r.input_injection == cli.allow_input,
        r.input_sink == cli.allow_input,
{
    HostOptions {
        listen,
        id: cli.id.clone(),
        signing_key,
        width,
        height,
        fps: cli.fps,
        bitrate,
        bitrate_auto: cli.bitrate <= 0,
        platform: "Windows".to_owned(),
        publisher_backend: cli.backend,
        output_index: cli.output,
        codec_selection: cli.codec,
        input_injection: cli.allow_input,
        input_sink: cli.allow_input,
    }
}

/// The bytes at the start of an identity file.
pub const IDENTITY_MAGIC: [u8; 8] = [82, 68, 69, 73, 68, 48, 48, 49];

/// Length of an identity file: the magic, a public key of 32 bytes and a secret key
/// of 64 bytes.
pub const IDENTITY_BYTES: usize = 104;

/// What is wrong with an identity file.
#[derive(Debug, Clone, Copy, PartialEq, Eq, Structural)]
pub enum IdentityError {
    /// It is too short.
    Truncated,
    /// It is too long or starts with something else.
    InvalidFormat,
    /// The secret key does not end in the public key.
    Inconsistent,
}

impl IdentityError {
    /// How the error is written out.
    pub open spec fn shown(self) -> Seq<char> {
        match self {
            IdentityError::Truncated => "cannot read identity file: failed to fill whole buffer"@,
            IdentityError::InvalidFormat => "identity file has an invalid format"@,
            IdentityError::Inconsistent => "identity key pair is inconsistent"@,
        }
    }

    /// The error as a string.
    pub fn to_string(&self) -> (r: String)
        ensures
            r@ == self.shown(),
    {
        match *self {
            IdentityError::Truncated =>
            "cannot read identity file: failed to fill whole buffer".to_owned(),
            IdentityError::InvalidFormat => "identity file has an invalid format".to_owned(),
            IdentityError::Inconsistent => "identity key pair is inconsistent".to_owned(),
        }
    }
}

/// The content of an identity file for a pair of keys.
pub open spec fn identity_of(public: Seq<u8>, secret: Seq<u8>) -> Seq<u8> {
    IDENTITY_MAGIC@ + public + secret
}

/// What is wrong with the content of an identity file, if anything is.
pub open spec fn identity_fault(content: Seq<u8>) -> Option<IdentityError> {
    if content.len() < IDENTITY_BYTES {
        Some(IdentityError::Truncated)
    } else if content.len() > IDENTITY_BYTES || content.take(8) != IDENTITY_MAGIC@ {
        Some(IdentityError::InvalidFormat)
    } else if content.subrange(72, 104) != content.subrange(8, 40) {
        Some(IdentityError::Inconsistent)
    } else {
        None
    }
}

fn same_bytes(a: &[u8], b: &[u8]) -> (r: bool)
    ensures
        r == (a@ == b@),
{
    if a.len() != b.len() {
        return false;
    }
    let mut i: usize = 0;
    while i < a.len()
        invariant
            i <= a@.len(),
            a@.len() == b@.len(),
            forall|j: int| 0 <= j < i ==> a@[j] == b@[j],
        decreases a@.len() - i,
    {
        if a[i] != b[i] {
            return false;
        }
        i = i + 1;
    }
    assert(a@ =~= b@);
    true
}

/// The public and the secret key of an identity file.
pub fn decode_identity(content: &[u8]) -> (r: Result<(Vec<u8>, Vec<u8>), IdentityError>)
    ensures
        match r {
            Ok((public, secret)) => identity_fault(content@) is None && public@
                == content@.subrange(8, 40) && secret@ == content@.subrange(40, 104),
            Err(error) => identity_fault(content@) == Some(error),
        },
{
    if content.len() < IDENTITY_BYTES {
        return Err(IdentityError::Truncated);
    }
    let magic: [u8; 8] = IDENTITY_MAGIC;
    assert(content@.subrange(0, 8) =~= content@.take(8));
    if content.len() > IDENTITY_BYTES || !same_bytes(
        vstd::slice::slice_subrange(content, 0, 8),
        magic.as_slice(),
    ) {
        return Err(IdentityError::InvalidFormat);
    }
    let public = vstd::slice::slice_subrange(content, 8, 40);
    if !same_bytes(vstd::slice::slice_subrange(content, 72, 104), public) {
        return Err(IdentityError::Inconsistent);
    }
    Ok(
        (
            vstd::slice::slice_to_vec(public),
            vstd::slice::slice_to_vec(vstd::slice::slice_subrange(content, 40, 104)),
        ),
    )
}

/// The content of an identity file for a pair of keys.
pub fn encode_identity(public: &[u8], secret: &[u8]) -> (r: Vec<u8>)
    ensures
        r@ == identity_of(public@, secret@),
{
    let mut content: Vec<u8> = Vec::new();
    let magic: [u8; 8] = IDENTITY_MAGIC;
    bytes::push_all(&mut content, magic.as_slice());
    bytes::push_all(&mut content, public);
    bytes::push_all(&mut content, secret);
    assert(content@ =~= identity_of(public@, secret@));
    content
}

/// Reading an identity file gives back the keys that were written.
pub proof fn lemma_identity_round_trip(public: Seq<u8>, secret: Seq<u8>)
    requires
        public.len() == 32,
        secret.len() == 64,
        secret.skip(32) == public,
    ensures
        identity_fault(identity_of(public, secret)) is None,
        identity_of(public, secret).subrange(8, 40) == public,
        identity_of(public, secret).subrange(40, 104) == secret,
{
    let content = identity_of(public, secret);
    assert(content.take(8) =~= IDENTITY_MAGIC@);
    assert(content.subrange(8, 40) =~= public);
    assert(content.subrange(40, 104) =~= secret);
    assert(content.subrange(72, 104) =~= secret.skip(32));
}

/// The keys in the content of an identity file, or what is wrong with it.
pub open spec fn keys_in(content: Seq<u8>) -> Result<(Seq<u8>, Seq<u8>), IdentityError> {
    match identity_fault(content) {
        Some(error) => Err(error),
        None => Ok((content.subrange(8, 40), content.subrange(40, 104))),
    }
}

/// The keys that a host has: those of its identity file, where there is one, and else
/// new ones.
pub open spec fn identity_keys(
    content: Option<Seq<u8>>,
    public: Seq<u8>,
    secret: Seq<u8>,
) -> Result<(Seq<u8>, Seq<u8>), IdentityError> {
    match content {
        Some(content) => keys_in(content),
        None => Ok((public, secret)),
    }
}

/// The identity file after a host was started: the one that there was, or a new one with
/// new keys.
pub open spec fn identity_file(
    content: Option<Seq<u8>>,
    public: Seq<u8>,
    secret: Seq<u8>,
) -> Seq<u8> {
    match content {
        Some(content) => content,
        None => identity_of(public, secret),
    }
}

/// The keys of a host. `content` is what its identity file holds, if there is one; `public`
/// and `secret` are new keys, for where there is none. The second result is the file to
/// create: one that is there is never written, whatever is wrong with it.
pub fn load_or_create_identity(content: Option<&[u8]>, public: &[u8], secret: &[u8]) -> (r: (
    Result<(Vec<u8>, Vec<u8>), IdentityError>,
    Option<Vec<u8>>,
))
    ensures
        ({
            let held = match content {
                Some(content) => Some(content@),
                None => None,
            };
            &&& match r.0 {
                Ok((p, s)) => identity_keys(held, public@, secret@) == Ok::<_, IdentityError>(
                    (p@, s@),
                ),
                Err(error) => identity_keys(held, public@, secret@) == Err::<
                    (Seq<u8>, Seq<u8>),
                    _,
                >(error),
            }
            &&& match r.1 {
                Some(created) => content is None && created@ == identity_file(
                    held,
                    public@,
                    secret@,
                ),
                None => content is Some,
            }
        }),
{
    match content {
        Some(content) => (decode_identity(content), None),
        None => (
            Ok((vstd::slice::slice_to_vec(public), vstd::slice::slice_to_vec(secret))),
            Some(encode_identity(public, secret)),
        ),
    }
}

/// A host keeps its keys: started again on the file that it left, it has the keys that it
/// had, whatever new ones are at hand then.
pub proof fn lemma_identity_is_kept(
    content: Option<Seq<u8>>,
    public: Seq<u8>,
    secret: Seq<u8>,
    other_public: Seq<u8>,
    other_secret: Seq<u8>,
)
    requires
        content is None ==> public.len() == 32 && secret.len() == 64 && secret.skip(32) == public,
    ensures
        ({
            let file = identity_file(content, public, secret);
            &&& identity_keys(Some(file), other_public, other_secret) == identity_keys(
                content,
                public,
                secret,
            )
            &&& identity_file(Some(file), other_public, other_secret) == file
        }),
{
    if content is None {
        lemma_identity_round_trip(public, secret);
    }
}

/// The line that shows the operator the key that peers pin.
pub fn signing_key_line(key: &[u8]) -> (r: String)
    requires
        (key@.len() + 2) / 3 * 4 <= usize::MAX,
    ensures
        r@ == "peer_signing_key_base64="@ + encoding::base64_text(key@),
{
    text::joined("peer_signing_key_base64=", encoding::encode_base64(key).as_str())
}

/// A command of the operator.
#[derive(Debug)]
pub enum Command {
    Approve(String),
    Deny(String),
    Quit,
    /// An empty line.
    Nothing,
    Invalid,
}

/// The command that a line spells.
pub open spec fn spells(command: Command, line: Seq<char>) -> bool {
    let words = text::words_from(line, 0);
    if words.len() == 2 && words[0] == "approve"@ {
        command matches Command::Approve(request) && request@ == words[1]
    } else if words.len() == 2 && words[0] == "deny"@ {
        command matches Command::Deny(request) && request@ == words[1]
    } else if words.len() == 1 && words[0] == "quit"@ {
        command is Quit
    } else if words.len() == 0 {
        command is Nothing
    } else {
        command is Invalid
    }
}

/// The command of a line.
pub fn command(line: &str) -> (r: Command)
    ensures
        spells(r, line@),
{
    let words = text::split_words(line);
    proof {
        assert(text::texts(words@).len() == words@.len());
        assert forall|i: int| 0 <= i < words@.len() implies words@[i]@ == text::words_from(
            line@,
            0,
        )[i] by {
            assert(text::texts(words@)[i] == words@[i]@);
        }
    }
    if words.len() == 0 {
        return Command::Nothing;
    }
    if words.len() == 1 && text::same_text(words[0].as_str(), "quit") {
        return Command::Quit;
    }
    if words.len() == 2 {
        if text::same_text(words[0].as_str(), "approve") {
            return Command::Approve(words[1].clone());
        }
        if text::same_text(words[0].as_str(), "deny") {
            return Command::Deny(words[1].clone());
        }
    }
    Command::Invalid
}

/// What was reported last.
pub struct Console {
    pub phase: String,
    pub request: String,
    pub error: Option<HostError>,
}

/// What is to be reported, and what is to be done.
#[derive(Debug)]
pub struct Report {
    pub phase: Option<String>,
    pub request: Option<String>,
    /// The request is to be approved without asking.
    pub approve: bool,
    pub error: Option<String>,
    pub metrics: Option<String>,
    /// The program ends with this result.
    pub ended: Option<Result<(), String>>,
}

/// The line about a phase.
pub open spec fn phase_line(s: host::HostSnapshotView) -> Seq<char> {
    "phase="@ + s.phase + " connected="@ + text::truth(s.connected) + " encrypted="@
        + text::truth(s.encrypted) + " codec="@ + s.codec + " fps="@ + text::decimal(s.fps as nat)
        + " sent_units="@ + text::decimal(s.sent_units as nat) + " sent_bytes="@ + text::decimal(
        s.sent_bytes as nat,
    )
}

/// The line about a request.
pub open spec fn request_line(s: host::HostSnapshotView) -> Seq<char> {
    "approval_request="@ + s.approval_request + " origin="@ + s.approval_origin
}

/// The line about the transfer.
pub open spec fn metrics_line(s: host::HostSnapshotView) -> Seq<char> {
    "metrics fps="@ + text::decimal(s.fps as nat) + " sent_units="@ + text::decimal(
        s.sent_units as nat,
    ) + " sent_bytes="@ + text::decimal(s.sent_bytes as nat)
}

/// Whether an optional line is there exactly where `wanted`, and reads `line`.
pub open spec fn optional_line(r: Option<String>, wanted: bool, line: Seq<char>) -> bool {
    match r {
        Some(text) => wanted && text@ == line,
        None => !wanted,
    }
}

/// How often the transfer is reported, in milliseconds.
pub const METRICS_MILLIS: u64 = 5000;

/// Whether a request is new.
pub open spec fn new_request(last: Seq<char>, s: host::HostSnapshotView) -> bool {
    s.approval_request.len() > 0 && s.approval_request != last
}

impl Console {
    /// Nothing reported yet.
    pub fn new() -> (r: Console)
        ensures
            r.phase@ == Seq::<char>::empty(),
            r.request@ == Seq::<char>::empty(),
            r.error is None,
    {
        let r = Console { phase: String::new(), request: String::new(), error: None };
        assert(r.phase@ =~= Seq::<char>::empty());
        assert(r.request@ =~= Seq::<char>::empty());
        r
    }

    /// What a snapshot adds to what was reported, when the transfer was last reported
    /// `since_metrics` milliseconds ago.
    pub fn report(
        &mut self,
        snapshot: &HostSnapshot,
        auto_approve: bool,
        since_metrics: u64,
    ) -> (r: Report)
        ensures
            optional_line(
                r.phase,
                snapshot@.phase != old(self).phase@,
                phase_line(snapshot@),
            ),
            optional_line(
                r.request,
                new_request(old(self).request@, snapshot@),
                request_line(snapshot@),
            ),
            r.approve == (auto_approve && new_request(old(self).request@, snapshot@)),
            optional_line(
                r.error,
                snapshot.error != old(self).error && snapshot.error is Some,
                "host_error="@ + snapshot.error->0.shown(),
            ),
            optional_line(
                r.metrics,
                snapshot.connected && snapshot.phase@ == "streaming"@ && since_metrics
                    >= METRICS_MILLIS,
                metrics_line(snapshot@),
            ),
            match r.ended {
                None => !snapshot.closed,
                Some(Ok(_)) => snapshot.closed && snapshot.error is None,
                Some(Err(what)) => snapshot.closed && snapshot.error is Some && what@
                    == "host stopped: "@ + snapshot.error->0.shown(),
            },
            final(self).phase@ == snapshot@.phase,
            final(self).request@ == (if new_request(old(self).request@, snapshot@) {
                snapshot@.approval_request
            } else {
                old(self).request@
            }),
            final(self).error == snapshot.error,
    {
        let mut phase: Option<String> = None;
        if !text::same_text(snapshot.phase, self.phase.as_str()) {
            let mut line = text::joined("phase=", snapshot.phase);
            line.append(" connected=");
            line.append(text::truth_text(snapshot.connected));
            line.append(" encrypted=");
            line.append(text::truth_text(snapshot.encrypted));
            line.append(" codec=");
            line.append(snapshot.codec);
            line.append(" fps=");
            line.append(text::decimal_text(snapshot.fps as u64).as_str());
            line.append(" sent_units=");
            line.append(text::decimal_text(snapshot.sent_units).as_str());
            line.append(" sent_bytes=");
            line.append(text::decimal_text(snapshot.sent_bytes).as_str());
            phase = Some(line);
            self.phase = snapshot.phase.to_owned();
        }
        let mut request: Option<String> = None;
        let mut approve = false;
        if !snapshot.approval_request.as_str().is_empty() && !text::same_text(
            snapshot.approval_request.as_str(),
            self.request.as_str(),
        ) {
            let mut line = text::joined("approval_request=", snapshot.approval_request.as_str());
            line.append(" origin=");
            line.append(snapshot.approval_origin.as_str());
            request = Some(line);
            self.request = snapshot.approval_request.clone();
            approve = auto_approve;
        }
        let changed = match (snapshot.error, self.error) {
            (None, None) => false,
            (Some(now), Some(last)) => now != last,
            _ => true,
        };
        let mut error: Option<String> = None;
        if changed {
            if let Some(now) = snapshot.error {
                error = Some(text::joined("host_error=", now.to_string().as_str()));
            }
            self.error = snapshot.error;
        }
        let mut metrics: Option<String> = None;
        if snapshot.connected && text::same_text(snapshot.phase, "streaming") && since_metrics
            >= METRICS_MILLIS {
            let mut line = text::joined(
                "metrics fps=",
                text::decimal_text(snapshot.fps as u64).as_str(),
            );
            line.append(" sent_units=");
            line.append(text::decimal_text(snapshot.sent_units).as_str());
            line.append(" sent_bytes=");
            line.append(text::decimal_text(snapshot.sent_bytes).as_str());
            metrics = Some(line);
        }
        let ended = if snapshot.closed {
            match snapshot.error {
                Some(error) => Some(
                    Err(text::joined("host stopped: ", error.to_string().as_str())),
                ),
                None => Some(Ok(())),
            }
        } else {
            None
        };
        Report { phase, request, approve, error, metrics, ended }
    }
}

} // verus!

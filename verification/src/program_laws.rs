//! What holds of the host program as a whole: each argument sets what it names, each line
//! of the operator means one thing, and what is reported is what changed.
use vstd::prelude::*;
use crate::host;
use crate::host::HostError;
use crate::publisher::{CodecSelection, PublisherBackend};
use crate::text;
use crate::windows_host;
use crate::windows_host::{CliView, Command, IdentityError, RequestView};

verus! {

proof fn lemma_arguments_differ()
    ensures
        "--listen"@.len() == 8 && "--listen"@[2] == 'l',
        "--id"@.len() == 4,
        "--backend"@.len() == 9 && "--backend"@[3] == 'a',
        "--output"@.len() == 8 && "--output"@[2] == 'o',
        "--codec"@.len() == 7,
        "--fps"@.len() == 5,
        "--bitrate"@.len() == 9 && "--bitrate"@[3] == 'i',
        "--identity"@.len() == 10,
        "--allow-input"@.len() == 13,
        "--list-outputs"@.len() == 14,
        "--test-auto-approve"@.len() == 19,
        "--help"@.len() == 6,
        "-h"@.len() == 2,
{
    reveal_strlit("--listen");
    reveal_strlit("--id");
    reveal_strlit("--backend");
    reveal_strlit("--output");
    reveal_strlit("--codec");
    reveal_strlit("--fps");
    reveal_strlit("--bitrate");
    reveal_strlit("--identity");
    reveal_strlit("--allow-input");
    reveal_strlit("--list-outputs");
    reveal_strlit("--test-auto-approve");
    reveal_strlit("--help");
    reveal_strlit("-h");
}

proof fn lemma_values_differ()
    ensures
        "auto"@.len() == 4 && "auto"@[0] == 'a',
        "h264"@.len() == 4 && "h264"@[0] == 'h' && "h264"@[3] == '4',
        "h265"@.len() == 4 && "h265"@[0] == 'h' && "h265"@[3] == '5',
        "dxgi-nvenc"@.len() == 10,
{
    reveal_strlit("auto");
    reveal_strlit("h264");
    reveal_strlit("h265");
    reveal_strlit("dxgi-nvenc");
}

/// The value of an argument sets what the argument names, to what the value reads as, and
/// nothing else; a value that does not read is refused.
pub proof fn lemma_values_set_what_they_name(
    cli: CliView,
    value: Seq<char>,
    address: bool,
)
    ensures
        windows_host::with_value(cli, "--listen"@, value, address) matches Ok(next) ==> address
            && next == (CliView { listen: value, ..cli }),
        windows_host::with_value(cli, "--listen"@, value, address) is Ok <==> address,
        windows_host::with_value(cli, "--id"@, value, address) == Ok::<CliView, Seq<char>>(
            CliView { id: value, ..cli },
        ),
        windows_host::with_value(cli, "--identity"@, value, address) == Ok::<CliView, Seq<char>>(
            CliView { identity: Some(value), ..cli },
        ),
        match text::parsed_unsigned(value, usize::MAX as nat) {
            Some(n) => windows_host::with_value(cli, "--output"@, value, address) == Ok::<
                CliView,
                Seq<char>,
            >(CliView { output: n as usize, ..cli }),
            None => windows_host::with_value(cli, "--output"@, value, address) is Err,
        },
        match text::parsed_unsigned(value, u32::MAX as nat) {
            Some(n) => windows_host::with_value(cli, "--fps"@, value, address) == Ok::<
                CliView,
                Seq<char>,
            >(CliView { fps: n as u32, ..cli }),
            None => windows_host::with_value(cli, "--fps"@, value, address) is Err,
        },
        text::lowered(value) == "auto"@ ==> windows_host::with_value(
            cli,
            "--bitrate"@,
            value,
            address,
        ) == Ok::<CliView, Seq<char>>(CliView { bitrate: 0, ..cli }),
        text::lowered(value) != "auto"@ ==> (match text::parsed_signed(
            value,
            i64::MIN as int,
            i64::MAX as nat,
        ) {
            Some(n) => windows_host::with_value(cli, "--bitrate"@, value, address) == Ok::<
                CliView,
                Seq<char>,
            >(CliView { bitrate: n as i64, ..cli }),
            None => windows_host::with_value(cli, "--bitrate"@, value, address) is Err,
        }),
{
    lemma_arguments_differ();
}

/// The words for a codec and for a way to capture stand for themselves, and no other word
/// stands for any.
pub proof fn lemma_words_for_codecs(cli: CliView, value: Seq<char>, address: bool)
    ensures
        windows_host::with_value(cli, "--codec"@, "auto"@, address) == Ok::<CliView, Seq<char>>(
            CliView { codec: CodecSelection::Auto, ..cli },
        ),
        windows_host::with_value(cli, "--codec"@, "h264"@, address) == Ok::<CliView, Seq<char>>(
            CliView { codec: CodecSelection::H264, ..cli },
        ),
        windows_host::with_value(cli, "--codec"@, "h265"@, address) == Ok::<CliView, Seq<char>>(
            CliView { codec: CodecSelection::H265, ..cli },
        ),
        windows_host::with_value(cli, "--codec"@, value, address) is Ok ==> value == "auto"@
            || value == "h264"@ || value == "h265"@,
        windows_host::with_value(cli, "--backend"@, "auto"@, address) == Ok::<CliView, Seq<char>>(
            CliView { backend: PublisherBackend::Auto, ..cli },
        ),
        windows_host::with_value(cli, "--backend"@, "dxgi-nvenc"@, address) == Ok::<
            CliView,
            Seq<char>,
        >(CliView { backend: PublisherBackend::DxgiNvenc, ..cli }),
        windows_host::with_value(cli, "--backend"@, value, address) is Ok ==> value == "auto"@
            || value == "dxgi-nvenc"@,
{
    lemma_arguments_differ();
    lemma_values_differ();
}

/// Arguments are read from left to right: one with a value together with it, a switch alone.
/// Help is given wherever it is asked for, and what is not known, or lacks its value, is
/// refused.
pub proof fn lemma_arguments_in_turn(
    args: Seq<Seq<char>>,
    addresses: Seq<bool>,
    at: int,
    cli: CliView,
)
    requires
        0 <= at < args.len(),
    ensures
        ({
            let read = windows_host::requested(args, addresses, at, cli);
            let valued = args[at] == "--listen"@ || args[at] == "--id"@ || args[at] == "--backend"@
                || args[at] == "--output"@ || args[at] == "--codec"@ || args[at] == "--fps"@
                || args[at] == "--bitrate"@ || args[at] == "--identity"@;
            let known = valued || args[at] == "--allow-input"@ || args[at] == "--list-outputs"@
                || args[at] == "--test-auto-approve"@ || args[at] == "--help"@ || args[at] == "-h"@;
            &&& windows_host::takes_value(args[at]) <==> valued
            &&& valued && at + 1 >= args.len() ==> read is Wrong
            &&& valued && at + 1 < args.len() ==> match windows_host::with_value(
                cli,
                args[at],
                args[at + 1],
                addresses[at + 1],
            ) {
                Ok(next) => read == windows_host::requested(args, addresses, at + 2, next),
                Err(what) => read == RequestView::Wrong(what),
            }
            &&& args[at] == "--allow-input"@ ==> read == windows_host::requested(
                args,
                addresses,
                at + 1,
                CliView { allow_input: true, ..cli },
            )
            &&& args[at] == "--list-outputs"@ ==> read == windows_host::requested(
                args,
                addresses,
                at + 1,
                CliView { list_outputs: true, ..cli },
            )
            &&& args[at] == "--test-auto-approve"@ ==> read == windows_host::requested(
                args,
                addresses,
                at + 1,
                CliView { test_auto_approve: true, ..cli },
            )
            &&& args[at] == "--help"@ || args[at] == "-h"@ ==> read is Help
            &&& !known ==> read is Wrong
        }),
        windows_host::requested(args, addresses, args.len() as int, cli) == RequestView::Run(cli),
{
    lemma_arguments_differ();
}

/// Without arguments the host listens on every address, captures the first output at sixty
/// frames a second, adapts its rate, and neither takes input nor approves by itself.
pub proof fn lemma_plain_start(addresses: Seq<bool>)
    ensures
        windows_host::requested(Seq::empty(), addresses, 0, CliView::plain()) == RequestView::Run(
            CliView::plain(),
        ),
        ({
            let cli = CliView::plain();
            &&& cli.listen == "0.0.0.0:21118"@
            &&& cli.fps == 60 && cli.bitrate == 0 && cli.output == 0
            &&& cli.backend is Auto && cli.codec is Auto
            &&& !cli.allow_input && !cli.test_auto_approve && !cli.list_outputs
            &&& cli.identity is None
        }),
{
}

proof fn lemma_words_differ()
    ensures
        "approve"@.len() == 7,
        "deny"@.len() == 4 && "deny"@[0] == 'd',
        "quit"@.len() == 4 && "quit"@[0] == 'q',
{
    reveal_strlit("approve");
    reveal_strlit("deny");
    reveal_strlit("quit");
}

/// A line of the operator approves or denies the request that it names, ends the program,
/// or means nothing; and each command comes from its own words.
pub proof fn lemma_lines_of_the_operator(command: Command, line: Seq<char>)
    requires
        windows_host::spells(command, line),
    ensures
        ({
            let words = text::words_from(line, 0);
            &&& command matches Command::Approve(request) ==> words =~= seq!["approve"@, request@]
            &&& command matches Command::Deny(request) ==> words =~= seq!["deny"@, request@]
            &&& command is Quit <==> words =~= seq!["quit"@]
            &&& command is Nothing <==> words.len() == 0
            &&& words.len() == 2 && words[0] == "approve"@ ==> command is Approve
            &&& words.len() == 2 && words[0] == "deny"@ ==> command is Deny
        }),
{
    lemma_words_differ();
}

/// A request is reported once: it is new where there is one and it is not the last.
pub proof fn lemma_new_requests(last: Seq<char>, s: host::HostSnapshotView)
    ensures
        windows_host::new_request(last, s) <==> s.approval_request.len() > 0 && s.approval_request
            != last,
        !windows_host::new_request(s.approval_request, s),
{
}

/// An identity file is read exactly where it has its length, its first bytes, and keys that
/// belong together; and what is wrong is told apart.
pub proof fn lemma_identity_files(content: Seq<u8>)
    ensures
        ({
            let fault = windows_host::identity_fault(content);
            let magic = content.take(8) == seq![82u8, 68, 69, 73, 68, 48, 48, 49];
            let paired = content.subrange(72, 104) == content.subrange(8, 40);
            &&& fault == Some(IdentityError::Truncated) <==> content.len() < 104
            &&& fault == Some(IdentityError::InvalidFormat) <==> content.len() > 104 || (
            content.len() == 104 && !magic)
            &&& fault == Some(IdentityError::Inconsistent) <==> content.len() == 104 && magic
                && !paired
            &&& fault is None <==> content.len() == 104 && magic && paired
        }),
{
    assert(windows_host::IDENTITY_MAGIC@ =~= seq![82u8, 68, 69, 73, 68, 48, 48, 49]);
}

/// Every error is written out by its own name.
pub proof fn lemma_errors_have_names(error: HostError)
    ensures
        error is InvalidOptions ==> error.shown() == "InvalidOptions"@,
        error is NoRuntime ==> error.shown() == "NoRuntime"@,
        error is NoHardwareCodec ==> error.shown() == "NoHardwareCodec"@,
        error is ListenFailed ==> error.shown() == "ListenFailed"@,
        error is TransportFailed ==> error.shown() == "TransportFailed"@,
        error is AuthenticationFailed ==> error.shown() == "AuthenticationFailed"@,
        error is ApprovalDenied ==> error.shown() == "ApprovalDenied"@,
        error is NoCommonCodec ==> error.shown() == "NoCommonCodec"@,
        error is CaptureFailed ==> error.shown() == "CaptureFailed"@,
        error is InvalidAccessUnit ==> error.shown() == "InvalidAccessUnit"@,
        error is UnsupportedDisplay ==> error.shown() == "UnsupportedDisplay"@,
        error is ReclamationUnconfirmed ==> error.shown() == "ReclamationUnconfirmed"@,
{
}

/// A line is printed exactly where it is wanted.
pub proof fn lemma_wanted_lines(r: Option<String>, wanted: bool, line: Seq<char>)
    requires
        windows_host::optional_line(r, wanted, line),
    ensures
        r is Some <==> wanted,
        r matches Some(printed) ==> printed@ == line,
{
}

/// The keys that are written to an identity file are the keys that are read from it, and a
/// host keeps those of a file that is there.
pub proof fn lemma_keys_read_back(
    public: Seq<u8>,
    secret: Seq<u8>,
    new_public: Seq<u8>,
    new_secret: Seq<u8>,
)
    requires
        public.len() == 32,
        secret.len() == 64,
        secret.skip(32) == public,
    ensures
        windows_host::identity_keys(
            Some(windows_host::identity_of(public, secret)),
            new_public,
            new_secret,
        ) == Ok::<(Seq<u8>, Seq<u8>), IdentityError>((public, secret)),
        windows_host::identity_keys(None, new_public, new_secret) == Ok::<
            (Seq<u8>, Seq<u8>),
            IdentityError,
        >((new_public, new_secret)),
        windows_host::identity_file(None, public, secret) == windows_host::identity_of(
            public,
            secret,
        ),
        windows_host::identity_file(
            Some(windows_host::identity_of(public, secret)),
            new_public,
            new_secret,
        ) == windows_host::identity_of(public, secret),
{
    windows_host::lemma_identity_round_trip(public, secret);
}

} // verus!

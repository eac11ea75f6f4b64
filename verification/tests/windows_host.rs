//! The command line and the identity file of the host program.
use rd_engine::publisher::CodecSelection;
use rd_engine::windows_host::{
    command, decode_identity, encode_identity, load_or_create_identity, parse_args,
    resolve_bitrate, signing_key_line, Cli, Command, IdentityError, Request,
};

/// A command line with the values that the resolver reads.
fn cli_with(bitrate: i64, fps: u32, codec: CodecSelection) -> Cli {
    let mut cli = Cli::default();
    cli.bitrate = bitrate;
    cli.fps = fps;
    cli.codec = codec;
    cli
}

/// A command line, where no argument is an address.
fn parsed(argv: Vec<String>) -> Result<Cli, String> {
    let addresses = vec![false; argv.len()];
    match parse_args(&argv, &addresses)? {
        Request::Run(cli) => Ok(cli),
        Request::Help => panic!("help was asked for"),
    }
}

#[test]
fn an_explicit_bitrate_is_never_second_guessed() {
    let cli = cli_with(8_000_000, 120, CodecSelection::H265);
    assert_eq!(resolve_bitrate(&cli, 2560, 1440).unwrap(), 8_000_000);
}

#[test]
fn the_auto_sentinel_produces_a_shape_derived_rate() {
    let cli = cli_with(0, 120, CodecSelection::H265);
    let resolved = resolve_bitrate(&cli, 2560, 1440).unwrap();
    assert!(
        (16_000_000..=50_000_000).contains(&resolved),
        "1440p120 H.265 resolved to {resolved}"
    );
}

#[test]
fn auto_still_yields_a_rate_when_the_shape_is_unusable() {
    // A probe that reports nonsense must not open the encoder with zero.
    let cli = cli_with(0, 60, CodecSelection::Auto);
    assert_eq!(resolve_bitrate(&cli, 0, 0).unwrap(), 20_000_000);
}

#[test]
fn auto_bitrate_parses_beside_a_literal_value() {
    assert_eq!(
        parsed(vec!["--bitrate".into(), "auto".into()])
            .unwrap()
            .bitrate,
        0
    );
    assert_eq!(
        parsed(vec!["--bitrate".into(), "5000000".into()])
            .unwrap()
            .bitrate,
        5_000_000
    );
    // The default is the sentinel, so an operator who passes nothing
    // gets a derived rate rather than a hardcoded one.
    assert_eq!(Cli::default().bitrate, 0);
}

#[test]
fn input_is_off_unless_it_is_asked_for() {
    assert!(!parsed(vec![]).unwrap().allow_input);
    assert!(parsed(vec!["--allow-input".into()]).unwrap().allow_input);
}

#[test]
fn an_unknown_argument_is_refused() {
    assert!(parsed(vec!["--no-such-thing".into()]).is_err());
    assert!(parsed(vec!["--fps".into()]).is_err(), "a value is missing");
    assert!(parsed(vec!["--fps".into(), "zero".into()]).is_err());
}

#[test]
fn an_identity_is_read_back_and_a_damaged_one_is_not() {
    let public: Vec<u8> = (0..32).collect();
    let mut secret: Vec<u8> = (100..132).collect();
    secret.extend_from_slice(&public);
    let content = encode_identity(&public, &secret);
    assert_eq!(content.len(), 104);
    let (read_public, read_secret) = decode_identity(&content).unwrap();
    assert_eq!(read_public, public);
    assert_eq!(read_secret, secret);
    let mut damaged = content.clone();
    damaged[0] ^= 1;
    assert!(decode_identity(&damaged).is_err());
    assert!(decode_identity(&content[..103]).is_err());
    let mut foreign = content.clone();
    foreign[8] ^= 1;
    assert!(decode_identity(&foreign).is_err(), "the keys do not belong together");
}

#[test]
fn a_host_keeps_its_keys_from_one_start_to_the_next() {
    let public: Vec<u8> = (0..32).collect();
    let mut secret: Vec<u8> = (100..132).collect();
    secret.extend_from_slice(&public);
    let (keys, created) = load_or_create_identity(None, &public, &secret);
    assert_eq!(keys, Ok((public.clone(), secret.clone())));
    let file = created.expect("a new file");
    assert_eq!(&file[..8], b"RDEID001");
    assert_eq!(&file[8..40], public.as_slice());
    assert_eq!(&file[40..], secret.as_slice());

    // Other keys at hand do not matter once there is a file.
    let (keys, created) = load_or_create_identity(Some(&file), &[1; 32], &[1; 64]);
    assert_eq!(keys, Ok((public, secret)));
    assert_eq!(created, None);

    // A file that cannot be read is neither replaced nor ignored.
    let (keys, created) = load_or_create_identity(Some(&file[..103]), &[1; 32], &[1; 64]);
    assert_eq!(keys, Err(IdentityError::Truncated));
    assert_eq!(created, None);
    let mut longer = file.clone();
    longer.push(0);
    let (keys, _) = load_or_create_identity(Some(&longer), &[], &[]);
    assert_eq!(keys, Err(IdentityError::InvalidFormat));
    let mut foreign = file.clone();
    foreign[103] ^= 1;
    let (keys, _) = load_or_create_identity(Some(&foreign), &[], &[]);
    assert_eq!(keys, Err(IdentityError::Inconsistent));
}

#[test]
fn the_key_that_peers_pin_is_shown_as_base64() {
    assert_eq!(
        signing_key_line(&[0u8; 32]),
        format!("peer_signing_key_base64={}=", "A".repeat(43))
    );
    assert_eq!(signing_key_line(&[0xFB, 0xFF]), "peer_signing_key_base64=+/8=");
}

#[test]
fn a_line_of_the_operator_is_a_command_or_nothing() {
    assert!(matches!(command(" quit "), Command::Quit));
    assert!(matches!(command("approve 7"), Command::Approve(request) if request == "7"));
    assert!(matches!(command("deny\t7"), Command::Deny(request) if request == "7"));
    assert!(matches!(command("  "), Command::Nothing));
    assert!(matches!(command("approve"), Command::Invalid));
}

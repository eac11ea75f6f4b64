//! VNC: authentication, messages, painting, and whole sessions against a server whose
//! side is written down.
use rd_engine::vnc::auth::{answer_challenge, encrypt_ecb, vnc_key_from_password, DesKeySchedule};
use rd_engine::vnc::live::{
    apply_rectangles, blit_raw, copy_rect, fill_solid, supported_encodings, VncLiveSession,
    RGBA_BYTES_PER_PIXEL,
};
use rd_engine::vnc::protocol::{
    decode_framebuffer_update, decode_server_cut_text, encode_client_cut_text,
    encode_framebuffer_update_request, encode_key_event, encode_pointer_event,
    encode_set_encodings, encode_set_pixel_format, preferred_pixel_format, Encoding,
    FramebufferUpdate, PixelFormat, Rectangle, SecurityType, C2S_CLIENT_CUT_TEXT, C2S_FRAMEBUFFER_UPDATE_REQUEST, C2S_KEY_EVENT,
    C2S_POINTER_EVENT, C2S_SET_ENCODINGS, C2S_SET_PIXEL_FORMAT, POINTER_BUTTON_LEFT,
    SECURITY_RESULT_FAILED, SECURITY_RESULT_OK,
};
use rd_engine::vnc::scripted::{greeting, serve, ScriptedFrame, Waiting};
use rd_engine::vnc::session::{Handshake, ServerMessage, Step, VncSession};
use rd_engine::vnc::VncError;

/// The published DES vector. If this ever fails, authentication against every
/// server fails too.
#[test]
fn des_matches_the_published_test_vector() {
    let key: [u8; 8] = [0x13, 0x34, 0x57, 0x79, 0x9B, 0xBC, 0xDF, 0xF1];
    let mut block: [u8; 8] = [0x01, 0x23, 0x45, 0x67, 0x89, 0xAB, 0xCD, 0xEF];
    let schedule = DesKeySchedule::new(&key);
    schedule.encrypt_block(&mut block);
    assert_eq!(block, [0x85, 0xE8, 0x13, 0x54, 0x0F, 0x0A, 0xB4, 0x05]);
}

/// All-ones is a DES weak key, so it is its own inverse: encrypting the
/// ciphertext again must return the plaintext.
///
/// This key is checked by that property rather than against a reference
/// value, because `.NET`'s `DES.Key` setter rewrites the parity bits and
/// silently substitutes a different key (all-ones becomes `220fdb583ee779d2`),
/// so its output for this key is not comparable.
#[test]
fn the_all_ones_weak_key_is_its_own_inverse() {
    let key: [u8; 8] = [0x01; 8];
    let schedule = DesKeySchedule::new(&key);
    let plaintext: [u8; 8] = [0x80, 0, 0, 0, 0, 0, 0, 0];
    let mut block = plaintext;
    schedule.encrypt_block(&mut block);
    let cipher = block;
    schedule.encrypt_block(&mut block);
    assert_eq!(block, plaintext, "cipher={cipher:02x?} is not self-inverse");
}

#[test]
fn the_password_becomes_a_bit_reversed_eight_byte_key() {
    // "abc" pads with zeros, and each byte's bits are reversed.
    let key = vnc_key_from_password(b"abc");
    assert_eq!(key[0], b'a'.reverse_bits());
    assert_eq!(key[1], b'b'.reverse_bits());
    assert_eq!(key[2], b'c'.reverse_bits());
    assert_eq!(&key[3..], &[0, 0, 0, 0, 0]);
}

#[test]
fn a_password_longer_than_eight_bytes_is_truncated() {
    let long = vnc_key_from_password(b"0123456789");
    let short = vnc_key_from_password(b"01234567");
    assert_eq!(long, short);
}

#[test]
fn a_challenge_answers_in_two_independent_blocks() {
    let challenge = [0u8; 16];
    let response = answer_challenge(b"password", &challenge);
    // Encrypting the zero block twice must give the same 8 bytes twice,
    // which is what ECB means and what a server expects.
    assert_eq!(&response[0..8], &response[8..16]);
    assert_ne!(&response[0..8], &[0u8; 8]);
}

#[test]
fn ecb_encryption_leaves_no_partial_block_untouched() {
    let key = vnc_key_from_password(b"secret");
    let mut data = [0u8; 16];
    encrypt_ecb(&key, &mut data);
    assert_ne!(data, [0u8; 16]);
}

#[test]
fn a_raw_rectangle_lands_as_opaque_rgba_at_the_reported_position() {
    let mut framebuffer = vec![0u8; 2 * 2 * RGBA_BYTES_PER_PIXEL];
    // One pixel, three bytes of 0xRRGGBB.
    // Little-endian 32bpp with red at shift 16: 0x112233 is 33 22 11 00.
    let pixels = vec![0x33, 0x22, 0x11, 0x00];
    blit_raw(&mut framebuffer, 2, 2, &preferred_pixel_format(), 1, 1, 1, 1, &pixels);
    let target = (1 * 2 + 1) * RGBA_BYTES_PER_PIXEL;
    assert_eq!(&framebuffer[target..target + 4], &[0x11, 0x22, 0x33, 0xFF]);
    // The untouched pixel stays clear.
    assert_eq!(&framebuffer[0..4], &[0, 0, 0, 0]);
}

#[test]
fn a_rectangle_larger_than_the_framebuffer_is_clipped_not_panicking() {
    let mut framebuffer = vec![0u8; 1 * 1 * RGBA_BYTES_PER_PIXEL];
    let pixels = vec![3u8, 2, 1, 0, 7, 6, 5, 4, 11, 10, 9, 8];
    blit_raw(&mut framebuffer, 1, 1, &preferred_pixel_format(), 0, 0, 2, 2, &pixels);
    assert_eq!(&framebuffer[0..4], &[1, 2, 3, 0xFF]);
}

#[test]
fn copy_rect_does_not_smear_when_the_regions_overlap() {
    let mut framebuffer = vec![0u8; 3 * 1 * RGBA_BYTES_PER_PIXEL];
    for index in 0..3 {
        let offset = index * RGBA_BYTES_PER_PIXEL;
        framebuffer[offset] = (index as u8) + 1;
        framebuffer[offset + 3] = 0xFF;
    }
    // Copy pixels 0..2 onto 1..3, which overlaps.
    copy_rect(&mut framebuffer, 3, 1, 1, 0, 2, 1, 0, 0);
    assert_eq!(framebuffer[0], 1);
    assert_eq!(framebuffer[4], 1);
    assert_eq!(framebuffer[8], 2);
}

#[test]
fn a_solid_rectangle_fills_with_opaque_pixels() {
    let mut framebuffer = vec![0u8; 2 * 1 * RGBA_BYTES_PER_PIXEL];
    fill_solid(
        &mut framebuffer,
        2,
        1,
        &preferred_pixel_format(),
        0,
        0,
        2,
        1,
        &[0xEF, 0xCD, 0xAB, 0x00],
    );
    assert_eq!(&framebuffer[0..4], &[0xAB, 0xCD, 0xEF, 0xFF]);
    assert_eq!(&framebuffer[4..8], &[0xAB, 0xCD, 0xEF, 0xFF]);
}

#[test]
fn a_desktop_size_rectangle_reallocates_the_framebuffer() {
    let mut framebuffer = vec![0u8; 2 * 2 * RGBA_BYTES_PER_PIXEL];
    let rectangles = vec![Rectangle::DesktopSize {
        width: 3,
        height: 4,
    }];
    let resized = apply_rectangles(&mut framebuffer, 2, 2, &preferred_pixel_format(), &rectangles);
    assert_eq!(resized, Some((3, 4)));
    assert_eq!(framebuffer.len(), 3 * 4 * RGBA_BYTES_PER_PIXEL);
}

#[test]
fn the_advertised_encodings_are_the_ones_the_decoder_can_read() {
    // Raw is mandatory for every server; anything else would need a decoder
    // this module does not have, and the protocol layer refuses the rest by
    // name rather than mis-reading them.
    assert_eq!(supported_encodings(), vec![Encoding::Raw]);
}

#[test]
fn pixel_format_round_trips() {
    let encoded = preferred_pixel_format().encode();
    assert_eq!(encoded.len(), 16);
    assert_eq!(
        PixelFormat::decode(&encoded).unwrap(),
        preferred_pixel_format()
    );
}

#[test]
fn preferred_format_decodes_to_rgb_in_the_low_bytes() {
    // 0x00RRGGBB little-endian: the red byte comes last on the wire.
    let pixels = [0x56u8, 0x34, 0x12, 0x00];
    assert_eq!(
        preferred_pixel_format().decode_pixel(&pixels).unwrap(),
        0x12_34_56
    );
}

#[test]
fn a_format_with_narrow_components_is_rescaled_not_truncated() {
    // 5-6-5 layout: pure red must still come back as 0xFF0000.
    let format = PixelFormat {
        bits_per_pixel: 16,
        depth: 16,
        big_endian: false,
        true_colour: true,
        red_max: 31,
        green_max: 63,
        blue_max: 31,
        red_shift: 11,
        green_shift: 5,
        blue_shift: 0,
    };
    let red: u16 = 31 << 11;
    assert_eq!(format.decode_pixel(&red.to_le_bytes()).unwrap(), 0xFF_00_00);
    let green: u16 = 63 << 5;
    assert_eq!(
        format.decode_pixel(&green.to_le_bytes()).unwrap(),
        0x00_FF_00
    );
    let blue: u16 = 31;
    assert_eq!(
        format.decode_pixel(&blue.to_le_bytes()).unwrap(),
        0x00_00_FF
    );
}

#[test]
fn messages_carry_the_field_layout_the_rfc_describes() {
    assert_eq!(
        encode_set_pixel_format(&preferred_pixel_format())[0],
        C2S_SET_PIXEL_FORMAT
    );
    assert_eq!(
        encode_set_encodings(&[Encoding::Raw]).unwrap()[0],
        C2S_SET_ENCODINGS
    );
    // An empty encoding list is legal and means "Raw only".
    assert_eq!(
        encode_set_encodings(&[]).unwrap(),
        vec![C2S_SET_ENCODINGS, 0, 0, 0]
    );

    let request = encode_framebuffer_update_request(true, 1, 2, 3, 4);
    assert_eq!(request[0], C2S_FRAMEBUFFER_UPDATE_REQUEST);
    assert_eq!(request[1], 1);
    assert_eq!(&request[2..10], &[0, 1, 0, 2, 0, 3, 0, 4]);

    let key = encode_key_event(true, 0xFF0D);
    assert_eq!(key[0], C2S_KEY_EVENT);
    assert_eq!(key[1], 1);
    assert_eq!(&key[4..8], &[0, 0, 0xFF, 0x0D]);
    assert_eq!(encode_key_event(false, 0x41)[1], 0);

    let pointer = encode_pointer_event(POINTER_BUTTON_LEFT, 0x1234, 0x5678);
    assert_eq!(pointer[0], C2S_POINTER_EVENT);
    assert_eq!(pointer[1], 1);
    assert_eq!(&pointer[2..6], &[0x12, 0x34, 0x56, 0x78]);
}

#[test]
fn clipboard_text_length_is_big_endian_and_not_nul_terminated() {
    let encoded = encode_client_cut_text("hi").unwrap();
    assert_eq!(encoded[0], C2S_CLIENT_CUT_TEXT);
    assert_eq!(&encoded[4..8], &[0, 0, 0, 2]);
    assert_eq!(&encoded[8..], b"hi");
}

#[test]
fn security_types_are_named_and_only_the_implemented_ones_are_accepted() {
    assert_eq!(SecurityType::from_code(1), SecurityType::NoAuthentication);
    assert_eq!(SecurityType::from_code(2), SecurityType::VncAuthentication);
    assert_eq!(
        SecurityType::from_code(30),
        SecurityType::AppleRemoteDesktop
    );
    assert_eq!(
        SecurityType::from_code(33),
        SecurityType::AppleDiffieHellman
    );
    assert_eq!(SecurityType::from_code(19), SecurityType::Other(19));
    assert!(SecurityType::NoAuthentication.is_supported());
    assert!(SecurityType::VncAuthentication.is_supported());
    // Apple's types are named so the refusal can say what it refused.
    assert!(!SecurityType::AppleRemoteDesktop.is_supported());
    assert!(SecurityType::AppleDiffieHellman.label().contains("Apple"));
}

#[test]
fn an_unimplemented_rectangle_encoding_is_refused_with_its_number() {
    let mut body: &[u8] = &[
        0, 0, 0, 0, 0, 1, 0, 1, // x, y, width, height
        0, 0, 0, 7, // Tight
    ];
    let error = decode_framebuffer_update(1, &mut body, &preferred_pixel_format()).unwrap_err();
    let text = error.to_string();
    assert!(text.contains("Tight"), "{text}");
}

#[test]
fn a_raw_rectangle_is_read_with_the_reported_geometry() {
    // Header: x=5, y=6, width=1, height=2, encoding=Raw(0).
    let mut body: Vec<u8> = vec![0, 5, 0, 6, 0, 1, 0, 2, 0, 0, 0, 0];
    body.extend_from_slice(&[0, 0, 0, 9]);
    body.extend_from_slice(&[0, 0, 0, 8]);
    let update =
        decode_framebuffer_update(1, &mut body.as_slice(), &preferred_pixel_format()).unwrap();
    match &update.rectangles[0] {
        Rectangle::Raw {
            x,
            y,
            width,
            height,
            pixels,
        } => {
            assert_eq!((*x, *y, *width, *height), (5, 6, 1, 2));
            assert_eq!(pixels.len(), 8);
        }
        other => panic!("expected raw, got {other:?}"),
    }
}

#[test]
fn an_oversized_clipboard_payload_is_rejected_before_allocating() {
    let mut body: &[u8] = &[0xFF, 0xFF, 0xFF, 0xFF];
    let error = decode_server_cut_text(&mut body).unwrap_err();
    assert!(error.to_string().contains("exceeds"), "{}", error.to_string());
}

#[test]
fn what_was_read_is_taken_even_where_reading_fails() {
    let format = preferred_pixel_format();
    // A rectangle with one pixel, then one in an encoding that is not read, then more.
    let mut body: Vec<u8> = vec![0, 0, 0, 0, 0, 1, 0, 1, 0, 0, 0, 0, 9, 9, 9, 9];
    body.extend_from_slice(&[0, 0, 0, 0, 0, 1, 0, 1, 0, 0, 0, 7]);
    body.extend_from_slice(&[1, 2, 3]);
    let mut reader = body.as_slice();
    assert!(decode_framebuffer_update(2, &mut reader, &format).is_err());
    assert_eq!(reader, &[1, 2, 3]);
    // A rectangle that ends too early takes all that is there.
    let mut reader = &body[..14];
    assert!(decode_framebuffer_update(1, &mut reader, &format).is_err());
    assert!(reader.is_empty());

    // The length of a text that is too long is read, and what follows is not.
    let mut reader: &[u8] = &[0xFF, 0xFF, 0xFF, 0xFF, 5, 6];
    assert!(decode_server_cut_text(&mut reader).is_err());
    assert_eq!(reader, &[5, 6]);
    let mut reader: &[u8] = &[0, 0, 0, 3, b'a'];
    assert!(decode_server_cut_text(&mut reader).is_err());
    assert!(reader.is_empty());
    let mut reader: &[u8] = &[0, 0];
    assert!(decode_server_cut_text(&mut reader).is_err());
    assert!(reader.is_empty());
}

/// Runs a handshake against everything that a server says, and returns what came of it
/// with what the client said in turn.
fn connect(
    server: &[u8],
    password: Option<&str>,
) -> (Result<VncSession, VncError>, Vec<Vec<u8>>) {
    let mut handshake = Handshake::new(password.map(|p| p.as_bytes().to_vec()));
    let mut input = server;
    let mut said: Vec<Vec<u8>> = Vec::new();
    loop {
        match handshake.advance(&mut input) {
            Step::Need { what } => {
                let error = handshake.read_failed(
                    what,
                    "unexpected end of file".to_owned(),
                    "failed to fill whole buffer".to_owned(),
                );
                return (Err(error), said);
            }
            Step::Send(bytes) => {
                if !bytes.is_empty() {
                    said.push(bytes);
                }
            }
            Step::Fail(error) => return (Err(error), said),
            Step::Unsliceable => panic!("the banner holds no version"),
            Step::Ready { session, send } => {
                said.push(send);
                return (Ok(session), said);
            }
        }
    }
}

/// A ServerInit whose pixel format is the preferred one.
fn server_init(width: u16, height: u16, name: &str) -> Vec<u8> {
    let mut body = Vec::new();
    body.extend_from_slice(&width.to_be_bytes());
    body.extend_from_slice(&height.to_be_bytes());
    body.extend_from_slice(&preferred_pixel_format().encode());
    body.extend_from_slice(&(name.len() as u32).to_be_bytes());
    body.extend_from_slice(name.as_bytes());
    body
}

#[test]
fn a_vendor_version_is_downgraded_to_3_8_and_the_session_initialises() {
    let mut server = b"RFB 003.889\n".to_vec();
    server.extend_from_slice(&[1, 1]);
    server.extend_from_slice(&SECURITY_RESULT_OK.to_be_bytes());
    server.extend_from_slice(&server_init(1024, 768, "test"));
    let (session, said) = connect(&server, None);
    let session = session.expect("connect");
    assert_eq!(said[0], b"RFB 003.008\n".to_vec());
    assert_eq!(said[1][0], 1);
    let last = said.last().unwrap();
    assert_eq!(last[0], C2S_SET_PIXEL_FORMAT);
    assert_eq!(last[20], C2S_SET_ENCODINGS);
    let info = session.info();
    assert_eq!(info.version, "003.889");
    assert_eq!(info.negotiated_version, "003.008");
    assert_eq!(info.security, SecurityType::NoAuthentication);
    assert_eq!((info.width, info.height), (1024, 768));
    assert_eq!(info.name, "test");
    assert_eq!(info.format, preferred_pixel_format());
    assert_eq!(session.encodings(), &[Encoding::Raw]);
}

#[test]
fn a_server_offering_only_proprietary_authentication_is_refused_by_name() {
    let mut server = b"RFB 003.889\n".to_vec();
    // Apple Remote Desktop, Apple Diffie-Hellman, and one unknown type.
    server.extend_from_slice(&[3, 30, 33, 19]);
    let error = connect(&server, None).0.unwrap_err();
    let text = error.to_string();
    assert!(text.contains("Apple Remote Desktop"), "{text}");
    assert!(text.contains("security type 19"), "{text}");
}

#[test]
fn vnc_authentication_is_chosen_when_a_password_is_given() {
    let mut server = b"RFB 003.008\n".to_vec();
    // None first, then VNC authentication: the client must not take the
    // unauthenticated option when it has a password.
    server.extend_from_slice(&[2, 1, 2]);
    server.extend_from_slice(&[0u8; 16]);
    server.extend_from_slice(&SECURITY_RESULT_OK.to_be_bytes());
    server.extend_from_slice(&server_init(640, 480, "auth"));
    let (session, said) = connect(&server, Some("pw"));
    let session = session.expect("connect");
    assert_eq!(said[1], vec![2], "client chose the weaker security type");
    assert_eq!(said[2].len(), 16);
    assert_ne!(said[2], vec![0u8; 16], "response was not encrypted");
    assert_eq!(said[2], answer_challenge(b"pw", &[0u8; 16]).to_vec());
    assert_eq!(session.info().security, SecurityType::VncAuthentication);
    assert_eq!((session.info().width, session.info().height), (640, 480));
}

#[test]
fn a_password_is_ignored_by_a_server_that_asks_for_none() {
    let mut server = b"RFB 003.008\n".to_vec();
    server.extend_from_slice(&[1, 1]);
    server.extend_from_slice(&SECURITY_RESULT_OK.to_be_bytes());
    server.extend_from_slice(&server_init(640, 480, "open"));
    let (session, said) = connect(&server, Some("pw"));
    let session = session.expect("connect");
    assert_eq!(said[1], vec![1]);
    assert_eq!(session.info().security, SecurityType::NoAuthentication);

    // Neither of the two on offer.
    let mut server = b"RFB 003.008\n".to_vec();
    server.extend_from_slice(&[2, 30, 19]);
    let error = connect(&server, Some("pw")).0.unwrap_err();
    assert!(matches!(error, VncError::UnsupportedSecurity(_)), "{}", error.to_string());

    // Without a password only a server that asks for none can be used.
    let mut server = b"RFB 003.008\n".to_vec();
    server.extend_from_slice(&[1, 2]);
    let error = connect(&server, None).0.unwrap_err();
    assert!(matches!(error, VncError::UnsupportedSecurity(_)), "{}", error.to_string());
}

#[test]
fn an_old_server_names_one_security_type() {
    let named = |code: u32| {
        let mut server = b"RFB 003.003\n".to_vec();
        server.extend_from_slice(&code.to_be_bytes());
        server
    };
    let mut server = named(1);
    server.extend_from_slice(&server_init(8, 4, "old"));
    for password in [None, Some("pw")] {
        let session = connect(&server, password).0.expect("connect");
        assert_eq!(session.info().security, SecurityType::NoAuthentication);
        assert_eq!(session.info().negotiated_version, "003.003");
    }

    let mut server = named(2);
    server.extend_from_slice(&[0u8; 16]);
    server.extend_from_slice(&SECURITY_RESULT_OK.to_be_bytes());
    server.extend_from_slice(&server_init(8, 4, "old"));
    let (session, said) = connect(&server, Some("pw"));
    assert_eq!(session.expect("connect").info().security, SecurityType::VncAuthentication);
    assert_eq!(said[1], answer_challenge(b"pw", &[0u8; 16]).to_vec());
    // Without a password only a server that asks for none can be used.
    let error = connect(&server, None).0.unwrap_err();
    assert!(matches!(error, VncError::UnsupportedSecurity(_)), "{}", error.to_string());
}

#[test]
fn a_rejected_password_surfaces_the_downgrade_choice_not_a_hang() {
    let mut server = b"RFB 003.008\n".to_vec();
    server.extend_from_slice(&[1, 2]);
    server.extend_from_slice(&[0u8; 16]);
    server.extend_from_slice(&SECURITY_RESULT_FAILED.to_be_bytes());
    // 3.8 follows a failure with a reason string.
    let reason = b"Authentication failure";
    server.extend_from_slice(&(reason.len() as u32).to_be_bytes());
    server.extend_from_slice(reason);
    let error = connect(&server, Some("bad")).0.unwrap_err();
    assert!(
        matches!(error, VncError::AuthenticationRejected(_)),
        "{}",
        error.to_string()
    );
}

#[test]
fn a_failure_code_in_the_other_byte_order_is_still_a_refusal() {
    let mut server = b"RFB 003.008\n".to_vec();
    server.extend_from_slice(&[1, 2]);
    server.extend_from_slice(&[0u8; 16]);
    // Apple screen sharing sends failure as 01 00 00 00.
    server.extend_from_slice(&[0x01, 0x00, 0x00, 0x00]);
    let reason = b"Authentication failure";
    server.extend_from_slice(&(reason.len() as u32).to_be_bytes());
    server.extend_from_slice(reason);
    let error = connect(&server, Some("pw")).0.unwrap_err();
    assert!(
        matches!(error, VncError::AuthenticationRejected(_)),
        "{}",
        error.to_string()
    );
}

#[test]
fn a_zero_sized_framebuffer_is_refused_rather_than_allocated() {
    let mut server = b"RFB 003.008\n".to_vec();
    server.extend_from_slice(&[1, 1]);
    server.extend_from_slice(&SECURITY_RESULT_OK.to_be_bytes());
    server.extend_from_slice(&server_init(0, 0, "empty"));
    let error = connect(&server, None).0.unwrap_err();
    assert!(matches!(error, VncError::Geometry(_)), "{}", error.to_string());
}

#[test]
fn a_non_rfb_banner_is_reported_as_such() {
    let error = connect(b"HTTP/1.1 200", None).0.unwrap_err();
    assert!(
        error.to_string().contains("RFB version banner"),
        "{}",
        error.to_string()
    );
    // What was sent is shown with its line ends visible.
    let error = connect(b"HTTP/1.1 20\n", None).0.unwrap_err();
    assert!(
        error.to_string().ends_with("\"HTTP/1.1 20\\n\""),
        "{}",
        error.to_string()
    );
}

#[test]
fn a_server_that_goes_away_is_a_failed_read() {
    let error = connect(b"RFB 003", None).0.unwrap_err();
    assert!(matches!(error, VncError::Io { .. }), "{}", error.to_string());
}

/// A 4x2 picture with four distinguishable colours, so a blit that writes
/// the wrong channel or the wrong row cannot pass.
fn sample_frame() -> ScriptedFrame {
    let pixels = vec![
        0xFF0000, 0x00FF00, 0x0000FF, 0xFFFFFF, // row 0
        0x000000, 0x123456, 0xABCDEF, 0x808080, // row 1
    ];
    ScriptedFrame {
        width: 4,
        height: 2,
        pixels,
    }
}

/// Runs a client against the scripted server until both have said everything, and
/// returns the session after the picture was received.
fn open_session() -> VncLiveSession {
    let frame = sample_frame();
    let mut handshake = Handshake::new(None);
    let mut to_client = greeting();
    let mut to_server: Vec<u8> = Vec::new();
    let mut waiting = Waiting::Version;
    let mut session: Option<VncSession> = None;
    let mut live: Option<VncLiveSession> = None;
    for _ in 0..64 {
        let mut input = to_client.as_slice();
        if let Some(session) = session.as_mut() {
            if let Ok(message) = session.read_message(&mut input) {
                live.as_mut().unwrap().on_message(message);
            }
        } else {
            match handshake.advance(&mut input) {
                Step::Need { .. } => {}
                Step::Send(bytes) => to_server.extend_from_slice(&bytes),
                Step::Ready { session: ready, send } => {
                    to_server.extend_from_slice(&send);
                    to_server.extend_from_slice(&ready.request_full_update());
                    live = Some(VncLiveSession::open(&ready, true));
                    session = Some(ready);
                }
                _ => panic!("the handshake failed"),
            }
        }
        to_client = input.to_vec();
        let wanted = waiting.wanted();
        if waiting != Waiting::Done && to_server.len() >= wanted {
            let rest = to_server.split_off(wanted);
            let (next, said) = serve(waiting, &to_server, &frame);
            to_client.extend_from_slice(&said);
            to_server = rest;
            waiting = next;
        }
    }
    live.expect("open")
}

#[test]
fn a_frame_from_a_server_reaches_the_frontend_as_opaque_rgba() {
    let mut session = open_session();
    assert_eq!(session.server_name(), "scripted");
    assert_eq!(session.server_version(), "003.008");
    assert_eq!((session.width(), session.height()), (4, 2));

    let (width, height, pixels) = session.take_frame().expect("a frame");
    assert_eq!((width, height), (4, 2));
    assert_eq!(pixels.len(), 4 * 2 * RGBA_BYTES_PER_PIXEL);

    let expected = [
        [0xFF, 0x00, 0x00, 0xFF],
        [0x00, 0xFF, 0x00, 0xFF],
        [0x00, 0x00, 0xFF, 0xFF],
        [0xFF, 0xFF, 0xFF, 0xFF],
        [0x00, 0x00, 0x00, 0xFF],
        [0x12, 0x34, 0x56, 0xFF],
        [0xAB, 0xCD, 0xEF, 0xFF],
        [0x80, 0x80, 0x80, 0xFF],
    ];
    for (index, want) in expected.iter().enumerate() {
        let offset = index * RGBA_BYTES_PER_PIXEL;
        assert_eq!(
            &pixels[offset..offset + RGBA_BYTES_PER_PIXEL],
            want,
            "pixel {index} differs"
        );
    }

    let snapshot = session.snapshot();
    assert_eq!(snapshot.phase, "streaming");
    assert_eq!(snapshot.error, None);
    assert_eq!(snapshot.received_units, 1);
    assert_eq!(snapshot.taken_frames, 1);
    assert!(!snapshot.closed);

    session.close();
}

#[test]
fn a_taken_frame_is_not_handed_out_twice() {
    let mut session = open_session();
    assert!(session.take_frame().is_some());
    // The server painted once, so there is nothing new to take. Redrawing an
    // unchanged picture at the frontend's polling rate is wasted work.
    assert!(session.take_frame().is_none());
    session.close();
}

#[test]
fn input_is_accepted_and_a_pointer_outside_the_framebuffer_is_refused() {
    let mut session = open_session();
    assert!(session.take_frame().is_some());
    session.send_mouse(0, 1, 1).expect("pointer inside");
    assert_eq!(session.send_key(true, 0x61), [4, 1, 0, 0, 0, 0, 0, 0x61]);
    assert_eq!(session.send_key(false, 0x61), [4, 0, 0, 0, 0, 0, 0, 0x61]);
    let outside = session.send_mouse(0, 99, 99);
    assert!(
        outside.is_err(),
        "a pointer past the framebuffer must be refused"
    );

    session.close();
}

#[test]
fn closing_a_session_ends_the_reader_and_reports_it() {
    let mut session = open_session();
    assert!(session.take_frame().is_some());
    assert!(session.close());
    // A close is not a failure: the snapshot reports closed with no error, even where
    // the reader then fails on the socket.
    session.on_error(&VncError::io("message type", "eof".to_owned(), "closed".to_owned()));
    let snapshot = session.snapshot();
    assert!(snapshot.closed);
    assert_eq!(snapshot.error, None, "a requested close is not an error");
    // Closing twice is harmless.
    assert!(!session.close());
}

#[test]
fn the_forced_capture_rate_is_accepted_but_out_of_range_values_are_not() {
    let mut session = open_session();
    // VNC servers push on change and have no capture rate, so a valid rate is
    // accepted without affecting the stream, and an impossible one is
    // rejected rather than silently ignored.
    assert!(session.set_requested_fps(60).is_ok());
    assert!(session.set_requested_fps(0).is_err());
    assert!(session.set_requested_fps(241).is_err());
    session.close();
}

#[test]
fn a_reader_that_fails_says_why() {
    let mut session = open_session();
    session.on_error(&VncError::protocol("bad".to_owned()));
    let snapshot = session.snapshot();
    assert_eq!(snapshot.phase, "closed");
    assert!(snapshot.error.unwrap().contains("bad"));
}

#[test]
fn text_from_the_server_is_kept_until_it_is_taken() {
    let mut session = open_session();
    let mut body: &[u8] = &[0, 0, 0, 3, b'h', 0xFF, b'i'];
    let cut = decode_server_cut_text(&mut body).unwrap();
    // A byte that is no text is replaced, the rest stays.
    assert_eq!(cut.text, "h\u{FFFD}i");
    session.on_message(ServerMessage::Clipboard(cut));
    assert_eq!(session.take_clipboard(), Some("h\u{FFFD}i".to_owned()));
    assert_eq!(session.take_clipboard(), None);
}

#[test]
fn a_resized_desktop_changes_the_size_of_the_next_frame() {
    let mut session = open_session();
    assert!(session.take_frame().is_some());
    session.on_message(ServerMessage::FramebufferUpdate(FramebufferUpdate {
        rectangles: vec![Rectangle::DesktopSize { width: 3, height: 5 }],
    }));
    assert_eq!((session.width(), session.height()), (3, 5));
    let (width, height, pixels) = session.take_frame().expect("a frame");
    assert_eq!((width, height), (3, 5));
    assert_eq!(pixels.len(), 3 * 5 * RGBA_BYTES_PER_PIXEL);
    let snapshot = session.snapshot();
    assert_eq!((snapshot.width, snapshot.height), (3, 5));
    // Pointers and repaints go by the new size.
    assert!(session.send_mouse(0, 2, 4).is_ok());
    assert!(session.send_mouse(0, 3, 1).is_err());
    assert_eq!(session.refresh(), [3, 0, 0, 0, 0, 0, 0, 3, 0, 5]);
}

#[test]
fn a_cut_text_is_read_back_as_it_was_encoded() {
    let text = "gr\u{FC}n \u{4F60}";
    let mut body = encode_client_cut_text(text).unwrap().split_off(4);
    body.extend_from_slice(&[7, 8]);
    let mut reader = body.as_slice();
    assert_eq!(decode_server_cut_text(&mut reader).unwrap().text, text);
    assert_eq!(reader, &[7, 8]);
}

#[test]
fn turning_over_key_and_block_turns_over_the_cipher() {
    let key: [u8; 8] = [0x13, 0x34, 0x57, 0x79, 0x9B, 0xBC, 0xDF, 0xF1];
    let mut block: [u8; 8] = [0x01, 0x23, 0x45, 0x67, 0x89, 0xAB, 0xCD, 0xEF].map(|b: u8| !b);
    DesKeySchedule::new(&key.map(|b| !b)).encrypt_block(&mut block);
    assert_eq!(
        block,
        [0x85, 0xE8, 0x13, 0x54, 0x0F, 0x0A, 0xB4, 0x05].map(|b: u8| !b)
    );
}

#[test]
fn exchanged_challenge_blocks_exchange_the_response() {
    let challenge: [u8; 16] = std::array::from_fn(|i| i as u8);
    let mut exchanged = challenge;
    exchanged.rotate_left(8);
    let response = answer_challenge(b"password", &challenge);
    let mut expected = response;
    expected.rotate_left(8);
    assert_eq!(answer_challenge(b"password", &exchanged), expected);
    assert_ne!(response[..8], response[8..], "different blocks, different answers");
}

#[test]
fn passwords_that_agree_once_padded_have_one_key() {
    let key = vnc_key_from_password(b"pw");
    assert_eq!(key, vnc_key_from_password(b"pw\0\0"));
    assert_eq!(key, vnc_key_from_password(b"pw\0\0\0\0\0\0ninth"));
    assert_ne!(key, vnc_key_from_password(b"pw1"));
}

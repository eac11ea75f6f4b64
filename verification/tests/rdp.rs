//! The connection phase of RDP.
use rd_engine::rdp::connection::{
    connection_request, parse_connection_confirm, parse_tpkt, tpkt, Negotiation,
    NegotiationFailure, SecurityProtocol, PROTOCOL_HYBRID, PROTOCOL_HYBRID_EX, PROTOCOL_RDP,
    PROTOCOL_TLS, RDP_NEG_FAILURE, RDP_NEG_REQ, RDP_NEG_RSP, X224_CC, X224_CR,
};
use rd_engine::rdp::RdpError;

#[test]
fn a_tpkt_frame_declares_its_own_length() {
    let framed = tpkt(&[0xAA, 0xBB]).unwrap();
    assert_eq!(framed, vec![3, 0, 0, 6, 0xAA, 0xBB]);
    let (length, payload) = parse_tpkt(&framed).unwrap();
    assert_eq!(length, 6);
    assert_eq!(payload, &[0xAA, 0xBB]);
}

#[test]
fn a_truncated_or_mislabelled_tpkt_frame_is_refused() {
    assert!(parse_tpkt(&[3, 0, 0]).is_err(), "short header");
    assert!(parse_tpkt(&[4, 0, 0, 4]).is_err(), "wrong version");
    assert!(
        parse_tpkt(&[3, 0, 0, 2]).is_err(),
        "length inside the header"
    );
    // Declares more than was read, which is how a short read is caught.
    assert!(parse_tpkt(&[3, 0, 0, 99, 1, 2]).is_err());
}

#[test]
fn a_connection_request_carries_the_negotiation_request() {
    let request = connection_request(SecurityProtocol::request_default(), "").unwrap();
    // TPKT header, then X.224 CR with a length indicator covering the rest.
    assert_eq!(request[0], 3);
    let declared = usize::from(u16::from_be_bytes([request[2], request[3]]));
    assert_eq!(declared, request.len());
    assert_eq!(request[4], (declared - 5) as u8, "X.224 length indicator");
    assert_eq!(request[5], X224_CR);
    // The negotiation request starts at the class option's end.
    let neg = &request[11..];
    assert_eq!(neg[0], RDP_NEG_REQ);
    assert_eq!(u16::from_le_bytes([neg[2], neg[3]]), 8);
    let requested = u32::from_le_bytes([neg[4], neg[5], neg[6], neg[7]]);
    assert_eq!(requested & SecurityProtocol(PROTOCOL_TLS).0, SecurityProtocol(PROTOCOL_TLS).0);
    assert_eq!(
        requested & SecurityProtocol(PROTOCOL_HYBRID).0,
        SecurityProtocol(PROTOCOL_HYBRID).0
    );
}

#[test]
fn the_default_request_offers_every_protocol_this_client_implements() {
    let requested = SecurityProtocol::request_default();
    assert!(requested.contains(SecurityProtocol(PROTOCOL_TLS)));
    assert!(requested.contains(SecurityProtocol(PROTOCOL_HYBRID)));
    assert!(requested.contains(SecurityProtocol(PROTOCOL_HYBRID_EX)));
    // Standard RDP security is the absence of flags; it cannot be asked for
    // alongside the others, so it must not appear here.
    assert!(!requested.contains(SecurityProtocol(PROTOCOL_RDP)));
    assert!(requested.label().contains("TLS"));
    assert!(requested.label().contains("hybrid"));
}

/// The negotiation request is pinned as literal bytes, built from the
/// structure's field order rather than from this encoder, so a wrong field
/// order or a wrong endianness fails here even though the parser would
/// happily read whatever the encoder produced.
#[test]
fn the_negotiation_request_is_laid_out_field_by_field() {
    let request = connection_request(SecurityProtocol(PROTOCOL_HYBRID), "").unwrap();
    let negotiation = &request[11..];
    let expected: Vec<u8> = vec![
        0x01, // type: RDP_NEG_REQ
        0x00, // flags
        0x08, 0x00, // length: 8, little-endian
        0x02, 0x00, 0x00, 0x00, // requested protocols: HYBRID, little-endian
    ];
    assert_eq!(negotiation, &expected[..], "negotiation request layout");
    // The RDP layer's own numbers are little-endian, unlike TPKT's length
    // and the X.224 fields, which are big-endian. Mixing them up is the
    // classic way this phase fails silently.
    assert_eq!(
        u16::from_be_bytes([request[2], request[3]]),
        request.len() as u16,
        "TPKT length is big-endian"
    );
}

#[test]
fn a_cookie_is_terminated_with_crlf_and_control_characters_are_refused() {
    let with_cookie =
        connection_request(SecurityProtocol::request_default(), "token123").unwrap();
    let text = String::from_utf8_lossy(&with_cookie);
    assert!(text.ends_with("token123\r\n"), "{text:?}");
    // A cookie with a newline would let the peer decide where it ends.
    assert!(connection_request(SecurityProtocol::request_default(), "a\nb").is_err());
}

#[test]
fn a_selected_protocol_is_read_back() {
    // X.224 CC fixed part, then an RDP_NEG_RSP selecting hybrid.
    let mut payload = vec![0x13, X224_CC, 0, 0, 0, 0, 0];
    payload.push(RDP_NEG_RSP);
    payload.push(0);
    payload.extend_from_slice(&8u16.to_le_bytes());
    payload.extend_from_slice(&SecurityProtocol(PROTOCOL_HYBRID).0.to_le_bytes());
    let confirm = parse_connection_confirm(&payload).unwrap();
    assert_eq!(
        confirm.negotiation,
        Negotiation::Selected(SecurityProtocol(PROTOCOL_HYBRID))
    );
}

#[test]
fn an_absent_negotiation_structure_means_standard_rdp_security() {
    let payload = vec![0x13, X224_CC, 0, 0, 0, 0, 0];
    let confirm = parse_connection_confirm(&payload).unwrap();
    assert_eq!(confirm.negotiation, Negotiation::NoNegotiationRequired);
}

#[test]
fn a_refusal_names_the_server_requirement_and_what_the_client_did() {
    let mut payload = vec![0x13, X224_CC, 0, 0, 0, 0, 0];
    payload.push(RDP_NEG_FAILURE);
    payload.push(0);
    payload.extend_from_slice(&8u16.to_le_bytes());
    // 3 = wrong security protocol.
    payload.extend_from_slice(&3u32.to_le_bytes());
    let confirm = parse_connection_confirm(&payload).unwrap();
    match confirm.negotiation {
        Negotiation::Refused(failure) => {
            assert_eq!(failure, NegotiationFailure::WrongSecurityProtocol);
            assert!(failure.advice().contains("rejected every protocol"));
            assert_eq!(failure.label(), "wrong security protocol");
        }
        other => panic!("expected a refusal, got {other:?}"),
    }
}

#[test]
fn the_named_failure_codes_are_the_ones_the_protocol_defines() {
    assert_eq!(
        NegotiationFailure::from_code(1),
        NegotiationFailure::SslRequiredByServer
    );
    assert_eq!(
        NegotiationFailure::from_code(2),
        NegotiationFailure::SslNotAllowedByServer
    );
    assert_eq!(
        NegotiationFailure::from_code(5),
        NegotiationFailure::ClientCertificateRequired
    );
    assert_eq!(
        NegotiationFailure::from_code(99),
        NegotiationFailure::Unknown(99)
    );
    // Every code must be actionable, including the unnamed one.
    for code in 1..=6 {
        assert!(!NegotiationFailure::from_code(code).advice().is_empty());
    }
}

#[test]
fn a_response_that_is_not_a_connection_confirm_is_refused() {
    let payload = vec![0x13, X224_CR, 0, 0, 0, 0, 0];
    let error = parse_connection_confirm(&payload).unwrap_err();
    assert!(error.to_string().contains("connection confirm"), "{}", error.to_string());
}

#[test]
fn a_negotiation_structure_longer_than_the_frame_is_refused() {
    // The length field is read before the body, so a server that claims more
    // than it sent must be caught rather than read past.
    let mut payload = vec![0x13, X224_CC, 0, 0, 0, 0, 0];
    payload.push(RDP_NEG_RSP);
    payload.push(0);
    payload.extend_from_slice(&64u16.to_le_bytes()); // declares 64, 8 present
    payload.extend_from_slice(&SecurityProtocol(PROTOCOL_TLS).0.to_le_bytes());
    let error = parse_connection_confirm(&payload).unwrap_err();
    assert!(error.to_string().contains("declares 64"), "{}", error.to_string());
}

#[test]
fn a_negotiation_structure_shorter_than_its_own_header_is_refused() {
    let mut payload = vec![0x13, X224_CC, 0, 0, 0, 0, 0];
    payload.push(RDP_NEG_RSP);
    payload.push(0);
    payload.extend_from_slice(&4u16.to_le_bytes()); // a 4-byte structure cannot hold a code
    payload.extend_from_slice(&SecurityProtocol(PROTOCOL_TLS).0.to_le_bytes());
    let error = parse_connection_confirm(&payload).unwrap_err();
    assert!(error.to_string().contains("declares 4"), "{}", error.to_string());
}

#[test]
fn an_unimplemented_part_says_which_part() {
    let error = RdpError::NotImplemented("MCS connection");
    let text = error.to_string();
    assert!(text.contains("MCS connection"), "{text}");
    assert!(text.contains("not implemented"), "{text}");
}

#[test]
fn a_negotiation_refusal_keeps_both_the_code_and_the_advice() {
    let error =
        RdpError::NegotiationRefused(NegotiationFailure::SslRequiredByServer);
    let text = error.to_string();
    assert!(text.contains("SSL required by server"), "{text}");
    // The advice is what makes the failure actionable; losing it would leave
    // a bare code.
    assert!(text.contains("requires TLS"), "{text}");
}

#[test]
fn frames_are_read_back_and_leave_what_follows() {
    let mut framed = tpkt(&[9, 8, 7]).unwrap();
    framed.push(0xEE);
    let (length, payload) = parse_tpkt(&framed).unwrap();
    assert_eq!(length, 7);
    assert_eq!(payload, &[9, 8, 7]);
    assert!(tpkt(&vec![0u8; 65536]).is_err(), "too long for the length field");
}

#[test]
fn rdp_errors_read_as_the_cause() {
    assert_eq!(
        RdpError::protocol("odd".to_owned()).to_string(),
        "rdp protocol: odd"
    );
    assert_eq!(
        parse_tpkt(&[4, 0, 0, 4]).unwrap_err().to_string(),
        "rdp protocol: TPKT version 4 is not 3"
    );
    assert_eq!(
        RdpError::io("connect", "refused".to_owned(), "no".to_owned()).to_string(),
        "rdp connect (refused): no"
    );
}

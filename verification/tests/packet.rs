use soupbin_feed::framing::extract_packet;
use soupbin_feed::packet::{ClientPacket, ServerPacket, MAX_PAYLOAD_LEN};

fn login_accepted_payload(session: &str, sequence: &str) -> Vec<u8> {
    let mut payload = Vec::new();
    payload.extend_from_slice(session.as_bytes());
    payload.extend_from_slice(sequence.as_bytes());
    payload
}

#[test]
fn login_request_has_its_fields_in_fixed_slots() {
    let bytes = ClientPacket::LoginRequest {
        username: "abc",
        password: "pw",
        session_id: "",
        sequence_number: "1",
    }
    .to_bytes();
    assert_eq!(bytes.len(), 49);
    assert_eq!(&bytes[0..2], &[0u8, 47]);
    assert_eq!(bytes[2], b'L');
    assert_eq!(&bytes[3..9], b"abc   ");
    assert_eq!(&bytes[9..19], b"pw        ");
    assert_eq!(&bytes[19..29], b"          ");
    assert_eq!(&bytes[29..49], b"                   1");
}

#[test]
fn login_request_cuts_fields_that_are_too_long() {
    let bytes = ClientPacket::LoginRequest {
        username: "username",
        password: "a-long-password",
        session_id: "session-0001",
        sequence_number: "123456789012345678901234",
    }
    .to_bytes();
    assert_eq!(bytes.len(), 49);
    assert_eq!(&bytes[3..9], b"userna");
    assert_eq!(&bytes[9..19], b"a-long-pas");
    assert_eq!(&bytes[19..29], b"session-00");
    assert_eq!(&bytes[29..49], b"12345678901234567890");
}

#[test]
fn login_request_fills_fields_exactly() {
    let bytes = ClientPacket::LoginRequest {
        username: "sixsix",
        password: "tententen0",
        session_id: "0123456789",
        sequence_number: "18446744073709551615",
    }
    .to_bytes();
    assert_eq!(&bytes[3..], b"sixsixtententen0012345678918446744073709551615");
}

#[test]
fn control_packets_are_a_length_and_a_type() {
    assert_eq!(ClientPacket::LogoutRequest.to_bytes(), vec![0, 1, b'O']);
    assert_eq!(ClientPacket::ClientHeartbeat.to_bytes(), vec![0, 1, b'R']);
}

#[test]
fn unsequenced_data_is_framed_with_its_length() {
    let data = [1u8, 2, 3, 4, 5];
    assert_eq!(
        ClientPacket::UnsequencedData(&data).to_bytes(),
        vec![0, 6, b'U', 1, 2, 3, 4, 5]
    );
    assert_eq!(ClientPacket::UnsequencedData(&[]).to_bytes(), vec![0, 1, b'U']);
    let long = vec![7u8; 300];
    let bytes = ClientPacket::UnsequencedData(&long).to_bytes();
    assert_eq!(bytes.len(), 303);
    assert_eq!(&bytes[0..3], &[0x01, 0x2D, b'U']);
    assert_eq!(&bytes[3..], &long[..]);
}

#[test]
fn wrap_packet_puts_the_length_first() {
    assert_eq!(ClientPacket::wrap_packet(b'X', b"ab"), vec![0, 3, b'X', b'a', b'b']);
    let payload = vec![0u8; 65534];
    let bytes = ClientPacket::wrap_packet(b'U', &payload);
    assert_eq!(&bytes[0..3], &[0xFF, 0xFF, b'U']);
    assert_eq!(bytes.len(), 65537);
}

#[test]
fn only_unsequenced_data_can_be_too_long_for_the_wire() {
    assert_eq!(MAX_PAYLOAD_LEN, 65534);
    let longest = vec![0u8; 65534];
    assert!(ClientPacket::UnsequencedData(&longest).fits_wire());
    let too_long = vec![0u8; 65535];
    assert!(!ClientPacket::UnsequencedData(&too_long).fits_wire());
    assert!(ClientPacket::UnsequencedData(&[]).fits_wire());
    assert!(ClientPacket::LogoutRequest.fits_wire());
    assert!(ClientPacket::ClientHeartbeat.fits_wire());
    let login = ClientPacket::LoginRequest {
        username: "a-user-name-that-is-too-long",
        password: "",
        session_id: "",
        sequence_number: "",
    };
    assert!(login.fits_wire());
}

#[test]
fn what_is_encoded_is_one_packet_for_the_framing() {
    let data = [1u8, 2, 3];
    let mut buf = bytes::BytesMut::new();
    buf.extend_from_slice(&ClientPacket::UnsequencedData(&data).to_bytes());
    buf.extend_from_slice(&ClientPacket::ClientHeartbeat.to_bytes());
    let (packet_type, packet) = extract_packet(&mut buf).unwrap();
    assert_eq!((packet_type, &packet[3..]), (b'U', &data[..]));
    let (packet_type, packet) = extract_packet(&mut buf).unwrap();
    assert_eq!((packet_type, packet.len()), (b'R', 3));
    assert!(buf.is_empty());
}

#[test]
fn padded_fields_are_appended_to_what_is_there() {
    let mut buf = vec![9u8];
    ClientPacket::write_padded_left(&mut buf, b"ab", 4);
    assert_eq!(buf, vec![9, b'a', b'b', b' ', b' ']);
    ClientPacket::write_padded_right(&mut buf, b"ab", 4);
    assert_eq!(buf, vec![9, b'a', b'b', b' ', b' ', b' ', b' ', b'a', b'b']);
    let mut buf = Vec::new();
    ClientPacket::write_padded_left(&mut buf, b"abcdef", 3);
    ClientPacket::write_padded_right(&mut buf, b"abcdef", 3);
    assert_eq!(buf, b"abcabc".to_vec());
    let mut buf = Vec::new();
    ClientPacket::write_padded_left(&mut buf, b"abc", 0);
    ClientPacket::write_padded_right(&mut buf, b"", 2);
    assert_eq!(buf, b"  ".to_vec());
}

#[test]
fn login_accepted_is_decoded_and_trimmed() {
    let payload = login_accepted_payload("S1        ", "1                   ");
    assert_eq!(
        ServerPacket::parse(b'A', &payload),
        ServerPacket::LoginAccepted { session: "S1", sequence_number: "1" }
    );
    let payload = login_accepted_payload("  SESSION1", "                 123");
    assert_eq!(
        ServerPacket::parse(b'A', &payload),
        ServerPacket::LoginAccepted { session: "SESSION1", sequence_number: "123" }
    );
    let mut payload = login_accepted_payload("          ", " 4 2                ");
    payload.extend_from_slice(b"more");
    assert_eq!(
        ServerPacket::parse(b'A', &payload),
        ServerPacket::LoginAccepted { session: "", sequence_number: "4 2" }
    );
}

#[test]
fn malformed_login_accepted_is_unknown() {
    let short = login_accepted_payload("S1        ", "1                  ");
    assert_eq!(short.len(), 29);
    assert_eq!(
        ServerPacket::parse(b'A', &short),
        ServerPacket::Unknown { packet_type: b'A', payload: &short }
    );
    let mut bad_session = login_accepted_payload("S1        ", "1                   ");
    bad_session[3] = 0xFF;
    assert_eq!(
        ServerPacket::parse(b'A', &bad_session),
        ServerPacket::Unknown { packet_type: b'A', payload: &bad_session }
    );
    let mut bad_sequence = login_accepted_payload("S1        ", "1                   ");
    bad_sequence[29] = 0xC3;
    assert_eq!(
        ServerPacket::parse(b'A', &bad_sequence),
        ServerPacket::Unknown { packet_type: b'A', payload: &bad_sequence }
    );
    assert_eq!(
        ServerPacket::parse(b'A', &[]),
        ServerPacket::Unknown { packet_type: b'A', payload: &[] }
    );
}

#[test]
fn a_login_request_is_no_server_packet() {
    let bytes = ClientPacket::LoginRequest {
        username: "abc",
        password: "pw",
        session_id: "",
        sequence_number: "1",
    }
    .to_bytes();
    let payload = &bytes[3..];
    assert_eq!(payload.len(), 46);
    assert_eq!(
        ServerPacket::parse(bytes[2], payload),
        ServerPacket::Unknown { packet_type: b'L', payload }
    );
    // Under the type byte of an accepted login the same payload is long
    // enough and valid text, so it decodes.
    assert_eq!(
        ServerPacket::parse(b'A', payload),
        ServerPacket::LoginAccepted { session: "abc   pw", sequence_number: "" }
    );
}

#[test]
fn other_server_packets_are_told_apart_by_their_type() {
    assert_eq!(ServerPacket::parse(b'+', b"note"), ServerPacket::Debug(b"note"));
    assert_eq!(ServerPacket::parse(b'S', b"data"), ServerPacket::SequencedData(b"data"));
    assert_eq!(ServerPacket::parse(b'S', b""), ServerPacket::SequencedData(b""));
    assert_eq!(ServerPacket::parse(b'H', b""), ServerPacket::ServerHeartbeat);
    assert_eq!(ServerPacket::parse(b'H', b"x"), ServerPacket::ServerHeartbeat);
    assert_eq!(ServerPacket::parse(b'Z', b""), ServerPacket::EndOfSession);
    assert_eq!(
        ServerPacket::parse(b'J', b"A"),
        ServerPacket::LoginRejected { reason: b'A' }
    );
    assert_eq!(
        ServerPacket::parse(b'J', b"SA"),
        ServerPacket::LoginRejected { reason: b'S' }
    );
    assert_eq!(
        ServerPacket::parse(b'J', b""),
        ServerPacket::Unknown { packet_type: b'J', payload: b"" }
    );
    assert_eq!(
        ServerPacket::parse(b'?', b"abc"),
        ServerPacket::Unknown { packet_type: b'?', payload: b"abc" }
    );
    assert_eq!(
        ServerPacket::parse(b'R', b""),
        ServerPacket::Unknown { packet_type: b'R', payload: b"" }
    );
}

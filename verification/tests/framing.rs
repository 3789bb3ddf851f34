use bytes::BytesMut;
use soupbin_feed::framing::extract_packet;

#[test]
fn one_packet_and_a_short_tail() {
    for tail in [&b""[..], &b"\x00"[..], &b"\x00\x05"[..]] {
        let mut buf = BytesMut::new();
        buf.extend_from_slice(&[0, 3, b'S', 1, 2]);
        buf.extend_from_slice(tail);
        let (packet_type, packet) = extract_packet(&mut buf).unwrap();
        assert_eq!(packet_type, b'S');
        assert_eq!(&packet[..], &[0, 3, b'S', 1, 2]);
        assert_eq!(&buf[..], tail);
        // A second extraction finds nothing and changes nothing.
        assert!(extract_packet(&mut buf).is_none());
        assert_eq!(&buf[..], tail);
    }
}

#[test]
fn packets_back_to_back_come_out_in_order() {
    let packets: Vec<Vec<u8>> = vec![
        vec![0, 1, b'H'],
        vec![0, 4, b'S', 1, 2, 3],
        vec![0, 2, b'J', b'A'],
        vec![0, 1, b'Z'],
    ];
    let mut buf = BytesMut::new();
    for packet in &packets {
        buf.extend_from_slice(packet);
    }
    for packet in &packets {
        let (packet_type, bytes) = extract_packet(&mut buf).unwrap();
        assert_eq!(packet_type, packet[2]);
        assert_eq!(&bytes[..], &packet[..]);
    }
    assert!(buf.is_empty());
    assert!(extract_packet(&mut buf).is_none());
}

#[test]
fn incomplete_packets_stay_in_the_buffer() {
    let mut buf = BytesMut::new();
    assert!(extract_packet(&mut buf).is_none());
    buf.extend_from_slice(&[0, 5]);
    assert!(extract_packet(&mut buf).is_none());
    buf.extend_from_slice(&[b'S', 1, 2, 3]);
    assert!(extract_packet(&mut buf).is_none());
    assert_eq!(&buf[..], &[0, 5, b'S', 1, 2, 3]);
    buf.extend_from_slice(&[4]);
    let (packet_type, bytes) = extract_packet(&mut buf).unwrap();
    assert_eq!(packet_type, b'S');
    assert_eq!(&bytes[..], &[0, 5, b'S', 1, 2, 3, 4]);
    assert!(buf.is_empty());
}

#[test]
fn the_length_field_is_big_endian() {
    let mut buf = BytesMut::new();
    buf.extend_from_slice(&[0x01, 0x02, b'S']);
    buf.extend_from_slice(&vec![7u8; 0x0101]);
    buf.extend_from_slice(&[9, 9]);
    let (packet_type, bytes) = extract_packet(&mut buf).unwrap();
    assert_eq!(packet_type, b'S');
    assert_eq!(bytes.len(), 2 + 0x0102);
    assert_eq!(&buf[..], &[9, 9]);
}

#[test]
fn a_length_of_zero_needs_three_bytes_and_takes_two() {
    // With a length field of zero the type byte is not part of the packet.
    let mut buf = BytesMut::new();
    buf.extend_from_slice(&[0, 0]);
    assert!(extract_packet(&mut buf).is_none());
    buf.extend_from_slice(&[b'H']);
    let (packet_type, bytes) = extract_packet(&mut buf).unwrap();
    assert_eq!(packet_type, b'H');
    assert_eq!(&bytes[..], &[0, 0]);
    assert_eq!(&buf[..], &[b'H']);
}

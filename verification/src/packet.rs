use vstd::prelude::*;
use vstd::string::*;
use vstd::utf8::*;
use crate::framing::is_packet;
use crate::text::trimmed;

verus! {

/// Type byte of a debug packet, `+`.
pub const TYPE_DEBUG: u8 = 0x2B;

/// Type byte of a login-accepted packet, `A`.
pub const TYPE_LOGIN_ACCEPTED: u8 = 0x41;

/// Type byte of a login-rejected packet, `J`.
pub const TYPE_LOGIN_REJECTED: u8 = 0x4A;

/// Type byte of a sequenced-data packet, `S`.
pub const TYPE_SEQUENCED_DATA: u8 = 0x53;

/// Type byte of a server heartbeat, `H`.
pub const TYPE_SERVER_HEARTBEAT: u8 = 0x48;

/// Type byte of an end-of-session packet, `Z`.
pub const TYPE_END_OF_SESSION: u8 = 0x5A;

/// Type byte of a login request, `L`.
pub const TYPE_LOGIN_REQUEST: u8 = 0x4C;

/// Type byte of a logout request, `O`.
pub const TYPE_LOGOUT_REQUEST: u8 = 0x4F;

/// Type byte of a client heartbeat, `R`.
pub const TYPE_CLIENT_HEARTBEAT: u8 = 0x52;

/// Type byte of an unsequenced-data packet, `U`.
pub const TYPE_UNSEQUENCED_DATA: u8 = 0x55;

/// The padding byte of fixed-width fields, a space.
pub const PAD: u8 = 0x20;

/// A packet sent by the server, borrowing from the received payload.
#[derive(Debug, Clone, PartialEq, Eq)]
pub enum ServerPacket<'a> {
    Debug(&'a [u8]),
    /// Answer to a login request that the server accepted.
    LoginAccepted {
        /// The session the client was assigned: 10 bytes on the wire, trimmed.
        session: &'a str,
        /// The sequence number the session starts from: 20 bytes on the wire, trimmed.
        sequence_number: &'a str,
    },
    LoginRejected { reason: u8 },
    /// Application payload that advances the session's sequence number.
    SequencedData(&'a [u8]),
    /// Must be answered with a client heartbeat.
    ServerHeartbeat,
    EndOfSession,
    /// A type byte this client does not know, or a known one with a malformed payload.
    Unknown { packet_type: u8, payload: &'a [u8] },
}

/// A packet sent by the client, borrowing its fields.
#[derive(Debug, Clone, PartialEq, Eq)]
pub enum ClientPacket<'a> {
    LoginRequest {
        username: &'a str,
        password: &'a str,
        /// The session the client asks for; blank for the current one.
        session_id: &'a str,
        /// The sequence number to start from, in decimal digits; at least 1.
        sequence_number: &'a str,
    },
    LogoutRequest,
    /// Sent periodically and in answer to a server heartbeat.
    ClientHeartbeat,
    UnsequencedData(&'a [u8]),
}

/// What a server packet holds, as mathematical values.
pub ghost enum ServerPacketModel {
    Debug(Seq<u8>),
    LoginAccepted { session: Seq<char>, sequence_number: Seq<char> },
    LoginRejected { reason: u8 },
    SequencedData(Seq<u8>),
    ServerHeartbeat,
    EndOfSession,
    Unknown { packet_type: u8, payload: Seq<u8> },
}

impl<'a> View for ServerPacket<'a> {
    type V = ServerPacketModel;

    open spec fn view(&self) -> ServerPacketModel {
        match *self {
            ServerPacket::Debug(p) => ServerPacketModel::Debug(p@),
            ServerPacket::LoginAccepted { session, sequence_number } => {
                ServerPacketModel::LoginAccepted {
                    session: session@,
                    sequence_number: sequence_number@,
                }
            },
            ServerPacket::LoginRejected { reason } => ServerPacketModel::LoginRejected { reason },
            ServerPacket::SequencedData(p) => ServerPacketModel::SequencedData(p@),
            ServerPacket::ServerHeartbeat => ServerPacketModel::ServerHeartbeat,
            ServerPacket::EndOfSession => ServerPacketModel::EndOfSession,
            ServerPacket::Unknown { packet_type, payload } => ServerPacketModel::Unknown {
                packet_type,
                payload: payload@,
            },
        }
    }
}

/// Whether a login-accepted payload is well formed: at least 30 bytes, with
/// valid UTF-8 in the 10-byte session field and in the 20-byte sequence field.
pub open spec fn login_accepted_well_formed(payload: Seq<u8>) -> bool {
    &&& payload.len() >= 30
    &&& valid_utf8(payload.subrange(0, 10))
    &&& valid_utf8(payload.subrange(10, 30))
}

/// The packet that a type byte and a payload stand for.
pub open spec fn server_packet_of(packet_type: u8, payload: Seq<u8>) -> ServerPacketModel {
    if packet_type == TYPE_DEBUG {
        ServerPacketModel::Debug(payload)
    } else if packet_type == TYPE_LOGIN_ACCEPTED && login_accepted_well_formed(payload) {
        ServerPacketModel::LoginAccepted {
            session: trimmed(decode_utf8(payload.subrange(0, 10))),
            sequence_number: trimmed(decode_utf8(payload.subrange(10, 30))),
        }
    } else if packet_type == TYPE_LOGIN_REJECTED && payload.len() > 0 {
        ServerPacketModel::LoginRejected { reason: payload[0] }
    } else if packet_type == TYPE_SEQUENCED_DATA {
        ServerPacketModel::SequencedData(payload)
    } else if packet_type == TYPE_SERVER_HEARTBEAT {
        ServerPacketModel::ServerHeartbeat
    } else if packet_type == TYPE_END_OF_SESSION {
        ServerPacketModel::EndOfSession
    } else {
        ServerPacketModel::Unknown { packet_type, payload }
    }
}

impl<'a> ServerPacket<'a> {
    /// Decodes a server packet from its type byte and payload. A payload that
    /// does not fit its type byte yields `Unknown`, never an error.
    pub fn parse(packet_type: u8, payload: &'a [u8]) -> (packet: Self)
        ensures
            packet@ == server_packet_of(packet_type, payload@),
    {
        if packet_type == TYPE_DEBUG {
            ServerPacket::Debug(payload)
        } else if packet_type == TYPE_LOGIN_ACCEPTED {
            if payload.len() >= 30 {
                let session_field = core::str::from_utf8(&payload[0..10]);
                let sequence_field = core::str::from_utf8(&payload[10..30]);
                match (session_field, sequence_field) {
                    (Ok(session), Ok(sequence_number)) => {
                        proof {
                            encode_utf8_decode_utf8(session@);
                            encode_utf8_decode_utf8(sequence_number@);
                        }
                        ServerPacket::LoginAccepted {
                            session: session.trim(),
                            sequence_number: sequence_number.trim(),
                        }
                    },
                    _ => ServerPacket::Unknown { packet_type, payload },
                }
            } else {
                ServerPacket::Unknown { packet_type, payload }
            }
        } else if packet_type == TYPE_LOGIN_REJECTED {
            if payload.len() > 0 {
                ServerPacket::LoginRejected { reason: payload[0] }
            } else {
                ServerPacket::Unknown { packet_type, payload }
            }
        } else if packet_type == TYPE_SEQUENCED_DATA {
            ServerPacket::SequencedData(payload)
        } else if packet_type == TYPE_SERVER_HEARTBEAT {
            ServerPacket::ServerHeartbeat
        } else if packet_type == TYPE_END_OF_SESSION {
            ServerPacket::EndOfSession
        } else {
            ServerPacket::Unknown { packet_type, payload }
        }
    }
}

/// `count` padding bytes.
pub open spec fn padding(count: int) -> Seq<u8> {
    Seq::new(
        if count < 0 {
            0nat
        } else {
            count as nat
        },
        |i: int| PAD,
    )
}

/// The part of `data` that fits a field of `width` bytes.
pub open spec fn field_content(data: Seq<u8>, width: int) -> Seq<u8> {
    if data.len() <= width {
        data
    } else if width < 0 {
        Seq::empty()
    } else {
        data.subrange(0, width)
    }
}

/// A field of `width` bytes with `data` at its start and padding after it.
pub open spec fn left_aligned(data: Seq<u8>, width: int) -> Seq<u8> {
    field_content(data, width) + padding(width - field_content(data, width).len())
}

/// A field of `width` bytes with padding first and `data` at its end.
pub open spec fn right_aligned(data: Seq<u8>, width: int) -> Seq<u8> {
    padding(width - field_content(data, width).len()) + field_content(data, width)
}

/// The longest payload that a packet can carry: the length field has two
/// bytes and counts the type byte too.
pub const MAX_PAYLOAD_LEN: usize = 65534;

/// The two bytes of a big-endian length field that holds `len`.
pub open spec fn length_field(len: int) -> Seq<u8>
    recommends
        0 <= len <= 65535,
{
    seq![(len / 256) as u8, (len % 256) as u8]
}

/// A packet on the wire: the length of type byte and payload, the type byte, the payload.
pub open spec fn wire_packet(packet_type: u8, payload: Seq<u8>) -> Seq<u8> {
    length_field(1 + payload.len() as int) + seq![packet_type] + payload
}

/// The 46 bytes of a login request's payload.
pub open spec fn login_payload(
    username: Seq<u8>,
    password: Seq<u8>,
    session_id: Seq<u8>,
    sequence_number: Seq<u8>,
) -> Seq<u8> {
    left_aligned(username, 6) + left_aligned(password, 10) + left_aligned(session_id, 10)
        + right_aligned(sequence_number, 20)
}

/// What a client packet holds, as mathematical values.
pub ghost enum ClientPacketModel {
    LoginRequest {
        username: Seq<char>,
        password: Seq<char>,
        session_id: Seq<char>,
        sequence_number: Seq<char>,
    },
    LogoutRequest,
    ClientHeartbeat,
    UnsequencedData(Seq<u8>),
}

impl<'a> View for ClientPacket<'a> {
    type V = ClientPacketModel;

    open spec fn view(&self) -> ClientPacketModel {
        match *self {
            ClientPacket::LoginRequest { username, password, session_id, sequence_number } => {
                ClientPacketModel::LoginRequest {
                    username: username@,
                    password: password@,
                    session_id: session_id@,
                    sequence_number: sequence_number@,
                }
            },
            ClientPacket::LogoutRequest => ClientPacketModel::LogoutRequest,
            ClientPacket::ClientHeartbeat => ClientPacketModel::ClientHeartbeat,
            ClientPacket::UnsequencedData(data) => ClientPacketModel::UnsequencedData(data@),
        }
    }
}

impl ClientPacketModel {
    /// Whether the packet fits the wire: its payload is no longer than the
    /// length field can announce. Only unsequenced data can be too long.
    pub open spec fn fits_wire(self) -> bool {
        match self {
            ClientPacketModel::UnsequencedData(data) => data.len() <= MAX_PAYLOAD_LEN,
            _ => true,
        }
    }

    /// The bytes that go on the wire for this packet.
    pub open spec fn wire_bytes(self) -> Seq<u8> {
        match self {
            ClientPacketModel::LoginRequest { username, password, session_id, sequence_number } => {
                wire_packet(
                    TYPE_LOGIN_REQUEST,
                    login_payload(
                        encode_utf8(username),
                        encode_utf8(password),
                        encode_utf8(session_id),
                        encode_utf8(sequence_number),
                    ),
                )
            },
            ClientPacketModel::LogoutRequest => wire_packet(TYPE_LOGOUT_REQUEST, Seq::empty()),
            ClientPacketModel::ClientHeartbeat => wire_packet(
                TYPE_CLIENT_HEARTBEAT,
                Seq::empty(),
            ),
            ClientPacketModel::UnsequencedData(data) => wire_packet(TYPE_UNSEQUENCED_DATA, data),
        }
    }
}

impl<'a> ClientPacket<'a> {
    /// Whether the packet fits the wire: its payload is no longer than
    /// `MAX_PAYLOAD_LEN`.
    pub fn fits_wire(&self) -> (fits: bool)
        ensures
            fits == self@.fits_wire(),
    {
        match self {
            ClientPacket::UnsequencedData(data) => data.len() <= MAX_PAYLOAD_LEN,
            _ => true,
        }
    }

    /// Encodes the packet for the wire. The packet must fit it.
    pub fn to_bytes(&self) -> (bytes: Vec<u8>)
        requires
            self@.fits_wire(),
        ensures
            bytes@ == self@.wire_bytes(),
    {
        match self {
            ClientPacket::LoginRequest { username, password, session_id, sequence_number } => {
                let mut buf: Vec<u8> = Vec::with_capacity(49);
                buf.push(0);
                buf.push(47);
                buf.push(TYPE_LOGIN_REQUEST);
                Self::write_padded_left(&mut buf, username.as_bytes(), 6);
                Self::write_padded_left(&mut buf, password.as_bytes(), 10);
                Self::write_padded_left(&mut buf, session_id.as_bytes(), 10);
                Self::write_padded_right(&mut buf, sequence_number.as_bytes(), 20);
                proof {
                    let payload = login_payload(
                        username.spec_bytes(),
                        password.spec_bytes(),
                        session_id.spec_bytes(),
                        sequence_number.spec_bytes(),
                    );
                    assert(payload.len() == 46);
                    assert(length_field(47) =~= seq![0u8, 47u8]);
                    assert(buf@ =~= wire_packet(TYPE_LOGIN_REQUEST, payload));
                }
                buf
            },
            ClientPacket::LogoutRequest => {
                let empty: Vec<u8> = Vec::new();
                Self::wrap_packet(TYPE_LOGOUT_REQUEST, empty.as_slice())
            },
            ClientPacket::ClientHeartbeat => {
                let empty: Vec<u8> = Vec::new();
                Self::wrap_packet(TYPE_CLIENT_HEARTBEAT, empty.as_slice())
            },
            ClientPacket::UnsequencedData(data) => Self::wrap_packet(TYPE_UNSEQUENCED_DATA, data),
        }
    }

    /// Frames a payload: length field, type byte, payload. The length field
    /// holds the payload's length plus one, for the type byte; the payload
    /// must be no longer than `MAX_PAYLOAD_LEN`.
    pub fn wrap_packet(packet_type: u8, payload: &[u8]) -> (packet: Vec<u8>)
        requires
            payload@.len() <= MAX_PAYLOAD_LEN,
        ensures
            packet@ == wire_packet(packet_type, payload@),
    {
        let packet_len: u16 = (payload.len() + 1) as u16;
        let mut packet: Vec<u8> = Vec::new();
        packet.push((packet_len / 256) as u8);
        packet.push((packet_len % 256) as u8);
        packet.push(packet_type);
        packet.extend_from_slice(payload);
        proof {
            assert(packet@ =~= wire_packet(packet_type, payload@));
        }
        packet
    }

    /// Appends a field of `width` bytes: `data`, cut to `width`, then padding.
    pub fn write_padded_left(buf: &mut Vec<u8>, data: &[u8], width: usize)
        requires
            old(buf)@.len() + width <= usize::MAX,
        ensures
            final(buf)@ == old(buf)@ + left_aligned(data@, width as int),
    {
        let len: usize = if data.len() < width {
            data.len()
        } else {
            width
        };
        buf.extend_from_slice(&data[0..len]);
        let filled: usize = buf.len();
        let ghost copied = buf@;
        buf.resize(filled + (width - len), PAD);
        proof {
            assert(field_content(data@, width as int) =~= data@.subrange(0, len as int));
            assert(copied =~= old(buf)@ + data@.subrange(0, len as int));
            let target = old(buf)@ + left_aligned(data@, width as int);
            assert forall|i: int| 0 <= i < buf@.len() implies buf@[i] == target[i] by {
                if i < filled {
                    assert(buf@.subrange(0, filled as int)[i] == copied[i]);
                } else {
                    assert(cloned::<u8>(PAD, buf@[i]));
                }
            }
            assert(buf@ =~= target);
        }
    }

    /// Appends a field of `width` bytes: padding, then `data`, cut to `width`.
    pub fn write_padded_right(buf: &mut Vec<u8>, data: &[u8], width: usize)
        requires
            old(buf)@.len() + width <= usize::MAX,
        ensures
            final(buf)@ == old(buf)@ + right_aligned(data@, width as int),
    {
        let len: usize = if data.len() < width {
            data.len()
        } else {
            width
        };
        let filled: usize = buf.len();
        buf.resize(filled + (width - len), PAD);
        buf.extend_from_slice(&data[0..len]);
        proof {
            assert(field_content(data@, width as int) =~= data@.subrange(0, len as int));
            assert(buf@ =~= old(buf)@ + right_aligned(data@, width as int));
        }
    }
}

/// A login request always occupies 49 bytes on the wire: a length field of
/// 47, the type byte `L`, and four fixed-width fields at fixed offsets. The
/// user name, the password and the session stand at the start of their
/// fields, the sequence number at the end of its field, each cut to the
/// field's width and padded with spaces.
pub proof fn lemma_login_request_layout(
    username: Seq<char>,
    password: Seq<char>,
    session_id: Seq<char>,
    sequence_number: Seq<char>,
)
    ensures
        ({
            let bytes = (ClientPacketModel::LoginRequest {
                username,
                password,
                session_id,
                sequence_number,
            }).wire_bytes();
            &&& bytes.len() == 49
            &&& bytes[0] == 0
            &&& bytes[1] == 47
            &&& bytes[2] == TYPE_LOGIN_REQUEST
            &&& bytes.subrange(3, 9) == left_aligned(encode_utf8(username), 6)
            &&& bytes.subrange(9, 19) == left_aligned(encode_utf8(password), 10)
            &&& bytes.subrange(19, 29) == left_aligned(encode_utf8(session_id), 10)
            &&& bytes.subrange(29, 49) == right_aligned(encode_utf8(sequence_number), 20)
        }),
{
    let u = left_aligned(encode_utf8(username), 6);
    let p = left_aligned(encode_utf8(password), 10);
    let s = left_aligned(encode_utf8(session_id), 10);
    let q = right_aligned(encode_utf8(sequence_number), 20);
    let payload = login_payload(
        encode_utf8(username),
        encode_utf8(password),
        encode_utf8(session_id),
        encode_utf8(sequence_number),
    );
    let bytes = wire_packet(TYPE_LOGIN_REQUEST, payload);
    assert(payload.len() == 46);
    assert(length_field(47) =~= seq![0u8, 47u8]);
    assert(bytes.subrange(3, 9) =~= u);
    assert(bytes.subrange(9, 19) =~= p);
    assert(bytes.subrange(19, 29) =~= s);
    assert(bytes.subrange(29, 49) =~= q);
}

/// A field that is wide enough holds its data unchanged: a left-aligned
/// field starts with the data and ends in spaces, a right-aligned field
/// starts with spaces and ends with the data.
pub proof fn lemma_field_holds_data(data: Seq<u8>, width: int)
    requires
        data.len() <= width,
    ensures
        left_aligned(data, width).len() == width,
        left_aligned(data, width).subrange(0, data.len() as int) == data,
        forall|i: int| data.len() <= i < width ==> left_aligned(data, width)[i] == PAD,
        right_aligned(data, width).len() == width,
        right_aligned(data, width).subrange(width - data.len(), width) == data,
        forall|i: int| 0 <= i < width - data.len() ==> right_aligned(data, width)[i] == PAD,
{
    assert(left_aligned(data, width).subrange(0, data.len() as int) =~= data);
    assert(right_aligned(data, width).subrange(width - data.len(), width) =~= data);
}

/// A payload under the login-accepted type byte decodes to `Unknown` unless
/// it is at least 30 bytes long and both of its text fields are valid UTF-8;
/// then it decodes to `LoginAccepted`. The type byte of a login request is
/// none that a server sends, so under it every payload decodes to `Unknown`.
pub proof fn lemma_login_payload_on_server_side(payload: Seq<u8>)
    ensures
        server_packet_of(TYPE_LOGIN_ACCEPTED, payload) is LoginAccepted
            <==> login_accepted_well_formed(payload),
        !login_accepted_well_formed(payload) ==> server_packet_of(TYPE_LOGIN_ACCEPTED, payload)
            == (ServerPacketModel::Unknown { packet_type: TYPE_LOGIN_ACCEPTED, payload }),
        server_packet_of(TYPE_LOGIN_REQUEST, payload) == (ServerPacketModel::Unknown {
            packet_type: TYPE_LOGIN_REQUEST,
            payload,
        }),
{
}

/// The length field of a framed payload covers the type byte and the
/// payload: what `wrap_packet` writes is exactly one packet for the framing.
pub proof fn lemma_wire_packet_is_packet(packet_type: u8, payload: Seq<u8>)
    requires
        payload.len() <= MAX_PAYLOAD_LEN,
    ensures
        is_packet(wire_packet(packet_type, payload)),
        wire_packet(packet_type, payload).len() == 3 + payload.len(),
        wire_packet(packet_type, payload)[2] == packet_type,
        wire_packet(packet_type, payload).skip(3) == payload,
{
    let packet = wire_packet(packet_type, payload);
    assert(packet.skip(3) =~= payload);
}

} // verus!

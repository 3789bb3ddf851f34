use vstd::prelude::*;
use vstd::string::*;
use bytes::{Bytes, BytesMut};
use crossbeam_channel::Sender;
use crate::buffer::{
    buffer_bytes, buffer_capacity, buffer_clear, buffer_extend, buffer_len, buffer_reserve,
    buffer_slice, buffer_with_capacity, frozen_bytes, frozen_slice,
};
use crate::channel::{channel_send, deliver};
use crate::constants::{
    DEFAULT_BUFFER_CAPACITY, DEFAULT_HEARTBEAT_INTERVAL_SECS, DEFAULT_MAX_RECONNECT_ATTEMPTS,
    DEFAULT_RECONNECT_DELAY_MS, MAX_BUFFER_CAPACITY, MAX_RECONNECT_DELAY_MS, MIN_SPARE_CAPACITY,
};
use crate::data_feed_type::DataFeedType;
use crate::framing::{after_first_packet, extract_packet, first_packet, has_complete_packet};
use crate::nanosecond::UnixNanoseconds;
use crate::packet::{
    server_packet_of, ClientPacket, ClientPacketModel, ServerPacket, ServerPacketModel,
    TYPE_CLIENT_HEARTBEAT, TYPE_SEQUENCED_DATA,
};
use crate::parsing::{PacketContext, PacketParser};
use crate::queue::PacketData;
use crate::text::{decimal_string, decimal_text, parse_u64_text, parsed_u64};
use crate::trace::TraceData;
use crate::transport::{failure_message, FailureKind, IoOutcome};

verus! {

/// A change in the state of the connection, reported to an observer.
#[derive(Debug, Clone, Copy, PartialEq, Eq, Structural)]
pub enum ConnectionEvent {
    Connected,
    Reconnecting,
    Reconnected,
    Disconnected,
}

/// The parameters of a connection.
#[derive(Debug, Clone, PartialEq, Eq)]
pub struct SoupBinTcpConfig {
    pub host: String,
    pub port: u16,
    pub username: String,
    pub password: String,
    pub feed_type: DataFeedType,
    /// The sequence number asked for at the first login, in decimal digits.
    pub start_sequence: String,
    /// The session asked for at every login; blank for the current one.
    pub start_session: String,
}

/// The reasons for which a session ends.
#[derive(Debug)]
pub enum SessionError {
    /// The server rejected the login.
    LoginRejected { reason: u8 },
    /// The server ended the session.
    EndOfSession,
    /// The output queue has no receiver any more.
    QueueDisconnected,
    /// The decoder failed on a sequenced payload.
    Decode { message: String },
    /// Every allowed reconnection attempt has been used.
    ReconnectExhausted { max_attempts: u32 },
}

impl SessionError {
    /// The condition under which the error is reported to the owner.
    pub open spec fn kind_of(self) -> FailureKind {
        match self {
            SessionError::LoginRejected { .. } => FailureKind::PermissionDenied,
            SessionError::EndOfSession => FailureKind::ConnectionAborted,
            SessionError::QueueDisconnected => FailureKind::BrokenPipe,
            SessionError::Decode { .. } => FailureKind::InvalidData,
            SessionError::ReconnectExhausted { .. } => FailureKind::ConnectionAborted,
        }
    }

    /// The text of the error.
    pub open spec fn message_text(self) -> Seq<char> {
        match self {
            SessionError::LoginRejected { reason } => "Login rejected: reason code "@
                + decimal_text(reason as nat),
            SessionError::EndOfSession => "Server ended session"@,
            SessionError::QueueDisconnected => "Disconnected"@,
            SessionError::Decode { message } => message@,
            SessionError::ReconnectExhausted { max_attempts } => "Max reconnection attempts ("@
                + decimal_text(max_attempts as nat) + ") exceeded"@,
        }
    }

    /// The condition under which the error is reported to the owner.
    pub fn kind(&self) -> (kind: FailureKind)
        ensures
            kind == self.kind_of(),
    {
        match self {
            SessionError::LoginRejected { .. } => FailureKind::PermissionDenied,
            SessionError::EndOfSession => FailureKind::ConnectionAborted,
            SessionError::QueueDisconnected => FailureKind::BrokenPipe,
            SessionError::Decode { .. } => FailureKind::InvalidData,
            SessionError::ReconnectExhausted { .. } => FailureKind::ConnectionAborted,
        }
    }

    /// The text of the error.
    pub fn message(&self) -> (text: String)
        ensures
            text@ == self.message_text(),
    {
        match self {
            SessionError::LoginRejected { reason } => {
                let mut text = String::from_str("Login rejected: reason code ");
                text.append(decimal_string(*reason as u128).as_str());
                text
            },
            SessionError::EndOfSession => String::from_str("Server ended session"),
            SessionError::QueueDisconnected => String::from_str("Disconnected"),
            SessionError::Decode { message } => message.clone(),
            SessionError::ReconnectExhausted { max_attempts } => {
                let mut text = String::from_str("Max reconnection attempts (");
                text.append(decimal_string(*max_attempts as u128).as_str());
                text.append(") exceeded");
                text
            },
        }
    }
}

/// A session's state, as mathematical values.
pub ghost struct SessionModel {
    /// The received bytes that have not been framed yet.
    pub buffer: Seq<u8>,
    /// The number of the last sequenced packet.
    pub current_sequence: u64,
    /// When the server was last heard, in milliseconds of the caller's clock.
    pub last_server_activity: u64,
    /// When a packet was last sent, in milliseconds of the caller's clock.
    pub last_heartbeat_sent: u64,
    pub last_known_timestamp: UnixNanoseconds,
    pub feed_type: DataFeedType,
    pub host: Seq<char>,
    pub port: u16,
    pub username: Seq<char>,
    pub password: Seq<char>,
    pub session: Seq<char>,
    pub max_attempts: u32,
    pub initial_delay_ms: u64,
    /// The reconnection attempts made since the server last accepted a login.
    pub reconnect_attempts: u32,
    /// Whether a login was sent and nothing has come back since.
    pub just_sent_login: bool,
    pub heartbeat_interval_secs: u64,
    /// Whether a server heartbeat waits for its answer.
    pub pending_server_heartbeat: bool,
    /// The trace of the bytes that were received last, if any were.
    pub trace: Option<TraceData>,
    /// Whether an observer is told of connection events.
    pub observed: bool,
}

/// One connection's session: what has been received and not yet framed, the
/// sequence counter, the heartbeat clocks and the reconnection policy. The
/// transport itself is the caller's: the session decides, the caller moves
/// the bytes.
#[verifier::reject_recursive_types(T)]
pub struct Session<T, P: PacketParser<T>> {
    parser: P,
    packet_sender: Sender<PacketData<T>>,
    event_sender: Option<Sender<(DataFeedType, ConnectionEvent)>>,
    read_buf: BytesMut,
    current_sequence: u64,
    last_server_activity: u64,
    last_heartbeat_sent: u64,
    last_known_timestamp: UnixNanoseconds,
    current_trace: Option<TraceData>,
    feed_type: DataFeedType,
    host: String,
    port: u16,
    username: String,
    password: String,
    session: String,
    max_attempts: u32,
    initial_delay_ms: u64,
    reconnect_attempts: u32,
    just_sent_login: bool,
    heartbeat_interval_secs: u64,
    pending_server_heartbeat: bool,
}

impl<T, P: PacketParser<T>> View for Session<T, P> {
    type V = SessionModel;

    closed spec fn view(&self) -> SessionModel {
        SessionModel {
            buffer: buffer_bytes(self.read_buf),
            current_sequence: self.current_sequence,
            last_server_activity: self.last_server_activity,
            last_heartbeat_sent: self.last_heartbeat_sent,
            last_known_timestamp: self.last_known_timestamp,
            feed_type: self.feed_type,
            host: self.host@,
            port: self.port,
            username: self.username@,
            password: self.password@,
            session: self.session@,
            max_attempts: self.max_attempts,
            initial_delay_ms: self.initial_delay_ms,
            reconnect_attempts: self.reconnect_attempts,
            just_sent_login: self.just_sent_login,
            heartbeat_interval_secs: self.heartbeat_interval_secs,
            pending_server_heartbeat: self.pending_server_heartbeat,
            trace: self.current_trace,
            observed: self.event_sender is Some,
        }
    }
}

/// The whole seconds between two readings of a millisecond clock; none if
/// the clock reads less than before.
pub open spec fn elapsed_secs(now_ms: u64, since_ms: u64) -> int {
    if now_ms >= since_ms {
        (now_ms - since_ms) / 1000
    } else {
        0
    }
}

/// The state of a session that has just sent its first login at `now_ms`.
pub open spec fn initial_model(
    config: SoupBinTcpConfig,
    observed: bool,
    max_reconnect_attempts: u32,
    initial_delay_ms: u64,
    now_ms: u64,
) -> SessionModel {
    SessionModel {
        buffer: Seq::empty(),
        current_sequence: 0,
        last_server_activity: now_ms,
        last_heartbeat_sent: now_ms,
        last_known_timestamp: UnixNanoseconds(0),
        feed_type: config.feed_type,
        host: config.host@,
        port: config.port,
        username: config.username@,
        password: config.password@,
        session: config.start_session@,
        max_attempts: max_reconnect_attempts,
        initial_delay_ms,
        reconnect_attempts: 0,
        just_sent_login: true,
        heartbeat_interval_secs: DEFAULT_HEARTBEAT_INTERVAL_SECS,
        pending_server_heartbeat: false,
        trace: None,
        observed,
    }
}

/// The login request that opens a session under `config`.
pub open spec fn first_login(config: SoupBinTcpConfig) -> ClientPacketModel {
    ClientPacketModel::LoginRequest {
        username: config.username@,
        password: config.password@,
        session_id: config.start_session@,
        sequence_number: config.start_sequence@,
    }
}

/// Whether a failed read is answered by reconnecting: the connection was
/// reset or aborted, the pipe is broken, or the socket is not connected.
pub open spec fn reconnectable(kind: FailureKind) -> bool {
    kind == FailureKind::ConnectionReset || kind == FailureKind::ConnectionAborted || kind
        == FailureKind::BrokenPipe || kind == FailureKind::NotConnected
}

/// Whether a failed read is answered by reconnecting.
pub fn is_reconnectable_error(kind: FailureKind) -> (answer: bool)
    ensures
        answer == reconnectable(kind),
{
    match kind {
        FailureKind::ConnectionReset => true,
        FailureKind::ConnectionAborted => true,
        FailureKind::BrokenPipe => true,
        FailureKind::NotConnected => true,
        _ => false,
    }
}

/// The capacity of the smaller buffer that replaces one of `capacity` bytes
/// holding `len` bytes, if it is to be replaced: it is where it has grown
/// past `MAX_BUFFER_CAPACITY` and holds less than `MIN_SPARE_CAPACITY`.
pub fn shrink_target(len: usize, capacity: usize) -> (target: Option<usize>)
    ensures
        target == if capacity > MAX_BUFFER_CAPACITY && len < MIN_SPARE_CAPACITY {
            Some(
                if len + MIN_SPARE_CAPACITY > DEFAULT_BUFFER_CAPACITY {
                    (len + MIN_SPARE_CAPACITY) as usize
                } else {
                    DEFAULT_BUFFER_CAPACITY
                },
            )
        } else {
            None::<usize>
        },
{
    if capacity > MAX_BUFFER_CAPACITY && len < MIN_SPARE_CAPACITY {
        let wanted: usize = len + MIN_SPARE_CAPACITY;
        if wanted > DEFAULT_BUFFER_CAPACITY {
            Some(wanted)
        } else {
            Some(DEFAULT_BUFFER_CAPACITY)
        }
    } else {
        None
    }
}

/// Whether a buffer of `capacity` bytes holding `len` bytes has less than
/// `MIN_SPARE_CAPACITY` to spare, so that room must be reserved before a read.
pub fn needs_reserve(len: usize, capacity: usize) -> (answer: bool)
    requires
        len <= capacity,
    ensures
        answer == (capacity - len < MIN_SPARE_CAPACITY),
{
    capacity - len < MIN_SPARE_CAPACITY
}

/// What the pump does after one read from the transport.
#[derive(Debug, Clone, Copy, PartialEq, Eq, Structural)]
pub enum PumpStep {
    /// Nothing came: the pump returns, to be called again later.
    Idle,
    /// Bytes came: the pump goes round again and frames them.
    Continue,
    /// The connection is gone: the pump reconnects, then goes round again.
    Reconnect,
    /// The read failed for good: the pump returns this error.
    Fail(FailureKind),
}

/// Decides what the pump does after one read from the transport.
pub fn pump_step(outcome: IoOutcome) -> (step: PumpStep)
    ensures
        step == match outcome {
            IoOutcome::Moved(n) => if n == 0 {
                PumpStep::Idle
            } else {
                PumpStep::Continue
            },
            IoOutcome::Failed(kind) => if reconnectable(kind) {
                PumpStep::Reconnect
            } else {
                PumpStep::Fail(kind)
            },
        },
{
    match outcome {
        IoOutcome::Moved(n) => {
            if n == 0 {
                PumpStep::Idle
            } else {
                PumpStep::Continue
            }
        },
        IoOutcome::Failed(kind) => {
            if is_reconnectable_error(kind) {
                PumpStep::Reconnect
            } else {
                PumpStep::Fail(kind)
            }
        },
    }
}

/// The three bytes of a client heartbeat: a length of one, and the type byte.
pub fn heartbeat_packet() -> (bytes: Vec<u8>)
    ensures
        bytes@ == ClientPacketModel::ClientHeartbeat.wire_bytes(),
        bytes@ == seq![0u8, 1u8, TYPE_CLIENT_HEARTBEAT],
{
    let bytes = ClientPacket::ClientHeartbeat.to_bytes();
    proof {
        assert(bytes@ =~= seq![0u8, 1u8, TYPE_CLIENT_HEARTBEAT]);
    }
    bytes
}

impl<T, P: PacketParser<T>> Session<T, P> {
    /// Opens a session with the default reconnection policy and no observer.
    /// Returns the session and the bytes of the login request to send.
    pub fn connect(
        config: SoupBinTcpConfig,
        sender: Sender<PacketData<T>>,
        parser: P,
        now_ms: u64,
    ) -> (opened: (Self, Vec<u8>))
        ensures
            opened.0@ == initial_model(
                config,
                false,
                DEFAULT_MAX_RECONNECT_ATTEMPTS,
                DEFAULT_RECONNECT_DELAY_MS,
                now_ms,
            ),
            opened.1@ == first_login(config).wire_bytes(),
    {
        Self::connect_with_retry_config(
            config,
            sender,
            parser,
            None,
            DEFAULT_MAX_RECONNECT_ATTEMPTS,
            DEFAULT_RECONNECT_DELAY_MS,
            now_ms,
        )
    }

    /// Opens a session with the default reconnection policy and an observer
    /// of connection events. Returns the session and the bytes of the login
    /// request to send.
    pub fn connect_with_events(
        config: SoupBinTcpConfig,
        sender: Sender<PacketData<T>>,
        parser: P,
        event_sender: Sender<(DataFeedType, ConnectionEvent)>,
        now_ms: u64,
    ) -> (opened: (Self, Vec<u8>))
        ensures
            opened.0@ == initial_model(
                config,
                true,
                DEFAULT_MAX_RECONNECT_ATTEMPTS,
                DEFAULT_RECONNECT_DELAY_MS,
                now_ms,
            ),
            opened.1@ == first_login(config).wire_bytes(),
    {
        Self::connect_with_retry_config(
            config,
            sender,
            parser,
            Some(event_sender),
            DEFAULT_MAX_RECONNECT_ATTEMPTS,
            DEFAULT_RECONNECT_DELAY_MS,
            now_ms,
        )
    }

    /// Opens a session over a transport that the caller has just connected.
    ///
    /// Returns the session, in the state of having sent its first login at
    /// `now_ms`, and the bytes of that login request: the configured user
    /// name, password, session and start sequence.
    pub fn connect_with_retry_config(
        config: SoupBinTcpConfig,
        sender: Sender<PacketData<T>>,
        parser: P,
        event_sender: Option<Sender<(DataFeedType, ConnectionEvent)>>,
        max_reconnect_attempts: u32,
        initial_delay_ms: u64,
        now_ms: u64,
    ) -> (opened: (Self, Vec<u8>))
        ensures
            opened.0@ == initial_model(
                config,
                event_sender is Some,
                max_reconnect_attempts,
                initial_delay_ms,
                now_ms,
            ),
            opened.1@ == first_login(config).wire_bytes(),
    {
        let login = (ClientPacket::LoginRequest {
            username: config.username.as_str(),
            password: config.password.as_str(),
            session_id: config.start_session.as_str(),
            sequence_number: config.start_sequence.as_str(),
        }).to_bytes();
        let session = Session {
            parser,
            packet_sender: sender,
            event_sender,
            read_buf: buffer_with_capacity(DEFAULT_BUFFER_CAPACITY),
            current_sequence: 0,
            last_server_activity: now_ms,
            last_heartbeat_sent: now_ms,
            last_known_timestamp: UnixNanoseconds(0),
            current_trace: None,
            feed_type: config.feed_type,
            host: config.host,
            port: config.port,
            username: config.username,
            password: config.password,
            session: config.start_session,
            max_attempts: max_reconnect_attempts,
            initial_delay_ms,
            reconnect_attempts: 0,
            just_sent_login: true,
            heartbeat_interval_secs: DEFAULT_HEARTBEAT_INTERVAL_SECS,
            pending_server_heartbeat: false,
        };
        (session, login)
    }

    /// The number of the last sequenced packet.
    pub fn current_sequence(&self) -> (sequence: u64)
        ensures
            sequence == self@.current_sequence,
    {
        self.current_sequence
    }

    /// The feed that the session carries.
    pub fn feed_type(&self) -> (feed_type: &DataFeedType)
        ensures
            *feed_type == self@.feed_type,
    {
        &self.feed_type
    }

    /// The reconnection attempts made since the server last accepted a login.
    pub fn reconnect_attempts(&self) -> (attempts: u32)
        ensures
            attempts == self@.reconnect_attempts,
    {
        self.reconnect_attempts
    }

    /// Whether a server heartbeat waits for its answer.
    pub fn pending_server_heartbeat(&self) -> (pending: bool)
        ensures
            pending == self@.pending_server_heartbeat,
    {
        self.pending_server_heartbeat
    }

    /// Whether a login was sent and nothing has come back since.
    pub fn just_sent_login(&self) -> (waiting: bool)
        ensures
            waiting == self@.just_sent_login,
    {
        self.just_sent_login
    }

    /// The number of received bytes that have not been framed yet.
    pub fn buffered(&self) -> (len: usize)
        ensures
            len == self@.buffer.len(),
    {
        buffer_len(&self.read_buf)
    }

    /// Whether a client heartbeat is due at `now_ms`: the heartbeat interval
    /// has passed since a packet was last sent, or a server heartbeat waits
    /// for its answer.
    pub fn heartbeat_due(&self, now_ms: u64) -> (due: bool)
        ensures
            due == (elapsed_secs(now_ms, self@.last_heartbeat_sent) >= self@.heartbeat_interval_secs
                || self@.pending_server_heartbeat),
    {
        let elapsed: u64 = if now_ms >= self.last_heartbeat_sent {
            (now_ms - self.last_heartbeat_sent) / 1000
        } else {
            0
        };
        elapsed >= self.heartbeat_interval_secs || self.pending_server_heartbeat
    }

    /// Takes in how the non-blocking write of a heartbeat ended. Only a
    /// write of all three bytes counts as sent; a partial write, a full
    /// socket and any failure leave the heartbeat due, to be tried again.
    pub fn heartbeat_written(&mut self, outcome: IoOutcome, now_ms: u64)
        ensures
            final(self)@ == if outcome == IoOutcome::Moved(3) {
                SessionModel {
                    last_heartbeat_sent: now_ms,
                    pending_server_heartbeat: false,
                    ..old(self)@
                }
            } else {
                old(self)@
            },
    {
        match outcome {
            IoOutcome::Moved(n) => {
                if n == 3 {
                    self.last_heartbeat_sent = now_ms;
                    self.pending_server_heartbeat = false;
                }
            },
            IoOutcome::Failed(_) => {},
        }
    }

    /// Records that a packet went out whole at `now_ms`.
    pub fn packet_sent(&mut self, now_ms: u64)
        ensures
            final(self)@ == (SessionModel { last_heartbeat_sent: now_ms, ..old(self)@ }),
    {
        self.last_heartbeat_sent = now_ms;
    }

    /// Takes in bytes that the transport delivered, in the order of their
    /// arrival, and the trace of their receipt.
    pub fn receive(&mut self, data: &[u8], trace: TraceData)
        requires
            old(self)@.buffer.len() + data@.len() <= isize::MAX,
        ensures
            final(self)@ == (SessionModel {
                buffer: old(self)@.buffer + data@,
                trace: Some(trace),
                ..old(self)@
            }),
    {
        buffer_extend(&mut self.read_buf, data);
        self.current_trace = Some(trace);
    }

    /// Takes one complete packet off the front of the received bytes.
    ///
    /// Returns its type byte and the whole packet, header included. Where no
    /// complete packet has been received yet, returns `None` and changes nothing.
    pub fn try_parse_packet(&mut self) -> (packet: Option<(u8, Bytes)>)
        ensures
            packet is Some <==> has_complete_packet(old(self)@.buffer),
            packet is None ==> final(self)@ == old(self)@,
            packet matches Some((packet_type, bytes)) ==> {
                &&& packet_type == old(self)@.buffer[2]
                &&& frozen_bytes(bytes) == first_packet(old(self)@.buffer)
                &&& final(self)@ == (SessionModel {
                    buffer: after_first_packet(old(self)@.buffer),
                    ..old(self)@
                })
            },
    {
        extract_packet(&mut self.read_buf)
    }

    /// Keeps the receive buffer in bounds before the next read: a buffer
    /// that has grown past `MAX_BUFFER_CAPACITY` and is nearly empty gives
    /// way to a smaller one, and a buffer with less than `MIN_SPARE_CAPACITY`
    /// to spare gets room reserved. The received bytes stay as they are.
    pub fn manage_buffer(&mut self)
        ensures
            final(self)@ == old(self)@,
    {
        let len: usize = buffer_len(&self.read_buf);
        match shrink_target(len, buffer_capacity(&self.read_buf)) {
            Some(new_capacity) => {
                let mut new_buf = buffer_with_capacity(new_capacity);
                buffer_extend(&mut new_buf, buffer_slice(&self.read_buf));
                proof {
                    assert(buffer_bytes(new_buf) =~= buffer_bytes(self.read_buf));
                }
                self.read_buf = new_buf;
            },
            None => {},
        }
        if needs_reserve(len, buffer_capacity(&self.read_buf)) {
            if len <= isize::MAX as usize - MIN_SPARE_CAPACITY {
                buffer_reserve(&mut self.read_buf, MIN_SPARE_CAPACITY);
            }
        }
    }

    /// Reports a connection event to the observer, if there is one. A
    /// report that cannot be delivered is given up.
    pub fn send_event(&self, event: ConnectionEvent) {
        match &self.event_sender {
            Some(observer) => {
                let _ = channel_send(observer, (self.feed_type, event));
            },
            None => {},
        }
    }
}

/// Two to the power of `exponent`.
pub open spec fn two_to(exponent: nat) -> nat
    decreases exponent,
{
    if exponent == 0 {
        1
    } else {
        2 * two_to((exponent - 1) as nat)
    }
}

/// The delay before reconnection attempt `attempt`, counted from one: the
/// initial delay doubled with every earlier attempt, and never more than
/// `MAX_RECONNECT_DELAY_MS`.
pub open spec fn backoff_delay(initial_delay_ms: u64, attempt: u32) -> int {
    let doubled = initial_delay_ms * two_to((attempt - 1) as nat);
    if doubled <= MAX_RECONNECT_DELAY_MS {
        doubled
    } else {
        MAX_RECONNECT_DELAY_MS as int
    }
}

/// Powers of two grow with their exponent.
pub proof fn lemma_two_to_grows(smaller: nat, larger: nat)
    requires
        smaller <= larger,
    ensures
        1 <= two_to(smaller) <= two_to(larger),
    decreases larger,
{
    if larger > 0 {
        if smaller == larger {
            lemma_two_to_grows((smaller - 1) as nat, (larger - 1) as nat);
        } else {
            lemma_two_to_grows(smaller, (larger - 1) as nat);
        }
    }
}

/// The delay in milliseconds before reconnection attempt `attempt`, counted from one.
pub fn reconnect_delay(initial_delay_ms: u64, attempt: u32) -> (delay_ms: u64)
    requires
        attempt >= 1,
    ensures
        delay_ms == backoff_delay(initial_delay_ms, attempt),
{
    if initial_delay_ms == 0 {
        proof {
            assert(0 * two_to((attempt - 1) as nat) == 0) by (nonlinear_arith);
        }
        return 0;
    }
    let mut delay: u64 = initial_delay_ms;
    let mut doublings: u32 = 0;
    proof {
        assert(two_to(0) == 1);
        assert(initial_delay_ms * two_to(0) == initial_delay_ms);
    }
    while doublings < attempt - 1 && delay <= MAX_RECONNECT_DELAY_MS
        invariant
            doublings <= attempt - 1,
            initial_delay_ms > 0,
            delay == initial_delay_ms * two_to(doublings as nat) || (delay > MAX_RECONNECT_DELAY_MS
                && initial_delay_ms * two_to(doublings as nat) > MAX_RECONNECT_DELAY_MS),
        decreases attempt - 1 - doublings,
    {
        proof {
            assert(initial_delay_ms * two_to((doublings + 1) as nat) == 2 * (initial_delay_ms
                * two_to(doublings as nat))) by (nonlinear_arith)
                requires
                    two_to((doublings + 1) as nat) == 2 * two_to(doublings as nat),
            ;
        }
        delay = delay * 2;
        doublings = doublings + 1;
    }
    proof {
        let reached = initial_delay_ms * two_to(doublings as nat);
        let wanted = initial_delay_ms * two_to((attempt - 1) as nat);
        lemma_two_to_grows(doublings as nat, (attempt - 1) as nat);
        assert(reached <= wanted) by (nonlinear_arith)
            requires
                reached == initial_delay_ms * two_to(doublings as nat),
                wanted == initial_delay_ms * two_to((attempt - 1) as nat),
                two_to(doublings as nat) <= two_to((attempt - 1) as nat),
        ;
    }
    if delay > MAX_RECONNECT_DELAY_MS {
        MAX_RECONNECT_DELAY_MS
    } else {
        delay
    }
}

/// How an attempt to reconnect begins.
#[derive(Debug, Clone, Copy, PartialEq, Eq, Structural)]
pub enum ReconnectStep {
    /// Wait this many milliseconds, then open a fresh transport.
    Retry { delay_ms: u64 },
    /// Every allowed attempt has been used: the session ends.
    GiveUp { max_attempts: u32 },
}

impl ReconnectStep {
    /// The events that the observer is told, in order: that the session
    /// reconnects, and, where it gives up, once that it is disconnected.
    pub open spec fn events(self) -> Seq<ConnectionEvent> {
        match self {
            ReconnectStep::Retry { .. } => seq![ConnectionEvent::Reconnecting],
            ReconnectStep::GiveUp { .. } => seq![
                ConnectionEvent::Reconnecting,
                ConnectionEvent::Disconnected,
            ],
        }
    }

    /// The events to report to the observer, in order.
    pub fn reported(&self) -> (events: Vec<ConnectionEvent>)
        ensures
            events@ == self.events(),
    {
        let mut events: Vec<ConnectionEvent> = Vec::new();
        events.push(ConnectionEvent::Reconnecting);
        match self {
            ReconnectStep::Retry { .. } => {},
            ReconnectStep::GiveUp { .. } => {
                events.push(ConnectionEvent::Disconnected);
            },
        }
        proof {
            assert(events@ =~= self.events());
        }
        events
    }

    /// The error that ends the session, where the step gives up.
    pub fn error(&self) -> (error: Option<SessionError>)
        ensures
            error == match *self {
                ReconnectStep::Retry { .. } => None::<SessionError>,
                ReconnectStep::GiveUp { max_attempts } => Some(
                    SessionError::ReconnectExhausted { max_attempts },
                ),
            },
    {
        match self {
            ReconnectStep::Retry { .. } => None,
            ReconnectStep::GiveUp { max_attempts } => Some(
                SessionError::ReconnectExhausted { max_attempts: *max_attempts },
            ),
        }
    }
}

/// The state of a session once it has heard from the server at `now_ms`.
pub open spec fn heard_at(model: SessionModel, now_ms: u64) -> SessionModel {
    SessionModel { last_server_activity: now_ms, just_sent_login: false, ..model }
}

/// The state of a session after a packet other than sequenced data.
///
/// An accepted login sets the sequence counter to the number the server
/// confirmed, if it is one, and clears the count of reconnection attempts; a
/// server heartbeat asks for an answer; every other packet only counts as
/// a sign of life.
pub open spec fn after_control_packet(
    model: SessionModel,
    packet: ServerPacketModel,
    now_ms: u64,
) -> SessionModel {
    match packet {
        ServerPacketModel::LoginAccepted { session, sequence_number } => SessionModel {
            current_sequence: match parsed_u64(sequence_number) {
                Some(confirmed) => confirmed,
                None => model.current_sequence,
            },
            reconnect_attempts: 0,
            ..heard_at(model, now_ms)
        },
        ServerPacketModel::ServerHeartbeat => SessionModel {
            pending_server_heartbeat: true,
            ..heard_at(model, now_ms)
        },
        _ => heard_at(model, now_ms),
    }
}

/// Whether a packet other than sequenced data ends the session, and why.
pub open spec fn control_result(packet: ServerPacketModel) -> Result<(), SessionError> {
    match packet {
        ServerPacketModel::LoginRejected { reason } => Err(SessionError::LoginRejected { reason }),
        ServerPacketModel::EndOfSession => Err(SessionError::EndOfSession),
        _ => Ok(()),
    }
}

/// The state of a session after a sequenced-data packet: the counter has
/// moved on by one.
pub open spec fn after_sequenced_packet(model: SessionModel, now_ms: u64) -> SessionModel {
    SessionModel {
        current_sequence: (model.current_sequence + 1) as u64,
        ..heard_at(model, now_ms)
    }
}

/// The payload of a packet: what follows its header of three bytes, the
/// length field and the type byte.
pub fn payload_of<'a>(packet: &'a [u8]) -> (payload: &'a [u8])
    requires
        packet@.len() >= 3,
    ensures
        payload@ == packet@.skip(3),
{
    let payload = &packet[3..packet.len()];
    proof {
        assert(payload@ =~= packet@.skip(3));
    }
    payload
}

/// Builds what goes on the output queue for a sequenced packet from what
/// the decoder returned: the sequence number, the raw packet, the decoded
/// message and the trace. A decoder's failure ends the session.
pub fn sequenced_entry<T>(
    sequence: u64,
    packet_bytes: Bytes,
    decoded: Result<T, std::io::Error>,
    trace: TraceData,
) -> (entry: Result<PacketData<T>, SessionError>)
    ensures
        decoded matches Ok(message) ==> entry == Ok::<PacketData<T>, SessionError>(
            (sequence, packet_bytes, message, Some(trace)),
        ),
        decoded is Err ==> entry matches Err(SessionError::Decode { .. }),
{
    match decoded {
        Ok(message) => Ok((sequence, packet_bytes, message, Some(trace))),
        Err(error) => Err(SessionError::Decode { message: failure_message(&error) }),
    }
}

/// The state of a session once the packet at the front of the received
/// bytes has been taken off and handled.
pub open spec fn after_front_packet(model: SessionModel, now_ms: u64) -> SessionModel {
    let packet = first_packet(model.buffer);
    let taken = SessionModel { buffer: after_first_packet(model.buffer), ..model };
    if packet[2] == TYPE_SEQUENCED_DATA {
        after_sequenced_packet(taken, now_ms)
    } else {
        after_control_packet(taken, server_packet_of(packet[2], packet.skip(3)), now_ms)
    }
}

/// The state of a session once `count` packets have been taken off the
/// front of the received bytes and handled, one after another.
pub open spec fn after_front_packets(model: SessionModel, count: nat, now_ms: u64) -> SessionModel
    decreases count,
{
    if count == 0 {
        model
    } else {
        after_front_packet(after_front_packets(model, (count - 1) as nat, now_ms), now_ms)
    }
}

/// How the handling of the received packets ended.
#[derive(Debug)]
pub enum Drain {
    /// No complete packet is left.
    Drained,
    /// A packet ended the session.
    Failed(SessionError),
    /// The packet at the front cannot be handled and was left there.
    Refused,
}

/// Whether the packet at the front of the received bytes is complete and
/// cannot be handled: it ends before its type byte, or it is sequenced data
/// and the sequence counter has reached the end of its range.
pub open spec fn unprocessable(model: SessionModel) -> bool {
    &&& has_complete_packet(model.buffer)
    &&& (first_packet(model.buffer).len() < 3 || (model.buffer[2] == TYPE_SEQUENCED_DATA
        && model.current_sequence == u64::MAX))
}

/// Whether the packet at the front of the received bytes is complete and
/// can be handled.
pub open spec fn front_can_be_handled(model: SessionModel) -> bool {
    has_complete_packet(model.buffer) && !unprocessable(model)
}

/// Whether the packet at the front of the received bytes is sequenced data.
pub open spec fn front_is_sequenced(model: SessionModel) -> bool {
    first_packet(model.buffer)[2] == TYPE_SEQUENCED_DATA
}

/// Whether the control packet at the front of the received bytes ends the
/// session, and why.
pub open spec fn front_control_result(model: SessionModel) -> Result<(), SessionError> {
    let packet = first_packet(model.buffer);
    control_result(server_packet_of(packet[2], packet.skip(3)))
}

/// Whether the session goes on after the packet at the front, as far as
/// the packet alone decides: a control packet at the front does not end it.
pub open spec fn front_goes_on(model: SessionModel) -> bool {
    !front_is_sequenced(model) ==> front_control_result(model) is Ok
}

/// Whether the packet at the front can end the session with `error`: a
/// control packet with the error that it stands for, sequenced data with a
/// failure of the decoder or of the queue.
pub open spec fn front_fails_with(model: SessionModel, error: SessionError) -> bool {
    if front_is_sequenced(model) {
        error is Decode || error == SessionError::QueueDisconnected
    } else {
        front_control_result(model) == Err::<(), SessionError>(error)
    }
}

/// Whether handling `count` packets off the front of the received bytes of
/// `model`, one after another, can end as `outcome` says.
///
/// Every packet handled was complete and could be handled, and none before
/// the last was a control packet that ends the session. Where the outcome
/// is a failure, the last packet is the one that failed, with that error;
/// else the last packet did not end the session either, and what stopped
/// the handling is the state that was reached: no complete packet is left,
/// or the one at the front cannot be handled.
pub open spec fn is_run_of(model: SessionModel, count: nat, outcome: Drain, now_ms: u64) -> bool {
    &&& forall|j: nat|
        j < count ==> front_can_be_handled(#[trigger] after_front_packets(model, j, now_ms))
    &&& forall|j: nat|
        j + 1 < count ==> front_goes_on(#[trigger] after_front_packets(model, j, now_ms))
    &&& match outcome {
        Drain::Failed(error) => count >= 1 && front_fails_with(
            after_front_packets(model, (count - 1) as nat, now_ms),
            error,
        ),
        Drain::Drained => {
            &&& count >= 1 ==> front_goes_on(
                after_front_packets(model, (count - 1) as nat, now_ms),
            )
            &&& !has_complete_packet(after_front_packets(model, count, now_ms).buffer)
        },
        Drain::Refused => {
            &&& count >= 1 ==> front_goes_on(
                after_front_packets(model, (count - 1) as nat, now_ms),
            )
            &&& unprocessable(after_front_packets(model, count, now_ms))
        },
    }
}

/// The login request that resumes a session behind its last sequenced packet.
pub open spec fn resume_login_model(model: SessionModel) -> ClientPacketModel {
    ClientPacketModel::LoginRequest {
        username: model.username,
        password: model.password,
        session_id: model.session,
        sequence_number: decimal_text((model.current_sequence + 1) as nat),
    }
}

impl<T, P: PacketParser<T>> Session<T, P> {
    /// What the decoder is told besides the payload: the feed that the
    /// session carries and the last timestamp that the feed announced.
    pub fn decoder_context(&self) -> (context: PacketContext<'_>)
        ensures
            context.feed_type matches Some(feed) && *feed == self@.feed_type,
            context.last_timestamp == Some(self@.last_known_timestamp),
    {
        PacketContext {
            feed_type: Some(&self.feed_type),
            last_timestamp: Some(self.last_known_timestamp),
        }
    }

    /// The trace that goes with a decoded message: a copy of the trace of
    /// the bytes received last, or, where none were received, a trace that
    /// starts now in the calling thread's context.
    pub fn message_trace(&self) -> (trace: TraceData)
        ensures
            self@.trace matches Some(kept) ==> trace == kept,
    {
        match &self.current_trace {
            Some(kept) => kept.clone(),
            None => TraceData::with_current_context(),
        }
    }

    /// Builds what goes on the output queue for the sequenced packet that
    /// was counted last, from what the decoder returned: the number of the
    /// packet, its raw bytes, the decoded message and the trace of its
    /// receipt. A decoder's failure ends the session.
    pub fn sequenced_message(
        &self,
        packet_bytes: Bytes,
        decoded: Result<T, std::io::Error>,
    ) -> (entry: Result<PacketData<T>, SessionError>)
        ensures
            decoded matches Ok(message) ==> {
                &&& entry matches Ok(queued)
                &&& queued.0 == self@.current_sequence
                &&& queued.1 == packet_bytes
                &&& queued.2 == message
                &&& queued.3 is Some
                &&& self@.trace matches Some(kept) ==> queued.3 == Some(kept)
            },
            decoded is Err ==> entry matches Err(SessionError::Decode { .. }),
    {
        let trace = self.message_trace();
        sequenced_entry(self.current_sequence, packet_bytes, decoded, trace)
    }

    /// Handles one packet that `try_parse_packet` returned.
    ///
    /// Sequenced data moves the sequence counter on by one; its payload, as
    /// `payload_of` cuts it, goes to the decoder with the context that
    /// `decoder_context` makes, and the entry that `sequenced_message` builds
    /// goes to the output queue, waiting for room if the queue is full. The session ends if the decoder fails
    /// or the queue is disconnected. Every other packet is decoded here: an
    /// accepted login sets the counter and clears the reconnection attempts, a
    /// server heartbeat asks for an answer, a rejected login and the end of
    /// the session end it, and all else is ignored.
    pub fn process_packet(&mut self, packet_type: u8, packet_bytes: Bytes, now_ms: u64) -> (result:
        Result<(), SessionError>)
        requires
            frozen_bytes(packet_bytes).len() >= 3,
            packet_type == TYPE_SEQUENCED_DATA ==> old(self)@.current_sequence < u64::MAX,
        ensures
            packet_type == TYPE_SEQUENCED_DATA ==> {
                &&& final(self)@ == after_sequenced_packet(old(self)@, now_ms)
                &&& (result is Ok || result matches Err(SessionError::Decode { .. }) || result
                    == Err::<(), SessionError>(SessionError::QueueDisconnected))
            },
            packet_type != TYPE_SEQUENCED_DATA ==> {
                let packet = server_packet_of(packet_type, frozen_bytes(packet_bytes).skip(3));
                &&& final(self)@ == after_control_packet(old(self)@, packet, now_ms)
                &&& result == control_result(packet)
            },
    {
        self.last_server_activity = now_ms;
        self.just_sent_login = false;
        if packet_type == TYPE_SEQUENCED_DATA {
            self.current_sequence = self.current_sequence + 1;
            let decoded = self.parser.parse(
                payload_of(frozen_slice(&packet_bytes)),
                self.decoder_context(),
            );
            match self.sequenced_message(packet_bytes, decoded) {
                Ok(entry) => {
                    if deliver(&self.packet_sender, entry) {
                        Ok(())
                    } else {
                        Err(SessionError::QueueDisconnected)
                    }
                },
                Err(error) => Err(error),
            }
        } else {
            let payload = payload_of(frozen_slice(&packet_bytes));
            match ServerPacket::parse(packet_type, payload) {
                ServerPacket::LoginAccepted { session, sequence_number } => {
                    match parse_u64_text(sequence_number) {
                        Some(confirmed) => {
                            self.current_sequence = confirmed;
                        },
                        None => {},
                    }
                    self.reconnect_attempts = 0;
                    Ok(())
                },
                ServerPacket::LoginRejected { reason } => Err(
                    SessionError::LoginRejected { reason },
                ),
                ServerPacket::ServerHeartbeat => {
                    self.pending_server_heartbeat = true;
                    Ok(())
                },
                ServerPacket::EndOfSession => Err(SessionError::EndOfSession),
                _ => Ok(()),
            }
        }
    }

    /// Handles the complete packets that have been received, one after
    /// another, until none is left, one ends the session, or one cannot be
    /// handled: a packet that ends before its type byte, or sequenced data
    /// when the sequence counter has reached the end of its range. Such a
    /// packet stays at the front of the received bytes.
    pub fn process_buffered(&mut self, now_ms: u64) -> (outcome: Drain)
        ensures
            exists|count: nat|
                final(self)@ == #[trigger] after_front_packets(old(self)@, count, now_ms)
                    && is_run_of(old(self)@, count, outcome, now_ms),
            !has_complete_packet(old(self)@.buffer) ==> outcome is Drained && final(self)@ == old(
                self,
            )@,
            final(self)@.buffer.len() <= old(self)@.buffer.len(),
    {
        let ghost mut handled: nat = 0;
        loop
            invariant
                self@ == after_front_packets(old(self)@, handled, now_ms),
                self@.buffer.len() <= old(self)@.buffer.len(),
                forall|j: nat|
                    j < handled ==> front_can_be_handled(
                        #[trigger] after_front_packets(old(self)@, j, now_ms),
                    ),
                forall|j: nat|
                    j < handled ==> front_goes_on(
                        #[trigger] after_front_packets(old(self)@, j, now_ms),
                    ),
            decreases self@.buffer.len(),
        {
            let ghost before = self@;
            if buffer_len(&self.read_buf) >= 3 {
                let held = buffer_slice(&self.read_buf);
                let announced: usize = (held[0] as usize) * 256 + (held[1] as usize);
                if held.len() >= 2 + announced && (announced == 0 || (held[2]
                    == TYPE_SEQUENCED_DATA && self.current_sequence == u64::MAX)) {
                    proof {
                        assert(unprocessable(before));
                        assert(is_run_of(old(self)@, handled, Drain::Refused, now_ms));
                        if handled == 0 {
                            assert(before == old(self)@);
                        } else {
                            assert(front_can_be_handled(
                                after_front_packets(old(self)@, 0, now_ms),
                            ));
                        }
                    }
                    return Drain::Refused;
                }
            }
            match self.try_parse_packet() {
                None => {
                    proof {
                        assert(is_run_of(old(self)@, handled, Drain::Drained, now_ms));
                        if handled > 0 {
                            assert(front_can_be_handled(
                                after_front_packets(old(self)@, 0, now_ms),
                            ));
                        }
                    }
                    return Drain::Drained;
                },
                Some((packet_type, packet_bytes)) => {
                    proof {
                        assert(frozen_bytes(packet_bytes)[2] == before.buffer[2]);
                        assert(front_can_be_handled(before));
                    }
                    let result = self.process_packet(packet_type, packet_bytes, now_ms);
                    proof {
                        assert(self@ == after_front_packet(before, now_ms));
                        assert(front_can_be_handled(after_front_packets(old(self)@, 0, now_ms)))
                            by {
                            if handled == 0 {
                                assert(before == old(self)@);
                            }
                        }
                    }
                    match result {
                        Ok(()) => {
                            proof {
                                assert(front_goes_on(before));
                                handled = handled + 1;
                            }
                        },
                        Err(error) => {
                            proof {
                                assert(front_fails_with(before, error));
                                assert(is_run_of(
                                    old(self)@,
                                    handled + 1,
                                    Drain::Failed(error),
                                    now_ms,
                                ));
                                assert(self@ == after_front_packets(
                                    old(self)@,
                                    handled + 1,
                                    now_ms,
                                ));
                            }
                            return Drain::Failed(error);
                        },
                    }
                },
            }
        }
    }

    /// Begins an attempt to reconnect after the connection was lost.
    ///
    /// Where every allowed attempt has been used, the session gives up and
    /// is left as it is. Otherwise the attempt is counted and the step says
    /// how long to wait before a fresh transport is opened.
    pub fn try_reconnect(&mut self) -> (step: ReconnectStep)
        ensures
            step == reconnect_step_of(old(self)@),
            final(self)@ == after_reconnect_attempt(old(self)@),
    {
        if self.reconnect_attempts >= self.max_attempts {
            return ReconnectStep::GiveUp { max_attempts: self.max_attempts };
        }
        self.reconnect_attempts = self.reconnect_attempts + 1;
        ReconnectStep::Retry {
            delay_ms: reconnect_delay(self.initial_delay_ms, self.reconnect_attempts),
        }
    }

    /// Starts over on a fresh transport: what was received and not framed
    /// is dropped, no heartbeat is owed, and the login request that is
    /// returned asks to resume one past the last sequenced packet.
    pub fn resume_login(&mut self) -> (login: Vec<u8>)
        ensures
            login@ == resume_login_model(old(self)@).wire_bytes(),
            final(self)@ == (SessionModel {
                buffer: Seq::empty(),
                pending_server_heartbeat: false,
                just_sent_login: true,
                ..old(self)@
            }),
    {
        buffer_clear(&mut self.read_buf);
        self.pending_server_heartbeat = false;
        let sequence = decimal_string(self.current_sequence as u128 + 1);
        let login = (ClientPacket::LoginRequest {
            username: self.username.as_str(),
            password: self.password.as_str(),
            session_id: self.session.as_str(),
            sequence_number: sequence.as_str(),
        }).to_bytes();
        self.just_sent_login = true;
        login
    }

    /// Records that the first login went out whole at `now_ms`, and
    /// returns the event that the observer is owed for it: the session is
    /// connected.
    pub fn connected(&mut self, now_ms: u64) -> (event: ConnectionEvent)
        ensures
            event == ConnectionEvent::Connected,
            final(self)@ == (SessionModel { last_heartbeat_sent: now_ms, ..old(self)@ }),
    {
        self.last_heartbeat_sent = now_ms;
        ConnectionEvent::Connected
    }

    /// Records that the resuming login went out whole at `now_ms`, and
    /// returns the event that the observer is owed for it: the session is
    /// connected again.
    pub fn reconnected(&mut self, now_ms: u64) -> (event: ConnectionEvent)
        ensures
            event == ConnectionEvent::Reconnected,
            final(self)@ == (SessionModel {
                last_heartbeat_sent: now_ms,
                last_server_activity: now_ms,
                ..old(self)@
            }),
    {
        self.last_heartbeat_sent = now_ms;
        self.last_server_activity = now_ms;
        ConnectionEvent::Reconnected
    }
}

/// How an attempt to reconnect begins in a given state.
pub open spec fn reconnect_step_of(model: SessionModel) -> ReconnectStep {
    if model.reconnect_attempts >= model.max_attempts {
        ReconnectStep::GiveUp { max_attempts: model.max_attempts }
    } else {
        ReconnectStep::Retry {
            delay_ms: backoff_delay(
                model.initial_delay_ms,
                (model.reconnect_attempts + 1) as u32,
            ) as u64,
        }
    }
}

/// The state of a session once an attempt to reconnect has begun.
pub open spec fn after_reconnect_attempt(model: SessionModel) -> SessionModel {
    if model.reconnect_attempts >= model.max_attempts {
        model
    } else {
        SessionModel { reconnect_attempts: (model.reconnect_attempts + 1) as u32, ..model }
    }
}

/// The state of a session after `count` attempts to reconnect in a row,
/// none of which brought an accepted login.
pub open spec fn after_reconnect_attempts(model: SessionModel, count: nat) -> SessionModel
    decreases count,
{
    if count == 0 {
        model
    } else {
        after_reconnect_attempt(after_reconnect_attempts(model, (count - 1) as nat))
    }
}

/// The state of a session after sequenced-data packets that arrived at the
/// times `arrivals`, one after another.
pub open spec fn after_sequenced_packets(model: SessionModel, arrivals: Seq<u64>) -> SessionModel
    decreases arrivals.len(),
{
    if arrivals.len() == 0 {
        model
    } else {
        after_sequenced_packet(
            after_sequenced_packets(model, arrivals.drop_last()),
            arrivals.last(),
        )
    }
}

/// Sequenced packets are numbered without gaps: the packet that arrives as
/// the `k`-th of a run gets the number of the last packet before the run
/// plus `k`.
pub proof fn lemma_sequence_has_no_gaps(model: SessionModel, arrivals: Seq<u64>)
    requires
        model.current_sequence + arrivals.len() <= u64::MAX,
    ensures
        after_sequenced_packets(model, arrivals).current_sequence == model.current_sequence
            + arrivals.len(),
        forall|k: int|
            0 <= k <= arrivals.len() ==> (#[trigger] after_sequenced_packets(
                model,
                arrivals.take(k),
            )).current_sequence == model.current_sequence + k,
    decreases arrivals.len(),
{
    if arrivals.len() > 0 {
        lemma_sequence_has_no_gaps(model, arrivals.drop_last());
        assert forall|k: int| 0 <= k <= arrivals.len() implies (#[trigger] after_sequenced_packets(
            model,
            arrivals.take(k),
        )).current_sequence == model.current_sequence + k by {
            if k == arrivals.len() {
                assert(arrivals.take(k) =~= arrivals);
            } else {
                assert(arrivals.take(k) =~= arrivals.drop_last().take(k));
            }
        }
    } else {
        assert forall|k: int| 0 <= k <= arrivals.len() implies (#[trigger] after_sequenced_packets(
            model,
            arrivals.take(k),
        )).current_sequence == model.current_sequence + k by {
            assert(arrivals.take(k) =~= arrivals);
        }
    }
}

/// A session that resumes asks for the packet one past the last it
/// numbered, and an accepted login sets the counter to the number that the
/// server confirms, whatever the counter was.
pub proof fn lemma_resume_and_confirm(
    model: SessionModel,
    session: Seq<char>,
    sequence_number: Seq<char>,
    confirmed: u64,
    now_ms: u64,
)
    requires
        parsed_u64(sequence_number) == Some(confirmed),
    ensures
        resume_login_model(model) matches ClientPacketModel::LoginRequest {
            sequence_number: requested,
            ..
        } && requested == decimal_text((model.current_sequence + 1) as nat),
        after_control_packet(
            model,
            ServerPacketModel::LoginAccepted { session, sequence_number },
            now_ms,
        ).current_sequence == confirmed,
        after_control_packet(
            model,
            ServerPacketModel::LoginAccepted { session, sequence_number },
            now_ms,
        ).reconnect_attempts == 0,
{
}

/// Attempt `k` of a run of reconnection attempts, counted from one, waits
/// the initial delay doubled `k - 1` times and capped at
/// `MAX_RECONNECT_DELAY_MS`, as long as `k` is within the allowed attempts.
/// Once the allowed attempts are used, the next one gives up, and the
/// observer is told exactly once that the session is disconnected.
pub proof fn lemma_backoff_schedule(model: SessionModel, k: nat)
    requires
        model.reconnect_attempts == 0,
        1 <= k <= model.max_attempts,
    ensures
        after_reconnect_attempts(model, k).reconnect_attempts == k,
        reconnect_step_of(after_reconnect_attempts(model, (k - 1) as nat)) == (ReconnectStep::Retry {
            delay_ms: backoff_delay(model.initial_delay_ms, k as u32) as u64,
        }),
        0 <= backoff_delay(model.initial_delay_ms, k as u32) <= MAX_RECONNECT_DELAY_MS,
        reconnect_step_of(after_reconnect_attempts(model, model.max_attempts as nat)) == (
        ReconnectStep::GiveUp { max_attempts: model.max_attempts }),
        (ReconnectStep::GiveUp { max_attempts: model.max_attempts }).events() == seq![
            ConnectionEvent::Reconnecting,
            ConnectionEvent::Disconnected,
        ],
        (ReconnectStep::Retry {
            delay_ms: backoff_delay(model.initial_delay_ms, k as u32) as u64,
        }).events() == seq![ConnectionEvent::Reconnecting],
{
    lemma_reconnect_attempts_count(model, (k - 1) as nat);
    lemma_reconnect_attempts_count(model, k);
    lemma_reconnect_attempts_count(model, model.max_attempts as nat);
}

/// Attempts to reconnect are counted one by one up to the allowed number,
/// and change nothing else.
pub proof fn lemma_reconnect_attempts_count(model: SessionModel, count: nat)
    requires
        model.reconnect_attempts == 0,
        count <= model.max_attempts,
    ensures
        after_reconnect_attempts(model, count) == (SessionModel {
            reconnect_attempts: count as u32,
            ..model
        }),
    decreases count,
{
    if count > 0 {
        lemma_reconnect_attempts_count(model, (count - 1) as nat);
    }
}

} // verus!

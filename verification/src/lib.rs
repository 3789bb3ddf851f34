//! A client for market-data feeds that speak SoupBinTCP: packets with a
//! length in front, sessions with login and heartbeats, and sequenced data
//! that is delivered in order and without gaps.
//!
//! The library holds what is decided and computed: the wire format of the
//! packets, the framing of a stream of bytes, the state of a session and its
//! answers to what happens on the connection, the batching of received bytes,
//! and the value types of the feeds. It moves no bytes itself: its caller
//! owns the sockets, the clock and the threads, tells the session what
//! happened, and does what the session answers.

pub mod buffer;
pub mod channel;
pub mod config;
pub mod connection_error;
pub mod constants;
pub mod data_feed_type;
pub mod date;
pub mod elapsed_nanos;
pub mod error;
pub mod framing;
pub mod http_settings;
pub mod nanosecond;
pub mod packet;
pub mod parser_int;
pub mod parser_uint;
pub mod parsing;
pub mod pool;
pub mod price;
pub mod properties;
pub mod queue;
pub mod second;
pub mod session;
pub mod string;
pub mod task_error;
pub mod text;
pub mod time;
pub mod trace;
pub mod transport;
pub mod utils;
pub mod uuid_generator;

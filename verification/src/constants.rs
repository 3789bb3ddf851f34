use vstd::prelude::*;

verus! {

/// Initial capacity of an accumulation buffer (8 KiB).
pub const DEFAULT_BUFFER_CAPACITY: usize = 8192;

/// Spare capacity that must be available before a read is issued (1 KiB).
pub const MIN_SPARE_CAPACITY: usize = 1024;

/// Capacity above which a mostly empty buffer is replaced by a smaller one (8 MiB).
pub const MAX_BUFFER_CAPACITY: usize = 8388608;

/// Size of the big-endian length field that starts every packet.
pub const SOUPBINTCP_LENGTH_SIZE: usize = 2;

/// Smallest packet header: the length field and the type byte.
pub const SOUPBINTCP_MIN_HEADER: usize = 3;

/// Seconds of server silence after which a connection counts as inactive.
pub const SOUPBINTCP_INACTIVITY_TIMEOUT_SECS: u64 = 15;

/// Largest number of chunks handed over in one batch by the reader thread.
pub const MIO_BATCH_SIZE: usize = 100;

/// Poll timeout of the reader thread in milliseconds.
pub const MIO_POLL_TIMEOUT_MS: u64 = 10;

/// Largest number of chunks per batch read.
pub const BATCH_READ_MAX_CHUNKS: usize = 32;

/// Largest number of bytes per batch read (64 KiB).
pub const BATCH_READ_MAX_BYTES: usize = 65536;

/// Capacity of one pooled buffer (2 KiB).
pub const BUFFER_POOL_CAPACITY: usize = 2048;

/// Largest number of pooled buffers.
pub const BUFFER_POOL_MAX_SIZE: usize = 1000;

/// Reconnection attempts allowed before the session gives up.
pub const DEFAULT_MAX_RECONNECT_ATTEMPTS: u32 = 5;

/// Delay before the first reconnection attempt, in milliseconds.
pub const DEFAULT_RECONNECT_DELAY_MS: u64 = 1000;

/// Ceiling of the reconnection delay, in milliseconds (30 seconds).
pub const MAX_RECONNECT_DELAY_MS: u64 = 30000;

/// Seconds between two periodic client heartbeats.
pub const DEFAULT_HEARTBEAT_INTERVAL_SECS: u64 = 5;

} // verus!

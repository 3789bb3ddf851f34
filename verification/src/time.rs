use vstd::prelude::*;
use chrono::{FixedOffset, TimeZone, Utc};

verus! {

/// The nanoseconds in one second.
pub const NANO_PER_SEC: u64 = 1_000_000_000;

/// The offset of Jakarta's time from UTC, in seconds: seven hours east.
pub const JAKARTA_OFFSET_SECS: i32 = 25200;

/// The first second that a date and time can hold: the start of the year -262143.
pub const MIN_TIMESTAMP_SECS: i64 = -8_334_601_228_800;

/// The last second that a date and time can hold: the end of the year 262142.
pub const MAX_TIMESTAMP_SECS: i64 = 8_210_266_876_799;

/// The last second that a date and time can hold, as an unsigned count.
pub const MAX_UNIX_SECONDS: u64 = 8_210_266_876_799;

/// The first count of seconds that, read as a signed number, lies before
/// the Unix epoch and within what a date and time can hold: the start of
/// the year -262143, which is 8,334,601,228,800 seconds before the epoch.
pub const FIRST_SECOND_BEFORE_EPOCH: u64 = 18_446_735_739_108_322_816;

/// Whether a count of seconds names a moment that a date and time can
/// hold. A count of more than 63 bits is read as a signed number and names
/// a moment before the Unix epoch.
pub open spec fn is_moment(secs: u64) -> bool {
    secs <= MAX_UNIX_SECONDS || secs >= FIRST_SECOND_BEFORE_EPOCH
}

/// A count of seconds read as a signed number of 64 bits.
pub open spec fn signed_seconds(secs: u64) -> i64 {
    if secs <= i64::MAX {
        secs as i64
    } else {
        (secs - 0x1_0000_0000_0000_0000) as i64
    }
}

/// Reads a count of seconds as a signed number of 64 bits.
pub fn as_signed_seconds(secs: u64) -> (signed: i64)
    ensures
        signed == signed_seconds(secs),
        is_moment(secs) <==> MIN_TIMESTAMP_SECS <= signed <= MAX_TIMESTAMP_SECS,
{
    if secs <= 0x7FFF_FFFF_FFFF_FFFF {
        secs as i64
    } else {
        (secs as i128 - 0x1_0000_0000_0000_0000) as i64
    }
}

/// The RFC 3339 text of the moment `secs` seconds and `nanos` nanoseconds
/// from the Unix epoch, as clocks `offset_secs` seconds east of UTC show it.
pub uninterp spec fn rfc3339_at_offset(secs: i64, nanos: u32, offset_secs: i32) -> Seq<char>;

/// `FixedOffset::east_opt`, `Utc.timestamp_opt`, `DateTime::with_timezone`
/// and `DateTime::to_rfc3339` in a row: the moment is built in UTC, moved to
/// the offset and written as RFC 3339 text. An offset exists for less than a
/// day either way; a moment exists for every second from the start of the
/// year -262143 to the end of the year 262142 and every count of nanoseconds
/// below one second.
#[verifier::external_body]
pub(crate) fn rfc3339_string(secs: i64, nanos: u32, offset_secs: i32) -> (text: String)
    requires
        MIN_TIMESTAMP_SECS <= secs <= MAX_TIMESTAMP_SECS,
        nanos < NANO_PER_SEC,
        -86_400 < offset_secs < 86_400,
    ensures
        text@ == rfc3339_at_offset(secs, nanos, offset_secs),
{
    let offset = FixedOffset::east_opt(offset_secs).expect("Invalid offset.");
    let moment = Utc.timestamp_opt(secs, nanos).single().expect("valid timestamp");
    moment.with_timezone(&offset).to_rfc3339()
}

} // verus!

//! Points in time, as a count of nanoseconds and as seconds with a
//! nanosecond part.

use vstd::prelude::*;

verus! {

/// Nanoseconds in a second.
pub const SECOND_TO_NANOS: u64 = 1_000_000_000;

/// Largest nanosecond part.
pub const MAX_NANOS: u64 = 999_999_999;

/// Largest number of seconds: the last second of the year 9999.
pub const MAX_SECONDS: u64 = 253_402_300_799;

/// A point in time: seconds since the epoch, and nanoseconds within the
/// second.
#[derive(Clone, Copy, Debug, PartialEq, Eq, Structural)]
pub struct Timestamp {
    pub seconds: i64,
    pub nanos: i32,
}

/// `value`, held to the range from zero to `max`.
pub open spec fn clamped(value: int, max: int) -> int {
    if value < 0 {
        0
    } else if value > max {
        max
    } else {
        value
    }
}

/// The nanoseconds since the epoch that `t` stands for. Seconds and
/// nanosecond part are each held to their range first.
pub open spec fn nanos_since_epoch(t: Timestamp) -> int {
    clamped(t.seconds as int, MAX_SECONDS as int) * SECOND_TO_NANOS + clamped(
        t.nanos as int,
        MAX_NANOS as int,
    )
}

/// Splits a count of nanoseconds into seconds and nanosecond part.
pub fn u64_to_prost_timestamp(data: u64) -> (t: Timestamp)
    ensures
        t.seconds == data / SECOND_TO_NANOS,
        t.nanos == data % SECOND_TO_NANOS,
        nanos_since_epoch(t) == data,
{
    Timestamp { seconds: (data / SECOND_TO_NANOS) as i64, nanos: (data % SECOND_TO_NANOS) as i32 }
}

/// The count of nanoseconds that `data` stands for.
///
/// The count has to fit in 64 bits, which it does up to the year 2554.
pub fn prost_timestamp_to_u64(data: &Timestamp) -> (n: u64)
    requires
        nanos_since_epoch(*data) <= u64::MAX,
    ensures
        n == nanos_since_epoch(*data),
{
    let seconds: u64 = if data.seconds < 0 {
        0
    } else if data.seconds as u64 > MAX_SECONDS {
        MAX_SECONDS
    } else {
        data.seconds as u64
    };
    let nanos: u64 = if data.nanos < 0 {
        0
    } else if data.nanos as u64 > MAX_NANOS {
        MAX_NANOS
    } else {
        data.nanos as u64
    };
    assert(seconds * SECOND_TO_NANOS + nanos == nanos_since_epoch(*data)) by (nonlinear_arith)
        requires
            seconds == clamped(data.seconds as int, MAX_SECONDS as int),
            nanos == clamped(data.nanos as int, MAX_NANOS as int),
            nanos_since_epoch(*data) == clamped(data.seconds as int, MAX_SECONDS as int)
                * SECOND_TO_NANOS + clamped(data.nanos as int, MAX_NANOS as int),
    ;
    seconds * SECOND_TO_NANOS + nanos
}

} // verus!

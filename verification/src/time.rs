//! Timestamps are carried as microseconds since the Unix epoch.

use vstd::prelude::*;

verus! {

pub const MICROS_PER_SECOND: i64 = 1_000_000;

/// The UTC instant `micros` shifted by `seconds`, in microseconds, as
/// `chrono` computes it, or `None` when either instant is outside chrono's
/// calendar range.
pub uninterp spec fn chrono_shifted_micros(micros: i64, seconds: i64) -> Option<i64>;

/// The largest magnitude `chrono::Duration::seconds` accepts.
pub const MAX_DURATION_SECONDS: i64 = 9_223_372_036_854_775;

/// Calls `DateTime::<Utc>::from_timestamp_micros`, `checked_add_signed`
/// with `Duration::seconds`, and `timestamp_micros`.  Trusted: the result is
/// `chrono_shifted_micros` of the arguments, and when present it is exactly
/// the instant `seconds` later.  `Duration::seconds` panics beyond
/// `MAX_DURATION_SECONDS`, which `requires` rules out.
#[verifier::external_body]
pub(crate) fn chrono_add_seconds(micros: i64, seconds: i64) -> (shifted: Option<i64>)
    requires
        -MAX_DURATION_SECONDS <= seconds <= MAX_DURATION_SECONDS,
    ensures
        shifted == chrono_shifted_micros(micros, seconds),
        shifted is Some ==> shifted->0 == micros + seconds * MICROS_PER_SECOND,
{
    chrono::DateTime::<chrono::Utc>::from_timestamp_micros(micros)
        .and_then(|instant| instant.checked_add_signed(chrono::Duration::seconds(seconds)))
        .map(|instant| instant.timestamp_micros())
}

/// Whole seconds since the epoch (rounded toward negative infinity), as
/// `DateTime::timestamp` reports them.
pub fn unix_seconds(micros: i64) -> (seconds: i64)
    ensures
        seconds == micros / MICROS_PER_SECOND,
{
    if micros >= 0 {
        micros / MICROS_PER_SECOND
    } else {
        let magnitude = -(micros + 1);
        let q = magnitude / MICROS_PER_SECOND;
        assert(micros / 1_000_000 == -q - 1) by (nonlinear_arith)
            requires
                magnitude == -(micros + 1),
                micros < 0,
                q == magnitude / 1_000_000,
        ;
        -q - 1
    }
}

/// The earlier of two instants.
pub fn earliest(a: i64, b: i64) -> (result: i64)
    ensures
        result == if a <= b { a } else { b },
{
    if a <= b {
        a
    } else {
        b
    }
}

} // verus!

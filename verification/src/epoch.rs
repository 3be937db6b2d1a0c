//! Epoch conventions of the two cookie stores.
//!
//! Chromium-family stores count microseconds since 1601-01-01T00:00:00Z;
//! a Unix-microsecond timestamp converts by adding a fixed offset.
//! Gecko-family stores mix units: expiry is Unix seconds, while creation
//! and access times are Unix microseconds. The two units must never be
//! conflated.

use vstd::prelude::*;

verus! {

/// Microseconds between 1601-01-01T00:00:00Z and 1970-01-01T00:00:00Z.
pub const CHROMIUM_EPOCH_OFFSET_MICROS: i64 = 11_644_473_600_000_000;

/// The fixed expiry horizon: thirty days, in microseconds.
pub const THIRTY_DAYS_MICROS: i64 = 2_592_000_000_000;

pub const MICROS_PER_SECOND: i64 = 1_000_000;

/// Converts a Unix-microsecond timestamp to the Chromium epoch by adding
/// the fixed offset.
pub fn to_chromium_micros(t: i64) -> (r: i64)
    requires
        0 <= t,
        t + CHROMIUM_EPOCH_OFFSET_MICROS <= i64::MAX,
    ensures
        r == t + CHROMIUM_EPOCH_OFFSET_MICROS,
{
    t + CHROMIUM_EPOCH_OFFSET_MICROS
}

/// Recovers the Unix-microsecond timestamp from a Chromium-epoch value.
pub fn from_chromium_micros(c: i64) -> (r: i64)
    requires
        CHROMIUM_EPOCH_OFFSET_MICROS <= c,
    ensures
        r == c - CHROMIUM_EPOCH_OFFSET_MICROS,
{
    c - CHROMIUM_EPOCH_OFFSET_MICROS
}

/// Truncates a nonnegative Unix-microsecond timestamp to Unix seconds.
pub fn unix_micros_to_seconds(t: i64) -> (r: i64)
    requires
        0 <= t,
    ensures
        r == t as int / MICROS_PER_SECOND as int,
{
    t / MICROS_PER_SECOND
}

/// Chromium epoch conversion round-trips exactly: subtracting the fixed
/// offset from the stored value recovers the original Unix-microsecond
/// timestamp, for every timestamp.
pub proof fn lemma_chromium_epoch_round_trip(t: int)
    ensures
        (t + CHROMIUM_EPOCH_OFFSET_MICROS) - CHROMIUM_EPOCH_OFFSET_MICROS == t,
{
}

/// The two Gecko units stay distinct: for any positive instant, its
/// Unix-second truncation never equals its Unix-microsecond value, so an
/// expiry written in seconds can never be mistaken for a creation time
/// written in microseconds.
pub proof fn lemma_gecko_units_distinct(t: int)
    requires
        0 < t,
    ensures
        t / (MICROS_PER_SECOND as int) != t,
{
    let q = t / (MICROS_PER_SECOND as int);
    let r = t % (MICROS_PER_SECOND as int);
    vstd::arithmetic::div_mod::lemma_fundamental_div_mod(t, MICROS_PER_SECOND as int);
    assert(t == 1_000_000 * q + r);
    assert(0 <= r < 1_000_000);
    assert(q != t) by (nonlinear_arith)
        requires
            t == 1_000_000 * q + r,
            0 <= r < 1_000_000,
            0 < t,
    {
    }
}

} // verus!

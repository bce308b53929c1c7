//! Wall-clock readings in whole seconds since the Unix epoch, and the
//! arithmetic on them that token expiry uses.

use vstd::prelude::*;

verus! {

/// First second representable as a calendar date-time (1 January of year
/// -262143, 00:00:00 UTC).
pub const MIN_TIMESTAMP: i64 = -8334601228800i64;

/// Last second representable as a calendar date-time (31 December of year
/// 262142, 23:59:59 UTC).
pub const MAX_TIMESTAMP: i64 = 8210266876799i64;

/// Largest number of seconds that a calendar duration can hold.
pub const MAX_DURATION_SECS: i64 = 9223372036854775i64;

/// A point in time: whole seconds since the Unix epoch and the nanoseconds
/// past that second.
#[derive(Clone, Copy, Debug)]
pub struct Instant {
    pub secs: i64,
    pub nanos: u32,
}

/// Whether `secs` names a second of the calendar's range.
pub open spec fn is_representable(secs: int) -> bool {
    MIN_TIMESTAMP <= secs <= MAX_TIMESTAMP
}

/// Whether `t` is a reading that the clock can give.
pub open spec fn is_clock_reading(t: Instant) -> bool {
    &&& 0 <= t.secs <= MAX_TIMESTAMP
    &&& t.nanos < 1_000_000_000
}

/// Reads the clock.
///
/// Trusted: calls `chrono::Utc::now`, which builds the time from the system
/// clock's seconds and sub-second nanoseconds since the epoch (it panics on a
/// clock set before the epoch); the contract states only the range of every
/// reading.
#[verifier::external_body]
fn read_clock() -> (t: Instant)
    ensures
        is_clock_reading(t),
{
    let t = chrono::Utc::now();
    Instant { secs: t.timestamp(), nanos: t.timestamp_subsec_nanos() }
}

/// The current time.
pub fn current_time() -> (t: Instant)
    ensures
        is_clock_reading(t),
{
    read_clock()
}

/// Whole seconds from the second `from` to the reading `now`, truncated
/// toward zero.
pub open spec fn whole_seconds_since(from: int, now: Instant) -> int {
    let d = now.secs - from;
    if d < 0 && now.nanos > 0 {
        d + 1
    } else {
        d
    }
}

/// Whether a token whose expiry second is `exp` counts as expired at `now`:
/// `length` or more whole seconds have passed since `exp`.
pub open spec fn expired_at(exp: int, length: int, now: Instant) -> bool {
    whole_seconds_since(exp, now) >= length
}

/// Whether `length` or more whole seconds have passed from the second `exp`
/// to `now`.
pub fn is_token_expired_at(exp: i64, length: i64, now: Instant) -> (r: bool)
    requires
        is_representable(exp as int),
        is_clock_reading(now),
    ensures
        r == expired_at(exp as int, length as int, now),
{
    let d = now.secs - exp;
    let whole = if d < 0 && now.nanos > 0 {
        d + 1
    } else {
        d
    };
    whole >= length
}

/// Whether `length` or more whole seconds have passed from the second `exp`
/// to the current time.
pub fn is_token_expired(exp: i64, length: i64) -> (r: bool)
    requires
        is_representable(exp as int),
    ensures
        exists|t: Instant| is_clock_reading(t) && r == expired_at(exp as int, length as int, t),
{
    let now = current_time();
    let r = is_token_expired_at(exp, length, now);
    assert(is_clock_reading(now) && r == expired_at(exp as int, length as int, now));
    r
}

/// The second `dur` seconds after `now`, `None` where it leaves the
/// calendar's range.
pub fn seconds_after(now: Instant, dur: i64) -> (r: Option<i64>)
    requires
        is_clock_reading(now),
        -MAX_DURATION_SECS <= dur <= MAX_DURATION_SECS,
    ensures
        r is Some <==> is_representable(now.secs + dur),
        r matches Some(e) ==> e == now.secs + dur,
{
    let e = now.secs + dur;
    if MIN_TIMESTAMP <= e && e <= MAX_TIMESTAMP {
        Some(e)
    } else {
        None
    }
}

} // verus!

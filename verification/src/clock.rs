//! Time between two readings of the system clock, which counts 32768 ticks to the
//! second.

use vstd::prelude::*;

verus! {

/// Longest time, in clock ticks, that can be told in milliseconds: more than a
/// hundred thousand years.
pub const MAX_TICKS: u64 = 0x0200_0000_0000_0000;

/// Ticks from clock reading `then` to `now`; 0 if `then` is the later one.
pub open spec fn ticks_between(now: u64, then: u64) -> int {
    if now < then {
        0
    } else {
        now - then
    }
}

/// Whole milliseconds from clock reading `then` to `now`.
pub open spec fn ms_between(now: u64, then: u64) -> int {
    ticks_between(now, then) * 1000 / 32768
}

/// Whole milliseconds since boot at clock reading `now`.
pub open spec fn ms_since_boot(now: u64) -> int {
    now * 1000 / 32768
}

/// `embassy_time::Instant::as_millis`: a clock reading as milliseconds since boot,
/// rounded down. The multiplication inside stays within 64 bits up to
/// [`MAX_TICKS`].
#[verifier::external_body]
pub(crate) fn uptime_ms(now: u64) -> (r: u64)
    requires
        now <= MAX_TICKS,
    ensures
        r == ms_since_boot(now),
{
    embassy_time::Instant::from_ticks(now).as_millis()
}

/// `embassy_time::Instant::saturating_duration_since`: the ticks between two
/// readings, 0 if `then` is the later one.
#[verifier::external_body]
fn ticks_since(now: u64, then: u64) -> (r: u64)
    ensures
        r == ticks_between(now, then),
{
    embassy_time::Instant::from_ticks(now).saturating_duration_since(
        embassy_time::Instant::from_ticks(then),
    ).as_ticks()
}

/// `embassy_time::Duration::as_millis`: ticks as milliseconds, rounded down. The
/// multiplication inside stays within 64 bits up to [`MAX_TICKS`].
#[verifier::external_body]
fn ticks_to_ms(ticks: u64) -> (r: u64)
    requires
        ticks <= MAX_TICKS,
    ensures
        r == ticks * 1000 / 32768,
{
    embassy_time::Duration::from_ticks(ticks).as_millis()
}

/// Whole milliseconds from clock reading `then` to `now`.
pub fn elapsed_ms(now: u64, then: u64) -> (r: u64)
    requires
        ticks_between(now, then) <= MAX_TICKS,
    ensures
        r == ms_between(now, then),
{
    ticks_to_ms(ticks_since(now, then))
}

/// Time is told in whole milliseconds, none of them before it is over, and no time
/// passes backwards.
pub proof fn law_time_is_told_in_whole_milliseconds(now: u64, then: u64, ms: u64)
    requires
        call_ensures(elapsed_ms, (now, then), ms),
    ensures
        then <= now ==> ms * 32768 <= (now - then) * 1000 < (ms + 1) * 32768,
        now <= then ==> ms == 0,
{
}

} // verus!

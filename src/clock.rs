//! Wall-clock time of day, measured in whole nanoseconds since local midnight.

use chrono::Timelike;
use vstd::prelude::*;

verus! {

pub const NANOS_PER_SECOND: u64 = 1_000_000_000;

pub const SECONDS_PER_DAY: u64 = 86_400;

/// A second count since midnight and a nanosecond count within that second,
/// as a time of day reports them. The nanoseconds reach past one second only
/// during a leap second.
pub open spec fn valid_time_of_day(secs: nat, nanos: nat) -> bool {
    secs < SECONDS_PER_DAY && nanos < 2 * NANOS_PER_SECOND
}

/// The same time of day without a leap second.
pub open spec fn regular_time_of_day(secs: nat, nanos: nat) -> bool {
    secs < SECONDS_PER_DAY && nanos < NANOS_PER_SECOND
}

pub open spec fn time_of_day_nanos(secs: nat, nanos: nat) -> nat {
    secs * (NANOS_PER_SECOND as nat) + nanos
}

/// Lexicographic order on (seconds, nanoseconds): the order of the clock.
pub open spec fn not_later(s1: nat, n1: nat, s2: nat, n2: nat) -> bool {
    s1 < s2 || (s1 == s2 && n1 <= n2)
}

/// Relies on chrono's `Local::now().time()`, read through `Timelike`'s
/// `num_seconds_from_midnight` and `nanosecond`: a `NaiveTime` keeps its
/// seconds below 86400 and its fraction below two seconds (leap second).
#[verifier::external_body]
fn local_time_of_day() -> (r: (u32, u32))
    ensures
        valid_time_of_day(r.0 as nat, r.1 as nat),
{
    let time = chrono::Local::now().time();
    (time.num_seconds_from_midnight(), time.nanosecond())
}

/// Nanoseconds since midnight for a time of day given as seconds and
/// nanoseconds.
pub fn nanos_since_midnight_of(secs: u32, nanos: u32) -> (r: u64)
    requires
        valid_time_of_day(secs as nat, nanos as nat),
    ensures
        r as nat == time_of_day_nanos(secs as nat, nanos as nat),
{
    secs as u64 * NANOS_PER_SECOND + nanos as u64
}

/// Nanoseconds since local midnight, now. The value is below one day plus one
/// second; it exceeds one day only during a leap second at the day's end.
pub fn nanos_since_midnight() -> (r: u64)
    ensures
        exists|s: nat, n: nat| valid_time_of_day(s, n) && r as nat == time_of_day_nanos(s, n),
        r < (SECONDS_PER_DAY + 1) * NANOS_PER_SECOND,
{
    let (secs, nanos) = local_time_of_day();
    let r = nanos_since_midnight_of(secs, nanos);
    assert(valid_time_of_day(secs as nat, nanos as nat) && r as nat == time_of_day_nanos(
        secs as nat,
        nanos as nat,
    ));
    r
}

/// Outside leap seconds, a later time of day never reads as fewer nanoseconds
/// since midnight.
pub proof fn lemma_time_of_day_monotonic(s1: nat, n1: nat, s2: nat, n2: nat)
    requires
        regular_time_of_day(s1, n1),
        regular_time_of_day(s2, n2),
        not_later(s1, n1, s2, n2),
    ensures
        time_of_day_nanos(s1, n1) <= time_of_day_nanos(s2, n2),
{
    if s1 < s2 {
        assert(s1 * NANOS_PER_SECOND + NANOS_PER_SECOND <= s2 * NANOS_PER_SECOND) by (nonlinear_arith)
            requires
                s1 < s2,
        ;
    }
}

/// Every regular time of day reads below one full day, and the first second
/// of a day reads below one second: at midnight the value wraps from just
/// under 86400 seconds to under one second.
pub proof fn lemma_time_of_day_wraps(secs: nat, nanos: nat)
    requires
        regular_time_of_day(secs, nanos),
    ensures
        time_of_day_nanos(secs, nanos) < SECONDS_PER_DAY * NANOS_PER_SECOND,
        secs == 0 ==> time_of_day_nanos(secs, nanos) < NANOS_PER_SECOND,
        time_of_day_nanos((SECONDS_PER_DAY - 1) as nat, (NANOS_PER_SECOND - 1) as nat) + 1
            == SECONDS_PER_DAY * NANOS_PER_SECOND,
{
    assert(secs * NANOS_PER_SECOND + NANOS_PER_SECOND <= SECONDS_PER_DAY * NANOS_PER_SECOND) by (nonlinear_arith)
        requires
            secs < SECONDS_PER_DAY,
    ;
}

} // verus!

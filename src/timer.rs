use vstd::prelude::*;
use crate::clock::Moment;

verus! {

/// The seconds still owed on a quota of `work` seconds for a session begun at
/// `start`, at `now`; zero when the quota is just met, `None` once it is
/// passed. A clock behind the start owes the whole quota.
pub open spec fn remaining_of(work: u64, start: Moment, now: Moment) -> Option<int> {
    let elapsed = now.secs - start.secs;
    if elapsed > work {
        None
    } else if elapsed < 0 {
        Some(work as int)
    } else {
        Some(work - elapsed)
    }
}

/// The seconds still owed at `now`, or `None` once the quota is passed.
pub fn time_remaining(work: u64, start: &Moment, now: &Moment) -> (r: Option<u64>)
    ensures
        r matches Some(v) ==> remaining_of(work, *start, *now) == Some(v as int),
        r is None ==> remaining_of(work, *start, *now) is None,
{
    let elapsed: i128 = (now.secs as i128) - (start.secs as i128);
    if elapsed > work as i128 {
        None
    } else if elapsed < 0 {
        Some(work)
    } else {
        Some(((work as i128) - elapsed) as u64)
    }
}

/// Splits a count of seconds into hours, minutes and seconds.
pub fn timer_parts(secs: u64) -> (r: (u64, u64, u64))
    ensures
        r.0 == secs / 3600,
        r.1 == (secs / 60) % 60,
        r.2 == secs % 60,
        r.0 * 3600 + r.1 * 60 + r.2 == secs,
{
    let h = (secs / 60) / 60;
    let m = (secs / 60) % 60;
    let s = secs % 60;
    assert(h * 3600 + m * 60 + s == secs) by (nonlinear_arith)
        requires
            h == (secs / 60) / 60,
            m == (secs / 60) % 60,
            s == secs % 60,
    ;
    assert((secs / 60) / 60 == secs / 3600) by (nonlinear_arith);
    (h, m, s)
}

/// Whole minutes from `expected` to `started`, rounded toward zero: positive
/// when late, negative when early.
pub open spec fn lateness_of(started: int, expected: int) -> int {
    let d = started - expected;
    if d >= 0 {
        d / 60
    } else {
        -((-d) / 60)
    }
}

/// How many whole minutes a session begun at `started` came after the
/// expected start `expected_secs` (seconds since the Unix epoch); negative
/// when it came early.
pub fn lateness_minutes(started: &Moment, expected_secs: i64) -> (r: i64)
    ensures
        r == lateness_of(started.secs as int, expected_secs as int),
{
    let d: i128 = (started.secs as i128) - (expected_secs as i128);
    if d >= 0 {
        assert(d / 60 <= d);
        (d / 60) as i64
    } else {
        let n: i128 = -d;
        assert(n / 60 <= n);
        assert(n / 60 < 0x7fff_ffff_ffff_ffff) by (nonlinear_arith)
            requires
                n <= 0x1_0000_0000_0000_0000,
        ;
        -((n / 60) as i64)
    }
}

/// Work days left before the weekend, today excluded, from Monday (0) to
/// Friday (4).
pub fn days_until_weekend(weekday: u8) -> (r: u8)
    requires
        weekday < 5,
    ensures
        r == 4 - weekday,
{
    4 - weekday
}

} // verus!

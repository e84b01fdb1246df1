//! Which monitors the producer queues for a check: those not paused whose
//! last check lies at least their period in the past, or that were never
//! checked.

use vstd::prelude::*;
use super::common::{Monitor, Timestamp};

verus! {

/// Nanoseconds in a second.
pub const NANOS_PER_SEC: i128 = 1_000_000_000;

/// Seconds in a day.
pub const SECS_PER_DAY: i64 = 86400;

/// A multiple of a day beyond the reach of any `i64`: adding it to a
/// second count makes it nonnegative without moving its time of day.
const DAY_SHIFT: i128 = 9_223_372_036_854_806_400;

/// The second within its day (UTC) of the instant `t`.
pub open spec fn second_of_day(t: Timestamp) -> int {
    (t.secs as int) % (SECS_PER_DAY as int)
}

/// The correction for a leap second between two instants. An instant whose
/// nanoseconds reach a full second stands in a leap second; that second is
/// counted once more when the other instant lies later in the day: one
/// second more when `earlier` stands in it, one less when `later` does.
pub open spec fn leap_adjustment(later: Timestamp, earlier: Timestamp) -> int {
    if second_of_day(later) > second_of_day(earlier) && earlier.nanos >= NANOS_PER_SEC {
        1
    } else if second_of_day(later) < second_of_day(earlier) && later.nanos >= NANOS_PER_SEC {
        -1
    } else {
        0
    }
}

/// The nanoseconds from `earlier` to `later`.
pub open spec fn nanos_between(later: Timestamp, earlier: Timestamp) -> int {
    (later.secs - earlier.secs + leap_adjustment(later, earlier)) * NANOS_PER_SEC + later.nanos
        - earlier.nanos
}

/// `a / b` rounded toward zero, for `b > 0`.
pub open spec fn div_toward_zero(a: int, b: int) -> int {
    if a >= 0 {
        a / b
    } else {
        -((-a) / b)
    }
}

/// The whole seconds from `earlier` to `later`, rounded toward zero.
pub open spec fn whole_seconds_between(later: Timestamp, earlier: Timestamp) -> int {
    div_toward_zero(nanos_between(later, earlier), NANOS_PER_SEC as int)
}

/// The second within its day of the instant `t`.
fn second_of_day_exec(t: Timestamp) -> (s: i128)
    ensures
        s == second_of_day(t),
{
    let shifted: i128 = t.secs as i128 + DAY_SHIFT;
    proof {
        assert(DAY_SHIFT == 86400 * 106751991167301);
        vstd::arithmetic::div_mod::lemma_mod_multiples_vanish(106751991167301, t.secs as int, 86400);
    }
    shifted % (SECS_PER_DAY as i128)
}

/// The whole seconds from `earlier` to `later`, rounded toward zero.
pub fn seconds_between(later: Timestamp, earlier: Timestamp) -> (s: i128)
    ensures
        s == whole_seconds_between(later, earlier),
{
    let later_day_sec = second_of_day_exec(later);
    let earlier_day_sec = second_of_day_exec(earlier);
    let adjustment: i128 = if later_day_sec > earlier_day_sec && earlier.nanos as i128 >= NANOS_PER_SEC {
        1
    } else if later_day_sec < earlier_day_sec && later.nanos as i128 >= NANOS_PER_SEC {
        -1
    } else {
        0
    };
    let diff: i128 = (later.secs as i128 - earlier.secs as i128 + adjustment) * NANOS_PER_SEC + (
    later.nanos as i128 - earlier.nanos as i128);
    if diff >= 0 {
        diff / NANOS_PER_SEC
    } else {
        let magnitude: i128 = 0 - diff;
        0 - magnitude / NANOS_PER_SEC
    }
}

/// Monitor `m` is due for a check at `now`.
pub open spec fn monitor_due(m: Monitor, now: Timestamp) -> bool {
    &&& !m.paused
    &&& match m.last_heartbeat {
        None => true,
        Some(last) => whole_seconds_between(now, last) >= m.period,
    }
}

/// Whether monitor `m` is due for a check at `now`.
pub fn is_due(m: &Monitor, now: Timestamp) -> (due: bool)
    ensures
        due == monitor_due(*m, now),
{
    if m.paused {
        return false;
    }
    match m.last_heartbeat {
        None => true,
        Some(last) => seconds_between(now, last) >= m.period as i128,
    }
}

/// The ids of the monitors due at `now`, in the order given.
pub open spec fn due_ids(monitors: Seq<Monitor>, now: Timestamp) -> Seq<u128>
    decreases monitors.len(),
{
    if monitors.len() == 0 {
        Seq::empty()
    } else {
        let rest = due_ids(monitors.drop_last(), now);
        if monitor_due(monitors.last(), now) {
            rest.push(monitors.last().id)
        } else {
            rest
        }
    }
}

/// The ids of the monitors to queue at `now`, in the order given.
pub fn due_monitors(monitors: &Vec<Monitor>, now: Timestamp) -> (ids: Vec<u128>)
    ensures
        ids@ == due_ids(monitors@, now),
{
    let mut ids: Vec<u128> = Vec::new();
    let n = monitors.len();
    let mut i: usize = 0;
    while i < n
        invariant
            n == monitors@.len(),
            i <= n,
            ids@ == due_ids(monitors@.take(i as int), now),
        decreases n - i,
    {
        proof {
            assert(monitors@.take(i + 1).drop_last() =~= monitors@.take(i as int));
        }
        if is_due(&monitors[i], now) {
            ids.push(monitors[i].id);
        }
        i = i + 1;
    }
    proof {
        assert(monitors@.take(n as int) =~= monitors@);
    }
    ids
}

/// Once a monitor has been checked at `checked`, it is due again exactly
/// when its period has passed since then, unless paused.
pub proof fn law_due_again_after_period(m: Monitor, checked: Timestamp, now: Timestamp)
    ensures
        monitor_due(Monitor { last_heartbeat: Some(checked), ..m }, now) == (!m.paused
            && whole_seconds_between(now, checked) >= m.period),
{
}

/// A paused monitor is never queued; an unpaused one that was never
/// checked always is.
pub proof fn law_paused_and_new_monitors(m: Monitor, now: Timestamp)
    ensures
        m.paused ==> !monitor_due(m, now),
        !m.paused && m.last_heartbeat is None ==> monitor_due(m, now),
{
}

/// A monitor with a positive period is not due right after its check.
pub proof fn law_not_due_right_after_check(m: Monitor, now: Timestamp)
    requires
        m.period > 0,
    ensures
        !monitor_due(Monitor { last_heartbeat: Some(now), ..m }, now),
{
    assert(whole_seconds_between(now, now) == 0);
}

/// Queueing goes through the monitors one by one: appending a monitor to
/// the list appends its id to the queued ids exactly when it is due, and
/// leaves the ids queued for the others as they were.
pub proof fn law_due_ids_append(monitors: Seq<Monitor>, m: Monitor, now: Timestamp)
    ensures
        due_ids(monitors.push(m), now) == due_ids(monitors, now) + if monitor_due(m, now) {
            seq![m.id]
        } else {
            Seq::<u128>::empty()
        },
{
    assert(monitors.push(m).drop_last() =~= monitors);
    assert(due_ids(monitors.push(m), now) =~= due_ids(monitors, now) + if monitor_due(m, now) {
        seq![m.id]
    } else {
        Seq::<u128>::empty()
    });
}

/// Every due monitor is queued, however many there are, and nothing else
/// is: an id is queued exactly when some monitor with that id is due, and
/// no more ids are queued than there are monitors.
pub proof fn law_every_due_monitor_queued(monitors: Seq<Monitor>, now: Timestamp)
    ensures
        forall|i: int|
            0 <= i < monitors.len() && monitor_due(#[trigger] monitors[i], now) ==> due_ids(
                monitors,
                now,
            ).contains(monitors[i].id),
        forall|id: u128|
            #[trigger] due_ids(monitors, now).contains(id) ==> exists|i: int|
                0 <= i < monitors.len() && monitors[i].id == id && monitor_due(
                    #[trigger] monitors[i],
                    now,
                ),
        due_ids(monitors, now).len() <= monitors.len(),
    decreases monitors.len(),
{
    if monitors.len() > 0 {
        let rest = monitors.drop_last();
        let last = monitors.last();
        law_every_due_monitor_queued(rest, now);
        assert(rest.push(last) =~= monitors);
        law_due_ids_append(rest, last, now);
        let prev = due_ids(rest, now);
        assert forall|i: int|
            0 <= i < monitors.len() && monitor_due(#[trigger] monitors[i], now) implies due_ids(
            monitors,
            now,
        ).contains(monitors[i].id) by {
            if i < monitors.len() - 1 {
                assert(monitors[i] == rest[i]);
                let j = choose|j: int| 0 <= j < prev.len() && prev[j] == rest[i].id;
                assert(due_ids(monitors, now)[j] == prev[j]);
            } else {
                assert(due_ids(monitors, now)[prev.len() as int] == last.id);
            }
        }
        assert forall|id: u128| #[trigger] due_ids(monitors, now).contains(id) implies exists|i: int|
            0 <= i < monitors.len() && monitors[i].id == id && monitor_due(
                #[trigger] monitors[i],
                now,
            ) by {
            let k = choose|k: int| 0 <= k < due_ids(monitors, now).len() && due_ids(monitors, now)[k] == id;
            if k < prev.len() {
                assert(prev[k] == id);
                assert(prev.contains(id));
                let i = choose|i: int| 0 <= i < rest.len() && rest[i].id == id && monitor_due(#[trigger] rest[i], now);
                assert(monitors[i] == rest[i]);
            } else {
                assert(monitors[monitors.len() - 1] == last);
            }
        }
    }
}

/// Between instants outside leap seconds, the whole seconds are the
/// nanosecond difference `d` cut toward zero to a whole number of seconds:
/// `w` seconds with `w·10⁹ ≤ d < (w+1)·10⁹` when `d ≥ 0`, and
/// `(w−1)·10⁹ < d ≤ w·10⁹` when `d < 0`. In particular instants with equal
/// nanoseconds lie exactly their difference in seconds apart.
pub proof fn law_whole_seconds_truncate(later: Timestamp, earlier: Timestamp)
    requires
        later.nanos < 1_000_000_000,
        earlier.nanos < 1_000_000_000,
    ensures
        ({
            let d = (later.secs - earlier.secs) * 1_000_000_000 + later.nanos - earlier.nanos;
            let w = whole_seconds_between(later, earlier);
            &&& d >= 0 ==> w * 1_000_000_000 <= d < (w + 1) * 1_000_000_000
            &&& d < 0 ==> (w - 1) * 1_000_000_000 < d <= w * 1_000_000_000
        }),
        later.nanos == earlier.nanos ==> whole_seconds_between(later, earlier) == later.secs
            - earlier.secs,
{
    let d = (later.secs - earlier.secs) * 1_000_000_000 + later.nanos - earlier.nanos;
    assert(leap_adjustment(later, earlier) == 0);
    assert(nanos_between(later, earlier) == d);
    if d >= 0 {
        vstd::arithmetic::div_mod::lemma_fundamental_div_mod(d, 1_000_000_000);
        vstd::arithmetic::div_mod::lemma_mod_bound(d, 1_000_000_000);
    } else {
        vstd::arithmetic::div_mod::lemma_fundamental_div_mod(-d, 1_000_000_000);
        vstd::arithmetic::div_mod::lemma_mod_bound(-d, 1_000_000_000);
    }
    if later.nanos == earlier.nanos {
        let k = later.secs - earlier.secs;
        assert(d == k * 1_000_000_000);
        if k >= 0 {
            vstd::arithmetic::div_mod::lemma_div_multiples_vanish(k, 1_000_000_000);
        } else {
            vstd::arithmetic::div_mod::lemma_div_multiples_vanish(-k, 1_000_000_000);
            assert(-d == (-k) * 1_000_000_000);
        }
    }
}

/// The whole seconds from `a` to `b` are the negation of those from `b`
/// to `a`, leap seconds included.
pub proof fn law_whole_seconds_antisymmetric(a: Timestamp, b: Timestamp)
    ensures
        whole_seconds_between(a, b) == -whole_seconds_between(b, a),
        whole_seconds_between(a, a) == 0,
{
    assert(leap_adjustment(a, b) == -leap_adjustment(b, a));
    assert(nanos_between(a, b) == -nanos_between(b, a));
}

} // verus!

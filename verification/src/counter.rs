//! A counter that yields 1, 2, 3, 4, 5 and then stops.

use vstd::prelude::*;

verus! {

/// The last value a counter yields.
pub const COUNTER_LIMIT: u32 = 5;

/// Counts upwards from zero; each step yields the new count until the
/// limit is reached.
pub struct Counter {
    pub count: u32,
}

/// What one step does from count `c`: the next count and the value yielded.
pub open spec fn counter_step(c: u32) -> (u32, Option<u32>) {
    if c < COUNTER_LIMIT {
        ((c + 1) as u32, Some((c + 1) as u32))
    } else {
        (c, None)
    }
}

/// The values a counter at count `c` still yields, in order.
pub open spec fn counter_remaining(c: u32) -> Seq<u32>
    decreases COUNTER_LIMIT - c,
{
    if c < COUNTER_LIMIT {
        seq![(c + 1) as u32] + counter_remaining((c + 1) as u32)
    } else {
        Seq::empty()
    }
}

impl Counter {
    /// A counter that has yielded nothing yet.
    pub fn new() -> (c: Self)
        ensures
            c.count == 0,
    {
        Counter { count: 0 }
    }

    /// The next value: the count plus one while below the limit, then `None`.
    pub fn next(&mut self) -> (item: Option<u32>)
        ensures
            (final(self).count, item) == counter_step(old(self).count),
    {
        if self.count < COUNTER_LIMIT {
            self.count = self.count + 1;
            Some(self.count)
        } else {
            None
        }
    }
}

/// A step yields the first remaining value, and what stays to be yielded
/// afterwards is the rest; once nothing remains, stepping changes nothing.
pub proof fn law_counter_step_consumes_remaining(c: u32)
    ensures
        counter_remaining(c).len() > 0 ==> counter_step(c).1 == Some(counter_remaining(c)[0])
            && counter_remaining(counter_step(c).0) == counter_remaining(c).drop_first(),
        counter_remaining(c).len() == 0 ==> counter_step(c) == (c, None::<u32>),
{
    if c < COUNTER_LIMIT {
        assert(counter_remaining(c).drop_first() =~= counter_remaining((c + 1) as u32));
    }
}

/// A fresh counter yields exactly 1, 2, 3, 4, 5.
pub proof fn law_fresh_counter_yields_one_to_five()
    ensures
        counter_remaining(0) =~= seq![1u32, 2, 3, 4, 5],
{
    reveal_with_fuel(counter_remaining, 7);
}

} // verus!

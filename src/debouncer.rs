//! A latest-value-wins coalescer: a value comes out only once no newer one
//! has been pushed for the configured delay. Time is passed in by the
//! caller, in any unit, as a monotonic count.
use vstd::prelude::*;

verus! {

pub struct Debouncer<T> {
    /// How long the input must stay quiet before the pending value leaves.
    pub delay: u64,
    /// The most recent value not yet handed out.
    pub pending: Option<T>,
    /// When that value was pushed.
    pub last_push: u64,
}

impl<T> Debouncer<T> {
    /// At `now`, at least `delay` has passed since the last push.
    pub open spec fn quiet_at(self, now: u64) -> bool {
        now >= self.last_push && now - self.last_push >= self.delay
    }

    /// The state after `value` is pushed at `now`.
    pub open spec fn pushed(self, value: T, now: u64) -> Self {
        Debouncer { pending: Some(value), last_push: now, ..self }
    }

    /// The state after asking for a value at `now`, and what comes out.
    pub open spec fn polled(self, now: u64) -> (Self, Option<T>) {
        if self.pending is Some && self.quiet_at(now) {
            (Debouncer { pending: None, ..self }, self.pending)
        } else {
            (self, None)
        }
    }

    pub fn new(delay: u64) -> (r: Debouncer<T>)
        ensures
            r.delay == delay,
            r.pending is None,
    {
        Debouncer { delay, pending: None, last_push: 0 }
    }

    /// Pushes a value at time `now`; it replaces any pending one and starts
    /// the quiet period again.
    pub fn push(&mut self, value: T, now: u64)
        ensures
            *final(self) == old(self).pushed(value, now),
    {
        self.pending = Some(value);
        self.last_push = now;
    }

    /// The pending value, if the input has been quiet for the delay at
    /// time `now`; it is then no longer pending.
    pub fn next(&mut self, now: u64) -> (r: Option<T>)
        ensures
            (*final(self), r) == old(self).polled(now),
    {
        if self.pending.is_some() && now >= self.last_push && now - self.last_push >= self.delay {
            self.pending.take()
        } else {
            None
        }
    }

    /// When the pending value falls due, if there is one; a time past the
    /// largest count reads as the largest count.
    pub open spec fn due(self) -> Option<u64> {
        if self.pending is None {
            None
        } else if self.last_push + self.delay > u64::MAX {
            Some(u64::MAX)
        } else {
            Some((self.last_push + self.delay) as u64)
        }
    }

    pub fn deadline(&self) -> (r: Option<u64>)
        ensures
            r == self.due(),
    {
        if self.pending.is_some() {
            Some(self.last_push.saturating_add(self.delay))
        } else {
            None
        }
    }
}

/// The state after each value of `burst` is pushed at its time, in order.
pub open spec fn push_all<T>(s: Debouncer<T>, burst: Seq<(T, u64)>) -> Debouncer<T>
    decreases burst.len(),
{
    if burst.len() == 0 {
        s
    } else {
        push_all(s, burst.drop_last()).pushed(burst.last().0, burst.last().1)
    }
}

/// A burst whose pushes follow each other by less than the delay.
pub open spec fn is_burst<T>(burst: Seq<(T, u64)>, delay: u64) -> bool {
    forall|i: int|
        0 <= i < burst.len() - 1 ==> burst[i].1 <= #[trigger] burst[i + 1].1 && burst[i + 1].1
            - burst[i].1 < delay
}

proof fn lemma_push_all_prefix<T>(s: Debouncer<T>, burst: Seq<(T, u64)>, i: int)
    requires
        0 <= i < burst.len(),
    ensures
        push_all(s, burst.take(i + 1)).pending == Some(burst[i].0),
        push_all(s, burst.take(i + 1)).last_push == burst[i].1,
        push_all(s, burst.take(i + 1)).delay == s.delay,
{
    assert(burst.take(i + 1).drop_last() =~= burst.take(i));
    assert(burst.take(i + 1).last() == burst[i]);
    lemma_push_all_delay(s, burst.take(i));
}

proof fn lemma_push_all_delay<T>(s: Debouncer<T>, burst: Seq<(T, u64)>)
    ensures
        push_all(s, burst).delay == s.delay,
    decreases burst.len(),
{
    if burst.len() > 0 {
        lemma_push_all_delay(s, burst.drop_last());
    }
}

/// Debouncing: during a burst of pushes that follow each other by less than
/// the delay nothing comes out; once the input has been quiet for the delay,
/// exactly the last value comes out and nothing stays pending.
pub proof fn lemma_burst_settles<T>(s: Debouncer<T>, burst: Seq<(T, u64)>, t: u64)
    requires
        burst.len() >= 1,
        is_burst(burst, s.delay),
        t >= burst.last().1 + s.delay,
    ensures
        forall|i: int, u: u64|
            0 <= i < burst.len() - 1 && burst[i].1 <= u < burst[i + 1].1 ==> (#[trigger] push_all(
                s,
                burst.take(i + 1),
            ).polled(u)) == (push_all(s, burst.take(i + 1)), None::<T>),
        push_all(s, burst).polled(t).1 == Some(burst.last().0),
        push_all(s, burst).polled(t).0.pending is None,
{
    let n = burst.len() as int;
    assert forall|i: int, u: u64|
        0 <= i < burst.len() - 1 && burst[i].1 <= u < burst[i + 1].1 implies (#[trigger] push_all(
        s,
        burst.take(i + 1),
    ).polled(u)) == (push_all(s, burst.take(i + 1)), None::<T>) by {
        lemma_push_all_prefix(s, burst, i);
        assert(burst[i].1 <= burst[i + 1].1);
    }
    lemma_push_all_prefix(s, burst, n - 1);
    assert(burst.take(n) =~= burst);
}

} // verus!

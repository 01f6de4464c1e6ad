use vstd::prelude::*;

verus! {

/// The outcome of polling for a value that may not be available yet.
#[derive(Clone, Copy, Debug, PartialEq, Eq)]
pub enum Readiness<T> {
    /// Not available yet: poll again after the next wakeup.
    NotReady,
    /// Available now.
    Ready(T),
}

/// A misuse of the channel by its caller.
#[derive(Clone, Copy, Debug, PartialEq, Eq)]
pub enum TubeError {
    /// The producer was polled after its timer fired, but no value had been
    /// supplied for that cycle.
    NoPendingValue,
}

/// The state shared by the two ends of a retrigger channel: the single value
/// waiting to be released and the timer that releases it.
///
/// Time is measured in ticks (for instance milliseconds) of a monotonic clock
/// that the caller reads. The timer was last armed at `armed_at` and fires
/// `interval` ticks later.
pub struct TubeState<T> {
    pending: Option<T>,
    armed_at: u64,
    interval: u64,
}

impl<T> TubeState<T> {
    /// The value to be released at the next firing, if any.
    pub closed spec fn spec_pending(&self) -> Option<T> {
        self.pending
    }

    /// The tick at which the timer was last armed.
    pub closed spec fn spec_armed_at(&self) -> u64 {
        self.armed_at
    }

    /// The fixed delay between arming the timer and its firing.
    pub closed spec fn spec_interval(&self) -> u64 {
        self.interval
    }

    /// The tick at which the armed timer fires.
    pub open spec fn fires_at(&self) -> int {
        self.spec_armed_at() + self.spec_interval()
    }

    /// Whether the timer has fired at tick `now`.
    pub open spec fn is_due(&self, now: u64) -> bool {
        now >= self.fires_at()
    }

    /// The state after `value` is supplied at tick `now`: it replaces any
    /// unreleased value and the timer is armed afresh.
    pub closed spec fn spec_send(self, value: T, now: u64) -> Self {
        TubeState { pending: Some(value), armed_at: now, interval: self.interval }
    }

    /// The state after each of `sends` (a value and the tick it was supplied
    /// at), in order.
    pub open spec fn spec_send_all(self, sends: Seq<(T, u64)>) -> Self
        decreases sends.len(),
    {
        if sends.len() == 0 {
            self
        } else {
            self.spec_send_all(sends.drop_last()).spec_send(sends.last().0, sends.last().1)
        }
    }

    /// The state and the outcome of polling the producer at tick `now`.
    pub closed spec fn spec_poll(self, now: u64) -> (Self, Result<Readiness<T>, TubeError>) {
        if !self.is_due(now) {
            (self, Ok(Readiness::NotReady))
        } else {
            match self.pending {
                Some(v) => (TubeState { pending: None, ..self }, Ok(Readiness::Ready(v))),
                None => (self, Err(TubeError::NoPendingValue)),
            }
        }
    }

    /// Creates the state of a channel that releases `initial` once `interval`
    /// ticks have passed since tick `now`.
    pub fn new(initial: T, interval: u64, now: u64) -> (r: Self)
        ensures
            r.spec_pending() == Some(initial),
            r.spec_armed_at() == now,
            r.spec_interval() == interval,
    {
        TubeState { pending: Some(initial), armed_at: now, interval }
    }

    /// Returns the delay between arming the timer and its firing.
    pub fn interval(&self) -> (r: u64)
        ensures
            r == self.spec_interval(),
    {
        self.interval
    }

    /// Returns the tick at which the timer was last armed.
    pub fn armed_at(&self) -> (r: u64)
        ensures
            r == self.spec_armed_at(),
    {
        self.armed_at
    }

    /// Supplies the value to release at the next firing, discarding any value
    /// not yet released, and re-arms the timer for a full interval from `now`.
    pub fn set_next(&mut self, value: T, now: u64)
        ensures
            *final(self) == old(self).spec_send(value, now),
            final(self).spec_pending() == Some(value),
            final(self).spec_armed_at() == now,
            final(self).spec_interval() == old(self).spec_interval(),
    {
        self.pending = Some(value);
        self.armed_at = now;
    }

    /// Polls the producer at tick `now`. Before the timer fires it reports
    /// `NotReady` and changes nothing; once it has fired it hands out the
    /// pending value and clears it, or fails with `NoPendingValue` when no
    /// value was supplied for this cycle.
    pub fn poll_next(&mut self, now: u64) -> (r: Result<Readiness<T>, TubeError>)
        ensures
            (*final(self), r) == old(self).spec_poll(now),
            final(self).spec_armed_at() == old(self).spec_armed_at(),
            final(self).spec_interval() == old(self).spec_interval(),
            !old(self).is_due(now) ==> r == Ok::<Readiness<T>, TubeError>(Readiness::NotReady)
                && *final(self) == *old(self),
            old(self).is_due(now) && old(self).spec_pending().is_some() ==> r == Ok::<
                Readiness<T>,
                TubeError,
            >(Readiness::Ready(old(self).spec_pending().unwrap()))
                && final(self).spec_pending().is_none(),
            old(self).is_due(now) && old(self).spec_pending().is_none() ==> r == Err::<
                Readiness<T>,
                TubeError,
            >(TubeError::NoPendingValue) && *final(self) == *old(self),
    {
        if now >= self.armed_at && now - self.armed_at >= self.interval {
            match self.pending.take() {
                Some(v) => Ok(Readiness::Ready(v)),
                None => Err(TubeError::NoPendingValue),
            }
        } else {
            Ok(Readiness::NotReady)
        }
    }
}

/// Between two firings only the last value supplied counts: after any
/// non-empty run of sends the pending value is the last one sent, the timer
/// counts from that send, and the poll that finds the timer fired releases
/// exactly that value and leaves nothing pending, so the earlier values are
/// never released.
pub proof fn lemma_last_send_wins<T>(s: TubeState<T>, sends: Seq<(T, u64)>, now: u64)
    requires
        sends.len() > 0,
    ensures
        s.spec_send_all(sends).spec_pending() == Some(sends.last().0),
        s.spec_send_all(sends).spec_armed_at() == sends.last().1,
        s.spec_send_all(sends).spec_interval() == s.spec_interval(),
        s.spec_send_all(sends).is_due(now) ==> s.spec_send_all(sends).spec_poll(now).1 == Ok::<
            Readiness<T>,
            TubeError,
        >(Readiness::Ready(sends.last().0)),
        s.spec_send_all(sends).is_due(now) ==> s.spec_send_all(sends).spec_poll(
            now,
        ).0.spec_pending().is_none(),
    decreases sends.len(),
{
    if sends.len() > 1 {
        lemma_last_send_wins(s, sends.drop_last(), now);
    } else {
        assert(s.spec_send_all(sends.drop_last()) == s);
    }
}

/// The producer never releases a value early: polled strictly before the
/// armed interval has elapsed it reports `NotReady` and nothing changes;
/// polled at or after that tick it releases the pending value.
pub proof fn lemma_no_spurious_emission<T>(s: TubeState<T>, now: u64)
    ensures
        now < s.spec_armed_at() + s.spec_interval() ==> s.spec_poll(now) == (
            s,
            Ok::<Readiness<T>, TubeError>(Readiness::NotReady),
        ),
        now >= s.spec_armed_at() + s.spec_interval() && s.spec_pending().is_some()
            ==> s.spec_poll(now).1 == Ok::<Readiness<T>, TubeError>(
            Readiness::Ready(s.spec_pending().unwrap()),
        ),
{
}

/// A value supplied at tick `sent_at` is released by the first poll at or
/// after `sent_at` plus the interval, and by no poll before it.
pub proof fn lemma_send_then_release<T>(s: TubeState<T>, value: T, sent_at: u64, now: u64)
    ensures
        now < sent_at + s.spec_interval() ==> s.spec_send(value, sent_at).spec_poll(now) == (
            s.spec_send(value, sent_at),
            Ok::<Readiness<T>, TubeError>(Readiness::NotReady),
        ),
        now >= sent_at + s.spec_interval() ==> s.spec_send(value, sent_at).spec_poll(now).1
            == Ok::<Readiness<T>, TubeError>(Readiness::Ready(value)),
{
}

} // verus!

use vstd::prelude::*;
use crate::inc::Incrementable;

verus! {

/// A stream of consecutive values that ends once a number of seconds has
/// passed since it was created.
///
/// The clock is read by the caller: times are whole seconds since the Unix
/// epoch.
pub struct TBSeqStream<T> {
    next: T,
    start: u64,
    max: u64,
}

impl<T: Incrementable> TBSeqStream<T> {
    /// The value the next poll hands out, unless the time is up.
    pub closed spec fn spec_next(&self) -> int {
        self.next.spec_int()
    }

    /// The second at which the stream was created.
    pub closed spec fn spec_start(&self) -> u64 {
        self.start
    }

    /// How many seconds the stream may run.
    pub closed spec fn spec_max(&self) -> u64 {
        self.max
    }

    /// Whether the stream has ended at second `now`: more than `max` seconds
    /// have passed since it started.
    pub open spec fn expired_at(&self, now: u64) -> bool {
        now - self.spec_start() > self.spec_max()
    }

    /// Creates a stream producing `initial`, `initial + 1`, ... for `max_sec`
    /// seconds from `now`.
    pub fn new(initial: T, max_sec: u64, now: u64) -> (r: Self)
        ensures
            r.spec_next() == initial.spec_int(),
            r.spec_start() == now,
            r.spec_max() == max_sec,
    {
        TBSeqStream { next: initial, start: now, max: max_sec }
    }

    /// Hands out the next value at second `now`, or `None` once the time is up.
    pub fn poll(&mut self, now: u64) -> (r: Option<T>)
        requires
            !old(self).expired_at(now) ==> old(self).spec_next() + 1 <= T::spec_max(),
        ensures
            final(self).spec_start() == old(self).spec_start(),
            final(self).spec_max() == old(self).spec_max(),
            old(self).expired_at(now) ==> r.is_none() && *final(self) == *old(self),
            !old(self).expired_at(now) ==> r.is_some()
                && r.unwrap().spec_int() == old(self).spec_next()
                && final(self).spec_next() == old(self).spec_next() + 1,
    {
        if now > self.start && now - self.start > self.max {
            None
        } else {
            let v = self.next.post_inc();
            Some(v)
        }
    }
}

} // verus!

use vstd::prelude::*;
use crate::inc::Incrementable;

verus! {

/// An unbounded stream of consecutive values.
pub struct SeqStream<T> {
    next: T,
}

impl<T: Incrementable> SeqStream<T> {
    /// The value the next poll hands out.
    pub closed spec fn spec_next(&self) -> int {
        self.next.spec_int()
    }

    /// Creates a stream producing `start`, `start + 1`, ...
    pub fn new(start: T) -> (r: SeqStream<T>)
        ensures
            r.spec_next() == start.spec_int(),
    {
        SeqStream { next: start }
    }

    /// Hands out the next value; the stream never ends while the type can
    /// represent its successor.
    pub fn poll(&mut self) -> (r: Option<T>)
        requires
            old(self).spec_next() + 1 <= T::spec_max(),
        ensures
            r.is_some(),
            r.unwrap().spec_int() == old(self).spec_next(),
            final(self).spec_next() == old(self).spec_next() + 1,
    {
        let v = self.next.post_inc();
        Some(v)
    }
}

} // verus!

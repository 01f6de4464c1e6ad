use vstd::prelude::*;
use crate::inc::Incrementable;

verus! {

/// A stream of the values from a start up to, but not including, an end.
pub struct RangeStream<T> {
    next: T,
    end: T,
}

impl<T: Incrementable> RangeStream<T> {
    /// The value the next poll hands out, if any remain.
    pub closed spec fn spec_next(&self) -> int {
        self.next.spec_int()
    }

    /// The exclusive upper bound of the range.
    pub closed spec fn spec_end(&self) -> int {
        self.end.spec_int()
    }

    /// The values still to come, in order.
    pub open spec fn remaining(&self) -> Seq<int> {
        Seq::new(
            if self.spec_end() > self.spec_next() {
                (self.spec_end() - self.spec_next()) as nat
            } else {
                0
            },
            |i: int| self.spec_next() + i,
        )
    }

    /// Creates a stream producing `start`, `start + 1`, ... up to `end - 1`.
    pub fn new(start: T, end: T) -> (r: RangeStream<T>)
        ensures
            r.spec_next() == start.spec_int(),
            r.spec_end() == end.spec_int(),
    {
        RangeStream { next: start, end }
    }

    /// Hands out the next value of the range, or `None` once it is exhausted.
    pub fn poll(&mut self) -> (r: Option<T>)
        ensures
            final(self).spec_end() == old(self).spec_end(),
            old(self).spec_next() >= old(self).spec_end() ==> r.is_none() && *final(self) == *old(self),
            old(self).spec_next() < old(self).spec_end() ==> r.is_some()
                && r.unwrap().spec_int() == old(self).spec_next()
                && final(self).spec_next() == old(self).spec_next() + 1,
            final(self).remaining() == if r.is_some() {
                old(self).remaining().drop_first()
            } else {
                old(self).remaining()
            },
    {
        if self.next.is_at_least(&self.end) {
            None
        } else {
            proof {
                T::lemma_in_range(self.end);
            }
            let v = self.next.post_inc();
            assert(self.remaining() =~= old(self).remaining().drop_first());
            Some(v)
        }
    }
}

} // verus!

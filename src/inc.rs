use vstd::prelude::*;

verus! {

/// A copyable numeric type that supports stepping forward.
///
/// Each value is modelled by the mathematical integer it denotes, and each
/// type by the closed interval of integers it can represent.
pub trait Incrementable: Copy + Sized {
    /// The integer this value denotes.
    spec fn spec_int(&self) -> int;

    /// The smallest integer the type represents.
    spec fn spec_min() -> int;

    /// The largest integer the type represents.
    spec fn spec_max() -> int;

    /// Every value lies within the type's range.
    proof fn lemma_in_range(v: Self)
        ensures
            Self::spec_min() <= v.spec_int() <= Self::spec_max(),
    ;

    /// Two values denoting the same integer are the same value.
    proof fn lemma_int_injective(a: Self, b: Self)
        ensures
            a.spec_int() == b.spec_int() ==> a == b,
    ;

    /// The unit step, e.g. `1` for `i32`.
    fn one() -> (r: Self)
        ensures
            r.spec_int() == 1,
    ;

    /// Compares two values by the integers they denote.
    fn is_at_least(&self, other: &Self) -> (r: bool)
        ensures
            r == (self.spec_int() >= other.spec_int()),
    ;

    /// Increments by one and returns the value from before.
    fn post_inc(&mut self) -> (r: Self)
        requires
            old(self).spec_int() + 1 <= Self::spec_max(),
        ensures
            r == *old(self),
            final(self).spec_int() == old(self).spec_int() + 1,
    ;

    /// Increments by `n` and returns the value from before.
    fn post_inc_by(&mut self, n: Self) -> (r: Self)
        requires
            Self::spec_min() <= old(self).spec_int() + n.spec_int() <= Self::spec_max(),
        ensures
            r == *old(self),
            final(self).spec_int() == old(self).spec_int() + n.spec_int(),
    ;
}

impl Incrementable for u8 {
    open spec fn spec_int(&self) -> int {
        *self as int
    }

    open spec fn spec_min() -> int {
        u8::MIN as int
    }

    open spec fn spec_max() -> int {
        u8::MAX as int
    }

    proof fn lemma_in_range(v: Self) {
    }

    proof fn lemma_int_injective(a: Self, b: Self) {
    }

    fn one() -> (r: Self) {
        1
    }

    fn is_at_least(&self, other: &Self) -> (r: bool) {
        *self >= *other
    }

    fn post_inc(&mut self) -> (r: Self) {
        let tmp = *self;
        *self = tmp + 1;
        tmp
    }

    fn post_inc_by(&mut self, n: Self) -> (r: Self) {
        let tmp = *self;
        *self = tmp + n;
        tmp
    }
}

impl Incrementable for u16 {
    open spec fn spec_int(&self) -> int {
        *self as int
    }

    open spec fn spec_min() -> int {
        u16::MIN as int
    }

    open spec fn spec_max() -> int {
        u16::MAX as int
    }

    proof fn lemma_in_range(v: Self) {
    }

    proof fn lemma_int_injective(a: Self, b: Self) {
    }

    fn one() -> (r: Self) {
        1
    }

    fn is_at_least(&self, other: &Self) -> (r: bool) {
        *self >= *other
    }

    fn post_inc(&mut self) -> (r: Self) {
        let tmp = *self;
        *self = tmp + 1;
        tmp
    }

    fn post_inc_by(&mut self, n: Self) -> (r: Self) {
        let tmp = *self;
        *self = tmp + n;
        tmp
    }
}

impl Incrementable for u32 {
    open spec fn spec_int(&self) -> int {
        *self as int
    }

    open spec fn spec_min() -> int {
        u32::MIN as int
    }

    open spec fn spec_max() -> int {
        u32::MAX as int
    }

    proof fn lemma_in_range(v: Self) {
    }

    proof fn lemma_int_injective(a: Self, b: Self) {
    }

    fn one() -> (r: Self) {
        1
    }

    fn is_at_least(&self, other: &Self) -> (r: bool) {
        *self >= *other
    }

    fn post_inc(&mut self) -> (r: Self) {
        let tmp = *self;
        *self = tmp + 1;
        tmp
    }

    fn post_inc_by(&mut self, n: Self) -> (r: Self) {
        let tmp = *self;
        *self = tmp + n;
        tmp
    }
}

impl Incrementable for u64 {
    open spec fn spec_int(&self) -> int {
        *self as int
    }

    open spec fn spec_min() -> int {
        u64::MIN as int
    }

    open spec fn spec_max() -> int {
        u64::MAX as int
    }

    proof fn lemma_in_range(v: Self) {
    }

    proof fn lemma_int_injective(a: Self, b: Self) {
    }

    fn one() -> (r: Self) {
        1
    }

    fn is_at_least(&self, other: &Self) -> (r: bool) {
        *self >= *other
    }

    fn post_inc(&mut self) -> (r: Self) {
        let tmp = *self;
        *self = tmp + 1;
        tmp
    }

    fn post_inc_by(&mut self, n: Self) -> (r: Self) {
        let tmp = *self;
        *self = tmp + n;
        tmp
    }
}

impl Incrementable for i8 {
    open spec fn spec_int(&self) -> int {
        *self as int
    }

    open spec fn spec_min() -> int {
        i8::MIN as int
    }

    open spec fn spec_max() -> int {
        i8::MAX as int
    }

    proof fn lemma_in_range(v: Self) {
    }

    proof fn lemma_int_injective(a: Self, b: Self) {
    }

    fn one() -> (r: Self) {
        1
    }

    fn is_at_least(&self, other: &Self) -> (r: bool) {
        *self >= *other
    }

    fn post_inc(&mut self) -> (r: Self) {
        let tmp = *self;
        *self = tmp + 1;
        tmp
    }

    fn post_inc_by(&mut self, n: Self) -> (r: Self) {
        let tmp = *self;
        *self = tmp + n;
        tmp
    }
}

impl Incrementable for i16 {
    open spec fn spec_int(&self) -> int {
        *self as int
    }

    open spec fn spec_min() -> int {
        i16::MIN as int
    }

    open spec fn spec_max() -> int {
        i16::MAX as int
    }

    proof fn lemma_in_range(v: Self) {
    }

    proof fn lemma_int_injective(a: Self, b: Self) {
    }

    fn one() -> (r: Self) {
        1
    }

    fn is_at_least(&self, other: &Self) -> (r: bool) {
        *self >= *other
    }

    fn post_inc(&mut self) -> (r: Self) {
        let tmp = *self;
        *self = tmp + 1;
        tmp
    }

    fn post_inc_by(&mut self, n: Self) -> (r: Self) {
        let tmp = *self;
        *self = tmp + n;
        tmp
    }
}

impl Incrementable for i32 {
    open spec fn spec_int(&self) -> int {
        *self as int
    }

    open spec fn spec_min() -> int {
        i32::MIN as int
    }

    open spec fn spec_max() -> int {
        i32::MAX as int
    }

    proof fn lemma_in_range(v: Self) {
    }

    proof fn lemma_int_injective(a: Self, b: Self) {
    }

    fn one() -> (r: Self) {
        1
    }

    fn is_at_least(&self, other: &Self) -> (r: bool) {
        *self >= *other
    }

    fn post_inc(&mut self) -> (r: Self) {
        let tmp = *self;
        *self = tmp + 1;
        tmp
    }

    fn post_inc_by(&mut self, n: Self) -> (r: Self) {
        let tmp = *self;
        *self = tmp + n;
        tmp
    }
}

impl Incrementable for i64 {
    open spec fn spec_int(&self) -> int {
        *self as int
    }

    open spec fn spec_min() -> int {
        i64::MIN as int
    }

    open spec fn spec_max() -> int {
        i64::MAX as int
    }

    proof fn lemma_in_range(v: Self) {
    }

    proof fn lemma_int_injective(a: Self, b: Self) {
    }

    fn one() -> (r: Self) {
        1
    }

    fn is_at_least(&self, other: &Self) -> (r: bool) {
        *self >= *other
    }

    fn post_inc(&mut self) -> (r: Self) {
        let tmp = *self;
        *self = tmp + 1;
        tmp
    }

    fn post_inc_by(&mut self, n: Self) -> (r: Self) {
        let tmp = *self;
        *self = tmp + n;
        tmp
    }
}

} // verus!

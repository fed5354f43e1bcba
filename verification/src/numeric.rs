//! The capability set an element type needs for strided reductions: a
//! zero value, in-place addition, in-place multiplication, and copy
//! semantics, together with a mathematical model of its values.

use vstd::prelude::*;

verus! {

/// An element type usable in strided reductions.
///
/// Each value is modelled by the mathematical integer `as_int`, which
/// lies between `min_int` and `max_int` and determines the value
/// uniquely. The zero value models to `0`, and the in-place operations
/// add or multiply the models, provided the result stays representable.
pub trait Numeric: Sized + Copy {
    /// The mathematical value of `self`.
    spec fn as_int(self) -> int;

    /// The smallest mathematical value the type can represent.
    spec fn min_int() -> int;

    /// The largest mathematical value the type can represent.
    spec fn max_int() -> int;

    /// Every value of the type lies within its range.
    proof fn lemma_in_range(self)
        ensures
            Self::min_int() <= self.as_int() <= Self::max_int(),
    ;

    /// Two values with the same mathematical value are the same value.
    proof fn lemma_as_int_injective(self, other: Self)
        requires
            self.as_int() == other.as_int(),
        ensures
            self == other,
    ;

    /// The zero value of the type: its additive identity and the value
    /// returned by degenerate reductions.
    fn zero() -> (r: Self)
        ensures
            r.as_int() == 0,
    ;

    /// In-place addition. The caller shows that the sum is representable,
    /// so the operation cannot overflow.
    fn add_in_place(&mut self, rhs: Self)
        requires
            Self::min_int() <= old(self).as_int() + rhs.as_int() <= Self::max_int(),
        ensures
            final(self).as_int() == old(self).as_int() + rhs.as_int(),
    ;

    /// In-place multiplication. The caller shows that the product is
    /// representable, so the operation cannot overflow.
    fn mul_in_place(&mut self, rhs: Self)
        requires
            Self::min_int() <= old(self).as_int() * rhs.as_int() <= Self::max_int(),
        ensures
            final(self).as_int() == old(self).as_int() * rhs.as_int(),
    ;
}

impl Numeric for i32 {
    open spec fn as_int(self) -> int {
        self as int
    }

    open spec fn min_int() -> int {
        i32::MIN as int
    }

    open spec fn max_int() -> int {
        i32::MAX as int
    }

    proof fn lemma_in_range(self) {
    }

    proof fn lemma_as_int_injective(self, other: Self) {
    }

    fn zero() -> (r: Self) {
        0
    }

    fn add_in_place(&mut self, rhs: Self) {
        *self = *self + rhs;
    }

    fn mul_in_place(&mut self, rhs: Self) {
        *self = *self * rhs;
    }
}

impl Numeric for i8 {
    open spec fn as_int(self) -> int {
        self as int
    }

    open spec fn min_int() -> int {
        i8::MIN as int
    }

    open spec fn max_int() -> int {
        i8::MAX as int
    }

    proof fn lemma_in_range(self) {
    }

    proof fn lemma_as_int_injective(self, other: Self) {
    }

    fn zero() -> (r: Self) {
        0
    }

    fn add_in_place(&mut self, rhs: Self) {
        *self = *self + rhs;
    }

    fn mul_in_place(&mut self, rhs: Self) {
        *self = *self * rhs;
    }
}

impl Numeric for i16 {
    open spec fn as_int(self) -> int {
        self as int
    }

    open spec fn min_int() -> int {
        i16::MIN as int
    }

    open spec fn max_int() -> int {
        i16::MAX as int
    }

    proof fn lemma_in_range(self) {
    }

    proof fn lemma_as_int_injective(self, other: Self) {
    }

    fn zero() -> (r: Self) {
        0
    }

    fn add_in_place(&mut self, rhs: Self) {
        *self = *self + rhs;
    }

    fn mul_in_place(&mut self, rhs: Self) {
        *self = *self * rhs;
    }
}

impl Numeric for i64 {
    open spec fn as_int(self) -> int {
        self as int
    }

    open spec fn min_int() -> int {
        i64::MIN as int
    }

    open spec fn max_int() -> int {
        i64::MAX as int
    }

    proof fn lemma_in_range(self) {
    }

    proof fn lemma_as_int_injective(self, other: Self) {
    }

    fn zero() -> (r: Self) {
        0
    }

    fn add_in_place(&mut self, rhs: Self) {
        *self = *self + rhs;
    }

    fn mul_in_place(&mut self, rhs: Self) {
        *self = *self * rhs;
    }
}

impl Numeric for u8 {
    open spec fn as_int(self) -> int {
        self as int
    }

    open spec fn min_int() -> int {
        u8::MIN as int
    }

    open spec fn max_int() -> int {
        u8::MAX as int
    }

    proof fn lemma_in_range(self) {
    }

    proof fn lemma_as_int_injective(self, other: Self) {
    }

    fn zero() -> (r: Self) {
        0
    }

    fn add_in_place(&mut self, rhs: Self) {
        *self = *self + rhs;
    }

    fn mul_in_place(&mut self, rhs: Self) {
        *self = *self * rhs;
    }
}

impl Numeric for u16 {
    open spec fn as_int(self) -> int {
        self as int
    }

    open spec fn min_int() -> int {
        u16::MIN as int
    }

    open spec fn max_int() -> int {
        u16::MAX as int
    }

    proof fn lemma_in_range(self) {
    }

    proof fn lemma_as_int_injective(self, other: Self) {
    }

    fn zero() -> (r: Self) {
        0
    }

    fn add_in_place(&mut self, rhs: Self) {
        *self = *self + rhs;
    }

    fn mul_in_place(&mut self, rhs: Self) {
        *self = *self * rhs;
    }
}

impl Numeric for u32 {
    open spec fn as_int(self) -> int {
        self as int
    }

    open spec fn min_int() -> int {
        u32::MIN as int
    }

    open spec fn max_int() -> int {
        u32::MAX as int
    }

    proof fn lemma_in_range(self) {
    }

    proof fn lemma_as_int_injective(self, other: Self) {
    }

    fn zero() -> (r: Self) {
        0
    }

    fn add_in_place(&mut self, rhs: Self) {
        *self = *self + rhs;
    }

    fn mul_in_place(&mut self, rhs: Self) {
        *self = *self * rhs;
    }
}

impl Numeric for u64 {
    open spec fn as_int(self) -> int {
        self as int
    }

    open spec fn min_int() -> int {
        u64::MIN as int
    }

    open spec fn max_int() -> int {
        u64::MAX as int
    }

    proof fn lemma_in_range(self) {
    }

    proof fn lemma_as_int_injective(self, other: Self) {
    }

    fn zero() -> (r: Self) {
        0
    }

    fn add_in_place(&mut self, rhs: Self) {
        *self = *self + rhs;
    }

    fn mul_in_place(&mut self, rhs: Self) {
        *self = *self * rhs;
    }
}

impl Numeric for usize {
    open spec fn as_int(self) -> int {
        self as int
    }

    open spec fn min_int() -> int {
        usize::MIN as int
    }

    open spec fn max_int() -> int {
        usize::MAX as int
    }

    proof fn lemma_in_range(self) {
    }

    proof fn lemma_as_int_injective(self, other: Self) {
    }

    fn zero() -> (r: Self) {
        0
    }

    fn add_in_place(&mut self, rhs: Self) {
        *self = *self + rhs;
    }

    fn mul_in_place(&mut self, rhs: Self) {
        *self = *self * rhs;
    }
}

} // verus!

//! The scalar magnitudes that quantities and units carry.
//!
//! The library is generic over the numeric type of a magnitude. A [`Scalar`]
//! brings its own arithmetic, and each executable operation is pinned to a
//! per-implementor specification function, so that quantity and unit
//! contracts can state magnitudes exactly in terms of the scalar's own
//! semantics. An implementation for `i64` (with wrapping arithmetic and a
//! zero result for a division or remainder that `i64` leaves undefined) is
//! provided here; callers may implement the trait for further numeric types.

use vstd::prelude::*;
use core::cmp::Ordering;

verus! {

/// A numeric magnitude type, with its arithmetic pinned to specification
/// functions.
///
/// Every executable method returns exactly what the matching `spec_` method
/// says; the trait fixes no algebraic laws beyond that, so a partial order
/// (and thus incomparable values) is allowed.
pub trait Scalar: Sized {
    /// The value of `add` on the given operands.
    spec fn spec_add(self, rhs: Self) -> Self;

    /// The value of `sub` on the given operands.
    spec fn spec_sub(self, rhs: Self) -> Self;

    /// The value of `mul` on the given operands.
    spec fn spec_mul(self, rhs: Self) -> Self;

    /// The value of `div` on the given operands.
    spec fn spec_div(self, rhs: Self) -> Self;

    /// The value of `rem` on the given operands.
    spec fn spec_rem(self, rhs: Self) -> Self;

    /// The value of `neg` on the given operand.
    spec fn spec_neg(self) -> Self;

    /// The multiplicative unit of the scalar type.
    spec fn spec_one() -> Self;

    /// The value of `partial_cmp_value` on the given operands.
    spec fn spec_partial_cmp(self, other: Self) -> Option<Ordering>;

    /// Adds two scalars.
    fn add(self, rhs: Self) -> (r: Self)
        ensures
            r == self.spec_add(rhs),
    ;

    /// Subtracts a scalar from another.
    fn sub(self, rhs: Self) -> (r: Self)
        ensures
            r == self.spec_sub(rhs),
    ;

    /// Multiplies two scalars.
    fn mul(self, rhs: Self) -> (r: Self)
        ensures
            r == self.spec_mul(rhs),
    ;

    /// Divides a scalar by another.
    fn div(self, rhs: Self) -> (r: Self)
        ensures
            r == self.spec_div(rhs),
    ;

    /// Remainder of a scalar divided by another.
    fn rem(self, rhs: Self) -> (r: Self)
        ensures
            r == self.spec_rem(rhs),
    ;

    /// Negates a scalar.
    fn neg(self) -> (r: Self)
        ensures
            r == self.spec_neg(),
    ;

    /// Returns the multiplicative unit.
    fn one() -> (r: Self)
        ensures
            r == Self::spec_one(),
    ;

    /// Compares two scalars, `None` where the order leaves them
    /// incomparable.
    fn partial_cmp_value(&self, other: &Self) -> (r: Option<Ordering>)
        ensures
            r == self.spec_partial_cmp(*other),
    ;
}

impl Scalar for i64 {
    open spec fn spec_add(self, rhs: Self) -> Self {
        self.wrapping_add(rhs)
    }

    open spec fn spec_sub(self, rhs: Self) -> Self {
        self.wrapping_sub(rhs)
    }

    open spec fn spec_mul(self, rhs: Self) -> Self {
        self.wrapping_mul(rhs)
    }

    open spec fn spec_div(self, rhs: Self) -> Self {
        match self.checked_div(rhs) {
            Some(q) => q,
            None => 0,
        }
    }

    open spec fn spec_rem(self, rhs: Self) -> Self {
        match self.checked_rem(rhs) {
            Some(r) => r,
            None => 0,
        }
    }

    open spec fn spec_neg(self) -> Self {
        (0i64).wrapping_sub(self)
    }

    open spec fn spec_one() -> Self {
        1
    }

    open spec fn spec_partial_cmp(self, other: Self) -> Option<Ordering> {
        if self < other {
            Some(Ordering::Less)
        } else if self == other {
            Some(Ordering::Equal)
        } else {
            Some(Ordering::Greater)
        }
    }

    fn add(self, rhs: Self) -> (r: Self) {
        self.wrapping_add(rhs)
    }

    fn sub(self, rhs: Self) -> (r: Self) {
        self.wrapping_sub(rhs)
    }

    fn mul(self, rhs: Self) -> (r: Self) {
        self.wrapping_mul(rhs)
    }

    fn div(self, rhs: Self) -> (r: Self) {
        match self.checked_div(rhs) {
            Some(q) => q,
            None => 0,
        }
    }

    fn rem(self, rhs: Self) -> (r: Self) {
        match self.checked_rem(rhs) {
            Some(r) => r,
            None => 0,
        }
    }

    fn neg(self) -> (r: Self) {
        (0i64).wrapping_sub(self)
    }

    fn one() -> (r: Self) {
        1
    }

    fn partial_cmp_value(&self, other: &Self) -> (r: Option<Ordering>) {
        if *self < *other {
            Some(Ordering::Less)
        } else if *self == *other {
            Some(Ordering::Equal)
        } else {
            Some(Ordering::Greater)
        }
    }
}

} // verus!

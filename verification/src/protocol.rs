//! The sameness protocol shared by every comparable type.

use vstd::prelude::*;

verus! {

/// A type whose values can be checked for sameness against values of `Rhs`.
pub trait IsSame<Rhs: ?Sized = Self> {
    /// What a positive answer guarantees of the two operands. An impl
    /// that says nothing here guarantees nothing.
    open spec fn same(&self, other: &Rhs) -> bool {
        true
    }

    /// Whether the answer is decided by the operands' contents alone.
    /// Handles that are compared by identity answer `false` here, and so
    /// does an impl that says nothing.
    open spec fn by_content() -> bool {
        false
    }

    /// Returns whether two values are the same.
    fn is_same(&self, other: &Rhs) -> (r: bool)
        ensures
            r ==> self.same(other),
            Self::by_content() ==> r == self.same(other),
    ;

    /// The negation of `is_same`: the answer negates an answer that
    /// `is_same` gives on these operands.
    fn is_not_same(&self, other: &Rhs) -> (r: bool)
        ensures
            call_ensures(Self::is_same, (self, other), !r),
            !r ==> self.same(other),
            Self::by_content() ==> r == !self.same(other),
    {
        !self.is_same(other)
    }
}

/// The answer for two operands of which it is known whether they are one
/// and the same object: "same" at once if they are, and else the answer
/// that comparing them gives.
pub fn same_if_identical_or<T: IsSame + ?Sized>(identical: bool, a: &T, b: &T) -> (r: bool)
    ensures
        identical ==> r,
        !identical ==> call_ensures(T::is_same, (a, b), r),
{
    if identical {
        true
    } else {
        a.is_same(b)
    }
}

/// Whether every value of the type is the same as itself by content.
pub open spec fn reflexive<T: IsSame + ?Sized>() -> bool {
    forall|x: &T| #[trigger] x.same(x)
}

/// Whether sameness of two values of the type is their equality, as it is
/// for integers, booleans and characters.
pub open spec fn same_is_equality<T: IsSame>() -> bool {
    forall|x: T, y: T| #[trigger] x.same(&y) <==> x == y
}

} // verus!

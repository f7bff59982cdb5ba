//! Laws that relate the answers of the protocol's two operations.

use vstd::prelude::*;
use crate::protocol::{reflexive, IsSame};

verus! {

/// Reflexivity: for a type that is compared by content and whose values
/// are each the same as itself, every answer of `is_same` on a value and
/// itself is "same".
pub proof fn same_as_itself<T: IsSame>(x: &T, answer: bool)
    requires
        T::by_content(),
        reflexive::<T>(),
        call_ensures(T::is_same, (x, x), answer),
    ensures
        answer,
{
}

/// Negation: for a type that is compared by content, every answer of
/// `is_not_same` is the negation of every answer of `is_same` on the same
/// operands.
pub proof fn not_same_negates_same<T: IsSame<Rhs>, Rhs>(
    x: &T,
    y: &Rhs,
    same: bool,
    not_same: bool,
)
    requires
        T::by_content(),
        call_ensures(T::is_same, (x, y), same),
        call_ensures(T::is_not_same, (x, y), not_same),
    ensures
        not_same == !same,
{
}

/// Negation, whatever the type: every answer of `is_not_same` negates an
/// answer that `is_same` gives on the same operands. Where a handle is
/// compared by identity, that answer is sound too: "not not same" means
/// that the operands are the same by content.
pub proof fn not_same_negates_an_answer<T: IsSame<Rhs>, Rhs>(x: &T, y: &Rhs, not_same: bool)
    requires
        call_ensures(T::is_not_same, (x, y), not_same),
    ensures
        call_ensures(T::is_same, (x, y), !not_same),
        !not_same ==> x.same(y),
{
}

} // verus!

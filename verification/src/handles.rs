//! Handles: shared ownership, borrows, and borrowed-or-owned values.

use vstd::prelude::*;
use std::borrow::Cow;
use std::rc::Rc;
use std::sync::Arc;
use crate::protocol::{reflexive, same_if_identical_or, IsSame};

verus! {

impl<T> IsSame for Rc<T> {
    open spec fn same(&self, other: &Rc<T>) -> bool {
        *self == *other
    }

    open spec fn by_content() -> bool {
        false
    }

    fn is_same(&self, other: &Rc<T>) -> (r: bool) {
        same_rc(self, other)
    }
}

impl<T> IsSame for Arc<T> {
    open spec fn same(&self, other: &Arc<T>) -> bool {
        *self == *other
    }

    open spec fn by_content() -> bool {
        false
    }

    fn is_same(&self, other: &Arc<T>) -> (r: bool) {
        same_arc(self, other)
    }
}

impl<'a, T: IsSame + ?Sized> IsSame for &'a T {
    open spec fn same(&self, other: &&'a T) -> bool {
        *self == *other || (**self).same(*other)
    }

    open spec fn by_content() -> bool {
        T::by_content() && reflexive::<T>()
    }

    fn is_same(&self, other: &&'a T) -> (r: bool) {
        let identical = core::mem::size_of_val(*self) != 0 && same_place(*self, *other);
        same_if_identical_or(identical, *self, *other)
    }
}

/// The value that a borrowed-or-owned handle stands for.
pub open spec fn cow_value<'a, T: Clone>(c: &Cow<'a, T>) -> T {
    match c {
        Cow::Borrowed(b) => **b,
        Cow::Owned(o) => *o,
    }
}

/// Borrows the value that a borrowed-or-owned handle stands for.
pub fn cow_target<'b, 'a, T: Clone>(c: &'b Cow<'a, T>) -> (r: &'b T)
    ensures
        *r == cow_value(c),
{
    match c {
        Cow::Borrowed(b) => *b,
        Cow::Owned(o) => o,
    }
}

impl<'a, T: IsSame + Clone> IsSame for Cow<'a, T> {
    open spec fn same(&self, other: &Cow<'a, T>) -> bool {
        cow_value(self).same(&cow_value(other))
    }

    open spec fn by_content() -> bool {
        T::by_content()
    }

    fn is_same(&self, other: &Cow<'a, T>) -> (r: bool) {
        cow_target(self).is_same(cow_target(other))
    }
}

impl<'a, T: IsSame<str> + Clone> IsSame<str> for Cow<'a, T> {
    open spec fn same(&self, other: &str) -> bool {
        cow_value(self).same(other)
    }

    open spec fn by_content() -> bool {
        T::by_content()
    }

    fn is_same(&self, other: &str) -> (r: bool) {
        cow_target(self).is_same(other)
    }
}

/// `Rc::ptr_eq`: whether the two handles point to one allocation. One
/// allocation holds one value, so the answer `true` means equal contents;
/// the answer `false` means nothing.
#[verifier::external_body]
fn same_rc<T>(a: &Rc<T>, b: &Rc<T>) -> (r: bool)
    ensures
        r ==> *a == *b,
{
    Rc::ptr_eq(a, b)
}

/// `Arc::ptr_eq`: whether the two handles point to one allocation. One
/// allocation holds one value, so the answer `true` means equal contents;
/// the answer `false` means nothing.
#[verifier::external_body]
fn same_arc<T>(a: &Arc<T>, b: &Arc<T>) -> (r: bool)
    ensures
        r ==> *a == *b,
{
    Arc::ptr_eq(a, b)
}

/// `core::ptr::eq`: whether the two borrows have one address (and, for a
/// slice or a text, one length). Values that take up memory and lie at
/// one address are one value, so the answer `true` means equal values;
/// the answer `false` means nothing.
#[verifier::external_body]
fn same_place<T: ?Sized>(a: &T, b: &T) -> (r: bool)
    requires
        vstd::layout::spec_size_of_val(a) != 0,
    ensures
        r ==> a == b,
{
    core::ptr::eq(a, b)
}

} // verus!

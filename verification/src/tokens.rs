//! Type-identity tokens: the same when they denote one type.

use vstd::prelude::*;
use std::any::TypeId;
use crate::protocol::{reflexive, IsSame};

verus! {

/// `std::any::TypeId`, carried through as an opaque value.
#[verifier::external_type_specification]
#[verifier::external_body]
pub struct ExTypeId(TypeId);

impl IsSame for TypeId {
    open spec fn same(&self, other: &TypeId) -> bool {
        *self == *other
    }

    open spec fn by_content() -> bool {
        true
    }

    fn is_same(&self, other: &TypeId) -> (r: bool) {
        same_type(self, other)
    }
}

/// Every token is compared by content and is the same as itself.
pub proof fn tokens_are_reflexive()
    ensures
        TypeId::by_content() && reflexive::<TypeId>(),
{
}

/// `TypeId`'s `==` from std: true exactly when the two tokens are equal,
/// which they are when they denote one type.
#[verifier::external_body]
fn same_type(a: &TypeId, b: &TypeId) -> (r: bool)
    ensures
        r == (*a == *b),
{
    a == b
}

} // verus!

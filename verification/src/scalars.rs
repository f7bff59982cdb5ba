//! Scalars and text: sameness is equality of the representation.
//!
//! A floating-point number takes part through its bit pattern, an unsigned
//! integer of the same width: two numbers are the same exactly when their
//! bits are, so a not-a-number pattern is the same as itself, and the two
//! zeros differ.

use vstd::prelude::*;
use crate::protocol::{reflexive, same_is_equality, IsSame};

verus! {

impl IsSame for u8 {
    open spec fn same(&self, other: &u8) -> bool {
        *self == *other
    }

    open spec fn by_content() -> bool {
        true
    }

    fn is_same(&self, other: &u8) -> (r: bool) {
        *self == *other
    }
}

impl IsSame for u16 {
    open spec fn same(&self, other: &u16) -> bool {
        *self == *other
    }

    open spec fn by_content() -> bool {
        true
    }

    fn is_same(&self, other: &u16) -> (r: bool) {
        *self == *other
    }
}

impl IsSame for u32 {
    open spec fn same(&self, other: &u32) -> bool {
        *self == *other
    }

    open spec fn by_content() -> bool {
        true
    }

    fn is_same(&self, other: &u32) -> (r: bool) {
        *self == *other
    }
}

impl IsSame for u64 {
    open spec fn same(&self, other: &u64) -> bool {
        *self == *other
    }

    open spec fn by_content() -> bool {
        true
    }

    fn is_same(&self, other: &u64) -> (r: bool) {
        *self == *other
    }
}

impl IsSame for u128 {
    open spec fn same(&self, other: &u128) -> bool {
        *self == *other
    }

    open spec fn by_content() -> bool {
        true
    }

    fn is_same(&self, other: &u128) -> (r: bool) {
        *self == *other
    }
}

impl IsSame for usize {
    open spec fn same(&self, other: &usize) -> bool {
        *self == *other
    }

    open spec fn by_content() -> bool {
        true
    }

    fn is_same(&self, other: &usize) -> (r: bool) {
        *self == *other
    }
}

impl IsSame for i8 {
    open spec fn same(&self, other: &i8) -> bool {
        *self == *other
    }

    open spec fn by_content() -> bool {
        true
    }

    fn is_same(&self, other: &i8) -> (r: bool) {
        *self == *other
    }
}

impl IsSame for i16 {
    open spec fn same(&self, other: &i16) -> bool {
        *self == *other
    }

    open spec fn by_content() -> bool {
        true
    }

    fn is_same(&self, other: &i16) -> (r: bool) {
        *self == *other
    }
}

impl IsSame for i32 {
    open spec fn same(&self, other: &i32) -> bool {
        *self == *other
    }

    open spec fn by_content() -> bool {
        true
    }

    fn is_same(&self, other: &i32) -> (r: bool) {
        *self == *other
    }
}

impl IsSame for i64 {
    open spec fn same(&self, other: &i64) -> bool {
        *self == *other
    }

    open spec fn by_content() -> bool {
        true
    }

    fn is_same(&self, other: &i64) -> (r: bool) {
        *self == *other
    }
}

impl IsSame for i128 {
    open spec fn same(&self, other: &i128) -> bool {
        *self == *other
    }

    open spec fn by_content() -> bool {
        true
    }

    fn is_same(&self, other: &i128) -> (r: bool) {
        *self == *other
    }
}

impl IsSame for isize {
    open spec fn same(&self, other: &isize) -> bool {
        *self == *other
    }

    open spec fn by_content() -> bool {
        true
    }

    fn is_same(&self, other: &isize) -> (r: bool) {
        *self == *other
    }
}

impl IsSame for bool {
    open spec fn same(&self, other: &bool) -> bool {
        *self == *other
    }

    open spec fn by_content() -> bool {
        true
    }

    fn is_same(&self, other: &bool) -> (r: bool) {
        *self == *other
    }
}

impl IsSame for char {
    open spec fn same(&self, other: &char) -> bool {
        *self == *other
    }

    open spec fn by_content() -> bool {
        true
    }

    fn is_same(&self, other: &char) -> (r: bool) {
        *self == *other
    }
}

impl IsSame for () {
    open spec fn same(&self, other: &()) -> bool {
        true
    }

    open spec fn by_content() -> bool {
        true
    }

    fn is_same(&self, other: &()) -> (r: bool) {
        true
    }
}

impl IsSame for String {
    open spec fn same(&self, other: &String) -> bool {
        self@ == other@
    }

    open spec fn by_content() -> bool {
        true
    }

    fn is_same(&self, other: &String) -> (r: bool) {
        *self == *other
    }
}

impl IsSame for str {
    open spec fn same(&self, other: &str) -> bool {
        self@ == other@
    }

    open spec fn by_content() -> bool {
        true
    }

    fn is_same(&self, other: &str) -> (r: bool) {
        text_eq(self, other)
    }
}

/// Every scalar and every text is compared by content and is the same as
/// itself: so is every bit pattern of a floating-point number, those of
/// not-a-number among them.
pub proof fn scalars_are_reflexive()
    ensures
        u8::by_content() && reflexive::<u8>(),
        u16::by_content() && reflexive::<u16>(),
        u32::by_content() && reflexive::<u32>(),
        u64::by_content() && reflexive::<u64>(),
        u128::by_content() && reflexive::<u128>(),
        usize::by_content() && reflexive::<usize>(),
        i8::by_content() && reflexive::<i8>(),
        i16::by_content() && reflexive::<i16>(),
        i32::by_content() && reflexive::<i32>(),
        i64::by_content() && reflexive::<i64>(),
        i128::by_content() && reflexive::<i128>(),
        isize::by_content() && reflexive::<isize>(),
        bool::by_content() && reflexive::<bool>(),
        char::by_content() && reflexive::<char>(),
        <()>::by_content() && reflexive::<()>(),
        String::by_content() && reflexive::<String>(),
        <str>::by_content() && reflexive::<str>(),
{
}

/// For every scalar, sameness is equality of the value: so it is for the
/// bit pattern of a floating-point number, which tells the two zeros
/// apart.
pub proof fn scalar_sameness_is_equality()
    ensures
        same_is_equality::<u8>(),
        same_is_equality::<u16>(),
        same_is_equality::<u32>(),
        same_is_equality::<u64>(),
        same_is_equality::<u128>(),
        same_is_equality::<usize>(),
        same_is_equality::<i8>(),
        same_is_equality::<i16>(),
        same_is_equality::<i32>(),
        same_is_equality::<i64>(),
        same_is_equality::<i128>(),
        same_is_equality::<isize>(),
        same_is_equality::<bool>(),
        same_is_equality::<char>(),
        same_is_equality::<()>(),
{
}

/// `str`'s `==` from std: true exactly when the two texts hold the same
/// characters in the same order.
#[verifier::external_body]
fn text_eq(a: &str, b: &str) -> (r: bool)
    ensures
        r == (a@ == b@),
{
    a == b
}

} // verus!

//! Ordered sequences: slices, arrays and vectors.

use vstd::prelude::*;
use crate::protocol::{reflexive, same_if_identical_or, same_is_equality, IsSame};

verus! {

/// Two sequences are the same when they are equally long and agree
/// position by position.
pub open spec fn seq_same<T: IsSame>(a: Seq<T>, b: Seq<T>) -> bool {
    &&& a.len() == b.len()
    &&& forall|i: int| 0 <= i < a.len() ==> #[trigger] a[i].same(&b[i])
}

/// A sequence of items that are each the same as itself is the same as
/// itself.
pub proof fn seq_same_reflexive<T: IsSame>(a: Seq<T>)
    requires
        reflexive::<T>(),
    ensures
        seq_same(a, a),
{
}

/// Slices, arrays and vectors are the same as themselves when their items
/// are.
pub proof fn sequences_are_reflexive<T: IsSame, const N: usize>()
    requires
        reflexive::<T>(),
    ensures
        reflexive::<[T]>(),
        reflexive::<[T; N]>(),
        reflexive::<Vec<T>>(),
{
    assert forall|x: &[T]| #[trigger] x.same(x) by {
        seq_same_reflexive(x@);
    }
    assert forall|x: &[T; N]| #[trigger] x.same(x) by {
        seq_same_reflexive(x@);
    }
}

/// Where sameness of items is equality, sameness of sequences is too: a
/// missing, an added, a changed or a swapped item makes the difference.
pub proof fn seq_same_is_equality<T: IsSame>(a: Seq<T>, b: Seq<T>)
    requires
        same_is_equality::<T>(),
    ensures
        seq_same(a, b) <==> a == b,
{
    if seq_same(a, b) {
        assert forall|i: int| 0 <= i < a.len() implies a[i] == b[i] by {
            assert(a[i].same(&b[i]));
        }
        assert(a =~= b);
    }
}

/// Sequences of different lengths are never the same.
pub proof fn seq_same_needs_equal_length<T: IsSame>(a: Seq<T>, b: Seq<T>)
    requires
        a.len() != b.len(),
    ensures
        !seq_same(a, b),
{
}

impl<T: IsSame> IsSame for [T] {
    open spec fn same(&self, other: &[T]) -> bool {
        seq_same(self@, other@)
    }

    open spec fn by_content() -> bool {
        T::by_content()
    }

    fn is_same(&self, other: &[T]) -> (r: bool) {
        if self.len() != other.len() {
            return false;
        }
        let mut i: usize = 0;
        while i < self.len()
            invariant
                self@.len() == other@.len(),
                i <= self@.len(),
                forall|j: int| 0 <= j < i ==> #[trigger] self@[j].same(&other@[j]),
            decreases self@.len() - i,
        {
            if self[i].is_not_same(&other[i]) {
                return false;
            }
            i += 1;
        }
        true
    }
}

impl<T: IsSame, const N: usize> IsSame for [T; N] {
    open spec fn same(&self, other: &[T; N]) -> bool {
        seq_same(self@, other@)
    }

    open spec fn by_content() -> bool {
        T::by_content()
    }

    fn is_same(&self, other: &[T; N]) -> (r: bool) {
        let mut i: usize = 0;
        while i < N
            invariant
                self@.len() == N,
                other@.len() == N,
                i <= N,
                forall|j: int| 0 <= j < i ==> #[trigger] self@[j].same(&other@[j]),
            decreases N - i,
        {
            if self[i].is_not_same(&other[i]) {
                return false;
            }
            i += 1;
        }
        true
    }
}

impl<T: IsSame> IsSame for Vec<T> {
    open spec fn same(&self, other: &Vec<T>) -> bool {
        self@ == other@ || seq_same(self@, other@)
    }

    open spec fn by_content() -> bool {
        T::by_content() && reflexive::<T>()
    }

    fn is_same(&self, other: &Vec<T>) -> (r: bool) {
        let identical = core::mem::size_of::<T>() != 0 && same_buffer(self, other);
        same_if_identical_or(identical, self.as_slice(), other.as_slice())
    }
}

/// `Vec::as_ptr` on both vectors, and the two addresses compared. Two
/// vectors whose items take up memory have their buffer at one address
/// only if they are one vector, or if neither has allocated and both are
/// empty: the answer `true` means equal contents, the answer `false`
/// means nothing.
#[verifier::external_body]
fn same_buffer<T>(a: &Vec<T>, b: &Vec<T>) -> (r: bool)
    requires
        vstd::layout::size_of::<T>() != 0,
    ensures
        r ==> a@ == b@,
{
    a.as_ptr() == b.as_ptr()
}

} // verus!

//! Stepping through a std iterator one item at a time.

use vstd::prelude::*;
use vstd::std_specs::iter::IteratorSpec;

verus! {

/// Takes the next item, if there is one. For an iterator that keeps to
/// its announced items, the item is the head of what remained, and the
/// rest remains.
pub(crate) fn advance<I: Iterator>(it: &mut I) -> (item: Option<I::Item>)
    ensures
        (*final(it)).obeys_prophetic_iter_laws() == (*old(it)).obeys_prophetic_iter_laws(),
        (*old(it)).obeys_prophetic_iter_laws() && (*old(it)).remaining().len() > 0 ==> {
            &&& item == Some((*old(it)).remaining()[0])
            &&& (*final(it)).remaining() == (*old(it)).remaining().skip(1)
        },
        (*old(it)).obeys_prophetic_iter_laws() && (*old(it)).remaining().len() == 0 ==> {
            &&& item is None
            &&& (*final(it)).remaining() == (*old(it)).remaining()
        },
{
    it.next()
}

} // verus!

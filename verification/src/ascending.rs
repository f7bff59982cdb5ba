//! Sequences in strictly ascending order of a key type.

use vstd::prelude::*;
use vstd::laws_cmp::{obeys_cmp, obeys_cmp_ord, obeys_partial_cmp_spec_properties};
use vstd::std_specs::cmp::{OrdSpec, PartialOrdSpec};
use core::cmp::Ordering;

verus! {

/// Whether `x` comes before `y` in the key type's order.
pub open spec fn before<K: Ord>(x: K, y: K) -> bool {
    x.cmp_spec(&y) == Ordering::Less
}

/// Whether each item comes before all later ones.
pub open spec fn ascending<K: Ord>(s: Seq<K>) -> bool {
    forall|i: int, j: int| 0 <= i < j < s.len() ==> before(#[trigger] s[i], #[trigger] s[j])
}

/// Of two keys, at most one comes before the other.
pub proof fn before_is_one_way<K: Ord>(x: K, y: K)
    requires
        obeys_cmp::<K>(),
        before(x, y),
    ensures
        !before(y, x),
{
    reveal(obeys_partial_cmp_spec_properties);
    reveal(obeys_cmp_ord);
    assert(x.partial_cmp_spec(&y) == Some(x.cmp_spec(&y)));
    assert(y.partial_cmp_spec(&x) == Some(y.cmp_spec(&x)));
}

/// Two ascending sequences that agree up to a position and differ there
/// do not hold the same keys.
pub proof fn first_difference_parts_key_sets<K: Ord>(a: Seq<K>, b: Seq<K>, at: int)
    requires
        obeys_cmp::<K>(),
        ascending(a),
        ascending(b),
        0 <= at < a.len(),
        at < b.len(),
        forall|j: int| 0 <= j < at ==> a[j] == b[j],
        a[at] != b[at],
    ensures
        a.to_set() != b.to_set(),
{
    if a.to_set() == b.to_set() {
        assert(a.contains(a[at]));
        assert(b.to_set().contains(a[at]));
        let j = choose|j: int| 0 <= j < b.len() && b[j] == a[at];
        assert(b.contains(b[at]));
        assert(a.to_set().contains(b[at]));
        let i = choose|i: int| 0 <= i < a.len() && a[i] == b[at];
        if j < at {
            assert(before(a[j], a[at]));
            before_is_one_way(a[j], a[at]);
        } else if i < at {
            assert(before(b[i], b[at]));
            before_is_one_way(b[i], b[at]);
        } else {
            assert(before(b[at], b[j]));
            assert(before(a[at], a[i]));
            before_is_one_way(b[at], b[j]);
        }
    }
}

} // verus!

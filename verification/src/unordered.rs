//! Hash-based maps and sets.

use vstd::prelude::*;
use vstd::std_specs::hash::*;
use vstd::std_specs::iter::IteratorSpec;
use std::collections::{HashMap, HashSet};
use std::hash::{BuildHasher, Hash};
use crate::protocol::{reflexive, IsSame};
use crate::stepping::advance;

verus! {

broadcast use vstd::std_specs::hash::group_hash_axioms;

/// Two maps are the same when they have the same keys and each key's two
/// values are the same.
pub open spec fn map_same<K, V: IsSame>(a: Map<K, V>, b: Map<K, V>) -> bool {
    &&& a.dom() == b.dom()
    &&& forall|k: K| a.contains_key(k) ==> #[trigger] a[k].same(&b[k])
}

/// A map of values that are each the same as itself is the same as
/// itself.
pub proof fn map_same_reflexive<K, V: IsSame>(a: Map<K, V>)
    requires
        reflexive::<V>(),
    ensures
        map_same(a, a),
{
}

/// A hash map has finitely many keys: each is among the entries that a
/// walk over the map yields.
pub proof fn hash_map_keys_finite<Key, Value, State>(m: &HashMap<Key, Value, State>)
    ensures
        m@.dom().finite(),
{
    let entries = m.iter().remaining();
    let keys = entries.map_values(|e: (&Key, &Value)| *e.0);
    assert forall|k: Key| m@.dom().contains(k) implies keys.to_set().contains(k) by {
        assert(entries.contains((&k, &m@[k])));
        let j = choose|j: int| 0 <= j < entries.len() && entries[j] == (&k, &m@[k]);
        assert(keys[j] == k);
    }
    vstd::seq_lib::seq_to_set_is_finite(keys);
    vstd::set_lib::lemma_set_subset_finite(keys.to_set(), m@.dom());
}

impl<Key: IsSame + Eq + Hash, Value: IsSame, State: BuildHasher> IsSame for HashMap<
    Key,
    Value,
    State,
> {
    open spec fn same(&self, other: &HashMap<Key, Value, State>) -> bool {
        obeys_key_model::<Key>() && builds_valid_hashers::<State>() ==> map_same(self@, other@)
    }

    open spec fn by_content() -> bool {
        obeys_key_model::<Key>() && builds_valid_hashers::<State>() && Value::by_content()
    }

    fn is_same(&self, other: &HashMap<Key, Value, State>) -> (r: bool) {
        // Equal sizes are needed too: the scan below never sees a key that
        // only `other` holds.
        let count = self.len();
        if count != other.len() {
            return false;
        }
        let mut left = self.iter();
        let ghost sane = obeys_key_model::<Key>() && builds_valid_hashers::<State>();
        let ghost all = left.remaining();
        let mut seen: usize = 0;
        while seen < count
            invariant
                sane == (obeys_key_model::<Key>() && builds_valid_hashers::<State>()),
                sane ==> all == self.iter().remaining(),
                sane ==> count == all.len(),
                sane ==> self@.len() == other@.len(),
                seen <= count,
                sane ==> left.remaining() == all.skip(seen as int),
                forall|j: int|
                    0 <= j < seen && sane ==> {
                        &&& other@.contains_key(*(#[trigger] all[j]).0)
                        &&& (*all[j].1).same(&other@[*all[j].0])
                    },
            decreases count - seen,
        {
            match advance(&mut left) {
                None => {
                    return true;
                },
                Some((left_key, left_val)) => {
                    proof {
                        if sane {
                            assert(all.skip(seen as int)[0] == all[seen as int]);
                            assert(all.skip(seen as int).skip(1) == all.skip(seen + 1));
                            assert(self@.contains_key(*all[seen as int].0));
                            assert(self@[*all[seen as int].0] == *all[seen as int].1);
                        }
                    }
                    match other.get(left_key) {
                        Some(right_val) => {
                            if left_val.is_not_same(right_val) {
                                return false;
                            }
                        },
                        None => {
                            return false;
                        },
                    }
                    seen += 1;
                },
            }
        }
        proof {
            if sane {
                assert forall|k: Key| self@.contains_key(k) implies other@.contains_key(k)
                    && #[trigger] self@[k].same(&other@[k]) by {
                    assert(all.contains((&k, &self@[k])));
                    let j = choose|j: int| 0 <= j < all.len() && all[j] == (&k, &self@[k]);
                    assert(other@.contains_key(*all[j].0));
                }
                assert(self@.dom().subset_of(other@.dom()));
                hash_map_keys_finite(self);
                hash_map_keys_finite(other);
                vstd::set_lib::lemma_subset_equality(self@.dom(), other@.dom());
            }
        }
        true
    }
}

impl<Key: IsSame + Eq + Hash, State: BuildHasher> IsSame for HashSet<Key, State> {
    open spec fn same(&self, other: &HashSet<Key, State>) -> bool {
        obeys_key_model::<Key>() && builds_valid_hashers::<State>() ==> self@ == other@
    }

    open spec fn by_content() -> bool {
        obeys_key_model::<Key>() && builds_valid_hashers::<State>()
    }

    fn is_same(&self, other: &HashSet<Key, State>) -> (r: bool) {
        equal_sets(self, other)
    }
}

/// `HashSet`'s `==` from std: true exactly when the two sets are equally
/// large and every key of the first is in the second. Where keys hash
/// and compare as their values do, that is equality of the key sets.
#[verifier::external_body]
fn equal_sets<Key: Eq + Hash, State: BuildHasher>(
    a: &HashSet<Key, State>,
    b: &HashSet<Key, State>,
) -> (r: bool)
    ensures
        obeys_key_model::<Key>() && builds_valid_hashers::<State>() ==> r == (a@ == b@),
{
    a == b
}

} // verus!

//! Ordered maps and sets: compared entry by entry in ascending key order.

use vstd::prelude::*;
use vstd::laws_eq::obeys_concrete_eq;
use vstd::std_specs::btree::*;
use vstd::std_specs::cmp::{OrdSpec, PartialEqSpec};
use vstd::std_specs::iter::IteratorSpec;
use std::collections::{BTreeMap, BTreeSet};
use crate::ascending::{ascending, before, first_difference_parts_key_sets};
use crate::protocol::IsSame;
use crate::stepping::advance;
use crate::unordered::map_same;

verus! {

broadcast use vstd::std_specs::btree::group_btree_axioms;

/// The entries of an ordered map, in ascending key order.
pub open spec fn map_entries<Key, Value>(m: &BTreeMap<Key, Value>) -> Seq<(Key, Value)> {
    into_iter(spec_btree_map_iter(m))
}

/// The keys of an ordered set, in ascending order.
pub open spec fn set_keys<Key>(s: &BTreeSet<Key>) -> Seq<Key> {
    into_iter_btree_keys(spec_btree_keys_iter(s))
}

/// The keys of the entries that a walk over an ordered map yields.
pub open spec fn keys_of<Key, Value>(entries: Seq<(&Key, &Value)>) -> Seq<Key> {
    Seq::new(entries.len(), |i: int| *entries[i].0)
}

/// Whether the key type's `==` and ordering are modelled, so that a walk
/// over an ordered collection is known to yield its entries in order.
pub open spec fn keys_modelled<Key: Ord>() -> bool {
    key_obeys_cmp_spec::<Key>() && Key::obeys_eq_spec()
}

/// Two entry lists are the same when they are equally long and, position
/// by position, the keys are equal under the key type's own `==` and the
/// values are the same.
pub open spec fn entries_same<Key: Ord, Value: IsSame>(
    a: Seq<(Key, Value)>,
    b: Seq<(Key, Value)>,
) -> bool {
    &&& a.len() == b.len()
    &&& forall|i: int|
        0 <= i < a.len() ==> (#[trigger] a[i]).0.eq_spec(&b[i].0) && a[i].1.same(&b[i].1)
}

/// Two key lists are the same when they are equally long and, position by
/// position, the keys are equal under the key type's own `==`.
pub open spec fn keys_same<Key: Ord>(a: Seq<Key>, b: Seq<Key>) -> bool {
    &&& a.len() == b.len()
    &&& forall|i: int| 0 <= i < a.len() ==> (#[trigger] a[i]).eq_spec(&b[i])
}

/// A walk over an ordered map yields each key once, in ascending order.
proof fn walk_is_ascending<Key: Ord, Value>(
    m: &BTreeMap<Key, Value>,
    entries: Seq<(&Key, &Value)>,
)
    requires
        key_obeys_cmp_spec::<Key>(),
        entries == m.iter().remaining(),
        increasing_seq(entries.map_values(|kv: (&Key, &Value)| *kv.0)),
    ensures
        ascending(keys_of(entries)),
        keys_of(entries).to_set() == m@.dom(),
        entries.len() == m@.dom().len(),
{
    let keys = entries.map_values(|kv: (&Key, &Value)| *kv.0);
    assert(keys =~= keys_of(entries));
    assert forall|k: Key| m@.dom().contains(k) implies keys_of(entries).to_set().contains(k) by {
        assert(entries.contains((&k, &m@[k])));
        let j = choose|j: int| 0 <= j < entries.len() && entries[j] == (&k, &m@[k]);
        assert(keys_of(entries)[j] == k);
    }
    assert forall|k: Key| keys_of(entries).to_set().contains(k) implies m@.dom().contains(k) by {
        let j = choose|j: int| 0 <= j < entries.len() && keys_of(entries)[j] == k;
        assert(m@.contains_key(*entries[j].0));
    }
    assert(keys_of(entries).to_set() =~= m@.dom());
}

impl<Key: IsSame + Ord, Value: IsSame> IsSame for BTreeMap<Key, Value> {
    open spec fn same(&self, other: &BTreeMap<Key, Value>) -> bool {
        keys_modelled::<Key>() ==> entries_same(map_entries(self), map_entries(other))
    }

    open spec fn by_content() -> bool {
        keys_modelled::<Key>() && Value::by_content()
    }

    fn is_same(&self, other: &BTreeMap<Key, Value>) -> (r: bool)
        ensures
            keys_modelled::<Key>() && obeys_concrete_eq::<Key>() && r ==> map_same(
                self@,
                other@,
            ),
            keys_modelled::<Key>() && obeys_concrete_eq::<Key>() && Value::by_content() && !r
                ==> !map_same(self@, other@),
    {
        let count = self.len();
        let mut left = self.iter();
        let mut right = other.iter();
        let ghost ours = left.remaining();
        let ghost theirs = right.remaining();
        proof {
            if keys_modelled::<Key>() {
                walk_is_ascending(self, ours);
                walk_is_ascending(other, theirs);
            }
        }
        let ghost mut at: int = 0;
        let mut seen: usize = 0;
        while seen < count
            invariant
                keys_modelled::<Key>() ==> {
                    &&& ours == self.iter().remaining()
                    &&& theirs == other.iter().remaining()
                    &&& ascending(keys_of(ours))
                    &&& ascending(keys_of(theirs))
                    &&& keys_of(ours).to_set() == self@.dom()
                    &&& keys_of(theirs).to_set() == other@.dom()
                    &&& ours.unref() == map_entries(self)
                    &&& theirs.unref() == map_entries(other)
                    &&& ours.len() == count
                    &&& theirs.len() == other@.len()
                    &&& left.remaining() == ours.skip(at)
                    &&& right.remaining() == theirs.skip(at)
                },
                at == seen,
                seen <= count,
                keys_modelled::<Key>() ==> at <= theirs.len(),
                forall|j: int|
                    0 <= j < at && keys_modelled::<Key>() ==> {
                        &&& (*(#[trigger] ours[j]).0).eq_spec(theirs[j].0)
                        &&& (*ours[j].1).same(theirs[j].1)
                    },
            decreases count - seen,
        {
            let a = advance(&mut left);
            let b = advance(&mut right);
            proof {
                if keys_modelled::<Key>() {
                    assert(ours.skip(at).skip(1) == ours.skip(at + 1));
                    assert(ours.skip(at)[0] == ours[at]);
                    assert(at < theirs.len() ==> theirs.skip(at).skip(1) == theirs.skip(at + 1));
                    assert(at < theirs.len() ==> theirs.skip(at)[0] == theirs[at]);
                }
            }
            match a {
                None => {
                    return b.is_none();
                },
                Some((left_key, left_val)) => {
                    match b {
                        None => {
                            return false;
                        },
                        Some((right_key, right_val)) => {
                            if !(left_key == right_key) {
                                proof {
                                    if keys_modelled::<Key>() {
                                        assert(map_entries(self)[at] == (*ours[at].0, *ours[at].1));
                                        assert(map_entries(other)[at] == (
                                            *theirs[at].0,
                                            *theirs[at].1,
                                        ));
                                        if obeys_concrete_eq::<Key>() {
                                            reveal(obeys_concrete_eq);
                                            assert forall|j: int| 0 <= j < at implies keys_of(
                                                ours,
                                            )[j] == keys_of(theirs)[j] by {
                                                assert((*ours[j].0).eq_spec(theirs[j].0));
                                            }
                                            first_difference_parts_key_sets(
                                                keys_of(ours),
                                                keys_of(theirs),
                                                at,
                                            );
                                        }
                                    }
                                }
                                return false;
                            }
                            if left_val.is_not_same(right_val) {
                                proof {
                                    if keys_modelled::<Key>() {
                                        assert(map_entries(self)[at] == (*ours[at].0, *ours[at].1));
                                        assert(map_entries(other)[at] == (
                                            *theirs[at].0,
                                            *theirs[at].1,
                                        ));
                                        if obeys_concrete_eq::<Key>() && Value::by_content() {
                                            reveal(obeys_concrete_eq);
                                            assert(self@.contains_key(*ours[at].0));
                                            assert(self@[*ours[at].0] == *ours[at].1);
                                            assert(other@[*theirs[at].0] == *theirs[at].1);
                                            assert(!self@[*ours[at].0].same(&other@[*ours[at].0]));
                                        }
                                    }
                                }
                                return false;
                            }
                        },
                    }
                },
            }
            seen += 1;
            proof {
                at = at + 1;
            }
        }
        let a = advance(&mut left);
        let b = advance(&mut right);
        proof {
            if keys_modelled::<Key>() {
                assert(a is None);
                assert(b is None <==> theirs.len() == at);
                assert forall|i: int| b is None && 0 <= i < map_entries(self).len() implies (
                #[trigger] map_entries(self)[i]).0.eq_spec(&map_entries(other)[i].0)
                    && map_entries(self)[i].1.same(&map_entries(other)[i].1) by {
                    assert((*ours[i].0).eq_spec(theirs[i].0));
                }
                assert(b is None && obeys_concrete_eq::<Key>() ==> map_same(self@, other@)) by {
                    reveal(obeys_concrete_eq);
                    assert forall|k: Key|
                        b is None && obeys_concrete_eq::<Key>() && self@.contains_key(
                            k,
                        ) implies other@.contains_key(k) && #[trigger] self@[k].same(
                        &other@[k],
                    ) by {
                        assert(ours.contains((&k, &self@[k])));
                        let i = choose|i: int| 0 <= i < ours.len() && ours[i] == (&k, &self@[k]);
                        assert((*ours[i].0).eq_spec(theirs[i].0));
                        assert(other@.contains_key(*theirs[i].0));
                        assert(other@[*theirs[i].0] == *theirs[i].1);
                    }
                    assert forall|k: Key|
                        b is None && obeys_concrete_eq::<Key>() && other@.contains_key(
                            k,
                        ) implies self@.contains_key(k) by {
                        assert(theirs.contains((&k, &other@[k])));
                        let i = choose|i: int|
                            0 <= i < theirs.len() && theirs[i] == (&k, &other@[k]);
                        assert((*ours[i].0).eq_spec(theirs[i].0));
                        assert(self@.contains_key(*ours[i].0));
                    }
                    assert(b is None && obeys_concrete_eq::<Key>() ==> self@.dom() =~= other@.dom());
                }
            }
        }
        a.is_none() && b.is_none()
    }
}

/// A walk over an ordered set yields each key once, in ascending order.
proof fn set_walk_is_ascending<Key: Ord>(s: &BTreeSet<Key>, keys: Seq<&Key>)
    requires
        key_obeys_cmp_spec::<Key>(),
        keys == s.iter().remaining(),
    ensures
        ascending(keys.unref()),
        keys.unref().to_set() == s@,
        keys.len() == s@.len(),
{
    broadcast use vstd::laws_cmp::lemma_ref_obeys_cmp_spec;
    assert(vstd::laws_cmp::obeys_cmp::<&Key>());
    axiom_increasing_seq_meaning::<&Key>(keys);
    assert forall|i: int, j: int| 0 <= i < j < keys.len() implies before(
        #[trigger] keys.unref()[i],
        #[trigger] keys.unref()[j],
    ) by {
        assert(OrdSpec::cmp_spec(&keys[i], &keys[j]) is Less);
    }
}

impl<Key: IsSame + Ord> IsSame for BTreeSet<Key> {
    open spec fn same(&self, other: &BTreeSet<Key>) -> bool {
        keys_modelled::<Key>() ==> keys_same(set_keys(self), set_keys(other))
    }

    open spec fn by_content() -> bool {
        keys_modelled::<Key>()
    }

    fn is_same(&self, other: &BTreeSet<Key>) -> (r: bool)
        ensures
            keys_modelled::<Key>() && obeys_concrete_eq::<Key>() && r ==> self@ == other@,
            keys_modelled::<Key>() && obeys_concrete_eq::<Key>() && !r ==> self@ != other@,
    {
        let count = self.len();
        let mut left = self.iter();
        let mut right = other.iter();
        let ghost ours = left.remaining();
        let ghost theirs = right.remaining();
        proof {
            if keys_modelled::<Key>() {
                set_walk_is_ascending(self, ours);
                set_walk_is_ascending(other, theirs);
            }
        }
        let ghost mut at: int = 0;
        let mut seen: usize = 0;
        while seen < count
            invariant
                keys_modelled::<Key>() ==> {
                    &&& ours == self.iter().remaining()
                    &&& theirs == other.iter().remaining()
                    &&& ascending(ours.unref())
                    &&& ascending(theirs.unref())
                    &&& ours.unref().to_set() == self@
                    &&& theirs.unref().to_set() == other@
                    &&& ours.len() == self@.len()
                    &&& theirs.len() == other@.len()
                    &&& ours.unref() == set_keys(self)
                    &&& theirs.unref() == set_keys(other)
                    &&& ours.len() == count
                    &&& theirs.len() == other@.len()
                    &&& left.remaining() == ours.skip(at)
                    &&& right.remaining() == theirs.skip(at)
                },
                at == seen,
                seen <= count,
                keys_modelled::<Key>() ==> at <= theirs.len(),
                forall|j: int|
                    0 <= j < at && keys_modelled::<Key>() ==> (*(#[trigger] ours[j])).eq_spec(
                        theirs[j],
                    ),
            decreases count - seen,
        {
            let a = advance(&mut left);
            let b = advance(&mut right);
            proof {
                if keys_modelled::<Key>() {
                    assert(ours.skip(at).skip(1) == ours.skip(at + 1));
                    assert(ours.skip(at)[0] == ours[at]);
                    assert(at < theirs.len() ==> theirs.skip(at).skip(1) == theirs.skip(at + 1));
                    assert(at < theirs.len() ==> theirs.skip(at)[0] == theirs[at]);
                }
            }
            match a {
                None => {
                    return b.is_none();
                },
                Some(left_key) => {
                    match b {
                        None => {
                            return false;
                        },
                        Some(right_key) => {
                            if !(left_key == right_key) {
                                proof {
                                    if keys_modelled::<Key>() {
                                        assert(set_keys(self)[at] == *ours[at]);
                                        assert(set_keys(other)[at] == *theirs[at]);
                                        if obeys_concrete_eq::<Key>() {
                                            reveal(obeys_concrete_eq);
                                            assert forall|j: int|
                                                0 <= j < at implies ours.unref()[j]
                                                == theirs.unref()[j] by {
                                                assert((*ours[j]).eq_spec(theirs[j]));
                                            }
                                            first_difference_parts_key_sets(
                                                ours.unref(),
                                                theirs.unref(),
                                                at,
                                            );
                                        }
                                    }
                                }
                                return false;
                            }
                        },
                    }
                },
            }
            seen += 1;
            proof {
                at = at + 1;
            }
        }
        let a = advance(&mut left);
        let b = advance(&mut right);
        proof {
            if keys_modelled::<Key>() {
                assert(a is None);
                assert(b is None <==> theirs.len() == at);
                assert forall|i: int| b is None && 0 <= i < set_keys(self).len() implies (
                #[trigger] set_keys(self)[i]).eq_spec(&set_keys(other)[i]) by {
                    assert((*ours[i]).eq_spec(theirs[i]));
                }
                assert(b is None && obeys_concrete_eq::<Key>() ==> self@ == other@) by {
                    reveal(obeys_concrete_eq);
                    assert forall|i: int|
                        b is None && obeys_concrete_eq::<Key>() && 0 <= i
                            < ours.len() implies #[trigger] ours.unref()[i] == theirs.unref()[i] by {
                        assert((*ours[i]).eq_spec(theirs[i]));
                    }
                    assert(b is None && obeys_concrete_eq::<Key>() ==> ours.unref()
                        =~= theirs.unref());
                }
            }
        }
        a.is_none() && b.is_none()
    }
}

} // verus!

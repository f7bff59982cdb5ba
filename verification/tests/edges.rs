use is_same::protocol::same_if_identical_or;
use is_same::IsSame;
use std::borrow::Cow;
use std::collections::{BTreeMap, BTreeSet, HashMap, HashSet};
use std::path::{Path, PathBuf};
use std::rc::Rc;
use std::sync::Arc;

#[test]
fn zeros_differ_by_bit_pattern() {
    assert_eq!((0.0f32).to_bits(), 0);
    assert_eq!((-0.0f32).to_bits(), 0x8000_0000);
    assert!((0.0f32).to_bits().is_not_same(&(-0.0f32).to_bits()));
    assert!(!(0.0f32).to_bits().is_same(&(-0.0f32).to_bits()));
    assert!((0.0f64).to_bits().is_not_same(&(-0.0f64).to_bits()));
    assert!(!(0.0f64).to_bits().is_same(&(-0.0f64).to_bits()));
}

#[test]
fn infinities_differ_by_sign() {
    assert!(f32::INFINITY.to_bits().is_not_same(&f32::NEG_INFINITY.to_bits()));
    assert!(f64::INFINITY.to_bits().is_not_same(&f64::NEG_INFINITY.to_bits()));
}

#[test]
fn not_a_number_by_bit_pattern() {
    let quiet = f32::from_bits(0x7fc0_0000);
    let other = f32::from_bits(0x7fc0_0001);
    assert!(quiet.is_nan() && other.is_nan());
    assert!(quiet != quiet);
    assert!(quiet.to_bits().is_same(&quiet.to_bits()));
    assert!(quiet.to_bits().is_not_same(&other.to_bits()));
    let quiet = f64::from_bits(0x7ff8_0000_0000_0000);
    let other = f64::from_bits(0x7ff8_0000_0000_0001);
    assert!(quiet.is_nan() && other.is_nan());
    assert!(quiet.to_bits().is_same(&quiet.to_bits()));
    assert!(quiet.to_bits().is_not_same(&other.to_bits()));
}

#[test]
fn scalars_are_same_as_themselves() {
    assert!(0u8.is_same(&0u8));
    assert!(u16::MAX.is_same(&u16::MAX));
    assert!(7u32.is_same(&7u32));
    assert!(u64::MAX.is_same(&u64::MAX));
    assert!(u128::MAX.is_same(&u128::MAX));
    assert!(9usize.is_same(&9usize));
    assert!(i8::MIN.is_same(&i8::MIN));
    assert!((-3i16).is_same(&-3i16));
    assert!(i32::MIN.is_same(&i32::MIN));
    assert!((-1i64).is_same(&-1i64));
    assert!(i128::MIN.is_same(&i128::MIN));
    assert!((-5isize).is_same(&-5isize));
    assert!(true.is_same(&true));
    assert!('x'.is_same(&'x'));
    assert!(().is_same(&()));
    assert!("text".to_owned().is_same(&"text".to_owned()));
}

#[test]
fn scalars_differ() {
    assert!(0u8.is_not_same(&1u8));
    assert!(1u16.is_not_same(&2u16));
    assert!(7u32.is_not_same(&8u32));
    assert!(0u64.is_not_same(&u64::MAX));
    assert!(0u128.is_not_same(&1u128));
    assert!(9usize.is_not_same(&10usize));
    assert!(i8::MIN.is_not_same(&i8::MAX));
    assert!((-3i16).is_not_same(&3i16));
    assert!(i32::MIN.is_not_same(&0i32));
    assert!((-1i64).is_not_same(&1i64));
    assert!(i128::MIN.is_not_same(&i128::MAX));
    assert!((-5isize).is_not_same(&5isize));
    assert!(true.is_not_same(&false));
    assert!('x'.is_not_same(&'y'));
    assert!("text".to_owned().is_not_same(&"texts".to_owned()));
    assert!("text".to_owned().is_not_same(&"test".to_owned()));
}

#[test]
fn negation_on_values() {
    let pairs: [(i32, i32); 4] = [(1, 1), (1, 2), (-1, 1), (0, 0)];
    for (x, y) in pairs.iter() {
        assert_eq!(x.is_not_same(y), !x.is_same(y));
    }
    let texts = ["", "a", "ab", "a"];
    for x in texts.iter() {
        for y in texts.iter() {
            assert_eq!(x.is_not_same(y), !x.is_same(y));
            assert_eq!(x.is_same(y), x == y);
        }
    }
    let one = Rc::new(1);
    let other = Rc::new(1);
    assert_eq!(one.is_not_same(&other), !one.is_same(&other));
    assert_eq!(one.is_not_same(&one), !one.is_same(&one));
}

#[test]
fn handles_go_by_allocation() {
    let first = Rc::new(vec![1, 2, 3]);
    let second = Rc::new(vec![1, 2, 3]);
    assert!(first.is_same(&first.clone()));
    assert!(first.is_not_same(&second));
    let first = Arc::new("same text".to_owned());
    let second = Arc::new("same text".to_owned());
    assert!(first.is_same(&Arc::clone(&first)));
    assert!(first.is_not_same(&second));
}

#[test]
fn borrows_go_by_content_too() {
    let one = 5u64;
    let copy = 5u64;
    let other = 6u64;
    assert!((&one).is_same(&&one));
    assert!((&one).is_same(&&copy));
    assert!((&one).is_not_same(&&other));
    let unit = ();
    assert!((&unit).is_same(&&()));
}

#[test]
fn sequences_of_nothing() {
    let none: Vec<u8> = Vec::new();
    let also_none: Vec<u8> = Vec::with_capacity(4);
    assert!(none.is_same(&also_none));
    assert!(none.is_not_same(&vec![0u8]));
    let two = vec![(), ()];
    let three = vec![(), (), ()];
    assert!(two.is_not_same(&three));
    assert!(three.is_not_same(&two));
    assert!(two.is_same(&vec![(), ()]));
    let empty: [u8; 0] = [];
    assert!(empty.is_same(&[]));
    let left: &[u8] = &[];
    let right: &[u8] = &[];
    assert!(left.is_same(&right));
}

#[test]
fn long_arrays() {
    let mut left = [0u16; 40];
    let mut right = [0u16; 40];
    assert!(left.is_same(&right));
    right[39] = 1;
    assert!(left.is_not_same(&right));
    left[39] = 1;
    assert!(left.is_same(&right));
    left[0] = 1;
    assert!(left.is_not_same(&right));
}

#[test]
fn nested_sequences() {
    let left = vec![vec![1u8, 2], vec![], vec![3]];
    let mut right = vec![vec![1u8, 2], vec![], vec![3]];
    assert!(left.is_same(&right));
    right[2].push(4);
    assert!(left.is_not_same(&right));
    right[2].pop();
    assert!(left.is_same(&right));
    right.swap(0, 2);
    assert!(left.is_not_same(&right));
}

#[test]
fn sequences_of_handles_go_by_allocation() {
    let shared = Rc::new(1u8);
    let left = vec![shared.clone()];
    let right = vec![shared.clone()];
    let fresh = vec![Rc::new(1u8)];
    assert!(left.is_same(&left));
    assert!(left.is_same(&right));
    assert!(left.is_not_same(&fresh));
}

#[test]
fn tuples_of_every_arity() {
    assert!((1u8,).is_same(&(1u8,)));
    assert!((1u8,).is_not_same(&(2u8,)));
    assert!((1u8, 'a').is_same(&(1u8, 'a')));
    assert!((1u8, 'a').is_not_same(&(1u8, 'b')));
    assert!((1, 2, 3, 4).is_same(&(1, 2, 3, 4)));
    assert!((1, 2, 3, 4).is_not_same(&(1, 2, 3, 5)));
    assert!((1, 2, 3, 4, 5).is_same(&(1, 2, 3, 4, 5)));
    assert!((1, 2, 3, 4, 5).is_not_same(&(0, 2, 3, 4, 5)));
    assert!((1, 2, 3, 4, 5, 6).is_same(&(1, 2, 3, 4, 5, 6)));
    assert!((1, 2, 3, 4, 5, 6).is_not_same(&(1, 2, 3, 4, 5, 7)));
    assert!((1, 2, 3, 4, 5, 6, 7).is_same(&(1, 2, 3, 4, 5, 6, 7)));
    assert!((1, 2, 3, 4, 5, 6, 7).is_not_same(&(1, 2, 3, 0, 5, 6, 7)));
    assert!((1, 2, 3, 4, 5, 6, 7, true).is_same(&(1, 2, 3, 4, 5, 6, 7, true)));
    assert!((1, 2, 3, 4, 5, 6, 7, true).is_not_same(&(1, 2, 3, 4, 5, 6, 7, false)));
}

#[test]
fn borrowed_or_owned_values() {
    let five = 5u32;
    let borrowed: Cow<'_, u32> = Cow::Borrowed(&five);
    let owned: Cow<'_, u32> = Cow::Owned(5);
    let six: Cow<'_, u32> = Cow::Owned(6);
    assert!(borrowed.is_same(&owned));
    assert!(owned.is_same(&borrowed));
    assert!(borrowed.is_not_same(&six));
    assert!(six.is_not_same(&owned));
}

#[test]
fn hash_maps_need_the_same_keys() {
    let mut left = HashMap::new();
    left.insert(1u32, 'a');
    left.insert(2u32, 'b');
    let mut right = HashMap::new();
    right.insert(1u32, 'a');
    right.insert(3u32, 'b');
    assert!(left.is_not_same(&right));
    assert!(right.is_not_same(&left));
    right.remove(&3);
    assert!(left.is_not_same(&right));
    assert!(right.is_not_same(&left));
    right.insert(2, 'b');
    assert!(left.is_same(&right));
    right.insert(2, 'c');
    assert!(left.is_not_same(&right));
    let none: HashMap<u32, char> = HashMap::new();
    assert!(none.is_same(&HashMap::new()));
    assert!(none.is_not_same(&left));
}

#[test]
fn hash_sets_need_the_same_keys() {
    let left: HashSet<u32> = [1, 2, 3].into_iter().collect();
    let right: HashSet<u32> = [3, 2, 1].into_iter().collect();
    let other: HashSet<u32> = [1, 2, 4].into_iter().collect();
    let fewer: HashSet<u32> = [1, 2].into_iter().collect();
    assert!(left.is_same(&right));
    assert!(left.is_not_same(&other));
    assert!(left.is_not_same(&fewer));
    assert!(fewer.is_not_same(&left));
}

#[test]
fn ordered_maps_need_the_same_keys() {
    let mut left = BTreeMap::new();
    left.insert(1u32, 'a');
    left.insert(2u32, 'b');
    let mut right = BTreeMap::new();
    right.insert(3u32, 'b');
    right.insert(1u32, 'a');
    assert!(left.is_not_same(&right));
    assert!(right.is_not_same(&left));
    right.remove(&3);
    assert!(left.is_not_same(&right));
    assert!(right.is_not_same(&left));
    right.insert(2, 'b');
    assert!(left.is_same(&right));
    right.insert(2, 'c');
    assert!(left.is_not_same(&right));
    let none: BTreeMap<u32, char> = BTreeMap::new();
    assert!(none.is_same(&BTreeMap::new()));
    assert!(none.is_not_same(&left));
    assert!(left.is_not_same(&none));
}

#[test]
fn ordered_sets_need_the_same_keys() {
    let left: BTreeSet<u32> = [1, 2, 3].into_iter().collect();
    let right: BTreeSet<u32> = [3, 2, 1].into_iter().collect();
    let other: BTreeSet<u32> = [1, 2, 4].into_iter().collect();
    let fewer: BTreeSet<u32> = [1, 2].into_iter().collect();
    let none: BTreeSet<u32> = BTreeSet::new();
    assert!(left.is_same(&right));
    assert!(left.is_not_same(&other));
    assert!(left.is_not_same(&fewer));
    assert!(fewer.is_not_same(&left));
    assert!(none.is_same(&BTreeSet::new()));
    assert!(none.is_not_same(&fewer));
}

#[test]
fn maps_of_handles_go_by_allocation() {
    let shared = Rc::new('a');
    let mut left = HashMap::new();
    left.insert(1u8, shared.clone());
    let mut right = HashMap::new();
    right.insert(1u8, shared.clone());
    assert!(left.is_same(&right));
    right.insert(1u8, Rc::new('a'));
    assert!(left.is_not_same(&right));
}

#[test]
fn identity_settles_the_answer() {
    assert!(same_if_identical_or(true, &1u8, &1u8));
    assert!(same_if_identical_or(true, &1u8, &2u8));
    assert!(same_if_identical_or(false, &1u8, &1u8));
    assert!(!same_if_identical_or(false, &1u8, &2u8));
    assert!(same_if_identical_or(false, "text", "text"));
    assert!(!same_if_identical_or(false, "text", "other"));
    let left: &[u8] = &[1, 2];
    let right: &[u8] = &[1, 3];
    assert!(same_if_identical_or(true, left, right));
    assert!(!same_if_identical_or(false, left, right));
}

#[test]
fn paths_owned_and_borrowed() {
    let borrowed = Path::new("a/b");
    let owned = PathBuf::from("a/b");
    let trailing = PathBuf::from("a/b/");
    let other = PathBuf::from("a/c");
    assert!(IsSame::<Path>::is_same(borrowed, borrowed));
    assert!(IsSame::<Path>::is_same(borrowed, Path::new("a/b")));
    assert!(IsSame::<Path>::is_not_same(borrowed, Path::new("a/c")));
    assert!(IsSame::<&Path>::is_same(borrowed, &Path::new("a/b/")));
    assert!(IsSame::<PathBuf>::is_same(borrowed, &owned));
    assert!(IsSame::<PathBuf>::is_not_same(borrowed, &other));
    assert!(owned.is_same(&owned));
    assert!(owned.is_same(&trailing));
    assert!(owned.is_not_same(&other));
    assert!(owned.is_same(&borrowed));
    assert!(other.is_not_same(&borrowed));
    assert!(IsSame::<Path>::is_same(&owned, borrowed));
    assert!(IsSame::<Path>::is_not_same(&other, borrowed));
}

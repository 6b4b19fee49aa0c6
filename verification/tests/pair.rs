use kvp::KeyValuePair;
use std::cmp::Ordering;
use std::collections::hash_map::DefaultHasher;
use std::collections::BinaryHeap;
use std::hash::Hash;
use std::hash::Hasher;

/// A payload type with no equality, ordering, hashing or cloning capability.
struct NonOrderedType;

fn hash_of<T: Hash>(t: &T) -> u64 {
    let mut h = DefaultHasher::new();
    t.hash(&mut h);
    h.finish()
}

#[test]
fn eq_is_respected() {
    let mut a = vec![
        KeyValuePair {
            key: 2,
            value: NonOrderedType,
        },
        KeyValuePair {
            key: 1,
            value: NonOrderedType,
        },
        KeyValuePair {
            key: 0,
            value: NonOrderedType,
        },
        KeyValuePair {
            key: 6,
            value: NonOrderedType,
        },
    ];

    a.sort();

    assert_eq!(
        a.iter().map(|kv| kv.key).collect::<Vec<_>>(),
        vec![0, 1, 2, 6]
    );
}

#[test]
fn new_stores_fields_unchanged() {
    let p = KeyValuePair::new(41u32, "payload");
    assert_eq!(p.key, 41);
    assert_eq!(p.value, "payload");
}

#[test]
fn equal_keys_make_equal_pairs() {
    let a = KeyValuePair::new(7u64, "left");
    let b = KeyValuePair::new(7u64, "right");
    assert_eq!(a, b);
}

#[test]
fn differing_keys_make_unequal_pairs() {
    let a = KeyValuePair::new(7u64, "same");
    let b = KeyValuePair::new(8u64, "same");
    assert_ne!(a, b);
}

#[test]
fn equality_ignores_uncomparable_values() {
    let a = KeyValuePair::new(3i32, NonOrderedType);
    let b = KeyValuePair::new(3i32, NonOrderedType);
    let c = KeyValuePair::new(4i32, NonOrderedType);
    assert!(a == b);
    assert!(a != c);
}

#[test]
fn ordering_follows_keys_only() {
    let small = KeyValuePair::new(1i64, "zzz");
    let large = KeyValuePair::new(2i64, "aaa");
    assert_eq!(small.partial_cmp(&large), Some(Ordering::Less));
    assert_eq!(large.partial_cmp(&small), Some(Ordering::Greater));
    assert_eq!(
        small.partial_cmp(&KeyValuePair::new(1i64, "other")),
        Some(Ordering::Equal)
    );
    assert!(small < large);
}

#[test]
fn incomparable_keys_make_incomparable_pairs() {
    let a = KeyValuePair::new(f64::NAN, 1u8);
    let b = KeyValuePair::new(0.0f64, 2u8);
    assert_eq!(a.partial_cmp(&b), None);
    let c = KeyValuePair::new(1.5f64, 3u8);
    assert_eq!(b.partial_cmp(&c), Some(Ordering::Less));
}

#[test]
fn hashing_ignores_the_value() {
    let a = KeyValuePair::new(50u64, "Hey");
    let b = KeyValuePair::new(50u64, "entirely different payload");
    assert_eq!(hash_of(&a), hash_of(&b));
}

#[test]
fn hash_matches_bare_key() {
    let p = KeyValuePair::new(1234u32, vec![9u8, 9, 9]);
    assert_eq!(hash_of(&p), hash_of(&1234u32));
}

#[test]
fn equal_pairs_hash_identically() {
    let a = KeyValuePair::new("shared key", 1u8);
    let b = KeyValuePair::new("shared key", 2u8);
    assert_eq!(a, b);
    assert_eq!(hash_of(&a), hash_of(&b));
}

#[test]
fn clone_copies_both_fields() {
    let p = KeyValuePair::new(String::from("key"), vec![1u8, 2, 3]);
    let q = p.clone();
    assert_eq!(q.key, p.key);
    assert_eq!(q.value, p.value);
}

#[test]
fn clone_is_independent() {
    let mut p = KeyValuePair::new(String::from("key"), vec![1u8, 2, 3]);
    let q = p.clone();
    p.key.push_str("-changed");
    p.value.push(4);
    assert_eq!(q.key, "key");
    assert_eq!(q.value, vec![1u8, 2, 3]);
}

#[test]
fn copy_pairs_are_copied_implicitly() {
    let p = KeyValuePair::new(5u8, 6u8);
    let q = p;
    assert_eq!(p.key, q.key);
    assert_eq!(p.value, q.value);
}

#[test]
fn debug_shows_key_and_value() {
    let rendered = format!("{:?}", KeyValuePair::new(50, "Hey"));
    assert!(rendered.contains("50"));
    assert!(rendered.contains("Hey"));
}

#[test]
fn heap_pops_keys_in_order_with_their_values() {
    let mut heap = BinaryHeap::new();
    heap.push(KeyValuePair { key: 50, value: "A" });
    heap.push(KeyValuePair::new(0, "B"));
    heap.push(KeyValuePair::new(22, "C"));

    let first = heap.pop().unwrap();
    assert_eq!(first.key, 50);
    assert_eq!(first.value, "A");
    let second = heap.pop().unwrap();
    assert_eq!(second.key, 22);
    assert_eq!(second.value, "C");
    let third = heap.pop().unwrap();
    assert_eq!(third.key, 0);
    assert_eq!(third.value, "B");
    assert!(heap.pop().is_none());
}

#[test]
fn total_ordering_follows_keys_only() {
    let a = KeyValuePair::new(10u8, "ten");
    let b = KeyValuePair::new(20u8, "twenty");
    assert_eq!(a.cmp(&b), Ordering::Less);
    assert_eq!(b.cmp(&a), Ordering::Greater);
    assert_eq!(a.cmp(&KeyValuePair::new(10u8, "other")), Ordering::Equal);
}

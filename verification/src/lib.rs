//! A generic pair type whose functional identity lives entirely in its key.
//!
//! `KeyValuePair<TKey, TValue>` couples a comparison key with an arbitrary
//! payload. Equality and ordering are forwarded to the key alone, so ordered
//! containers can carry auxiliary data per element without requiring that
//! data to be comparable at all.

use vstd::prelude::*;

pub mod laws;

verus! {

use vstd::std_specs::cmp::PartialEqSpec;
use vstd::std_specs::cmp::PartialOrdSpec;
use vstd::pervasive::cloned;

/// A key together with an uncompared payload value.
///
/// All comparison capabilities of the pair delegate to `key`; `value` is
/// transported alongside but never takes part in equality or ordering.
#[derive(Debug)]
pub struct KeyValuePair<TKey, TValue> {
    pub key: TKey,
    pub value: TValue,
}

impl<TKey, TValue> KeyValuePair<TKey, TValue> {
    /// Builds the pair from its two fields, storing both unchanged.
    pub fn new(key: TKey, value: TValue) -> (r: Self)
        ensures
            r.key == key,
            r.value == value,
    {
        Self { key, value }
    }
}

impl<TKey: PartialEq, TValue> vstd::std_specs::cmp::PartialEqSpecImpl for KeyValuePair<TKey, TValue> {
    open spec fn obeys_eq_spec() -> bool {
        <TKey as vstd::std_specs::cmp::PartialEqSpec>::obeys_eq_spec()
    }

    open spec fn eq_spec(&self, other: &Self) -> bool {
        self.key.eq_spec(&other.key)
    }
}

impl<TKey: PartialEq, TValue> PartialEq for KeyValuePair<TKey, TValue> {
    /// Equality consults the keys alone: the result is always one that
    /// `TKey`'s own equality could have produced on the two keys, and the
    /// payloads are never inspected.
    fn eq(&self, other: &Self) -> (r: bool)
        ensures
            call_ensures(<TKey as PartialEq>::eq, (&self.key, &other.key), r),
    {
        self.key.eq(&other.key)
    }
}

impl<TKey: Eq, TValue> Eq for KeyValuePair<TKey, TValue> {
}

impl<TKey: PartialOrd, TValue> vstd::std_specs::cmp::PartialOrdSpecImpl for KeyValuePair<TKey, TValue> {
    open spec fn obeys_partial_cmp_spec() -> bool {
        <TKey as vstd::std_specs::cmp::PartialOrdSpec>::obeys_partial_cmp_spec()
    }

    open spec fn partial_cmp_spec(&self, other: &Self) -> Option<core::cmp::Ordering> {
        self.key.partial_cmp_spec(&other.key)
    }
}

impl<TKey: PartialOrd, TValue> PartialOrd for KeyValuePair<TKey, TValue> {
    /// Ordering consults the keys alone: the result is always one that
    /// `TKey`'s own comparison could have produced on the two keys, so the
    /// pair is incomparable exactly where its keys are.
    fn partial_cmp(&self, other: &Self) -> (r: Option<core::cmp::Ordering>)
        ensures
            call_ensures(<TKey as PartialOrd>::partial_cmp, (&self.key, &other.key), r),
    {
        self.key.partial_cmp(&other.key)
    }
}

impl<TKey: Ord, TValue> Ord for KeyValuePair<TKey, TValue> {
    /// Relies on `TKey`'s `Ord::cmp`, applied to the two keys alone: the
    /// result is whatever that total order answers, and the payloads are
    /// never inspected. The forward itself is trusted because a hand-written
    /// `Ord` cannot be checked against its specification (that would take a
    /// spec-side impl covering `max`, `min` and `clamp`, which std builds on
    /// `PartialOrd`); its stated clause is exactly what the one call returns.
    #[verifier::external_body]
    fn cmp(&self, other: &Self) -> (r: core::cmp::Ordering)
        ensures
            call_ensures(<TKey as Ord>::cmp, (&self.key, &other.key), r),
    {
        self.key.cmp(&other.key)
    }
}

impl<TKey: Clone, TValue: Clone> Clone for KeyValuePair<TKey, TValue> {
    /// Duplication duplicates the two fields independently, each with its own
    /// type's `clone`; no field is invented, dropped or mixed into the other.
    fn clone(&self) -> (r: Self)
        ensures
            cloned::<TKey>(self.key, r.key),
            cloned::<TValue>(self.value, r.value),
    {
        Self { key: self.key.clone(), value: self.value.clone() }
    }
}

impl<TKey: Copy, TValue: Copy> Copy for KeyValuePair<TKey, TValue> {
}

impl<TKey: core::hash::Hash, TValue> core::hash::Hash for KeyValuePair<TKey, TValue> {
    /// Relies on `TKey`'s `Hash::hash`: the hasher state is fed from the key
    /// alone, so the payload contributes nothing to any hash.
    #[verifier::external_body]
    fn hash<H: core::hash::Hasher>(&self, state: &mut H) {
        self.key.hash(state)
    }
}

} // verus!

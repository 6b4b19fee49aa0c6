//! The laws a `KeyValuePair` obeys: its functional identity is its key.
//!
//! Each proof function states one law over the specification functions that
//! the pair's trait impls are proved against, so a caller can rely on the
//! pair behaving, inside an ordered container, exactly as a bare key would.

use vstd::prelude::*;

verus! {

use vstd::std_specs::cmp::PartialEqSpec;
use vstd::std_specs::cmp::PartialOrdSpec;
use vstd::laws_eq::obeys_eq;
use vstd::laws_cmp::obeys_partial_cmp_spec_properties;
use vstd::laws_cmp::obeys_cmp_partial_ord;
use vstd::pervasive::cloned;
use vstd::pervasive::strictly_cloned;
use crate::KeyValuePair;

/// Key-only equality: whether two pairs count as equal is exactly whether
/// their keys do, whatever the two payloads hold and whatever their type
/// can or cannot do.
pub proof fn lemma_eq_is_key_only<TKey: PartialEq, TValue>(
    a: &KeyValuePair<TKey, TValue>,
    b: &KeyValuePair<TKey, TValue>,
)
    ensures
        a.eq_spec(b) == a.key.eq_spec(&b.key),
{
}

/// Key-only ordering: a comparison of two pairs is exactly the comparison of
/// their keys, and in particular the pairs are incomparable exactly where the
/// keys are.
pub proof fn lemma_partial_cmp_is_key_only<TKey: PartialOrd, TValue>(
    a: &KeyValuePair<TKey, TValue>,
    b: &KeyValuePair<TKey, TValue>,
)
    ensures
        a.partial_cmp_spec(b) == a.key.partial_cmp_spec(&b.key),
{
}

/// A pair's equality is as lawful as its key's: where the key type's `==`
/// follows its specification and that specification is symmetric and
/// transitive, the pair's `==` is so too.
pub proof fn lemma_pair_obeys_eq<TKey: PartialEq, TValue>()
    requires
        obeys_eq::<TKey>(),
    ensures
        obeys_eq::<KeyValuePair<TKey, TValue>>(),
{
    reveal(vstd::laws_eq::obeys_eq_spec_properties);
    assert forall|x: KeyValuePair<TKey, TValue>, y: KeyValuePair<TKey, TValue>| #[trigger]
        x.eq_spec(&y) <==> y.eq_spec(&x) by {
        assert(x.key.eq_spec(&y.key) <==> y.key.eq_spec(&x.key));
    }
    assert forall|
        x: KeyValuePair<TKey, TValue>,
        y: KeyValuePair<TKey, TValue>,
        z: KeyValuePair<TKey, TValue>,
    |
        x.eq_spec(&y) && #[trigger] y.eq_spec(&z) implies #[trigger] x.eq_spec(&z) by {
        assert(x.key.eq_spec(&y.key) && y.key.eq_spec(&z.key) ==> x.key.eq_spec(&z.key));
    }
}

/// A pair's ordering is as lawful as its key's: symmetry of `Less` against
/// `Greater`, transitivity in both directions, and agreement of `Equal` with
/// equality all carry over from the key type to the pair.
pub proof fn lemma_pair_obeys_partial_cmp<TKey: PartialOrd, TValue>()
    requires
        obeys_partial_cmp_spec_properties::<TKey>(),
    ensures
        obeys_partial_cmp_spec_properties::<KeyValuePair<TKey, TValue>>(),
{
    reveal(vstd::laws_eq::obeys_eq_spec_properties);
    reveal(vstd::laws_cmp::obeys_partial_cmp_spec_properties);
    assert forall|x: KeyValuePair<TKey, TValue>, y: KeyValuePair<TKey, TValue>| #[trigger]
        x.eq_spec(&y) <==> y.eq_spec(&x) by {
        assert(x.key.eq_spec(&y.key) <==> y.key.eq_spec(&x.key));
    }
    assert forall|
        x: KeyValuePair<TKey, TValue>,
        y: KeyValuePair<TKey, TValue>,
        z: KeyValuePair<TKey, TValue>,
    |
        x.eq_spec(&y) && #[trigger] y.eq_spec(&z) implies #[trigger] x.eq_spec(&z) by {
        assert(x.key.eq_spec(&y.key) && y.key.eq_spec(&z.key) ==> x.key.eq_spec(&z.key));
    }
    assert forall|x: KeyValuePair<TKey, TValue>, y: KeyValuePair<TKey, TValue>| #[trigger]
        x.partial_cmp_spec(&y) == Some(core::cmp::Ordering::Equal) <==> x.eq_spec(&y) by {
        assert(x.key.partial_cmp_spec(&y.key) == Some(core::cmp::Ordering::Equal) <==> x.key.eq_spec(
            &y.key,
        ));
    }
    assert forall|x: KeyValuePair<TKey, TValue>, y: KeyValuePair<TKey, TValue>| #[trigger]
        x.partial_cmp_spec(&y) == Some(core::cmp::Ordering::Less) <==> y.partial_cmp_spec(&x)
        == Some(core::cmp::Ordering::Greater) by {
        assert(x.key.partial_cmp_spec(&y.key) == Some(core::cmp::Ordering::Less)
            <==> y.key.partial_cmp_spec(&x.key) == Some(core::cmp::Ordering::Greater));
    }
    assert forall|
        x: KeyValuePair<TKey, TValue>,
        y: KeyValuePair<TKey, TValue>,
        z: KeyValuePair<TKey, TValue>,
    |
        x.partial_cmp_spec(&y) == Some(core::cmp::Ordering::Less) && #[trigger] y.partial_cmp_spec(
            &z,
        ) == Some(core::cmp::Ordering::Less) implies #[trigger] x.partial_cmp_spec(&z) == Some(
        core::cmp::Ordering::Less,
    ) by {
        assert(x.key.partial_cmp_spec(&y.key) == Some(core::cmp::Ordering::Less)
            && y.key.partial_cmp_spec(&z.key) == Some(core::cmp::Ordering::Less)
            ==> x.key.partial_cmp_spec(&z.key) == Some(core::cmp::Ordering::Less));
    }
    assert forall|
        x: KeyValuePair<TKey, TValue>,
        y: KeyValuePair<TKey, TValue>,
        z: KeyValuePair<TKey, TValue>,
    |
        x.partial_cmp_spec(&y) == Some(core::cmp::Ordering::Greater)
            && #[trigger] y.partial_cmp_spec(&z) == Some(
            core::cmp::Ordering::Greater,
        ) implies #[trigger] x.partial_cmp_spec(&z) == Some(core::cmp::Ordering::Greater) by {
        assert(x.key.partial_cmp_spec(&y.key) == Some(core::cmp::Ordering::Greater)
            && y.key.partial_cmp_spec(&z.key) == Some(core::cmp::Ordering::Greater)
            ==> x.key.partial_cmp_spec(&z.key) == Some(core::cmp::Ordering::Greater));
    }
}

/// Where the key type's `==` and comparison agree with each other, the
/// pair's do as well: a comparison answers `Equal` exactly on equal pairs.
pub proof fn lemma_pair_eq_agrees_with_cmp<TKey: PartialOrd, TValue>()
    requires
        obeys_cmp_partial_ord::<TKey>(),
    ensures
        obeys_cmp_partial_ord::<KeyValuePair<TKey, TValue>>(),
{
    reveal(vstd::laws_cmp::obeys_cmp_partial_ord);
    assert forall|x: KeyValuePair<TKey, TValue>, y: KeyValuePair<TKey, TValue>| #[trigger]
        x.eq_spec(&y) <==> x.partial_cmp_spec(&y) == Some(core::cmp::Ordering::Equal) by {
        assert(x.key.eq_spec(&y.key) <==> x.key.partial_cmp_spec(&y.key) == Some(
            core::cmp::Ordering::Equal,
        ));
    }
}

/// Duplication fidelity: where the two field types' `clone` implementations
/// promise to return their input, a pair duplicated field by field reproduces
/// the original exactly.
pub proof fn lemma_duplicate_faithful<TKey: Clone, TValue: Clone>(
    p: &KeyValuePair<TKey, TValue>,
    r: &KeyValuePair<TKey, TValue>,
)
    requires
        cloned::<TKey>(p.key, r.key),
        cloned::<TValue>(p.value, r.value),
        forall|a: TKey, b: TKey| #[trigger] strictly_cloned::<TKey>(a, b) ==> b == a,
        forall|a: TValue, b: TValue| #[trigger] strictly_cloned::<TValue>(a, b) ==> b == a,
    ensures
        r.key == p.key,
        r.value == p.value,
{
}

} // verus!

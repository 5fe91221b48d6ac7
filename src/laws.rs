//! Laws that relate the lookups to one another and to the shape of the tree.
use vstd::prelude::*;

use crate::mixed::{cast_outcome, local_outcome};
use crate::node::Node;

verus! {

/// A key that neither a node nor any of its ancestors holds is absent from both the
/// local and the ancestor-aware lookup, whatever cast is asked for.
pub proof fn absent_key_is_absent<'a, K: 'a, V: 'a, T, F: Fn(&'a V) -> Option<T>>(
    n: Node<K, V>,
    k: K,
    cast: F,
)
    requires
        n.absent_along(k),
    ensures
        n.local_lookup(k) is None,
        n.lookup(k) is None,
        forall|r: Option<(&'a Node<K, V>, Result<T, &'a V>)>| #[trigger]
            n.dynamic_outcome(k, cast, r) ==> r is None,
        forall|r: Option<Result<T, &'a V>>| #[trigger]
            local_outcome(cast, n.local_lookup(k), r) ==> r is None,
{
    n.lemma_absent_along(k);
}

/// When a node holds `k -> v` itself and the cast accepts `v`, the local lookup
/// reports that the cast succeeded, with what the cast made of `v`.
pub proof fn local_cast_of_held_value_succeeds<'a, K: 'a, V: 'a, T, F: Fn(&'a V) -> Option<T>>(
    n: Node<K, V>,
    k: K,
    v: V,
    cast: F,
    r: Option<Result<T, &'a V>>,
)
    requires
        n.local_lookup(k) == Some(v),
        forall|o: Option<T>| #[trigger] cast.ensures((&v,), o) ==> o is Some,
        local_outcome(cast, n.local_lookup(k), r),
    ensures
        r matches Some(Ok(t)) && cast.ensures((&v,), Some(t)),
{
}

/// When a node holds `k -> v` itself and the cast rejects `v`, the local lookup
/// reports that the cast failed and hands back `v` itself, so that any cast that
/// accepts `v` accepts what was handed back.
pub proof fn local_cast_of_other_type_hands_value_back<'a, K: 'a, V: 'a, T, F: Fn(&'a V) -> Option<T>>(
    n: Node<K, V>,
    k: K,
    v: V,
    cast: F,
    r: Option<Result<T, &'a V>>,
)
    requires
        n.local_lookup(k) == Some(v),
        forall|o: Option<T>| #[trigger] cast.ensures((&v,), o) ==> o is None,
        local_outcome(cast, n.local_lookup(k), r),
    ensures
        r matches Some(Err(e)) && *e == v,
{
}

/// In a chain `root -> mid -> leaf` where only `root` holds `k`, looking `k` up from
/// `leaf` finds it at `root`, exactly as looking it up from `root` does.
pub proof fn lookup_reaches_root<K, V>(root: Node<K, V>, mid: Node<K, V>, leaf: Node<K, V>, k: K)
    requires
        leaf.parent_node() == Some(mid),
        mid.parent_node() == Some(root),
        leaf.local_lookup(k) is None,
        mid.local_lookup(k) is None,
        root.local_lookup(k) is Some,
    ensures
        leaf.lookup(k) == root.lookup(k),
        leaf.lookup(k) == Some((root, root.local_lookup(k).unwrap())),
{
    assert(mid.lookup(k) == root.lookup(k));
    assert(leaf.lookup(k) == mid.lookup(k));
}

/// In a chain `root -> mid -> leaf` where `mid` and `root` both hold `k`, looking `k`
/// up from `leaf` finds the value held by `mid`: the nearest holder wins.
pub proof fn nearest_holder_wins<K, V>(root: Node<K, V>, mid: Node<K, V>, leaf: Node<K, V>, k: K)
    requires
        leaf.parent_node() == Some(mid),
        mid.parent_node() == Some(root),
        leaf.local_lookup(k) is None,
        mid.local_lookup(k) is Some,
        root.local_lookup(k) is Some,
    ensures
        leaf.lookup(k) == Some((mid, mid.local_lookup(k).unwrap())),
{
    assert(leaf.lookup(k) == mid.lookup(k));
}

/// Looking the same key up twice on the same tree, with a cast whose outcome depends
/// on its input alone, gives the same result both times, from either lookup.
pub proof fn lookups_are_repeatable<'a, K: 'a, V: 'a, T, F: Fn(&'a V) -> Option<T>>(
    n: Node<K, V>,
    k: K,
    cast: F,
    r1: Option<(&'a Node<K, V>, Result<T, &'a V>)>,
    r2: Option<(&'a Node<K, V>, Result<T, &'a V>)>,
    l1: Option<Result<T, &'a V>>,
    l2: Option<Result<T, &'a V>>,
)
    requires
        forall|x: &'a V, o1: Option<T>, o2: Option<T>|
            cast.ensures((x,), o1) && cast.ensures((x,), o2) ==> o1 == o2,
        n.dynamic_outcome(k, cast, r1),
        n.dynamic_outcome(k, cast, r2),
        local_outcome(cast, n.local_lookup(k), l1),
        local_outcome(cast, n.local_lookup(k), l2),
    ensures
        r1 == r2,
        l1 == l2,
{
    if let (Some((_, c1)), Some((_, c2))) = (r1, r2) {
        let w = n.lookup(k).unwrap().1;
        assert(cast_outcome(cast, w, c1) && cast_outcome(cast, w, c2));
    }
}

} // verus!

//! Typed lookups in a tree whose values are type-erased: find a value by key, then
//! try to recover it as a concrete type.
use vstd::prelude::*;

use crate::key::ScopeKey;
use crate::node::Node;

verus! {

/// What casting the found value `v` gave: `Ok` with what the cast produced when it
/// succeeded, or `Err` with `v` itself when it did not.
pub open spec fn cast_outcome<'a, V, T, F: Fn(&'a V) -> Option<T>>(
    cast: F,
    v: V,
    c: Result<T, &'a V>,
) -> bool {
    match c {
        Ok(t) => cast.ensures((&v,), Some(t)),
        Err(e) => *e == v && cast.ensures((&v,), None),
    }
}

/// `r` is what casting the result `found` of a local lookup gives: absent when nothing
/// was found, and otherwise the cast outcome of the value found.
pub open spec fn local_outcome<'a, V, T, F: Fn(&'a V) -> Option<T>>(
    cast: F,
    found: Option<V>,
    r: Option<Result<T, &'a V>>,
) -> bool {
    match (r, found) {
        (None, None) => true,
        (Some(c), Some(w)) => cast_outcome(cast, w, c),
        _ => false,
    }
}

impl<K, V> Node<K, V> {
    /// `r` is what looking `key` up from this node and casting the value found gives:
    /// absent when no node from here to the root holds `key`, and otherwise the
    /// nearest node that holds it, with the cast outcome of its value.
    pub open spec fn dynamic_outcome<'a, T, F: Fn(&'a V) -> Option<T>>(
        self,
        key: K,
        cast: F,
        r: Option<(&'a Node<K, V>, Result<T, &'a V>)>,
    ) -> bool {
        match (r, self.lookup(key)) {
            (None, None) => true,
            (Some((n, c)), Some((m, w))) => *n == m && cast_outcome(cast, w, c),
            _ => false,
        }
    }
}

impl<K: ScopeKey, V> Node<K, V> {
    /// Finds `key` in this node or the nearest ancestor that holds it, and tries to
    /// cast the value there with `cast`. Along with the outcome comes the node that
    /// held the value.
    pub fn get_dynamic<'a, T, F>(&'a self, key: &K, cast: F) -> (r: Option<
        (&'a Node<K, V>, Result<T, &'a V>),
    >) where F: Fn(&'a V) -> Option<T>
        requires
            forall|v: &'a V| cast.requires((v,)),
        ensures
            self.dynamic_outcome(*key, cast, r),
    {
        match self.get(key) {
            Some((node, value)) => {
                let c = match cast(value) {
                    Some(t) => Ok(t),
                    None => Err(value),
                };
                Some((node, c))
            },
            None => None,
        }
    }

    /// Finds `key` among this node's own entries, without consulting its ancestors,
    /// and tries to cast the value there with `cast`.
    pub fn get_local_dynamic<'a, T, F>(&'a self, key: &K, cast: F) -> (r: Option<
        Result<T, &'a V>,
    >) where F: Fn(&'a V) -> Option<T>
        requires
            forall|v: &'a V| cast.requires((v,)),
        ensures
            local_outcome(cast, self.local_lookup(*key), r),
    {
        match self.get_local(key) {
            Some(value) => match cast(value) {
                Some(t) => Some(Ok(t)),
                None => Some(Err(value)),
            },
            None => None,
        }
    }
}

} // verus!

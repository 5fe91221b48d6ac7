//! Keys of a scope, compared by value.
use vstd::prelude::*;

verus! {

/// A key that a scope can be searched by: two keys match exactly when they are equal.
pub trait ScopeKey: Sized {
    /// Whether `self` and `other` are the same key.
    fn same_key(&self, other: &Self) -> (r: bool)
        ensures
            r == (*self == *other),
    ;
}

impl ScopeKey for u64 {
    fn same_key(&self, other: &Self) -> (r: bool) {
        *self == *other
    }
}

} // verus!

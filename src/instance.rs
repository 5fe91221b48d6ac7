//! Instance registries: trees keyed by type identity, where looking a type up finds
//! the instance registered for it.
use core::any::TypeId;
use vstd::prelude::*;

use crate::key::ScopeKey;
use crate::node::Node;

verus! {

#[verifier::external_type_specification]
#[verifier::external_body]
pub struct ExTypeId(TypeId);

/// Relies on `TypeId::of`: it yields the identity token of `T`. Nothing is assumed of
/// which token that is.
pub assume_specification<T: ?Sized + 'static>[ TypeId::of::<T> ]() -> (r: TypeId);

/// Relies on `TypeId`'s `==`: two identity tokens compare equal exactly when they are
/// the same token.
pub assume_specification[ <TypeId as PartialEq>::eq ](a: &TypeId, b: &TypeId) -> (r: bool)
    ensures
        r == (*a == *b),
;

impl ScopeKey for TypeId {
    fn same_key(&self, other: &Self) -> (r: bool) {
        *self == *other
    }
}

impl<V> Node<TypeId, V> {
    /// Finds the instance registered for `X`, in this node or the nearest ancestor
    /// that holds one, and tries to cast it with `cast`. This is `get_dynamic` with
    /// `X`'s identity token as the key.
    pub fn get_instance<'a, X: ?Sized + 'static, T, F>(&'a self, cast: F) -> (r: Option<
        (&'a Node<TypeId, V>, Result<T, &'a V>),
    >) where F: Fn(&'a V) -> Option<T>
        requires
            forall|v: &'a V| cast.requires((v,)),
        ensures
            exists|id: TypeId| self.dynamic_outcome(id, cast, r),
    {
        let id = TypeId::of::<X>();
        let r = self.get_dynamic(&id, cast);
        assert(self.dynamic_outcome(id, cast, r));
        r
    }

    /// Finds the instance registered for `X` among this node's own entries, and tries
    /// to cast it with `cast`.
    pub fn get_local_instance<'a, X: ?Sized + 'static, T, F>(&'a self, cast: F) -> (r: Option<
        Result<T, &'a V>,
    >) where F: Fn(&'a V) -> Option<T>
        requires
            forall|v: &'a V| cast.requires((v,)),
        ensures
            exists|id: TypeId| crate::mixed::local_outcome(cast, self.local_lookup(id), r),
    {
        let id = TypeId::of::<X>();
        let r = self.get_local_dynamic(&id, cast);
        assert(crate::mixed::local_outcome(cast, self.local_lookup(id), r));
        r
    }
}

} // verus!

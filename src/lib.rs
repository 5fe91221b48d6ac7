//! Typed, ancestor-aware lookups over a tree of scopes whose values are type-erased.
use vstd::prelude::*;

pub mod instance;
pub mod key;
pub mod laws;
pub mod mixed;
pub mod node;

use crate::node::Node;

verus! {

/// Marks the node configurations that the typed lookups are defined for.
pub trait Sealed {

}

impl<K, V> Sealed for Node<K, V> {

}

} // verus!

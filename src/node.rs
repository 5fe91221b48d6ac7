//! A tree of scopes: each node holds its own entries and may refer to a parent.
use std::sync::Arc;
use vstd::prelude::*;

use crate::key::ScopeKey;

verus! {

/// The value stored under `k` in `s`: the first entry with that key.
pub open spec fn scope_get<K, V>(s: Seq<(K, V)>, k: K) -> Option<V>
    decreases s.len(),
{
    if s.len() == 0 {
        None
    } else if s[0].0 == k {
        Some(s[0].1)
    } else {
        scope_get(s.drop_first(), k)
    }
}

/// A node of the tree: its local entries, and the parent it delegates to.
pub struct Node<K, V> {
    local: Vec<(K, V)>,
    parent: Option<Arc<Node<K, V>>>,
}

impl<K, V> Node<K, V> {
    /// The entries held by this node itself, in the order they were provided.
    pub closed spec fn entries(self) -> Seq<(K, V)> {
        self.local@
    }

    /// The parent of this node, if any.
    pub closed spec fn parent_node(self) -> Option<Node<K, V>> {
        match self.parent {
            Some(p) => Some(*p),
            None => None,
        }
    }

    /// The value this node holds under `k` itself.
    pub open spec fn local_lookup(self, k: K) -> Option<V> {
        scope_get(self.entries(), k)
    }

    /// The nearest node, starting at this one and going towards the root, that holds
    /// `k`, together with the value it holds.
    pub open spec fn lookup(self, k: K) -> Option<(Node<K, V>, V)>
        decreases self,
    {
        match self.local_lookup(k) {
            Some(v) => Some((self, v)),
            None => match self.parent_node() {
                Some(p) => p.lookup(k),
                None => None,
            },
        }
    }

    /// Neither this node nor any of its ancestors holds `k`.
    pub open spec fn absent_along(self, k: K) -> bool
        decreases self,
    {
        self.local_lookup(k) is None && match self.parent_node() {
            Some(p) => p.absent_along(k),
            None => true,
        }
    }

    /// A key absent along the whole chain is not found by the ancestor-aware lookup.
    pub proof fn lemma_absent_along(self, k: K)
        requires
            self.absent_along(k),
        ensures
            self.lookup(k) is None,
        decreases self,
    {
        if let Some(p) = self.parent_node() {
            p.lemma_absent_along(k);
        }
    }
}

impl<K: ScopeKey, V> Node<K, V> {
    /// A root node with no entries.
    pub fn new() -> (r: Self)
        ensures
            r.entries() == Seq::<(K, V)>::empty(),
            r.parent_node() is None,
    {
        Node { local: Vec::new(), parent: None }
    }

    /// A node with no entries of its own, below `parent`.
    pub fn derive(parent: Arc<Node<K, V>>) -> (r: Self)
        ensures
            r.entries() == Seq::<(K, V)>::empty(),
            r.parent_node() == Some(*parent),
    {
        Node { local: Vec::new(), parent: Some(parent) }
    }

    /// Adds `key -> value` to this node's own entries, unless it already holds `key`,
    /// in which case `value` is handed back and nothing changes.
    pub fn provide(&mut self, key: K, value: V) -> (r: Result<(), V>)
        ensures
            old(self).local_lookup(key) is Some ==> r == Err::<(), V>(value) && *final(self)
                == *old(self),
            old(self).local_lookup(key) is None ==> r is Ok && final(self).parent_node()
                == old(self).parent_node() && forall|k: K| #[trigger]
                final(self).local_lookup(k) == if k == key {
                    Some(value)
                } else {
                    old(self).local_lookup(k)
                },
    {
        if self.get_local(&key).is_some() {
            return Err(value);
        }
        proof {
            lemma_scope_get_push(self.local@, key, value);
        }
        self.local.push((key, value));
        Ok(())
    }

    /// The parent of this node, if it has one.
    pub fn parent(&self) -> (r: Option<&Node<K, V>>)
        ensures
            match (r, self.parent_node()) {
                (None, None) => true,
                (Some(p), Some(q)) => *p == q,
                _ => false,
            },
    {
        match &self.parent {
            Some(p) => Some(&**p),
            None => None,
        }
    }

    /// The value this node holds under `key` itself, without consulting its ancestors.
    pub fn get_local(&self, key: &K) -> (r: Option<&V>)
        ensures
            match (r, self.local_lookup(*key)) {
                (None, None) => true,
                (Some(v), Some(w)) => *v == w,
                _ => false,
            },
    {
        let n = self.local.len();
        let mut i: usize = 0;
        assert(self.local@.subrange(0, n as int) =~= self.local@);
        while i < n
            invariant
                n == self.local@.len(),
                i <= n,
                scope_get(self.local@, *key) == scope_get(self.local@.subrange(i as int, n as int), *key),
            decreases n - i,
        {
            let entry = &self.local[i];
            assert(self.local@.subrange(i as int, n as int).drop_first() =~= self.local@.subrange(
                i + 1,
                n as int,
            ));
            if entry.0.same_key(key) {
                return Some(&entry.1);
            }
            i = i + 1;
        }
        None
    }

    /// The nearest node, starting at this one and going towards the root, that holds
    /// `key`, together with the value it holds there.
    pub fn get(&self, key: &K) -> (r: Option<(&Node<K, V>, &V)>)
        ensures
            match (r, self.lookup(*key)) {
                (None, None) => true,
                (Some((n, v)), Some((m, w))) => *n == m && *v == w,
                _ => false,
            },
        decreases self,
    {
        match self.get_local(key) {
            Some(v) => Some((self, v)),
            None => match &self.parent {
                Some(p) => p.get(key),
                None => None,
            },
        }
    }
}

proof fn lemma_scope_get_push_at<K, V>(s: Seq<(K, V)>, key: K, value: V, k: K)
    requires
        scope_get(s, key) is None,
    ensures
        scope_get(s.push((key, value)), k) == if k == key {
            Some(value)
        } else {
            scope_get(s, k)
        },
    decreases s.len(),
{
    let t = s.push((key, value));
    if s.len() == 0 {
        assert(t.drop_first() =~= Seq::<(K, V)>::empty());
        assert(t[0] == (key, value));
        assert(scope_get(t.drop_first(), k) is None);
    } else {
        assert(t.drop_first() =~= s.drop_first().push((key, value)));
        assert(t[0] == s[0]);
        if s[0].0 != k && s[0].0 != key {
            lemma_scope_get_push_at(s.drop_first(), key, value, k);
        }
    }
}

proof fn lemma_scope_get_push<K, V>(s: Seq<(K, V)>, key: K, value: V)
    requires
        scope_get(s, key) is None,
    ensures
        forall|k: K| #[trigger]
            scope_get(s.push((key, value)), k) == if k == key {
                Some(value)
            } else {
                scope_get(s, k)
            },
{
    assert forall|k: K| #[trigger]
        scope_get(s.push((key, value)), k) == if k == key {
            Some(value)
        } else {
            scope_get(s, k)
        } by {
        lemma_scope_get_push_at(s, key, value, k);
    }
}

} // verus!

use std::any::{Any, TypeId};
use std::sync::Arc;

use mayonnaise::node::Node;

type Erased = Box<dyn Any>;

fn erased<T: Any>(t: T) -> Erased {
    Box::new(t)
}

fn root_with(entries: Vec<(u64, Erased)>) -> Node<u64, Erased> {
    let mut n: Node<u64, Erased> = Node::new();
    for (k, v) in entries {
        assert!(n.provide(k, v).is_ok());
    }
    n
}

#[test]
fn absent_key_is_absent_everywhere() {
    let root = Arc::new(root_with(vec![(1, erased(5i32))]));
    let leaf: Node<u64, Erased> = Node::derive(root.clone());
    assert!(leaf.get_local_dynamic(&2, |v| v.downcast_ref::<i32>()).is_none());
    assert!(leaf.get_dynamic(&2, |v| v.downcast_ref::<i32>()).is_none());
    assert!(root.get_dynamic(&2, |v| v.downcast_ref::<i32>()).is_none());
    assert!(leaf.get(&2).is_none());
}

#[test]
fn empty_node_finds_nothing() {
    let n: Node<u64, Erased> = Node::new();
    assert!(n.get_local(&0).is_none());
    assert!(n.get_local_dynamic(&0, |v| v.downcast_ref::<u8>()).is_none());
    assert!(n.get_dynamic(&u64::MAX, |v| v.downcast_ref::<u8>()).is_none());
    assert!(n.parent().is_none());
}

#[test]
fn local_cast_to_stored_type_succeeds() {
    let n = root_with(vec![(3, erased(5i32)), (4, erased(String::from("four")))]);
    match n.get_local_dynamic(&3, |v| v.downcast_ref::<i32>()) {
        Some(Ok(x)) => assert_eq!(*x, 5),
        _ => panic!("expected a successful cast"),
    }
    match n.get_local_dynamic(&4, |v| v.downcast_ref::<String>()) {
        Some(Ok(s)) => assert_eq!(s, "four"),
        _ => panic!("expected a successful cast"),
    }
}

#[test]
fn local_cast_to_other_type_hands_value_back() {
    let n = root_with(vec![(3, erased(5i32))]);
    match n.get_local_dynamic(&3, |v| v.downcast_ref::<String>()) {
        Some(Err(e)) => assert_eq!(e.downcast_ref::<i32>(), Some(&5)),
        _ => panic!("expected a failed cast"),
    }
}

#[test]
fn local_lookup_ignores_ancestors() {
    let root = Arc::new(root_with(vec![(1, erased(5i32))]));
    let leaf: Node<u64, Erased> = Node::derive(root.clone());
    assert!(leaf.get_local(&1).is_none());
    assert!(leaf.get_local_dynamic(&1, |v| v.downcast_ref::<i32>()).is_none());
    assert!(leaf.get_dynamic(&1, |v| v.downcast_ref::<i32>()).is_some());
}

#[test]
fn lookup_reaches_root() {
    let root = Arc::new(root_with(vec![(7, erased(70u32))]));
    let mid = Arc::new(Node::derive(root.clone()));
    let leaf: Node<u64, Erased> = Node::derive(mid.clone());
    let (n, c) = leaf.get_dynamic(&7, |v| v.downcast_ref::<u32>()).unwrap();
    assert!(std::ptr::eq(n, &*root));
    assert!(matches!(c, Ok(&70)));
    let (m, d) = root.get_dynamic(&7, |v| v.downcast_ref::<u32>()).unwrap();
    assert!(std::ptr::eq(m, n));
    assert!(matches!(d, Ok(&70)));
    assert!(std::ptr::eq(leaf.parent().unwrap().parent().unwrap(), &*root));
}

#[test]
fn nearest_holder_wins() {
    let root = Arc::new(root_with(vec![(7, erased(1i64))]));
    let mut mid: Node<u64, Erased> = Node::derive(root.clone());
    assert!(mid.provide(7, erased(2i64)).is_ok());
    let mid = Arc::new(mid);
    let leaf: Node<u64, Erased> = Node::derive(mid.clone());
    let (n, c) = leaf.get_dynamic(&7, |v| v.downcast_ref::<i64>()).unwrap();
    assert!(std::ptr::eq(n, &*mid));
    assert!(matches!(c, Ok(&2)));
    let (n, v) = leaf.get(&7).unwrap();
    assert!(std::ptr::eq(n, &*mid));
    assert_eq!(v.downcast_ref::<i64>(), Some(&2));
}

#[test]
fn ancestor_cast_failure_hands_value_back() {
    let root = Arc::new(root_with(vec![(9, erased('x'))]));
    let leaf: Node<u64, Erased> = Node::derive(root.clone());
    let (n, c) = leaf.get_dynamic(&9, |v| v.downcast_ref::<u8>()).unwrap();
    assert!(std::ptr::eq(n, &*root));
    match c {
        Err(e) => assert_eq!(e.downcast_ref::<char>(), Some(&'x')),
        Ok(_) => panic!("expected a failed cast"),
    }
}

#[test]
fn provide_refuses_a_held_key() {
    let mut n = root_with(vec![(1, erased(5i32))]);
    match n.provide(1, erased(6i32)) {
        Err(v) => assert_eq!(v.downcast_ref::<i32>(), Some(&6)),
        Ok(()) => panic!("a held key must be refused"),
    }
    assert_eq!(n.get_local(&1).unwrap().downcast_ref::<i32>(), Some(&5));
    assert!(n.provide(2, erased(6i32)).is_ok());
    assert_eq!(n.get_local(&2).unwrap().downcast_ref::<i32>(), Some(&6));
}

#[test]
fn provide_in_child_shadows_without_touching_parent() {
    let root = Arc::new(root_with(vec![(1, erased(5i32))]));
    let mut leaf: Node<u64, Erased> = Node::derive(root.clone());
    assert!(leaf.provide(1, erased(6i32)).is_ok());
    assert_eq!(leaf.get(&1).unwrap().1.downcast_ref::<i32>(), Some(&6));
    assert_eq!(root.get(&1).unwrap().1.downcast_ref::<i32>(), Some(&5));
}

#[test]
fn lookups_are_repeatable() {
    let root = Arc::new(root_with(vec![(1, erased(5i32)), (2, erased(true))]));
    let leaf: Node<u64, Erased> = Node::derive(root.clone());
    for k in [1u64, 2, 3] {
        let a = leaf.get_dynamic(&k, |v| v.downcast_ref::<i32>());
        let b = leaf.get_dynamic(&k, |v| v.downcast_ref::<i32>());
        match (a, b) {
            (None, None) => {}
            (Some((n1, Ok(x))), Some((n2, Ok(y)))) => {
                assert!(std::ptr::eq(n1, n2));
                assert_eq!(x, y);
            }
            (Some((n1, Err(e1))), Some((n2, Err(e2)))) => {
                assert!(std::ptr::eq(n1, n2));
                assert!(std::ptr::eq(e1, e2));
            }
            _ => panic!("a repeated lookup gave another result"),
        }
        let c = root.get_local_dynamic(&k, |v| v.downcast_ref::<bool>()).map(|r| r.is_ok());
        let d = root.get_local_dynamic(&k, |v| v.downcast_ref::<bool>()).map(|r| r.is_ok());
        assert_eq!(c, d);
    }
}

fn registry_root() -> Node<TypeId, Erased> {
    let mut n: Node<TypeId, Erased> = Node::new();
    assert!(n.provide(TypeId::of::<i32>(), erased(42i32)).is_ok());
    assert!(n.provide(TypeId::of::<String>(), erased(7u8)).is_ok());
    n
}

#[test]
fn instance_lookup_matches_keyed_lookup() {
    let root = Arc::new(registry_root());
    let leaf: Node<TypeId, Erased> = Node::derive(root.clone());
    let (n, c) = leaf.get_instance::<i32, _, _>(|v| v.downcast_ref::<i32>()).unwrap();
    let (m, d) = leaf.get_dynamic(&TypeId::of::<i32>(), |v| v.downcast_ref::<i32>()).unwrap();
    assert!(std::ptr::eq(n, &*root));
    assert!(std::ptr::eq(m, n));
    assert!(matches!(c, Ok(&42)));
    assert!(matches!(d, Ok(&42)));
}

#[test]
fn instance_registered_under_wrong_type_fails_to_cast() {
    let root = registry_root();
    match root.get_local_instance::<String, _, _>(|v| v.downcast_ref::<String>()) {
        Some(Err(e)) => assert_eq!(e.downcast_ref::<u8>(), Some(&7)),
        _ => panic!("expected a failed cast"),
    }
}

#[test]
fn missing_instance_is_absent() {
    let root = Arc::new(registry_root());
    let leaf: Node<TypeId, Erased> = Node::derive(root.clone());
    assert!(leaf.get_instance::<u64, _, _>(|v| v.downcast_ref::<u64>()).is_none());
    assert!(leaf.get_local_instance::<i32, _, _>(|v| v.downcast_ref::<i32>()).is_none());
    match root.get_local_instance::<i32, _, _>(|v| v.downcast_ref::<i32>()) {
        Some(Ok(x)) => assert_eq!(*x, 42),
        _ => panic!("expected a successful cast"),
    }
}

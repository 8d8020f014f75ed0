use z3::ast::{Ast, Bool, Dynamic};
use z3::ast_vector::AstVector;
use z3::context::Context;

fn ctx(id: u64) -> Context {
    Context { id }
}

fn node(c: Context, raw: u64) -> Dynamic {
    Dynamic::wrap(&c, raw)
}

#[test]
fn new_vector_is_empty() {
    let v = AstVector::new(&ctx(1));
    assert_eq!(v.len(), 0);
    assert!(v.is_empty());
    assert_eq!(v.get_ctx(), ctx(1));
}

#[test]
fn push_increases_length() {
    let c = ctx(1);
    let mut v = AstVector::new(&c);
    v.push(&node(c, 10));
    assert_eq!(v.len(), 1);
    assert!(!v.is_empty());
}

#[test]
fn push_then_get_last_returns_pushed_node() {
    let c = ctx(7);
    let mut v = AstVector::new(&c);
    v.push(&node(c, 10));
    let b = Bool::wrap(&c, 33);
    v.push(&b);
    let last = v.get(v.len() - 1);
    assert_eq!(last.get_z3_ast(), 33);
    assert_eq!(last.get_ctx(), c);
}

#[test]
fn set_replaces_one_slot() {
    let c = ctx(1);
    let mut v = AstVector::from_slice(&c, &[node(c, 1), node(c, 2), node(c, 3)]);
    v.set(1, &node(c, 20));
    assert_eq!(v.raw_handles(), &vec![1, 20, 3]);
}

#[test]
fn resize_grows_with_unset_slots() {
    let c = ctx(1);
    let mut v = AstVector::from_slice(&c, &[node(c, 5), node(c, 6)]);
    v.resize(4);
    assert_eq!(v.len(), 4);
    assert_eq!(v.raw_handles(), &vec![5, 6, 0, 0]);
}

#[test]
fn resize_shrinks_keeping_prefix() {
    let c = ctx(1);
    let mut v = AstVector::from_slice(&c, &[node(c, 5), node(c, 6), node(c, 7)]);
    v.resize(1);
    assert_eq!(v.len(), 1);
    assert_eq!(v.get(0).get_z3_ast(), 5);
    v.resize(0);
    assert!(v.is_empty());
}

#[test]
fn resize_then_set_makes_slot_readable() {
    let c = ctx(1);
    let mut v = AstVector::new(&c);
    v.resize(2);
    v.set(0, &node(c, 8));
    v.set(1, &node(c, 9));
    let out = v.to_vec();
    assert_eq!(out.len(), 2);
    assert_eq!(out[1].get_z3_ast(), 9);
}

#[test]
fn from_slice_then_to_vec_keeps_order() {
    let c = ctx(2);
    let xs = [node(c, 30), node(c, 10), node(c, 20)];
    let v = AstVector::from_slice(&c, &xs);
    let out = v.to_vec();
    assert_eq!(out.len(), xs.len());
    let raws: Vec<u64> = out.iter().map(|d| d.get_z3_ast()).collect();
    assert_eq!(raws, vec![30, 10, 20]);
    assert!(out.iter().all(|d| d.get_ctx() == c));
}

#[test]
fn from_empty_slice_gives_empty_vector() {
    let c = ctx(2);
    let xs: [Dynamic; 0] = [];
    let v = AstVector::from_slice(&c, &xs);
    assert!(v.is_empty());
    assert!(v.to_vec().is_empty());
}

#[test]
fn translate_to_own_context_copies_content() {
    let c = ctx(3);
    let v = AstVector::from_slice(&c, &[node(c, 4), node(c, 5)]);
    let t = v.translate(&c, Vec::new());
    assert_eq!(t.get_ctx(), c);
    assert_eq!(t.raw_handles(), v.raw_handles());
}

#[test]
fn translate_to_other_context_takes_engine_handles() {
    let c = ctx(3);
    let d = ctx(4);
    let v = AstVector::from_slice(&c, &[node(c, 4), node(c, 5)]);
    let t = v.translate(&d, vec![40, 50]);
    assert_eq!(t.get_ctx(), d);
    assert_eq!(t.raw_handles(), &vec![40, 50]);
    assert_eq!(v.raw_handles(), &vec![4, 5]);
}

#[test]
fn wrap_adopts_engine_contents() {
    let c = ctx(5);
    let v = AstVector::wrap(&c, vec![11, 12]);
    assert_eq!(v.len(), 2);
    assert_eq!(v.get(1).get_z3_ast(), 12);
    assert_eq!(v.get(1).get_ctx(), c);
}

#[test]
fn iter_walks_in_order_and_stops() {
    let c = ctx(6);
    let v = AstVector::from_slice(&c, &[node(c, 1), node(c, 2)]);
    let mut it = v.iter();
    assert_eq!(it.next().map(|d| d.get_z3_ast()), Some(1));
    assert_eq!(it.next().map(|d| d.get_z3_ast()), Some(2));
    assert!(it.next().is_none());
    assert!(it.next().is_none());
}

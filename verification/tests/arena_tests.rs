use nuvc::arena::Arena;
use nuvc::ast::{Expression, ExpressionIndex, Path, Type, TypeIndex, TypeName};

fn base(name: &str) -> Type {
    Type::Base(TypeName::from((Path::new(), name.to_string())))
}

#[test]
fn insert_then_get_returns_value() {
    let mut arena: Arena<Type, TypeIndex> = Arena::new();
    let i = arena.insert(base("Int32"));
    let got = arena.get(i).expect("freshly inserted index must resolve");
    assert_eq!(*got, base("Int32"));
}

#[test]
fn insertion_never_invalidates_existing_indices() {
    let mut arena: Arena<Type, TypeIndex> = Arena::new();
    let a = arena.insert(base("Int8"));
    let b = arena.insert(base("Int16"));
    let c = arena.insert(base("Int32"));
    assert_eq!(*arena.get(a).unwrap(), base("Int8"));
    assert_eq!(*arena.get(b).unwrap(), base("Int16"));
    assert_eq!(*arena.get(c).unwrap(), base("Int32"));
}

#[test]
fn remove_then_get_returns_absence() {
    let mut arena: Arena<Type, TypeIndex> = Arena::new();
    let i = arena.insert(base("Int32"));
    let removed = arena.remove(i);
    assert_eq!(removed, Some(base("Int32")));
    assert!(arena.get(i).is_none());
    assert!(arena.remove(i).is_none());
}

#[test]
fn reused_slot_gets_bumped_generation_and_old_index_stays_stale() {
    let mut arena: Arena<Type, TypeIndex> = Arena::new();
    let old = arena.insert(base("Int32"));
    arena.remove(old);
    let new = arena.insert(base("UInt64"));
    // The slot is reused under a bumped generation.
    assert_eq!(new.slot, old.slot);
    assert_eq!(new.generation, old.generation + 1);
    // The old index sees absence, never the new value.
    assert!(arena.get(old).is_none());
    assert_eq!(*arena.get(new).unwrap(), base("UInt64"));
}

#[test]
fn get_with_out_of_range_index_returns_absence() {
    let arena: Arena<Expression, ExpressionIndex> = Arena::new();
    let foreign = ExpressionIndex { slot: 7, generation: 0 };
    assert!(arena.get(foreign).is_none());
}

#[test]
fn get_at_slot_walks_in_slot_order() {
    let mut arena: Arena<Expression, ExpressionIndex> = Arena::new();
    let a = arena.insert(Expression::NatLiteral(1));
    let b = arena.insert(Expression::NatLiteral(2));
    assert_eq!(arena.slot_len(), 2);
    let (ia, va) = arena.get_at_slot(0).unwrap();
    let (ib, vb) = arena.get_at_slot(1).unwrap();
    assert_eq!(ia, a);
    assert_eq!(ib, b);
    assert_eq!(*va, Expression::NatLiteral(1));
    assert_eq!(*vb, Expression::NatLiteral(2));
    assert!(arena.get_at_slot(2).is_none());
}

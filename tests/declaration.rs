use lowering::declaration::into_operations;
use lowering::operation::{Error, Operation};
use lowering::scope::{ScopeItem, ScopeStack};
use lowering::syntax::{Expression, Pattern, TypeDefinition};
use lowering::types::{Identifier, ItemType, MemoryBlock, Span};

fn span() -> Span {
    Span { start: 0, end: 0 }
}

fn pattern(name: &str) -> Pattern {
    Pattern::Identifier(Identifier::new(name), span())
}

fn named(name: &str) -> TypeDefinition {
    TypeDefinition::Name { name: Identifier::new(name), span: span() }
}

#[test]
fn declaration_only() {
    // When only doing a declaration, no operations should be generated
    // since there is no expression to actually evaluate
    let mut scope = ScopeStack::new();
    scope.declare_type(Identifier::new("u8"), ItemType::Primitive(1));

    let ops = into_operations(
        Pattern::Identifier(Identifier::new("foo"), Span { start: 0, end: 0 }),
        TypeDefinition::Name { name: Identifier::new("u8"), span: Span { start: 0, end: 0 } },
        None,
        &mut scope,
    )
    .unwrap();
    assert_eq!(ops.len(), 0);
}

#[test]
fn declaration_without_initializer_leaves_name_unbound() {
    let mut scope = ScopeStack::new();
    let ops = into_operations(pattern("foo"), named("u8"), None, &mut scope).unwrap();
    assert!(ops.is_empty());
    assert!(scope.lookup(&Identifier::new("foo")).is_none());
    let r = into_operations(
        pattern("bar"),
        named("u8"),
        Some(Expression::Identifier(Identifier::new("foo"), span())),
        &mut scope,
    );
    assert_eq!(r, Err(Error::UnresolvedName(Identifier::new("foo"))));
}

#[test]
fn declaration_of_unknown_type_is_unresolved() {
    let mut scope = ScopeStack::new();
    let r = into_operations(pattern("foo"), named("u16"), Some(Expression::Number(5, span())), &mut scope);
    assert_eq!(r, Err(Error::UnresolvedName(Identifier::new("u16"))));
    assert!(scope.lookup(&Identifier::new("foo")).is_none());
    assert_eq!(scope.next_position, 0);
}

#[test]
fn declaration_with_number_writes_fresh_block() {
    let mut scope = ScopeStack::new();
    scope.declare_type(Identifier::new("u8"), ItemType::Primitive(1));
    let ops = into_operations(pattern("foo"), named("u8"), Some(Expression::Number(5, span())), &mut scope).unwrap();
    assert_eq!(ops, vec![Operation::Write { target: 0, bytes: vec![5] }]);
    match scope.lookup(&Identifier::new("foo")) {
        Some(ScopeItem::TypedBlock { memory, .. }) => {
            assert_eq!(*memory, MemoryBlock { position: 0, size: 1 });
        },
        other => panic!("unexpected binding {:?}", other),
    }
}

#[test]
fn declaration_binds_typed_block_in_current_scope() {
    let mut scope = ScopeStack::new();
    let u8_type = scope.primitives().u8();
    scope.allocate(4);
    let ops = into_operations(pattern("foo"), named("u8"), Some(Expression::Number(200, span())), &mut scope).unwrap();
    assert!(!ops.is_empty());
    assert_eq!(
        scope.lookup(&Identifier::new("foo")),
        Some(&ScopeItem::TypedBlock { type_id: u8_type, memory: MemoryBlock { position: 4, size: 1 } })
    );
    assert_eq!(scope.next_position, 5);
}

#[test]
fn declaration_copies_from_typed_block() {
    let mut scope = ScopeStack::new();
    into_operations(pattern("foo"), named("u8"), Some(Expression::Number(7, span())), &mut scope).unwrap();
    let ops = into_operations(
        pattern("bar"),
        named("u8"),
        Some(Expression::Identifier(Identifier::new("foo"), span())),
        &mut scope,
    )
    .unwrap();
    assert_eq!(ops, vec![Operation::Copy { source: 0, target: 1, size: 1 }]);
}

#[test]
fn declaration_from_array_is_mismatched() {
    let mut scope = ScopeStack::new();
    let u8_type = scope.primitives().u8();
    scope.declare_array(Identifier::new("foo"), u8_type, 3);
    let r = into_operations(
        pattern("bar"),
        named("u8"),
        Some(Expression::Identifier(Identifier::new("foo"), span())),
        &mut scope,
    );
    assert_eq!(
        r,
        Err(Error::MismatchedTypes {
            expected: ItemType::Primitive(1),
            found: ItemType::Array { item: Some(u8_type), size: Some(3) },
        })
    );
}

#[test]
fn declaration_with_byte_literal_is_mismatched() {
    let mut scope = ScopeStack::new();
    let u8_type = scope.primitives().u8();
    let r = into_operations(
        pattern("foo"),
        named("u8"),
        Some(Expression::ByteLiteral(vec![1, 2], span())),
        &mut scope,
    );
    assert_eq!(
        r,
        Err(Error::MismatchedTypes {
            expected: ItemType::Primitive(1),
            found: ItemType::Array { item: Some(u8_type), size: Some(2) },
        })
    );
}

#[test]
fn declaration_with_oversized_number_is_mismatched() {
    let mut scope = ScopeStack::new();
    let r = into_operations(pattern("foo"), named("u8"), Some(Expression::Number(256, span())), &mut scope);
    assert_eq!(
        r,
        Err(Error::MismatchedTypes { expected: ItemType::Primitive(1), found: ItemType::Primitive(1) })
    );
}

#[test]
fn number_written_little_endian_into_wide_primitive() {
    let mut scope = ScopeStack::new();
    scope.declare_type(Identifier::new("u16"), ItemType::Primitive(2));
    let ops = into_operations(pattern("foo"), named("u16"), Some(Expression::Number(258, span())), &mut scope).unwrap();
    assert_eq!(ops, vec![Operation::Write { target: 0, bytes: vec![2, 1] }]);
}

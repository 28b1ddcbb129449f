use lowering::identifier::{store_identifier, store_identifier_array};
use lowering::operation::{Error, Operation};
use lowering::scope::{ScopeItem, ScopeStack};
use lowering::types::{Identifier, ItemType, MemoryBlock};

fn id(name: &str) -> Identifier {
    Identifier::new(name)
}

#[test]
fn typed_block_copies_into_same_type() {
    let mut scope = ScopeStack::new();
    let u8_type = scope.primitives().u8();
    let foo = scope.declare(id("foo"), u8_type);
    let bar = scope.declare(id("bar"), u8_type);
    let ops = store_identifier(&mut scope, id("foo"), u8_type, bar).unwrap();
    assert_eq!(ops, vec![Operation::Copy { source: foo.position(), target: bar.position(), size: 1 }]);
    assert_eq!(foo.size(), bar.size());
}

#[test]
fn typed_block_into_other_type_is_mismatched() {
    let mut scope = ScopeStack::new();
    let u8_type = scope.primitives().u8();
    let u16_type = scope.declare_type(id("u16"), ItemType::Primitive(2));
    scope.declare(id("foo"), u8_type);
    let target = scope.allocate(2);
    let r = store_identifier(&mut scope, id("foo"), u16_type, target);
    assert_eq!(
        r,
        Err(Error::MismatchedTypes { expected: ItemType::Primitive(2), found: ItemType::Primitive(1) })
    );
}

#[test]
fn constant_writes_its_bytes() {
    let mut scope = ScopeStack::new();
    let wide = scope.declare_type(id("u16"), ItemType::Primitive(2));
    scope.bind(id("k"), ScopeItem::Constant { type_id: wide, bytes: vec![9, 8] });
    let target = scope.allocate(2);
    let ops = store_identifier(&mut scope, id("k"), wide, target).unwrap();
    assert_eq!(ops, vec![Operation::Write { target: target.position(), bytes: vec![9, 8] }]);
}

#[test]
fn constant_into_other_type_is_mismatched() {
    let mut scope = ScopeStack::new();
    let u8_type = scope.primitives().u8();
    let wide = scope.declare_type(id("u16"), ItemType::Primitive(2));
    scope.bind(id("k"), ScopeItem::Constant { type_id: wide, bytes: vec![9, 8] });
    let target = scope.allocate(1);
    let r = store_identifier(&mut scope, id("k"), u8_type, target);
    assert_eq!(
        r,
        Err(Error::MismatchedTypes { expected: ItemType::Primitive(1), found: ItemType::Primitive(2) })
    );
}

#[test]
fn numeric_literal_is_coerced() {
    let mut scope = ScopeStack::new();
    let u8_type = scope.primitives().u8();
    scope.bind(id("n"), ScopeItem::NumericLiteral(42));
    let target = scope.allocate(1);
    let ops = store_identifier(&mut scope, id("n"), u8_type, target).unwrap();
    assert_eq!(ops, vec![Operation::Write { target: 0, bytes: vec![42] }]);
}

#[test]
fn byte_literal_never_fills_scalar() {
    let mut scope = ScopeStack::new();
    let u8_type = scope.primitives().u8();
    scope.bind(id("b"), ScopeItem::ByteLiteral(vec![1]));
    let target = scope.allocate(1);
    let r = store_identifier(&mut scope, id("b"), u8_type, target);
    assert_eq!(
        r,
        Err(Error::MismatchedTypes {
            expected: ItemType::Primitive(1),
            found: ItemType::Array { item: Some(u8_type), size: Some(1) },
        })
    );
}

#[test]
fn unbound_name_is_unresolved() {
    let mut scope = ScopeStack::new();
    let u8_type = scope.primitives().u8();
    let target = scope.allocate(1);
    assert_eq!(store_identifier(&mut scope, id("nope"), u8_type, target), Err(Error::UnresolvedName(id("nope"))));
    assert_eq!(
        store_identifier_array(&mut scope, id("nope"), u8_type, 1, target),
        Err(Error::UnresolvedName(id("nope")))
    );
}

#[test]
fn array_into_scalar_is_mismatched() {
    let mut scope = ScopeStack::new();
    let u8_type = scope.primitives().u8();
    scope.declare_array(id("foo"), u8_type, 3);
    let bar = scope.declare(id("bar"), u8_type);
    let r = store_identifier(&mut scope, id("foo"), u8_type, bar);
    assert_eq!(
        r,
        Err(Error::MismatchedTypes {
            expected: ItemType::Primitive(1),
            found: ItemType::Array { item: Some(u8_type), size: Some(3) },
        })
    );
}

#[test]
fn array_copies_into_same_shape() {
    let mut scope = ScopeStack::new();
    let u8_type = scope.primitives().u8();
    let foo = scope.declare_array(id("foo"), u8_type, 3);
    let target = scope.allocate(3);
    let ops = store_identifier_array(&mut scope, id("foo"), u8_type, 3, target).unwrap();
    assert_eq!(ops, vec![Operation::Copy { source: foo.position(), target: 3, size: 3 }]);
}

#[test]
fn array_of_other_length_is_mismatched() {
    let mut scope = ScopeStack::new();
    let u8_type = scope.primitives().u8();
    scope.declare_array(id("foo"), u8_type, 3);
    let target = scope.allocate(4);
    let r = store_identifier_array(&mut scope, id("foo"), u8_type, 4, target);
    assert_eq!(
        r,
        Err(Error::MismatchedTypes {
            expected: ItemType::Array { item: Some(u8_type), size: Some(4) },
            found: ItemType::Array { item: Some(u8_type), size: Some(3) },
        })
    );
}

#[test]
fn array_of_same_byte_size_but_other_item_is_mismatched() {
    // Two u8 items and one u16 item both take two bytes: the shapes still differ.
    let mut scope = ScopeStack::new();
    let u8_type = scope.primitives().u8();
    let u16_type = scope.declare_type(id("u16"), ItemType::Primitive(2));
    scope.declare_array(id("foo"), u8_type, 2);
    let target = scope.allocate(2);
    let r = store_identifier_array(&mut scope, id("foo"), u16_type, 1, target);
    assert_eq!(
        r,
        Err(Error::MismatchedTypes {
            expected: ItemType::Array { item: Some(u16_type), size: Some(1) },
            found: ItemType::Array { item: Some(u8_type), size: Some(2) },
        })
    );
}

#[test]
fn byte_literal_fills_array_of_its_length() {
    let mut scope = ScopeStack::new();
    let u8_type = scope.primitives().u8();
    scope.bind(id("b"), ScopeItem::ByteLiteral(vec![1, 2, 3]));
    let target = scope.allocate(3);
    let ops = store_identifier_array(&mut scope, id("b"), u8_type, 3, target).unwrap();
    assert_eq!(ops, vec![Operation::Write { target: 0, bytes: vec![1, 2, 3] }]);
}

#[test]
fn byte_literal_of_other_length_is_mismatched() {
    let mut scope = ScopeStack::new();
    let u8_type = scope.primitives().u8();
    scope.bind(id("b"), ScopeItem::ByteLiteral(vec![1, 2]));
    let target = scope.allocate(3);
    let r = store_identifier_array(&mut scope, id("b"), u8_type, 3, target);
    assert_eq!(
        r,
        Err(Error::MismatchedTypes {
            expected: ItemType::Array { item: Some(u8_type), size: Some(3) },
            found: ItemType::Array { item: Some(u8_type), size: Some(2) },
        })
    );
}

#[test]
fn scalars_into_array_are_mismatched() {
    let mut scope = ScopeStack::new();
    let u8_type = scope.primitives().u8();
    scope.bind(id("n"), ScopeItem::NumericLiteral(1));
    scope.declare(id("v"), u8_type);
    let target = scope.allocate(2);
    let expected = ItemType::Array { item: Some(u8_type), size: Some(2) };
    assert_eq!(
        store_identifier_array(&mut scope, id("n"), u8_type, 2, target),
        Err(Error::MismatchedTypes { expected, found: ItemType::Primitive(1) })
    );
    assert_eq!(
        store_identifier_array(&mut scope, id("v"), u8_type, 2, target),
        Err(Error::MismatchedTypes { expected, found: ItemType::Primitive(1) })
    );
}

#[test]
fn inner_binding_shadows_outer() {
    let mut scope = ScopeStack::new();
    let u8_type = scope.primitives().u8();
    scope.bind(id("x"), ScopeItem::NumericLiteral(1));
    scope.push_scope();
    scope.bind(id("x"), ScopeItem::NumericLiteral(2));
    assert_eq!(scope.lookup(&id("x")), Some(&ScopeItem::NumericLiteral(2)));
    let target = scope.allocate(1);
    let ops = store_identifier(&mut scope, id("x"), u8_type, target).unwrap();
    assert_eq!(ops, vec![Operation::Write { target: 0, bytes: vec![2] }]);
    scope.pop_scope();
    assert_eq!(scope.lookup(&id("x")), Some(&ScopeItem::NumericLiteral(1)));
}

#[test]
fn declared_block_has_type_size() {
    let mut scope = ScopeStack::new();
    let wide = scope.declare_type(id("u32"), ItemType::Primitive(4));
    let block = scope.declare(id("w"), wide);
    assert_eq!(block, MemoryBlock { position: 0, size: 4 });
    assert_eq!(scope.lookup_type(&id("u32")), Some(wide));
    assert_eq!(scope.get_type(wide), ItemType::Primitive(4));
}

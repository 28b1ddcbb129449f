use vstd::prelude::*;
use crate::types::{ArraySize, Identifier, ItemType, MemoryBlock, TypeId};
use crate::scope::{ScopeItem, ScopeStack};
use crate::operation::{Error, Operation, OperationView, OperationsResult, ops_view, result_view};
use crate::number::{store_number, store_number_spec};
use crate::byte_literal::{array_shape, store_byte_literal, store_byte_literal_spec};

verus! {

/// The error for a value of type `found` where a value of type `expected` was needed.
pub open spec fn mismatch(scope: ScopeStack, expected: TypeId, found: TypeId) -> Error {
    Error::MismatchedTypes { expected: scope.type_of(expected), found: scope.type_of(found) }
}

/// Whether storing `name` as a value would reach a built-in function.
pub open spec fn names_builtin(scope: ScopeStack, name: Seq<char>) -> bool {
    scope.lookup_spec(name) == Some(ScopeItem::BuiltInFunction)
}

/// Storing the value that `name` denotes into `target`, of scalar type `target_type`.
pub open spec fn store_identifier_spec(
    scope: ScopeStack,
    name: Identifier,
    target_type: TypeId,
    target: MemoryBlock,
) -> Result<Seq<OperationView>, Error> {
    match scope.lookup_spec(name@) {
        None => Err(Error::UnresolvedName(name)),
        Some(ScopeItem::Constant { type_id, bytes }) => if type_id == target_type {
            Ok(seq![OperationView::Write { target: target.position, bytes: bytes@ }])
        } else {
            Err(mismatch(scope, target_type, type_id))
        },
        Some(ScopeItem::NumericLiteral(number)) => store_number_spec(scope, number, target_type, target),
        Some(ScopeItem::ByteLiteral(bytes)) => Err(
            Error::MismatchedTypes {
                expected: scope.type_of(target_type),
                found: array_shape(scope.u8_spec(), bytes@.len() as usize),
            },
        ),
        Some(ScopeItem::TypedBlock { type_id, memory }) => if type_id == target_type {
            Ok(seq![OperationView::Copy { source: memory.position, target: target.position, size: memory.size }])
        } else {
            Err(mismatch(scope, target_type, type_id))
        },
        Some(ScopeItem::Array { item, size, .. }) => Err(
            Error::MismatchedTypes { expected: scope.type_of(target_type), found: array_shape(item, size) },
        ),
        Some(ScopeItem::BuiltInFunction) => arbitrary(),
    }
}

/// Storing the value that `name` denotes into `target`, an array of `size` items of type
/// `item_type`.
pub open spec fn store_identifier_array_spec(
    scope: ScopeStack,
    name: Identifier,
    item_type: TypeId,
    size: ArraySize,
    target: MemoryBlock,
) -> Result<Seq<OperationView>, Error> {
    let expected = array_shape(item_type, size);
    match scope.lookup_spec(name@) {
        None => Err(Error::UnresolvedName(name)),
        Some(ScopeItem::ByteLiteral(bytes)) => store_byte_literal_spec(scope, bytes@, item_type, size, target),
        Some(ScopeItem::Array { item, size: asize, memory }) => if item == item_type && asize == size {
            Ok(seq![OperationView::Copy { source: memory.position, target: target.position, size: memory.size }])
        } else {
            Err(Error::MismatchedTypes { expected, found: array_shape(item, asize) })
        },
        Some(ScopeItem::NumericLiteral(_)) => Err(
            Error::MismatchedTypes { expected, found: scope.type_of(scope.u8_spec()) },
        ),
        Some(ScopeItem::Constant { type_id, .. }) => Err(
            Error::MismatchedTypes { expected, found: scope.type_of(type_id) },
        ),
        Some(ScopeItem::TypedBlock { type_id, .. }) => Err(
            Error::MismatchedTypes { expected, found: scope.type_of(type_id) },
        ),
        Some(ScopeItem::BuiltInFunction) => arbitrary(),
    }
}

fn mismatched_types(scope: &ScopeStack, expected: TypeId, found: TypeId) -> (r: OperationsResult)
    requires
        scope.valid_type(expected),
        scope.valid_type(found),
    ensures
        r == Err::<Vec<Operation>, Error>(mismatch(*scope, expected, found)),
{
    Err(Error::MismatchedTypes { expected: scope.get_type(expected), found: scope.get_type(found) })
}

fn copy_block(memory: MemoryBlock, target: MemoryBlock) -> (r: Vec<Operation>)
    ensures
        ops_view(r@) == seq![OperationView::Copy { source: memory.position, target: target.position, size: memory.size }],
{
    let r = vec![Operation::Copy { source: memory.position(), target: target.position(), size: memory.size() }];
    assert(ops_view(r@) =~= seq![OperationView::Copy { source: memory.position, target: target.position, size: memory.size }]);
    r
}

/// Lowers a store of the value that `name` denotes into `target`, a block of scalar type
/// `target_type`.
pub fn store_identifier(
    scope: &mut ScopeStack,
    name: Identifier,
    target_type: TypeId,
    target: MemoryBlock,
) -> (r: OperationsResult)
    requires
        old(scope).wf(),
        old(scope).valid_type(target_type),
        target.size == old(scope).type_size(target_type),
        !names_builtin(*old(scope), name@),
    ensures
        *final(scope) == *old(scope),
        result_view(r) == store_identifier_spec(*old(scope), name, target_type, target),
{
    let found = scope.lookup(&name);
    match found {
        None => Err(Error::UnresolvedName(name)),
        Some(item) => match item {
            ScopeItem::Constant { type_id, bytes } => {
                if target_type == *type_id {
                    Ok(Operation::increment_to_value(target, bytes))
                } else {
                    mismatched_types(scope, target_type, *type_id)
                }
            },
            ScopeItem::NumericLiteral(number) => store_number(scope, *number, target_type, target),
            ScopeItem::ByteLiteral(bytes) => Err(
                Error::MismatchedTypes {
                    expected: scope.get_type(target_type),
                    found: ItemType::Array { item: Some(scope.primitives().u8()), size: Some(bytes.len()) },
                },
            ),
            ScopeItem::TypedBlock { type_id, memory } => {
                if target_type == *type_id {
                    assert(memory.size == target.size);
                    Ok(copy_block(*memory, target))
                } else {
                    mismatched_types(scope, target_type, *type_id)
                }
            },
            ScopeItem::Array { item, size, .. } => Err(
                Error::MismatchedTypes {
                    expected: scope.get_type(target_type),
                    found: ItemType::Array { item: Some(*item), size: Some(*size) },
                },
            ),
            ScopeItem::BuiltInFunction => unreached(),
        },
    }
}

/// Lowers a store of the value that `name` denotes into `target`, an array of `size`
/// items of type `item_type`.
pub fn store_identifier_array(
    scope: &mut ScopeStack,
    name: Identifier,
    item_type: TypeId,
    size: ArraySize,
    target: MemoryBlock,
) -> (r: OperationsResult)
    requires
        old(scope).wf(),
        old(scope).valid_type(item_type),
        target.size == old(scope).type_size(item_type) * size,
        !names_builtin(*old(scope), name@),
    ensures
        *final(scope) == *old(scope),
        result_view(r) == store_identifier_array_spec(*old(scope), name, item_type, size, target),
{
    let found = scope.lookup(&name);
    match found {
        None => Err(Error::UnresolvedName(name)),
        Some(item) => match item {
            ScopeItem::ByteLiteral(bytes) => {
                let copied = bytes.clone();
                assert(copied@ =~= bytes@);
                store_byte_literal(scope, copied, item_type, size, target)
            },
            ScopeItem::Array { item, size: asize, memory } => {
                if *item == item_type && *asize == size {
                    assert(memory.size == target.size);
                    Ok(copy_block(*memory, target))
                } else {
                    Err(
                        Error::MismatchedTypes {
                            expected: ItemType::Array { item: Some(item_type), size: Some(size) },
                            found: ItemType::Array { item: Some(*item), size: Some(*asize) },
                        },
                    )
                }
            },
            ScopeItem::NumericLiteral(_) => Err(
                Error::MismatchedTypes {
                    expected: ItemType::Array { item: Some(item_type), size: Some(size) },
                    found: scope.get_type(scope.primitives().u8()),
                },
            ),
            ScopeItem::Constant { type_id, .. } => Err(
                Error::MismatchedTypes {
                    expected: ItemType::Array { item: Some(item_type), size: Some(size) },
                    found: scope.get_type(*type_id),
                },
            ),
            ScopeItem::TypedBlock { type_id, .. } => Err(
                Error::MismatchedTypes {
                    expected: ItemType::Array { item: Some(item_type), size: Some(size) },
                    found: scope.get_type(*type_id),
                },
            ),
            ScopeItem::BuiltInFunction => unreached(),
        },
    }
}

} // verus!

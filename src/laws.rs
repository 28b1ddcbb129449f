use vstd::prelude::*;
use crate::types::{ArraySize, Identifier, MemoryBlock, TypeId};
use crate::scope::{Scope, ScopeItem, ScopeStack, find_binding, find_item};
use crate::operation::{Error, OperationView};
use crate::syntax::Expression;
use crate::byte_literal::array_shape;
use crate::identifier::{store_identifier_array_spec, store_identifier_spec};
use crate::expression::expression_spec;

verus! {

/// A name bound to a typed block is copied into a target of the same type and size, in
/// one copy of matching sizes; into a target of any other type it is a type mismatch
/// between the two types.
pub proof fn law_typed_block_store(
    scope: ScopeStack,
    name: Identifier,
    type_id: TypeId,
    memory: MemoryBlock,
    target_type: TypeId,
    target: MemoryBlock,
)
    requires
        scope.lookup_spec(name@) == Some(ScopeItem::TypedBlock { type_id, memory }),
    ensures
        target_type == type_id && target.size == memory.size ==> store_identifier_spec(
            scope,
            name,
            target_type,
            target,
        ) == Ok::<Seq<OperationView>, Error>(
            seq![OperationView::Copy { source: memory.position, target: target.position, size: target.size }],
        ),
        target_type != type_id ==> store_identifier_spec(scope, name, target_type, target) == Err::<
            Seq<OperationView>,
            Error,
        >(Error::MismatchedTypes { expected: scope.type_of(target_type), found: scope.type_of(type_id) }),
{
}

/// A constant is written, as exactly its bytes, into a target of its own type; into a
/// target of any other type it is a type mismatch.
pub proof fn law_constant_store(
    scope: ScopeStack,
    name: Identifier,
    type_id: TypeId,
    bytes: Vec<u8>,
    target_type: TypeId,
    target: MemoryBlock,
)
    requires
        scope.lookup_spec(name@) == Some(ScopeItem::Constant { type_id, bytes }),
    ensures
        target_type == type_id ==> store_identifier_spec(scope, name, target_type, target) == Ok::<
            Seq<OperationView>,
            Error,
        >(seq![OperationView::Write { target: target.position, bytes: bytes@ }]),
        target_type != type_id ==> store_identifier_spec(scope, name, target_type, target) matches Err(
            Error::MismatchedTypes { .. },
        ),
{
}

/// An array is copied into an expected array shape exactly when its item type and its
/// length both equal the expected ones, whatever the sizes in bytes; otherwise it is a
/// mismatch between the two shapes. Into a scalar target it is always a mismatch.
pub proof fn law_array_store_is_structural(
    scope: ScopeStack,
    name: Identifier,
    item: TypeId,
    size: ArraySize,
    memory: MemoryBlock,
    item_type: TypeId,
    expected_size: ArraySize,
    target_type: TypeId,
    target: MemoryBlock,
)
    requires
        scope.lookup_spec(name@) == Some(ScopeItem::Array { item, size, memory }),
    ensures
        store_identifier_array_spec(scope, name, item_type, expected_size, target) is Ok <==> (item
            == item_type && size == expected_size),
        item == item_type && size == expected_size ==> store_identifier_array_spec(
            scope,
            name,
            item_type,
            expected_size,
            target,
        ) == Ok::<Seq<OperationView>, Error>(
            seq![OperationView::Copy { source: memory.position, target: target.position, size: memory.size }],
        ),
        !(item == item_type && size == expected_size) ==> store_identifier_array_spec(
            scope,
            name,
            item_type,
            expected_size,
            target,
        ) == Err::<Seq<OperationView>, Error>(
            Error::MismatchedTypes {
                expected: array_shape(item_type, expected_size),
                found: array_shape(item, size),
            },
        ),
        store_identifier_spec(scope, name, target_type, target) == Err::<Seq<OperationView>, Error>(
            Error::MismatchedTypes { expected: scope.type_of(target_type), found: array_shape(item, size) },
        ),
{
}

/// A byte literal never fills a scalar target, and fills an array target only when its
/// length equals the array's length (and the items are bytes).
pub proof fn law_byte_literal_store(
    scope: ScopeStack,
    name: Identifier,
    bytes: Vec<u8>,
    target_type: TypeId,
    item_type: TypeId,
    size: ArraySize,
    target: MemoryBlock,
)
    requires
        scope.lookup_spec(name@) == Some(ScopeItem::ByteLiteral(bytes)),
    ensures
        store_identifier_spec(scope, name, target_type, target) matches Err(Error::MismatchedTypes { .. }),
        store_identifier_array_spec(scope, name, item_type, size, target) is Ok <==> (bytes@.len() == size
            && item_type == scope.u8_spec()),
{
}

/// A name bound nowhere cannot be stored, as a scalar or as an array.
pub proof fn law_unbound_name_is_unresolved(
    scope: ScopeStack,
    name: Identifier,
    target_type: TypeId,
    item_type: TypeId,
    size: ArraySize,
    target: MemoryBlock,
)
    requires
        scope.lookup_spec(name@) is None,
    ensures
        store_identifier_spec(scope, name, target_type, target) == Err::<Seq<OperationView>, Error>(
            Error::UnresolvedName(name),
        ),
        store_identifier_array_spec(scope, name, item_type, size, target) == Err::<
            Seq<OperationView>,
            Error,
        >(Error::UnresolvedName(name)),
{
}

/// Lowering an expression that succeeds yields exactly one operation.
pub proof fn law_lowered_expression_is_one_operation(
    scope: ScopeStack,
    expr: Expression,
    target_type: TypeId,
    target: MemoryBlock,
)
    requires
        !(expr matches Expression::Identifier(n, _) && scope.lookup_spec(n@) == Some(
            ScopeItem::BuiltInFunction,
        )),
    ensures
        expression_spec(scope, expr, target_type, target) matches Ok(ops) ==> ops.len() == 1,
{
}

/// The binding of a name in scope `k` is the one found, whatever outer scopes bind,
/// when no scope inside `k` binds the name.
pub proof fn law_innermost_binding_wins(scopes: Seq<Scope>, name: Seq<char>, k: int)
    requires
        0 <= k < scopes.len(),
        find_binding(scopes[k].items@, name) is Some,
        forall|j: int| k < j < scopes.len() ==> (#[trigger] find_binding(scopes[j].items@, name)) is None,
    ensures
        find_item(scopes, name) == find_binding(scopes[k].items@, name),
    decreases scopes.len(),
{
    if k < scopes.len() - 1 {
        let inner = scopes.drop_last();
        assert forall|j: int| k < j < inner.len() implies (#[trigger] find_binding(inner[j].items@, name)) is None by {
            assert(inner[j] == scopes[j]);
            assert(find_binding(scopes[j].items@, name) is None);
        }
        assert(find_binding(scopes[scopes.len() - 1].items@, name) is None);
        assert(inner[k] == scopes[k]);
        law_innermost_binding_wins(inner, name, k);
    }
}

} // verus!

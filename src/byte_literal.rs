use vstd::prelude::*;
use crate::types::{ArraySize, ItemType, MemoryBlock, TypeId};
use crate::scope::ScopeStack;
use crate::operation::{Error, Operation, OperationView, OperationsResult, result_view};

verus! {

/// The shape of an array of `size` items of type `item`.
pub open spec fn array_shape(item: TypeId, size: usize) -> ItemType {
    ItemType::Array { item: Some(item), size: Some(size) }
}

/// Storing a byte literal into an array of `size` items of type `item_type`: it fits only
/// an array of bytes of its own length.
pub open spec fn store_byte_literal_spec(
    scope: ScopeStack,
    bytes: Seq<u8>,
    item_type: TypeId,
    size: ArraySize,
    target: MemoryBlock,
) -> Result<Seq<OperationView>, Error> {
    if item_type == scope.u8_spec() && bytes.len() == size {
        Ok(seq![OperationView::Write { target: target.position, bytes }])
    } else {
        Err(
            Error::MismatchedTypes {
                expected: array_shape(item_type, size),
                found: array_shape(scope.u8_spec(), bytes.len() as usize),
            },
        )
    }
}

/// Writes a byte literal into an array-typed `target`.
pub fn store_byte_literal(
    scope: &ScopeStack,
    bytes: Vec<u8>,
    item_type: TypeId,
    size: ArraySize,
    target: MemoryBlock,
) -> (r: OperationsResult)
    requires
        scope.wf(),
    ensures
        result_view(r) == store_byte_literal_spec(*scope, bytes@, item_type, size, target),
{
    let u8_type = scope.primitives().u8();
    if item_type == u8_type && bytes.len() == size {
        Ok(Operation::increment_to_value(target, &bytes))
    } else {
        Err(
            Error::MismatchedTypes {
                expected: ItemType::Array { item: Some(item_type), size: Some(size) },
                found: ItemType::Array { item: Some(u8_type), size: Some(bytes.len()) },
            },
        )
    }
}

} // verus!

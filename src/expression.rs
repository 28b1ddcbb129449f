use vstd::prelude::*;
use crate::types::{ItemType, MemoryBlock, TypeId};
use crate::scope::ScopeStack;
use crate::operation::{Error, OperationView, OperationsResult};
use crate::syntax::Expression;
use crate::number::{store_number, store_number_spec};
use crate::byte_literal::array_shape;
use crate::identifier::{names_builtin, store_identifier, store_identifier_spec};

verus! {

/// Whether lowering `expr` would store a built-in function as a value.
pub open spec fn stores_builtin(scope: ScopeStack, expr: Expression) -> bool {
    expr matches Expression::Identifier(name, _) && names_builtin(scope, name@)
}

/// Computing `expr` into `target`, a block of type `target_type`.
pub open spec fn expression_spec(
    scope: ScopeStack,
    expr: Expression,
    target_type: TypeId,
    target: MemoryBlock,
) -> Result<Seq<OperationView>, Error> {
    match expr {
        Expression::Identifier(name, _) => store_identifier_spec(scope, name, target_type, target),
        Expression::Number(number, _) => store_number_spec(scope, number, target_type, target),
        Expression::ByteLiteral(bytes, _) => Err(
            Error::MismatchedTypes {
                expected: scope.type_of(target_type),
                found: array_shape(scope.u8_spec(), bytes@.len() as usize),
            },
        ),
    }
}

/// Lowers `expr` into operations that compute its value into `target`, checking it
/// against `target_type`.
pub fn into_operations(
    expr: Expression,
    target_type: TypeId,
    target: MemoryBlock,
    scope: &mut ScopeStack,
) -> (r: OperationsResult)
    requires
        old(scope).wf(),
        old(scope).valid_type(target_type),
        target.size == old(scope).type_size(target_type),
        !stores_builtin(*old(scope), expr),
    ensures
        *final(scope) == *old(scope),
        crate::operation::result_view(r) == expression_spec(*old(scope), expr, target_type, target),
{
    match expr {
        Expression::Identifier(name, _) => store_identifier(scope, name, target_type, target),
        Expression::Number(number, _) => store_number(scope, number, target_type, target),
        Expression::ByteLiteral(bytes, _) => Err(
            Error::MismatchedTypes {
                expected: scope.get_type(target_type),
                found: ItemType::Array { item: Some(scope.primitives().u8()), size: Some(bytes.len()) },
            },
        ),
    }
}

} // verus!

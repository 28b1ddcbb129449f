use vstd::prelude::*;
use crate::types::{Identifier, MemoryBlock, TypeId};
use crate::scope::{ScopeItem, ScopeStack};
use crate::operation::{OperationsResult, result_view};
use crate::syntax::{Expression, Pattern, TypeDefinition};
use crate::type_definition::{resolve_spec, resolve_type_id};
use crate::expression;
use crate::expression::expression_spec;
use crate::identifier::names_builtin;
use crate::laws::law_lowered_expression_is_one_operation;

verus! {

/// The name that a pattern binds.
pub open spec fn pattern_name(pattern: Pattern) -> Identifier {
    match pattern {
        Pattern::Identifier(name, _) => name,
    }
}

/// The block that declaring a value of type `t` reserves next.
pub open spec fn next_block(scope: ScopeStack, t: TypeId) -> MemoryBlock {
    MemoryBlock { position: scope.next_position, size: scope.type_size(t) as usize }
}

/// What a declaration may ask of the scope: room for the declared block, and an
/// initializer that is not a built-in function.
pub open spec fn declaration_ok(
    scope: ScopeStack,
    pattern: Pattern,
    type_def: TypeDefinition,
    expr: Option<Expression>,
) -> bool {
    expr matches Some(e) ==> {
        &&& resolve_spec(scope, type_def) matches Ok(t) ==> scope.next_position + scope.type_size(t)
            <= usize::MAX
        &&& e matches Expression::Identifier(n, _) ==> (n@ != pattern_name(pattern)@ ==> !names_builtin(scope, n@))
    }
}

/// Lowers the declaration `pattern: type_def = expr`.
///
/// Without an initializer nothing is reserved or bound. With one, the name is bound in the
/// innermost scope to a fresh block of the declared type, and the initializer is lowered
/// into that block.
pub fn into_operations(
    pattern: Pattern,
    type_def: TypeDefinition,
    expr: Option<Expression>,
    scope: &mut ScopeStack,
) -> (r: OperationsResult)
    requires
        old(scope).wf(),
        declaration_ok(*old(scope), pattern, type_def, expr),
    ensures
        final(scope).wf(),
        match resolve_spec(*old(scope), type_def) {
            Err(e) => r == Err::<Vec<crate::operation::Operation>, crate::operation::Error>(e) && *final(scope) == *old(scope),
            Ok(t) => match expr {
                None => r is Ok && r->Ok_0@.len() == 0 && *final(scope) == *old(scope),
                Some(e) => {
                    let block = next_block(*old(scope), t);
                    &&& final(scope).lookup_spec(pattern_name(pattern)@) == Some(
                        ScopeItem::TypedBlock { type_id: t, memory: block },
                    )
                    &&& forall|n: Seq<char>|
                        n != pattern_name(pattern)@ ==> #[trigger] final(scope).lookup_spec(n)
                            == old(scope).lookup_spec(n)
                    &&& forall|n: Seq<char>|
                        #[trigger] final(scope).lookup_type_spec(n) == old(scope).lookup_type_spec(n)
                    &&& final(scope).scopes@.len() == old(scope).scopes@.len()
                    &&& final(scope).registry == old(scope).registry
                    &&& final(scope).builtins == old(scope).builtins
                    &&& final(scope).next_position == old(scope).next_position + block.size
                    &&& result_view(r) == expression_spec(*final(scope), e, t, block)
                    &&& r matches Ok(ops) ==> ops@.len() == 1
                },
            },
        },
{
    let type_id = resolve_type_id(type_def, scope)?;
    let name = match pattern {
        Pattern::Identifier(name, ..) => name,
    };
    match expr {
        None => Ok(Vec::new()),
        Some(e) => {
            let mem = scope.declare(name, type_id);
            proof {
                law_lowered_expression_is_one_operation(*scope, e, type_id, mem);
            }
            expression::into_operations(e, type_id, mem, scope)
        },
    }
}

} // verus!

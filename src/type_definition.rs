use vstd::prelude::*;
use crate::types::{Identifier, TypeId};
use crate::scope::ScopeStack;
use crate::operation::Error;
use crate::syntax::TypeDefinition;

verus! {

/// The name that a type definition refers to.
pub open spec fn named_type(type_def: TypeDefinition) -> Identifier {
    match type_def {
        TypeDefinition::Name { name, .. } => name,
    }
}

/// The type that `type_def` names in `scope`, or the unresolved name.
pub open spec fn resolve_spec(scope: ScopeStack, type_def: TypeDefinition) -> Result<TypeId, Error> {
    match scope.lookup_type_spec(named_type(type_def)@) {
        Some(t) => Ok(t),
        None => Err(Error::UnresolvedName(named_type(type_def))),
    }
}

/// Maps a type as written to the canonical id it names in the enclosing scopes.
pub fn resolve_type_id(type_def: TypeDefinition, scope: &ScopeStack) -> (r: Result<TypeId, Error>)
    requires
        scope.wf(),
    ensures
        r == resolve_spec(*scope, type_def),
        r matches Ok(t) ==> scope.valid_type(t),
{
    match type_def {
        TypeDefinition::Name { name, .. } => match scope.lookup_type(&name) {
            Some(t) => Ok(t),
            None => Err(Error::UnresolvedName(name)),
        },
    }
}

} // verus!

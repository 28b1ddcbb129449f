use vstd::prelude::*;
use crate::types::{Identifier, Span};

verus! {

/// A binding pattern; only a single name is supported.
#[derive(Clone, Debug, PartialEq, Eq)]
pub enum Pattern {
    Identifier(Identifier, Span),
}

/// A type as written in the source.
#[derive(Clone, Debug, PartialEq, Eq)]
pub enum TypeDefinition {
    Name { name: Identifier, span: Span },
}

/// An expression whose value can be stored into a block.
#[derive(Clone, Debug, PartialEq, Eq)]
pub enum Expression {
    /// A reference to a bound name.
    Identifier(Identifier, Span),
    /// A numeric literal.
    Number(u64, Span),
    /// A byte string literal.
    ByteLiteral(Vec<u8>, Span),
}

} // verus!

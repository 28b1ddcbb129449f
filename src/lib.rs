//! Semantic analysis and lowering of declarations into memory operations.
pub mod types;
pub mod scope;
pub mod operation;
pub mod syntax;
pub mod number;
pub mod byte_literal;
pub mod identifier;
pub mod type_definition;
pub mod expression;
pub mod declaration;
pub mod laws;

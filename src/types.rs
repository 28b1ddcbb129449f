use vstd::prelude::*;
use vstd::string::*;

verus! {

/// Canonical handle of a resolved type; two types are compatible iff their ids are equal.
#[derive(Clone, Copy, Debug, PartialEq, Eq, Structural)]
pub struct TypeId {
    pub id: usize,
}

/// Length of an array shape.
pub type ArraySize = usize;

/// Structural description of a type.
#[derive(Clone, Copy, Debug, PartialEq, Eq, Structural)]
pub enum ItemType {
    /// A scalar type occupying the given number of bytes.
    Primitive(usize),
    /// An array shape: item type and length, each possibly unknown.
    Array { item: Option<TypeId>, size: Option<usize> },
}

/// A name as written in the source.
#[derive(Clone, Debug, PartialEq, Eq)]
pub struct Identifier {
    pub name: String,
}

impl View for Identifier {
    type V = Seq<char>;

    open spec fn view(&self) -> Seq<char> {
        self.name@
    }
}

impl Identifier {
    pub fn new(name: &str) -> (r: Identifier)
        ensures
            r@ == name@,
    {
        Identifier { name: String::from_str(name) }
    }

    /// Compares two identifiers by their characters.
    pub fn same_as(&self, other: &Identifier) -> (r: bool)
        ensures
            r == (self@ == other@),
    {
        self.name == other.name
    }
}

/// Location of a syntax node in the source text.
#[derive(Clone, Copy, Debug, PartialEq, Eq, Structural)]
pub struct Span {
    pub start: usize,
    pub end: usize,
}

/// A storage region decided at compile time: a position and a size in bytes.
#[derive(Clone, Copy, Debug, PartialEq, Eq, Structural)]
pub struct MemoryBlock {
    pub position: usize,
    pub size: usize,
}

impl MemoryBlock {
    pub fn position(&self) -> (r: usize)
        ensures
            r == self.position,
    {
        self.position
    }

    pub fn size(&self) -> (r: usize)
        ensures
            r == self.size,
    {
        self.size
    }
}

} // verus!

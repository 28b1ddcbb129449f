use vstd::prelude::*;
use crate::types::{Identifier, ItemType, MemoryBlock};

verus! {

/// One instruction of the output stream.
#[derive(Clone, Debug, PartialEq, Eq)]
pub enum Operation {
    /// Copies `size` bytes from position `source` to position `target`.
    Copy { source: usize, target: usize, size: usize },
    /// Writes known bytes directly at position `target`.
    Write { target: usize, bytes: Vec<u8> },
}

/// The mathematical value of an `Operation`.
pub enum OperationView {
    Copy { source: usize, target: usize, size: usize },
    Write { target: usize, bytes: Seq<u8> },
}

impl View for Operation {
    type V = OperationView;

    open spec fn view(&self) -> OperationView {
        match self {
            Operation::Copy { source, target, size } => OperationView::Copy {
                source: *source,
                target: *target,
                size: *size,
            },
            Operation::Write { target, bytes } => OperationView::Write {
                target: *target,
                bytes: bytes@,
            },
        }
    }
}

impl Operation {
    /// Initializes `target` with the literal byte pattern `bytes`.
    pub fn increment_to_value(target: MemoryBlock, bytes: &Vec<u8>) -> (r: Vec<Operation>)
        ensures
            ops_view(r@) == seq![OperationView::Write { target: target.position, bytes: bytes@ }],
    {
        let mut value: Vec<u8> = Vec::new();
        let mut i: usize = 0;
        while i < bytes.len()
            invariant
                0 <= i <= bytes@.len(),
                value@ == bytes@.subrange(0, i as int),
            decreases bytes@.len() - i,
        {
            value.push(bytes[i]);
            i = i + 1;
            assert(value@ =~= bytes@.subrange(0, i as int));
        }
        assert(value@ =~= bytes@);
        let r = vec![Operation::Write { target: target.position, bytes: value }];
        assert(ops_view(r@) =~= seq![OperationView::Write { target: target.position, bytes: bytes@ }]);
        r
    }
}

/// A recoverable error in the analysed program.
#[derive(Clone, Debug, PartialEq, Eq)]
pub enum Error {
    /// The name is bound in no enclosing scope.
    UnresolvedName(Identifier),
    /// The expected type or shape disagrees with the value found.
    MismatchedTypes { expected: ItemType, found: ItemType },
}

pub type OperationsResult = Result<Vec<Operation>, Error>;

pub open spec fn ops_view(ops: Seq<Operation>) -> Seq<OperationView> {
    ops.map_values(|o: Operation| o@)
}

/// What a lowering result denotes: the operations' values, or the error.
pub open spec fn result_view(r: OperationsResult) -> Result<Seq<OperationView>, Error> {
    match r {
        Ok(ops) => Ok(ops_view(ops@)),
        Err(e) => Err(e),
    }
}

} // verus!

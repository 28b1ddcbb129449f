use vstd::prelude::*;
use crate::types::{ItemType, MemoryBlock, TypeId};
use crate::scope::ScopeStack;
use crate::operation::{Error, Operation, OperationView, OperationsResult, ops_view, result_view};

verus! {

/// The `n` low-order bytes of `v`, least significant first.
pub open spec fn le_bytes(v: nat, n: nat) -> Seq<u8>
    decreases n,
{
    if n == 0 {
        Seq::empty()
    } else {
        seq![(v % 256) as u8] + le_bytes(v / 256, (n - 1) as nat)
    }
}

/// Whether `v` can be written in `n` bytes.
pub open spec fn fits_in(v: nat, n: nat) -> bool
    decreases n,
{
    if n == 0 {
        v == 0
    } else {
        fits_in(v / 256, (n - 1) as nat)
    }
}

/// Storing a numeric literal: a primitive target takes it when it fits in its bytes.
pub open spec fn store_number_spec(
    scope: ScopeStack,
    number: u64,
    target_type: TypeId,
    target: MemoryBlock,
) -> Result<Seq<OperationView>, Error> {
    let t = scope.type_of(target_type);
    if t is Primitive && fits_in(number as nat, t->0 as nat) {
        Ok(seq![OperationView::Write { target: target.position, bytes: le_bytes(number as nat, t->0 as nat) }])
    } else {
        Err(Error::MismatchedTypes { expected: t, found: scope.type_of(scope.u8_spec()) })
    }
}

/// Coerces a numeric literal to `target_type` and writes it into `target`.
pub fn store_number(
    scope: &ScopeStack,
    number: u64,
    target_type: TypeId,
    target: MemoryBlock,
) -> (r: OperationsResult)
    requires
        scope.wf(),
        scope.valid_type(target_type),
    ensures
        result_view(r) == store_number_spec(*scope, number, target_type, target),
{
    let t = scope.get_type(target_type);
    let width: usize = match t {
        ItemType::Primitive(n) => n,
        ItemType::Array { .. } => {
            return Err(Error::MismatchedTypes { expected: t, found: scope.get_type(scope.primitives().u8()) });
        },
    };
    let mut bytes: Vec<u8> = Vec::new();
    let mut rest: u64 = number;
    let mut i: usize = 0;
    while i < width
        invariant
            0 <= i <= width,
            bytes@ + le_bytes(rest as nat, (width - i) as nat) == le_bytes(number as nat, width as nat),
            fits_in(rest as nat, (width - i) as nat) == fits_in(number as nat, width as nat),
        decreases width - i,
    {
        let ghost before = bytes@;
        let ghost k = (width - i) as nat;
        assert(le_bytes(rest as nat, k) == seq![(rest % 256) as u8] + le_bytes((rest / 256) as nat, (k - 1) as nat));
        bytes.push((rest % 256) as u8);
        rest = rest / 256;
        i = i + 1;
        assert(bytes@ + le_bytes(rest as nat, (width - i) as nat) =~= before + (seq![(bytes@.last())] + le_bytes(rest as nat, (width - i) as nat)));
    }
    assert(bytes@ + le_bytes(rest as nat, 0) =~= bytes@);
    if rest == 0 {
        let r = vec![Operation::Write { target: target.position, bytes }];
        assert(ops_view(r@) =~= seq![OperationView::Write { target: target.position, bytes: le_bytes(number as nat, width as nat) }]);
        Ok(r)
    } else {
        Err(Error::MismatchedTypes { expected: t, found: scope.get_type(scope.primitives().u8()) })
    }
}

} // verus!

use vstd::prelude::*;
use crate::types::{ArraySize, Identifier, ItemType, MemoryBlock, TypeId};

verus! {

/// What a bound name currently denotes.
#[derive(Clone, Debug, PartialEq, Eq)]
pub enum ScopeItem {
    /// A named compile-time constant of known type and byte representation.
    Constant { type_id: TypeId, bytes: Vec<u8> },
    /// A numeric literal not yet coerced to a concrete numeric type.
    NumericLiteral(u64),
    /// A raw byte sequence not yet coerced to a concrete array type.
    ByteLiteral(Vec<u8>),
    /// An already typed value living in a memory block.
    TypedBlock { type_id: TypeId, memory: MemoryBlock },
    /// An array value: item type, length and backing block.
    Array { item: TypeId, size: ArraySize, memory: MemoryBlock },
    /// A compiler intrinsic; never stored as a value.
    BuiltInFunction,
}

/// One lexical environment: value bindings and type bindings, in order of declaration.
pub struct Scope {
    pub items: Vec<(Identifier, ScopeItem)>,
    pub types: Vec<(Identifier, TypeId)>,
}

/// The types that the compiler itself knows of.
#[derive(Clone, Copy, Debug, PartialEq, Eq, Structural)]
pub struct Primitives {
    pub u8_type: TypeId,
}

impl Primitives {
    /// The byte type.
    pub fn u8(&self) -> (r: TypeId)
        ensures
            r == self.u8_type,
    {
        self.u8_type
    }
}

/// The latest binding of `name` among `bindings`, if any.
pub open spec fn find_binding<T>(bindings: Seq<(Identifier, T)>, name: Seq<char>) -> Option<T>
    decreases bindings.len(),
{
    if bindings.len() == 0 {
        None
    } else if bindings.last().0@ == name {
        Some(bindings.last().1)
    } else {
        find_binding(bindings.drop_last(), name)
    }
}

/// The value binding of `name` in the innermost scope that binds it.
pub open spec fn find_item(scopes: Seq<Scope>, name: Seq<char>) -> Option<ScopeItem>
    decreases scopes.len(),
{
    if scopes.len() == 0 {
        None
    } else {
        match find_binding(scopes.last().items@, name) {
            Some(item) => Some(item),
            None => find_item(scopes.drop_last(), name),
        }
    }
}

/// The type binding of `name` in the innermost scope that binds it.
pub open spec fn find_type(scopes: Seq<Scope>, name: Seq<char>) -> Option<TypeId>
    decreases scopes.len(),
{
    if scopes.len() == 0 {
        None
    } else {
        match find_binding(scopes.last().types@, name) {
            Some(t) => Some(t),
            None => find_type(scopes.drop_last(), name),
        }
    }
}

/// Nested environments over a registry of types, with a compile-time storage allocator.
pub struct ScopeStack {
    /// Outermost first.
    pub scopes: Vec<Scope>,
    /// The type behind each issued `TypeId`, indexed by its id.
    pub registry: Vec<ItemType>,
    /// Position of the next block to hand out.
    pub next_position: usize,
    pub builtins: Primitives,
}

impl ScopeStack {
    pub open spec fn lookup_spec(&self, name: Seq<char>) -> Option<ScopeItem> {
        find_item(self.scopes@, name)
    }

    pub open spec fn lookup_type_spec(&self, name: Seq<char>) -> Option<TypeId> {
        find_type(self.scopes@, name)
    }

    pub open spec fn valid_type(&self, t: TypeId) -> bool {
        t.id < self.registry@.len()
    }

    pub open spec fn type_of(&self, t: TypeId) -> ItemType {
        self.registry@[t.id as int]
    }

    /// Bytes taken by a value of type `t`.
    pub open spec fn type_size(&self, t: TypeId) -> nat {
        match self.type_of(t) {
            ItemType::Primitive(n) => n as nat,
            ItemType::Array { .. } => 0,
        }
    }

    pub open spec fn u8_spec(&self) -> TypeId {
        self.builtins.u8_type
    }

    /// The item refers only to issued types, and a block has the size of what it holds.
    pub open spec fn item_wf(&self, item: ScopeItem) -> bool {
        match item {
            ScopeItem::Constant { type_id, .. } => self.valid_type(type_id),
            ScopeItem::TypedBlock { type_id, memory } => self.valid_type(type_id)
                && memory.size == self.type_size(type_id),
            ScopeItem::Array { item, size, memory } => self.valid_type(item) && memory.size
                == self.type_size(item) * size,
            _ => true,
        }
    }

    pub open spec fn wf(&self) -> bool {
        &&& self.scopes@.len() > 0
        &&& forall|i: int|
            0 <= i < self.registry@.len() ==> (#[trigger] self.registry@[i]) is Primitive
        &&& self.valid_type(self.u8_spec())
        &&& self.type_of(self.u8_spec()) == ItemType::Primitive(1)
        &&& forall|i: int, j: int|
            0 <= i < self.scopes@.len() && 0 <= j < self.scopes@[i].items@.len()
                ==> self.item_wf(#[trigger] self.scopes@[i].items@[j].1)
        &&& forall|i: int, j: int|
            0 <= i < self.scopes@.len() && 0 <= j < self.scopes@[i].types@.len()
                ==> self.valid_type(#[trigger] self.scopes@[i].types@[j].1)
    }

    /// A stack with one scope, where the name `u8` denotes the one-byte primitive.
    pub fn new() -> (r: ScopeStack)
        ensures
            r.wf(),
            r.scopes@.len() == 1,
            r.next_position == 0,
            r.type_of(r.u8_spec()) == ItemType::Primitive(1),
            r.lookup_type_spec("u8"@) == Some(r.u8_spec()),
            forall|n: Seq<char>| r.lookup_spec(n) is None,
    {
        let u8_type = TypeId { id: 0 };
        let mut registry: Vec<ItemType> = Vec::new();
        registry.push(ItemType::Primitive(1));
        let mut types: Vec<(Identifier, TypeId)> = Vec::new();
        types.push((Identifier::new("u8"), u8_type));
        let mut scopes: Vec<Scope> = Vec::new();
        scopes.push(Scope { items: Vec::new(), types });
        let r = ScopeStack { scopes, registry, next_position: 0, builtins: Primitives { u8_type } };
        assert(r.scopes@.last().items@.len() == 0);
        assert(r.scopes@.drop_last().len() == 0);
        assert forall|n: Seq<char>| r.lookup_spec(n) is None by {
            assert(find_binding(r.scopes@.last().items@, n) is None);
            assert(find_item(r.scopes@.drop_last(), n) is None);
        }
        r
    }

    pub fn primitives(&self) -> (r: &Primitives)
        ensures
            *r == self.builtins,
    {
        &self.builtins
    }

    /// Enters a new, empty lexical scope.
    pub fn push_scope(&mut self)
        requires
            old(self).wf(),
        ensures
            final(self).wf(),
            final(self).scopes@.len() == old(self).scopes@.len() + 1,
            final(self).scopes@.drop_last() == old(self).scopes@,
            forall|n: Seq<char>| #[trigger] final(self).lookup_spec(n) == old(self).lookup_spec(n),
            forall|n: Seq<char>| #[trigger] final(self).lookup_type_spec(n) == old(self).lookup_type_spec(n),
            final(self).scopes@.last().items@.len() == 0,
            final(self).scopes@.last().types@.len() == 0,
            final(self).registry == old(self).registry,
            final(self).next_position == old(self).next_position,
            final(self).builtins == old(self).builtins,
    {
        let ghost before = self.scopes@;
        self.scopes.push(Scope { items: Vec::new(), types: Vec::new() });
        assert forall|i: int, j: int|
            0 <= i < self.scopes@.len() && 0 <= j < self.scopes@[i].items@.len()
                implies self.item_wf(#[trigger] self.scopes@[i].items@[j].1) by {
            assert(i < before.len());
            assert(self.scopes@[i] == before[i]);
        }
        assert forall|i: int, j: int|
            0 <= i < self.scopes@.len() && 0 <= j < self.scopes@[i].types@.len()
                implies self.valid_type(#[trigger] self.scopes@[i].types@[j].1) by {
            assert(i < before.len());
            assert(self.scopes@[i] == before[i]);
        }
        assert(self.scopes@.drop_last() =~= before);
        assert forall|n: Seq<char>| #[trigger] self.lookup_spec(n) == find_item(before, n) by {
            assert(find_binding(self.scopes@.last().items@, n) is None);
        }
        assert forall|n: Seq<char>| #[trigger] self.lookup_type_spec(n) == find_type(before, n) by {
            assert(find_binding(self.scopes@.last().types@, n) is None);
        }
    }

    /// Leaves the innermost scope.
    pub fn pop_scope(&mut self)
        requires
            old(self).wf(),
            old(self).scopes@.len() > 1,
        ensures
            final(self).wf(),
            final(self).scopes@ == old(self).scopes@.drop_last(),
            final(self).registry == old(self).registry,
            final(self).next_position == old(self).next_position,
            final(self).builtins == old(self).builtins,
    {
        let ghost before = self.scopes@;
        let _ = self.scopes.pop();
        assert forall|i: int, j: int|
            0 <= i < self.scopes@.len() && 0 <= j < self.scopes@[i].items@.len()
                implies self.item_wf(#[trigger] self.scopes@[i].items@[j].1) by {
            assert(self.scopes@[i] == before[i]);
        }
        assert forall|i: int, j: int|
            0 <= i < self.scopes@.len() && 0 <= j < self.scopes@[i].types@.len()
                implies self.valid_type(#[trigger] self.scopes@[i].types@[j].1) by {
            assert(self.scopes@[i] == before[i]);
        }
    }

    /// The type behind an issued id.
    pub fn get_type(&self, t: TypeId) -> (r: ItemType)
        requires
            self.valid_type(t),
        ensures
            r == self.type_of(t),
    {
        self.registry[t.id]
    }

    /// Finds what `name` denotes, walking from the innermost scope outwards.
    pub fn lookup(&self, name: &Identifier) -> (r: Option<&ScopeItem>)
        requires
            self.wf(),
        ensures
            match r {
                Some(x) => self.lookup_spec(name@) == Some(*x) && self.item_wf(*x),
                None => self.lookup_spec(name@) is None,
            },
    {
        let mut i: usize = self.scopes.len();
        assert(self.scopes@.subrange(0, i as int) =~= self.scopes@);
        while i > 0
            invariant
                0 <= i <= self.scopes@.len(),
                self.wf(),
                find_item(self.scopes@, name@) == find_item(self.scopes@.subrange(0, i as int), name@),
            decreases i,
        {
            let scope = &self.scopes[i - 1];
            let mut j: usize = scope.items.len();
            assert(scope.items@.subrange(0, j as int) =~= scope.items@);
            while j > 0
                invariant
                    self.wf(),
                    0 < i <= self.scopes@.len(),
                    *scope == self.scopes@[i - 1],
                    0 <= j <= scope.items@.len(),
                    find_item(self.scopes@, name@) == find_item(self.scopes@.subrange(0, i as int), name@),
                    find_binding(scope.items@, name@) == find_binding(
                        scope.items@.subrange(0, j as int),
                        name@,
                    ),
                decreases j,
            {
                assert(scope.items@.subrange(0, j as int).drop_last() =~= scope.items@.subrange(0, j - 1));
                if scope.items[j - 1].0.same_as(name) {
                    let ghost sub = self.scopes@.subrange(0, i as int);
                    assert(sub.last() == *scope);
                    assert(find_binding(scope.items@, name@) == Some(scope.items@[j - 1].1));
                    assert(self.item_wf(self.scopes@[i - 1].items@[j - 1].1));
                    return Some(&scope.items[j - 1].1);
                }
                j = j - 1;
            }
            let ghost sub = self.scopes@.subrange(0, i as int);
            assert(sub.last() == *scope);
            assert(sub.drop_last() =~= self.scopes@.subrange(0, i - 1));
            i = i - 1;
        }
        assert(self.scopes@.subrange(0, 0) =~= Seq::<Scope>::empty());
        None
    }

    /// Finds the type that `name` denotes, walking from the innermost scope outwards.
    pub fn lookup_type(&self, name: &Identifier) -> (r: Option<TypeId>)
        requires
            self.wf(),
        ensures
            r == self.lookup_type_spec(name@),
            r matches Some(t) ==> self.valid_type(t),
    {
        let mut i: usize = self.scopes.len();
        assert(self.scopes@.subrange(0, i as int) =~= self.scopes@);
        while i > 0
            invariant
                0 <= i <= self.scopes@.len(),
                self.wf(),
                find_type(self.scopes@, name@) == find_type(self.scopes@.subrange(0, i as int), name@),
            decreases i,
        {
            let scope = &self.scopes[i - 1];
            let mut j: usize = scope.types.len();
            assert(scope.types@.subrange(0, j as int) =~= scope.types@);
            while j > 0
                invariant
                    self.wf(),
                    0 < i <= self.scopes@.len(),
                    *scope == self.scopes@[i - 1],
                    0 <= j <= scope.types@.len(),
                    find_type(self.scopes@, name@) == find_type(self.scopes@.subrange(0, i as int), name@),
                    find_binding(scope.types@, name@) == find_binding(
                        scope.types@.subrange(0, j as int),
                        name@,
                    ),
                decreases j,
            {
                assert(scope.types@.subrange(0, j as int).drop_last() =~= scope.types@.subrange(0, j - 1));
                if scope.types[j - 1].0.same_as(name) {
                    let ghost sub = self.scopes@.subrange(0, i as int);
                    assert(sub.last() == *scope);
                    assert(find_binding(scope.types@, name@) == Some(scope.types@[j - 1].1));
                    assert(self.valid_type(self.scopes@[i - 1].types@[j - 1].1));
                    return Some(scope.types[j - 1].1);
                }
                j = j - 1;
            }
            let ghost sub = self.scopes@.subrange(0, i as int);
            assert(sub.last() == *scope);
            assert(sub.drop_last() =~= self.scopes@.subrange(0, i - 1));
            i = i - 1;
        }
        assert(self.scopes@.subrange(0, 0) =~= Seq::<Scope>::empty());
        None
    }

    /// Binds `name` to `item` in the innermost scope, shadowing any earlier binding.
    pub fn bind(&mut self, name: Identifier, item: ScopeItem)
        requires
            old(self).wf(),
            old(self).item_wf(item),
        ensures
            final(self).wf(),
            final(self).scopes@.len() == old(self).scopes@.len(),
            final(self).scopes@.drop_last() == old(self).scopes@.drop_last(),
            final(self).scopes@.last().items@ == old(self).scopes@.last().items@.push((name, item)),
            final(self).scopes@.last().types@ == old(self).scopes@.last().types@,
            final(self).lookup_spec(name@) == Some(item),
            forall|n: Seq<char>| n != name@ ==> #[trigger] final(self).lookup_spec(n) == old(self).lookup_spec(n),
            forall|n: Seq<char>| #[trigger] final(self).lookup_type_spec(n) == old(self).lookup_type_spec(n),
            final(self).registry == old(self).registry,
            final(self).next_position == old(self).next_position,
            final(self).builtins == old(self).builtins,
    {
        let ghost before = self.scopes@;
        let mut scope = self.scopes.pop().unwrap();
        let ghost old_items = scope.items@;
        scope.items.push((name, item));
        self.scopes.push(scope);
        let ghost after = self.scopes@;
        assert(after.drop_last() =~= before.drop_last());
        assert(after.last().items@.drop_last() =~= old_items);
        assert forall|i: int, j: int|
            0 <= i < after.len() && 0 <= j < after[i].items@.len()
                implies self.item_wf(#[trigger] after[i].items@[j].1) by {
            if i < after.len() - 1 {
                assert(after[i] == before[i]);
            } else if j < old_items.len() {
                assert(after[i].items@[j] == before[i].items@[j]);
            }
        }
        assert forall|i: int, j: int|
            0 <= i < after.len() && 0 <= j < after[i].types@.len()
                implies self.valid_type(#[trigger] after[i].types@[j].1) by {
            if i < after.len() - 1 {
                assert(after[i] == before[i]);
            } else {
                assert(after[i].types@[j] == before[i].types@[j]);
            }
        }
        assert forall|n: Seq<char>| n != name@ implies #[trigger] self.lookup_spec(n) == find_item(before, n) by {
            assert(find_binding(after.last().items@, n) == find_binding(old_items, n));
        }
        assert forall|n: Seq<char>| #[trigger] self.lookup_type_spec(n) == find_type(before, n) by {
            assert(after.last().types@ == before.last().types@);
        }
    }

    /// Issues a new id for a primitive type and binds `name` to it in the innermost scope.
    pub fn declare_type(&mut self, name: Identifier, item_type: ItemType) -> (r: TypeId)
        requires
            old(self).wf(),
            item_type is Primitive,
            old(self).registry@.len() < usize::MAX,
        ensures
            final(self).wf(),
            r.id == old(self).registry@.len(),
            final(self).registry@ == old(self).registry@.push(item_type),
            final(self).lookup_type_spec(name@) == Some(r),
            forall|n: Seq<char>| n != name@ ==> #[trigger] final(self).lookup_type_spec(n) == old(self).lookup_type_spec(n),
            forall|n: Seq<char>| #[trigger] final(self).lookup_spec(n) == old(self).lookup_spec(n),
            final(self).scopes@.len() == old(self).scopes@.len(),
            final(self).next_position == old(self).next_position,
            final(self).builtins == old(self).builtins,
    {
        let r = TypeId { id: self.registry.len() };
        self.registry.push(item_type);
        let ghost before = self.scopes@;
        let mut scope = self.scopes.pop().unwrap();
        let ghost old_types = scope.types@;
        scope.types.push((name, r));
        self.scopes.push(scope);
        let ghost after = self.scopes@;
        assert(after.drop_last() =~= before.drop_last());
        assert(after.last().types@.drop_last() =~= old_types);
        assert forall|i: int| 0 <= i < self.registry@.len() implies (#[trigger] self.registry@[i]) is Primitive by {
            if i < self.registry@.len() - 1 {
                assert(self.registry@[i] == old(self).registry@[i]);
            }
        }
        assert(self.type_of(self.u8_spec()) == old(self).type_of(self.u8_spec()));
        assert forall|i: int, j: int|
            0 <= i < after.len() && 0 <= j < after[i].items@.len()
                implies self.item_wf(#[trigger] after[i].items@[j].1) by {
            if i < after.len() - 1 {
                assert(after[i] == before[i]);
            } else {
                assert(after[i].items@[j] == before[i].items@[j]);
            }
            let it = after[i].items@[j].1;
            assert(old(self).item_wf(it));
            match it {
                ScopeItem::TypedBlock { type_id, .. } => {
                    assert(self.type_of(type_id) == old(self).type_of(type_id));
                },
                ScopeItem::Array { item, .. } => {
                    assert(self.type_of(item) == old(self).type_of(item));
                },
                _ => {},
            }
        }
        assert forall|i: int, j: int|
            0 <= i < after.len() && 0 <= j < after[i].types@.len()
                implies self.valid_type(#[trigger] after[i].types@[j].1) by {
            if i < after.len() - 1 {
                assert(after[i] == before[i]);
            } else if j < old_types.len() {
                assert(after[i].types@[j] == before[i].types@[j]);
            }
        }
        assert forall|n: Seq<char>| n != name@ implies #[trigger] self.lookup_type_spec(n) == find_type(before, n) by {
            assert(find_binding(after.last().types@, n) == find_binding(old_types, n));
        }
        assert forall|n: Seq<char>| #[trigger] self.lookup_spec(n) == find_item(before, n) by {
            assert(after.last().items@ == before.last().items@);
        }
        r
    }

    /// Reserves a fresh block of `size` bytes after every block handed out so far.
    pub fn allocate(&mut self, size: usize) -> (r: MemoryBlock)
        requires
            old(self).next_position + size <= usize::MAX,
        ensures
            r.position == old(self).next_position,
            r.size == size,
            final(self).next_position == old(self).next_position + size,
            final(self).scopes == old(self).scopes,
            final(self).registry == old(self).registry,
            final(self).builtins == old(self).builtins,
    {
        let r = MemoryBlock { position: self.next_position, size };
        self.next_position = self.next_position + size;
        r
    }

    /// Reserves a block for a value of type `type_id` and binds `name` to it.
    pub fn declare(&mut self, name: Identifier, type_id: TypeId) -> (r: MemoryBlock)
        requires
            old(self).wf(),
            old(self).valid_type(type_id),
            old(self).next_position + old(self).type_size(type_id) <= usize::MAX,
        ensures
            final(self).wf(),
            r.position == old(self).next_position,
            r.size == old(self).type_size(type_id),
            final(self).next_position == old(self).next_position + r.size,
            final(self).lookup_spec(name@) == Some(ScopeItem::TypedBlock { type_id, memory: r }),
            final(self).scopes@.len() == old(self).scopes@.len(),
            final(self).scopes@.drop_last() == old(self).scopes@.drop_last(),
            final(self).scopes@.last().items@ == old(self).scopes@.last().items@.push(
                (name, ScopeItem::TypedBlock { type_id, memory: r }),
            ),
            forall|n: Seq<char>| n != name@ ==> #[trigger] final(self).lookup_spec(n) == old(self).lookup_spec(n),
            forall|n: Seq<char>| #[trigger] final(self).lookup_type_spec(n) == old(self).lookup_type_spec(n),
            final(self).registry == old(self).registry,
            final(self).builtins == old(self).builtins,
    {
        let size = match self.get_type(type_id) {
            ItemType::Primitive(n) => n,
            ItemType::Array { .. } => 0,
        };
        let memory = self.allocate(size);
        self.bind(name, ScopeItem::TypedBlock { type_id, memory });
        memory
    }

    /// Reserves a block for `size` items of type `item` and binds `name` to the array.
    pub fn declare_array(&mut self, name: Identifier, item: TypeId, size: ArraySize) -> (r: MemoryBlock)
        requires
            old(self).wf(),
            old(self).valid_type(item),
            old(self).next_position + old(self).type_size(item) * size <= usize::MAX,
        ensures
            final(self).wf(),
            r.position == old(self).next_position,
            r.size == old(self).type_size(item) * size,
            final(self).next_position == old(self).next_position + r.size,
            final(self).lookup_spec(name@) == Some(ScopeItem::Array { item, size, memory: r }),
            forall|n: Seq<char>| n != name@ ==> #[trigger] final(self).lookup_spec(n) == old(self).lookup_spec(n),
            forall|n: Seq<char>| #[trigger] final(self).lookup_type_spec(n) == old(self).lookup_type_spec(n),
            final(self).registry == old(self).registry,
            final(self).builtins == old(self).builtins,
    {
        let item_size = match self.get_type(item) {
            ItemType::Primitive(n) => n,
            ItemType::Array { .. } => 0,
        };
        let memory = self.allocate(item_size * size);
        self.bind(name, ScopeItem::Array { item, size, memory });
        memory
    }
}

} // verus!

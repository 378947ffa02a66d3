//! Dispatch tables and the metadata handle for dynamically dispatched
//! referents.
//!
//! A dispatch table is an out-of-band record describing one concrete type
//! under one dispatch contract: the concrete type's size and alignment, a
//! finalizer entry, and one entry per operation of the contract, in a fixed,
//! contract-defined order. The library constructs and owns its tables
//! explicitly: a [`TableRegistry`] holds every table produced for one
//! contract, one table per concrete type, and a [`DynMetadata`] handle is a
//! non-owning reference to one of them.
//!
//! The layout of a table is a flat run of pointer-sized words: slot 0 holds
//! the finalizer entry, slot 1 the concrete size, slot 2 the concrete
//! alignment, and the operation entries follow. Introspection reads size and
//! alignment at those fixed, contract-independent offsets.

use vstd::prelude::*;
use vstd::std_specs::cmp::PartialOrdSpec;
use core::cmp::Ordering;
use core::marker::PhantomData;

verus! {

/// Whether `n` is a power of two (and in particular at least 1).
pub open spec fn is_power_of_two(n: int) -> bool
    decreases n,
{
    if n <= 0 {
        false
    } else if n == 1 {
        true
    } else {
        n % 2 == 0 && is_power_of_two(n / 2)
    }
}

/// A power of two is at least 1.
pub proof fn lemma_power_of_two_pos(n: int)
    requires
        is_power_of_two(n),
    ensures
        n >= 1,
    decreases n,
{
}

/// Decides [`is_power_of_two`] for a machine word.
pub fn check_power_of_two(n: usize) -> (b: bool)
    ensures
        b == is_power_of_two(n as int),
{
    if n == 0 {
        return false;
    }
    let mut m: usize = n;
    while m % 2 == 0
        invariant
            1 <= m,
            is_power_of_two(n as int) == is_power_of_two(m as int),
        decreases m,
    {
        m = m / 2;
    }
    m == 1
}

/// One dispatch table: the out-of-band record for one concrete type under
/// one dispatch contract.
///
/// The table is a flat run of pointer-sized words: slot 0 is the finalizer
/// entry, slot 1 the concrete type's size, slot 2 its alignment, and slots 3
/// onward hold one entry per operation of the contract, in the contract's
/// fixed order. Once produced, a table is never mutated.
pub struct VTable {
    words: Vec<usize>,
}

impl View for VTable {
    type V = Seq<usize>;

    closed spec fn view(&self) -> Seq<usize> {
        self.words@
    }
}

impl VTable {
    /// A table holds at least its finalizer, size and alignment slots, and
    /// the alignment slot holds a power of two.
    pub open spec fn wf(&self) -> bool {
        &&& self@.len() >= 3
        &&& is_power_of_two(self@[2] as int)
    }

    /// The finalizer entry, at slot 0.
    pub open spec fn finalizer_spec(&self) -> usize {
        self@[0]
    }

    /// The concrete type's size, at slot 1.
    pub open spec fn size_spec(&self) -> usize {
        self@[1]
    }

    /// The concrete type's alignment, at slot 2.
    pub open spec fn align_spec(&self) -> usize {
        self@[2]
    }

    /// Builds the table for one concrete type: finalizer, size and alignment
    /// first, then the operation entries in the contract's order.
    pub fn new(finalizer: usize, size: usize, align: usize, ops: Vec<usize>) -> (t: VTable)
        requires
            is_power_of_two(align as int),
        ensures
            t@ == seq![finalizer, size, align] + ops@,
            t.wf(),
    {
        let mut words: Vec<usize> = Vec::new();
        words.push(finalizer);
        words.push(size);
        words.push(align);
        let mut i: usize = 0;
        while i < ops.len()
            invariant
                i <= ops.len(),
                words@ == seq![finalizer, size, align] + ops@.subrange(0, i as int),
            decreases ops.len() - i,
        {
            let w = ops[i];
            words.push(w);
            proof {
                assert(words@ =~= seq![finalizer, size, align] + ops@.subrange(0, i + 1));
            }
            i = i + 1;
        }
        proof {
            assert(ops@.subrange(0, ops@.len() as int) =~= ops@);
            assert(words@ =~= seq![finalizer, size, align] + ops@);
        }
        let t = VTable { words };
        proof {
            assert(t@[2] == align);
        }
        t
    }

    /// Reads one pointer-sized word of the table.
    pub fn word(&self, slot: usize) -> (w: usize)
        requires
            slot < self@.len(),
        ensures
            w == self@[slot as int],
    {
        self.words[slot]
    }
}

/// The size and alignment of a concrete type, as read out of its dispatch
/// table.
#[derive(Clone, Copy, PartialEq, Eq, Structural, Debug)]
pub struct Layout {
    /// The concrete type's size in bytes.
    pub size: usize,
    /// The concrete type's alignment in bytes; a power of two.
    pub align: usize,
}

/// The dispatch-table store for one contract.
///
/// Tables are produced once, at build time, one per concrete type conforming
/// to the contract `Dyn`, and live for the duration of the program. A
/// [`DynMetadata`] handle names its table by position in this store, so two
/// handles are equal exactly when they name the same table instance, however
/// alike the contents of two distinct tables may be.
pub struct TableRegistry<Dyn> {
    tables: Vec<VTable>,
    contract: PhantomData<Dyn>,
}

impl<Dyn> View for TableRegistry<Dyn> {
    type V = Seq<VTable>;

    closed spec fn view(&self) -> Seq<VTable> {
        self.tables@
    }
}

impl<Dyn> TableRegistry<Dyn> {
    /// Every table of the store is well formed.
    pub open spec fn wf(&self) -> bool {
        forall|i: int| 0 <= i < self@.len() ==> (#[trigger] self@[i]).wf()
    }

    /// An empty store, for a contract no concrete type conforms to yet.
    pub fn new() -> (r: Self)
        ensures
            r@ == Seq::<VTable>::empty(),
            r.wf(),
    {
        TableRegistry { tables: Vec::new(), contract: PhantomData }
    }

    /// Produces the dispatch table for one more concrete type and returns
    /// the handle that names it. Tables already in the store are untouched,
    /// so every handle given out earlier keeps naming its own table.
    pub fn register(&mut self, finalizer: usize, size: usize, align: usize, ops: Vec<usize>) -> (h:
        DynMetadata<Dyn>)
        requires
            is_power_of_two(align as int),
        ensures
            final(self)@.len() == old(self)@.len() + 1,
            final(self)@.subrange(0, old(self)@.len() as int) == old(self)@,
            h.table_id_spec() == old(self)@.len(),
            h.in_store(final(self)),
            final(self)@[h.table_id_spec() as int]@ == seq![finalizer, size, align] + ops@,
            old(self).wf() ==> final(self).wf(),
    {
        let table = VTable::new(finalizer, size, align, ops);
        let table_id = self.tables.len();
        self.tables.push(table);
        proof {
            assert(self.tables@.subrange(0, old(self)@.len() as int) =~= old(self)@);
        }
        DynMetadata { table_id, contract: PhantomData }
    }

    /// Returns a fresh handle to the table at the given position of the
    /// store.
    pub fn handle(&self, table_id: usize) -> (h: DynMetadata<Dyn>)
        requires
            table_id < self@.len(),
        ensures
            h.table_id_spec() == table_id,
            h.in_store(self),
    {
        DynMetadata { table_id, contract: PhantomData }
    }

    /// How many tables the store holds.
    pub fn table_count(&self) -> (n: usize)
        ensures
            n == self@.len(),
    {
        self.tables.len()
    }

    /// A borrow of the table a handle names.
    pub fn table(&self, table_id: usize) -> (t: &VTable)
        requires
            table_id < self@.len(),
        ensures
            *t == self@[table_id as int],
    {
        &self.tables[table_id]
    }
}

/// The metadata for a dynamically dispatched reference: a non-owning handle
/// to one dispatch table of the store for contract `Dyn`.
///
/// Equality, ordering and hashing of handles are defined on the identity of
/// the table they name, never on the table's contents: two concrete types
/// with identical operation entries still give distinct, non-equal handles.
#[derive(Eq, Ord, Hash, Debug)]
pub struct DynMetadata<Dyn> {
    table_id: usize,
    contract: PhantomData<Dyn>,
}

impl<Dyn> DynMetadata<Dyn> {
    /// The position of the table this handle names.
    pub closed spec fn table_id_spec(&self) -> usize {
        self.table_id
    }

    /// The handle names a table of the given store.
    pub open spec fn in_store(&self, tables: &TableRegistry<Dyn>) -> bool {
        self.table_id_spec() < tables@.len()
    }

    /// Returns the size of the concrete type behind this handle, read out of
    /// the dispatch table at slot 1, the fixed offset the table producer
    /// guarantees.
    pub fn size_of(&self, tables: &TableRegistry<Dyn>) -> (size: usize)
        requires
            self.in_store(tables),
            tables.wf(),
        ensures
            size == tables@[self.table_id_spec() as int].size_spec(),
    {
        let table = tables.table(self.table_id);
        table.word(1)
    }

    /// Returns the alignment of the concrete type behind this handle, read
    /// out of the dispatch table at slot 2, the fixed offset the table
    /// producer guarantees.
    pub fn align_of(&self, tables: &TableRegistry<Dyn>) -> (align: usize)
        requires
            self.in_store(tables),
            tables.wf(),
        ensures
            align == tables@[self.table_id_spec() as int].align_spec(),
            is_power_of_two(align as int),
    {
        let table = tables.table(self.table_id);
        table.word(2)
    }

    /// Returns the layout of the concrete type behind this handle: its size
    /// and its alignment, the latter a power of two and so at least 1.
    pub fn layout(&self, tables: &TableRegistry<Dyn>) -> (l: Layout)
        requires
            self.in_store(tables),
            tables.wf(),
        ensures
            l.size == tables@[self.table_id_spec() as int].size_spec(),
            l.align == tables@[self.table_id_spec() as int].align_spec(),
            is_power_of_two(l.align as int),
            l.align >= 1,
    {
        let size = self.size_of(tables);
        let align = self.align_of(tables);
        proof {
            lemma_power_of_two_pos(align as int);
        }
        Layout { size, align }
    }
}

impl<Dyn> Clone for DynMetadata<Dyn> {
    fn clone(&self) -> Self {
        DynMetadata { table_id: self.table_id, contract: PhantomData }
    }
}

impl<Dyn> Copy for DynMetadata<Dyn> {

}

impl<Dyn> PartialEq for DynMetadata<Dyn> {
    fn eq(&self, other: &Self) -> bool {
        self.table_id == other.table_id
    }
}

impl<Dyn> vstd::std_specs::cmp::PartialEqSpecImpl for DynMetadata<Dyn> {
    open spec fn obeys_eq_spec() -> bool {
        true
    }

    open spec fn eq_spec(&self, other: &Self) -> bool {
        self.table_id_spec() == other.table_id_spec()
    }
}

impl<Dyn> PartialOrd for DynMetadata<Dyn> {
    fn partial_cmp(&self, other: &Self) -> Option<Ordering> {
        if self.table_id < other.table_id {
            Some(Ordering::Less)
        } else if self.table_id == other.table_id {
            Some(Ordering::Equal)
        } else {
            Some(Ordering::Greater)
        }
    }
}

impl<Dyn> vstd::std_specs::cmp::PartialOrdSpecImpl for DynMetadata<Dyn> {
    open spec fn obeys_partial_cmp_spec() -> bool {
        true
    }

    open spec fn partial_cmp_spec(&self, other: &Self) -> Option<Ordering> {
        if self.table_id_spec() < other.table_id_spec() {
            Some(Ordering::Less)
        } else if self.table_id_spec() == other.table_id_spec() {
            Some(Ordering::Equal)
        } else {
            Some(Ordering::Greater)
        }
    }
}

/// Table-handle identity law: two handles are equal exactly when they name
/// the same dispatch table of their contract's store, never by the contents
/// of the tables. In particular, handles to the tables of two different
/// concrete types are unequal even if every operation entry agrees.
pub proof fn lemma_handle_identity<Dyn>(a: DynMetadata<Dyn>, b: DynMetadata<Dyn>)
    ensures
        (a == b) <==> a.table_id_spec() == b.table_id_spec(),
        (a.partial_cmp_spec(&b) == Some(Ordering::Equal)) <==> a == b,
{
}

} // verus!

//! The referent shapes and their [`Pointee`] implementations.
//!
//! A reference is modeled as an explicit pair of a data address and the
//! metadata of its referent shape:
//!
//! * [`ThinRef`] for fixed-size referents, whose metadata is the empty
//!   [`NoMetadata`];
//! * [`SliceRef`] for a contiguous run of fixed-size elements, whose
//!   metadata is the element count;
//! * [`StrRef`] and [`CStrRef`] for text-like referents, whose metadata is
//!   the byte count;
//! * [`DynRef`] for dynamically dispatched referents, whose metadata is a
//!   [`DynMetadata`] handle to the concrete type's dispatch table;
//! * [`CompositeRef`] for a fixed-layout prefix followed by one trailing
//!   member of possibly-unknown size, whose metadata is the tail's metadata.

use vstd::prelude::*;
use core::marker::PhantomData;

use crate::Pointee;
use crate::vtable::DynMetadata;

verus! {

/// The empty metadata of a fixed-size referent.
#[derive(Clone, Copy, PartialEq, Eq, Structural, Debug)]
pub struct NoMetadata;

/// A reference to a fixed-size referent of type `T`: size and alignment are
/// known at build time, so the metadata is empty and the reference is its
/// data address alone.
pub struct ThinRef<T> {
    /// The data address.
    pub addr: usize,
    /// The referent type the address points at.
    pub referent: PhantomData<T>,
}

impl<T> Pointee for ThinRef<T> {
    type Metadata = NoMetadata;

    open spec fn addr_spec(&self) -> usize {
        self.addr
    }

    open spec fn meta_spec(&self) -> NoMetadata {
        NoMetadata
    }

    fn data_address(&self) -> usize {
        self.addr
    }

    fn metadata_of(&self) -> NoMetadata {
        NoMetadata
    }

    fn assemble(addr: usize, meta: NoMetadata) -> Self {
        ThinRef { addr, referent: PhantomData }
    }

    proof fn lemma_parts_determine(a: Self, b: Self) {
        assert(a == b);
    }
}

/// A reference to a contiguous run of fixed-size elements of type `T` whose
/// count is not known at build time. The metadata is the element count.
pub struct SliceRef<T> {
    /// The data address of the first element.
    pub addr: usize,
    /// The declared element count.
    pub len: usize,
    /// The element type of the run.
    pub elem: PhantomData<T>,
}

impl<T> Pointee for SliceRef<T> {
    type Metadata = usize;

    open spec fn addr_spec(&self) -> usize {
        self.addr
    }

    open spec fn meta_spec(&self) -> usize {
        self.len
    }

    fn data_address(&self) -> usize {
        self.addr
    }

    fn metadata_of(&self) -> usize {
        self.len
    }

    fn assemble(addr: usize, meta: usize) -> Self {
        SliceRef { addr, len: meta, elem: PhantomData }
    }

    proof fn lemma_parts_determine(a: Self, b: Self) {
        assert(a == b);
    }
}

/// A reference to text-like data: a run of bytes whose count is not known at
/// build time. The metadata is the byte count.
#[derive(Clone, Copy, PartialEq, Eq, Structural, Debug)]
pub struct StrRef {
    /// The data address of the first byte.
    pub addr: usize,
    /// The byte count of the text.
    pub byte_len: usize,
}

impl Pointee for StrRef {
    type Metadata = usize;

    open spec fn addr_spec(&self) -> usize {
        self.addr
    }

    open spec fn meta_spec(&self) -> usize {
        self.byte_len
    }

    fn data_address(&self) -> usize {
        self.addr
    }

    fn metadata_of(&self) -> usize {
        self.byte_len
    }

    fn assemble(addr: usize, meta: usize) -> Self {
        StrRef { addr, byte_len: meta }
    }

    proof fn lemma_parts_determine(a: Self, b: Self) {
        assert(a == b);
    }
}

/// A reference to a nul-terminated run of bytes. The metadata is the byte
/// count, the terminating nul included.
#[derive(Clone, Copy, PartialEq, Eq, Structural, Debug)]
pub struct CStrRef {
    /// The data address of the first byte.
    pub addr: usize,
    /// The byte count, nul included.
    pub byte_len: usize,
}

impl Pointee for CStrRef {
    type Metadata = usize;

    open spec fn addr_spec(&self) -> usize {
        self.addr
    }

    open spec fn meta_spec(&self) -> usize {
        self.byte_len
    }

    fn data_address(&self) -> usize {
        self.addr
    }

    fn metadata_of(&self) -> usize {
        self.byte_len
    }

    fn assemble(addr: usize, meta: usize) -> Self {
        CStrRef { addr, byte_len: meta }
    }

    proof fn lemma_parts_determine(a: Self, b: Self) {
        assert(a == b);
    }
}

/// A reference to a dynamically dispatched referent conforming to the
/// contract `Dyn`: the concrete layout is erased, and the metadata is the
/// handle to the concrete type's dispatch table.
pub struct DynRef<Dyn> {
    /// The data address of the erased concrete value.
    pub addr: usize,
    /// The handle to the concrete type's dispatch table.
    pub meta: DynMetadata<Dyn>,
}

impl<Dyn> Pointee for DynRef<Dyn> {
    type Metadata = DynMetadata<Dyn>;

    open spec fn addr_spec(&self) -> usize {
        self.addr
    }

    open spec fn meta_spec(&self) -> DynMetadata<Dyn> {
        self.meta
    }

    fn data_address(&self) -> usize {
        self.addr
    }

    fn metadata_of(&self) -> DynMetadata<Dyn> {
        self.meta
    }

    fn assemble(addr: usize, meta: DynMetadata<Dyn>) -> Self {
        DynRef { addr, meta }
    }

    proof fn lemma_parts_determine(a: Self, b: Self) {
        assert(a == b);
    }
}

/// A reference to a composite with a fixed-layout prefix and one trailing
/// member of shape `Tail`. The whole composite has the metadata of its tail.
pub struct CompositeRef<Tail: Pointee> {
    /// The data address of the composite's first byte.
    pub addr: usize,
    /// The metadata of the trailing member.
    pub tail_meta: Tail::Metadata,
}

impl<Tail: Pointee> Pointee for CompositeRef<Tail> {
    type Metadata = Tail::Metadata;

    open spec fn addr_spec(&self) -> usize {
        self.addr
    }

    open spec fn meta_spec(&self) -> Tail::Metadata {
        self.tail_meta
    }

    fn data_address(&self) -> usize {
        self.addr
    }

    fn metadata_of(&self) -> Tail::Metadata {
        self.tail_meta
    }

    fn assemble(addr: usize, meta: Tail::Metadata) -> Self {
        CompositeRef { addr, tail_meta: meta }
    }

    proof fn lemma_parts_determine(a: Self, b: Self) {
        assert(a == b);
    }
}

/// Metadata stability under shape: a length-tagged reference of declared
/// element count `N` has metadata exactly `N`, whatever its element type;
/// two runs of different element types but equal declared counts have equal
/// metadata.
pub proof fn lemma_length_metadata_stability<T, U>(a: SliceRef<T>, b: SliceRef<U>)
    requires
        a.len == b.len,
    ensures
        a.meta_spec() == a.len,
        b.meta_spec() == a.len,
        a.meta_spec() == b.meta_spec(),
{
}

/// Composite propagation: a composite reference built over the metadata of
/// its trailing member reports exactly that metadata as its own.
pub proof fn lemma_composite_propagation<Tail: Pointee>(c: CompositeRef<Tail>, tail: Tail)
    requires
        c.tail_meta == tail.meta_spec(),
    ensures
        c.meta_spec() == tail.meta_spec(),
{
}

impl<Tail: Pointee> Clone for CompositeRef<Tail> {
    fn clone(&self) -> Self {
        CompositeRef { addr: self.addr, tail_meta: self.tail_meta }
    }
}

impl<Tail: Pointee> Copy for CompositeRef<Tail> {

}

impl<T> Clone for ThinRef<T> {
    fn clone(&self) -> Self {
        ThinRef { addr: self.addr, referent: PhantomData }
    }
}

impl<T> Copy for ThinRef<T> {

}

impl<T> PartialEq for ThinRef<T> {
    fn eq(&self, other: &Self) -> bool {
        self.addr == other.addr
    }
}

impl<T> vstd::std_specs::cmp::PartialEqSpecImpl for ThinRef<T> {
    open spec fn obeys_eq_spec() -> bool {
        true
    }

    open spec fn eq_spec(&self, other: &Self) -> bool {
        self.addr == other.addr
    }
}

impl<T> Clone for SliceRef<T> {
    fn clone(&self) -> Self {
        SliceRef { addr: self.addr, len: self.len, elem: PhantomData }
    }
}

impl<T> Copy for SliceRef<T> {

}

impl<T> PartialEq for SliceRef<T> {
    fn eq(&self, other: &Self) -> bool {
        self.addr == other.addr && self.len == other.len
    }
}

impl<T> vstd::std_specs::cmp::PartialEqSpecImpl for SliceRef<T> {
    open spec fn obeys_eq_spec() -> bool {
        true
    }

    open spec fn eq_spec(&self, other: &Self) -> bool {
        self.addr == other.addr && self.len == other.len
    }
}

impl<Dyn> Clone for DynRef<Dyn> {
    fn clone(&self) -> Self {
        DynRef { addr: self.addr, meta: self.meta }
    }
}

impl<Dyn> Copy for DynRef<Dyn> {

}

impl<Dyn> PartialEq for DynRef<Dyn> {
    fn eq(&self, other: &Self) -> bool {
        self.addr == other.addr && self.meta == other.meta
    }
}

impl<Dyn> vstd::std_specs::cmp::PartialEqSpecImpl for DynRef<Dyn> {
    open spec fn obeys_eq_spec() -> bool {
        true
    }

    open spec fn eq_spec(&self, other: &Self) -> bool {
        self.addr == other.addr && self.meta.table_id_spec() == other.meta.table_id_spec()
    }
}

} // verus!

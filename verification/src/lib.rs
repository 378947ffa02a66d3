//! Fat-reference decomposition and reconstruction.
//!
//! A reference to a value of possibly-unknown size is modeled as a pair of a
//! data address and a piece of metadata describing how much memory and/or
//! which behavior the referent has. The [`Pointee`] trait ties each referent
//! shape to its metadata type, [`to_raw_parts`] splits a reference into its
//! two halves, and [`from_raw_parts`] rebuilds the reference from them.
//!
//! The shapes a referent can take live in [`impls`]: fixed-size referents
//! (empty metadata), length-tagged referents (a count), dynamically
//! dispatched referents (a [`vtable::DynMetadata`] handle into a dispatch
//! table), and composites whose trailing member is itself of unknown size.
//!
//! The build-time side lives in [`generate`]: given the description of a
//! composite shape or of a dispatch contract, it emits the declaration that
//! associates the shape with its metadata type.

use vstd::prelude::*;

pub mod attributes;
pub mod diagnostic;
pub mod generate;
pub mod impls;
pub mod vtable;

pub use crate::vtable::DynMetadata;

verus! {

/// A trait which associates pointer metadata with a referent shape.
///
/// A reference is thought of as having two parts: a data address and some
/// extra metadata. For fixed-size referents the metadata is the empty
/// [`impls::NoMetadata`]; for length-tagged referents it is a `usize`
/// count; for dynamically dispatched
/// referents it is a [`vtable::DynMetadata`] handle; for a composite with a
/// trailing member of unknown size it is the metadata of that trailing
/// member.
///
/// Every implementor promises, through [`Pointee::lemma_parts_determine`],
/// that a reference is determined by its two halves: this is what makes the
/// round trip through [`to_raw_parts`] and [`from_raw_parts`] lossless.
pub trait Pointee: Sized {
    /// The metadata type for references to this shape.
    type Metadata: Copy;

    /// The data-address half of this reference.
    spec fn addr_spec(&self) -> usize;

    /// The metadata half of this reference.
    spec fn meta_spec(&self) -> Self::Metadata;

    /// Returns the data address of this reference.
    fn data_address(&self) -> (addr: usize)
        ensures
            addr == self.addr_spec(),
    ;

    /// Returns the metadata of this reference.
    fn metadata_of(&self) -> (meta: Self::Metadata)
        ensures
            meta == self.meta_spec(),
    ;

    /// Combines a data address and a metadata value into a reference.
    ///
    /// Construction is infallible by design: the caller is responsible for
    /// the address actually pointing at storage consistent with the
    /// metadata, and a mismatched pair is a precondition violation at the
    /// point the reference is later used, not here.
    fn assemble(addr: usize, meta: Self::Metadata) -> (r: Self)
        ensures
            r.addr_spec() == addr,
            r.meta_spec() == meta,
    ;

    /// A reference is nothing but its two halves: two references with the
    /// same data address and the same metadata are the same reference.
    proof fn lemma_parts_determine(a: Self, b: Self)
        requires
            a.addr_spec() == b.addr_spec(),
            a.meta_spec() == b.meta_spec(),
        ensures
            a == b,
    ;
}

/// Returns the metadata of the given reference.
///
/// Pure and infallible: the metadata exists by construction for any
/// reference that can be formed at all.
pub fn metadata<T: Pointee>(ptr: &T) -> (meta: T::Metadata)
    ensures
        meta == ptr.meta_spec(),
{
    ptr.metadata_of()
}

/// Returns the data address and metadata of the given reference.
///
/// The pair is exactly what [`from_raw_parts`] needs to rebuild the
/// reference, bit for bit.
pub fn to_raw_parts<T: Pointee>(ptr: &T) -> (parts: (usize, T::Metadata))
    ensures
        parts.0 == ptr.addr_spec(),
        parts.1 == ptr.meta_spec(),
{
    (ptr.data_address(), ptr.metadata_of())
}

/// Returns the data address and metadata of a reference held with mutable
/// access. The reference itself is left unchanged.
pub fn to_raw_parts_mut<T: Pointee>(ptr: &mut T) -> (parts: (usize, T::Metadata))
    ensures
        *final(ptr) == *old(ptr),
        parts.0 == old(ptr).addr_spec(),
        parts.1 == old(ptr).meta_spec(),
{
    (ptr.data_address(), ptr.metadata_of())
}

/// Returns the reference with the given data address and metadata.
///
/// This operation never fails, and the result is the unique reference with
/// these two halves. The caller is responsible for the address pointing at
/// storage consistent with the metadata; a mismatched pair makes the result
/// unusable, not the construction fail.
pub fn from_raw_parts<T: Pointee>(data_address: usize, metadata: T::Metadata) -> (r: T)
    ensures
        r.addr_spec() == data_address,
        r.meta_spec() == metadata,
        forall|s: T|
            s.addr_spec() == data_address && s.meta_spec() == metadata ==> r == s,
{
    let r = T::assemble(data_address, metadata);
    proof {
        assert forall|s: T|
            s.addr_spec() == data_address && s.meta_spec() == metadata implies r == s by {
            T::lemma_parts_determine(r, s);
        }
    }
    r
}

/// Returns the reference with the given data address and metadata, for a
/// caller that wants mutable access through it.
///
/// See [`from_raw_parts`]; the guarantees are the same.
pub fn from_raw_parts_mut<T: Pointee>(data_address: usize, metadata: T::Metadata) -> (r: T)
    ensures
        r.addr_spec() == data_address,
        r.meta_spec() == metadata,
        forall|s: T|
            s.addr_spec() == data_address && s.meta_spec() == metadata ==> r == s,
{
    let r = T::assemble(data_address, metadata);
    proof {
        assert forall|s: T|
            s.addr_spec() == data_address && s.meta_spec() == metadata implies r == s by {
            T::lemma_parts_determine(r, s);
        }
    }
    r
}

/// Round-trip law: splitting a reference with [`to_raw_parts`] and feeding
/// the two halves to [`from_raw_parts`] yields the original reference.
///
/// `to_raw_parts` returns exactly `(r.addr_spec(), r.meta_spec())`, and
/// `from_raw_parts` returns a reference whose halves are its arguments; this
/// lemma closes the loop: any reference with the halves of `original` is
/// `original` itself.
pub proof fn lemma_round_trip<T: Pointee>(original: T, rebuilt: T)
    requires
        rebuilt.addr_spec() == original.addr_spec(),
        rebuilt.meta_spec() == original.meta_spec(),
    ensures
        rebuilt == original,
{
    T::lemma_parts_determine(rebuilt, original);
}

/// Splits the given reference into its two halves, rebuilds a reference from
/// them, and returns it; the result is the original reference.
pub fn test_pointee<T: Pointee>(value: &T) -> (r: T)
    ensures
        r == *value,
{
    let (raw, meta) = to_raw_parts(value);
    let r = from_raw_parts::<T>(raw, meta);
    r
}

} // verus!

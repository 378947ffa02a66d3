//! Build-time diagnostics of the association generator.
//!
//! The generator never reports errors at run time: an invalid shape,
//! contract or configuration option yields a diagnostic attached to the
//! offending declaration, the declaration gets no association, and the build
//! fails. The author fixes the declaration and rebuilds.

use vstd::prelude::*;

verus! {

/// A diagnostic attached to one offending declaration or configuration
/// option.
#[derive(Clone, Copy, PartialEq, Eq, Structural, Debug)]
pub enum Diagnostic {
    /// A composite shape with no members was submitted: it has no possible
    /// trailing member, is always fixed-size, and already carries the
    /// trivial empty-metadata association.
    Fieldless,
    /// A tagged-union shape was submitted: every variant has a statically
    /// known, non-erased layout, so the shape already carries the trivial
    /// empty-metadata association.
    TaggedUnion,
    /// An untagged-union shape was submitted: it cannot be dynamically
    /// sized, so it already carries the trivial empty-metadata association.
    UntaggedUnion,
    /// The alternate-location option was given more than once.
    AlreadySpecified,
    /// The alternate-location option was followed by tokens in neither of
    /// its two recognized forms.
    ExpectedCrateArg,
    /// A configuration option named something other than the alternate
    /// location.
    UnrecognizedOption,
}

impl Diagnostic {
    /// The descriptive message of this diagnostic.
    pub open spec fn message_spec(&self) -> Seq<char> {
        match self {
            Diagnostic::Fieldless => "fieldless structs always have a provided `Pointee` impl because they cannot be dynamically-sized"@,
            Diagnostic::TaggedUnion => "enums always have a provided `Pointee` impl because they cannot be dynamically-sized"@,
            Diagnostic::UntaggedUnion => "unions always have a provided `Pointee` impl because they cannot be dynamically-sized"@,
            Diagnostic::AlreadySpecified => "`crate` already specified"@,
            Diagnostic::ExpectedCrateArg => "expected `crate` or `crate = ...`"@,
            Diagnostic::UnrecognizedOption => "unrecognized ptr_meta argument"@,
        }
    }

    /// Returns the descriptive message of this diagnostic.
    pub fn message(&self) -> (m: &'static str)
        ensures
            m@ == self.message_spec(),
    {
        match self {
            Diagnostic::Fieldless => "fieldless structs always have a provided `Pointee` impl because they cannot be dynamically-sized",
            Diagnostic::TaggedUnion => "enums always have a provided `Pointee` impl because they cannot be dynamically-sized",
            Diagnostic::UntaggedUnion => "unions always have a provided `Pointee` impl because they cannot be dynamically-sized",
            Diagnostic::AlreadySpecified => "`crate` already specified",
            Diagnostic::ExpectedCrateArg => "expected `crate` or `crate = ...`",
            Diagnostic::UnrecognizedOption => "unrecognized ptr_meta argument",
        }
    }
}

} // verus!

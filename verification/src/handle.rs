//! Handles to types that the catalog has already committed.

use vstd::prelude::*;

verus! {

/// A reference to a committed type, identified by the ordinal that the
/// catalog assigned to it. Ordinal `0` is the catalog's failure sentinel and
/// names no type.
#[derive(Clone, Copy, Debug, PartialEq, Eq, Structural)]
pub struct Type {
    ordinal: u32,
}

impl Type {
    /// The handle with the given ordinal, as a mathematical value.
    pub closed spec fn of(ordinal: u32) -> Type {
        Type { ordinal }
    }

    /// The ordinal behind this handle, as a mathematical value.
    pub closed spec fn spec_ordinal(&self) -> u32 {
        self.ordinal
    }

    /// A handle is known by its ordinal, and by nothing else.
    pub broadcast proof fn lemma_handle_is_its_ordinal(self)
        ensures
            #[trigger] Type::of(self.spec_ordinal()) == self,
    {
    }

    /// The ordinal of the handle made of an ordinal is that ordinal.
    pub broadcast proof fn lemma_ordinal_of_handle(ordinal: u32)
        ensures
            #[trigger] Type::of(ordinal).spec_ordinal() == ordinal,
    {
    }

    /// Wraps an ordinal that the catalog handed out earlier.
    pub fn from_ordinal(ordinal: u32) -> (handle: Type)
        ensures
            handle == Type::of(ordinal),
            handle.spec_ordinal() == ordinal,
    {
        Type { ordinal }
    }

    /// The ordinal that the catalog assigned to the type.
    #[verifier::when_used_as_spec(spec_ordinal)]
    pub fn ordinal(&self) -> (ordinal: u32)
        ensures
            ordinal == self.spec_ordinal(),
    {
        self.ordinal
    }
}

} // verus!

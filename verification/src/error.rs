//! The one error type of the library.

use vstd::prelude::*;
use crate::catalog::{CatalogCall, CatalogCallView};

verus! {

/// What a name that must not repeat is the name of.
#[derive(Clone, Copy, Debug, PartialEq, Eq, Structural)]
pub enum NameRole {
    /// A field of a structure or union.
    Field,
    /// A bitfield of a structure.
    Bitfield,
    /// A member of an enumeration.
    Member,
    /// A parameter of a function signature.
    Parameter,
}

/// Why a builder could not be committed.
///
/// The local errors are found from the builder alone. Only `validate` and
/// `build` report them, and where `build` does, no submission exists: the
/// catalog was asked for nothing. The other errors come up while a
/// submission is under way, after earlier operations may have succeeded.
/// Only `resume` reports them, and nothing is rolled back.
#[derive(Debug, PartialEq, Eq)]
pub enum IDAError {
    /// The aggregate or enumeration has an empty name.
    EmptyName,
    /// A name occurs a second time in one namespace. The role is that of
    /// the second occurrence.
    DuplicateName { name: String, role: NameRole },
    /// The bits `start..end` of a bitfield collide with an earlier bitfield.
    BitfieldOverlap { name: String, start: u64, end: u64 },
    /// An enumeration is not 1, 2, 4 or 8 bytes wide.
    InvalidEnumWidth { width: u32 },
    /// A function is marked both as a constructor and as a destructor.
    ConflictingAttributes,
    /// A reference by name to anything but the aggregate in whose field it
    /// stands.
    UnsupportedForwardRef { name: String },
    /// A handle with the ordinal `0`, which names no type, where a type is
    /// needed.
    InvalidHandle,
    /// The running offset of a structure left the range of 64 bits.
    LayoutOverflow,
    /// The catalog answered an operation with its failure sentinel.
    CatalogFailure { call: CatalogCall },
}

/// The mathematical value of an [`IDAError`].
pub enum IDAErrorView {
    EmptyName,
    DuplicateName { name: Seq<char>, role: NameRole },
    BitfieldOverlap { name: Seq<char>, start: u64, end: u64 },
    InvalidEnumWidth { width: u32 },
    ConflictingAttributes,
    UnsupportedForwardRef { name: Seq<char> },
    InvalidHandle,
    LayoutOverflow,
    CatalogFailure { call: CatalogCallView },
}

impl View for IDAError {
    type V = IDAErrorView;

    open spec fn view(&self) -> IDAErrorView {
        match self {
            IDAError::EmptyName => IDAErrorView::EmptyName,
            IDAError::DuplicateName { name, role } => IDAErrorView::DuplicateName {
                name: name@,
                role: *role,
            },
            IDAError::BitfieldOverlap { name, start, end } => IDAErrorView::BitfieldOverlap {
                name: name@,
                start: *start,
                end: *end,
            },
            IDAError::InvalidEnumWidth { width } => IDAErrorView::InvalidEnumWidth {
                width: *width,
            },
            IDAError::ConflictingAttributes => IDAErrorView::ConflictingAttributes,
            IDAError::UnsupportedForwardRef { name } => IDAErrorView::UnsupportedForwardRef {
                name: name@,
            },
            IDAError::InvalidHandle => IDAErrorView::InvalidHandle,
            IDAError::LayoutOverflow => IDAErrorView::LayoutOverflow,
            IDAError::CatalogFailure { call } => IDAErrorView::CatalogFailure { call: call@ },
        }
    }
}

impl Clone for IDAError {
    fn clone(&self) -> (copy: IDAError)
        ensures
            copy@ == self@,
    {
        match self {
            IDAError::EmptyName => IDAError::EmptyName,
            IDAError::DuplicateName { name, role } => IDAError::DuplicateName {
                name: name.clone(),
                role: *role,
            },
            IDAError::BitfieldOverlap { name, start, end } => IDAError::BitfieldOverlap {
                name: name.clone(),
                start: *start,
                end: *end,
            },
            IDAError::InvalidEnumWidth { width } => IDAError::InvalidEnumWidth { width: *width },
            IDAError::ConflictingAttributes => IDAError::ConflictingAttributes,
            IDAError::UnsupportedForwardRef { name } => IDAError::UnsupportedForwardRef {
                name: name.clone(),
            },
            IDAError::InvalidHandle => IDAError::InvalidHandle,
            IDAError::LayoutOverflow => IDAError::LayoutOverflow,
            IDAError::CatalogFailure { call } => IDAError::CatalogFailure { call: call.clone() },
        }
    }
}

impl IDAErrorView {
    /// Whether the error is found from the builder alone, before the catalog
    /// is asked for anything.
    pub open spec fn is_local(self) -> bool {
        !(self is CatalogFailure) && !(self is LayoutOverflow)
    }
}

impl IDAError {
    /// Whether the error was found from the builder alone, before the
    /// catalog was asked for anything.
    pub fn is_local(&self) -> (local: bool)
        ensures
            local == self@.is_local(),
    {
        match self {
            IDAError::CatalogFailure { .. } => false,
            IDAError::LayoutOverflow => false,
            _ => true,
        }
    }
}

} // verus!

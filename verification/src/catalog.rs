//! The primitive operations of the external type catalog, as values.
//!
//! The library never reaches the catalog itself. A submission names the
//! operation that has to be performed next as a [`CatalogCall`]; whoever
//! drives the submission performs it and hands back a [`CatalogReply`].

use vstd::prelude::*;

verus! {

/// The attributes of a function signature, applied to it in one operation.
#[derive(Clone, Copy, Debug, PartialEq, Eq, Structural)]
pub struct FunctionAttributes {
    pub is_noreturn: bool,
    pub is_pure: bool,
    pub is_static: bool,
    pub is_virtual: bool,
    pub is_const: bool,
    pub is_constructor: bool,
    pub is_destructor: bool,
}

impl FunctionAttributes {
    /// The attribute set in which nothing is switched on.
    pub open spec fn none() -> FunctionAttributes {
        FunctionAttributes {
            is_noreturn: false,
            is_pure: false,
            is_static: false,
            is_virtual: false,
            is_const: false,
            is_constructor: false,
            is_destructor: false,
        }
    }
}

impl Default for FunctionAttributes {
    fn default() -> (attributes: FunctionAttributes)
        ensures
            attributes == FunctionAttributes::none(),
    {
        FunctionAttributes {
            is_noreturn: false,
            is_pure: false,
            is_static: false,
            is_virtual: false,
            is_const: false,
            is_constructor: false,
            is_destructor: false,
        }
    }
}

/// One operation of the catalog, with its arguments.
#[derive(Debug, PartialEq, Eq)]
pub enum CatalogCall {
    /// Registers an empty structure or union and answers with its ordinal.
    CreateAggregate { name: String, is_union: bool },
    /// Adds a field at a byte offset and answers with a status.
    AddField { owner: u32, name: String, field_type: u32, offset: u64 },
    /// Adds a bit-packed field and answers with a status.
    AddBitfield { owner: u32, name: String, bit_offset: u32, bit_width: u32, is_unsigned: bool },
    /// Commits a type that was populated and answers with a status.
    Finalize { ordinal: u32 },
    /// Answers with the ordinal of the primitive type behind a basic-type code.
    PrimitiveOrdinal { code: u32 },
    /// Answers with the size of a type in bytes, `0` where it is unknown.
    TypeSize { ordinal: u32 },
    /// Registers an empty enumeration and answers with its ordinal.
    CreateEnum { name: String, width: u32 },
    /// Adds a member to an enumeration and answers with a status.
    AddEnumMember { owner: u32, name: String, value: i64 },
    /// Registers an array type and answers with its ordinal.
    CreateArray { element: u32, count: u32 },
    /// Registers a pointer type and answers with its ordinal.
    CreatePointer { target: u32 },
    /// Registers an empty function signature and answers with its ordinal.
    /// A return type of ordinal `0` stands for `void`: a signature without a
    /// return type.
    CreateFunction { return_type: u32, convention: u32, is_vararg: bool },
    /// Adds a parameter to a function signature and answers with a status.
    AddParameter { function: u32, name: String, param_type: u32, is_hidden: bool },
    /// Applies the attribute set of a function signature and answers with a
    /// status.
    SetFunctionAttributes { function: u32, attributes: FunctionAttributes },
    /// Registers a pointer to a function signature and answers with its
    /// ordinal.
    CreateFunctionPointer { function: u32 },
}

/// The mathematical value of a [`CatalogCall`].
pub enum CatalogCallView {
    CreateAggregate { name: Seq<char>, is_union: bool },
    AddField { owner: u32, name: Seq<char>, field_type: u32, offset: u64 },
    AddBitfield { owner: u32, name: Seq<char>, bit_offset: u32, bit_width: u32, is_unsigned: bool },
    Finalize { ordinal: u32 },
    PrimitiveOrdinal { code: u32 },
    TypeSize { ordinal: u32 },
    CreateEnum { name: Seq<char>, width: u32 },
    AddEnumMember { owner: u32, name: Seq<char>, value: i64 },
    CreateArray { element: u32, count: u32 },
    CreatePointer { target: u32 },
    CreateFunction { return_type: u32, convention: u32, is_vararg: bool },
    AddParameter { function: u32, name: Seq<char>, param_type: u32, is_hidden: bool },
    SetFunctionAttributes { function: u32, attributes: FunctionAttributes },
    CreateFunctionPointer { function: u32 },
}

impl View for CatalogCall {
    type V = CatalogCallView;

    open spec fn view(&self) -> CatalogCallView {
        match self {
            CatalogCall::CreateAggregate { name, is_union } => CatalogCallView::CreateAggregate {
                name: name@,
                is_union: *is_union,
            },
            CatalogCall::AddField { owner, name, field_type, offset } => CatalogCallView::AddField {
                owner: *owner,
                name: name@,
                field_type: *field_type,
                offset: *offset,
            },
            CatalogCall::AddBitfield {
                owner,
                name,
                bit_offset,
                bit_width,
                is_unsigned,
            } => CatalogCallView::AddBitfield {
                owner: *owner,
                name: name@,
                bit_offset: *bit_offset,
                bit_width: *bit_width,
                is_unsigned: *is_unsigned,
            },
            CatalogCall::Finalize { ordinal } => CatalogCallView::Finalize { ordinal: *ordinal },
            CatalogCall::PrimitiveOrdinal { code } => CatalogCallView::PrimitiveOrdinal {
                code: *code,
            },
            CatalogCall::TypeSize { ordinal } => CatalogCallView::TypeSize { ordinal: *ordinal },
            CatalogCall::CreateEnum { name, width } => CatalogCallView::CreateEnum {
                name: name@,
                width: *width,
            },
            CatalogCall::AddEnumMember { owner, name, value } => CatalogCallView::AddEnumMember {
                owner: *owner,
                name: name@,
                value: *value,
            },
            CatalogCall::CreateArray { element, count } => CatalogCallView::CreateArray {
                element: *element,
                count: *count,
            },
            CatalogCall::CreatePointer { target } => CatalogCallView::CreatePointer {
                target: *target,
            },
            CatalogCall::CreateFunction {
                return_type,
                convention,
                is_vararg,
            } => CatalogCallView::CreateFunction {
                return_type: *return_type,
                convention: *convention,
                is_vararg: *is_vararg,
            },
            CatalogCall::AddParameter {
                function,
                name,
                param_type,
                is_hidden,
            } => CatalogCallView::AddParameter {
                function: *function,
                name: name@,
                param_type: *param_type,
                is_hidden: *is_hidden,
            },
            CatalogCall::SetFunctionAttributes {
                function,
                attributes,
            } => CatalogCallView::SetFunctionAttributes {
                function: *function,
                attributes: *attributes,
            },
            CatalogCall::CreateFunctionPointer {
                function,
            } => CatalogCallView::CreateFunctionPointer { function: *function },
        }
    }
}

impl Clone for CatalogCall {
    fn clone(&self) -> (copy: CatalogCall)
        ensures
            copy@ == self@,
    {
        match self {
            CatalogCall::CreateAggregate { name, is_union } => CatalogCall::CreateAggregate {
                name: name.clone(),
                is_union: *is_union,
            },
            CatalogCall::AddField { owner, name, field_type, offset } => CatalogCall::AddField {
                owner: *owner,
                name: name.clone(),
                field_type: *field_type,
                offset: *offset,
            },
            CatalogCall::AddBitfield {
                owner,
                name,
                bit_offset,
                bit_width,
                is_unsigned,
            } => CatalogCall::AddBitfield {
                owner: *owner,
                name: name.clone(),
                bit_offset: *bit_offset,
                bit_width: *bit_width,
                is_unsigned: *is_unsigned,
            },
            CatalogCall::Finalize { ordinal } => CatalogCall::Finalize { ordinal: *ordinal },
            CatalogCall::PrimitiveOrdinal { code } => CatalogCall::PrimitiveOrdinal { code: *code },
            CatalogCall::TypeSize { ordinal } => CatalogCall::TypeSize { ordinal: *ordinal },
            CatalogCall::CreateEnum { name, width } => CatalogCall::CreateEnum {
                name: name.clone(),
                width: *width,
            },
            CatalogCall::AddEnumMember { owner, name, value } => CatalogCall::AddEnumMember {
                owner: *owner,
                name: name.clone(),
                value: *value,
            },
            CatalogCall::CreateArray { element, count } => CatalogCall::CreateArray {
                element: *element,
                count: *count,
            },
            CatalogCall::CreatePointer { target } => CatalogCall::CreatePointer { target: *target },
            CatalogCall::CreateFunction {
                return_type,
                convention,
                is_vararg,
            } => CatalogCall::CreateFunction {
                return_type: *return_type,
                convention: *convention,
                is_vararg: *is_vararg,
            },
            CatalogCall::AddParameter {
                function,
                name,
                param_type,
                is_hidden,
            } => CatalogCall::AddParameter {
                function: *function,
                name: name.clone(),
                param_type: *param_type,
                is_hidden: *is_hidden,
            },
            CatalogCall::SetFunctionAttributes {
                function,
                attributes,
            } => CatalogCall::SetFunctionAttributes {
                function: *function,
                attributes: *attributes,
            },
            CatalogCall::CreateFunctionPointer {
                function,
            } => CatalogCall::CreateFunctionPointer { function: *function },
        }
    }
}

/// The three shapes in which the catalog answers.
#[derive(Clone, Copy, Debug, PartialEq, Eq, Structural)]
pub enum ReplyKind {
    Ordinal,
    Status,
    Size,
}

impl CatalogCallView {
    /// The shape of the answer that the operation gives.
    pub open spec fn reply_kind(self) -> ReplyKind {
        match self {
            CatalogCallView::CreateAggregate { .. }
            | CatalogCallView::PrimitiveOrdinal { .. }
            | CatalogCallView::CreateEnum { .. }
            | CatalogCallView::CreateArray { .. }
            | CatalogCallView::CreatePointer { .. }
            | CatalogCallView::CreateFunction { .. }
            | CatalogCallView::CreateFunctionPointer { .. } => ReplyKind::Ordinal,
            CatalogCallView::TypeSize { .. } => ReplyKind::Size,
            _ => ReplyKind::Status,
        }
    }
}

impl CatalogCall {
    /// The shape of the answer that the operation gives.
    pub fn reply_kind(&self) -> (kind: ReplyKind)
        ensures
            kind == self@.reply_kind(),
    {
        match self {
            CatalogCall::CreateAggregate { .. }
            | CatalogCall::PrimitiveOrdinal { .. }
            | CatalogCall::CreateEnum { .. }
            | CatalogCall::CreateArray { .. }
            | CatalogCall::CreatePointer { .. }
            | CatalogCall::CreateFunction { .. }
            | CatalogCall::CreateFunctionPointer { .. } => ReplyKind::Ordinal,
            CatalogCall::TypeSize { .. } => ReplyKind::Size,
            _ => ReplyKind::Status,
        }
    }
}

/// What the catalog answered to one operation.
#[derive(Clone, Copy, Debug, PartialEq, Eq, Structural)]
pub enum CatalogReply {
    /// The ordinal of a type; `0` says that the operation failed.
    Ordinal(u32),
    /// Whether the operation succeeded.
    Status(bool),
    /// A size in bytes; `0` says that the size is unknown.
    Size(u64),
}

impl CatalogReply {
    /// The ordinal that the reply carries. A reply of another shape reads as
    /// the failure sentinel `0`.
    pub open spec fn ordinal(self) -> u32 {
        match self {
            CatalogReply::Ordinal(ordinal) => ordinal,
            _ => 0,
        }
    }

    /// Whether the reply reports success. A reply of another shape reads as
    /// a failure.
    pub open spec fn succeeded(self) -> bool {
        match self {
            CatalogReply::Status(ok) => ok,
            _ => false,
        }
    }

    /// The size that the reply carries. A reply of another shape reads as
    /// the unknown size `0`.
    pub open spec fn size(self) -> u64 {
        match self {
            CatalogReply::Size(bytes) => bytes,
            _ => 0,
        }
    }

    /// The ordinal in the reply, `0` where it carries none.
    pub fn as_ordinal(self) -> (ordinal: u32)
        ensures
            ordinal == self.ordinal(),
    {
        match self {
            CatalogReply::Ordinal(ordinal) => ordinal,
            _ => 0,
        }
    }

    /// The status in the reply, `false` where it carries none.
    pub fn as_status(self) -> (ok: bool)
        ensures
            ok == self.succeeded(),
    {
        match self {
            CatalogReply::Status(ok) => ok,
            _ => false,
        }
    }

    /// The size in the reply, `0` where it carries none.
    pub fn as_size(self) -> (bytes: u64)
        ensures
            bytes == self.size(),
    {
        match self {
            CatalogReply::Size(bytes) => bytes,
            _ => 0,
        }
    }
}

} // verus!

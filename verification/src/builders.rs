//! Short names for making builders and primitive types.

use vstd::prelude::*;
use crate::aggregate::{StructBuilder, StructView};
use crate::derived::{
    ArrayBuilder,
    ArrayView,
    FunctionPointerBuilder,
    FunctionPointerView,
    PointerBuilder,
    PointerView,
};
use crate::enumeration::{EnumBuilder, EnumView};
use crate::field::{FieldType, PrimitiveType};
use crate::function::FunctionBuilder;
use crate::handle::Type;

verus! {

/// A builder for a structure without fields.
pub fn struct_type(name: &str) -> (builder: StructBuilder)
    ensures
        builder@ == (StructView {
            name: name@,
            fields: Seq::empty(),
            bitfields: Seq::empty(),
            is_union: false,
        }),
{
    StructBuilder::new(name)
}

/// A builder for a union without fields.
pub fn union_type(name: &str) -> (builder: StructBuilder)
    ensures
        builder@ == (StructView {
            name: name@,
            fields: Seq::empty(),
            bitfields: Seq::empty(),
            is_union: true,
        }),
{
    StructBuilder::new_union(name)
}

/// A builder for an enumeration of the given width in bytes.
pub fn enum_type(name: &str, width: u32) -> (builder: EnumBuilder)
    ensures
        builder@ == (EnumView { name: name@, width, members: Seq::empty() }),
{
    EnumBuilder::new(name, width)
}

/// A builder for an array of `num_elements` elements.
pub fn array_type(element_type: FieldType, num_elements: u32) -> (builder: ArrayBuilder)
    ensures
        builder@ == (ArrayView { element_type: element_type@, num_elements }),
{
    ArrayBuilder::new(element_type, num_elements)
}

/// A builder for a pointer to the target.
pub fn pointer_type(target_type: FieldType) -> (builder: PointerBuilder)
    ensures
        builder@ == (PointerView { target_type: target_type@ }),
{
    PointerBuilder::new(target_type)
}

/// A builder for a function signature.
pub fn function_type() -> (builder: FunctionBuilder)
    ensures
        builder@ == FunctionBuilder::new_spec(),
{
    FunctionBuilder::new()
}

/// A builder for a pointer to a committed function signature.
pub fn function_pointer(function_type: Type) -> (builder: FunctionPointerBuilder)
    ensures
        builder@ == (FunctionPointerView { function_type }),
{
    FunctionPointerBuilder::new(function_type)
}

/// The signed integer of 8 bits.
pub fn int8() -> (kind: PrimitiveType)
    ensures
        kind == PrimitiveType::Int8,
{
    PrimitiveType::Int8
}

/// The signed integer of 16 bits.
pub fn int16() -> (kind: PrimitiveType)
    ensures
        kind == PrimitiveType::Int16,
{
    PrimitiveType::Int16
}

/// The signed integer of 32 bits.
pub fn int32() -> (kind: PrimitiveType)
    ensures
        kind == PrimitiveType::Int32,
{
    PrimitiveType::Int32
}

/// The signed integer of 64 bits.
pub fn int64() -> (kind: PrimitiveType)
    ensures
        kind == PrimitiveType::Int64,
{
    PrimitiveType::Int64
}

/// The unsigned integer of 8 bits.
pub fn uint8() -> (kind: PrimitiveType)
    ensures
        kind == PrimitiveType::UInt8,
{
    PrimitiveType::UInt8
}

/// The unsigned integer of 16 bits.
pub fn uint16() -> (kind: PrimitiveType)
    ensures
        kind == PrimitiveType::UInt16,
{
    PrimitiveType::UInt16
}

/// The unsigned integer of 32 bits.
pub fn uint32() -> (kind: PrimitiveType)
    ensures
        kind == PrimitiveType::UInt32,
{
    PrimitiveType::UInt32
}

/// The unsigned integer of 64 bits.
pub fn uint64() -> (kind: PrimitiveType)
    ensures
        kind == PrimitiveType::UInt64,
{
    PrimitiveType::UInt64
}

/// The floating-point type of single precision.
pub fn float() -> (kind: PrimitiveType)
    ensures
        kind == PrimitiveType::Float,
{
    PrimitiveType::Float
}

/// The floating-point type of double precision.
pub fn double() -> (kind: PrimitiveType)
    ensures
        kind == PrimitiveType::Double,
{
    PrimitiveType::Double
}

/// The type without values.
pub fn void() -> (kind: PrimitiveType)
    ensures
        kind == PrimitiveType::Void,
{
    PrimitiveType::Void
}

/// The character type.
pub fn char() -> (kind: PrimitiveType)
    ensures
        kind == PrimitiveType::Char,
{
    PrimitiveType::Char
}

/// The truth value type.
pub fn bool() -> (kind: PrimitiveType)
    ensures
        kind == PrimitiveType::Bool,
{
    PrimitiveType::Bool
}

} // verus!

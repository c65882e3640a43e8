//! Builders for composite data types that are committed to an external type
//! catalog, with the validation rules and the submission protocol verified.

pub mod aggregate;
pub mod builder;
pub mod builders;
pub mod catalog;
pub mod derived;
pub mod enumeration;
pub mod error;
pub mod field;
pub mod function;
pub mod handle;
pub mod submission;
pub mod validation;

pub use catalog::{CatalogCall, CatalogCallView, CatalogReply, FunctionAttributes, ReplyKind};
pub use error::{IDAError, IDAErrorView, NameRole};
pub use field::{FieldType, FieldTypeView, PrimitiveType};
pub use handle::Type;
pub use submission::{Progress, ProgressView, Submission, SubmissionView};
pub use builder::{TypeBuilder, TypeValidator};
pub use aggregate::{BitfieldView, FieldView, StructBuilder, StructView};
pub use function::{CallingConvention, FunctionBuilder, FunctionView, ParameterView};
pub use enumeration::{EnumBuilder, EnumView, MemberView};
pub use derived::{ArrayBuilder, ArrayView, FunctionPointerBuilder, FunctionPointerView, PointerBuilder, PointerView};

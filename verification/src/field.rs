//! What a field, a parameter or an element can be made of: a primitive type,
//! a committed type, or a reference by name to the aggregate being built.

use vstd::prelude::*;
use vstd::std_specs::convert::FromSpecImpl;
use crate::error::{IDAError, IDAErrorView};
use crate::handle::Type;
use crate::submission::{Op, OpView, Registers, Source, Submission, SubmissionView};

verus! {

/// The primitive types that the catalog knows by a basic-type code.
#[derive(Clone, Copy, Debug, PartialEq, Eq, Structural)]
pub enum PrimitiveType {
    Void,
    Int8,
    Int16,
    Int32,
    Int64,
    UInt8,
    UInt16,
    UInt32,
    UInt64,
    Float,
    Double,
    Char,
    Bool,
}

impl PrimitiveType {
    /// The plan that asks the catalog for the primitive: one lookup, whose
    /// answer is the type.
    pub open spec fn plan(self) -> Seq<OpView> {
        seq![OpView::Primitive { code: self.code() }]
    }

    /// Starts the submission that asks the catalog for the handle of the
    /// primitive. It fails where the catalog answers with ordinal `0`.
    pub fn to_type(self) -> (submission: Submission)
        ensures
            submission@.live(),
            submission@ == (SubmissionView {
                plan: self.plan(),
                next: 0,
                registers: Registers::initial(),
            }),
    {
        let mut plan: Vec<Op> = Vec::new();
        plan.push(Op::Primitive { code: self.to_ida_type() });
        assert(plan.deep_view() =~= self.plan());
        Submission::begin(plan)
    }

    /// The basic-type code of each primitive, as a mathematical table.
    /// `Char` shares the code of `Int8`, and `Bool` that of `UInt64`.
    pub open spec fn code(self) -> u32 {
        match self {
            PrimitiveType::Void => 0x00,
            PrimitiveType::Int8 => 0x01,
            PrimitiveType::Int16 => 0x02,
            PrimitiveType::Int32 => 0x03,
            PrimitiveType::Int64 => 0x04,
            PrimitiveType::UInt8 => 0x05,
            PrimitiveType::UInt16 => 0x06,
            PrimitiveType::UInt32 => 0x07,
            PrimitiveType::UInt64 => 0x08,
            PrimitiveType::Bool => 0x08,
            PrimitiveType::Float => 0x09,
            PrimitiveType::Double => 0x0A,
            PrimitiveType::Char => 0x01,
        }
    }

    /// The basic-type code under which the catalog looks the primitive up.
    pub fn to_ida_type(self) -> (code: u32)
        ensures
            code == self.code(),
            code <= 0x0A,
    {
        match self {
            PrimitiveType::Void => 0x00,
            PrimitiveType::Int8 => 0x01,
            PrimitiveType::Int16 => 0x02,
            PrimitiveType::Int32 => 0x03,
            PrimitiveType::Int64 => 0x04,
            PrimitiveType::UInt8 => 0x05,
            PrimitiveType::UInt16 => 0x06,
            PrimitiveType::UInt32 => 0x07,
            PrimitiveType::UInt64 => 0x08,
            PrimitiveType::Bool => 0x08,
            PrimitiveType::Float => 0x09,
            PrimitiveType::Double => 0x0A,
            PrimitiveType::Char => 0x01,
        }
    }
}

/// The type of a field, parameter or element while a builder is configured.
#[derive(Debug, PartialEq, Eq)]
pub enum FieldType {
    /// A primitive type, looked up in the catalog at submission.
    Primitive(PrimitiveType),
    /// A type that the catalog has already committed.
    Existing(Type),
    /// A reference by name to a type that is still being built. Only the
    /// name of the aggregate under construction resolves, and only in a
    /// field of that aggregate.
    ForwardRef(String),
}

/// The mathematical value of a [`FieldType`].
pub enum FieldTypeView {
    Primitive(PrimitiveType),
    Existing(Type),
    ForwardRef(Seq<char>),
}

impl View for FieldType {
    type V = FieldTypeView;

    open spec fn view(&self) -> FieldTypeView {
        match self {
            FieldType::Primitive(kind) => FieldTypeView::Primitive(*kind),
            FieldType::Existing(handle) => FieldTypeView::Existing(*handle),
            FieldType::ForwardRef(name) => FieldTypeView::ForwardRef(name@),
        }
    }
}

impl DeepView for FieldType {
    type V = FieldTypeView;

    open spec fn deep_view(&self) -> FieldTypeView {
        self@
    }
}

/// The name of the aggregate under construction, as a mathematical value.
pub open spec fn owner_view(owner: Option<&String>) -> Option<Seq<char>> {
    match owner {
        Some(name) => Some(name@),
        None => None,
    }
}

impl FieldTypeView {
    /// Why the type cannot be resolved, if it cannot. `owner` is the name of
    /// the aggregate under construction where the type stands in a field of
    /// one, and nothing elsewhere.
    ///
    /// A handle of ordinal `0` names no type. A reference by name resolves
    /// only where it names the owner.
    pub open spec fn objection(self, owner: Option<Seq<char>>) -> Option<IDAErrorView> {
        match self {
            FieldTypeView::Primitive(_) => None,
            FieldTypeView::Existing(handle) => if handle.spec_ordinal() == 0 {
                Some(IDAErrorView::InvalidHandle)
            } else {
                None
            },
            FieldTypeView::ForwardRef(name) => if owner == Some(name) {
                None
            } else {
                Some(IDAErrorView::UnsupportedForwardRef { name })
            },
        }
    }

    /// The step that has to come before the type can be used: a primitive is
    /// looked up, a reference to the owner becomes a pointer to it, and a
    /// handle needs nothing.
    pub open spec fn resolution(self) -> Seq<OpView> {
        match self {
            FieldTypeView::Primitive(kind) => seq![OpView::Resolve { code: kind.code() }],
            FieldTypeView::Existing(_) => Seq::empty(),
            FieldTypeView::ForwardRef(_) => seq![OpView::ResolveSelf],
        }
    }

    /// Where the ordinal of the type is had from once it was resolved.
    pub open spec fn source(self) -> Source {
        match self {
            FieldTypeView::Existing(handle) => Source::Fixed(handle.spec_ordinal()),
            _ => Source::Resolved,
        }
    }
}

/// The objection to the first of the types that cannot be resolved, if there
/// is one.
pub open spec fn first_objection(types: Seq<FieldTypeView>, owner: Option<Seq<char>>) -> Option<
    IDAErrorView,
>
    decreases types.len(),
{
    if types.len() == 0 {
        None
    } else {
        match first_objection(types.drop_last(), owner) {
            Some(error) => Some(error),
            None => types.last().objection(owner),
        }
    }
}

/// `first_objection` gives the objection to a type before which every type
/// resolves, and gives none only where every type resolves.
pub proof fn lemma_first_objection(types: Seq<FieldTypeView>, owner: Option<Seq<char>>)
    ensures
        match first_objection(types, owner) {
            Some(error) => exists|i: int|
                {
                    &&& 0 <= i < types.len()
                    &&& #[trigger] types[i].objection(owner) == Some(error)
                    &&& forall|j: int| 0 <= j < i ==> (#[trigger] types[j]).objection(owner) is None
                },
            None => forall|j: int|
                0 <= j < types.len() ==> (#[trigger] types[j]).objection(owner) is None,
        },
    decreases types.len(),
{
    if types.len() > 0 {
        let earlier = types.drop_last();
        lemma_first_objection(earlier, owner);
        assert forall|j: int| 0 <= j < earlier.len() implies earlier[j] == types[j] by {}
        match first_objection(earlier, owner) {
            Some(error) => {
                let i = choose|i: int|
                    {
                        &&& 0 <= i < earlier.len()
                        &&& #[trigger] earlier[i].objection(owner) == Some(error)
                        &&& forall|j: int|
                            0 <= j < i ==> (#[trigger] earlier[j]).objection(owner) is None
                    };
                assert(types[i].objection(owner) == Some(error));
                assert forall|j: int| 0 <= j < i implies (#[trigger] types[j]).objection(
                    owner,
                ) is None by {
                    assert(earlier[j].objection(owner) is None);
                }
            },
            None => {
                let last = types.len() - 1;
                assert forall|j: int| 0 <= j < last implies (#[trigger] types[j]).objection(
                    owner,
                ) is None by {
                    assert(earlier[j].objection(owner) is None);
                }
                if types.last().objection(owner) is Some {
                    assert(types[last].objection(owner) == first_objection(types, owner));
                }
            },
        }
    }
}

impl FieldType {
    /// Why the type cannot be resolved, if it cannot. `owner` is the name of
    /// the aggregate under construction where the type stands in a field of
    /// one.
    pub fn objection(&self, owner: Option<&String>) -> (found: Option<IDAError>)
        ensures
            match found {
                Some(error) => self@.objection(owner_view(owner)) == Some(error@),
                None => self@.objection(owner_view(owner)) is None,
            },
    {
        match self {
            FieldType::Primitive(_) => None,
            FieldType::Existing(handle) => {
                if handle.ordinal() == 0 {
                    Some(IDAError::InvalidHandle)
                } else {
                    None
                }
            },
            FieldType::ForwardRef(name) => {
                let names_owner = match owner {
                    Some(owner) => *name == *owner,
                    None => false,
                };
                if names_owner {
                    None
                } else {
                    Some(IDAError::UnsupportedForwardRef { name: name.clone() })
                }
            },
        }
    }

    /// Appends the step that resolves the type, if it needs one, and says
    /// where its ordinal is had from after that.
    pub(crate) fn push_resolution(&self, plan: &mut Vec<Op>) -> (source: Source)
        ensures
            final(plan).deep_view() == old(plan).deep_view() + self@.resolution(),
            source == self@.source(),
    {
        let ghost before = plan.deep_view();
        let source = match self {
            FieldType::Primitive(kind) => {
                plan.push(Op::Resolve { code: kind.to_ida_type() });
                Source::Resolved
            },
            FieldType::Existing(handle) => Source::Fixed(handle.ordinal()),
            FieldType::ForwardRef(_) => {
                plan.push(Op::ResolveSelf);
                Source::Resolved
            },
        };
        assert(plan.deep_view() =~= before + self@.resolution());
        source
    }
}

/// The objection to the first of the types that cannot be resolved.
pub fn find_objection(types: &Vec<FieldType>, owner: Option<&String>) -> (found: Option<IDAError>)
    ensures
        match found {
            Some(error) => first_objection(types.deep_view(), owner_view(owner)) == Some(error@),
            None => first_objection(types.deep_view(), owner_view(owner)) is None,
        },
{
    let mut i: usize = 0;
    while i < types.len()
        invariant
            i <= types.len(),
            first_objection(types.deep_view().take(i as int), owner_view(owner)) is None,
        decreases types.len() - i,
    {
        assert(types.deep_view().take(i + 1).drop_last() =~= types.deep_view().take(i as int));
        match types[i].objection(owner) {
            Some(error) => {
                proof {
                    lemma_objection_stays_first(types.deep_view(), owner_view(owner), i as int);
                }
                return Some(error);
            },
            None => {},
        }
        i += 1;
    }
    assert(types.deep_view().take(types.len() as int) =~= types.deep_view());
    None
}

/// Types that follow the first objection do not change it.
pub proof fn lemma_objection_stays_first(
    types: Seq<FieldTypeView>,
    owner: Option<Seq<char>>,
    i: int,
)
    requires
        0 <= i < types.len(),
        first_objection(types.take(i), owner) is None,
        types[i].objection(owner) is Some,
    ensures
        first_objection(types, owner) == types[i].objection(owner),
    decreases types.len(),
{
    if i == types.len() - 1 {
        assert(types.drop_last() =~= types.take(i));
    } else {
        assert(types.drop_last().take(i) =~= types.take(i));
        lemma_objection_stays_first(types.drop_last(), owner, i);
    }
}

impl Clone for FieldType {
    fn clone(&self) -> (copy: FieldType)
        ensures
            copy@ == self@,
    {
        match self {
            FieldType::Primitive(kind) => FieldType::Primitive(*kind),
            FieldType::Existing(handle) => FieldType::Existing(*handle),
            FieldType::ForwardRef(name) => FieldType::ForwardRef(name.clone()),
        }
    }
}

impl From<PrimitiveType> for FieldType {
    fn from(kind: PrimitiveType) -> (field_type: FieldType) {
        FieldType::Primitive(kind)
    }
}

impl FromSpecImpl<PrimitiveType> for FieldType {
    open spec fn obeys_from_spec() -> bool {
        true
    }

    open spec fn from_spec(kind: PrimitiveType) -> FieldType {
        FieldType::Primitive(kind)
    }
}

impl From<Type> for FieldType {
    fn from(handle: Type) -> (field_type: FieldType) {
        FieldType::Existing(handle)
    }
}

impl FromSpecImpl<Type> for FieldType {
    open spec fn obeys_from_spec() -> bool {
        true
    }

    open spec fn from_spec(handle: Type) -> FieldType {
        FieldType::Existing(handle)
    }
}

} // verus!

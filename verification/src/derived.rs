//! Types made of one other type: arrays, pointers, and pointers to
//! functions.

use vstd::prelude::*;
use crate::builder::TypeBuilder;
use crate::error::{IDAError, IDAErrorView};
use crate::field::{FieldType, FieldTypeView};
use crate::handle::Type;
use crate::submission::{Op, OpView, Source, Submission, SubmissionView};

verus! {

/// Builder for array types.
#[derive(Debug)]
pub struct ArrayBuilder {
    element_type: FieldType,
    num_elements: u32,
}

/// The mathematical value of an [`ArrayBuilder`].
pub struct ArrayView {
    pub element_type: FieldTypeView,
    pub num_elements: u32,
}

/// Builder for pointer types.
#[derive(Debug)]
pub struct PointerBuilder {
    target_type: FieldType,
}

/// The mathematical value of a [`PointerBuilder`].
pub struct PointerView {
    pub target_type: FieldTypeView,
}

/// Builder for pointers to function signatures.
#[derive(Clone, Copy, Debug)]
pub struct FunctionPointerBuilder {
    function_type: Type,
}

/// The mathematical value of a [`FunctionPointerBuilder`].
pub struct FunctionPointerView {
    pub function_type: Type,
}

impl View for ArrayBuilder {
    type V = ArrayView;

    closed spec fn view(&self) -> ArrayView {
        ArrayView { element_type: self.element_type@, num_elements: self.num_elements }
    }
}

impl View for PointerBuilder {
    type V = PointerView;

    closed spec fn view(&self) -> PointerView {
        PointerView { target_type: self.target_type@ }
    }
}

impl View for FunctionPointerBuilder {
    type V = FunctionPointerView;

    closed spec fn view(&self) -> FunctionPointerView {
        FunctionPointerView { function_type: self.function_type }
    }
}

/// The plan of a type that is made of `target` by the one operation
/// `create`, which takes the ordinal of the target from the given source:
/// the target is resolved, and the type is created.
///
/// It is the plan of a target that resolves. A handle that names no type
/// and a reference by name do not: nothing that is still being built can be
/// pointed to or repeated, and such a builder is rejected before any plan
/// is made.
pub open spec fn plan_over(target: FieldTypeView, create: spec_fn(Source) -> OpView) -> Seq<
    OpView,
> {
    target.resolution() + seq![create(target.source())]
}

/// The operation that creates an array of `count` elements.
pub open spec fn create_array(count: u32) -> spec_fn(Source) -> OpView {
    |element: Source| OpView::CreateArray { element, count }
}

/// The operation that creates a pointer.
pub open spec fn create_pointer() -> spec_fn(Source) -> OpView {
    |target: Source| OpView::CreatePointer { target }
}

impl ArrayView {
    /// The operations that commit the array type. Any number of elements is
    /// taken as it is, zero too.
    pub open spec fn plan(self) -> Seq<OpView> {
        plan_over(self.element_type, create_array(self.num_elements))
    }
}

impl PointerView {
    /// The operations that commit the pointer type.
    pub open spec fn plan(self) -> Seq<OpView> {
        plan_over(self.target_type, create_pointer())
    }
}

impl FunctionPointerView {
    /// The one operation that commits the pointer. Whether the handle names
    /// a function signature is for the catalog to say.
    pub open spec fn plan(self) -> Seq<OpView> {
        seq![OpView::CreateFunctionPointer { function: self.function_type.spec_ordinal() }]
    }
}

impl Clone for ArrayBuilder {
    fn clone(&self) -> (copy: ArrayBuilder)
        ensures
            copy@ == self@,
    {
        ArrayBuilder { element_type: self.element_type.clone(), num_elements: self.num_elements }
    }
}

impl Clone for PointerBuilder {
    fn clone(&self) -> (copy: PointerBuilder)
        ensures
            copy@ == self@,
    {
        PointerBuilder { target_type: self.target_type.clone() }
    }
}

impl ArrayBuilder {
    /// A builder for an array of `num_elements` elements.
    pub fn new(element_type: FieldType, num_elements: u32) -> (builder: ArrayBuilder)
        ensures
            builder@ == (ArrayView { element_type: element_type@, num_elements }),
    {
        ArrayBuilder { element_type, num_elements }
    }

    fn plan(&self) -> (plan: Vec<Op>)
        ensures
            plan.deep_view() == self@.plan(),
    {
        let mut plan: Vec<Op> = Vec::new();
        let element = self.element_type.push_resolution(&mut plan);
        let ghost before = plan.deep_view();
        plan.push(Op::CreateArray { element, count: self.num_elements });
        assert(plan.deep_view() =~= before + seq![create_array(self@.num_elements)(element)]);
        assert(before =~= self@.element_type.resolution());
        plan
    }
}

impl PointerBuilder {
    /// A builder for a pointer to the target.
    pub fn new(target_type: FieldType) -> (builder: PointerBuilder)
        ensures
            builder@ == (PointerView { target_type: target_type@ }),
    {
        PointerBuilder { target_type }
    }

    fn plan(&self) -> (plan: Vec<Op>)
        ensures
            plan.deep_view() == self@.plan(),
    {
        let mut plan: Vec<Op> = Vec::new();
        let target = self.target_type.push_resolution(&mut plan);
        let ghost before = plan.deep_view();
        plan.push(Op::CreatePointer { target });
        assert(plan.deep_view() =~= before + seq![create_pointer()(target)]);
        assert(before =~= self@.target_type.resolution());
        plan
    }
}

impl FunctionPointerBuilder {
    /// A builder for a pointer to a committed function signature.
    pub fn new(function_type: Type) -> (builder: FunctionPointerBuilder)
        ensures
            builder@ == (FunctionPointerView { function_type }),
    {
        FunctionPointerBuilder { function_type }
    }
}

impl TypeBuilder for ArrayBuilder {
    open spec fn submission(&self) -> Result<SubmissionView, IDAErrorView> {
        match self@.element_type.objection(None) {
            Some(error) => Err(error),
            None => Ok(SubmissionView::begin(self@.plan())),
        }
    }

    /// Starts the submission of the array type. An element type that cannot
    /// be resolved is found here, before anything is asked of the catalog.
    fn build(self) -> (start: Result<Submission, IDAError>) {
        match self.element_type.objection(None) {
            Some(error) => Err(error),
            None => {
                let plan = self.plan();
                assert(plan.deep_view().len() == plan.len());
                Ok(Submission::begin(plan))
            },
        }
    }
}

impl TypeBuilder for PointerBuilder {
    open spec fn submission(&self) -> Result<SubmissionView, IDAErrorView> {
        match self@.target_type.objection(None) {
            Some(error) => Err(error),
            None => Ok(SubmissionView::begin(self@.plan())),
        }
    }

    /// Starts the submission of the pointer type. A target that cannot be
    /// resolved is found here, before anything is asked of the catalog.
    fn build(self) -> (start: Result<Submission, IDAError>) {
        match self.target_type.objection(None) {
            Some(error) => Err(error),
            None => {
                let plan = self.plan();
                assert(plan.deep_view().len() == plan.len());
                Ok(Submission::begin(plan))
            },
        }
    }
}

impl TypeBuilder for FunctionPointerBuilder {
    open spec fn submission(&self) -> Result<SubmissionView, IDAErrorView> {
        Ok(SubmissionView::begin(self@.plan()))
    }

    /// Starts the submission of the pointer. It always starts: nothing is
    /// checked on this side.
    fn build(self) -> (start: Result<Submission, IDAError>)
        ensures
            start is Ok,
    {
        let mut plan: Vec<Op> = Vec::new();
        plan.push(Op::CreateFunctionPointer { function: self.function_type.ordinal() });
        assert(plan.deep_view() =~= self@.plan());
        Ok(Submission::begin(plan))
    }
}

} // verus!

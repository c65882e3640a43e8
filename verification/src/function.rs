//! Function signatures: a return type, parameters in their order, a calling
//! convention and a set of attributes.
//!
//! Everything that can be found wrong from the builder alone is found before
//! the catalog is asked for anything: the rules of the signature, then a
//! return type or a parameter whose type cannot be resolved.

use vstd::prelude::*;
use crate::builder::{TypeBuilder, TypeValidator};
use crate::catalog::{CatalogReply, FunctionAttributes};
use crate::error::{IDAError, IDAErrorView, NameRole};
use crate::handle::Type;
use crate::field::{find_objection, first_objection, lemma_first_objection, FieldType, FieldTypeView};
use crate::submission::{Op, OpView, Source, Submission, SubmissionView};
use crate::validation::{
    clashes_at,
    find_repeat,
    first_clash,
    lemma_first_clash,
    same_given_name,
};

verus! {

/// The calling conventions that the catalog knows by a code of their own,
/// and an escape for any other code.
#[derive(Clone, Copy, Debug, PartialEq, Eq, Structural)]
pub enum CallingConvention {
    Unknown,
    Cdecl,
    Stdcall,
    Pascal,
    Fastcall,
    Thiscall,
    Swift,
    Golang,
    Custom(u32),
}

impl CallingConvention {
    /// The code of each calling convention, as a mathematical table. A
    /// custom convention is its own code.
    pub open spec fn code(self) -> u32 {
        match self {
            CallingConvention::Unknown => 0x10,
            CallingConvention::Cdecl => 0x30,
            CallingConvention::Stdcall => 0x50,
            CallingConvention::Pascal => 0x60,
            CallingConvention::Fastcall => 0x70,
            CallingConvention::Thiscall => 0x80,
            CallingConvention::Swift => 0x90,
            CallingConvention::Golang => 0xB0,
            CallingConvention::Custom(code) => code,
        }
    }

    /// The code under which the catalog knows the calling convention.
    pub fn to_ida_cc(self) -> (code: u32)
        ensures
            code == self.code(),
    {
        match self {
            CallingConvention::Unknown => 0x10,
            CallingConvention::Cdecl => 0x30,
            CallingConvention::Stdcall => 0x50,
            CallingConvention::Pascal => 0x60,
            CallingConvention::Fastcall => 0x70,
            CallingConvention::Thiscall => 0x80,
            CallingConvention::Swift => 0x90,
            CallingConvention::Golang => 0xB0,
            CallingConvention::Custom(code) => code,
        }
    }
}

#[derive(Debug)]
struct FunctionParameter {
    name: String,
    param_type: FieldType,
    is_hidden: bool,
}

/// The mathematical value of a parameter of a function signature.
pub struct ParameterView {
    pub name: Seq<char>,
    pub param_type: FieldTypeView,
    /// Whether the parameter is implicit, as a receiver is.
    pub is_hidden: bool,
}

/// Builder for function signatures.
#[derive(Debug)]
pub struct FunctionBuilder {
    return_type: Option<FieldType>,
    parameters: Vec<FunctionParameter>,
    calling_convention: CallingConvention,
    is_vararg: bool,
    attributes: FunctionAttributes,
}

/// The mathematical value of a [`FunctionBuilder`].
pub struct FunctionView {
    /// The return type; none stands for `void`.
    pub return_type: Option<FieldTypeView>,
    pub parameters: Seq<ParameterView>,
    pub calling_convention: CallingConvention,
    pub is_vararg: bool,
    pub attributes: FunctionAttributes,
}

impl View for FunctionParameter {
    type V = ParameterView;

    closed spec fn view(&self) -> ParameterView {
        ParameterView {
            name: self.name@,
            param_type: self.param_type@,
            is_hidden: self.is_hidden,
        }
    }
}

impl DeepView for FunctionParameter {
    type V = ParameterView;

    closed spec fn deep_view(&self) -> ParameterView {
        self@
    }
}

impl View for FunctionBuilder {
    type V = FunctionView;

    closed spec fn view(&self) -> FunctionView {
        FunctionView {
            return_type: match self.return_type {
                Some(return_type) => Some(return_type@),
                None => None,
            },
            parameters: self.parameters.deep_view(),
            calling_convention: self.calling_convention,
            is_vararg: self.is_vararg,
            attributes: self.attributes,
        }
    }
}

/// The name of each parameter.
pub open spec fn parameter_name() -> spec_fn(ParameterView) -> Seq<char> {
    |parameter: ParameterView| parameter.name
}

/// The type of each parameter.
pub open spec fn parameter_type() -> spec_fn(ParameterView) -> FieldTypeView {
    |parameter: ParameterView| parameter.param_type
}

/// The steps that each parameter stands for.
pub open spec fn parameter_steps() -> spec_fn(ParameterView) -> Seq<OpView> {
    |parameter: ParameterView| parameter.steps()
}

impl ParameterView {
    /// The steps that the parameter stands for in the plan of its function:
    /// its type is resolved, and the parameter is added.
    pub open spec fn steps(self) -> Seq<OpView> {
        self.param_type.resolution() + seq![
            OpView::AddParameter {
                name: self.name,
                param_type: self.param_type.source(),
                is_hidden: self.is_hidden,
            },
        ]
    }
}

impl FunctionView {
    /// The builder with one more parameter at its end.
    pub open spec fn with_parameter(self, parameter: ParameterView) -> FunctionView {
        FunctionView { parameters: self.parameters.push(parameter), ..self }
    }

    /// The builder with another attribute set.
    pub open spec fn with_attributes(self, attributes: FunctionAttributes) -> FunctionView {
        FunctionView { attributes, ..self }
    }

    /// The names of the parameters, in their order.
    pub open spec fn names(self) -> Seq<Seq<char>> {
        self.parameters.map_values(parameter_name())
    }

    /// The first rule that the signature breaks: the first given name that
    /// occurred before, then a signature that is both constructor and
    /// destructor. Parameters without a name may repeat.
    pub open spec fn violation(self) -> Option<IDAErrorView> {
        match first_clash(self.names(), same_given_name()) {
            Some(i) => Some(
                IDAErrorView::DuplicateName { name: self.names()[i], role: NameRole::Parameter },
            ),
            None => if self.attributes.is_constructor && self.attributes.is_destructor {
                Some(IDAErrorView::ConflictingAttributes)
            } else {
                None
            },
        }
    }

    /// The types that the signature names, in the order in which they are
    /// resolved: the return type, where there is one, then the types of the
    /// parameters.
    pub open spec fn types(self) -> Seq<FieldTypeView> {
        (match self.return_type {
            Some(return_type) => seq![return_type],
            None => Seq::empty(),
        }) + self.parameters.map_values(parameter_type())
    }

    /// The objection to the first type that cannot be resolved: a handle
    /// that names no type, or a reference by name. A signature is no
    /// aggregate, so no name resolves in it.
    pub open spec fn objection(self) -> Option<IDAErrorView> {
        first_objection(self.types(), None)
    }

    /// The steps that come before the signature is created: the return type
    /// is resolved.
    pub open spec fn return_steps(self) -> Seq<OpView> {
        match self.return_type {
            Some(return_type) => return_type.resolution(),
            None => Seq::empty(),
        }
    }

    /// Where the ordinal of the return type is had from. Only a signature
    /// without a return type returns `void`, which the catalog takes as the
    /// ordinal `0`.
    pub open spec fn return_source(self) -> Source {
        match self.return_type {
            Some(return_type) => return_type.source(),
            None => Source::Fixed(0),
        }
    }

    /// The step that creates the empty signature.
    pub open spec fn create_step(self) -> OpView {
        OpView::CreateFunction {
            return_type: self.return_source(),
            convention: self.calling_convention.code(),
            is_vararg: self.is_vararg,
        }
    }

    /// The operations that commit the signature, in their order: the return
    /// type is resolved, the empty signature is created, the parameters
    /// follow in the order of their declaration, the attributes are applied
    /// in one operation, and the signature is finalized.
    pub open spec fn plan(self) -> Seq<OpView> {
        self.return_steps() + seq![self.create_step()] + self.parameters.flat_map(
            parameter_steps(),
        ) + seq![OpView::SetAttributes { attributes: self.attributes }, OpView::Finalize]
    }

    /// The state in which the submission of the signature starts, or the
    /// error that keeps it from starting: the first rule that is broken, or
    /// else the objection to the first type that cannot be resolved. Either
    /// is found before the catalog is asked for anything.
    pub open spec fn submission(self) -> Result<SubmissionView, IDAErrorView> {
        match self.violation() {
            Some(error) => Err(error),
            None => match self.objection() {
                Some(error) => Err(error),
                None => Ok(SubmissionView::begin(self.plan())),
            },
        }
    }
}

impl FunctionParameter {
    fn push_steps(&self, plan: &mut Vec<Op>)
        ensures
            final(plan).deep_view() == old(plan).deep_view() + self@.steps(),
    {
        let ghost before = plan.deep_view();
        let param_type = self.param_type.push_resolution(plan);
        let ghost resolved = plan.deep_view();
        plan.push(
            Op::AddParameter { name: self.name.clone(), param_type, is_hidden: self.is_hidden },
        );
        assert(plan.deep_view() =~= resolved.push(
            OpView::AddParameter {
                name: self@.name,
                param_type: self@.param_type.source(),
                is_hidden: self@.is_hidden,
            },
        ));
        assert(plan.deep_view() =~= before + self@.steps());
    }
}

impl Clone for FunctionBuilder {
    fn clone(&self) -> (copy: FunctionBuilder)
        ensures
            copy@ == self@,
    {
        let mut parameters: Vec<FunctionParameter> = Vec::new();
        let mut i: usize = 0;
        while i < self.parameters.len()
            invariant
                i <= self.parameters.len(),
                parameters.deep_view() =~= self.parameters.deep_view().take(i as int),
            decreases self.parameters.len() - i,
        {
            let ghost before = parameters.deep_view();
            let parameter = FunctionParameter {
                name: self.parameters[i].name.clone(),
                param_type: self.parameters[i].param_type.clone(),
                is_hidden: self.parameters[i].is_hidden,
            };
            parameters.push(parameter);
            assert(parameters.deep_view() =~= before.push(self.parameters[i as int]@));
            i += 1;
        }
        assert(parameters.deep_view() =~= self.parameters.deep_view());
        let return_type = match &self.return_type {
            Some(return_type) => Some(return_type.clone()),
            None => None,
        };
        FunctionBuilder {
            return_type,
            parameters,
            calling_convention: self.calling_convention,
            is_vararg: self.is_vararg,
            attributes: self.attributes,
        }
    }
}

impl FunctionBuilder {
    /// The signature that takes nothing and returns nothing, of unknown
    /// calling convention and without attributes.
    pub open spec fn new_spec() -> FunctionView {
        FunctionView {
            return_type: None,
            parameters: Seq::empty(),
            calling_convention: CallingConvention::Unknown,
            is_vararg: false,
            attributes: FunctionAttributes::none(),
        }
    }

    /// A builder for a signature that takes nothing and returns nothing, of
    /// unknown calling convention and without attributes.
    pub fn new() -> (builder: FunctionBuilder)
        ensures
            builder@ == FunctionBuilder::new_spec(),
    {
        let builder = FunctionBuilder {
            return_type: None,
            parameters: Vec::new(),
            calling_convention: CallingConvention::Unknown,
            is_vararg: false,
            attributes: FunctionAttributes::default(),
        };
        assert(builder.parameters.deep_view() =~= Seq::empty());
        builder
    }

    /// Sets the return type.
    pub fn returning(self, return_type: FieldType) -> (builder: FunctionBuilder)
        ensures
            builder@ == (FunctionView { return_type: Some(return_type@), ..self@ }),
    {
        let mut builder = self;
        builder.return_type = Some(return_type);
        builder
    }

    fn with(self, parameter: FunctionParameter) -> (builder: FunctionBuilder)
        ensures
            builder@ == self@.with_parameter(parameter@),
    {
        let mut builder = self;
        builder.parameters.push(parameter);
        assert(builder.parameters.deep_view() =~= self.parameters.deep_view().push(parameter@));
        builder
    }

    /// Adds a parameter.
    pub fn param(self, name: &str, param_type: FieldType) -> (builder: FunctionBuilder)
        ensures
            builder@ == self@.with_parameter(
                ParameterView { name: name@, param_type: param_type@, is_hidden: false },
            ),
    {
        self.with(FunctionParameter { name: name.to_owned(), param_type, is_hidden: false })
    }

    /// Adds a hidden parameter, such as an implicit receiver.
    pub fn hidden_param(self, name: &str, param_type: FieldType) -> (builder: FunctionBuilder)
        ensures
            builder@ == self@.with_parameter(
                ParameterView { name: name@, param_type: param_type@, is_hidden: true },
            ),
    {
        self.with(FunctionParameter { name: name.to_owned(), param_type, is_hidden: true })
    }

    /// Sets the calling convention.
    pub fn calling_convention(self, cc: CallingConvention) -> (builder: FunctionBuilder)
        ensures
            builder@ == (FunctionView { calling_convention: cc, ..self@ }),
    {
        let mut builder = self;
        builder.calling_convention = cc;
        builder
    }

    /// Says whether the function takes a variable number of arguments.
    pub fn vararg(self, is_vararg: bool) -> (builder: FunctionBuilder)
        ensures
            builder@ == (FunctionView { is_vararg, ..self@ }),
    {
        let mut builder = self;
        builder.is_vararg = is_vararg;
        builder
    }

    /// Marks the function as one that does not return.
    pub fn noreturn(self) -> (builder: FunctionBuilder)
        ensures
            builder@ == self@.with_attributes(
                FunctionAttributes { is_noreturn: true, ..self@.attributes },
            ),
    {
        let mut builder = self;
        builder.attributes.is_noreturn = true;
        builder
    }

    /// Marks the function as pure.
    pub fn pure_func(self) -> (builder: FunctionBuilder)
        ensures
            builder@ == self@.with_attributes(
                FunctionAttributes { is_pure: true, ..self@.attributes },
            ),
    {
        let mut builder = self;
        builder.attributes.is_pure = true;
        builder
    }

    /// Marks the function as static.
    pub fn static_func(self) -> (builder: FunctionBuilder)
        ensures
            builder@ == self@.with_attributes(
                FunctionAttributes { is_static: true, ..self@.attributes },
            ),
    {
        let mut builder = self;
        builder.attributes.is_static = true;
        builder
    }

    /// Marks the function as virtual.
    pub fn virtual_func(self) -> (builder: FunctionBuilder)
        ensures
            builder@ == self@.with_attributes(
                FunctionAttributes { is_virtual: true, ..self@.attributes },
            ),
    {
        let mut builder = self;
        builder.attributes.is_virtual = true;
        builder
    }

    /// Marks the function as a const member function.
    pub fn const_func(self) -> (builder: FunctionBuilder)
        ensures
            builder@ == self@.with_attributes(
                FunctionAttributes { is_const: true, ..self@.attributes },
            ),
    {
        let mut builder = self;
        builder.attributes.is_const = true;
        builder
    }

    /// Marks the function as a constructor.
    pub fn constructor(self) -> (builder: FunctionBuilder)
        ensures
            builder@ == self@.with_attributes(
                FunctionAttributes { is_constructor: true, ..self@.attributes },
            ),
    {
        let mut builder = self;
        builder.attributes.is_constructor = true;
        builder
    }

    /// Marks the function as a destructor.
    pub fn destructor(self) -> (builder: FunctionBuilder)
        ensures
            builder@ == self@.with_attributes(
                FunctionAttributes { is_destructor: true, ..self@.attributes },
            ),
    {
        let mut builder = self;
        builder.attributes.is_destructor = true;
        builder
    }

    fn types(&self) -> (types: Vec<FieldType>)
        ensures
            types.deep_view() == self@.types(),
    {
        let mut types: Vec<FieldType> = Vec::new();
        match &self.return_type {
            Some(return_type) => {
                types.push(return_type.clone());
            },
            None => {},
        }
        let ghost head = types.deep_view();
        let offset = types.len();
        assert(head =~= match self@.return_type {
            Some(return_type) => seq![return_type],
            None => Seq::empty(),
        });
        let mut i: usize = 0;
        while i < self.parameters.len()
            invariant
                i <= self.parameters.len(),
                offset <= 1,
                types.len() == offset + i,
                head.len() == offset,
                head == match self@.return_type {
                    Some(return_type) => seq![return_type],
                    None => Seq::<FieldTypeView>::empty(),
                },
                forall|k: int| 0 <= k < offset ==> types[k]@ == head[k],
                forall|k: int| 0 <= k < i ==> types[offset + k]@ == self.parameters[k].param_type@,
            decreases self.parameters.len() - i,
        {
            types.push(self.parameters[i].param_type.clone());
            i += 1;
        }
        assert(types.deep_view() =~= self@.types());
        types
    }

    fn names(&self) -> (names: Vec<String>)
        ensures
            names.deep_view() == self@.names(),
    {
        let mut names: Vec<String> = Vec::new();
        let mut i: usize = 0;
        while i < self.parameters.len()
            invariant
                i <= self.parameters.len(),
                names.len() == i,
                forall|k: int| 0 <= k < i ==> names[k]@ == self.parameters[k].name@,
            decreases self.parameters.len() - i,
        {
            names.push(self.parameters[i].name.clone());
            i += 1;
        }
        assert(names.deep_view() =~= self@.names());
        names
    }

    fn plan(&self) -> (plan: Vec<Op>)
        ensures
            plan.deep_view() == self@.plan(),
    {
        let mut plan: Vec<Op> = Vec::new();
        let return_source = match &self.return_type {
            Some(return_type) => return_type.push_resolution(&mut plan),
            None => Source::Fixed(0),
        };
        assert(plan.deep_view() =~= self@.return_steps());
        assert(return_source == self@.return_source());
        plan.push(
            Op::CreateFunction {
                return_type: return_source,
                convention: self.calling_convention.to_ida_cc(),
                is_vararg: self.is_vararg,
            },
        );
        let ghost head = self@.return_steps() + seq![self@.create_step()];
        let ghost steps = parameter_steps();
        assert(plan.deep_view() =~= head + self@.parameters.take(0).flat_map(steps)) by {
            assert(self@.parameters.take(0).map_values(steps) =~= Seq::empty());
            assert(self@.parameters.take(0).flat_map(steps) =~= Seq::empty());
        }
        let mut i: usize = 0;
        while i < self.parameters.len()
            invariant
                i <= self.parameters.len(),
                steps == parameter_steps(),
                head == self@.return_steps() + seq![self@.create_step()],
                plan.deep_view() == head + self@.parameters.take(i as int).flat_map(steps),
            decreases self.parameters.len() - i,
        {
            self.parameters[i].push_steps(&mut plan);
            proof {
                self@.parameters.lemma_flat_map_take_append(steps, i as int);
                assert(plan.deep_view() =~= head + self@.parameters.take(i + 1).flat_map(steps));
            }
            i += 1;
        }
        assert(self@.parameters.take(self.parameters.len() as int) =~= self@.parameters);
        let ghost before = plan.deep_view();
        plan.push(Op::SetAttributes { attributes: self.attributes });
        plan.push(Op::Finalize);
        assert(plan.deep_view() =~= before + seq![
            OpView::SetAttributes { attributes: self@.attributes },
            OpView::Finalize,
        ]);
        plan
    }
}

impl TypeValidator for FunctionBuilder {
    open spec fn violation(&self) -> Option<IDAErrorView> {
        self@.violation()
    }

    /// Checks the names of the parameters, then the attributes.
    fn validate(&self) -> (checked: Result<(), IDAError>) {
        let names = self.names();
        match find_repeat(&names, true) {
            Some(i) => {
                proof {
                    lemma_first_clash(self@.names(), same_given_name());
                }
                return Err(
                    IDAError::DuplicateName { name: names[i].clone(), role: NameRole::Parameter },
                );
            },
            None => {},
        }
        if self.attributes.is_constructor && self.attributes.is_destructor {
            return Err(IDAError::ConflictingAttributes);
        }
        Ok(())
    }
}

impl TypeBuilder for FunctionBuilder {
    open spec fn submission(&self) -> Result<SubmissionView, IDAErrorView> {
        self@.submission()
    }

    /// Validates the signature, makes sure that its return type and the type
    /// of every parameter can be resolved, and starts the submission.
    fn build(self) -> (start: Result<Submission, IDAError>) {
        match TypeValidator::validate(&self) {
            Err(error) => {
                return Err(error);
            },
            Ok(_) => {},
        }
        let types = self.types();
        match find_objection(&types, None) {
            Some(error) => {
                proof {
                    lemma_first_objection(self@.types(), None);
                }
                Err(error)
            },
            None => {
                let plan = self.plan();
                assert(plan.deep_view().len() == plan.len());
                assert(self@.plan().len() > 0);
                Ok(Submission::begin(plan))
            },
        }
    }
}

/// A signature with a parameter or a return type that is given by name is
/// rejected before its submission starts: no function is created in the
/// catalog. So is one with a handle that names no type. Only a signature
/// without a return type returns `void`.
pub proof fn lemma_unresolved_signature_is_rejected(builder: FunctionBuilder, i: int)
    requires
        0 <= i < builder@.types().len(),
        builder@.types()[i].objection(None) is Some,
    ensures
        builder.submission() is Err,
        builder.submission()->Err_0.is_local(),
        builder.violation() is None && (forall|j: int|
            0 <= j < i ==> (#[trigger] builder@.types()[j]).objection(None) is None)
            ==> builder.submission() == Err::<SubmissionView, IDAErrorView>(
            builder@.types()[i].objection(None)->Some_0,
        ),
{
    let types = builder@.types();
    lemma_first_objection(types, None);
    if builder.violation() is None {
        if forall|j: int| 0 <= j < i ==> (#[trigger] types[j]).objection(None) is None {
            let first = choose|k: int|
                {
                    &&& 0 <= k < types.len()
                    &&& #[trigger] types[k].objection(None) == first_objection(types, None)
                    &&& forall|j: int| 0 <= j < k ==> (#[trigger] types[j]).objection(None) is None
                };
            assert(first == i);
        }
    }
}

/// A return type never reaches the catalog as the ordinal `0`: in the plan
/// of a signature with a return type of ordinal `0` given by handle nothing
/// is ever asked for, and the lookup of a primitive return type that the
/// catalog answers with `0` ends the submission.
pub proof fn lemma_return_type_is_never_the_sentinel(builder: FunctionView)
    requires
        builder.return_type is Some,
    ensures
        builder.return_type == Some(FieldTypeView::Existing(Type::of(0))) ==> builder.submission()
            is Err,
        builder.return_type matches Some(FieldTypeView::Primitive(kind)) ==> {
            &&& builder.plan()[0] == (OpView::Resolve { code: kind.code() })
            &&& !builder.plan()[0].welcomes(CatalogReply::Ordinal(0))
            &&& builder.plan()[1] == builder.create_step()
            &&& builder.return_source() == Source::Resolved
        },
{
    Type::lemma_ordinal_of_handle(0);
    let types = builder.types();
    lemma_first_objection(types, None);
    if builder.return_type == Some(FieldTypeView::Existing(Type::of(0))) {
        assert(types[0] == FieldTypeView::Existing(Type::of(0)));
        assert(types[0].objection(None) is Some);
    }
}

/// A signature that is marked both as a constructor and as a destructor
/// breaks a rule, so its submission never starts: no function is created in
/// the catalog.
pub proof fn lemma_constructor_and_destructor_are_rejected(builder: FunctionBuilder)
    requires
        builder@.attributes.is_constructor,
        builder@.attributes.is_destructor,
    ensures
        builder.violation() is Some,
        builder.violation().unwrap().is_local(),
        first_clash(builder@.names(), same_given_name()) is None ==> builder.violation() == Some(
            IDAErrorView::ConflictingAttributes,
        ),
        builder.submission() is Err,
{
}

/// A signature that breaks no rule has no given name twice among its
/// parameters and is not both constructor and destructor; and a signature
/// of which this holds breaks no rule. Parameters without a name may repeat.
pub proof fn lemma_valid_signature(builder: FunctionView)
    ensures
        builder.violation() is None <==> {
            &&& forall|i: int, j: int|
                0 <= i < j < builder.names().len() && builder.names()[j].len() > 0
                    ==> builder.names()[i] != builder.names()[j]
            &&& !(builder.attributes.is_constructor && builder.attributes.is_destructor)
        },
{
    let names = builder.names();
    lemma_first_clash(names, same_given_name());
    if builder.violation() is None {
        assert forall|i: int, j: int|
            0 <= i < j < names.len() && names[j].len() > 0 implies names[i] != names[j] by {
            if names[i] == names[j] {
                assert(same_given_name()(names[i], names[j]));
                assert(clashes_at(names, same_given_name(), j));
            }
        }
    } else {
        match first_clash(names, same_given_name()) {
            Some(i) => {
                let k = choose|k: int|
                    0 <= k < i && #[trigger] same_given_name()(names[k], names[i]);
                assert(names[k] == names[i] && names[i].len() > 0);
            },
            None => {},
        }
    }
}

} // verus!

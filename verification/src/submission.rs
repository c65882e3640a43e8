//! The protocol by which a builder is committed to the catalog.
//!
//! A builder that breaks no rule and holds nothing that cannot be resolved
//! is turned into a plan: the bounded sequence of catalog operations that it
//! stands for. A [`Submission`] walks
//! the plan one operation at a time. It names the operation that is due,
//! takes the catalog's answer, and either goes on to the next operation,
//! completes with the handle of the new type, or fails. An operation that
//! succeeded is never undone when a later one fails.

use vstd::prelude::*;
use crate::catalog::{CatalogCall, CatalogCallView, CatalogReply, FunctionAttributes};
use crate::error::{IDAError, IDAErrorView};
use crate::handle::Type;

verus! {

/// The stride by which the running offset of a structure advances over a
/// field whose size the catalog does not know.
pub const UNKNOWN_SIZE_STRIDE: u64 = 8;

/// The bytes by which the running offset advances over a field of the
/// reported size: the size itself, or the fallback where it is unknown.
pub open spec fn stride(size: u64) -> u64 {
    if size > 0 {
        size
    } else {
        UNKNOWN_SIZE_STRIDE
    }
}

/// Where an operation takes a type ordinal from.
#[derive(Clone, Copy, Debug, PartialEq, Eq, Structural)]
pub enum Source {
    /// The ordinal that the latest resolving operation of the plan produced.
    Resolved,
    /// An ordinal that is known before the submission starts.
    Fixed(u32),
}

/// What a submission carries from one operation to the next.
#[derive(Clone, Copy, Debug, PartialEq, Eq, Structural)]
pub struct Registers {
    /// The ordinal of the type under construction, `0` before it exists.
    pub subject: u32,
    /// The ordinal that the latest resolving operation produced.
    pub resolved: u32,
    /// The running byte offset for fields without an explicit one.
    pub cursor: u64,
}

impl Source {
    /// The ordinal that the source stands for under the given registers.
    pub open spec fn pick(self, registers: Registers) -> u32 {
        match self {
            Source::Resolved => registers.resolved,
            Source::Fixed(ordinal) => ordinal,
        }
    }

    fn read(self, registers: &Registers) -> (ordinal: u32)
        ensures
            ordinal == self.pick(*registers),
    {
        match self {
            Source::Resolved => registers.resolved,
            Source::Fixed(ordinal) => ordinal,
        }
    }
}

impl Registers {
    /// The registers with which every submission starts.
    pub open spec fn initial() -> Registers {
        Registers { subject: 0, resolved: 0, cursor: 0 }
    }
}

/// One step of a plan: a catalog operation whose open arguments are filled
/// in from the registers when it is due.
#[derive(Debug, PartialEq, Eq)]
pub enum Op {
    /// Creates the empty aggregate; its ordinal becomes the subject.
    CreateAggregate { name: String, is_union: bool },
    /// Creates the empty enumeration; its ordinal becomes the subject.
    CreateEnum { name: String, width: u32 },
    /// Creates the array type; its ordinal becomes the subject.
    CreateArray { element: Source, count: u32 },
    /// Creates the pointer type; its ordinal becomes the subject.
    CreatePointer { target: Source },
    /// Creates the empty function signature; its ordinal becomes the subject.
    CreateFunction { return_type: Source, convention: u32, is_vararg: bool },
    /// Creates the pointer to a function; its ordinal becomes the subject.
    CreateFunctionPointer { function: u32 },
    /// Looks a primitive up; its ordinal becomes the subject.
    Primitive { code: u32 },
    /// Looks a primitive up; its ordinal becomes the resolved ordinal.
    Resolve { code: u32 },
    /// Creates a pointer to the subject; its ordinal becomes the resolved
    /// ordinal.
    ResolveSelf,
    /// Adds a field to the subject, at the explicit offset or at the cursor.
    AddField { name: String, field_type: Source, offset: Option<u64> },
    /// Asks for the size of a field's type and advances the cursor by it.
    Measure { field_type: Source },
    /// Adds a bitfield to the subject.
    AddBitfield { name: String, bit_offset: u32, bit_width: u32, is_unsigned: bool },
    /// Adds a member to the subject.
    AddMember { name: String, value: i64 },
    /// Adds a parameter to the subject.
    AddParameter { name: String, param_type: Source, is_hidden: bool },
    /// Applies the attribute set to the subject.
    SetAttributes { attributes: FunctionAttributes },
    /// Commits the subject.
    Finalize,
}

/// The mathematical value of an [`Op`].
pub enum OpView {
    CreateAggregate { name: Seq<char>, is_union: bool },
    CreateEnum { name: Seq<char>, width: u32 },
    CreateArray { element: Source, count: u32 },
    CreatePointer { target: Source },
    CreateFunction { return_type: Source, convention: u32, is_vararg: bool },
    CreateFunctionPointer { function: u32 },
    Primitive { code: u32 },
    Resolve { code: u32 },
    ResolveSelf,
    AddField { name: Seq<char>, field_type: Source, offset: Option<u64> },
    Measure { field_type: Source },
    AddBitfield { name: Seq<char>, bit_offset: u32, bit_width: u32, is_unsigned: bool },
    AddMember { name: Seq<char>, value: i64 },
    AddParameter { name: Seq<char>, param_type: Source, is_hidden: bool },
    SetAttributes { attributes: FunctionAttributes },
    Finalize,
}

impl View for Op {
    type V = OpView;

    open spec fn view(&self) -> OpView {
        match self {
            Op::CreateAggregate { name, is_union } => OpView::CreateAggregate {
                name: name@,
                is_union: *is_union,
            },
            Op::CreateEnum { name, width } => OpView::CreateEnum { name: name@, width: *width },
            Op::CreateArray { element, count } => OpView::CreateArray {
                element: *element,
                count: *count,
            },
            Op::CreatePointer { target } => OpView::CreatePointer { target: *target },
            Op::CreateFunction { return_type, convention, is_vararg } => OpView::CreateFunction {
                return_type: *return_type,
                convention: *convention,
                is_vararg: *is_vararg,
            },
            Op::CreateFunctionPointer { function } => OpView::CreateFunctionPointer {
                function: *function,
            },
            Op::Primitive { code } => OpView::Primitive { code: *code },
            Op::Resolve { code } => OpView::Resolve { code: *code },
            Op::ResolveSelf => OpView::ResolveSelf,
            Op::AddField { name, field_type, offset } => OpView::AddField {
                name: name@,
                field_type: *field_type,
                offset: *offset,
            },
            Op::Measure { field_type } => OpView::Measure { field_type: *field_type },
            Op::AddBitfield { name, bit_offset, bit_width, is_unsigned } => OpView::AddBitfield {
                name: name@,
                bit_offset: *bit_offset,
                bit_width: *bit_width,
                is_unsigned: *is_unsigned,
            },
            Op::AddMember { name, value } => OpView::AddMember { name: name@, value: *value },
            Op::AddParameter { name, param_type, is_hidden } => OpView::AddParameter {
                name: name@,
                param_type: *param_type,
                is_hidden: *is_hidden,
            },
            Op::SetAttributes { attributes } => OpView::SetAttributes { attributes: *attributes },
            Op::Finalize => OpView::Finalize,
        }
    }
}

impl DeepView for Op {
    type V = OpView;

    open spec fn deep_view(&self) -> OpView {
        self@
    }
}

/// What the answer to an operation is used for.
#[derive(Clone, Copy, Debug, PartialEq, Eq, Structural)]
pub enum Effect {
    /// The ordinal in the answer becomes the subject; `0` is a failure.
    Subject,
    /// The ordinal in the answer becomes the resolved ordinal; `0` is a
    /// failure.
    Resolved,
    /// The status in the answer decides between going on and failing.
    Command,
    /// The size in the answer advances the cursor.
    Advance,
}

impl OpView {
    /// The catalog operation that the step asks for under the given
    /// registers.
    pub open spec fn call(self, registers: Registers) -> CatalogCallView {
        match self {
            OpView::CreateAggregate { name, is_union } => CatalogCallView::CreateAggregate {
                name,
                is_union,
            },
            OpView::CreateEnum { name, width } => CatalogCallView::CreateEnum { name, width },
            OpView::CreateArray { element, count } => CatalogCallView::CreateArray {
                element: element.pick(registers),
                count,
            },
            OpView::CreatePointer { target } => CatalogCallView::CreatePointer {
                target: target.pick(registers),
            },
            OpView::CreateFunction {
                return_type,
                convention,
                is_vararg,
            } => CatalogCallView::CreateFunction {
                return_type: return_type.pick(registers),
                convention,
                is_vararg,
            },
            OpView::CreateFunctionPointer { function } => CatalogCallView::CreateFunctionPointer {
                function,
            },
            OpView::Primitive { code } => CatalogCallView::PrimitiveOrdinal { code },
            OpView::Resolve { code } => CatalogCallView::PrimitiveOrdinal { code },
            OpView::ResolveSelf => CatalogCallView::CreatePointer { target: registers.subject },
            OpView::AddField { name, field_type, offset } => CatalogCallView::AddField {
                owner: registers.subject,
                name,
                field_type: field_type.pick(registers),
                offset: match offset {
                    Some(explicit) => explicit,
                    None => registers.cursor,
                },
            },
            OpView::Measure { field_type } => CatalogCallView::TypeSize {
                ordinal: field_type.pick(registers),
            },
            OpView::AddBitfield {
                name,
                bit_offset,
                bit_width,
                is_unsigned,
            } => CatalogCallView::AddBitfield {
                owner: registers.subject,
                name,
                bit_offset,
                bit_width,
                is_unsigned,
            },
            OpView::AddMember { name, value } => CatalogCallView::AddEnumMember {
                owner: registers.subject,
                name,
                value,
            },
            OpView::AddParameter { name, param_type, is_hidden } => CatalogCallView::AddParameter {
                function: registers.subject,
                name,
                param_type: param_type.pick(registers),
                is_hidden,
            },
            OpView::SetAttributes { attributes } => CatalogCallView::SetFunctionAttributes {
                function: registers.subject,
                attributes,
            },
            OpView::Finalize => CatalogCallView::Finalize { ordinal: registers.subject },
        }
    }

    /// What the answer to the step is used for.
    pub open spec fn effect(self) -> Effect {
        match self {
            OpView::CreateAggregate { .. }
            | OpView::CreateEnum { .. }
            | OpView::CreateArray { .. }
            | OpView::CreatePointer { .. }
            | OpView::CreateFunction { .. }
            | OpView::CreateFunctionPointer { .. }
            | OpView::Primitive { .. } => Effect::Subject,
            OpView::Resolve { .. } | OpView::ResolveSelf => Effect::Resolved,
            OpView::Measure { .. } => Effect::Advance,
            _ => Effect::Command,
        }
    }

    /// Whether the answer lets the submission go on: an ordinal other than
    /// `0` where a type is created or looked up, a status of success where
    /// something is added or committed. A measurement takes any answer.
    pub open spec fn welcomes(self, reply: CatalogReply) -> bool {
        match self.effect() {
            Effect::Subject | Effect::Resolved => reply.ordinal() != 0,
            Effect::Command => reply.succeeded(),
            Effect::Advance => true,
        }
    }

    /// The registers after the catalog answered the step with `reply`, or the
    /// error with which the submission fails on that answer.
    ///
    /// Every failure but an overflow of the cursor names the operation that
    /// the catalog turned down.
    pub open spec fn absorb(self, reply: CatalogReply, registers: Registers) -> Result<
        Registers,
        IDAErrorView,
    > {
        let failure = Err(IDAErrorView::CatalogFailure { call: self.call(registers) });
        match self.effect() {
            Effect::Subject => if reply.ordinal() == 0 {
                failure
            } else {
                Ok(Registers { subject: reply.ordinal(), ..registers })
            },
            Effect::Resolved => if reply.ordinal() == 0 {
                failure
            } else {
                Ok(Registers { resolved: reply.ordinal(), ..registers })
            },
            Effect::Command => if reply.succeeded() {
                Ok(registers)
            } else {
                failure
            },
            Effect::Advance => if registers.cursor + stride(reply.size()) > u64::MAX {
                Err(IDAErrorView::LayoutOverflow)
            } else {
                Ok(
                    Registers {
                        cursor: (registers.cursor + stride(reply.size())) as u64,
                        ..registers
                    },
                )
            },
        }
    }
}

impl Op {
    fn call(&self, registers: &Registers) -> (call: CatalogCall)
        ensures
            call@ == self@.call(*registers),
    {
        match self {
            Op::CreateAggregate { name, is_union } => CatalogCall::CreateAggregate {
                name: name.clone(),
                is_union: *is_union,
            },
            Op::CreateEnum { name, width } => CatalogCall::CreateEnum {
                name: name.clone(),
                width: *width,
            },
            Op::CreateArray { element, count } => CatalogCall::CreateArray {
                element: element.read(registers),
                count: *count,
            },
            Op::CreatePointer { target } => CatalogCall::CreatePointer {
                target: target.read(registers),
            },
            Op::CreateFunction { return_type, convention, is_vararg } => CatalogCall::CreateFunction {
                return_type: return_type.read(registers),
                convention: *convention,
                is_vararg: *is_vararg,
            },
            Op::CreateFunctionPointer { function } => CatalogCall::CreateFunctionPointer {
                function: *function,
            },
            Op::Primitive { code } => CatalogCall::PrimitiveOrdinal { code: *code },
            Op::Resolve { code } => CatalogCall::PrimitiveOrdinal { code: *code },
            Op::ResolveSelf => CatalogCall::CreatePointer { target: registers.subject },
            Op::AddField { name, field_type, offset } => CatalogCall::AddField {
                owner: registers.subject,
                name: name.clone(),
                field_type: field_type.read(registers),
                offset: match offset {
                    Some(explicit) => *explicit,
                    None => registers.cursor,
                },
            },
            Op::Measure { field_type } => CatalogCall::TypeSize {
                ordinal: field_type.read(registers),
            },
            Op::AddBitfield { name, bit_offset, bit_width, is_unsigned } => CatalogCall::AddBitfield {
                owner: registers.subject,
                name: name.clone(),
                bit_offset: *bit_offset,
                bit_width: *bit_width,
                is_unsigned: *is_unsigned,
            },
            Op::AddMember { name, value } => CatalogCall::AddEnumMember {
                owner: registers.subject,
                name: name.clone(),
                value: *value,
            },
            Op::AddParameter { name, param_type, is_hidden } => CatalogCall::AddParameter {
                function: registers.subject,
                name: name.clone(),
                param_type: param_type.read(registers),
                is_hidden: *is_hidden,
            },
            Op::SetAttributes { attributes } => CatalogCall::SetFunctionAttributes {
                function: registers.subject,
                attributes: *attributes,
            },
            Op::Finalize => CatalogCall::Finalize { ordinal: registers.subject },
        }
    }

    fn effect(&self) -> (effect: Effect)
        ensures
            effect == self@.effect(),
    {
        match self {
            Op::CreateAggregate { .. }
            | Op::CreateEnum { .. }
            | Op::CreateArray { .. }
            | Op::CreatePointer { .. }
            | Op::CreateFunction { .. }
            | Op::CreateFunctionPointer { .. }
            | Op::Primitive { .. } => Effect::Subject,
            Op::Resolve { .. } | Op::ResolveSelf => Effect::Resolved,
            Op::Measure { .. } => Effect::Advance,
            _ => Effect::Command,
        }
    }

    fn absorb(&self, reply: CatalogReply, registers: &Registers) -> (outcome: Result<
        Registers,
        IDAError,
    >)
        ensures
            match outcome {
                Ok(next) => self@.absorb(reply, *registers) == Ok::<Registers, IDAErrorView>(next),
                Err(error) => self@.absorb(reply, *registers) == Err::<Registers, IDAErrorView>(
                    error@,
                ),
            },
    {
        match self.effect() {
            Effect::Subject => {
                let ordinal: u32 = reply.as_ordinal();
                if ordinal == 0 {
                    Err(IDAError::CatalogFailure { call: self.call(registers) })
                } else {
                    Ok(
                        Registers {
                            subject: ordinal,
                            resolved: registers.resolved,
                            cursor: registers.cursor,
                        },
                    )
                }
            },
            Effect::Resolved => {
                let ordinal: u32 = reply.as_ordinal();
                if ordinal == 0 {
                    Err(IDAError::CatalogFailure { call: self.call(registers) })
                } else {
                    Ok(
                        Registers {
                            subject: registers.subject,
                            resolved: ordinal,
                            cursor: registers.cursor,
                        },
                    )
                }
            },
            Effect::Command => {
                if reply.as_status() {
                    Ok(*registers)
                } else {
                    Err(IDAError::CatalogFailure { call: self.call(registers) })
                }
            },
            Effect::Advance => {
                let size: u64 = reply.as_size();
                let step: u64 = if size > 0 {
                    size
                } else {
                    UNKNOWN_SIZE_STRIDE
                };
                match registers.cursor.checked_add(step) {
                    Some(cursor) => Ok(
                        Registers {
                            subject: registers.subject,
                            resolved: registers.resolved,
                            cursor,
                        },
                    ),
                    None => Err(IDAError::LayoutOverflow),
                }
            },
        }
    }
}

/// A submission that is under way: a plan, the position of the operation
/// that is due, and the registers.
#[derive(Debug)]
pub struct Submission {
    plan: Vec<Op>,
    next: usize,
    registers: Registers,
}

/// The mathematical value of a [`Submission`].
pub struct SubmissionView {
    pub plan: Seq<OpView>,
    pub next: nat,
    pub registers: Registers,
}

/// Where a submission stands after an answer of the catalog.
#[derive(Debug)]
pub enum Progress {
    /// Another operation is due.
    Pending(Submission),
    /// Every operation succeeded; the handle names the new type.
    Complete(Type),
    /// The submission is over. What the catalog holds of the type by now
    /// stays as it is.
    Failed(IDAError),
}

/// The mathematical value of a [`Progress`].
pub enum ProgressView {
    Pending(SubmissionView),
    Complete(Type),
    Failed(IDAErrorView),
}

impl SubmissionView {
    /// A submission always has an operation that is due.
    pub open spec fn live(self) -> bool {
        self.next < self.plan.len()
    }

    /// The state in which the submission of a plan starts: at its first
    /// step, with nothing created, nothing resolved and the running offset
    /// at `0`.
    pub open spec fn begin(plan: Seq<OpView>) -> SubmissionView
        recommends
            plan.len() > 0,
    {
        SubmissionView { plan, next: 0, registers: Registers::initial() }
    }

    /// The operation that is due.
    pub open spec fn pending(self) -> CatalogCallView
        recommends
            self.live(),
    {
        self.plan[self.next as int].call(self.registers)
    }

    /// Where the submission stands after the catalog answered the operation
    /// that was due with `reply`.
    pub open spec fn after(self, reply: CatalogReply) -> ProgressView
        recommends
            self.live(),
    {
        match self.plan[self.next as int].absorb(reply, self.registers) {
            Err(error) => ProgressView::Failed(error),
            Ok(registers) => if self.next + 1 == self.plan.len() {
                ProgressView::Complete(Type::of(registers.subject))
            } else {
                ProgressView::Pending(
                    SubmissionView { plan: self.plan, next: self.next + 1, registers },
                )
            },
        }
    }
}

impl View for Submission {
    type V = SubmissionView;

    closed spec fn view(&self) -> SubmissionView {
        SubmissionView {
            plan: self.plan.deep_view(),
            next: self.next as nat,
            registers: self.registers,
        }
    }
}

impl View for Progress {
    type V = ProgressView;

    open spec fn view(&self) -> ProgressView {
        match self {
            Progress::Pending(submission) => ProgressView::Pending(submission@),
            Progress::Complete(handle) => ProgressView::Complete(*handle),
            Progress::Failed(error) => ProgressView::Failed(error@),
        }
    }
}

impl Submission {
    #[verifier::type_invariant]
    spec fn well_formed(self) -> bool {
        self@.live()
    }

    /// Starts the submission of a plan.
    pub(crate) fn begin(plan: Vec<Op>) -> (submission: Submission)
        requires
            plan.len() > 0,
        ensures
            submission@ == SubmissionView::begin(plan.deep_view()),
            submission@.live(),
    {
        Submission { plan, next: 0, registers: Registers { subject: 0, resolved: 0, cursor: 0 } }
    }

    /// The catalog operation that has to be performed now.
    pub fn pending(&self) -> (call: CatalogCall)
        ensures
            self@.live(),
            call@ == self@.pending(),
    {
        proof {
            use_type_invariant(self);
        }
        self.plan[self.next].call(&self.registers)
    }

    /// Takes the catalog's answer to the operation that was due.
    ///
    /// A failure sentinel in the answer ends the submission with a
    /// [`IDAError::CatalogFailure`] that names the operation. Otherwise the
    /// submission moves to the next step of its plan, or completes with the
    /// ordinal of the subject after the last one. No error that is reported
    /// here could have been found from the builder alone.
    pub fn resume(self, reply: CatalogReply) -> (progress: Progress)
        ensures
            progress@ == self@.after(reply),
            progress matches Progress::Pending(submission) ==> submission@.live(),
            progress matches Progress::Failed(error) ==> !error@.is_local(),
    {
        proof {
            use_type_invariant(&self);
            assert(self.next < self.plan.len());
        }
        let Submission { plan, next, registers } = self;
        match plan[next].absorb(reply, &registers) {
            Err(error) => Progress::Failed(error),
            Ok(registers) => {
                if next + 1 == plan.len() {
                    Progress::Complete(Type::from_ordinal(registers.subject))
                } else {
                    Progress::Pending(Submission { plan, next: next + 1, registers })
                }
            },
        }
    }
}

/// Every answer moves a submission one step along its plan or ends it: a
/// submission asks for no more operations than its plan has steps.
pub proof fn lemma_submission_is_bounded(state: SubmissionView, reply: CatalogReply)
    requires
        state.live(),
    ensures
        match state.after(reply) {
            ProgressView::Pending(next) => {
                &&& next.live()
                &&& next.plan == state.plan
                &&& next.next == state.next + 1
            },
            _ => true,
        },
{
}

/// Where a submission stands after the catalog gave the answers in their
/// order. Answers that come after the submission is over are not looked at.
pub open spec fn run(state: SubmissionView, replies: Seq<CatalogReply>) -> ProgressView
    decreases replies.len(),
{
    if replies.len() == 0 {
        ProgressView::Pending(state)
    } else {
        match state.after(replies[0]) {
            ProgressView::Pending(next) => run(next, replies.skip(1)),
            over => over,
        }
    }
}

/// A submission is over once it got as many answers as its plan has steps
/// left, whatever the answers are.
pub proof fn lemma_run_ends_with_the_plan(state: SubmissionView, replies: Seq<CatalogReply>)
    requires
        state.live(),
        replies.len() >= state.plan.len() - state.next,
    ensures
        !(run(state, replies) is Pending),
    decreases replies.len(),
{
    match state.after(replies[0]) {
        ProgressView::Pending(next) => {
            lemma_submission_is_bounded(state, replies[0]);
            lemma_run_ends_with_the_plan(next, replies.skip(1));
        },
        _ => {},
    }
}

/// A submission that the catalog answers with success throughout completes
/// exactly when the last step of its plan is answered, and not before. The
/// one thing that can still end it is a running offset that leaves the range
/// of 64 bits.
pub proof fn lemma_run_completes_with_the_last_step(
    state: SubmissionView,
    replies: Seq<CatalogReply>,
)
    requires
        state.live(),
        replies.len() <= state.plan.len() - state.next,
        forall|i: int|
            0 <= i < replies.len() ==> (#[trigger] state.plan[state.next + i]).welcomes(replies[i]),
    ensures
        run(state, replies) is Failed ==> run(state, replies) == ProgressView::Failed(
            IDAErrorView::LayoutOverflow,
        ),
        run(state, replies) is Pending ==> replies.len() < state.plan.len() - state.next,
        run(state, replies) is Complete ==> replies.len() == state.plan.len() - state.next,
    decreases replies.len(),
{
    if replies.len() > 0 {
        assert(state.plan[state.next + 0int].welcomes(replies[0]));
        match state.after(replies[0]) {
            ProgressView::Pending(next) => {
                let rest = replies.skip(1);
                assert forall|i: int| 0 <= i < rest.len() implies (#[trigger] next.plan[next.next
                    + i]).welcomes(rest[i]) by {
                    assert(rest[i] == replies[i + 1]);
                    assert(next.plan[next.next + i] == state.plan[state.next + (i + 1)]);
                }
                lemma_run_completes_with_the_last_step(next, rest);
            },
            _ => {},
        }
    }
}

/// An answer with the failure sentinel ends the submission with the
/// operation that the catalog turned down, whatever stands in the plan
/// behind it.
pub proof fn lemma_failure_names_the_operation(state: SubmissionView, reply: CatalogReply)
    requires
        state.live(),
        !state.plan[state.next as int].welcomes(reply),
    ensures
        state.after(reply) == ProgressView::Failed(
            IDAErrorView::CatalogFailure { call: state.pending() },
        ),
{
}

/// The handle of a completed submission is the ordinal that the catalog
/// gave to the subject: the library hands out no ordinal of its own and
/// remembers none from an earlier submission.
pub proof fn lemma_handle_is_the_subject(state: SubmissionView, reply: CatalogReply)
    requires
        state.live(),
    ensures
        match state.after(reply) {
            ProgressView::Complete(handle) => {
                let op = state.plan[state.next as int];
                handle == Type::of(
                    if op.effect() == Effect::Subject {
                        reply.ordinal()
                    } else {
                        state.registers.subject
                    },
                )
            },
            ProgressView::Pending(next) => {
                let op = state.plan[state.next as int];
                next.registers.subject == if op.effect() == Effect::Subject {
                    reply.ordinal()
                } else {
                    state.registers.subject
                }
            },
            ProgressView::Failed(_) => true,
        },
{
}

/// A run keeps the subject that it has once no step that is still to come
/// creates a type: it can only complete with that subject.
pub proof fn lemma_run_keeps_the_subject(state: SubmissionView, replies: Seq<CatalogReply>)
    requires
        state.live(),
        forall|i: int|
            state.next <= i < state.plan.len() ==> (#[trigger] state.plan[i]).effect()
                != Effect::Subject,
    ensures
        run(state, replies) matches ProgressView::Complete(handle) ==> handle == Type::of(
            state.registers.subject,
        ),
    decreases replies.len(),
{
    if replies.len() > 0 {
        assert(state.plan[state.next as int].effect() != Effect::Subject);
        match state.after(replies[0]) {
            ProgressView::Pending(next) => {
                lemma_run_keeps_the_subject(next, replies.skip(1));
            },
            _ => {},
        }
    }
}

/// The handle with which a run completes is the ordinal that the catalog
/// gave in answer to the last step of the plan that creates a type. The
/// library hands out no ordinal of its own and remembers none from an
/// earlier submission.
pub proof fn lemma_run_completes_with_the_created_ordinal(
    state: SubmissionView,
    replies: Seq<CatalogReply>,
    created: int,
)
    requires
        state.live(),
        state.next <= created < state.plan.len(),
        state.plan[created].effect() == Effect::Subject,
        forall|i: int|
            created < i < state.plan.len() ==> (#[trigger] state.plan[i]).effect()
                != Effect::Subject,
        run(state, replies) is Complete,
    ensures
        created - state.next < replies.len(),
        run(state, replies) == ProgressView::Complete(
            Type::of(replies[created - state.next].ordinal()),
        ),
    decreases replies.len(),
{
    let rest = replies.skip(1);
    match state.after(replies[0]) {
        ProgressView::Pending(next) => {
            if created == state.next {
                lemma_run_keeps_the_subject(next, rest);
            } else {
                lemma_run_completes_with_the_created_ordinal(next, rest, created);
                assert(rest[created - next.next] == replies[created - state.next]);
            }
        },
        _ => {},
    }
}

/// Submitting one configuration twice gives two handles wherever the catalog
/// gives two ordinals: two runs from the same start that the catalog answers
/// with different ordinals for the type they create complete with different
/// handles.
pub proof fn lemma_fresh_ordinal_gives_fresh_handle(
    state: SubmissionView,
    first: Seq<CatalogReply>,
    second: Seq<CatalogReply>,
    created: int,
)
    requires
        state.live(),
        state.next <= created < state.plan.len(),
        state.plan[created].effect() == Effect::Subject,
        forall|i: int|
            created < i < state.plan.len() ==> (#[trigger] state.plan[i]).effect()
                != Effect::Subject,
        run(state, first) is Complete,
        run(state, second) is Complete,
        created - state.next < first.len() && created - state.next < second.len() ==> first[created
            - state.next].ordinal() != second[created - state.next].ordinal(),
    ensures
        run(state, first) != run(state, second),
{
    lemma_run_completes_with_the_created_ordinal(state, first, created);
    lemma_run_completes_with_the_created_ordinal(state, second, created);
    Type::lemma_ordinal_of_handle(first[created - state.next].ordinal());
    Type::lemma_ordinal_of_handle(second[created - state.next].ordinal());
}

/// No answer of the catalog ends a submission with an error that could have
/// been found from the builder alone.
pub proof fn lemma_resume_reports_no_local_error(state: SubmissionView, reply: CatalogReply)
    requires
        state.live(),
    ensures
        state.after(reply) matches ProgressView::Failed(error) ==> !error.is_local(),
{
}

/// Only a measurement moves the running offset: every other operation
/// leaves it where it was.
pub proof fn lemma_cursor_moves_only_when_measured(
    op: OpView,
    reply: CatalogReply,
    registers: Registers,
)
    requires
        !(op is Measure),
    ensures
        match op.absorb(reply, registers) {
            Ok(next) => next.cursor == registers.cursor,
            Err(_) => true,
        },
{
}

/// A field that follows the field before it is measured after it was added,
/// and the running offset moves by the size that the catalog reports, or by
/// the fallback where the size is unknown.
pub proof fn lemma_measure_moves_cursor_by_stride(
    field_type: Source,
    size: u64,
    registers: Registers,
)
    requires
        registers.cursor + stride(size) <= u64::MAX,
    ensures
        (OpView::Measure { field_type }).absorb(CatalogReply::Size(size), registers) == Ok::<
            Registers,
            IDAErrorView,
        >(Registers { cursor: (registers.cursor + stride(size)) as u64, ..registers }),
        size == 0 ==> stride(size) == 8,
        size > 0 ==> stride(size) == size,
{
}

} // verus!

//! Enumerations: named members with explicit or counted values, and a fixed
//! width in bytes.

use vstd::prelude::*;
use crate::builder::{TypeBuilder, TypeValidator};
use crate::error::{IDAError, IDAErrorView, NameRole};
use crate::submission::{Op, OpView, Submission, SubmissionView};
use crate::validation::{find_repeat, first_clash, lemma_first_clash, same_name};

verus! {

#[derive(Debug)]
struct EnumMember {
    name: String,
    value: i64,
}

/// The mathematical value of a member of an enumeration.
pub struct MemberView {
    pub name: Seq<char>,
    pub value: i64,
}

/// Builder for enumerations.
#[derive(Debug)]
pub struct EnumBuilder {
    name: String,
    width: u32,
    members: Vec<EnumMember>,
}

/// The mathematical value of an [`EnumBuilder`].
pub struct EnumView {
    pub name: Seq<char>,
    /// The width of the enumeration in bytes.
    pub width: u32,
    pub members: Seq<MemberView>,
}

impl View for EnumMember {
    type V = MemberView;

    closed spec fn view(&self) -> MemberView {
        MemberView { name: self.name@, value: self.value }
    }
}

impl DeepView for EnumMember {
    type V = MemberView;

    closed spec fn deep_view(&self) -> MemberView {
        self@
    }
}

impl View for EnumBuilder {
    type V = EnumView;

    closed spec fn view(&self) -> EnumView {
        EnumView { name: self.name@, width: self.width, members: self.members.deep_view() }
    }
}

/// The value after `value` in two's complement: one more, and the least
/// value after the greatest.
pub open spec fn successor(value: i64) -> i64 {
    if value == i64::MAX {
        i64::MIN
    } else {
        (value + 1) as i64
    }
}

/// Whether an enumeration can be that many bytes wide.
pub open spec fn legal_width(width: u32) -> bool {
    width == 1 || width == 2 || width == 4 || width == 8
}

/// The name of each member.
pub open spec fn member_name() -> spec_fn(MemberView) -> Seq<char> {
    |member: MemberView| member.name
}

/// The step of each member.
pub open spec fn member_step() -> spec_fn(MemberView) -> OpView {
    |member: MemberView| OpView::AddMember { name: member.name, value: member.value }
}

impl EnumView {
    /// The builder with one more member at its end.
    pub open spec fn with_member(self, member: MemberView) -> EnumView {
        EnumView { members: self.members.push(member), ..self }
    }

    /// The value that the next counted member gets: one more than the value
    /// of the last member, or `0` for the first member.
    pub open spec fn next_value(self) -> i64 {
        if self.members.len() == 0 {
            0
        } else {
            successor(self.members.last().value)
        }
    }

    /// The names of the members, in their order.
    pub open spec fn names(self) -> Seq<Seq<char>> {
        self.members.map_values(member_name())
    }

    /// The first rule that the enumeration breaks: an empty name, then a
    /// width that is not 1, 2, 4 or 8, then the first member name that
    /// occurred before.
    pub open spec fn violation(self) -> Option<IDAErrorView> {
        if self.name.len() == 0 {
            Some(IDAErrorView::EmptyName)
        } else if !legal_width(self.width) {
            Some(IDAErrorView::InvalidEnumWidth { width: self.width })
        } else {
            match first_clash(self.names(), same_name()) {
                Some(i) => Some(
                    IDAErrorView::DuplicateName { name: self.names()[i], role: NameRole::Member },
                ),
                None => None,
            }
        }
    }

    /// The operations that commit the enumeration, in their order: the empty
    /// enumeration is created, the members follow in the order of their
    /// declaration, and the enumeration is finalized.
    pub open spec fn plan(self) -> Seq<OpView> {
        seq![OpView::CreateEnum { name: self.name, width: self.width }] + self.members.map_values(
            member_step(),
        ) + seq![OpView::Finalize]
    }
}

impl Clone for EnumBuilder {
    fn clone(&self) -> (copy: EnumBuilder)
        ensures
            copy@ == self@,
    {
        let mut members: Vec<EnumMember> = Vec::new();
        let mut i: usize = 0;
        while i < self.members.len()
            invariant
                i <= self.members.len(),
                members.deep_view() =~= self.members.deep_view().take(i as int),
            decreases self.members.len() - i,
        {
            let ghost before = members.deep_view();
            let member = EnumMember {
                name: self.members[i].name.clone(),
                value: self.members[i].value,
            };
            members.push(member);
            assert(members.deep_view() =~= before.push(self.members[i as int]@));
            i += 1;
        }
        assert(members.deep_view() =~= self.members.deep_view());
        EnumBuilder { name: self.name.clone(), width: self.width, members }
    }
}

impl EnumBuilder {
    /// A builder for an enumeration of the given width in bytes, without
    /// members.
    pub fn new(name: &str, width: u32) -> (builder: EnumBuilder)
        ensures
            builder@ == (EnumView { name: name@, width, members: Seq::empty() }),
    {
        let builder = EnumBuilder { name: name.to_owned(), width, members: Vec::new() };
        assert(builder.members.deep_view() =~= Seq::empty());
        builder
    }

    /// The name under which the enumeration will be known.
    pub fn name(&self) -> (name: &str)
        ensures
            name@ == self@.name,
    {
        self.name.as_str()
    }

    /// Adds a member with an explicit value.
    pub fn member(self, name: &str, value: i64) -> (builder: EnumBuilder)
        ensures
            builder@ == self@.with_member(MemberView { name: name@, value }),
    {
        let mut builder = self;
        let member = EnumMember { name: name.to_owned(), value };
        builder.members.push(member);
        assert(builder.members.deep_view() =~= self.members.deep_view().push(member@));
        builder
    }

    /// Adds a member whose value is one more than that of the member before
    /// it, or `0` where it is the first. The count wraps around in two's
    /// complement.
    pub fn auto_member(self, name: &str) -> (builder: EnumBuilder)
        ensures
            builder@ == self@.with_member(MemberView { name: name@, value: self@.next_value() }),
    {
        let count = self.members.len();
        let next_value: i64 = if count > 0 {
            self.members[count - 1].value.wrapping_add(1)
        } else {
            0
        };
        self.member(name, next_value)
    }

    fn names(&self) -> (names: Vec<String>)
        ensures
            names.deep_view() == self@.names(),
    {
        let mut names: Vec<String> = Vec::new();
        let mut i: usize = 0;
        while i < self.members.len()
            invariant
                i <= self.members.len(),
                names.len() == i,
                forall|k: int| 0 <= k < i ==> names[k]@ == self.members[k].name@,
            decreases self.members.len() - i,
        {
            names.push(self.members[i].name.clone());
            i += 1;
        }
        assert(names.deep_view() =~= self@.names());
        names
    }

    fn plan(&self) -> (plan: Vec<Op>)
        ensures
            plan.deep_view() == self@.plan(),
    {
        let mut plan: Vec<Op> = Vec::new();
        plan.push(Op::CreateEnum { name: self.name.clone(), width: self.width });
        let ghost create = seq![OpView::CreateEnum { name: self@.name, width: self@.width }];
        assert(plan.deep_view() =~= create + self@.members.take(0).map_values(member_step()));
        let mut i: usize = 0;
        while i < self.members.len()
            invariant
                i <= self.members.len(),
                create == seq![OpView::CreateEnum { name: self@.name, width: self@.width }],
                plan.deep_view() == create + self@.members.take(i as int).map_values(
                    member_step(),
                ),
            decreases self.members.len() - i,
        {
            let ghost before = plan.deep_view();
            let member = &self.members[i];
            plan.push(Op::AddMember { name: member.name.clone(), value: member.value });
            proof {
                self@.members.lemma_map_take_succ(member_step(), i as int);
                assert(plan.deep_view() =~= before.push(member_step()(self@.members[i as int])));
            }
            i += 1;
        }
        assert(self@.members.take(self.members.len() as int) =~= self@.members);
        let ghost before = plan.deep_view();
        plan.push(Op::Finalize);
        assert(plan.deep_view() =~= before + seq![OpView::Finalize]);
        plan
    }
}

impl TypeValidator for EnumBuilder {
    open spec fn violation(&self) -> Option<IDAErrorView> {
        self@.violation()
    }

    /// Checks the name, the width and the names of the members, in this
    /// order.
    fn validate(&self) -> (checked: Result<(), IDAError>) {
        if self.name.as_str().is_empty() {
            return Err(IDAError::EmptyName);
        }
        if !(self.width == 1 || self.width == 2 || self.width == 4 || self.width == 8) {
            return Err(IDAError::InvalidEnumWidth { width: self.width });
        }
        let names = self.names();
        match find_repeat(&names, false) {
            Some(i) => {
                proof {
                    lemma_first_clash(self@.names(), same_name());
                }
                Err(IDAError::DuplicateName { name: names[i].clone(), role: NameRole::Member })
            },
            None => Ok(()),
        }
    }
}

impl TypeBuilder for EnumBuilder {
    open spec fn submission(&self) -> Result<SubmissionView, IDAErrorView> {
        match self@.violation() {
            Some(error) => Err(error),
            None => Ok(SubmissionView::begin(self@.plan())),
        }
    }

    /// Validates the enumeration and starts its submission.
    fn build(self) -> (start: Result<Submission, IDAError>) {
        match TypeValidator::validate(&self) {
            Err(error) => Err(error),
            Ok(_) => {
                let plan = self.plan();
                assert(plan.deep_view().len() == plan.len());
                assert(self@.plan().len() > 0);
                Ok(Submission::begin(plan))
            },
        }
    }
}

} // verus!

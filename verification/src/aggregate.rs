//! Structures and unions: named fields, bit-packed fields, and the layout
//! policy by which fields without an explicit offset follow one another.
//!
//! Everything that can be found wrong from the builder alone is found before
//! the catalog is asked for anything: the rules of the aggregate, then the
//! fields whose types cannot be resolved.

use vstd::prelude::*;
use crate::builder::{TypeBuilder, TypeValidator};
use crate::catalog::CatalogCallView;
use crate::derived::PointerView;
use crate::error::{IDAError, IDAErrorView, NameRole};
use crate::field::{
    find_objection,
    first_objection,
    lemma_first_objection,
    FieldType,
    FieldTypeView,
};
use crate::handle::Type;
use crate::submission::{Op, OpView, Registers, Source, Submission, SubmissionView};
use crate::validation::{
    clashes_at,
    find_repeat,
    first_clash,
    lemma_clash_is_found,
    lemma_first_clash,
    lemma_first_clash_is,
    ranges_collide,
    same_name,
};

verus! {

#[derive(Debug)]
struct StructField {
    name: String,
    field_type: FieldType,
    offset: Option<u64>,
}

/// The mathematical value of a field of an aggregate.
pub struct FieldView {
    pub name: Seq<char>,
    pub field_type: FieldTypeView,
    /// The byte offset that the caller fixed, if any.
    pub offset: Option<u64>,
}

#[derive(Debug)]
struct BitfieldInfo {
    name: String,
    bit_offset: u32,
    bit_width: u32,
    is_unsigned: bool,
}

/// The mathematical value of a bitfield of an aggregate.
pub struct BitfieldView {
    pub name: Seq<char>,
    pub bit_offset: u32,
    pub bit_width: u32,
    pub is_unsigned: bool,
}

/// Builder for structures and unions.
#[derive(Debug)]
pub struct StructBuilder {
    name: String,
    fields: Vec<StructField>,
    bitfields: Vec<BitfieldInfo>,
    is_union: bool,
}

/// The mathematical value of a [`StructBuilder`].
pub struct StructView {
    pub name: Seq<char>,
    pub fields: Seq<FieldView>,
    pub bitfields: Seq<BitfieldView>,
    pub is_union: bool,
}

impl View for StructField {
    type V = FieldView;

    closed spec fn view(&self) -> FieldView {
        FieldView { name: self.name@, field_type: self.field_type@, offset: self.offset }
    }
}

impl DeepView for StructField {
    type V = FieldView;

    closed spec fn deep_view(&self) -> FieldView {
        self@
    }
}

impl View for BitfieldInfo {
    type V = BitfieldView;

    closed spec fn view(&self) -> BitfieldView {
        BitfieldView {
            name: self.name@,
            bit_offset: self.bit_offset,
            bit_width: self.bit_width,
            is_unsigned: self.is_unsigned,
        }
    }
}

impl DeepView for BitfieldInfo {
    type V = BitfieldView;

    closed spec fn deep_view(&self) -> BitfieldView {
        self@
    }
}

impl View for StructBuilder {
    type V = StructView;

    closed spec fn view(&self) -> StructView {
        StructView {
            name: self.name@,
            fields: self.fields.deep_view(),
            bitfields: self.bitfields.deep_view(),
            is_union: self.is_union,
        }
    }
}

impl BitfieldView {
    /// The first bit of the range that the bitfield covers.
    pub open spec fn start(self) -> int {
        self.bit_offset as int
    }

    /// The bit after the last one of the range that the bitfield covers.
    pub open spec fn end(self) -> int {
        self.bit_offset + self.bit_width
    }

    /// Whether the bitfield, declared later, collides with an earlier one.
    pub open spec fn collides_with(self, earlier: BitfieldView) -> bool {
        ranges_collide(self.start(), self.end(), earlier.start(), earlier.end())
    }

    /// The operation that adds the bitfield.
    pub open spec fn step(self) -> OpView {
        OpView::AddBitfield {
            name: self.name,
            bit_offset: self.bit_offset,
            bit_width: self.bit_width,
            is_unsigned: self.is_unsigned,
        }
    }
}

/// The rule by which bitfields clash: their bit ranges collide.
pub open spec fn bits_collide() -> spec_fn(BitfieldView, BitfieldView) -> bool {
    |earlier: BitfieldView, later: BitfieldView| later.collides_with(earlier)
}

/// The steps that each field of an aggregate stands for.
pub open spec fn field_steps(is_union: bool) -> spec_fn(FieldView) -> Seq<OpView> {
    |field: FieldView| field.steps(is_union)
}

/// The type of each field.
pub open spec fn field_type() -> spec_fn(FieldView) -> FieldTypeView {
    |field: FieldView| field.field_type
}

/// The name of each field.
pub open spec fn field_name() -> spec_fn(FieldView) -> Seq<char> {
    |field: FieldView| field.name
}

/// The name of each bitfield.
pub open spec fn bitfield_name() -> spec_fn(BitfieldView) -> Seq<char> {
    |bitfield: BitfieldView| bitfield.name
}

/// The step of each bitfield.
pub open spec fn bitfield_step() -> spec_fn(BitfieldView) -> OpView {
    |bitfield: BitfieldView| bitfield.step()
}

impl FieldView {
    /// Whether adding the field moves the running offset: only in a
    /// structure, and only for a field without an explicit offset.
    pub open spec fn advances(self, is_union: bool) -> bool {
        !is_union && self.offset is None
    }

    /// The steps that place the field once the ordinal of its type can be
    /// had from `source`: it is added, and then measured where it moves the
    /// running offset.
    pub open spec fn placement(self, source: Source, is_union: bool) -> Seq<OpView> {
        let add = OpView::AddField { name: self.name, field_type: source, offset: self.offset };
        if self.advances(is_union) {
            seq![add, OpView::Measure { field_type: source }]
        } else {
            seq![add]
        }
    }

    /// The steps that the field stands for in the plan of its aggregate:
    /// its type is resolved, and the field is placed. A primitive is looked
    /// up, a handle is used as it is, and a reference to the aggregate
    /// itself becomes a pointer to it.
    pub open spec fn steps(self, is_union: bool) -> Seq<OpView> {
        self.field_type.resolution() + self.placement(self.field_type.source(), is_union)
    }
}

impl StructView {
    /// The builder with one more field at its end.
    pub open spec fn with_field(self, field: FieldView) -> StructView {
        StructView { fields: self.fields.push(field), ..self }
    }

    /// The builder with one more bitfield at its end.
    pub open spec fn with_bitfield(self, bitfield: BitfieldView) -> StructView {
        StructView { bitfields: self.bitfields.push(bitfield), ..self }
    }

    /// The one namespace of the aggregate: the names of its fields, then
    /// those of its bitfields.
    pub open spec fn names(self) -> Seq<Seq<char>> {
        self.fields.map_values(field_name()) + self.bitfields.map_values(bitfield_name())
    }

    /// The first rule that the aggregate breaks: an empty name, then the
    /// first name that occurred before, be it that of a field or of a
    /// bitfield, then the first bitfield that collides with an earlier one.
    pub open spec fn violation(self) -> Option<IDAErrorView> {
        if self.name.len() == 0 {
            Some(IDAErrorView::EmptyName)
        } else {
            match first_clash(self.names(), same_name()) {
                Some(i) => Some(
                    IDAErrorView::DuplicateName {
                        name: self.names()[i],
                        role: if i < self.fields.len() {
                            NameRole::Field
                        } else {
                            NameRole::Bitfield
                        },
                    },
                ),
                None => match first_clash(self.bitfields, bits_collide()) {
                    Some(j) => Some(
                        IDAErrorView::BitfieldOverlap {
                            name: self.bitfields[j].name,
                            start: self.bitfields[j].start() as u64,
                            end: self.bitfields[j].end() as u64,
                        },
                    ),
                    None => None,
                },
            }
        }
    }

    /// The types of the fields, in their order.
    pub open spec fn types(self) -> Seq<FieldTypeView> {
        self.fields.map_values(field_type())
    }

    /// The objection to the first field whose type cannot be resolved: a
    /// handle that names no type, or a reference by name to anything but the
    /// aggregate itself.
    pub open spec fn objection(self) -> Option<IDAErrorView> {
        first_objection(self.types(), Some(self.name))
    }

    /// The operations that commit the aggregate, in their order: the empty
    /// aggregate is created, the fields follow in the order of their
    /// declaration, then the bitfields, and the aggregate is finalized.
    pub open spec fn plan(self) -> Seq<OpView> {
        seq![OpView::CreateAggregate { name: self.name, is_union: self.is_union }]
            + self.fields.flat_map(field_steps(self.is_union)) + self.bitfields.map_values(
            bitfield_step(),
        ) + seq![OpView::Finalize]
    }

    /// The state in which the submission of the aggregate starts, or the
    /// error that keeps it from starting: the first rule that is broken, or
    /// else the objection to the first field that cannot be resolved. Either
    /// is found before the catalog is asked for anything.
    pub open spec fn submission(self) -> Result<SubmissionView, IDAErrorView> {
        match self.violation() {
            Some(error) => Err(error),
            None => match self.objection() {
                Some(error) => Err(error),
                None => Ok(SubmissionView::begin(self.plan())),
            },
        }
    }
}

impl Clone for StructField {
    fn clone(&self) -> (copy: StructField)
        ensures
            copy@ == self@,
    {
        StructField {
            name: self.name.clone(),
            field_type: self.field_type.clone(),
            offset: self.offset,
        }
    }
}

impl Clone for BitfieldInfo {
    fn clone(&self) -> (copy: BitfieldInfo)
        ensures
            copy@ == self@,
    {
        BitfieldInfo {
            name: self.name.clone(),
            bit_offset: self.bit_offset,
            bit_width: self.bit_width,
            is_unsigned: self.is_unsigned,
        }
    }
}

impl Clone for StructBuilder {
    fn clone(&self) -> (copy: StructBuilder)
        ensures
            copy@ == self@,
    {
        let mut fields: Vec<StructField> = Vec::new();
        let mut i: usize = 0;
        while i < self.fields.len()
            invariant
                i <= self.fields.len(),
                fields.deep_view() =~= self.fields.deep_view().take(i as int),
            decreases self.fields.len() - i,
        {
            let ghost before = fields.deep_view();
            fields.push(self.fields[i].clone());
            assert(fields.deep_view() =~= before.push(self.fields[i as int]@));
            i += 1;
        }
        let mut bitfields: Vec<BitfieldInfo> = Vec::new();
        let mut j: usize = 0;
        while j < self.bitfields.len()
            invariant
                j <= self.bitfields.len(),
                bitfields.deep_view() =~= self.bitfields.deep_view().take(j as int),
            decreases self.bitfields.len() - j,
        {
            let ghost before = bitfields.deep_view();
            bitfields.push(self.bitfields[j].clone());
            assert(bitfields.deep_view() =~= before.push(self.bitfields[j as int]@));
            j += 1;
        }
        assert(fields.deep_view() =~= self.fields.deep_view());
        assert(bitfields.deep_view() =~= self.bitfields.deep_view());
        StructBuilder { name: self.name.clone(), fields, bitfields, is_union: self.is_union }
    }
}

impl StructBuilder {
    /// A builder for a structure without fields.
    pub fn new(name: &str) -> (builder: StructBuilder)
        ensures
            builder@ == (StructView {
                name: name@,
                fields: Seq::empty(),
                bitfields: Seq::empty(),
                is_union: false,
            }),
    {
        let builder = StructBuilder {
            name: name.to_owned(),
            fields: Vec::new(),
            bitfields: Vec::new(),
            is_union: false,
        };
        assert(builder.fields.deep_view() =~= Seq::empty());
        assert(builder.bitfields.deep_view() =~= Seq::empty());
        builder
    }

    /// The name under which the aggregate will be known.
    pub fn name(&self) -> (name: &str)
        ensures
            name@ == self@.name,
    {
        self.name.as_str()
    }

    /// A builder for a union without fields.
    pub fn new_union(name: &str) -> (builder: StructBuilder)
        ensures
            builder@ == (StructView {
                name: name@,
                fields: Seq::empty(),
                bitfields: Seq::empty(),
                is_union: true,
            }),
    {
        let builder = StructBuilder {
            name: name.to_owned(),
            fields: Vec::new(),
            bitfields: Vec::new(),
            is_union: true,
        };
        assert(builder.fields.deep_view() =~= Seq::empty());
        assert(builder.bitfields.deep_view() =~= Seq::empty());
        builder
    }

    fn with(self, field: StructField) -> (builder: StructBuilder)
        ensures
            builder@ == self@.with_field(field@),
    {
        let mut builder = self;
        builder.fields.push(field);
        assert(builder.fields.deep_view() =~= self.fields.deep_view().push(field@));
        builder
    }

    /// Adds a field that follows the fields before it.
    pub fn field(self, name: &str, field_type: FieldType) -> (builder: StructBuilder)
        ensures
            builder@ == self@.with_field(
                FieldView { name: name@, field_type: field_type@, offset: None },
            ),
    {
        self.with(StructField { name: name.to_owned(), field_type, offset: None })
    }

    /// Adds a field at an explicit byte offset. A union has no offsets: on a
    /// union this is [`StructBuilder::field`].
    pub fn field_at(self, name: &str, field_type: FieldType, offset: u64) -> (builder:
        StructBuilder)
        ensures
            builder@ == self@.with_field(
                FieldView {
                    name: name@,
                    field_type: field_type@,
                    offset: if self@.is_union {
                        None
                    } else {
                        Some(offset)
                    },
                },
            ),
    {
        if self.is_union {
            return self.field(name, field_type);
        }
        self.with(StructField { name: name.to_owned(), field_type, offset: Some(offset) })
    }

    /// Says whether the aggregate is a union. What was added before stays as
    /// it was added.
    pub fn is_union(self, is_union: bool) -> (builder: StructBuilder)
        ensures
            builder@ == (StructView { is_union, ..self@ }),
    {
        let mut builder = self;
        builder.is_union = is_union;
        builder
    }

    /// Adds a bit-packed field of `bit_width` bits that starts at the bit
    /// `bit_offset`. A union takes no bitfields and stays as it is.
    pub fn bitfield(self, name: &str, bit_offset: u32, bit_width: u32, is_unsigned: bool) -> (builder:
        StructBuilder)
        ensures
            builder@ == if self@.is_union {
                self@
            } else {
                self@.with_bitfield(
                    BitfieldView { name: name@, bit_offset, bit_width, is_unsigned },
                )
            },
    {
        if self.is_union {
            return self;
        }
        let mut builder = self;
        let bitfield = BitfieldInfo { name: name.to_owned(), bit_offset, bit_width, is_unsigned };
        builder.bitfields.push(bitfield);
        assert(builder.bitfields.deep_view() =~= self.bitfields.deep_view().push(bitfield@));
        builder
    }

    /// Adds an unsigned bitfield.
    pub fn unsigned_bitfield(self, name: &str, bit_offset: u32, bit_width: u32) -> (builder:
        StructBuilder)
        ensures
            builder@ == if self@.is_union {
                self@
            } else {
                self@.with_bitfield(
                    BitfieldView { name: name@, bit_offset, bit_width, is_unsigned: true },
                )
            },
    {
        self.bitfield(name, bit_offset, bit_width, true)
    }

    /// Adds a signed bitfield.
    pub fn signed_bitfield(self, name: &str, bit_offset: u32, bit_width: u32) -> (builder:
        StructBuilder)
        ensures
            builder@ == if self@.is_union {
                self@
            } else {
                self@.with_bitfield(
                    BitfieldView { name: name@, bit_offset, bit_width, is_unsigned: false },
                )
            },
    {
        self.bitfield(name, bit_offset, bit_width, false)
    }

    /// Adds a field that points to the aggregate itself, as the links of a
    /// list or a tree do. The field refers to the aggregate by the name that
    /// the builder has now.
    pub fn self_ref(self, name: &str) -> (builder: StructBuilder)
        ensures
            builder@ == self@.with_field(
                FieldView {
                    name: name@,
                    field_type: FieldTypeView::ForwardRef(self@.name),
                    offset: None,
                },
            ),
    {
        let owner = self.name.clone();
        self.field(name, FieldType::ForwardRef(owner))
    }

    fn types(&self) -> (types: Vec<FieldType>)
        ensures
            types.deep_view() == self@.types(),
    {
        let mut types: Vec<FieldType> = Vec::new();
        let mut i: usize = 0;
        while i < self.fields.len()
            invariant
                i <= self.fields.len(),
                types.len() == i,
                forall|k: int| 0 <= k < i ==> types[k]@ == self.fields[k].field_type@,
            decreases self.fields.len() - i,
        {
            types.push(self.fields[i].field_type.clone());
            i += 1;
        }
        assert(types.deep_view() =~= self@.types());
        types
    }

    fn names(&self) -> (names: Vec<String>)
        ensures
            names.deep_view() == self@.names(),
    {
        let mut names: Vec<String> = Vec::new();
        let mut i: usize = 0;
        while i < self.fields.len()
            invariant
                i <= self.fields.len(),
                names.len() == i,
                forall|k: int| 0 <= k < i ==> names[k]@ == self.fields[k].name@,
            decreases self.fields.len() - i,
        {
            names.push(self.fields[i].name.clone());
            i += 1;
        }
        let mut j: usize = 0;
        while j < self.bitfields.len()
            invariant
                j <= self.bitfields.len(),
                names.len() == self.fields.len() + j,
                forall|k: int| 0 <= k < self.fields.len() ==> names[k]@ == self.fields[k].name@,
                forall|k: int|
                    0 <= k < j ==> names[self.fields.len() + k]@ == self.bitfields[k].name@,
            decreases self.bitfields.len() - j,
        {
            names.push(self.bitfields[j].name.clone());
            j += 1;
        }
        assert(names.deep_view() =~= self@.names());
        names
    }

    fn find_collision(&self) -> (found: Option<usize>)
        ensures
            match found {
                Some(j) => first_clash(self@.bitfields, bits_collide()) == Some(j as int),
                None => first_clash(self@.bitfields, bits_collide()) is None,
            },
    {
        let ghost items = self@.bitfields;
        let ghost clash = bits_collide();
        let mut j: usize = 0;
        while j < self.bitfields.len()
            invariant
                j <= self.bitfields.len(),
                items == self@.bitfields,
                clash == bits_collide(),
                forall|i: int| 0 <= i < j ==> !clashes_at(items, clash, i),
            decreases self.bitfields.len() - j,
        {
            let start: u64 = self.bitfields[j].bit_offset as u64;
            let end: u64 = start + self.bitfields[j].bit_width as u64;
            let mut k: usize = 0;
            while k < j
                invariant
                    k <= j < self.bitfields.len(),
                    items == self@.bitfields,
                    clash == bits_collide(),
                    start == items[j as int].start(),
                    end == items[j as int].end(),
                    forall|i: int| 0 <= i < j ==> !clashes_at(items, clash, i),
                    forall|i: int| 0 <= i < k ==> !#[trigger] clash(items[i], items[j as int]),
                decreases j - k,
            {
                let other_start: u64 = self.bitfields[k].bit_offset as u64;
                let other_end: u64 = other_start + self.bitfields[k].bit_width as u64;
                if (start >= other_start && start < other_end) || (end > other_start && end
                    <= other_end) || (start <= other_start && end >= other_end) {
                    proof {
                        assert(clash(items[k as int], items[j as int]));
                        lemma_first_clash_is(items, clash, j as int);
                    }
                    return Some(j);
                }
                k += 1;
            }
            assert(!clashes_at(items, clash, j as int));
            j += 1;
        }
        proof {
            lemma_first_clash(items, clash);
        }
        None
    }

    fn plan(&self) -> (plan: Vec<Op>)
        ensures
            plan.deep_view() == self@.plan(),
    {
        let mut plan: Vec<Op> = Vec::new();
        plan.push(Op::CreateAggregate { name: self.name.clone(), is_union: self.is_union });
        let ghost create = seq![
            OpView::CreateAggregate { name: self@.name, is_union: self@.is_union },
        ];
        let ghost steps = field_steps(self@.is_union);
        assert(plan.deep_view() =~= create + self@.fields.take(0).flat_map(steps)) by {
            assert(self@.fields.take(0).map_values(steps) =~= Seq::empty());
            assert(self@.fields.take(0).flat_map(steps) =~= Seq::empty());
        }
        let mut i: usize = 0;
        while i < self.fields.len()
            invariant
                i <= self.fields.len(),
                steps == field_steps(self@.is_union),
                create == seq![
                    OpView::CreateAggregate { name: self@.name, is_union: self@.is_union },
                ],
                plan.deep_view() == create + self@.fields.take(i as int).flat_map(steps),
            decreases self.fields.len() - i,
        {
            self.fields[i].push_steps(&mut plan, self.is_union);
            proof {
                self@.fields.lemma_flat_map_take_append(steps, i as int);
                assert(plan.deep_view() =~= create + self@.fields.take(i + 1).flat_map(steps));
            }
            i += 1;
        }
        assert(self@.fields.take(self.fields.len() as int) =~= self@.fields);
        let ghost body = create + self@.fields.flat_map(steps);
        let mut j: usize = 0;
        while j < self.bitfields.len()
            invariant
                j <= self.bitfields.len(),
                body == create + self@.fields.flat_map(steps),
                plan.deep_view() == body + self@.bitfields.take(j as int).map_values(
                    bitfield_step(),
                ),
            decreases self.bitfields.len() - j,
        {
            let ghost before = plan.deep_view();
            let bitfield = &self.bitfields[j];
            let op = Op::AddBitfield {
                name: bitfield.name.clone(),
                bit_offset: bitfield.bit_offset,
                bit_width: bitfield.bit_width,
                is_unsigned: bitfield.is_unsigned,
            };
            plan.push(op);
            proof {
                self@.bitfields.lemma_map_take_succ(bitfield_step(), j as int);
                assert(plan.deep_view() =~= before.push(self@.bitfields[j as int].step()));
            }
            j += 1;
        }
        assert(self@.bitfields.take(self.bitfields.len() as int) =~= self@.bitfields);
        let ghost before = plan.deep_view();
        plan.push(Op::Finalize);
        assert(plan.deep_view() =~= before + seq![OpView::Finalize]);
        plan
    }
}

impl StructField {
    fn push_placement(&self, plan: &mut Vec<Op>, source: Source, is_union: bool)
        ensures
            final(plan).deep_view() == old(plan).deep_view() + self@.placement(source, is_union),
    {
        let ghost before = plan.deep_view();
        plan.push(Op::AddField { name: self.name.clone(), field_type: source, offset: self.offset });
        if !is_union && self.offset.is_none() {
            plan.push(Op::Measure { field_type: source });
        }
        assert(plan.deep_view() =~= before + self@.placement(source, is_union));
    }

    fn push_steps(&self, plan: &mut Vec<Op>, is_union: bool)
        ensures
            final(plan).deep_view() == old(plan).deep_view() + self@.steps(is_union),
    {
        let ghost before = plan.deep_view();
        let source = self.field_type.push_resolution(plan);
        self.push_placement(plan, source, is_union);
        assert(plan.deep_view() =~= before + self@.steps(is_union));
    }
}

impl TypeValidator for StructBuilder {
    open spec fn violation(&self) -> Option<IDAErrorView> {
        self@.violation()
    }

    /// Checks the name, the one namespace of fields and bitfields, and the
    /// bit ranges, in this order.
    fn validate(&self) -> (checked: Result<(), IDAError>) {
        if self.name.as_str().is_empty() {
            return Err(IDAError::EmptyName);
        }
        let names = self.names();
        match find_repeat(&names, false) {
            Some(i) => {
                proof {
                    lemma_first_clash(self@.names(), same_name());
                }
                let role = if i < self.fields.len() {
                    NameRole::Field
                } else {
                    NameRole::Bitfield
                };
                return Err(IDAError::DuplicateName { name: names[i].clone(), role });
            },
            None => {},
        }
        match self.find_collision() {
            Some(j) => {
                proof {
                    lemma_first_clash(self@.bitfields, bits_collide());
                }
                let bitfield = &self.bitfields[j];
                let start: u64 = bitfield.bit_offset as u64;
                Err(
                    IDAError::BitfieldOverlap {
                        name: bitfield.name.clone(),
                        start,
                        end: start + bitfield.bit_width as u64,
                    },
                )
            },
            None => Ok(()),
        }
    }
}

impl TypeBuilder for StructBuilder {
    open spec fn submission(&self) -> Result<SubmissionView, IDAErrorView> {
        self@.submission()
    }

    /// Validates the aggregate, makes sure that the type of every field can
    /// be resolved, and starts the submission.
    fn build(self) -> (start: Result<Submission, IDAError>) {
        match TypeValidator::validate(&self) {
            Err(error) => {
                return Err(error);
            },
            Ok(_) => {},
        }
        let types = self.types();
        match find_objection(&types, Some(&self.name)) {
            Some(error) => {
                proof {
                    lemma_first_objection(self@.types(), Some(self@.name));
                }
                Err(error)
            },
            None => {
                let plan = self.plan();
                assert(plan.deep_view().len() == plan.len());
                assert(self@.plan().len() > 0);
                Ok(Submission::begin(plan))
            },
        }
    }
}

/// An aggregate in which two fields have the same name breaks a rule, so
/// its submission never starts: no catalog operation is asked for.
pub proof fn lemma_repeated_field_name_is_rejected(builder: StructBuilder, i: int, j: int)
    requires
        0 <= i < j < builder@.fields.len(),
        builder@.fields[i].name == builder@.fields[j].name,
    ensures
        builder.violation() is Some,
        builder.violation().unwrap().is_local(),
        builder@.name.len() > 0 ==> builder.violation().unwrap() is DuplicateName,
        builder.submission() is Err,
{
    let names = builder@.names();
    assert(names[i] == builder@.fields[i].name);
    assert(names[j] == builder@.fields[j].name);
    assert(same_name()(names[i], names[j]));
    lemma_clash_is_found(names, same_name(), i, j);
}

/// An aggregate that breaks no rule has a name, has no name twice among its
/// fields and bitfields, and has no two bitfields whose bit ranges collide.
/// An aggregate of which all this holds breaks no rule.
pub proof fn lemma_valid_aggregate(builder: StructView)
    ensures
        builder.violation() is None <==> {
            &&& builder.name.len() > 0
            &&& forall|i: int, j: int|
                0 <= i < j < builder.names().len() ==> builder.names()[i] != builder.names()[j]
            &&& forall|i: int, j: int|
                0 <= i < j < builder.bitfields.len() ==> !builder.bitfields[j].collides_with(
                    builder.bitfields[i],
                )
        },
{
    let names = builder.names();
    lemma_first_clash(names, same_name());
    lemma_first_clash(builder.bitfields, bits_collide());
    if builder.violation() is None {
        assert forall|i: int, j: int| 0 <= i < j < names.len() implies names[i] != names[j] by {
            if names[i] == names[j] {
                assert(same_name()(names[i], names[j]));
                assert(clashes_at(names, same_name(), j));
            }
        }
        assert forall|i: int, j: int|
            0 <= i < j < builder.bitfields.len() implies !builder.bitfields[j].collides_with(
            builder.bitfields[i],
        ) by {
            if builder.bitfields[j].collides_with(builder.bitfields[i]) {
                assert(bits_collide()(builder.bitfields[i], builder.bitfields[j]));
                assert(clashes_at(builder.bitfields, bits_collide(), j));
            }
        }
    } else if builder.name.len() > 0 {
        match first_clash(names, same_name()) {
            Some(i) => {
                let k = choose|k: int| 0 <= k < i && #[trigger] same_name()(names[k], names[i]);
                assert(names[k] == names[i]);
            },
            None => {
                let j = first_clash(builder.bitfields, bits_collide()).unwrap();
                let k = choose|k: int|
                    0 <= k < j && #[trigger] bits_collide()(
                        builder.bitfields[k],
                        builder.bitfields[j],
                    );
                assert(builder.bitfields[j].collides_with(builder.bitfields[k]));
            },
        }
    }
}

/// An aggregate with a field that refers by name to anything but the
/// aggregate itself is rejected before its submission starts: the catalog
/// is asked for nothing, whatever the fields before it are.
pub proof fn lemma_reference_to_another_type_is_rejected(builder: StructBuilder, i: int)
    requires
        0 <= i < builder@.fields.len(),
        builder@.fields[i].field_type matches FieldTypeView::ForwardRef(name) && name
            != builder@.name,
    ensures
        builder.submission() is Err,
        builder.submission()->Err_0.is_local(),
        builder.violation() is None && (forall|j: int|
            0 <= j < i ==> (#[trigger] builder@.fields[j]).field_type.objection(
                Some(builder@.name),
            ) is None) ==> builder.submission() == Err::<SubmissionView, IDAErrorView>(
            builder@.fields[i].field_type.objection(Some(builder@.name))->Some_0,
        ),
{
    let types = builder@.types();
    let owner = Some(builder@.name);
    lemma_first_objection(types, owner);
    assert(types[i] == builder@.fields[i].field_type);
    assert(types[i].objection(owner) is Some);
    if builder.violation() is None {
        assert(first_objection(types, owner) is Some);
        if forall|j: int|
            0 <= j < i ==> (#[trigger] builder@.fields[j]).field_type.objection(owner) is None {
            assert forall|j: int| 0 <= j < i implies (#[trigger] types[j]).objection(
                owner,
            ) is None by {
                assert(types[j] == builder@.fields[j].field_type);
            }
            let first = choose|k: int|
                {
                    &&& 0 <= k < types.len()
                    &&& #[trigger] types[k].objection(owner) == first_objection(types, owner)
                    &&& forall|j: int| 0 <= j < k ==> (#[trigger] types[j]).objection(owner) is None
                };
            assert(first == i);
        }
    }
}

/// A field that refers to its own aggregate resolves by the operation that
/// a pointer builder asks for when it is given the handle of the aggregate:
/// both lead to the same pointer type.
pub proof fn lemma_self_reference_is_a_pointer_to_the_aggregate(
    field: FieldView,
    owner: Seq<char>,
    is_union: bool,
    registers: Registers,
)
    requires
        field.field_type == FieldTypeView::ForwardRef(owner),
        registers.subject != 0,
    ensures
        field.field_type.objection(Some(owner)) is None,
        field.steps(is_union)[0] == OpView::ResolveSelf,
        (PointerView {
            target_type: FieldTypeView::Existing(Type::of(registers.subject)),
        }).plan() =~= seq![OpView::CreatePointer { target: Source::Fixed(registers.subject) }],
        OpView::ResolveSelf.call(registers) == (PointerView {
            target_type: FieldTypeView::Existing(Type::of(registers.subject)),
        }).plan()[0].call(Registers::initial()),
{
    Type::lemma_ordinal_of_handle(registers.subject);
}

/// In a structure, a field without an explicit offset is added at the
/// running offset, and the field after it lies behind it by the stride of
/// its size. A field with an explicit offset is added there and leaves the
/// running offset alone, and so does every field of a union.
pub proof fn lemma_field_placement(
    field: FieldView,
    source: Source,
    is_union: bool,
    registers: Registers,
)
    ensures
        field.placement(source, is_union)[0].call(registers) == (CatalogCallView::AddField {
            owner: registers.subject,
            name: field.name,
            field_type: source.pick(registers),
            offset: match field.offset {
                Some(explicit) => explicit,
                None => registers.cursor,
            },
        }),
        field.advances(is_union) ==> field.placement(source, is_union) =~= seq![
            field.placement(source, is_union)[0],
            OpView::Measure { field_type: source },
        ],
        !field.advances(is_union) ==> field.placement(source, is_union).len() == 1,
{
}

} // verus!

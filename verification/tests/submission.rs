//! Submissions driven against an in-memory catalog that records every
//! operation it is asked for.

use std::collections::HashMap;

use idalib::builders;
use idalib::{
    ArrayBuilder, CallingConvention, CatalogCall, CatalogReply, EnumBuilder, FieldType,
    FunctionAttributes, FunctionBuilder, FunctionPointerBuilder, IDAError, PointerBuilder,
    PrimitiveType, Progress, ReplyKind, StructBuilder, Submission, Type, TypeBuilder,
};

struct Catalog {
    log: Vec<CatalogCall>,
    next_ordinal: u32,
    pointers: HashMap<u32, u32>,
    sizes: HashMap<u32, u64>,
    refuse_at: Option<usize>,
    void_is_known: bool,
}

impl Catalog {
    fn new() -> Catalog {
        let mut sizes = HashMap::new();
        sizes.insert(primitive(PrimitiveType::Int8), 1);
        sizes.insert(primitive(PrimitiveType::Int16), 2);
        sizes.insert(primitive(PrimitiveType::Int32), 4);
        sizes.insert(primitive(PrimitiveType::Int64), 8);
        Catalog {
            log: Vec::new(),
            next_ordinal: 1000,
            pointers: HashMap::new(),
            sizes,
            refuse_at: None,
            void_is_known: true,
        }
    }

    fn without_sizes() -> Catalog {
        let mut catalog = Catalog::new();
        catalog.sizes.clear();
        catalog
    }

    fn refusing(position: usize) -> Catalog {
        let mut catalog = Catalog::new();
        catalog.refuse_at = Some(position);
        catalog
    }

    fn fresh(&mut self) -> CatalogReply {
        self.next_ordinal += 1;
        CatalogReply::Ordinal(self.next_ordinal)
    }

    fn perform(&mut self, call: CatalogCall) -> CatalogReply {
        let position = self.log.len();
        let kind = call.reply_kind();
        self.log.push(call.clone());
        if self.refuse_at == Some(position) {
            return match kind {
                ReplyKind::Ordinal => CatalogReply::Ordinal(0),
                ReplyKind::Status => CatalogReply::Status(false),
                ReplyKind::Size => CatalogReply::Size(0),
            };
        }
        match call {
            CatalogCall::PrimitiveOrdinal { code } => {
                if code == 0 && !self.void_is_known {
                    CatalogReply::Ordinal(0)
                } else {
                    CatalogReply::Ordinal(100 + code)
                }
            }
            CatalogCall::TypeSize { ordinal } => {
                CatalogReply::Size(self.sizes.get(&ordinal).copied().unwrap_or(0))
            }
            CatalogCall::CreatePointer { target } => {
                if let Some(known) = self.pointers.get(&target) {
                    return CatalogReply::Ordinal(*known);
                }
                let reply = self.fresh();
                self.pointers.insert(target, self.next_ordinal);
                self.sizes.insert(self.next_ordinal, 8);
                reply
            }
            CatalogCall::CreateAggregate { .. }
            | CatalogCall::CreateEnum { .. }
            | CatalogCall::CreateArray { .. }
            | CatalogCall::CreateFunction { .. }
            | CatalogCall::CreateFunctionPointer { .. } => self.fresh(),
            CatalogCall::AddField { .. }
            | CatalogCall::AddBitfield { .. }
            | CatalogCall::AddEnumMember { .. }
            | CatalogCall::AddParameter { .. }
            | CatalogCall::SetFunctionAttributes { .. }
            | CatalogCall::Finalize { .. } => CatalogReply::Status(true),
        }
    }

    fn run(&mut self, mut submission: Submission) -> Result<Type, IDAError> {
        loop {
            let reply = self.perform(submission.pending());
            match submission.resume(reply) {
                Progress::Pending(next) => submission = next,
                Progress::Complete(handle) => return Ok(handle),
                Progress::Failed(error) => return Err(error),
            }
        }
    }

    fn submit(&mut self, start: Result<Submission, IDAError>) -> Result<Type, IDAError> {
        self.run(start?)
    }
}

fn primitive(kind: PrimitiveType) -> u32 {
    100 + kind.to_ida_type()
}

fn int32() -> FieldType {
    FieldType::Primitive(PrimitiveType::Int32)
}

fn lookup(kind: PrimitiveType) -> CatalogCall {
    CatalogCall::PrimitiveOrdinal { code: kind.to_ida_type() }
}

fn add_field(owner: u32, name: &str, field_type: u32, offset: u64) -> CatalogCall {
    CatalogCall::AddField { owner, name: name.to_string(), field_type, offset }
}

fn offsets(log: &[CatalogCall]) -> Vec<u64> {
    let mut found = Vec::new();
    for call in log {
        if let CatalogCall::AddField { offset, .. } = call {
            found.push(*offset);
        }
    }
    found
}

fn member_values(log: &[CatalogCall]) -> Vec<(String, i64)> {
    let mut found = Vec::new();
    for call in log {
        if let CatalogCall::AddEnumMember { name, value, .. } = call {
            found.push((name.clone(), *value));
        }
    }
    found
}

#[test]
fn struct_with_two_int32_fields_lies_at_offsets_0_and_4() {
    let mut catalog = Catalog::new();
    let built = catalog.submit(StructBuilder::new("Pair").field("a", int32()).field("b", int32()).build());
    assert_eq!(built, Ok(Type::from_ordinal(1001)));
    assert_eq!(offsets(&catalog.log), vec![0, 4]);
    let int32_ordinal = primitive(PrimitiveType::Int32);
    assert_eq!(
        catalog.log,
        vec![
            CatalogCall::CreateAggregate { name: "Pair".to_string(), is_union: false },
            lookup(PrimitiveType::Int32),
            add_field(1001, "a", int32_ordinal, 0),
            CatalogCall::TypeSize { ordinal: int32_ordinal },
            lookup(PrimitiveType::Int32),
            add_field(1001, "b", int32_ordinal, 4),
            CatalogCall::TypeSize { ordinal: int32_ordinal },
            CatalogCall::Finalize { ordinal: 1001 },
        ]
    );
}

#[test]
fn unknown_size_falls_back_to_a_stride_of_8() {
    let mut catalog = Catalog::without_sizes();
    let built = catalog.submit(
        StructBuilder::new("Pair").field("a", int32()).field("b", int32()).field("c", int32()).build(),
    );
    assert!(built.is_ok());
    assert_eq!(offsets(&catalog.log), vec![0, 8, 16]);
}

#[test]
fn mixed_sizes_accumulate() {
    let mut catalog = Catalog::new();
    let built = catalog.submit(
        StructBuilder::new("Mixed")
            .field("a", FieldType::Primitive(PrimitiveType::Int8))
            .field("b", FieldType::Primitive(PrimitiveType::Int64))
            .field("c", FieldType::Primitive(PrimitiveType::Double))
            .field("d", FieldType::Primitive(PrimitiveType::Int16))
            .build(),
    );
    assert!(built.is_ok());
    assert_eq!(offsets(&catalog.log), vec![0, 1, 9, 17]);
}

#[test]
fn explicit_offset_is_used_and_does_not_move_the_cursor() {
    let mut catalog = Catalog::new();
    let built = catalog.submit(
        StructBuilder::new("Sparse")
            .field("a", int32())
            .field_at("far", int32(), 64)
            .field("b", int32())
            .build(),
    );
    assert!(built.is_ok());
    assert_eq!(offsets(&catalog.log), vec![0, 64, 4]);
    let measured = catalog.log.iter().filter(|call| matches!(call, CatalogCall::TypeSize { .. })).count();
    assert_eq!(measured, 2);
}

#[test]
fn union_fields_all_lie_at_offset_0_and_are_never_measured() {
    let mut catalog = Catalog::new();
    let built = catalog.submit(
        StructBuilder::new_union("Either")
            .field("a", int32())
            .field_at("b", int32(), 12)
            .field("c", FieldType::Primitive(PrimitiveType::Int64))
            .build(),
    );
    assert!(built.is_ok());
    assert_eq!(offsets(&catalog.log), vec![0, 0, 0]);
    assert_eq!(catalog.log[0], CatalogCall::CreateAggregate { name: "Either".to_string(), is_union: true });
    assert!(!catalog.log.iter().any(|call| matches!(call, CatalogCall::TypeSize { .. })));
}

#[test]
fn union_ignores_bitfields() {
    let mut catalog = Catalog::new();
    let built = catalog.submit(
        StructBuilder::new_union("Either").unsigned_bitfield("flag", 0, 1).field("a", int32()).build(),
    );
    assert!(built.is_ok());
    assert!(!catalog.log.iter().any(|call| matches!(call, CatalogCall::AddBitfield { .. })));
}

#[test]
fn explicit_offset_given_to_a_structure_survives_the_switch_to_a_union() {
    let mut catalog = Catalog::new();
    let built = catalog.submit(StructBuilder::new("Late").field_at("a", int32(), 16).is_union(true).build());
    assert!(built.is_ok());
    assert_eq!(offsets(&catalog.log), vec![16]);
    assert_eq!(catalog.log[0], CatalogCall::CreateAggregate { name: "Late".to_string(), is_union: true });
}

#[test]
fn bitfields_follow_the_fields_with_their_raw_values() {
    let mut catalog = Catalog::new();
    let built = catalog.submit(
        StructBuilder::new("Flags")
            .unsigned_bitfield("low", 0, 4)
            .field("word", int32())
            .signed_bitfield("high", 4, 4)
            .build(),
    );
    assert_eq!(built, Ok(Type::from_ordinal(1001)));
    let int32_ordinal = primitive(PrimitiveType::Int32);
    assert_eq!(
        catalog.log,
        vec![
            CatalogCall::CreateAggregate { name: "Flags".to_string(), is_union: false },
            lookup(PrimitiveType::Int32),
            add_field(1001, "word", int32_ordinal, 0),
            CatalogCall::TypeSize { ordinal: int32_ordinal },
            CatalogCall::AddBitfield {
                owner: 1001,
                name: "low".to_string(),
                bit_offset: 0,
                bit_width: 4,
                is_unsigned: true,
            },
            CatalogCall::AddBitfield {
                owner: 1001,
                name: "high".to_string(),
                bit_offset: 4,
                bit_width: 4,
                is_unsigned: false,
            },
            CatalogCall::Finalize { ordinal: 1001 },
        ]
    );
}

#[test]
fn existing_handle_is_used_without_a_lookup() {
    let mut catalog = Catalog::new();
    catalog.sizes.insert(77, 24);
    let built = catalog.submit(
        StructBuilder::new("Outer")
            .field("inner", FieldType::Existing(Type::from_ordinal(77)))
            .field("after", int32())
            .build(),
    );
    assert!(built.is_ok());
    assert_eq!(catalog.log[1], add_field(1001, "inner", 77, 0));
    assert_eq!(catalog.log[2], CatalogCall::TypeSize { ordinal: 77 });
    assert_eq!(offsets(&catalog.log), vec![0, 24]);
}

#[test]
fn self_reference_resolves_to_the_pointer_built_against_the_handle() {
    let mut catalog = Catalog::new();
    let node = catalog
        .submit(StructBuilder::new("Node").field("value", int32()).self_ref("next").build())
        .unwrap();
    let resolved = catalog
        .log
        .iter()
        .find_map(|call| match call {
            CatalogCall::AddField { name, field_type, .. } if name == "next" => Some(*field_type),
            _ => None,
        })
        .unwrap();
    assert!(catalog.log.contains(&CatalogCall::CreatePointer { target: node.ordinal() }));

    let pointer = catalog.submit(PointerBuilder::new(FieldType::Existing(node)).build()).unwrap();
    assert_eq!(pointer.ordinal(), resolved);
    assert_eq!(catalog.log.last(), Some(&CatalogCall::CreatePointer { target: node.ordinal() }));
}

#[test]
fn self_reference_is_measured_like_any_other_field() {
    let mut catalog = Catalog::new();
    let built = catalog.submit(StructBuilder::new("Node").self_ref("next").field("value", int32()).build());
    assert!(built.is_ok());
    assert_eq!(offsets(&catalog.log), vec![0, 8]);
}

#[test]
fn reference_to_another_name_is_rejected_before_any_operation() {
    let start = StructBuilder::new("A")
        .field("x", int32())
        .field("p", FieldType::ForwardRef("B".to_string()))
        .field("last", int32())
        .build();
    match start {
        Err(error) => {
            assert_eq!(error, IDAError::UnsupportedForwardRef { name: "B".to_string() });
            assert!(error.is_local());
        }
        Ok(_) => panic!("a submission started"),
    }
}

#[test]
fn reference_to_another_name_passes_validation() {
    let builder = StructBuilder::new("A").field("p", FieldType::ForwardRef("B".to_string()));
    assert_eq!(idalib::TypeValidator::validate(&builder), Ok(()));
    assert!(builder.build().is_err());
}

#[test]
fn broken_rule_is_reported_before_a_reference_to_another_name() {
    let start = StructBuilder::new("A")
        .field("p", FieldType::ForwardRef("B".to_string()))
        .field("x", int32())
        .field("x", int32())
        .build();
    assert!(matches!(start, Err(IDAError::DuplicateName { name, .. }) if name == "x"));
}

#[test]
fn first_field_that_cannot_be_resolved_is_the_one_reported() {
    let start = StructBuilder::new("A")
        .field("x", int32())
        .self_ref("me")
        .field("h", FieldType::Existing(Type::from_ordinal(0)))
        .field("p", FieldType::ForwardRef("B".to_string()))
        .build();
    assert!(matches!(start, Err(IDAError::InvalidHandle)));
    let start = StructBuilder::new("A")
        .field("p", FieldType::ForwardRef("B".to_string()))
        .field("q", FieldType::ForwardRef("C".to_string()))
        .field("h", FieldType::Existing(Type::from_ordinal(0)))
        .build();
    assert!(matches!(start, Err(IDAError::UnsupportedForwardRef { name }) if name == "B"));
}

#[test]
fn self_reference_keeps_the_name_it_was_made_with() {
    let mut catalog = Catalog::new();
    let built = catalog.submit(StructBuilder::new("Node").self_ref("next").build());
    assert!(built.is_ok());
    let start = StructBuilder::new("Node").field("next", FieldType::ForwardRef("node".to_string())).build();
    assert!(matches!(start, Err(IDAError::UnsupportedForwardRef { name }) if name == "node"));
}

#[test]
fn field_with_an_invalid_handle_is_rejected_before_any_operation() {
    let start = StructBuilder::new("S")
        .field("a", int32())
        .field("b", FieldType::Existing(Type::from_ordinal(0)))
        .build();
    match start {
        Err(error) => {
            assert_eq!(error, IDAError::InvalidHandle);
            assert!(error.is_local());
        }
        Ok(_) => panic!("a submission started"),
    }
}

#[test]
fn failing_catalog_leaves_what_was_done_and_asks_nothing_more() {
    let mut catalog = Catalog::refusing(5);
    let built = catalog.submit(
        StructBuilder::new("S").field("a", int32()).field("b", int32()).field("c", int32()).build(),
    );
    let turned_down = add_field(1001, "b", primitive(PrimitiveType::Int32), 4);
    assert_eq!(built, Err(IDAError::CatalogFailure { call: turned_down.clone() }));
    assert_eq!(catalog.log.len(), 6);
    assert_eq!(catalog.log[5], turned_down);
    assert_eq!(catalog.log[2], add_field(1001, "a", primitive(PrimitiveType::Int32), 0));
}

#[test]
fn failing_creation_of_the_shell_is_reported() {
    let mut catalog = Catalog::refusing(0);
    let built = catalog.submit(StructBuilder::new("S").field("a", int32()).build());
    assert_eq!(
        built,
        Err(IDAError::CatalogFailure {
            call: CatalogCall::CreateAggregate { name: "S".to_string(), is_union: false }
        })
    );
    assert_eq!(catalog.log.len(), 1);
}

#[test]
fn failing_lookup_of_a_field_type_is_reported() {
    let mut catalog = Catalog::refusing(1);
    let built = catalog.submit(StructBuilder::new("S").field("a", int32()).build());
    assert_eq!(built, Err(IDAError::CatalogFailure { call: lookup(PrimitiveType::Int32) }));
}

#[test]
fn failing_finalize_is_reported() {
    let mut catalog = Catalog::refusing(1);
    let built = catalog.submit(StructBuilder::new("Empty").build());
    assert_eq!(built, Err(IDAError::CatalogFailure { call: CatalogCall::Finalize { ordinal: 1001 } }));
    assert!(!built.unwrap_err().is_local());
}

#[test]
fn same_configuration_submitted_twice_gives_two_ordinals() {
    let mut catalog = Catalog::new();
    let builder = StructBuilder::new("Twice").field("a", int32());
    let first = catalog.submit(builder.clone().build()).unwrap();
    let second = catalog.submit(builder.build()).unwrap();
    assert_ne!(first, second);
    assert_ne!(first.ordinal(), second.ordinal());
}

#[test]
fn clone_commits_the_same_operations() {
    let builder = StructBuilder::new("S")
        .field("a", int32())
        .field_at("b", FieldType::Existing(Type::from_ordinal(5)), 32)
        .self_ref("next")
        .unsigned_bitfield("flag", 3, 2);
    let mut first = Catalog::new();
    let mut second = Catalog::new();
    assert!(first.submit(builder.clone().build()).is_ok());
    assert!(second.submit(builder.build()).is_ok());
    assert_eq!(first.log, second.log);
    assert_eq!(first.log.len(), 10);
}

#[test]
fn running_offset_that_overflows_ends_the_submission() {
    let mut catalog = Catalog::new();
    catalog.sizes.insert(77, u64::MAX);
    let built = catalog.submit(
        StructBuilder::new("Huge")
            .field("a", int32())
            .field("b", FieldType::Existing(Type::from_ordinal(77)))
            .build(),
    );
    assert_eq!(built, Err(IDAError::LayoutOverflow));
    assert!(!IDAError::LayoutOverflow.is_local());
    assert_eq!(catalog.log.last(), Some(&CatalogCall::TypeSize { ordinal: 77 }));
}

#[test]
fn running_offset_may_reach_the_last_byte() {
    let mut catalog = Catalog::new();
    catalog.sizes.insert(77, u64::MAX);
    let built =
        catalog.submit(StructBuilder::new("Huge").field("b", FieldType::Existing(Type::from_ordinal(77))).build());
    assert!(built.is_ok());
}

#[test]
fn auto_members_count_from_zero() {
    let mut catalog = Catalog::new();
    let built = catalog.submit(
        EnumBuilder::new("Color", 4).auto_member("A").auto_member("B").auto_member("C").auto_member("D").build(),
    );
    assert_eq!(built, Ok(Type::from_ordinal(1001)));
    assert_eq!(
        member_values(&catalog.log),
        vec![("A".to_string(), 0), ("B".to_string(), 1), ("C".to_string(), 2), ("D".to_string(), 3)]
    );
    assert_eq!(catalog.log[0], CatalogCall::CreateEnum { name: "Color".to_string(), width: 4 });
    assert_eq!(catalog.log.last(), Some(&CatalogCall::Finalize { ordinal: 1001 }));
    assert_eq!(catalog.log.len(), 6);
}

#[test]
fn auto_member_follows_an_explicit_value() {
    let mut catalog = Catalog::new();
    let built = catalog.submit(EnumBuilder::new("E", 2).member("X", 100).auto_member("Y").build());
    assert!(built.is_ok());
    assert_eq!(member_values(&catalog.log), vec![("X".to_string(), 100), ("Y".to_string(), 101)]);
}

#[test]
fn auto_member_follows_a_negative_value_and_the_latest_member() {
    let mut catalog = Catalog::new();
    let built = catalog.submit(
        EnumBuilder::new("E", 8).member("N", -5).auto_member("M").member("Z", 7).auto_member("W").build(),
    );
    assert!(built.is_ok());
    let values: Vec<i64> = member_values(&catalog.log).into_iter().map(|(_, value)| value).collect();
    assert_eq!(values, vec![-5, -4, 7, 8]);
}

#[test]
fn auto_member_wraps_around_after_the_greatest_value() {
    let mut catalog = Catalog::new();
    let built = catalog.submit(EnumBuilder::new("E", 8).member("Top", i64::MAX).auto_member("Next").build());
    assert!(built.is_ok());
    let values: Vec<i64> = member_values(&catalog.log).into_iter().map(|(_, value)| value).collect();
    assert_eq!(values, vec![i64::MAX, i64::MIN]);
}

#[test]
fn auto_member_does_not_depend_on_the_width() {
    let mut catalog = Catalog::new();
    let built = catalog.submit(EnumBuilder::new("E", 1).member("Big", 1000).auto_member("Bigger").build());
    assert!(built.is_ok());
    let values: Vec<i64> = member_values(&catalog.log).into_iter().map(|(_, value)| value).collect();
    assert_eq!(values, vec![1000, 1001]);
}

#[test]
fn failing_enum_member_is_reported() {
    let mut catalog = Catalog::refusing(2);
    let built = catalog.submit(EnumBuilder::new("E", 4).auto_member("A").auto_member("B").auto_member("C").build());
    assert_eq!(
        built,
        Err(IDAError::CatalogFailure {
            call: CatalogCall::AddEnumMember { owner: 1001, name: "B".to_string(), value: 1 }
        })
    );
    assert_eq!(catalog.log.len(), 3);
}

#[test]
fn array_of_a_primitive_looks_the_element_up_first() {
    let mut catalog = Catalog::new();
    let built = catalog.submit(ArrayBuilder::new(int32(), 16).build());
    assert_eq!(built, Ok(Type::from_ordinal(1001)));
    assert_eq!(
        catalog.log,
        vec![
            lookup(PrimitiveType::Int32),
            CatalogCall::CreateArray { element: primitive(PrimitiveType::Int32), count: 16 },
        ]
    );
}

#[test]
fn array_of_a_committed_type_takes_one_operation() {
    let mut catalog = Catalog::new();
    let built = catalog.submit(ArrayBuilder::new(FieldType::Existing(Type::from_ordinal(42)), 3).build());
    assert!(built.is_ok());
    assert_eq!(catalog.log, vec![CatalogCall::CreateArray { element: 42, count: 3 }]);
}

#[test]
fn array_of_no_elements_is_accepted() {
    let mut catalog = Catalog::new();
    let built = catalog.submit(ArrayBuilder::new(int32(), 0).build());
    assert!(built.is_ok());
    assert_eq!(
        catalog.log.last(),
        Some(&CatalogCall::CreateArray { element: primitive(PrimitiveType::Int32), count: 0 })
    );
}

#[test]
fn array_over_a_name_is_rejected_before_any_operation() {
    let start = ArrayBuilder::new(FieldType::ForwardRef("Node".to_string()), 4).build();
    match start {
        Err(error) => {
            assert_eq!(error, IDAError::UnsupportedForwardRef { name: "Node".to_string() });
            assert!(error.is_local());
        }
        Ok(_) => panic!("a submission started"),
    }
}

#[test]
fn array_over_an_invalid_handle_is_rejected_before_any_operation() {
    let start = ArrayBuilder::new(FieldType::Existing(Type::from_ordinal(0)), 4).build();
    assert!(matches!(start, Err(IDAError::InvalidHandle)));
}

#[test]
fn array_fails_where_the_element_is_unknown_or_the_creation_fails() {
    let mut catalog = Catalog::refusing(0);
    let built = catalog.submit(ArrayBuilder::new(int32(), 4).build());
    assert_eq!(built, Err(IDAError::CatalogFailure { call: lookup(PrimitiveType::Int32) }));
    assert_eq!(catalog.log.len(), 1);

    let mut catalog = Catalog::refusing(1);
    let built = catalog.submit(ArrayBuilder::new(int32(), 4).build());
    assert_eq!(
        built,
        Err(IDAError::CatalogFailure {
            call: CatalogCall::CreateArray { element: primitive(PrimitiveType::Int32), count: 4 }
        })
    );
}

#[test]
fn pointer_to_a_primitive_looks_the_target_up_first() {
    let mut catalog = Catalog::new();
    let built = catalog.submit(PointerBuilder::new(FieldType::Primitive(PrimitiveType::Char)).build());
    assert_eq!(built, Ok(Type::from_ordinal(1001)));
    assert_eq!(
        catalog.log,
        vec![lookup(PrimitiveType::Char), CatalogCall::CreatePointer { target: primitive(PrimitiveType::Char) }]
    );
}

#[test]
fn pointer_over_a_name_or_an_invalid_handle_is_rejected_before_any_operation() {
    let start = PointerBuilder::new(FieldType::ForwardRef("Node".to_string())).build();
    assert!(matches!(start, Err(IDAError::UnsupportedForwardRef { name }) if name == "Node"));
    let start = PointerBuilder::new(FieldType::Existing(Type::from_ordinal(0))).build();
    assert!(matches!(start, Err(IDAError::InvalidHandle)));
}

#[test]
fn pointer_fails_where_the_catalog_refuses_it() {
    let mut catalog = Catalog::refusing(0);
    let built = catalog.submit(PointerBuilder::new(FieldType::Existing(Type::from_ordinal(9))).build());
    assert_eq!(built, Err(IDAError::CatalogFailure { call: CatalogCall::CreatePointer { target: 9 } }));
}

#[test]
fn function_without_a_return_type_returns_void() {
    let mut catalog = Catalog::new();
    let built = catalog.submit(FunctionBuilder::new().build());
    assert_eq!(built, Ok(Type::from_ordinal(1001)));
    assert_eq!(
        catalog.log,
        vec![
            CatalogCall::CreateFunction { return_type: 0, convention: 0x10, is_vararg: false },
            CatalogCall::SetFunctionAttributes { function: 1001, attributes: FunctionAttributes::default() },
            CatalogCall::Finalize { ordinal: 1001 },
        ]
    );
}

#[test]
fn function_commits_its_parts_in_order() {
    let mut catalog = Catalog::new();
    let this = Type::from_ordinal(55);
    let built = catalog.submit(
        FunctionBuilder::new()
            .returning(int32())
            .hidden_param("this", FieldType::Existing(this))
            .param("count", FieldType::Primitive(PrimitiveType::UInt32))
            .param("", FieldType::Primitive(PrimitiveType::Double))
            .param("", FieldType::Primitive(PrimitiveType::Double))
            .calling_convention(CallingConvention::Thiscall)
            .vararg(true)
            .virtual_func()
            .const_func()
            .build(),
    );
    assert_eq!(built, Ok(Type::from_ordinal(1001)));
    let attributes = FunctionAttributes {
        is_noreturn: false,
        is_pure: false,
        is_static: false,
        is_virtual: true,
        is_const: true,
        is_constructor: false,
        is_destructor: false,
    };
    let add = |name: &str, param_type: u32, is_hidden: bool| CatalogCall::AddParameter {
        function: 1001,
        name: name.to_string(),
        param_type,
        is_hidden,
    };
    assert_eq!(
        catalog.log,
        vec![
            lookup(PrimitiveType::Int32),
            CatalogCall::CreateFunction {
                return_type: primitive(PrimitiveType::Int32),
                convention: 0x80,
                is_vararg: true,
            },
            add("this", 55, true),
            lookup(PrimitiveType::UInt32),
            add("count", primitive(PrimitiveType::UInt32), false),
            lookup(PrimitiveType::Double),
            add("", primitive(PrimitiveType::Double), false),
            lookup(PrimitiveType::Double),
            add("", primitive(PrimitiveType::Double), false),
            CatalogCall::SetFunctionAttributes { function: 1001, attributes },
            CatalogCall::Finalize { ordinal: 1001 },
        ]
    );
}

#[test]
fn each_attribute_switches_on_its_own_flag() {
    let attributes_of = |builder: FunctionBuilder| {
        let mut catalog = Catalog::new();
        catalog.submit(builder.build()).unwrap();
        catalog
            .log
            .iter()
            .find_map(|call| match call {
                CatalogCall::SetFunctionAttributes { attributes, .. } => Some(*attributes),
                _ => None,
            })
            .unwrap()
    };
    let none = FunctionAttributes::default();
    assert_eq!(attributes_of(FunctionBuilder::new().noreturn()), FunctionAttributes { is_noreturn: true, ..none });
    assert_eq!(attributes_of(FunctionBuilder::new().pure_func()), FunctionAttributes { is_pure: true, ..none });
    assert_eq!(attributes_of(FunctionBuilder::new().static_func()), FunctionAttributes { is_static: true, ..none });
    assert_eq!(attributes_of(FunctionBuilder::new().virtual_func()), FunctionAttributes { is_virtual: true, ..none });
    assert_eq!(attributes_of(FunctionBuilder::new().const_func()), FunctionAttributes { is_const: true, ..none });
    assert_eq!(
        attributes_of(FunctionBuilder::new().constructor()),
        FunctionAttributes { is_constructor: true, ..none }
    );
    assert_eq!(
        attributes_of(FunctionBuilder::new().destructor()),
        FunctionAttributes { is_destructor: true, ..none }
    );
    assert_eq!(
        attributes_of(FunctionBuilder::new().noreturn().static_func().pure_func()),
        FunctionAttributes { is_noreturn: true, is_static: true, is_pure: true, ..none }
    );
}

#[test]
fn return_type_that_the_catalog_does_not_know_ends_the_submission() {
    let mut catalog = Catalog::new();
    catalog.void_is_known = false;
    let built = catalog.submit(FunctionBuilder::new().returning(FieldType::Primitive(PrimitiveType::Void)).build());
    assert_eq!(built, Err(IDAError::CatalogFailure { call: lookup(PrimitiveType::Void) }));
    assert_eq!(catalog.log, vec![lookup(PrimitiveType::Void)]);
    assert!(!catalog.log.iter().any(|call| matches!(call, CatalogCall::CreateFunction { .. })));

    let mut catalog = Catalog::refusing(0);
    let built = catalog.submit(FunctionBuilder::new().returning(int32()).param("a", int32()).build());
    assert_eq!(built, Err(IDAError::CatalogFailure { call: lookup(PrimitiveType::Int32) }));
    assert_eq!(catalog.log.len(), 1);
}

#[test]
fn return_type_that_the_catalog_knows_is_passed_on() {
    let mut catalog = Catalog::new();
    let built = catalog.submit(FunctionBuilder::new().returning(FieldType::Primitive(PrimitiveType::Void)).build());
    assert!(built.is_ok());
    assert_eq!(
        catalog.log[1],
        CatalogCall::CreateFunction {
            return_type: primitive(PrimitiveType::Void),
            convention: 0x10,
            is_vararg: false,
        }
    );
}

#[test]
fn return_type_by_handle_is_passed_as_it_is() {
    let mut catalog = Catalog::new();
    let built = catalog.submit(FunctionBuilder::new().returning(FieldType::Existing(Type::from_ordinal(31))).build());
    assert!(built.is_ok());
    assert_eq!(
        catalog.log[0],
        CatalogCall::CreateFunction { return_type: 31, convention: 0x10, is_vararg: false }
    );
}

#[test]
fn return_type_by_an_invalid_handle_is_rejected_before_any_operation() {
    let start = FunctionBuilder::new()
        .returning(FieldType::Existing(Type::from_ordinal(0)))
        .param("a", int32())
        .build();
    match start {
        Err(error) => {
            assert_eq!(error, IDAError::InvalidHandle);
            assert!(error.is_local());
        }
        Ok(_) => panic!("a submission started"),
    }
}

#[test]
fn return_type_by_name_is_rejected_before_any_operation() {
    let start = FunctionBuilder::new().returning(FieldType::ForwardRef("Node".to_string())).build();
    assert!(matches!(start, Err(IDAError::UnsupportedForwardRef { name }) if name == "Node"));
}

#[test]
fn parameter_by_name_is_rejected_before_any_operation() {
    let start = FunctionBuilder::new()
        .param("a", int32())
        .param("n", FieldType::ForwardRef("Node".to_string()))
        .build();
    match start {
        Err(error) => {
            assert_eq!(error, IDAError::UnsupportedForwardRef { name: "Node".to_string() });
            assert!(error.is_local());
        }
        Ok(_) => panic!("a submission started"),
    }
}

#[test]
fn return_type_is_looked_at_before_the_parameters() {
    let start = FunctionBuilder::new()
        .param("n", FieldType::ForwardRef("Node".to_string()))
        .returning(FieldType::Existing(Type::from_ordinal(0)))
        .build();
    assert!(matches!(start, Err(IDAError::InvalidHandle)));
    let start = FunctionBuilder::new()
        .param("h", FieldType::Existing(Type::from_ordinal(0)))
        .param("n", FieldType::ForwardRef("Node".to_string()))
        .build();
    assert!(matches!(start, Err(IDAError::InvalidHandle)));
}

#[test]
fn broken_rule_of_a_signature_is_reported_before_a_parameter_by_name() {
    let start = FunctionBuilder::new()
        .param("n", FieldType::ForwardRef("Node".to_string()))
        .constructor()
        .destructor()
        .build();
    assert!(matches!(start, Err(IDAError::ConflictingAttributes)));
}

#[test]
fn parameter_with_an_invalid_handle_is_rejected_before_any_operation() {
    let start = FunctionBuilder::new()
        .param("a", int32())
        .param("b", FieldType::Existing(Type::from_ordinal(0)))
        .build();
    assert!(matches!(start, Err(IDAError::InvalidHandle)));
}

#[test]
fn submission_reports_no_local_error() {
    for position in [0, 1, 2, 4, 5, 7, 8] {
        let mut catalog = Catalog::refusing(position);
        let built = catalog.submit(
            StructBuilder::new("S").field("a", int32()).self_ref("next").unsigned_bitfield("f", 0, 1).build(),
        );
        match built {
            Err(error) => assert!(!error.is_local()),
            Ok(_) => panic!("the catalog refused nothing"),
        }
        assert_eq!(catalog.log.len(), position + 1);
    }
}

#[test]
fn failing_attributes_are_reported() {
    let mut catalog = Catalog::refusing(1);
    let built = catalog.submit(FunctionBuilder::new().noreturn().build());
    let attributes = FunctionAttributes { is_noreturn: true, ..FunctionAttributes::default() };
    assert_eq!(
        built,
        Err(IDAError::CatalogFailure {
            call: CatalogCall::SetFunctionAttributes { function: 1001, attributes }
        })
    );
}

#[test]
fn custom_calling_convention_passes_its_code() {
    let mut catalog = Catalog::new();
    let built = catalog.submit(FunctionBuilder::new().calling_convention(CallingConvention::Custom(0xE0)).build());
    assert!(built.is_ok());
    assert_eq!(
        catalog.log[0],
        CatalogCall::CreateFunction { return_type: 0, convention: 0xE0, is_vararg: false }
    );
}

#[test]
fn function_pointer_takes_one_operation() {
    let mut catalog = Catalog::new();
    let function = catalog.submit(FunctionBuilder::new().build()).unwrap();
    let pointer = catalog.submit(FunctionPointerBuilder::new(function).build()).unwrap();
    assert_ne!(pointer, function);
    assert_eq!(catalog.log.last(), Some(&CatalogCall::CreateFunctionPointer { function: function.ordinal() }));
    assert_eq!(catalog.log.len(), 4);
}

#[test]
fn function_pointer_leaves_the_judgement_to_the_catalog() {
    let mut catalog = Catalog::refusing(0);
    let built = catalog.submit(FunctionPointerBuilder::new(Type::from_ordinal(0)).build());
    assert_eq!(
        built,
        Err(IDAError::CatalogFailure { call: CatalogCall::CreateFunctionPointer { function: 0 } })
    );
}

#[test]
fn primitive_becomes_a_handle_by_one_lookup() {
    let mut catalog = Catalog::new();
    let handle = catalog.run(PrimitiveType::Int64.to_type());
    assert_eq!(handle, Ok(Type::from_ordinal(primitive(PrimitiveType::Int64))));
    assert_eq!(catalog.log, vec![lookup(PrimitiveType::Int64)]);
}

#[test]
fn primitive_that_the_catalog_does_not_know_gives_no_handle() {
    let mut catalog = Catalog::refusing(0);
    let handle = catalog.run(PrimitiveType::Float.to_type());
    assert_eq!(handle, Err(IDAError::CatalogFailure { call: lookup(PrimitiveType::Float) }));
}

#[test]
fn answer_of_another_shape_reads_as_a_failure() {
    let submission = StructBuilder::new("S").build().unwrap();
    let call = submission.pending();
    assert_eq!(call.reply_kind(), ReplyKind::Ordinal);
    match submission.resume(CatalogReply::Status(true)) {
        Progress::Failed(error) => assert_eq!(error, IDAError::CatalogFailure { call }),
        _ => panic!("the submission went on"),
    }

    let submission = StructBuilder::new("S").build().unwrap();
    let submission = match submission.resume(CatalogReply::Ordinal(5)) {
        Progress::Pending(next) => next,
        _ => panic!("the submission ended"),
    };
    let call = submission.pending();
    assert_eq!(call, CatalogCall::Finalize { ordinal: 5 });
    assert_eq!(call.reply_kind(), ReplyKind::Status);
    match submission.resume(CatalogReply::Ordinal(1)) {
        Progress::Failed(error) => assert_eq!(error, IDAError::CatalogFailure { call }),
        _ => panic!("the submission went on"),
    }
}

#[test]
fn size_of_another_shape_reads_as_unknown() {
    let submission = StructBuilder::new("S").field("a", FieldType::Existing(Type::from_ordinal(3))).field("b", FieldType::Existing(Type::from_ordinal(3))).build().unwrap();
    let mut submission = match submission.resume(CatalogReply::Ordinal(5)) {
        Progress::Pending(next) => next,
        _ => panic!("the submission ended"),
    };
    assert_eq!(submission.pending(), add_field(5, "a", 3, 0));
    submission = match submission.resume(CatalogReply::Status(true)) {
        Progress::Pending(next) => next,
        _ => panic!("the submission ended"),
    };
    assert_eq!(submission.pending(), CatalogCall::TypeSize { ordinal: 3 });
    assert_eq!(submission.pending().reply_kind(), ReplyKind::Size);
    submission = match submission.resume(CatalogReply::Status(true)) {
        Progress::Pending(next) => next,
        _ => panic!("the submission ended"),
    };
    assert_eq!(submission.pending(), add_field(5, "b", 3, 8));
}

#[test]
fn completed_submission_hands_out_the_ordinal_of_the_catalog() {
    let submission = PointerBuilder::new(FieldType::Existing(Type::from_ordinal(7))).build().unwrap();
    assert_eq!(submission.pending(), CatalogCall::CreatePointer { target: 7 });
    match submission.resume(CatalogReply::Ordinal(4242)) {
        Progress::Complete(handle) => assert_eq!(handle.ordinal(), 4242),
        _ => panic!("the submission did not complete"),
    }
}

#[test]
fn short_names_make_the_same_builders() {
    let mut short = Catalog::new();
    let mut long = Catalog::new();
    assert!(short
        .submit(builders::struct_type("S").field("a", builders::int32().into()).build())
        .is_ok());
    assert!(long.submit(StructBuilder::new("S").field("a", int32()).build()).is_ok());
    assert_eq!(short.log, long.log);

    let mut short = Catalog::new();
    assert!(short.submit(builders::union_type("U").field("a", builders::int8().into()).build()).is_ok());
    assert_eq!(short.log[0], CatalogCall::CreateAggregate { name: "U".to_string(), is_union: true });

    let mut short = Catalog::new();
    assert!(short.submit(builders::enum_type("E", 2).auto_member("A").build()).is_ok());
    assert_eq!(short.log[0], CatalogCall::CreateEnum { name: "E".to_string(), width: 2 });

    let mut short = Catalog::new();
    assert!(short.submit(builders::array_type(builders::uint8().into(), 5).build()).is_ok());
    assert_eq!(short.log[1], CatalogCall::CreateArray { element: primitive(PrimitiveType::UInt8), count: 5 });

    let mut short = Catalog::new();
    assert!(short.submit(builders::pointer_type(builders::void().into()).build()).is_ok());
    assert_eq!(short.log[1], CatalogCall::CreatePointer { target: primitive(PrimitiveType::Void) });

    let mut short = Catalog::new();
    let function = short.submit(builders::function_type().build()).unwrap();
    assert!(short.submit(builders::function_pointer(function).build()).is_ok());
    assert_eq!(short.log.last(), Some(&CatalogCall::CreateFunctionPointer { function: function.ordinal() }));
}

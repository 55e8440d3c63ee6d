//! Laws relating classification, injection, narrowing and conversion of the value sets.
use vstd::prelude::*;

use vstd::std_specs::convert::FromSpec;

use crate::enums::{AggregateValueEnum, AnyValueEnum, BasicMetadataValueEnum, BasicValueEnum};
use crate::handle::{classified, kind_follows_type, value_kind_for, TypeKind, ValueKind, ValueRef};
use crate::types::{
    AnyTypeEnum, ArrayType, BasicTypeEnum, FloatType, FunctionType, IntType, PointerType, StructType,
    VectorType, VoidType,
};
use crate::values::{
    ArrayValue, FloatValue, FunctionValue, InstructionValue, IntValue, MetadataValue, PhiValue,
    PointerValue, StructValue, VectorValue,
};

verus! {

/// Two `AggregateValueEnum` values with the same held kind and the same referenced value are equal.
pub proof fn lemma_aggregate_view_injective(a: AggregateValueEnum, b: AggregateValueEnum)
    requires
        a@ == b@,
    ensures
        a == b,
{
    match (a, b) {
        (AggregateValueEnum::ArrayValue(x), AggregateValueEnum::ArrayValue(y)) => {
            ArrayValue::lemma_view_injective(x, y);
        },
        (AggregateValueEnum::StructValue(x), AggregateValueEnum::StructValue(y)) => {
            StructValue::lemma_view_injective(x, y);
        },
        _ => {},
    }
}

/// Classifying a value that `AggregateValueEnum` accepts gives the same set value as wrapping the
/// value in the wrapper of its kind and injecting that wrapper.
pub proof fn lemma_aggregate_classification_agrees_with_injection(value: ValueRef, c: AggregateValueEnum)
    requires
        AggregateValueEnum::accepts(value),
        c@ == classified(value),
    ensures
        forall|w: ArrayValue| w@ == value && classified(value).0 == ValueKind::Array
            ==> c == #[trigger] <AggregateValueEnum as FromSpec<ArrayValue>>::from_spec(w),
        forall|w: StructValue| w@ == value && classified(value).0 == ValueKind::Struct
            ==> c == #[trigger] <AggregateValueEnum as FromSpec<StructValue>>::from_spec(w),
{
    assert forall|w: ArrayValue| w@ == value && classified(value).0 == ValueKind::Array implies c
        == <AggregateValueEnum as FromSpec<ArrayValue>>::from_spec(w) by {
        lemma_aggregate_view_injective(c, AggregateValueEnum::ArrayValue(w));
    }
    assert forall|w: StructValue| w@ == value && classified(value).0 == ValueKind::Struct implies c
        == <AggregateValueEnum as FromSpec<StructValue>>::from_spec(w) by {
        lemma_aggregate_view_injective(c, AggregateValueEnum::StructValue(w));
    }
}

/// Exactly one kind predicate holds of an `AggregateValueEnum` value, and for a well-formed value
/// whose kind follows its type, it is the kind that the referenced value's type calls for.
pub proof fn lemma_aggregate_tag_exclusive(v: AggregateValueEnum)
    ensures
        (if v is ArrayValue { 1int } else { 0int })
            + (if v is StructValue { 1int } else { 0int }) == 1,
        v.wf() && kind_follows_type(v@.0) ==> value_kind_for(v@.1.ty.kind) == Some(v@.0),
{
}

/// Injecting a wrapper into `AggregateValueEnum` and narrowing back to the wrapper's kind gives the
/// same wrapper; the injected value holds that kind and references the wrapper's value.
pub proof fn lemma_aggregate_narrowing_round_trip()
    ensures
        forall|w: ArrayValue|
            {
                let v = #[trigger] <AggregateValueEnum as FromSpec<ArrayValue>>::from_spec(w);
                &&& v is ArrayValue
                &&& v->ArrayValue_0 == w
                &&& v@ == (ValueKind::Array, w@)
            },
        forall|w: StructValue|
            {
                let v = #[trigger] <AggregateValueEnum as FromSpec<StructValue>>::from_spec(w);
                &&& v is StructValue
                &&& v->StructValue_0 == w
                &&& v@ == (ValueKind::Struct, w@)
            },
{
}

/// Two `AnyValueEnum` values with the same held kind and the same referenced value are equal.
pub proof fn lemma_any_view_injective(a: AnyValueEnum, b: AnyValueEnum)
    requires
        a@ == b@,
    ensures
        a == b,
{
    match (a, b) {
        (AnyValueEnum::ArrayValue(x), AnyValueEnum::ArrayValue(y)) => {
            ArrayValue::lemma_view_injective(x, y);
        },
        (AnyValueEnum::IntValue(x), AnyValueEnum::IntValue(y)) => {
            IntValue::lemma_view_injective(x, y);
        },
        (AnyValueEnum::FloatValue(x), AnyValueEnum::FloatValue(y)) => {
            FloatValue::lemma_view_injective(x, y);
        },
        (AnyValueEnum::PhiValue(x), AnyValueEnum::PhiValue(y)) => {
            PhiValue::lemma_view_injective(x, y);
        },
        (AnyValueEnum::FunctionValue(x), AnyValueEnum::FunctionValue(y)) => {
            FunctionValue::lemma_view_injective(x, y);
        },
        (AnyValueEnum::PointerValue(x), AnyValueEnum::PointerValue(y)) => {
            PointerValue::lemma_view_injective(x, y);
        },
        (AnyValueEnum::StructValue(x), AnyValueEnum::StructValue(y)) => {
            StructValue::lemma_view_injective(x, y);
        },
        (AnyValueEnum::VectorValue(x), AnyValueEnum::VectorValue(y)) => {
            VectorValue::lemma_view_injective(x, y);
        },
        (AnyValueEnum::InstructionValue(x), AnyValueEnum::InstructionValue(y)) => {
            InstructionValue::lemma_view_injective(x, y);
        },
        _ => {},
    }
}

/// Classifying a value that `AnyValueEnum` accepts gives the same set value as wrapping the value
/// in the wrapper of its kind and injecting that wrapper.
pub proof fn lemma_any_classification_agrees_with_injection(value: ValueRef, c: AnyValueEnum)
    requires
        AnyValueEnum::accepts(value),
        c@ == classified(value),
    ensures
        forall|w: ArrayValue| w@ == value && classified(value).0 == ValueKind::Array
            ==> c == #[trigger] <AnyValueEnum as FromSpec<ArrayValue>>::from_spec(w),
        forall|w: IntValue| w@ == value && classified(value).0 == ValueKind::Int
            ==> c == #[trigger] <AnyValueEnum as FromSpec<IntValue>>::from_spec(w),
        forall|w: FloatValue| w@ == value && classified(value).0 == ValueKind::Float
            ==> c == #[trigger] <AnyValueEnum as FromSpec<FloatValue>>::from_spec(w),
        forall|w: FunctionValue| w@ == value && classified(value).0 == ValueKind::Function
            ==> c == #[trigger] <AnyValueEnum as FromSpec<FunctionValue>>::from_spec(w),
        forall|w: PointerValue| w@ == value && classified(value).0 == ValueKind::Pointer
            ==> c == #[trigger] <AnyValueEnum as FromSpec<PointerValue>>::from_spec(w),
        forall|w: StructValue| w@ == value && classified(value).0 == ValueKind::Struct
            ==> c == #[trigger] <AnyValueEnum as FromSpec<StructValue>>::from_spec(w),
        forall|w: VectorValue| w@ == value && classified(value).0 == ValueKind::Vector
            ==> c == #[trigger] <AnyValueEnum as FromSpec<VectorValue>>::from_spec(w),
{
    assert forall|w: ArrayValue| w@ == value && classified(value).0 == ValueKind::Array implies c
        == <AnyValueEnum as FromSpec<ArrayValue>>::from_spec(w) by {
        lemma_any_view_injective(c, AnyValueEnum::ArrayValue(w));
    }
    assert forall|w: IntValue| w@ == value && classified(value).0 == ValueKind::Int implies c
        == <AnyValueEnum as FromSpec<IntValue>>::from_spec(w) by {
        lemma_any_view_injective(c, AnyValueEnum::IntValue(w));
    }
    assert forall|w: FloatValue| w@ == value && classified(value).0 == ValueKind::Float implies c
        == <AnyValueEnum as FromSpec<FloatValue>>::from_spec(w) by {
        lemma_any_view_injective(c, AnyValueEnum::FloatValue(w));
    }
    assert forall|w: FunctionValue| w@ == value && classified(value).0 == ValueKind::Function implies c
        == <AnyValueEnum as FromSpec<FunctionValue>>::from_spec(w) by {
        lemma_any_view_injective(c, AnyValueEnum::FunctionValue(w));
    }
    assert forall|w: PointerValue| w@ == value && classified(value).0 == ValueKind::Pointer implies c
        == <AnyValueEnum as FromSpec<PointerValue>>::from_spec(w) by {
        lemma_any_view_injective(c, AnyValueEnum::PointerValue(w));
    }
    assert forall|w: StructValue| w@ == value && classified(value).0 == ValueKind::Struct implies c
        == <AnyValueEnum as FromSpec<StructValue>>::from_spec(w) by {
        lemma_any_view_injective(c, AnyValueEnum::StructValue(w));
    }
    assert forall|w: VectorValue| w@ == value && classified(value).0 == ValueKind::Vector implies c
        == <AnyValueEnum as FromSpec<VectorValue>>::from_spec(w) by {
        lemma_any_view_injective(c, AnyValueEnum::VectorValue(w));
    }
}

/// Exactly one kind predicate holds of an `AnyValueEnum` value, and for a well-formed value whose
/// kind follows its type, it is the kind that the referenced value's type calls for.
pub proof fn lemma_any_tag_exclusive(v: AnyValueEnum)
    ensures
        (if v is ArrayValue { 1int } else { 0int })
            + (if v is IntValue { 1int } else { 0int })
            + (if v is FloatValue { 1int } else { 0int })
            + (if v is PhiValue { 1int } else { 0int })
            + (if v is FunctionValue { 1int } else { 0int })
            + (if v is PointerValue { 1int } else { 0int })
            + (if v is StructValue { 1int } else { 0int })
            + (if v is VectorValue { 1int } else { 0int })
            + (if v is InstructionValue { 1int } else { 0int }) == 1,
        v.wf() && kind_follows_type(v@.0) ==> value_kind_for(v@.1.ty.kind) == Some(v@.0),
{
}

/// Injecting a wrapper into `AnyValueEnum` and narrowing back to the wrapper's kind gives the same
/// wrapper; the injected value holds that kind and references the wrapper's value.
pub proof fn lemma_any_narrowing_round_trip()
    ensures
        forall|w: ArrayValue|
            {
                let v = #[trigger] <AnyValueEnum as FromSpec<ArrayValue>>::from_spec(w);
                &&& v is ArrayValue
                &&& v->ArrayValue_0 == w
                &&& v@ == (ValueKind::Array, w@)
            },
        forall|w: IntValue|
            {
                let v = #[trigger] <AnyValueEnum as FromSpec<IntValue>>::from_spec(w);
                &&& v is IntValue
                &&& v->IntValue_0 == w
                &&& v@ == (ValueKind::Int, w@)
            },
        forall|w: FloatValue|
            {
                let v = #[trigger] <AnyValueEnum as FromSpec<FloatValue>>::from_spec(w);
                &&& v is FloatValue
                &&& v->FloatValue_0 == w
                &&& v@ == (ValueKind::Float, w@)
            },
        forall|w: PhiValue|
            {
                let v = #[trigger] <AnyValueEnum as FromSpec<PhiValue>>::from_spec(w);
                &&& v is PhiValue
                &&& v->PhiValue_0 == w
                &&& v@ == (ValueKind::Phi, w@)
            },
        forall|w: FunctionValue|
            {
                let v = #[trigger] <AnyValueEnum as FromSpec<FunctionValue>>::from_spec(w);
                &&& v is FunctionValue
                &&& v->FunctionValue_0 == w
                &&& v@ == (ValueKind::Function, w@)
            },
        forall|w: PointerValue|
            {
                let v = #[trigger] <AnyValueEnum as FromSpec<PointerValue>>::from_spec(w);
                &&& v is PointerValue
                &&& v->PointerValue_0 == w
                &&& v@ == (ValueKind::Pointer, w@)
            },
        forall|w: StructValue|
            {
                let v = #[trigger] <AnyValueEnum as FromSpec<StructValue>>::from_spec(w);
                &&& v is StructValue
                &&& v->StructValue_0 == w
                &&& v@ == (ValueKind::Struct, w@)
            },
        forall|w: VectorValue|
            {
                let v = #[trigger] <AnyValueEnum as FromSpec<VectorValue>>::from_spec(w);
                &&& v is VectorValue
                &&& v->VectorValue_0 == w
                &&& v@ == (ValueKind::Vector, w@)
            },
        forall|w: InstructionValue|
            {
                let v = #[trigger] <AnyValueEnum as FromSpec<InstructionValue>>::from_spec(w);
                &&& v is InstructionValue
                &&& v->InstructionValue_0 == w
                &&& v@ == (ValueKind::Instruction, w@)
            },
{
}

/// Two `BasicValueEnum` values with the same held kind and the same referenced value are equal.
pub proof fn lemma_basic_view_injective(a: BasicValueEnum, b: BasicValueEnum)
    requires
        a@ == b@,
    ensures
        a == b,
{
    match (a, b) {
        (BasicValueEnum::ArrayValue(x), BasicValueEnum::ArrayValue(y)) => {
            ArrayValue::lemma_view_injective(x, y);
        },
        (BasicValueEnum::IntValue(x), BasicValueEnum::IntValue(y)) => {
            IntValue::lemma_view_injective(x, y);
        },
        (BasicValueEnum::FloatValue(x), BasicValueEnum::FloatValue(y)) => {
            FloatValue::lemma_view_injective(x, y);
        },
        (BasicValueEnum::PointerValue(x), BasicValueEnum::PointerValue(y)) => {
            PointerValue::lemma_view_injective(x, y);
        },
        (BasicValueEnum::StructValue(x), BasicValueEnum::StructValue(y)) => {
            StructValue::lemma_view_injective(x, y);
        },
        (BasicValueEnum::VectorValue(x), BasicValueEnum::VectorValue(y)) => {
            VectorValue::lemma_view_injective(x, y);
        },
        _ => {},
    }
}

/// Classifying a value that `BasicValueEnum` accepts gives the same set value as wrapping the value
/// in the wrapper of its kind and injecting that wrapper.
pub proof fn lemma_basic_classification_agrees_with_injection(value: ValueRef, c: BasicValueEnum)
    requires
        BasicValueEnum::accepts(value),
        c@ == classified(value),
    ensures
        forall|w: ArrayValue| w@ == value && classified(value).0 == ValueKind::Array
            ==> c == #[trigger] <BasicValueEnum as FromSpec<ArrayValue>>::from_spec(w),
        forall|w: IntValue| w@ == value && classified(value).0 == ValueKind::Int
            ==> c == #[trigger] <BasicValueEnum as FromSpec<IntValue>>::from_spec(w),
        forall|w: FloatValue| w@ == value && classified(value).0 == ValueKind::Float
            ==> c == #[trigger] <BasicValueEnum as FromSpec<FloatValue>>::from_spec(w),
        forall|w: PointerValue| w@ == value && classified(value).0 == ValueKind::Pointer
            ==> c == #[trigger] <BasicValueEnum as FromSpec<PointerValue>>::from_spec(w),
        forall|w: StructValue| w@ == value && classified(value).0 == ValueKind::Struct
            ==> c == #[trigger] <BasicValueEnum as FromSpec<StructValue>>::from_spec(w),
        forall|w: VectorValue| w@ == value && classified(value).0 == ValueKind::Vector
            ==> c == #[trigger] <BasicValueEnum as FromSpec<VectorValue>>::from_spec(w),
{
    assert forall|w: ArrayValue| w@ == value && classified(value).0 == ValueKind::Array implies c
        == <BasicValueEnum as FromSpec<ArrayValue>>::from_spec(w) by {
        lemma_basic_view_injective(c, BasicValueEnum::ArrayValue(w));
    }
    assert forall|w: IntValue| w@ == value && classified(value).0 == ValueKind::Int implies c
        == <BasicValueEnum as FromSpec<IntValue>>::from_spec(w) by {
        lemma_basic_view_injective(c, BasicValueEnum::IntValue(w));
    }
    assert forall|w: FloatValue| w@ == value && classified(value).0 == ValueKind::Float implies c
        == <BasicValueEnum as FromSpec<FloatValue>>::from_spec(w) by {
        lemma_basic_view_injective(c, BasicValueEnum::FloatValue(w));
    }
    assert forall|w: PointerValue| w@ == value && classified(value).0 == ValueKind::Pointer implies c
        == <BasicValueEnum as FromSpec<PointerValue>>::from_spec(w) by {
        lemma_basic_view_injective(c, BasicValueEnum::PointerValue(w));
    }
    assert forall|w: StructValue| w@ == value && classified(value).0 == ValueKind::Struct implies c
        == <BasicValueEnum as FromSpec<StructValue>>::from_spec(w) by {
        lemma_basic_view_injective(c, BasicValueEnum::StructValue(w));
    }
    assert forall|w: VectorValue| w@ == value && classified(value).0 == ValueKind::Vector implies c
        == <BasicValueEnum as FromSpec<VectorValue>>::from_spec(w) by {
        lemma_basic_view_injective(c, BasicValueEnum::VectorValue(w));
    }
}

/// Exactly one kind predicate holds of an `BasicValueEnum` value, and for a well-formed value whose
/// kind follows its type, it is the kind that the referenced value's type calls for.
pub proof fn lemma_basic_tag_exclusive(v: BasicValueEnum)
    ensures
        (if v is ArrayValue { 1int } else { 0int })
            + (if v is IntValue { 1int } else { 0int })
            + (if v is FloatValue { 1int } else { 0int })
            + (if v is PointerValue { 1int } else { 0int })
            + (if v is StructValue { 1int } else { 0int })
            + (if v is VectorValue { 1int } else { 0int }) == 1,
        v.wf() && kind_follows_type(v@.0) ==> value_kind_for(v@.1.ty.kind) == Some(v@.0),
{
}

/// Injecting a wrapper into `BasicValueEnum` and narrowing back to the wrapper's kind gives the
/// same wrapper; the injected value holds that kind and references the wrapper's value.
pub proof fn lemma_basic_narrowing_round_trip()
    ensures
        forall|w: ArrayValue|
            {
                let v = #[trigger] <BasicValueEnum as FromSpec<ArrayValue>>::from_spec(w);
                &&& v is ArrayValue
                &&& v->ArrayValue_0 == w
                &&& v@ == (ValueKind::Array, w@)
            },
        forall|w: IntValue|
            {
                let v = #[trigger] <BasicValueEnum as FromSpec<IntValue>>::from_spec(w);
                &&& v is IntValue
                &&& v->IntValue_0 == w
                &&& v@ == (ValueKind::Int, w@)
            },
        forall|w: FloatValue|
            {
                let v = #[trigger] <BasicValueEnum as FromSpec<FloatValue>>::from_spec(w);
                &&& v is FloatValue
                &&& v->FloatValue_0 == w
                &&& v@ == (ValueKind::Float, w@)
            },
        forall|w: PointerValue|
            {
                let v = #[trigger] <BasicValueEnum as FromSpec<PointerValue>>::from_spec(w);
                &&& v is PointerValue
                &&& v->PointerValue_0 == w
                &&& v@ == (ValueKind::Pointer, w@)
            },
        forall|w: StructValue|
            {
                let v = #[trigger] <BasicValueEnum as FromSpec<StructValue>>::from_spec(w);
                &&& v is StructValue
                &&& v->StructValue_0 == w
                &&& v@ == (ValueKind::Struct, w@)
            },
        forall|w: VectorValue|
            {
                let v = #[trigger] <BasicValueEnum as FromSpec<VectorValue>>::from_spec(w);
                &&& v is VectorValue
                &&& v->VectorValue_0 == w
                &&& v@ == (ValueKind::Vector, w@)
            },
{
}

/// Two `BasicMetadataValueEnum` values with the same held kind and the same referenced value are
/// equal.
pub proof fn lemma_basic_metadata_view_injective(a: BasicMetadataValueEnum, b: BasicMetadataValueEnum)
    requires
        a@ == b@,
    ensures
        a == b,
{
    match (a, b) {
        (BasicMetadataValueEnum::ArrayValue(x), BasicMetadataValueEnum::ArrayValue(y)) => {
            ArrayValue::lemma_view_injective(x, y);
        },
        (BasicMetadataValueEnum::IntValue(x), BasicMetadataValueEnum::IntValue(y)) => {
            IntValue::lemma_view_injective(x, y);
        },
        (BasicMetadataValueEnum::FloatValue(x), BasicMetadataValueEnum::FloatValue(y)) => {
            FloatValue::lemma_view_injective(x, y);
        },
        (BasicMetadataValueEnum::PointerValue(x), BasicMetadataValueEnum::PointerValue(y)) => {
            PointerValue::lemma_view_injective(x, y);
        },
        (BasicMetadataValueEnum::StructValue(x), BasicMetadataValueEnum::StructValue(y)) => {
            StructValue::lemma_view_injective(x, y);
        },
        (BasicMetadataValueEnum::VectorValue(x), BasicMetadataValueEnum::VectorValue(y)) => {
            VectorValue::lemma_view_injective(x, y);
        },
        (BasicMetadataValueEnum::MetadataValue(x), BasicMetadataValueEnum::MetadataValue(y)) => {
            MetadataValue::lemma_view_injective(x, y);
        },
        _ => {},
    }
}

/// Classifying a value that `BasicMetadataValueEnum` accepts gives the same set value as wrapping
/// the value in the wrapper of its kind and injecting that wrapper.
pub proof fn lemma_basic_metadata_classification_agrees_with_injection(value: ValueRef, c: BasicMetadataValueEnum)
    requires
        BasicMetadataValueEnum::accepts(value),
        c@ == classified(value),
    ensures
        forall|w: ArrayValue| w@ == value && classified(value).0 == ValueKind::Array
            ==> c == #[trigger] <BasicMetadataValueEnum as FromSpec<ArrayValue>>::from_spec(w),
        forall|w: IntValue| w@ == value && classified(value).0 == ValueKind::Int
            ==> c == #[trigger] <BasicMetadataValueEnum as FromSpec<IntValue>>::from_spec(w),
        forall|w: FloatValue| w@ == value && classified(value).0 == ValueKind::Float
            ==> c == #[trigger] <BasicMetadataValueEnum as FromSpec<FloatValue>>::from_spec(w),
        forall|w: PointerValue| w@ == value && classified(value).0 == ValueKind::Pointer
            ==> c == #[trigger] <BasicMetadataValueEnum as FromSpec<PointerValue>>::from_spec(w),
        forall|w: StructValue| w@ == value && classified(value).0 == ValueKind::Struct
            ==> c == #[trigger] <BasicMetadataValueEnum as FromSpec<StructValue>>::from_spec(w),
        forall|w: VectorValue| w@ == value && classified(value).0 == ValueKind::Vector
            ==> c == #[trigger] <BasicMetadataValueEnum as FromSpec<VectorValue>>::from_spec(w),
        forall|w: MetadataValue| w@ == value && classified(value).0 == ValueKind::Metadata
            ==> c == #[trigger] <BasicMetadataValueEnum as FromSpec<MetadataValue>>::from_spec(w),
{
    assert forall|w: ArrayValue| w@ == value && classified(value).0 == ValueKind::Array implies c
        == <BasicMetadataValueEnum as FromSpec<ArrayValue>>::from_spec(w) by {
        lemma_basic_metadata_view_injective(c, BasicMetadataValueEnum::ArrayValue(w));
    }
    assert forall|w: IntValue| w@ == value && classified(value).0 == ValueKind::Int implies c
        == <BasicMetadataValueEnum as FromSpec<IntValue>>::from_spec(w) by {
        lemma_basic_metadata_view_injective(c, BasicMetadataValueEnum::IntValue(w));
    }
    assert forall|w: FloatValue| w@ == value && classified(value).0 == ValueKind::Float implies c
        == <BasicMetadataValueEnum as FromSpec<FloatValue>>::from_spec(w) by {
        lemma_basic_metadata_view_injective(c, BasicMetadataValueEnum::FloatValue(w));
    }
    assert forall|w: PointerValue| w@ == value && classified(value).0 == ValueKind::Pointer implies c
        == <BasicMetadataValueEnum as FromSpec<PointerValue>>::from_spec(w) by {
        lemma_basic_metadata_view_injective(c, BasicMetadataValueEnum::PointerValue(w));
    }
    assert forall|w: StructValue| w@ == value && classified(value).0 == ValueKind::Struct implies c
        == <BasicMetadataValueEnum as FromSpec<StructValue>>::from_spec(w) by {
        lemma_basic_metadata_view_injective(c, BasicMetadataValueEnum::StructValue(w));
    }
    assert forall|w: VectorValue| w@ == value && classified(value).0 == ValueKind::Vector implies c
        == <BasicMetadataValueEnum as FromSpec<VectorValue>>::from_spec(w) by {
        lemma_basic_metadata_view_injective(c, BasicMetadataValueEnum::VectorValue(w));
    }
    assert forall|w: MetadataValue| w@ == value && classified(value).0 == ValueKind::Metadata implies c
        == <BasicMetadataValueEnum as FromSpec<MetadataValue>>::from_spec(w) by {
        lemma_basic_metadata_view_injective(c, BasicMetadataValueEnum::MetadataValue(w));
    }
}

/// Exactly one kind predicate holds of an `BasicMetadataValueEnum` value, and for a well-formed
/// value whose kind follows its type, it is the kind that the referenced value's type calls for.
pub proof fn lemma_basic_metadata_tag_exclusive(v: BasicMetadataValueEnum)
    ensures
        (if v is ArrayValue { 1int } else { 0int })
            + (if v is IntValue { 1int } else { 0int })
            + (if v is FloatValue { 1int } else { 0int })
            + (if v is PointerValue { 1int } else { 0int })
            + (if v is StructValue { 1int } else { 0int })
            + (if v is VectorValue { 1int } else { 0int })
            + (if v is MetadataValue { 1int } else { 0int }) == 1,
        v.wf() && kind_follows_type(v@.0) ==> value_kind_for(v@.1.ty.kind) == Some(v@.0),
{
}

/// Injecting a wrapper into `BasicMetadataValueEnum` and narrowing back to the wrapper's kind gives
/// the same wrapper; the injected value holds that kind and references the wrapper's value.
pub proof fn lemma_basic_metadata_narrowing_round_trip()
    ensures
        forall|w: ArrayValue|
            {
                let v = #[trigger] <BasicMetadataValueEnum as FromSpec<ArrayValue>>::from_spec(w);
                &&& v is ArrayValue
                &&& v->ArrayValue_0 == w
                &&& v@ == (ValueKind::Array, w@)
            },
        forall|w: IntValue|
            {
                let v = #[trigger] <BasicMetadataValueEnum as FromSpec<IntValue>>::from_spec(w);
                &&& v is IntValue
                &&& v->IntValue_0 == w
                &&& v@ == (ValueKind::Int, w@)
            },
        forall|w: FloatValue|
            {
                let v = #[trigger] <BasicMetadataValueEnum as FromSpec<FloatValue>>::from_spec(w);
                &&& v is FloatValue
                &&& v->FloatValue_0 == w
                &&& v@ == (ValueKind::Float, w@)
            },
        forall|w: PointerValue|
            {
                let v = #[trigger] <BasicMetadataValueEnum as FromSpec<PointerValue>>::from_spec(w);
                &&& v is PointerValue
                &&& v->PointerValue_0 == w
                &&& v@ == (ValueKind::Pointer, w@)
            },
        forall|w: StructValue|
            {
                let v = #[trigger] <BasicMetadataValueEnum as FromSpec<StructValue>>::from_spec(w);
                &&& v is StructValue
                &&& v->StructValue_0 == w
                &&& v@ == (ValueKind::Struct, w@)
            },
        forall|w: VectorValue|
            {
                let v = #[trigger] <BasicMetadataValueEnum as FromSpec<VectorValue>>::from_spec(w);
                &&& v is VectorValue
                &&& v->VectorValue_0 == w
                &&& v@ == (ValueKind::Vector, w@)
            },
        forall|w: MetadataValue|
            {
                let v = #[trigger] <BasicMetadataValueEnum as FromSpec<MetadataValue>>::from_spec(w);
                &&& v is MetadataValue
                &&& v->MetadataValue_0 == w
                &&& v@ == (ValueKind::Metadata, w@)
            },
{
}

/// Converting a `BasicValueEnum` into an `AnyValueEnum` never fails: the result holds the same kind
/// and references the same value, and it is well formed where the source is.
pub proof fn lemma_basic_into_any(v: BasicValueEnum)
    ensures
        AnyValueEnum::has_member(v@.0),
        <AnyValueEnum as FromSpec<BasicValueEnum>>::from_spec(v)@ == v@,
        v.wf() ==> <AnyValueEnum as FromSpec<BasicValueEnum>>::from_spec(v).wf(),
{
}

/// No value set classifies a void-typed value: each set's classification refuses it.
pub proof fn lemma_void_is_never_classified(value: ValueRef)
    requires
        value.ty.kind == TypeKind::Void,
    ensures
        !AnyValueEnum::accepts(value),
        !BasicValueEnum::accepts(value),
        !AggregateValueEnum::accepts(value),
        !BasicMetadataValueEnum::accepts(value),
{
}

/// A metadata-typed value is refused by `BasicValueEnum` (and `AnyValueEnum`) but accepted by
/// `BasicMetadataValueEnum`, which classifies it as metadata.
pub proof fn lemma_metadata_is_basic_metadata_only(value: ValueRef)
    requires
        value.ty.kind == TypeKind::Metadata,
    ensures
        !BasicValueEnum::accepts(value),
        !AnyValueEnum::accepts(value),
        !AggregateValueEnum::accepts(value),
        BasicMetadataValueEnum::accepts(value),
        classified(value) == (ValueKind::Metadata, value),
{
}

/// Two `AnyTypeEnum` values that each hold the wrapper of their type's kind and reference the same
/// type are equal; so the type that `get_type` gives is `AnyTypeEnum::new` of the value's type.
pub proof fn lemma_any_type_view_injective(a: AnyTypeEnum, b: AnyTypeEnum)
    requires
        a@ == b@,
        a.fits(),
        b.fits(),
    ensures
        a == b,
{
    match (a, b) {
        (AnyTypeEnum::ArrayType(x), AnyTypeEnum::ArrayType(y)) => {
            ArrayType::lemma_view_injective(x, y);
        },
        (AnyTypeEnum::FloatType(x), AnyTypeEnum::FloatType(y)) => {
            FloatType::lemma_view_injective(x, y);
        },
        (AnyTypeEnum::FunctionType(x), AnyTypeEnum::FunctionType(y)) => {
            FunctionType::lemma_view_injective(x, y);
        },
        (AnyTypeEnum::IntType(x), AnyTypeEnum::IntType(y)) => {
            IntType::lemma_view_injective(x, y);
        },
        (AnyTypeEnum::PointerType(x), AnyTypeEnum::PointerType(y)) => {
            PointerType::lemma_view_injective(x, y);
        },
        (AnyTypeEnum::StructType(x), AnyTypeEnum::StructType(y)) => {
            StructType::lemma_view_injective(x, y);
        },
        (AnyTypeEnum::VectorType(x), AnyTypeEnum::VectorType(y)) => {
            VectorType::lemma_view_injective(x, y);
        },
        (AnyTypeEnum::VoidType(x), AnyTypeEnum::VoidType(y)) => {
            VoidType::lemma_view_injective(x, y);
        },
        _ => {},
    }
}

/// Two `BasicTypeEnum` values that each hold the wrapper of their type's kind and reference the
/// same type are equal; so the type that `get_type` gives is `BasicTypeEnum::new` of the value's
/// type.
pub proof fn lemma_basic_type_view_injective(a: BasicTypeEnum, b: BasicTypeEnum)
    requires
        a@ == b@,
        a.fits(),
        b.fits(),
    ensures
        a == b,
{
    match (a, b) {
        (BasicTypeEnum::ArrayType(x), BasicTypeEnum::ArrayType(y)) => {
            ArrayType::lemma_view_injective(x, y);
        },
        (BasicTypeEnum::FloatType(x), BasicTypeEnum::FloatType(y)) => {
            FloatType::lemma_view_injective(x, y);
        },
        (BasicTypeEnum::IntType(x), BasicTypeEnum::IntType(y)) => {
            IntType::lemma_view_injective(x, y);
        },
        (BasicTypeEnum::PointerType(x), BasicTypeEnum::PointerType(y)) => {
            PointerType::lemma_view_injective(x, y);
        },
        (BasicTypeEnum::StructType(x), BasicTypeEnum::StructType(y)) => {
            StructType::lemma_view_injective(x, y);
        },
        (BasicTypeEnum::VectorType(x), BasicTypeEnum::VectorType(y)) => {
            VectorType::lemma_view_injective(x, y);
        },
        _ => {},
    }
}

} // verus!

//! The value sets: closed tagged unions over the concrete wrappers, with classification
//! of native values, forwarding of identity access, and conversions.
use vstd::prelude::*;

use crate::handle::{classifiable, classified, TypeKind, ValueKind, ValueRef};
use crate::types::{AnyTypeEnum, BasicTypeEnum};
use crate::values::{
    ArrayValue, FloatValue, FunctionValue, InstructionValue, IntValue, MetadataValue, PhiValue,
    PointerValue, StructValue, VectorValue,
};

verus! {

/// Values of aggregate type: arrays and structs.
///
/// Exactly one wrapper is held at a time; the value references a native value and never
/// owns it.
#[derive(Clone, Copy, Debug, PartialEq, Eq)]
pub enum AggregateValueEnum {
    ArrayValue(ArrayValue),
    StructValue(StructValue),
}

impl View for AggregateValueEnum {
    /// The kind of the held wrapper, and the native value it references.
    type V = (ValueKind, ValueRef);

    open spec fn view(&self) -> (ValueKind, ValueRef) {
        match *self {
            AggregateValueEnum::ArrayValue(v) => (ValueKind::Array, v@),
            AggregateValueEnum::StructValue(v) => (ValueKind::Struct, v@),
        }
    }
}

impl AggregateValueEnum {
    /// Whether the set has a member of kind `k`.
    pub open spec fn has_member(k: ValueKind) -> bool {
        ||| k == ValueKind::Array
        ||| k == ValueKind::Struct
    }

    /// The native values that classification into this set accepts.
    pub open spec fn accepts(value: ValueRef) -> bool {
        classifiable(value, |k: ValueKind| Self::has_member(k))
    }

    /// The held wrapper references a value that it accepts.
    pub open spec fn wf(self) -> bool {
        match self {
            AggregateValueEnum::ArrayValue(v) => ArrayValue::accepts(v@),
            AggregateValueEnum::StructValue(v) => StructValue::accepts(v@),
        }
    }

    /// Classifies a native value by the kind of its type, or gives `None` where the set has
    /// no member for that kind.
    pub fn try_new(value: ValueRef) -> (r: Option<Self>)
        ensures
            r is Some <==> Self::accepts(value),
            r is Some ==> r->0@ == classified(value) && r->0.wf(),
    {
        match value.ty.kind {
            TypeKind::Struct => Some(AggregateValueEnum::StructValue(StructValue::new(value))),
            TypeKind::Array => Some(AggregateValueEnum::ArrayValue(ArrayValue::new(value))),
            _ => None,
        }
    }

    /// Classifies a native value that the set accepts by the kind of its type.
    pub fn new(value: ValueRef) -> (r: Self)
        requires
            Self::accepts(value),
        ensures
            r@ == classified(value),
            r.wf(),
    {
        match Self::try_new(value) {
            Some(r) => r,
            None => unreached(),
        }
    }

    /// The native value referenced by the held wrapper.
    pub fn as_value_ref(&self) -> (r: ValueRef)
        ensures
            r == self@.1,
            self.wf(),
    {
        match self {
            AggregateValueEnum::ArrayValue(v) => v.as_value_ref(),
            AggregateValueEnum::StructValue(v) => v.as_value_ref(),
        }
    }

    /// Whether the held wrapper is a `ArrayValue`.
    pub fn is_array_value(&self) -> (r: bool)
        ensures
            r == (self is ArrayValue),
            r == (self@.0 == ValueKind::Array),
    {
        match self {
            AggregateValueEnum::ArrayValue(_) => true,
            _ => false,
        }
    }

    /// The held `ArrayValue`; the caller knows that one is held.
    pub fn as_array_value(&self) -> (r: &ArrayValue)
        requires
            self is ArrayValue,
        ensures
            *r == self->ArrayValue_0,
            r@ == self@.1,
    {
        match self {
            AggregateValueEnum::ArrayValue(v) => v,
            _ => unreached(),
        }
    }

    /// The held `ArrayValue`, or `None` where another wrapper is held.
    pub fn try_as_array_value(&self) -> (r: Option<&ArrayValue>)
        ensures
            r is Some <==> self is ArrayValue,
            r is Some ==> *r->0 == self->ArrayValue_0,
    {
        match self {
            AggregateValueEnum::ArrayValue(v) => Some(v),
            _ => None,
        }
    }

    /// The held `ArrayValue`, by value; the caller knows that one is held.
    pub fn into_array_value(self) -> (r: ArrayValue)
        requires
            self is ArrayValue,
        ensures
            r == self->ArrayValue_0,
            r@ == self@.1,
    {
        match self {
            AggregateValueEnum::ArrayValue(v) => v,
            _ => unreached(),
        }
    }

    /// Whether the held wrapper is a `StructValue`.
    pub fn is_struct_value(&self) -> (r: bool)
        ensures
            r == (self is StructValue),
            r == (self@.0 == ValueKind::Struct),
    {
        match self {
            AggregateValueEnum::StructValue(_) => true,
            _ => false,
        }
    }

    /// The held `StructValue`; the caller knows that one is held.
    pub fn as_struct_value(&self) -> (r: &StructValue)
        requires
            self is StructValue,
        ensures
            *r == self->StructValue_0,
            r@ == self@.1,
    {
        match self {
            AggregateValueEnum::StructValue(v) => v,
            _ => unreached(),
        }
    }

    /// The held `StructValue`, or `None` where another wrapper is held.
    pub fn try_as_struct_value(&self) -> (r: Option<&StructValue>)
        ensures
            r is Some <==> self is StructValue,
            r is Some ==> *r->0 == self->StructValue_0,
    {
        match self {
            AggregateValueEnum::StructValue(v) => Some(v),
            _ => None,
        }
    }

    /// The held `StructValue`, by value; the caller knows that one is held.
    pub fn into_struct_value(self) -> (r: StructValue)
        requires
            self is StructValue,
        ensures
            r == self->StructValue_0,
            r@ == self@.1,
    {
        match self {
            AggregateValueEnum::StructValue(v) => v,
            _ => unreached(),
        }
    }
}

impl From<ArrayValue> for AggregateValueEnum {
    fn from(value: ArrayValue) -> (r: AggregateValueEnum) {
        AggregateValueEnum::ArrayValue(value)
    }
}

impl vstd::std_specs::convert::FromSpecImpl<ArrayValue> for AggregateValueEnum {
    open spec fn obeys_from_spec() -> bool {
        true
    }

    open spec fn from_spec(v: ArrayValue) -> AggregateValueEnum {
        AggregateValueEnum::ArrayValue(v)
    }
}

impl From<StructValue> for AggregateValueEnum {
    fn from(value: StructValue) -> (r: AggregateValueEnum) {
        AggregateValueEnum::StructValue(value)
    }
}

impl vstd::std_specs::convert::FromSpecImpl<StructValue> for AggregateValueEnum {
    open spec fn obeys_from_spec() -> bool {
        true
    }

    open spec fn from_spec(v: StructValue) -> AggregateValueEnum {
        AggregateValueEnum::StructValue(v)
    }
}

/// Any value but metadata.
///
/// Exactly one wrapper is held at a time; the value references a native value and never
/// owns it.
#[derive(Clone, Copy, Debug, PartialEq, Eq)]
pub enum AnyValueEnum {
    ArrayValue(ArrayValue),
    IntValue(IntValue),
    FloatValue(FloatValue),
    PhiValue(PhiValue),
    FunctionValue(FunctionValue),
    PointerValue(PointerValue),
    StructValue(StructValue),
    VectorValue(VectorValue),
    InstructionValue(InstructionValue),
}

impl View for AnyValueEnum {
    /// The kind of the held wrapper, and the native value it references.
    type V = (ValueKind, ValueRef);

    open spec fn view(&self) -> (ValueKind, ValueRef) {
        match *self {
            AnyValueEnum::ArrayValue(v) => (ValueKind::Array, v@),
            AnyValueEnum::IntValue(v) => (ValueKind::Int, v@),
            AnyValueEnum::FloatValue(v) => (ValueKind::Float, v@),
            AnyValueEnum::PhiValue(v) => (ValueKind::Phi, v@),
            AnyValueEnum::FunctionValue(v) => (ValueKind::Function, v@),
            AnyValueEnum::PointerValue(v) => (ValueKind::Pointer, v@),
            AnyValueEnum::StructValue(v) => (ValueKind::Struct, v@),
            AnyValueEnum::VectorValue(v) => (ValueKind::Vector, v@),
            AnyValueEnum::InstructionValue(v) => (ValueKind::Instruction, v@),
        }
    }
}

impl AnyValueEnum {
    /// Whether the set has a member of kind `k`.
    pub open spec fn has_member(k: ValueKind) -> bool {
        ||| k == ValueKind::Array
        ||| k == ValueKind::Int
        ||| k == ValueKind::Float
        ||| k == ValueKind::Phi
        ||| k == ValueKind::Function
        ||| k == ValueKind::Pointer
        ||| k == ValueKind::Struct
        ||| k == ValueKind::Vector
        ||| k == ValueKind::Instruction
    }

    /// The native values that classification into this set accepts.
    pub open spec fn accepts(value: ValueRef) -> bool {
        classifiable(value, |k: ValueKind| Self::has_member(k))
    }

    /// The held wrapper references a value that it accepts.
    pub open spec fn wf(self) -> bool {
        match self {
            AnyValueEnum::ArrayValue(v) => ArrayValue::accepts(v@),
            AnyValueEnum::IntValue(v) => IntValue::accepts(v@),
            AnyValueEnum::FloatValue(v) => FloatValue::accepts(v@),
            AnyValueEnum::PhiValue(v) => PhiValue::accepts(v@),
            AnyValueEnum::FunctionValue(v) => FunctionValue::accepts(v@),
            AnyValueEnum::PointerValue(v) => PointerValue::accepts(v@),
            AnyValueEnum::StructValue(v) => StructValue::accepts(v@),
            AnyValueEnum::VectorValue(v) => VectorValue::accepts(v@),
            AnyValueEnum::InstructionValue(v) => InstructionValue::accepts(v@),
        }
    }

    /// Classifies a native value by the kind of its type, or gives `None` where the set has
    /// no member for that kind or a function-typed value is not a function.
    pub fn try_new(value: ValueRef) -> (r: Option<Self>)
        ensures
            r is Some <==> Self::accepts(value),
            r is Some ==> r->0@ == classified(value) && r->0.wf(),
    {
        match value.ty.kind {
            TypeKind::Half | TypeKind::Float | TypeKind::Double | TypeKind::X86Fp80
            | TypeKind::Fp128 | TypeKind::PpcFp128 => {
                Some(AnyValueEnum::FloatValue(FloatValue::new(value)))
            },
            TypeKind::Integer => Some(AnyValueEnum::IntValue(IntValue::new(value))),
            TypeKind::Struct => Some(AnyValueEnum::StructValue(StructValue::new(value))),
            TypeKind::Pointer => Some(AnyValueEnum::PointerValue(PointerValue::new(value))),
            TypeKind::Array => Some(AnyValueEnum::ArrayValue(ArrayValue::new(value))),
            TypeKind::Vector => Some(AnyValueEnum::VectorValue(VectorValue::new(value))),
            TypeKind::Function => {
                if value.is_function {
                    Some(AnyValueEnum::FunctionValue(FunctionValue::new(value)))
                } else {
                    None
                }
            },
            _ => None,
        }
    }

    /// Classifies a native value that the set accepts by the kind of its type.
    pub fn new(value: ValueRef) -> (r: Self)
        requires
            Self::accepts(value),
        ensures
            r@ == classified(value),
            r.wf(),
    {
        match Self::try_new(value) {
            Some(r) => r,
            None => unreached(),
        }
    }

    /// The native value referenced by the held wrapper.
    pub fn as_value_ref(&self) -> (r: ValueRef)
        ensures
            r == self@.1,
            self.wf(),
    {
        match self {
            AnyValueEnum::ArrayValue(v) => v.as_value_ref(),
            AnyValueEnum::IntValue(v) => v.as_value_ref(),
            AnyValueEnum::FloatValue(v) => v.as_value_ref(),
            AnyValueEnum::PhiValue(v) => v.as_value_ref(),
            AnyValueEnum::FunctionValue(v) => v.as_value_ref(),
            AnyValueEnum::PointerValue(v) => v.as_value_ref(),
            AnyValueEnum::StructValue(v) => v.as_value_ref(),
            AnyValueEnum::VectorValue(v) => v.as_value_ref(),
            AnyValueEnum::InstructionValue(v) => v.as_value_ref(),
        }
    }

    /// Whether the held wrapper is a `ArrayValue`.
    pub fn is_array_value(&self) -> (r: bool)
        ensures
            r == (self is ArrayValue),
            r == (self@.0 == ValueKind::Array),
    {
        match self {
            AnyValueEnum::ArrayValue(_) => true,
            _ => false,
        }
    }

    /// The held `ArrayValue`; the caller knows that one is held.
    pub fn as_array_value(&self) -> (r: &ArrayValue)
        requires
            self is ArrayValue,
        ensures
            *r == self->ArrayValue_0,
            r@ == self@.1,
    {
        match self {
            AnyValueEnum::ArrayValue(v) => v,
            _ => unreached(),
        }
    }

    /// The held `ArrayValue`, or `None` where another wrapper is held.
    pub fn try_as_array_value(&self) -> (r: Option<&ArrayValue>)
        ensures
            r is Some <==> self is ArrayValue,
            r is Some ==> *r->0 == self->ArrayValue_0,
    {
        match self {
            AnyValueEnum::ArrayValue(v) => Some(v),
            _ => None,
        }
    }

    /// The held `ArrayValue`, by value; the caller knows that one is held.
    pub fn into_array_value(self) -> (r: ArrayValue)
        requires
            self is ArrayValue,
        ensures
            r == self->ArrayValue_0,
            r@ == self@.1,
    {
        match self {
            AnyValueEnum::ArrayValue(v) => v,
            _ => unreached(),
        }
    }

    /// Whether the held wrapper is a `IntValue`.
    pub fn is_int_value(&self) -> (r: bool)
        ensures
            r == (self is IntValue),
            r == (self@.0 == ValueKind::Int),
    {
        match self {
            AnyValueEnum::IntValue(_) => true,
            _ => false,
        }
    }

    /// The held `IntValue`; the caller knows that one is held.
    pub fn as_int_value(&self) -> (r: &IntValue)
        requires
            self is IntValue,
        ensures
            *r == self->IntValue_0,
            r@ == self@.1,
    {
        match self {
            AnyValueEnum::IntValue(v) => v,
            _ => unreached(),
        }
    }

    /// The held `IntValue`, or `None` where another wrapper is held.
    pub fn try_as_int_value(&self) -> (r: Option<&IntValue>)
        ensures
            r is Some <==> self is IntValue,
            r is Some ==> *r->0 == self->IntValue_0,
    {
        match self {
            AnyValueEnum::IntValue(v) => Some(v),
            _ => None,
        }
    }

    /// The held `IntValue`, by value; the caller knows that one is held.
    pub fn into_int_value(self) -> (r: IntValue)
        requires
            self is IntValue,
        ensures
            r == self->IntValue_0,
            r@ == self@.1,
    {
        match self {
            AnyValueEnum::IntValue(v) => v,
            _ => unreached(),
        }
    }

    /// Whether the held wrapper is a `FloatValue`.
    pub fn is_float_value(&self) -> (r: bool)
        ensures
            r == (self is FloatValue),
            r == (self@.0 == ValueKind::Float),
    {
        match self {
            AnyValueEnum::FloatValue(_) => true,
            _ => false,
        }
    }

    /// The held `FloatValue`; the caller knows that one is held.
    pub fn as_float_value(&self) -> (r: &FloatValue)
        requires
            self is FloatValue,
        ensures
            *r == self->FloatValue_0,
            r@ == self@.1,
    {
        match self {
            AnyValueEnum::FloatValue(v) => v,
            _ => unreached(),
        }
    }

    /// The held `FloatValue`, or `None` where another wrapper is held.
    pub fn try_as_float_value(&self) -> (r: Option<&FloatValue>)
        ensures
            r is Some <==> self is FloatValue,
            r is Some ==> *r->0 == self->FloatValue_0,
    {
        match self {
            AnyValueEnum::FloatValue(v) => Some(v),
            _ => None,
        }
    }

    /// The held `FloatValue`, by value; the caller knows that one is held.
    pub fn into_float_value(self) -> (r: FloatValue)
        requires
            self is FloatValue,
        ensures
            r == self->FloatValue_0,
            r@ == self@.1,
    {
        match self {
            AnyValueEnum::FloatValue(v) => v,
            _ => unreached(),
        }
    }

    /// Whether the held wrapper is a `PhiValue`.
    pub fn is_phi_value(&self) -> (r: bool)
        ensures
            r == (self is PhiValue),
            r == (self@.0 == ValueKind::Phi),
    {
        match self {
            AnyValueEnum::PhiValue(_) => true,
            _ => false,
        }
    }

    /// The held `PhiValue`; the caller knows that one is held.
    pub fn as_phi_value(&self) -> (r: &PhiValue)
        requires
            self is PhiValue,
        ensures
            *r == self->PhiValue_0,
            r@ == self@.1,
    {
        match self {
            AnyValueEnum::PhiValue(v) => v,
            _ => unreached(),
        }
    }

    /// The held `PhiValue`, or `None` where another wrapper is held.
    pub fn try_as_phi_value(&self) -> (r: Option<&PhiValue>)
        ensures
            r is Some <==> self is PhiValue,
            r is Some ==> *r->0 == self->PhiValue_0,
    {
        match self {
            AnyValueEnum::PhiValue(v) => Some(v),
            _ => None,
        }
    }

    /// The held `PhiValue`, by value; the caller knows that one is held.
    pub fn into_phi_value(self) -> (r: PhiValue)
        requires
            self is PhiValue,
        ensures
            r == self->PhiValue_0,
            r@ == self@.1,
    {
        match self {
            AnyValueEnum::PhiValue(v) => v,
            _ => unreached(),
        }
    }

    /// Whether the held wrapper is a `FunctionValue`.
    pub fn is_function_value(&self) -> (r: bool)
        ensures
            r == (self is FunctionValue),
            r == (self@.0 == ValueKind::Function),
    {
        match self {
            AnyValueEnum::FunctionValue(_) => true,
            _ => false,
        }
    }

    /// The held `FunctionValue`; the caller knows that one is held.
    pub fn as_function_value(&self) -> (r: &FunctionValue)
        requires
            self is FunctionValue,
        ensures
            *r == self->FunctionValue_0,
            r@ == self@.1,
    {
        match self {
            AnyValueEnum::FunctionValue(v) => v,
            _ => unreached(),
        }
    }

    /// The held `FunctionValue`, or `None` where another wrapper is held.
    pub fn try_as_function_value(&self) -> (r: Option<&FunctionValue>)
        ensures
            r is Some <==> self is FunctionValue,
            r is Some ==> *r->0 == self->FunctionValue_0,
    {
        match self {
            AnyValueEnum::FunctionValue(v) => Some(v),
            _ => None,
        }
    }

    /// The held `FunctionValue`, by value; the caller knows that one is held.
    pub fn into_function_value(self) -> (r: FunctionValue)
        requires
            self is FunctionValue,
        ensures
            r == self->FunctionValue_0,
            r@ == self@.1,
    {
        match self {
            AnyValueEnum::FunctionValue(v) => v,
            _ => unreached(),
        }
    }

    /// Whether the held wrapper is a `PointerValue`.
    pub fn is_pointer_value(&self) -> (r: bool)
        ensures
            r == (self is PointerValue),
            r == (self@.0 == ValueKind::Pointer),
    {
        match self {
            AnyValueEnum::PointerValue(_) => true,
            _ => false,
        }
    }

    /// The held `PointerValue`; the caller knows that one is held.
    pub fn as_pointer_value(&self) -> (r: &PointerValue)
        requires
            self is PointerValue,
        ensures
            *r == self->PointerValue_0,
            r@ == self@.1,
    {
        match self {
            AnyValueEnum::PointerValue(v) => v,
            _ => unreached(),
        }
    }

    /// The held `PointerValue`, or `None` where another wrapper is held.
    pub fn try_as_pointer_value(&self) -> (r: Option<&PointerValue>)
        ensures
            r is Some <==> self is PointerValue,
            r is Some ==> *r->0 == self->PointerValue_0,
    {
        match self {
            AnyValueEnum::PointerValue(v) => Some(v),
            _ => None,
        }
    }

    /// The held `PointerValue`, by value; the caller knows that one is held.
    pub fn into_pointer_value(self) -> (r: PointerValue)
        requires
            self is PointerValue,
        ensures
            r == self->PointerValue_0,
            r@ == self@.1,
    {
        match self {
            AnyValueEnum::PointerValue(v) => v,
            _ => unreached(),
        }
    }

    /// Whether the held wrapper is a `StructValue`.
    pub fn is_struct_value(&self) -> (r: bool)
        ensures
            r == (self is StructValue),
            r == (self@.0 == ValueKind::Struct),
    {
        match self {
            AnyValueEnum::StructValue(_) => true,
            _ => false,
        }
    }

    /// The held `StructValue`; the caller knows that one is held.
    pub fn as_struct_value(&self) -> (r: &StructValue)
        requires
            self is StructValue,
        ensures
            *r == self->StructValue_0,
            r@ == self@.1,
    {
        match self {
            AnyValueEnum::StructValue(v) => v,
            _ => unreached(),
        }
    }

    /// The held `StructValue`, or `None` where another wrapper is held.
    pub fn try_as_struct_value(&self) -> (r: Option<&StructValue>)
        ensures
            r is Some <==> self is StructValue,
            r is Some ==> *r->0 == self->StructValue_0,
    {
        match self {
            AnyValueEnum::StructValue(v) => Some(v),
            _ => None,
        }
    }

    /// The held `StructValue`, by value; the caller knows that one is held.
    pub fn into_struct_value(self) -> (r: StructValue)
        requires
            self is StructValue,
        ensures
            r == self->StructValue_0,
            r@ == self@.1,
    {
        match self {
            AnyValueEnum::StructValue(v) => v,
            _ => unreached(),
        }
    }

    /// Whether the held wrapper is a `VectorValue`.
    pub fn is_vector_value(&self) -> (r: bool)
        ensures
            r == (self is VectorValue),
            r == (self@.0 == ValueKind::Vector),
    {
        match self {
            AnyValueEnum::VectorValue(_) => true,
            _ => false,
        }
    }

    /// The held `VectorValue`; the caller knows that one is held.
    pub fn as_vector_value(&self) -> (r: &VectorValue)
        requires
            self is VectorValue,
        ensures
            *r == self->VectorValue_0,
            r@ == self@.1,
    {
        match self {
            AnyValueEnum::VectorValue(v) => v,
            _ => unreached(),
        }
    }

    /// The held `VectorValue`, or `None` where another wrapper is held.
    pub fn try_as_vector_value(&self) -> (r: Option<&VectorValue>)
        ensures
            r is Some <==> self is VectorValue,
            r is Some ==> *r->0 == self->VectorValue_0,
    {
        match self {
            AnyValueEnum::VectorValue(v) => Some(v),
            _ => None,
        }
    }

    /// The held `VectorValue`, by value; the caller knows that one is held.
    pub fn into_vector_value(self) -> (r: VectorValue)
        requires
            self is VectorValue,
        ensures
            r == self->VectorValue_0,
            r@ == self@.1,
    {
        match self {
            AnyValueEnum::VectorValue(v) => v,
            _ => unreached(),
        }
    }

    /// Whether the held wrapper is a `InstructionValue`.
    pub fn is_instruction_value(&self) -> (r: bool)
        ensures
            r == (self is InstructionValue),
            r == (self@.0 == ValueKind::Instruction),
    {
        match self {
            AnyValueEnum::InstructionValue(_) => true,
            _ => false,
        }
    }

    /// The held `InstructionValue`; the caller knows that one is held.
    pub fn as_instruction_value(&self) -> (r: &InstructionValue)
        requires
            self is InstructionValue,
        ensures
            *r == self->InstructionValue_0,
            r@ == self@.1,
    {
        match self {
            AnyValueEnum::InstructionValue(v) => v,
            _ => unreached(),
        }
    }

    /// The held `InstructionValue`, or `None` where another wrapper is held.
    pub fn try_as_instruction_value(&self) -> (r: Option<&InstructionValue>)
        ensures
            r is Some <==> self is InstructionValue,
            r is Some ==> *r->0 == self->InstructionValue_0,
    {
        match self {
            AnyValueEnum::InstructionValue(v) => Some(v),
            _ => None,
        }
    }

    /// The held `InstructionValue`, by value; the caller knows that one is held.
    pub fn into_instruction_value(self) -> (r: InstructionValue)
        requires
            self is InstructionValue,
        ensures
            r == self->InstructionValue_0,
            r@ == self@.1,
    {
        match self {
            AnyValueEnum::InstructionValue(v) => v,
            _ => unreached(),
        }
    }
}

impl From<ArrayValue> for AnyValueEnum {
    fn from(value: ArrayValue) -> (r: AnyValueEnum) {
        AnyValueEnum::ArrayValue(value)
    }
}

impl vstd::std_specs::convert::FromSpecImpl<ArrayValue> for AnyValueEnum {
    open spec fn obeys_from_spec() -> bool {
        true
    }

    open spec fn from_spec(v: ArrayValue) -> AnyValueEnum {
        AnyValueEnum::ArrayValue(v)
    }
}

impl From<IntValue> for AnyValueEnum {
    fn from(value: IntValue) -> (r: AnyValueEnum) {
        AnyValueEnum::IntValue(value)
    }
}

impl vstd::std_specs::convert::FromSpecImpl<IntValue> for AnyValueEnum {
    open spec fn obeys_from_spec() -> bool {
        true
    }

    open spec fn from_spec(v: IntValue) -> AnyValueEnum {
        AnyValueEnum::IntValue(v)
    }
}

impl From<FloatValue> for AnyValueEnum {
    fn from(value: FloatValue) -> (r: AnyValueEnum) {
        AnyValueEnum::FloatValue(value)
    }
}

impl vstd::std_specs::convert::FromSpecImpl<FloatValue> for AnyValueEnum {
    open spec fn obeys_from_spec() -> bool {
        true
    }

    open spec fn from_spec(v: FloatValue) -> AnyValueEnum {
        AnyValueEnum::FloatValue(v)
    }
}

impl From<PhiValue> for AnyValueEnum {
    fn from(value: PhiValue) -> (r: AnyValueEnum) {
        AnyValueEnum::PhiValue(value)
    }
}

impl vstd::std_specs::convert::FromSpecImpl<PhiValue> for AnyValueEnum {
    open spec fn obeys_from_spec() -> bool {
        true
    }

    open spec fn from_spec(v: PhiValue) -> AnyValueEnum {
        AnyValueEnum::PhiValue(v)
    }
}

impl From<FunctionValue> for AnyValueEnum {
    fn from(value: FunctionValue) -> (r: AnyValueEnum) {
        AnyValueEnum::FunctionValue(value)
    }
}

impl vstd::std_specs::convert::FromSpecImpl<FunctionValue> for AnyValueEnum {
    open spec fn obeys_from_spec() -> bool {
        true
    }

    open spec fn from_spec(v: FunctionValue) -> AnyValueEnum {
        AnyValueEnum::FunctionValue(v)
    }
}

impl From<PointerValue> for AnyValueEnum {
    fn from(value: PointerValue) -> (r: AnyValueEnum) {
        AnyValueEnum::PointerValue(value)
    }
}

impl vstd::std_specs::convert::FromSpecImpl<PointerValue> for AnyValueEnum {
    open spec fn obeys_from_spec() -> bool {
        true
    }

    open spec fn from_spec(v: PointerValue) -> AnyValueEnum {
        AnyValueEnum::PointerValue(v)
    }
}

impl From<StructValue> for AnyValueEnum {
    fn from(value: StructValue) -> (r: AnyValueEnum) {
        AnyValueEnum::StructValue(value)
    }
}

impl vstd::std_specs::convert::FromSpecImpl<StructValue> for AnyValueEnum {
    open spec fn obeys_from_spec() -> bool {
        true
    }

    open spec fn from_spec(v: StructValue) -> AnyValueEnum {
        AnyValueEnum::StructValue(v)
    }
}

impl From<VectorValue> for AnyValueEnum {
    fn from(value: VectorValue) -> (r: AnyValueEnum) {
        AnyValueEnum::VectorValue(value)
    }
}

impl vstd::std_specs::convert::FromSpecImpl<VectorValue> for AnyValueEnum {
    open spec fn obeys_from_spec() -> bool {
        true
    }

    open spec fn from_spec(v: VectorValue) -> AnyValueEnum {
        AnyValueEnum::VectorValue(v)
    }
}

impl From<InstructionValue> for AnyValueEnum {
    fn from(value: InstructionValue) -> (r: AnyValueEnum) {
        AnyValueEnum::InstructionValue(value)
    }
}

impl vstd::std_specs::convert::FromSpecImpl<InstructionValue> for AnyValueEnum {
    open spec fn obeys_from_spec() -> bool {
        true
    }

    open spec fn from_spec(v: InstructionValue) -> AnyValueEnum {
        AnyValueEnum::InstructionValue(v)
    }
}

/// Values usable as ordinary operands.
///
/// Exactly one wrapper is held at a time; the value references a native value and never
/// owns it.
#[derive(Clone, Copy, Debug, PartialEq, Eq)]
pub enum BasicValueEnum {
    ArrayValue(ArrayValue),
    IntValue(IntValue),
    FloatValue(FloatValue),
    PointerValue(PointerValue),
    StructValue(StructValue),
    VectorValue(VectorValue),
}

impl View for BasicValueEnum {
    /// The kind of the held wrapper, and the native value it references.
    type V = (ValueKind, ValueRef);

    open spec fn view(&self) -> (ValueKind, ValueRef) {
        match *self {
            BasicValueEnum::ArrayValue(v) => (ValueKind::Array, v@),
            BasicValueEnum::IntValue(v) => (ValueKind::Int, v@),
            BasicValueEnum::FloatValue(v) => (ValueKind::Float, v@),
            BasicValueEnum::PointerValue(v) => (ValueKind::Pointer, v@),
            BasicValueEnum::StructValue(v) => (ValueKind::Struct, v@),
            BasicValueEnum::VectorValue(v) => (ValueKind::Vector, v@),
        }
    }
}

impl BasicValueEnum {
    /// Whether the set has a member of kind `k`.
    pub open spec fn has_member(k: ValueKind) -> bool {
        ||| k == ValueKind::Array
        ||| k == ValueKind::Int
        ||| k == ValueKind::Float
        ||| k == ValueKind::Pointer
        ||| k == ValueKind::Struct
        ||| k == ValueKind::Vector
    }

    /// The native values that classification into this set accepts.
    pub open spec fn accepts(value: ValueRef) -> bool {
        classifiable(value, |k: ValueKind| Self::has_member(k))
    }

    /// The held wrapper references a value that it accepts.
    pub open spec fn wf(self) -> bool {
        match self {
            BasicValueEnum::ArrayValue(v) => ArrayValue::accepts(v@),
            BasicValueEnum::IntValue(v) => IntValue::accepts(v@),
            BasicValueEnum::FloatValue(v) => FloatValue::accepts(v@),
            BasicValueEnum::PointerValue(v) => PointerValue::accepts(v@),
            BasicValueEnum::StructValue(v) => StructValue::accepts(v@),
            BasicValueEnum::VectorValue(v) => VectorValue::accepts(v@),
        }
    }

    /// Classifies a native value by the kind of its type, or gives `None` where the set has
    /// no member for that kind.
    pub fn try_new(value: ValueRef) -> (r: Option<Self>)
        ensures
            r is Some <==> Self::accepts(value),
            r is Some ==> r->0@ == classified(value) && r->0.wf(),
    {
        match value.ty.kind {
            TypeKind::Half | TypeKind::Float | TypeKind::Double | TypeKind::X86Fp80
            | TypeKind::Fp128 | TypeKind::PpcFp128 => {
                Some(BasicValueEnum::FloatValue(FloatValue::new(value)))
            },
            TypeKind::Integer => Some(BasicValueEnum::IntValue(IntValue::new(value))),
            TypeKind::Struct => Some(BasicValueEnum::StructValue(StructValue::new(value))),
            TypeKind::Pointer => Some(BasicValueEnum::PointerValue(PointerValue::new(value))),
            TypeKind::Array => Some(BasicValueEnum::ArrayValue(ArrayValue::new(value))),
            TypeKind::Vector => Some(BasicValueEnum::VectorValue(VectorValue::new(value))),
            _ => None,
        }
    }

    /// Classifies a native value that the set accepts by the kind of its type.
    pub fn new(value: ValueRef) -> (r: Self)
        requires
            Self::accepts(value),
        ensures
            r@ == classified(value),
            r.wf(),
    {
        match Self::try_new(value) {
            Some(r) => r,
            None => unreached(),
        }
    }

    /// The native value referenced by the held wrapper.
    pub fn as_value_ref(&self) -> (r: ValueRef)
        ensures
            r == self@.1,
            self.wf(),
    {
        match self {
            BasicValueEnum::ArrayValue(v) => v.as_value_ref(),
            BasicValueEnum::IntValue(v) => v.as_value_ref(),
            BasicValueEnum::FloatValue(v) => v.as_value_ref(),
            BasicValueEnum::PointerValue(v) => v.as_value_ref(),
            BasicValueEnum::StructValue(v) => v.as_value_ref(),
            BasicValueEnum::VectorValue(v) => v.as_value_ref(),
        }
    }

    /// Whether the held wrapper is a `ArrayValue`.
    pub fn is_array_value(&self) -> (r: bool)
        ensures
            r == (self is ArrayValue),
            r == (self@.0 == ValueKind::Array),
    {
        match self {
            BasicValueEnum::ArrayValue(_) => true,
            _ => false,
        }
    }

    /// The held `ArrayValue`; the caller knows that one is held.
    pub fn as_array_value(&self) -> (r: &ArrayValue)
        requires
            self is ArrayValue,
        ensures
            *r == self->ArrayValue_0,
            r@ == self@.1,
    {
        match self {
            BasicValueEnum::ArrayValue(v) => v,
            _ => unreached(),
        }
    }

    /// The held `ArrayValue`, or `None` where another wrapper is held.
    pub fn try_as_array_value(&self) -> (r: Option<&ArrayValue>)
        ensures
            r is Some <==> self is ArrayValue,
            r is Some ==> *r->0 == self->ArrayValue_0,
    {
        match self {
            BasicValueEnum::ArrayValue(v) => Some(v),
            _ => None,
        }
    }

    /// The held `ArrayValue`, by value; the caller knows that one is held.
    pub fn into_array_value(self) -> (r: ArrayValue)
        requires
            self is ArrayValue,
        ensures
            r == self->ArrayValue_0,
            r@ == self@.1,
    {
        match self {
            BasicValueEnum::ArrayValue(v) => v,
            _ => unreached(),
        }
    }

    /// Whether the held wrapper is a `IntValue`.
    pub fn is_int_value(&self) -> (r: bool)
        ensures
            r == (self is IntValue),
            r == (self@.0 == ValueKind::Int),
    {
        match self {
            BasicValueEnum::IntValue(_) => true,
            _ => false,
        }
    }

    /// The held `IntValue`; the caller knows that one is held.
    pub fn as_int_value(&self) -> (r: &IntValue)
        requires
            self is IntValue,
        ensures
            *r == self->IntValue_0,
            r@ == self@.1,
    {
        match self {
            BasicValueEnum::IntValue(v) => v,
            _ => unreached(),
        }
    }

    /// The held `IntValue`, or `None` where another wrapper is held.
    pub fn try_as_int_value(&self) -> (r: Option<&IntValue>)
        ensures
            r is Some <==> self is IntValue,
            r is Some ==> *r->0 == self->IntValue_0,
    {
        match self {
            BasicValueEnum::IntValue(v) => Some(v),
            _ => None,
        }
    }

    /// The held `IntValue`, by value; the caller knows that one is held.
    pub fn into_int_value(self) -> (r: IntValue)
        requires
            self is IntValue,
        ensures
            r == self->IntValue_0,
            r@ == self@.1,
    {
        match self {
            BasicValueEnum::IntValue(v) => v,
            _ => unreached(),
        }
    }

    /// Whether the held wrapper is a `FloatValue`.
    pub fn is_float_value(&self) -> (r: bool)
        ensures
            r == (self is FloatValue),
            r == (self@.0 == ValueKind::Float),
    {
        match self {
            BasicValueEnum::FloatValue(_) => true,
            _ => false,
        }
    }

    /// The held `FloatValue`; the caller knows that one is held.
    pub fn as_float_value(&self) -> (r: &FloatValue)
        requires
            self is FloatValue,
        ensures
            *r == self->FloatValue_0,
            r@ == self@.1,
    {
        match self {
            BasicValueEnum::FloatValue(v) => v,
            _ => unreached(),
        }
    }

    /// The held `FloatValue`, or `None` where another wrapper is held.
    pub fn try_as_float_value(&self) -> (r: Option<&FloatValue>)
        ensures
            r is Some <==> self is FloatValue,
            r is Some ==> *r->0 == self->FloatValue_0,
    {
        match self {
            BasicValueEnum::FloatValue(v) => Some(v),
            _ => None,
        }
    }

    /// The held `FloatValue`, by value; the caller knows that one is held.
    pub fn into_float_value(self) -> (r: FloatValue)
        requires
            self is FloatValue,
        ensures
            r == self->FloatValue_0,
            r@ == self@.1,
    {
        match self {
            BasicValueEnum::FloatValue(v) => v,
            _ => unreached(),
        }
    }

    /// Whether the held wrapper is a `PointerValue`.
    pub fn is_pointer_value(&self) -> (r: bool)
        ensures
            r == (self is PointerValue),
            r == (self@.0 == ValueKind::Pointer),
    {
        match self {
            BasicValueEnum::PointerValue(_) => true,
            _ => false,
        }
    }

    /// The held `PointerValue`; the caller knows that one is held.
    pub fn as_pointer_value(&self) -> (r: &PointerValue)
        requires
            self is PointerValue,
        ensures
            *r == self->PointerValue_0,
            r@ == self@.1,
    {
        match self {
            BasicValueEnum::PointerValue(v) => v,
            _ => unreached(),
        }
    }

    /// The held `PointerValue`, or `None` where another wrapper is held.
    pub fn try_as_pointer_value(&self) -> (r: Option<&PointerValue>)
        ensures
            r is Some <==> self is PointerValue,
            r is Some ==> *r->0 == self->PointerValue_0,
    {
        match self {
            BasicValueEnum::PointerValue(v) => Some(v),
            _ => None,
        }
    }

    /// The held `PointerValue`, by value; the caller knows that one is held.
    pub fn into_pointer_value(self) -> (r: PointerValue)
        requires
            self is PointerValue,
        ensures
            r == self->PointerValue_0,
            r@ == self@.1,
    {
        match self {
            BasicValueEnum::PointerValue(v) => v,
            _ => unreached(),
        }
    }

    /// Whether the held wrapper is a `StructValue`.
    pub fn is_struct_value(&self) -> (r: bool)
        ensures
            r == (self is StructValue),
            r == (self@.0 == ValueKind::Struct),
    {
        match self {
            BasicValueEnum::StructValue(_) => true,
            _ => false,
        }
    }

    /// The held `StructValue`; the caller knows that one is held.
    pub fn as_struct_value(&self) -> (r: &StructValue)
        requires
            self is StructValue,
        ensures
            *r == self->StructValue_0,
            r@ == self@.1,
    {
        match self {
            BasicValueEnum::StructValue(v) => v,
            _ => unreached(),
        }
    }

    /// The held `StructValue`, or `None` where another wrapper is held.
    pub fn try_as_struct_value(&self) -> (r: Option<&StructValue>)
        ensures
            r is Some <==> self is StructValue,
            r is Some ==> *r->0 == self->StructValue_0,
    {
        match self {
            BasicValueEnum::StructValue(v) => Some(v),
            _ => None,
        }
    }

    /// The held `StructValue`, by value; the caller knows that one is held.
    pub fn into_struct_value(self) -> (r: StructValue)
        requires
            self is StructValue,
        ensures
            r == self->StructValue_0,
            r@ == self@.1,
    {
        match self {
            BasicValueEnum::StructValue(v) => v,
            _ => unreached(),
        }
    }

    /// Whether the held wrapper is a `VectorValue`.
    pub fn is_vector_value(&self) -> (r: bool)
        ensures
            r == (self is VectorValue),
            r == (self@.0 == ValueKind::Vector),
    {
        match self {
            BasicValueEnum::VectorValue(_) => true,
            _ => false,
        }
    }

    /// The held `VectorValue`; the caller knows that one is held.
    pub fn as_vector_value(&self) -> (r: &VectorValue)
        requires
            self is VectorValue,
        ensures
            *r == self->VectorValue_0,
            r@ == self@.1,
    {
        match self {
            BasicValueEnum::VectorValue(v) => v,
            _ => unreached(),
        }
    }

    /// The held `VectorValue`, or `None` where another wrapper is held.
    pub fn try_as_vector_value(&self) -> (r: Option<&VectorValue>)
        ensures
            r is Some <==> self is VectorValue,
            r is Some ==> *r->0 == self->VectorValue_0,
    {
        match self {
            BasicValueEnum::VectorValue(v) => Some(v),
            _ => None,
        }
    }

    /// The held `VectorValue`, by value; the caller knows that one is held.
    pub fn into_vector_value(self) -> (r: VectorValue)
        requires
            self is VectorValue,
        ensures
            r == self->VectorValue_0,
            r@ == self@.1,
    {
        match self {
            BasicValueEnum::VectorValue(v) => v,
            _ => unreached(),
        }
    }
}

impl From<ArrayValue> for BasicValueEnum {
    fn from(value: ArrayValue) -> (r: BasicValueEnum) {
        BasicValueEnum::ArrayValue(value)
    }
}

impl vstd::std_specs::convert::FromSpecImpl<ArrayValue> for BasicValueEnum {
    open spec fn obeys_from_spec() -> bool {
        true
    }

    open spec fn from_spec(v: ArrayValue) -> BasicValueEnum {
        BasicValueEnum::ArrayValue(v)
    }
}

impl From<IntValue> for BasicValueEnum {
    fn from(value: IntValue) -> (r: BasicValueEnum) {
        BasicValueEnum::IntValue(value)
    }
}

impl vstd::std_specs::convert::FromSpecImpl<IntValue> for BasicValueEnum {
    open spec fn obeys_from_spec() -> bool {
        true
    }

    open spec fn from_spec(v: IntValue) -> BasicValueEnum {
        BasicValueEnum::IntValue(v)
    }
}

impl From<FloatValue> for BasicValueEnum {
    fn from(value: FloatValue) -> (r: BasicValueEnum) {
        BasicValueEnum::FloatValue(value)
    }
}

impl vstd::std_specs::convert::FromSpecImpl<FloatValue> for BasicValueEnum {
    open spec fn obeys_from_spec() -> bool {
        true
    }

    open spec fn from_spec(v: FloatValue) -> BasicValueEnum {
        BasicValueEnum::FloatValue(v)
    }
}

impl From<PointerValue> for BasicValueEnum {
    fn from(value: PointerValue) -> (r: BasicValueEnum) {
        BasicValueEnum::PointerValue(value)
    }
}

impl vstd::std_specs::convert::FromSpecImpl<PointerValue> for BasicValueEnum {
    open spec fn obeys_from_spec() -> bool {
        true
    }

    open spec fn from_spec(v: PointerValue) -> BasicValueEnum {
        BasicValueEnum::PointerValue(v)
    }
}

impl From<StructValue> for BasicValueEnum {
    fn from(value: StructValue) -> (r: BasicValueEnum) {
        BasicValueEnum::StructValue(value)
    }
}

impl vstd::std_specs::convert::FromSpecImpl<StructValue> for BasicValueEnum {
    open spec fn obeys_from_spec() -> bool {
        true
    }

    open spec fn from_spec(v: StructValue) -> BasicValueEnum {
        BasicValueEnum::StructValue(v)
    }
}

impl From<VectorValue> for BasicValueEnum {
    fn from(value: VectorValue) -> (r: BasicValueEnum) {
        BasicValueEnum::VectorValue(value)
    }
}

impl vstd::std_specs::convert::FromSpecImpl<VectorValue> for BasicValueEnum {
    open spec fn obeys_from_spec() -> bool {
        true
    }

    open spec fn from_spec(v: VectorValue) -> BasicValueEnum {
        BasicValueEnum::VectorValue(v)
    }
}

/// Values usable as ordinary operands, and metadata, for operand positions that take either.
///
/// Exactly one wrapper is held at a time; the value references a native value and never
/// owns it.
#[derive(Clone, Copy, Debug, PartialEq, Eq)]
pub enum BasicMetadataValueEnum {
    ArrayValue(ArrayValue),
    IntValue(IntValue),
    FloatValue(FloatValue),
    PointerValue(PointerValue),
    StructValue(StructValue),
    VectorValue(VectorValue),
    MetadataValue(MetadataValue),
}

impl View for BasicMetadataValueEnum {
    /// The kind of the held wrapper, and the native value it references.
    type V = (ValueKind, ValueRef);

    open spec fn view(&self) -> (ValueKind, ValueRef) {
        match *self {
            BasicMetadataValueEnum::ArrayValue(v) => (ValueKind::Array, v@),
            BasicMetadataValueEnum::IntValue(v) => (ValueKind::Int, v@),
            BasicMetadataValueEnum::FloatValue(v) => (ValueKind::Float, v@),
            BasicMetadataValueEnum::PointerValue(v) => (ValueKind::Pointer, v@),
            BasicMetadataValueEnum::StructValue(v) => (ValueKind::Struct, v@),
            BasicMetadataValueEnum::VectorValue(v) => (ValueKind::Vector, v@),
            BasicMetadataValueEnum::MetadataValue(v) => (ValueKind::Metadata, v@),
        }
    }
}

impl BasicMetadataValueEnum {
    /// Whether the set has a member of kind `k`.
    pub open spec fn has_member(k: ValueKind) -> bool {
        ||| k == ValueKind::Array
        ||| k == ValueKind::Int
        ||| k == ValueKind::Float
        ||| k == ValueKind::Pointer
        ||| k == ValueKind::Struct
        ||| k == ValueKind::Vector
        ||| k == ValueKind::Metadata
    }

    /// The native values that classification into this set accepts.
    pub open spec fn accepts(value: ValueRef) -> bool {
        classifiable(value, |k: ValueKind| Self::has_member(k))
    }

    /// The held wrapper references a value that it accepts.
    pub open spec fn wf(self) -> bool {
        match self {
            BasicMetadataValueEnum::ArrayValue(v) => ArrayValue::accepts(v@),
            BasicMetadataValueEnum::IntValue(v) => IntValue::accepts(v@),
            BasicMetadataValueEnum::FloatValue(v) => FloatValue::accepts(v@),
            BasicMetadataValueEnum::PointerValue(v) => PointerValue::accepts(v@),
            BasicMetadataValueEnum::StructValue(v) => StructValue::accepts(v@),
            BasicMetadataValueEnum::VectorValue(v) => VectorValue::accepts(v@),
            BasicMetadataValueEnum::MetadataValue(v) => MetadataValue::accepts(v@),
        }
    }

    /// Classifies a native value by the kind of its type, or gives `None` where the set has
    /// no member for that kind.
    pub fn try_new(value: ValueRef) -> (r: Option<Self>)
        ensures
            r is Some <==> Self::accepts(value),
            r is Some ==> r->0@ == classified(value) && r->0.wf(),
    {
        match value.ty.kind {
            TypeKind::Half | TypeKind::Float | TypeKind::Double | TypeKind::X86Fp80
            | TypeKind::Fp128 | TypeKind::PpcFp128 => {
                Some(BasicMetadataValueEnum::FloatValue(FloatValue::new(value)))
            },
            TypeKind::Integer => Some(BasicMetadataValueEnum::IntValue(IntValue::new(value))),
            TypeKind::Struct => Some(BasicMetadataValueEnum::StructValue(StructValue::new(value))),
            TypeKind::Pointer => {
                Some(BasicMetadataValueEnum::PointerValue(PointerValue::new(value)))
            },
            TypeKind::Array => Some(BasicMetadataValueEnum::ArrayValue(ArrayValue::new(value))),
            TypeKind::Vector => Some(BasicMetadataValueEnum::VectorValue(VectorValue::new(value))),
            TypeKind::Metadata => {
                Some(BasicMetadataValueEnum::MetadataValue(MetadataValue::new(value)))
            },
            _ => None,
        }
    }

    /// Classifies a native value that the set accepts by the kind of its type.
    pub fn new(value: ValueRef) -> (r: Self)
        requires
            Self::accepts(value),
        ensures
            r@ == classified(value),
            r.wf(),
    {
        match Self::try_new(value) {
            Some(r) => r,
            None => unreached(),
        }
    }

    /// The native value referenced by the held wrapper.
    pub fn as_value_ref(&self) -> (r: ValueRef)
        ensures
            r == self@.1,
            self.wf(),
    {
        match self {
            BasicMetadataValueEnum::ArrayValue(v) => v.as_value_ref(),
            BasicMetadataValueEnum::IntValue(v) => v.as_value_ref(),
            BasicMetadataValueEnum::FloatValue(v) => v.as_value_ref(),
            BasicMetadataValueEnum::PointerValue(v) => v.as_value_ref(),
            BasicMetadataValueEnum::StructValue(v) => v.as_value_ref(),
            BasicMetadataValueEnum::VectorValue(v) => v.as_value_ref(),
            BasicMetadataValueEnum::MetadataValue(v) => v.as_value_ref(),
        }
    }

    /// Whether the held wrapper is a `ArrayValue`.
    pub fn is_array_value(&self) -> (r: bool)
        ensures
            r == (self is ArrayValue),
            r == (self@.0 == ValueKind::Array),
    {
        match self {
            BasicMetadataValueEnum::ArrayValue(_) => true,
            _ => false,
        }
    }

    /// The held `ArrayValue`; the caller knows that one is held.
    pub fn as_array_value(&self) -> (r: &ArrayValue)
        requires
            self is ArrayValue,
        ensures
            *r == self->ArrayValue_0,
            r@ == self@.1,
    {
        match self {
            BasicMetadataValueEnum::ArrayValue(v) => v,
            _ => unreached(),
        }
    }

    /// The held `ArrayValue`, or `None` where another wrapper is held.
    pub fn try_as_array_value(&self) -> (r: Option<&ArrayValue>)
        ensures
            r is Some <==> self is ArrayValue,
            r is Some ==> *r->0 == self->ArrayValue_0,
    {
        match self {
            BasicMetadataValueEnum::ArrayValue(v) => Some(v),
            _ => None,
        }
    }

    /// The held `ArrayValue`, by value; the caller knows that one is held.
    pub fn into_array_value(self) -> (r: ArrayValue)
        requires
            self is ArrayValue,
        ensures
            r == self->ArrayValue_0,
            r@ == self@.1,
    {
        match self {
            BasicMetadataValueEnum::ArrayValue(v) => v,
            _ => unreached(),
        }
    }

    /// Whether the held wrapper is a `IntValue`.
    pub fn is_int_value(&self) -> (r: bool)
        ensures
            r == (self is IntValue),
            r == (self@.0 == ValueKind::Int),
    {
        match self {
            BasicMetadataValueEnum::IntValue(_) => true,
            _ => false,
        }
    }

    /// The held `IntValue`; the caller knows that one is held.
    pub fn as_int_value(&self) -> (r: &IntValue)
        requires
            self is IntValue,
        ensures
            *r == self->IntValue_0,
            r@ == self@.1,
    {
        match self {
            BasicMetadataValueEnum::IntValue(v) => v,
            _ => unreached(),
        }
    }

    /// The held `IntValue`, or `None` where another wrapper is held.
    pub fn try_as_int_value(&self) -> (r: Option<&IntValue>)
        ensures
            r is Some <==> self is IntValue,
            r is Some ==> *r->0 == self->IntValue_0,
    {
        match self {
            BasicMetadataValueEnum::IntValue(v) => Some(v),
            _ => None,
        }
    }

    /// The held `IntValue`, by value; the caller knows that one is held.
    pub fn into_int_value(self) -> (r: IntValue)
        requires
            self is IntValue,
        ensures
            r == self->IntValue_0,
            r@ == self@.1,
    {
        match self {
            BasicMetadataValueEnum::IntValue(v) => v,
            _ => unreached(),
        }
    }

    /// Whether the held wrapper is a `FloatValue`.
    pub fn is_float_value(&self) -> (r: bool)
        ensures
            r == (self is FloatValue),
            r == (self@.0 == ValueKind::Float),
    {
        match self {
            BasicMetadataValueEnum::FloatValue(_) => true,
            _ => false,
        }
    }

    /// The held `FloatValue`; the caller knows that one is held.
    pub fn as_float_value(&self) -> (r: &FloatValue)
        requires
            self is FloatValue,
        ensures
            *r == self->FloatValue_0,
            r@ == self@.1,
    {
        match self {
            BasicMetadataValueEnum::FloatValue(v) => v,
            _ => unreached(),
        }
    }

    /// The held `FloatValue`, or `None` where another wrapper is held.
    pub fn try_as_float_value(&self) -> (r: Option<&FloatValue>)
        ensures
            r is Some <==> self is FloatValue,
            r is Some ==> *r->0 == self->FloatValue_0,
    {
        match self {
            BasicMetadataValueEnum::FloatValue(v) => Some(v),
            _ => None,
        }
    }

    /// The held `FloatValue`, by value; the caller knows that one is held.
    pub fn into_float_value(self) -> (r: FloatValue)
        requires
            self is FloatValue,
        ensures
            r == self->FloatValue_0,
            r@ == self@.1,
    {
        match self {
            BasicMetadataValueEnum::FloatValue(v) => v,
            _ => unreached(),
        }
    }

    /// Whether the held wrapper is a `PointerValue`.
    pub fn is_pointer_value(&self) -> (r: bool)
        ensures
            r == (self is PointerValue),
            r == (self@.0 == ValueKind::Pointer),
    {
        match self {
            BasicMetadataValueEnum::PointerValue(_) => true,
            _ => false,
        }
    }

    /// The held `PointerValue`; the caller knows that one is held.
    pub fn as_pointer_value(&self) -> (r: &PointerValue)
        requires
            self is PointerValue,
        ensures
            *r == self->PointerValue_0,
            r@ == self@.1,
    {
        match self {
            BasicMetadataValueEnum::PointerValue(v) => v,
            _ => unreached(),
        }
    }

    /// The held `PointerValue`, or `None` where another wrapper is held.
    pub fn try_as_pointer_value(&self) -> (r: Option<&PointerValue>)
        ensures
            r is Some <==> self is PointerValue,
            r is Some ==> *r->0 == self->PointerValue_0,
    {
        match self {
            BasicMetadataValueEnum::PointerValue(v) => Some(v),
            _ => None,
        }
    }

    /// The held `PointerValue`, by value; the caller knows that one is held.
    pub fn into_pointer_value(self) -> (r: PointerValue)
        requires
            self is PointerValue,
        ensures
            r == self->PointerValue_0,
            r@ == self@.1,
    {
        match self {
            BasicMetadataValueEnum::PointerValue(v) => v,
            _ => unreached(),
        }
    }

    /// Whether the held wrapper is a `StructValue`.
    pub fn is_struct_value(&self) -> (r: bool)
        ensures
            r == (self is StructValue),
            r == (self@.0 == ValueKind::Struct),
    {
        match self {
            BasicMetadataValueEnum::StructValue(_) => true,
            _ => false,
        }
    }

    /// The held `StructValue`; the caller knows that one is held.
    pub fn as_struct_value(&self) -> (r: &StructValue)
        requires
            self is StructValue,
        ensures
            *r == self->StructValue_0,
            r@ == self@.1,
    {
        match self {
            BasicMetadataValueEnum::StructValue(v) => v,
            _ => unreached(),
        }
    }

    /// The held `StructValue`, or `None` where another wrapper is held.
    pub fn try_as_struct_value(&self) -> (r: Option<&StructValue>)
        ensures
            r is Some <==> self is StructValue,
            r is Some ==> *r->0 == self->StructValue_0,
    {
        match self {
            BasicMetadataValueEnum::StructValue(v) => Some(v),
            _ => None,
        }
    }

    /// The held `StructValue`, by value; the caller knows that one is held.
    pub fn into_struct_value(self) -> (r: StructValue)
        requires
            self is StructValue,
        ensures
            r == self->StructValue_0,
            r@ == self@.1,
    {
        match self {
            BasicMetadataValueEnum::StructValue(v) => v,
            _ => unreached(),
        }
    }

    /// Whether the held wrapper is a `VectorValue`.
    pub fn is_vector_value(&self) -> (r: bool)
        ensures
            r == (self is VectorValue),
            r == (self@.0 == ValueKind::Vector),
    {
        match self {
            BasicMetadataValueEnum::VectorValue(_) => true,
            _ => false,
        }
    }

    /// The held `VectorValue`; the caller knows that one is held.
    pub fn as_vector_value(&self) -> (r: &VectorValue)
        requires
            self is VectorValue,
        ensures
            *r == self->VectorValue_0,
            r@ == self@.1,
    {
        match self {
            BasicMetadataValueEnum::VectorValue(v) => v,
            _ => unreached(),
        }
    }

    /// The held `VectorValue`, or `None` where another wrapper is held.
    pub fn try_as_vector_value(&self) -> (r: Option<&VectorValue>)
        ensures
            r is Some <==> self is VectorValue,
            r is Some ==> *r->0 == self->VectorValue_0,
    {
        match self {
            BasicMetadataValueEnum::VectorValue(v) => Some(v),
            _ => None,
        }
    }

    /// The held `VectorValue`, by value; the caller knows that one is held.
    pub fn into_vector_value(self) -> (r: VectorValue)
        requires
            self is VectorValue,
        ensures
            r == self->VectorValue_0,
            r@ == self@.1,
    {
        match self {
            BasicMetadataValueEnum::VectorValue(v) => v,
            _ => unreached(),
        }
    }

    /// Whether the held wrapper is a `MetadataValue`.
    pub fn is_metadata_value(&self) -> (r: bool)
        ensures
            r == (self is MetadataValue),
            r == (self@.0 == ValueKind::Metadata),
    {
        match self {
            BasicMetadataValueEnum::MetadataValue(_) => true,
            _ => false,
        }
    }

    /// The held `MetadataValue`; the caller knows that one is held.
    pub fn as_metadata_value(&self) -> (r: &MetadataValue)
        requires
            self is MetadataValue,
        ensures
            *r == self->MetadataValue_0,
            r@ == self@.1,
    {
        match self {
            BasicMetadataValueEnum::MetadataValue(v) => v,
            _ => unreached(),
        }
    }

    /// The held `MetadataValue`, or `None` where another wrapper is held.
    pub fn try_as_metadata_value(&self) -> (r: Option<&MetadataValue>)
        ensures
            r is Some <==> self is MetadataValue,
            r is Some ==> *r->0 == self->MetadataValue_0,
    {
        match self {
            BasicMetadataValueEnum::MetadataValue(v) => Some(v),
            _ => None,
        }
    }

    /// The held `MetadataValue`, by value; the caller knows that one is held.
    pub fn into_metadata_value(self) -> (r: MetadataValue)
        requires
            self is MetadataValue,
        ensures
            r == self->MetadataValue_0,
            r@ == self@.1,
    {
        match self {
            BasicMetadataValueEnum::MetadataValue(v) => v,
            _ => unreached(),
        }
    }
}

impl From<ArrayValue> for BasicMetadataValueEnum {
    fn from(value: ArrayValue) -> (r: BasicMetadataValueEnum) {
        BasicMetadataValueEnum::ArrayValue(value)
    }
}

impl vstd::std_specs::convert::FromSpecImpl<ArrayValue> for BasicMetadataValueEnum {
    open spec fn obeys_from_spec() -> bool {
        true
    }

    open spec fn from_spec(v: ArrayValue) -> BasicMetadataValueEnum {
        BasicMetadataValueEnum::ArrayValue(v)
    }
}

impl From<IntValue> for BasicMetadataValueEnum {
    fn from(value: IntValue) -> (r: BasicMetadataValueEnum) {
        BasicMetadataValueEnum::IntValue(value)
    }
}

impl vstd::std_specs::convert::FromSpecImpl<IntValue> for BasicMetadataValueEnum {
    open spec fn obeys_from_spec() -> bool {
        true
    }

    open spec fn from_spec(v: IntValue) -> BasicMetadataValueEnum {
        BasicMetadataValueEnum::IntValue(v)
    }
}

impl From<FloatValue> for BasicMetadataValueEnum {
    fn from(value: FloatValue) -> (r: BasicMetadataValueEnum) {
        BasicMetadataValueEnum::FloatValue(value)
    }
}

impl vstd::std_specs::convert::FromSpecImpl<FloatValue> for BasicMetadataValueEnum {
    open spec fn obeys_from_spec() -> bool {
        true
    }

    open spec fn from_spec(v: FloatValue) -> BasicMetadataValueEnum {
        BasicMetadataValueEnum::FloatValue(v)
    }
}

impl From<PointerValue> for BasicMetadataValueEnum {
    fn from(value: PointerValue) -> (r: BasicMetadataValueEnum) {
        BasicMetadataValueEnum::PointerValue(value)
    }
}

impl vstd::std_specs::convert::FromSpecImpl<PointerValue> for BasicMetadataValueEnum {
    open spec fn obeys_from_spec() -> bool {
        true
    }

    open spec fn from_spec(v: PointerValue) -> BasicMetadataValueEnum {
        BasicMetadataValueEnum::PointerValue(v)
    }
}

impl From<StructValue> for BasicMetadataValueEnum {
    fn from(value: StructValue) -> (r: BasicMetadataValueEnum) {
        BasicMetadataValueEnum::StructValue(value)
    }
}

impl vstd::std_specs::convert::FromSpecImpl<StructValue> for BasicMetadataValueEnum {
    open spec fn obeys_from_spec() -> bool {
        true
    }

    open spec fn from_spec(v: StructValue) -> BasicMetadataValueEnum {
        BasicMetadataValueEnum::StructValue(v)
    }
}

impl From<VectorValue> for BasicMetadataValueEnum {
    fn from(value: VectorValue) -> (r: BasicMetadataValueEnum) {
        BasicMetadataValueEnum::VectorValue(value)
    }
}

impl vstd::std_specs::convert::FromSpecImpl<VectorValue> for BasicMetadataValueEnum {
    open spec fn obeys_from_spec() -> bool {
        true
    }

    open spec fn from_spec(v: VectorValue) -> BasicMetadataValueEnum {
        BasicMetadataValueEnum::VectorValue(v)
    }
}

impl From<MetadataValue> for BasicMetadataValueEnum {
    fn from(value: MetadataValue) -> (r: BasicMetadataValueEnum) {
        BasicMetadataValueEnum::MetadataValue(value)
    }
}

impl vstd::std_specs::convert::FromSpecImpl<MetadataValue> for BasicMetadataValueEnum {
    open spec fn obeys_from_spec() -> bool {
        true
    }

    open spec fn from_spec(v: MetadataValue) -> BasicMetadataValueEnum {
        BasicMetadataValueEnum::MetadataValue(v)
    }
}

impl AnyValueEnum {
    /// The type of the referenced value, classified by its kind.
    pub fn get_type(&self) -> (r: AnyTypeEnum)
        ensures
            r@ == self@.1.ty,
            r.fits(),
    {
        let value = self.as_value_ref();
        AnyTypeEnum::new(value.ty)
    }

    /// The `AnyValueEnum` that holds the same wrapper as `v`.
    pub open spec fn from_basic(v: BasicValueEnum) -> AnyValueEnum {
        match v {
            BasicValueEnum::ArrayValue(w) => AnyValueEnum::ArrayValue(w),
            BasicValueEnum::IntValue(w) => AnyValueEnum::IntValue(w),
            BasicValueEnum::FloatValue(w) => AnyValueEnum::FloatValue(w),
            BasicValueEnum::PointerValue(w) => AnyValueEnum::PointerValue(w),
            BasicValueEnum::StructValue(w) => AnyValueEnum::StructValue(w),
            BasicValueEnum::VectorValue(w) => AnyValueEnum::VectorValue(w),
        }
    }
}

impl BasicValueEnum {
    /// The type of the referenced value, classified by its kind.
    pub fn get_type(&self) -> (r: BasicTypeEnum)
        ensures
            r@ == self@.1.ty,
            r.fits(),
    {
        let value = self.as_value_ref();
        BasicTypeEnum::new(value.ty)
    }

    /// The referenced value as an instruction, where it is one. The held wrapper is kept.
    pub fn as_instruction(&self) -> (r: Option<InstructionValue>)
        ensures
            r is Some <==> self@.1.is_instruction,
            r is Some ==> r->0@ == self@.1,
    {
        match self {
            BasicValueEnum::ArrayValue(v) => v.as_instruction(),
            BasicValueEnum::IntValue(v) => v.as_instruction(),
            BasicValueEnum::FloatValue(v) => v.as_instruction(),
            BasicValueEnum::PointerValue(v) => v.as_instruction(),
            BasicValueEnum::StructValue(v) => v.as_instruction(),
            BasicValueEnum::VectorValue(v) => v.as_instruction(),
        }
    }
}

/// Every member of `BasicValueEnum` is one of `AnyValueEnum`, so the held wrapper moves over
/// as it is, with no classification.
impl From<BasicValueEnum> for AnyValueEnum {
    fn from(value: BasicValueEnum) -> (r: AnyValueEnum) {
        match value {
            BasicValueEnum::ArrayValue(w) => AnyValueEnum::ArrayValue(w),
            BasicValueEnum::IntValue(w) => AnyValueEnum::IntValue(w),
            BasicValueEnum::FloatValue(w) => AnyValueEnum::FloatValue(w),
            BasicValueEnum::PointerValue(w) => AnyValueEnum::PointerValue(w),
            BasicValueEnum::StructValue(w) => AnyValueEnum::StructValue(w),
            BasicValueEnum::VectorValue(w) => AnyValueEnum::VectorValue(w),
        }
    }
}

impl vstd::std_specs::convert::FromSpecImpl<BasicValueEnum> for AnyValueEnum {
    open spec fn obeys_from_spec() -> bool {
        true
    }

    open spec fn from_spec(v: BasicValueEnum) -> AnyValueEnum {
        AnyValueEnum::from_basic(v)
    }
}

} // verus!

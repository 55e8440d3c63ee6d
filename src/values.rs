//! Concrete value wrappers: copyable, non-owning references to native values of one kind.
use vstd::prelude::*;

use crate::handle::{is_float_kind, TypeKind, ValueRef};
use crate::types::AnyTypeEnum;

verus! {

/// A reference to an array value. It never owns the native value.
#[derive(Clone, Copy, Debug, PartialEq, Eq)]
pub struct ArrayValue {
    value: ValueRef,
}

impl View for ArrayValue {
    type V = ValueRef;

    closed spec fn view(&self) -> ValueRef {
        self.value
    }
}

impl ArrayValue {
    /// The native values this wrapper may reference.
    pub open spec fn accepts(value: ValueRef) -> bool {
        value.ty.kind == TypeKind::Array
    }

    #[verifier::type_invariant]
    spec fn inv(self) -> bool {
        Self::accepts(self.value)
    }

    /// Wraps a native value that this wrapper accepts.
    pub fn new(value: ValueRef) -> (r: Self)
        requires
            Self::accepts(value),
        ensures
            r@ == value,
    {
        ArrayValue { value }
    }

    /// The native value referenced.
    pub fn as_value_ref(&self) -> (r: ValueRef)
        ensures
            r == self@,
            Self::accepts(r),
    {
        proof {
            use_type_invariant(&*self);
        }
        self.value
    }

    /// Two wrappers that reference the same native value are equal.
    pub proof fn lemma_view_injective(a: Self, b: Self)
        requires
            a@ == b@,
        ensures
            a == b,
    {
    }

    /// The referenced value as an instruction, where it is one.
    pub fn as_instruction(&self) -> (r: Option<InstructionValue>)
        ensures
            r is Some <==> self@.is_instruction,
            r is Some ==> r->0@ == self@,
    {
        proof {
            use_type_invariant(&*self);
        }
        if self.value.is_instruction {
            Some(InstructionValue::new(self.value))
        } else {
            None
        }
    }
}

/// A reference to an integer value. It never owns the native value.
#[derive(Clone, Copy, Debug, PartialEq, Eq)]
pub struct IntValue {
    value: ValueRef,
}

impl View for IntValue {
    type V = ValueRef;

    closed spec fn view(&self) -> ValueRef {
        self.value
    }
}

impl IntValue {
    /// The native values this wrapper may reference.
    pub open spec fn accepts(value: ValueRef) -> bool {
        value.ty.kind == TypeKind::Integer
    }

    #[verifier::type_invariant]
    spec fn inv(self) -> bool {
        Self::accepts(self.value)
    }

    /// Wraps a native value that this wrapper accepts.
    pub fn new(value: ValueRef) -> (r: Self)
        requires
            Self::accepts(value),
        ensures
            r@ == value,
    {
        IntValue { value }
    }

    /// The native value referenced.
    pub fn as_value_ref(&self) -> (r: ValueRef)
        ensures
            r == self@,
            Self::accepts(r),
    {
        proof {
            use_type_invariant(&*self);
        }
        self.value
    }

    /// Two wrappers that reference the same native value are equal.
    pub proof fn lemma_view_injective(a: Self, b: Self)
        requires
            a@ == b@,
        ensures
            a == b,
    {
    }

    /// The referenced value as an instruction, where it is one.
    pub fn as_instruction(&self) -> (r: Option<InstructionValue>)
        ensures
            r is Some <==> self@.is_instruction,
            r is Some ==> r->0@ == self@,
    {
        proof {
            use_type_invariant(&*self);
        }
        if self.value.is_instruction {
            Some(InstructionValue::new(self.value))
        } else {
            None
        }
    }
}

/// A reference to a floating-point value. It never owns the native value.
#[derive(Clone, Copy, Debug, PartialEq, Eq)]
pub struct FloatValue {
    value: ValueRef,
}

impl View for FloatValue {
    type V = ValueRef;

    closed spec fn view(&self) -> ValueRef {
        self.value
    }
}

impl FloatValue {
    /// The native values this wrapper may reference.
    pub open spec fn accepts(value: ValueRef) -> bool {
        is_float_kind(value.ty.kind)
    }

    #[verifier::type_invariant]
    spec fn inv(self) -> bool {
        Self::accepts(self.value)
    }

    /// Wraps a native value that this wrapper accepts.
    pub fn new(value: ValueRef) -> (r: Self)
        requires
            Self::accepts(value),
        ensures
            r@ == value,
    {
        FloatValue { value }
    }

    /// The native value referenced.
    pub fn as_value_ref(&self) -> (r: ValueRef)
        ensures
            r == self@,
            Self::accepts(r),
    {
        proof {
            use_type_invariant(&*self);
        }
        self.value
    }

    /// Two wrappers that reference the same native value are equal.
    pub proof fn lemma_view_injective(a: Self, b: Self)
        requires
            a@ == b@,
        ensures
            a == b,
    {
    }

    /// The referenced value as an instruction, where it is one.
    pub fn as_instruction(&self) -> (r: Option<InstructionValue>)
        ensures
            r is Some <==> self@.is_instruction,
            r is Some ==> r->0@ == self@,
    {
        proof {
            use_type_invariant(&*self);
        }
        if self.value.is_instruction {
            Some(InstructionValue::new(self.value))
        } else {
            None
        }
    }
}

/// A reference to a pointer value. It never owns the native value.
#[derive(Clone, Copy, Debug, PartialEq, Eq)]
pub struct PointerValue {
    value: ValueRef,
}

impl View for PointerValue {
    type V = ValueRef;

    closed spec fn view(&self) -> ValueRef {
        self.value
    }
}

impl PointerValue {
    /// The native values this wrapper may reference.
    pub open spec fn accepts(value: ValueRef) -> bool {
        value.ty.kind == TypeKind::Pointer
    }

    #[verifier::type_invariant]
    spec fn inv(self) -> bool {
        Self::accepts(self.value)
    }

    /// Wraps a native value that this wrapper accepts.
    pub fn new(value: ValueRef) -> (r: Self)
        requires
            Self::accepts(value),
        ensures
            r@ == value,
    {
        PointerValue { value }
    }

    /// The native value referenced.
    pub fn as_value_ref(&self) -> (r: ValueRef)
        ensures
            r == self@,
            Self::accepts(r),
    {
        proof {
            use_type_invariant(&*self);
        }
        self.value
    }

    /// Two wrappers that reference the same native value are equal.
    pub proof fn lemma_view_injective(a: Self, b: Self)
        requires
            a@ == b@,
        ensures
            a == b,
    {
    }

    /// The referenced value as an instruction, where it is one.
    pub fn as_instruction(&self) -> (r: Option<InstructionValue>)
        ensures
            r is Some <==> self@.is_instruction,
            r is Some ==> r->0@ == self@,
    {
        proof {
            use_type_invariant(&*self);
        }
        if self.value.is_instruction {
            Some(InstructionValue::new(self.value))
        } else {
            None
        }
    }
}

/// A reference to a struct value. It never owns the native value.
#[derive(Clone, Copy, Debug, PartialEq, Eq)]
pub struct StructValue {
    value: ValueRef,
}

impl View for StructValue {
    type V = ValueRef;

    closed spec fn view(&self) -> ValueRef {
        self.value
    }
}

impl StructValue {
    /// The native values this wrapper may reference.
    pub open spec fn accepts(value: ValueRef) -> bool {
        value.ty.kind == TypeKind::Struct
    }

    #[verifier::type_invariant]
    spec fn inv(self) -> bool {
        Self::accepts(self.value)
    }

    /// Wraps a native value that this wrapper accepts.
    pub fn new(value: ValueRef) -> (r: Self)
        requires
            Self::accepts(value),
        ensures
            r@ == value,
    {
        StructValue { value }
    }

    /// The native value referenced.
    pub fn as_value_ref(&self) -> (r: ValueRef)
        ensures
            r == self@,
            Self::accepts(r),
    {
        proof {
            use_type_invariant(&*self);
        }
        self.value
    }

    /// Two wrappers that reference the same native value are equal.
    pub proof fn lemma_view_injective(a: Self, b: Self)
        requires
            a@ == b@,
        ensures
            a == b,
    {
    }

    /// The referenced value as an instruction, where it is one.
    pub fn as_instruction(&self) -> (r: Option<InstructionValue>)
        ensures
            r is Some <==> self@.is_instruction,
            r is Some ==> r->0@ == self@,
    {
        proof {
            use_type_invariant(&*self);
        }
        if self.value.is_instruction {
            Some(InstructionValue::new(self.value))
        } else {
            None
        }
    }
}

/// A reference to a vector value. It never owns the native value.
#[derive(Clone, Copy, Debug, PartialEq, Eq)]
pub struct VectorValue {
    value: ValueRef,
}

impl View for VectorValue {
    type V = ValueRef;

    closed spec fn view(&self) -> ValueRef {
        self.value
    }
}

impl VectorValue {
    /// The native values this wrapper may reference.
    pub open spec fn accepts(value: ValueRef) -> bool {
        value.ty.kind == TypeKind::Vector
    }

    #[verifier::type_invariant]
    spec fn inv(self) -> bool {
        Self::accepts(self.value)
    }

    /// Wraps a native value that this wrapper accepts.
    pub fn new(value: ValueRef) -> (r: Self)
        requires
            Self::accepts(value),
        ensures
            r@ == value,
    {
        VectorValue { value }
    }

    /// The native value referenced.
    pub fn as_value_ref(&self) -> (r: ValueRef)
        ensures
            r == self@,
            Self::accepts(r),
    {
        proof {
            use_type_invariant(&*self);
        }
        self.value
    }

    /// Two wrappers that reference the same native value are equal.
    pub proof fn lemma_view_injective(a: Self, b: Self)
        requires
            a@ == b@,
        ensures
            a == b,
    {
    }

    /// The referenced value as an instruction, where it is one.
    pub fn as_instruction(&self) -> (r: Option<InstructionValue>)
        ensures
            r is Some <==> self@.is_instruction,
            r is Some ==> r->0@ == self@,
    {
        proof {
            use_type_invariant(&*self);
        }
        if self.value.is_instruction {
            Some(InstructionValue::new(self.value))
        } else {
            None
        }
    }
}

/// A reference to a function value. It never owns the native value.
#[derive(Clone, Copy, Debug, PartialEq, Eq)]
pub struct FunctionValue {
    value: ValueRef,
}

impl View for FunctionValue {
    type V = ValueRef;

    closed spec fn view(&self) -> ValueRef {
        self.value
    }
}

impl FunctionValue {
    /// The native values this wrapper may reference.
    pub open spec fn accepts(value: ValueRef) -> bool {
        value.is_function && AnyTypeEnum::accepts(value.ty)
    }

    #[verifier::type_invariant]
    spec fn inv(self) -> bool {
        Self::accepts(self.value)
    }

    /// Wraps a native value that this wrapper accepts.
    pub fn new(value: ValueRef) -> (r: Self)
        requires
            Self::accepts(value),
        ensures
            r@ == value,
    {
        FunctionValue { value }
    }

    /// The native value referenced.
    pub fn as_value_ref(&self) -> (r: ValueRef)
        ensures
            r == self@,
            Self::accepts(r),
    {
        proof {
            use_type_invariant(&*self);
        }
        self.value
    }

    /// Two wrappers that reference the same native value are equal.
    pub proof fn lemma_view_injective(a: Self, b: Self)
        requires
            a@ == b@,
        ensures
            a == b,
    {
    }

    /// The referenced value as an instruction, where it is one.
    pub fn as_instruction(&self) -> (r: Option<InstructionValue>)
        ensures
            r is Some <==> self@.is_instruction,
            r is Some ==> r->0@ == self@,
    {
        proof {
            use_type_invariant(&*self);
        }
        if self.value.is_instruction {
            Some(InstructionValue::new(self.value))
        } else {
            None
        }
    }
}

/// A reference to an instruction value. It never owns the native value.
#[derive(Clone, Copy, Debug, PartialEq, Eq)]
pub struct InstructionValue {
    value: ValueRef,
}

impl View for InstructionValue {
    type V = ValueRef;

    closed spec fn view(&self) -> ValueRef {
        self.value
    }
}

impl InstructionValue {
    /// The native values this wrapper may reference.
    pub open spec fn accepts(value: ValueRef) -> bool {
        value.is_instruction && AnyTypeEnum::accepts(value.ty)
    }

    #[verifier::type_invariant]
    spec fn inv(self) -> bool {
        Self::accepts(self.value)
    }

    /// Wraps a native value that this wrapper accepts.
    pub fn new(value: ValueRef) -> (r: Self)
        requires
            Self::accepts(value),
        ensures
            r@ == value,
    {
        InstructionValue { value }
    }

    /// The native value referenced.
    pub fn as_value_ref(&self) -> (r: ValueRef)
        ensures
            r == self@,
            Self::accepts(r),
    {
        proof {
            use_type_invariant(&*self);
        }
        self.value
    }

    /// Two wrappers that reference the same native value are equal.
    pub proof fn lemma_view_injective(a: Self, b: Self)
        requires
            a@ == b@,
        ensures
            a == b,
    {
    }
}

/// A reference to a metadata value. It never owns the native value.
#[derive(Clone, Copy, Debug, PartialEq, Eq)]
pub struct MetadataValue {
    value: ValueRef,
}

impl View for MetadataValue {
    type V = ValueRef;

    closed spec fn view(&self) -> ValueRef {
        self.value
    }
}

impl MetadataValue {
    /// The native values this wrapper may reference.
    pub open spec fn accepts(value: ValueRef) -> bool {
        value.ty.kind == TypeKind::Metadata
    }

    #[verifier::type_invariant]
    spec fn inv(self) -> bool {
        Self::accepts(self.value)
    }

    /// Wraps a native value that this wrapper accepts.
    pub fn new(value: ValueRef) -> (r: Self)
        requires
            Self::accepts(value),
        ensures
            r@ == value,
    {
        MetadataValue { value }
    }

    /// The native value referenced.
    pub fn as_value_ref(&self) -> (r: ValueRef)
        ensures
            r == self@,
            Self::accepts(r),
    {
        proof {
            use_type_invariant(&*self);
        }
        self.value
    }

    /// Two wrappers that reference the same native value are equal.
    pub proof fn lemma_view_injective(a: Self, b: Self)
        requires
            a@ == b@,
        ensures
            a == b,
    {
    }
}

/// A reference to a phi value. It never owns the native value.
#[derive(Clone, Copy, Debug, PartialEq, Eq)]
pub struct PhiValue {
    value: ValueRef,
}

impl View for PhiValue {
    type V = ValueRef;

    closed spec fn view(&self) -> ValueRef {
        self.value
    }
}

impl PhiValue {
    /// The native values this wrapper may reference.
    pub open spec fn accepts(value: ValueRef) -> bool {
        value.is_instruction && AnyTypeEnum::accepts(value.ty)
    }

    #[verifier::type_invariant]
    spec fn inv(self) -> bool {
        Self::accepts(self.value)
    }

    /// Wraps a native value that this wrapper accepts.
    pub fn new(value: ValueRef) -> (r: Self)
        requires
            Self::accepts(value),
        ensures
            r@ == value,
    {
        PhiValue { value }
    }

    /// The native value referenced.
    pub fn as_value_ref(&self) -> (r: ValueRef)
        ensures
            r == self@,
            Self::accepts(r),
    {
        proof {
            use_type_invariant(&*self);
        }
        self.value
    }

    /// Two wrappers that reference the same native value are equal.
    pub proof fn lemma_view_injective(a: Self, b: Self)
        requires
            a@ == b@,
        ensures
            a == b,
    {
    }

    /// The referenced value as an instruction, where it is one.
    pub fn as_instruction(&self) -> (r: Option<InstructionValue>)
        ensures
            r is Some <==> self@.is_instruction,
            r is Some ==> r->0@ == self@,
    {
        proof {
            use_type_invariant(&*self);
        }
        if self.value.is_instruction {
            Some(InstructionValue::new(self.value))
        } else {
            None
        }
    }
}

} // verus!

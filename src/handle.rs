//! Plain-value model of native values and types.
use vstd::prelude::*;

verus! {

/// The structural category of a native type.
#[derive(Clone, Copy, Debug, PartialEq, Eq, Structural)]
pub enum TypeKind {
    Void,
    Half,
    Float,
    Double,
    X86Fp80,
    Fp128,
    PpcFp128,
    Label,
    Integer,
    Function,
    Struct,
    Array,
    Pointer,
    Vector,
    Metadata,
    X86Mmx,
    Token,
    ScalableVector,
    BFloat,
    X86Amx,
}

/// A reference to a native type: its identity and its kind.
///
/// The native library owns the type; this only names it.
#[derive(Clone, Copy, Debug, PartialEq, Eq, Structural)]
pub struct TypeRef {
    pub addr: usize,
    pub kind: TypeKind,
}

/// A reference to a native value, with what the classification reads of it.
///
/// The native library owns the value; this only names it. `ty` is the value's type,
/// `is_function` and `is_instruction` tell whether the value is a function or an
/// instruction.
#[derive(Clone, Copy, Debug, PartialEq, Eq, Structural)]
pub struct ValueRef {
    pub addr: usize,
    pub ty: TypeRef,
    pub is_function: bool,
    pub is_instruction: bool,
}

/// The kinds of concrete value wrappers.
#[derive(Clone, Copy, Debug, PartialEq, Eq, Structural)]
pub enum ValueKind {
    Array,
    Int,
    Float,
    Pointer,
    Struct,
    Vector,
    Function,
    Instruction,
    Metadata,
    Phi,
}

/// The floating-point type kinds.
pub open spec fn is_float_kind(k: TypeKind) -> bool {
    ||| k == TypeKind::Half
    ||| k == TypeKind::Float
    ||| k == TypeKind::Double
    ||| k == TypeKind::X86Fp80
    ||| k == TypeKind::Fp128
    ||| k == TypeKind::PpcFp128
}

/// The wrapper kind that a value of type kind `k` is classified as, if any.
pub open spec fn value_kind_for(k: TypeKind) -> Option<ValueKind> {
    if is_float_kind(k) {
        Some(ValueKind::Float)
    } else {
        match k {
            TypeKind::Integer => Some(ValueKind::Int),
            TypeKind::Struct => Some(ValueKind::Struct),
            TypeKind::Pointer => Some(ValueKind::Pointer),
            TypeKind::Array => Some(ValueKind::Array),
            TypeKind::Vector => Some(ValueKind::Vector),
            TypeKind::Function => Some(ValueKind::Function),
            TypeKind::Metadata => Some(ValueKind::Metadata),
            _ => None,
        }
    }
}

/// Whether a value of type kind `k` may be classified: its wrapper kind exists, is one of
/// `member`, and a function-typed value is indeed a function.
pub open spec fn classifiable(value: ValueRef, member: spec_fn(ValueKind) -> bool) -> bool {
    &&& value_kind_for(value.ty.kind) is Some
    &&& member(value_kind_for(value.ty.kind)->0)
    &&& value_kind_for(value.ty.kind) == Some(ValueKind::Function) ==> value.is_function
}

/// What classifying an accepted value gives: the wrapper kind of its type, and the value.
pub open spec fn classified(value: ValueRef) -> (ValueKind, ValueRef) {
    (value_kind_for(value.ty.kind)->0, value)
}

/// Whether the wrappers of kind `k` are told apart by the kind of their value's type alone
/// (functions, instructions and phi nodes are not).
pub open spec fn kind_follows_type(k: ValueKind) -> bool {
    !(k == ValueKind::Function || k == ValueKind::Instruction || k == ValueKind::Phi)
}

} // verus!

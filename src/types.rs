//! Type wrappers, and the sets that classify a native type by its kind.
use vstd::prelude::*;

use crate::handle::{is_float_kind, TypeKind, TypeRef};

verus! {

/// A reference to an array type. It never owns the native type.
#[derive(Clone, Copy, Debug, PartialEq, Eq)]
pub struct ArrayType {
    ty: TypeRef,
}

impl View for ArrayType {
    type V = TypeRef;

    closed spec fn view(&self) -> TypeRef {
        self.ty
    }
}

impl ArrayType {
    /// The native types this wrapper may reference.
    pub open spec fn accepts(ty: TypeRef) -> bool {
        ty.kind == TypeKind::Array
    }

    #[verifier::type_invariant]
    spec fn inv(self) -> bool {
        Self::accepts(self.ty)
    }

    /// Wraps a native type that this wrapper accepts.
    pub fn new(ty: TypeRef) -> (r: Self)
        requires
            Self::accepts(ty),
        ensures
            r@ == ty,
    {
        ArrayType { ty }
    }

    /// The native type referenced.
    pub fn as_type_ref(&self) -> (r: TypeRef)
        ensures
            r == self@,
            Self::accepts(r),
    {
        proof {
            use_type_invariant(&*self);
        }
        self.ty
    }

    /// Two wrappers that reference the same native type are equal.
    pub proof fn lemma_view_injective(a: Self, b: Self)
        requires
            a@ == b@,
        ensures
            a == b,
    {
    }
}

/// A reference to a floating-point type. It never owns the native type.
#[derive(Clone, Copy, Debug, PartialEq, Eq)]
pub struct FloatType {
    ty: TypeRef,
}

impl View for FloatType {
    type V = TypeRef;

    closed spec fn view(&self) -> TypeRef {
        self.ty
    }
}

impl FloatType {
    /// The native types this wrapper may reference.
    pub open spec fn accepts(ty: TypeRef) -> bool {
        is_float_kind(ty.kind)
    }

    #[verifier::type_invariant]
    spec fn inv(self) -> bool {
        Self::accepts(self.ty)
    }

    /// Wraps a native type that this wrapper accepts.
    pub fn new(ty: TypeRef) -> (r: Self)
        requires
            Self::accepts(ty),
        ensures
            r@ == ty,
    {
        FloatType { ty }
    }

    /// The native type referenced.
    pub fn as_type_ref(&self) -> (r: TypeRef)
        ensures
            r == self@,
            Self::accepts(r),
    {
        proof {
            use_type_invariant(&*self);
        }
        self.ty
    }

    /// Two wrappers that reference the same native type are equal.
    pub proof fn lemma_view_injective(a: Self, b: Self)
        requires
            a@ == b@,
        ensures
            a == b,
    {
    }
}

/// A reference to a function type. It never owns the native type.
#[derive(Clone, Copy, Debug, PartialEq, Eq)]
pub struct FunctionType {
    ty: TypeRef,
}

impl View for FunctionType {
    type V = TypeRef;

    closed spec fn view(&self) -> TypeRef {
        self.ty
    }
}

impl FunctionType {
    /// The native types this wrapper may reference.
    pub open spec fn accepts(ty: TypeRef) -> bool {
        ty.kind == TypeKind::Function
    }

    #[verifier::type_invariant]
    spec fn inv(self) -> bool {
        Self::accepts(self.ty)
    }

    /// Wraps a native type that this wrapper accepts.
    pub fn new(ty: TypeRef) -> (r: Self)
        requires
            Self::accepts(ty),
        ensures
            r@ == ty,
    {
        FunctionType { ty }
    }

    /// The native type referenced.
    pub fn as_type_ref(&self) -> (r: TypeRef)
        ensures
            r == self@,
            Self::accepts(r),
    {
        proof {
            use_type_invariant(&*self);
        }
        self.ty
    }

    /// Two wrappers that reference the same native type are equal.
    pub proof fn lemma_view_injective(a: Self, b: Self)
        requires
            a@ == b@,
        ensures
            a == b,
    {
    }
}

/// A reference to an integer type. It never owns the native type.
#[derive(Clone, Copy, Debug, PartialEq, Eq)]
pub struct IntType {
    ty: TypeRef,
}

impl View for IntType {
    type V = TypeRef;

    closed spec fn view(&self) -> TypeRef {
        self.ty
    }
}

impl IntType {
    /// The native types this wrapper may reference.
    pub open spec fn accepts(ty: TypeRef) -> bool {
        ty.kind == TypeKind::Integer
    }

    #[verifier::type_invariant]
    spec fn inv(self) -> bool {
        Self::accepts(self.ty)
    }

    /// Wraps a native type that this wrapper accepts.
    pub fn new(ty: TypeRef) -> (r: Self)
        requires
            Self::accepts(ty),
        ensures
            r@ == ty,
    {
        IntType { ty }
    }

    /// The native type referenced.
    pub fn as_type_ref(&self) -> (r: TypeRef)
        ensures
            r == self@,
            Self::accepts(r),
    {
        proof {
            use_type_invariant(&*self);
        }
        self.ty
    }

    /// Two wrappers that reference the same native type are equal.
    pub proof fn lemma_view_injective(a: Self, b: Self)
        requires
            a@ == b@,
        ensures
            a == b,
    {
    }
}

/// A reference to a pointer type. It never owns the native type.
#[derive(Clone, Copy, Debug, PartialEq, Eq)]
pub struct PointerType {
    ty: TypeRef,
}

impl View for PointerType {
    type V = TypeRef;

    closed spec fn view(&self) -> TypeRef {
        self.ty
    }
}

impl PointerType {
    /// The native types this wrapper may reference.
    pub open spec fn accepts(ty: TypeRef) -> bool {
        ty.kind == TypeKind::Pointer
    }

    #[verifier::type_invariant]
    spec fn inv(self) -> bool {
        Self::accepts(self.ty)
    }

    /// Wraps a native type that this wrapper accepts.
    pub fn new(ty: TypeRef) -> (r: Self)
        requires
            Self::accepts(ty),
        ensures
            r@ == ty,
    {
        PointerType { ty }
    }

    /// The native type referenced.
    pub fn as_type_ref(&self) -> (r: TypeRef)
        ensures
            r == self@,
            Self::accepts(r),
    {
        proof {
            use_type_invariant(&*self);
        }
        self.ty
    }

    /// Two wrappers that reference the same native type are equal.
    pub proof fn lemma_view_injective(a: Self, b: Self)
        requires
            a@ == b@,
        ensures
            a == b,
    {
    }
}

/// A reference to a struct type. It never owns the native type.
#[derive(Clone, Copy, Debug, PartialEq, Eq)]
pub struct StructType {
    ty: TypeRef,
}

impl View for StructType {
    type V = TypeRef;

    closed spec fn view(&self) -> TypeRef {
        self.ty
    }
}

impl StructType {
    /// The native types this wrapper may reference.
    pub open spec fn accepts(ty: TypeRef) -> bool {
        ty.kind == TypeKind::Struct
    }

    #[verifier::type_invariant]
    spec fn inv(self) -> bool {
        Self::accepts(self.ty)
    }

    /// Wraps a native type that this wrapper accepts.
    pub fn new(ty: TypeRef) -> (r: Self)
        requires
            Self::accepts(ty),
        ensures
            r@ == ty,
    {
        StructType { ty }
    }

    /// The native type referenced.
    pub fn as_type_ref(&self) -> (r: TypeRef)
        ensures
            r == self@,
            Self::accepts(r),
    {
        proof {
            use_type_invariant(&*self);
        }
        self.ty
    }

    /// Two wrappers that reference the same native type are equal.
    pub proof fn lemma_view_injective(a: Self, b: Self)
        requires
            a@ == b@,
        ensures
            a == b,
    {
    }
}

/// A reference to a vector type. It never owns the native type.
#[derive(Clone, Copy, Debug, PartialEq, Eq)]
pub struct VectorType {
    ty: TypeRef,
}

impl View for VectorType {
    type V = TypeRef;

    closed spec fn view(&self) -> TypeRef {
        self.ty
    }
}

impl VectorType {
    /// The native types this wrapper may reference.
    pub open spec fn accepts(ty: TypeRef) -> bool {
        ty.kind == TypeKind::Vector
    }

    #[verifier::type_invariant]
    spec fn inv(self) -> bool {
        Self::accepts(self.ty)
    }

    /// Wraps a native type that this wrapper accepts.
    pub fn new(ty: TypeRef) -> (r: Self)
        requires
            Self::accepts(ty),
        ensures
            r@ == ty,
    {
        VectorType { ty }
    }

    /// The native type referenced.
    pub fn as_type_ref(&self) -> (r: TypeRef)
        ensures
            r == self@,
            Self::accepts(r),
    {
        proof {
            use_type_invariant(&*self);
        }
        self.ty
    }

    /// Two wrappers that reference the same native type are equal.
    pub proof fn lemma_view_injective(a: Self, b: Self)
        requires
            a@ == b@,
        ensures
            a == b,
    {
    }
}

/// A reference to the void type. It never owns the native type.
#[derive(Clone, Copy, Debug, PartialEq, Eq)]
pub struct VoidType {
    ty: TypeRef,
}

impl View for VoidType {
    type V = TypeRef;

    closed spec fn view(&self) -> TypeRef {
        self.ty
    }
}

impl VoidType {
    /// The native types this wrapper may reference.
    pub open spec fn accepts(ty: TypeRef) -> bool {
        ty.kind == TypeKind::Void
    }

    #[verifier::type_invariant]
    spec fn inv(self) -> bool {
        Self::accepts(self.ty)
    }

    /// Wraps a native type that this wrapper accepts.
    pub fn new(ty: TypeRef) -> (r: Self)
        requires
            Self::accepts(ty),
        ensures
            r@ == ty,
    {
        VoidType { ty }
    }

    /// The native type referenced.
    pub fn as_type_ref(&self) -> (r: TypeRef)
        ensures
            r == self@,
            Self::accepts(r),
    {
        proof {
            use_type_invariant(&*self);
        }
        self.ty
    }

    /// Two wrappers that reference the same native type are equal.
    pub proof fn lemma_view_injective(a: Self, b: Self)
        requires
            a@ == b@,
        ensures
            a == b,
    {
    }
}

/// Any native type that a value can have.
#[derive(Clone, Copy, Debug, PartialEq, Eq)]
pub enum AnyTypeEnum {
    ArrayType(ArrayType),
    FloatType(FloatType),
    FunctionType(FunctionType),
    IntType(IntType),
    PointerType(PointerType),
    StructType(StructType),
    VectorType(VectorType),
    VoidType(VoidType),
}

impl View for AnyTypeEnum {
    type V = TypeRef;

    open spec fn view(&self) -> TypeRef {
        match *self {
            AnyTypeEnum::ArrayType(t) => t@,
            AnyTypeEnum::FloatType(t) => t@,
            AnyTypeEnum::FunctionType(t) => t@,
            AnyTypeEnum::IntType(t) => t@,
            AnyTypeEnum::PointerType(t) => t@,
            AnyTypeEnum::StructType(t) => t@,
            AnyTypeEnum::VectorType(t) => t@,
            AnyTypeEnum::VoidType(t) => t@,
        }
    }
}

impl AnyTypeEnum {
    /// The native types this set classifies.
    pub open spec fn accepts(ty: TypeRef) -> bool {
        ||| ArrayType::accepts(ty)
        ||| FloatType::accepts(ty)
        ||| FunctionType::accepts(ty)
        ||| IntType::accepts(ty)
        ||| PointerType::accepts(ty)
        ||| StructType::accepts(ty)
        ||| VectorType::accepts(ty)
        ||| VoidType::accepts(ty)
    }

    /// The held wrapper is the one whose kind the referenced type has.
    pub open spec fn fits(self) -> bool {
        match self {
            AnyTypeEnum::ArrayType(t) => ArrayType::accepts(t@),
            AnyTypeEnum::FloatType(t) => FloatType::accepts(t@),
            AnyTypeEnum::FunctionType(t) => FunctionType::accepts(t@),
            AnyTypeEnum::IntType(t) => IntType::accepts(t@),
            AnyTypeEnum::PointerType(t) => PointerType::accepts(t@),
            AnyTypeEnum::StructType(t) => StructType::accepts(t@),
            AnyTypeEnum::VectorType(t) => VectorType::accepts(t@),
            AnyTypeEnum::VoidType(t) => VoidType::accepts(t@),
        }
    }

    /// Classifies a native type by its kind.
    pub fn new(ty: TypeRef) -> (r: Self)
        requires
            Self::accepts(ty),
        ensures
            r@ == ty,
            r.fits(),
    {
        match ty.kind {
            TypeKind::Half | TypeKind::Float | TypeKind::Double | TypeKind::X86Fp80
            | TypeKind::Fp128 | TypeKind::PpcFp128 => AnyTypeEnum::FloatType(FloatType::new(ty)),
            TypeKind::Integer => AnyTypeEnum::IntType(IntType::new(ty)),
            TypeKind::Struct => AnyTypeEnum::StructType(StructType::new(ty)),
            TypeKind::Pointer => AnyTypeEnum::PointerType(PointerType::new(ty)),
            TypeKind::Array => AnyTypeEnum::ArrayType(ArrayType::new(ty)),
            TypeKind::Vector => AnyTypeEnum::VectorType(VectorType::new(ty)),
            TypeKind::Function => AnyTypeEnum::FunctionType(FunctionType::new(ty)),
            TypeKind::Void => AnyTypeEnum::VoidType(VoidType::new(ty)),
            _ => unreached(),
        }
    }

    /// The native type referenced by the held wrapper.
    pub fn as_type_ref(&self) -> (r: TypeRef)
        ensures
            r == self@,
            self.fits(),
    {
        match self {
            AnyTypeEnum::ArrayType(t) => t.as_type_ref(),
            AnyTypeEnum::FloatType(t) => t.as_type_ref(),
            AnyTypeEnum::FunctionType(t) => t.as_type_ref(),
            AnyTypeEnum::IntType(t) => t.as_type_ref(),
            AnyTypeEnum::PointerType(t) => t.as_type_ref(),
            AnyTypeEnum::StructType(t) => t.as_type_ref(),
            AnyTypeEnum::VectorType(t) => t.as_type_ref(),
            AnyTypeEnum::VoidType(t) => t.as_type_ref(),
        }
    }
}

/// The native types of values usable as ordinary operands.
#[derive(Clone, Copy, Debug, PartialEq, Eq)]
pub enum BasicTypeEnum {
    ArrayType(ArrayType),
    FloatType(FloatType),
    IntType(IntType),
    PointerType(PointerType),
    StructType(StructType),
    VectorType(VectorType),
}

impl View for BasicTypeEnum {
    type V = TypeRef;

    open spec fn view(&self) -> TypeRef {
        match *self {
            BasicTypeEnum::ArrayType(t) => t@,
            BasicTypeEnum::FloatType(t) => t@,
            BasicTypeEnum::IntType(t) => t@,
            BasicTypeEnum::PointerType(t) => t@,
            BasicTypeEnum::StructType(t) => t@,
            BasicTypeEnum::VectorType(t) => t@,
        }
    }
}

impl BasicTypeEnum {
    /// The native types this set classifies.
    pub open spec fn accepts(ty: TypeRef) -> bool {
        ||| ArrayType::accepts(ty)
        ||| FloatType::accepts(ty)
        ||| IntType::accepts(ty)
        ||| PointerType::accepts(ty)
        ||| StructType::accepts(ty)
        ||| VectorType::accepts(ty)
    }

    /// The held wrapper is the one whose kind the referenced type has.
    pub open spec fn fits(self) -> bool {
        match self {
            BasicTypeEnum::ArrayType(t) => ArrayType::accepts(t@),
            BasicTypeEnum::FloatType(t) => FloatType::accepts(t@),
            BasicTypeEnum::IntType(t) => IntType::accepts(t@),
            BasicTypeEnum::PointerType(t) => PointerType::accepts(t@),
            BasicTypeEnum::StructType(t) => StructType::accepts(t@),
            BasicTypeEnum::VectorType(t) => VectorType::accepts(t@),
        }
    }

    /// Classifies a native type by its kind.
    pub fn new(ty: TypeRef) -> (r: Self)
        requires
            Self::accepts(ty),
        ensures
            r@ == ty,
            r.fits(),
    {
        match ty.kind {
            TypeKind::Half | TypeKind::Float | TypeKind::Double | TypeKind::X86Fp80
            | TypeKind::Fp128 | TypeKind::PpcFp128 => BasicTypeEnum::FloatType(FloatType::new(ty)),
            TypeKind::Integer => BasicTypeEnum::IntType(IntType::new(ty)),
            TypeKind::Struct => BasicTypeEnum::StructType(StructType::new(ty)),
            TypeKind::Pointer => BasicTypeEnum::PointerType(PointerType::new(ty)),
            TypeKind::Array => BasicTypeEnum::ArrayType(ArrayType::new(ty)),
            TypeKind::Vector => BasicTypeEnum::VectorType(VectorType::new(ty)),
            _ => unreached(),
        }
    }

    /// The native type referenced by the held wrapper.
    pub fn as_type_ref(&self) -> (r: TypeRef)
        ensures
            r == self@,
            self.fits(),
    {
        match self {
            BasicTypeEnum::ArrayType(t) => t.as_type_ref(),
            BasicTypeEnum::FloatType(t) => t.as_type_ref(),
            BasicTypeEnum::IntType(t) => t.as_type_ref(),
            BasicTypeEnum::PointerType(t) => t.as_type_ref(),
            BasicTypeEnum::StructType(t) => t.as_type_ref(),
            BasicTypeEnum::VectorType(t) => t.as_type_ref(),
        }
    }
}

} // verus!

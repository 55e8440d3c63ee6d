use inkwell_values::enums::{
    AggregateValueEnum, AnyValueEnum, BasicMetadataValueEnum, BasicValueEnum,
};
use inkwell_values::handle::{TypeKind, TypeRef, ValueRef};
use inkwell_values::types::{AnyTypeEnum, BasicTypeEnum};
use inkwell_values::values::{
    ArrayValue, FloatValue, FunctionValue, InstructionValue, IntValue, MetadataValue, PhiValue,
    PointerValue, StructValue, VectorValue,
};

fn value_of(addr: usize, kind: TypeKind) -> ValueRef {
    ValueRef {
        addr,
        ty: TypeRef { addr: addr + 0x1000, kind },
        is_function: false,
        is_instruction: false,
    }
}

fn instruction_of(addr: usize, kind: TypeKind) -> ValueRef {
    ValueRef { is_instruction: true, ..value_of(addr, kind) }
}

fn function_value(addr: usize) -> ValueRef {
    ValueRef { is_function: true, ..value_of(addr, TypeKind::Function) }
}

const FLOAT_KINDS: [TypeKind; 6] = [
    TypeKind::Half,
    TypeKind::Float,
    TypeKind::Double,
    TypeKind::X86Fp80,
    TypeKind::Fp128,
    TypeKind::PpcFp128,
];

#[test]
fn int_handle_classifies_as_int_value() {
    let h_int = value_of(0x10, TypeKind::Integer);
    let v = AnyValueEnum::new(h_int);
    assert!(v.is_int_value());
    assert_eq!(v.as_int_value().as_value_ref(), h_int);
    assert!(!v.is_float_value());
    assert_eq!(v.as_value_ref(), h_int);
}

#[test]
fn void_handle_is_not_an_any_value() {
    let h_void = value_of(0x20, TypeKind::Void);
    assert_eq!(AnyValueEnum::try_new(h_void), None);
    assert_eq!(BasicValueEnum::try_new(h_void), None);
    assert_eq!(BasicMetadataValueEnum::try_new(h_void), None);
    assert_eq!(AggregateValueEnum::try_new(h_void), None);
}

#[test]
fn metadata_handle_is_basic_metadata_only() {
    let h_md = value_of(0x30, TypeKind::Metadata);
    assert_eq!(BasicValueEnum::try_new(h_md), None);
    assert_eq!(AnyValueEnum::try_new(h_md), None);
    let v = BasicMetadataValueEnum::new(h_md);
    assert!(v.is_metadata_value());
    assert!(!v.is_int_value());
    assert_eq!(v.as_metadata_value().as_value_ref(), h_md);
    assert_eq!(v, BasicMetadataValueEnum::from(MetadataValue::new(h_md)));
}

#[test]
fn every_float_kind_classifies_as_float_value() {
    for (i, kind) in FLOAT_KINDS.iter().enumerate() {
        let h = value_of(0x40 + i, *kind);
        assert!(AnyValueEnum::new(h).is_float_value());
        assert!(BasicValueEnum::new(h).is_float_value());
        assert!(BasicMetadataValueEnum::new(h).is_float_value());
        assert_eq!(AggregateValueEnum::try_new(h), None);
    }
}

#[test]
fn unsupported_type_kinds_are_refused() {
    let kinds = [
        TypeKind::Label,
        TypeKind::X86Mmx,
        TypeKind::Token,
        TypeKind::ScalableVector,
        TypeKind::BFloat,
        TypeKind::X86Amx,
    ];
    for (i, kind) in kinds.iter().enumerate() {
        let h = value_of(0x50 + i, *kind);
        assert_eq!(AnyValueEnum::try_new(h), None);
        assert_eq!(BasicValueEnum::try_new(h), None);
        assert_eq!(BasicMetadataValueEnum::try_new(h), None);
        assert_eq!(AggregateValueEnum::try_new(h), None);
    }
}

#[test]
fn function_kind_needs_a_function_value() {
    let not_a_function = value_of(0x60, TypeKind::Function);
    assert_eq!(AnyValueEnum::try_new(not_a_function), None);
    let f = function_value(0x61);
    let v = AnyValueEnum::new(f);
    assert!(v.is_function_value());
    assert_eq!(v, AnyValueEnum::from(FunctionValue::new(f)));
    assert_eq!(BasicValueEnum::try_new(f), None);
    assert_eq!(BasicMetadataValueEnum::try_new(f), None);
}

#[test]
fn aggregate_set_takes_arrays_and_structs() {
    let a = value_of(0x70, TypeKind::Array);
    let s = value_of(0x71, TypeKind::Struct);
    assert!(AggregateValueEnum::new(a).is_array_value());
    assert!(AggregateValueEnum::new(s).is_struct_value());
    assert_eq!(AggregateValueEnum::try_new(value_of(0x72, TypeKind::Integer)), None);
    assert_eq!(AggregateValueEnum::try_new(value_of(0x73, TypeKind::Pointer)), None);
    assert_eq!(AggregateValueEnum::try_new(value_of(0x74, TypeKind::Vector)), None);
}

#[test]
fn classification_agrees_with_injection() {
    let a = value_of(1, TypeKind::Array);
    let i = value_of(2, TypeKind::Integer);
    let f = value_of(3, TypeKind::Double);
    let p = value_of(4, TypeKind::Pointer);
    let s = value_of(5, TypeKind::Struct);
    let v = value_of(6, TypeKind::Vector);
    let m = value_of(7, TypeKind::Metadata);

    assert_eq!(AnyValueEnum::new(a), AnyValueEnum::from(ArrayValue::new(a)));
    assert_eq!(AnyValueEnum::new(i), AnyValueEnum::from(IntValue::new(i)));
    assert_eq!(AnyValueEnum::new(f), AnyValueEnum::from(FloatValue::new(f)));
    assert_eq!(AnyValueEnum::new(p), AnyValueEnum::from(PointerValue::new(p)));
    assert_eq!(AnyValueEnum::new(s), AnyValueEnum::from(StructValue::new(s)));
    assert_eq!(AnyValueEnum::new(v), AnyValueEnum::from(VectorValue::new(v)));

    assert_eq!(BasicValueEnum::new(a), BasicValueEnum::from(ArrayValue::new(a)));
    assert_eq!(BasicValueEnum::new(i), BasicValueEnum::from(IntValue::new(i)));
    assert_eq!(BasicValueEnum::new(f), BasicValueEnum::from(FloatValue::new(f)));
    assert_eq!(BasicValueEnum::new(p), BasicValueEnum::from(PointerValue::new(p)));
    assert_eq!(BasicValueEnum::new(s), BasicValueEnum::from(StructValue::new(s)));
    assert_eq!(BasicValueEnum::new(v), BasicValueEnum::from(VectorValue::new(v)));

    assert_eq!(AggregateValueEnum::new(a), AggregateValueEnum::from(ArrayValue::new(a)));
    assert_eq!(AggregateValueEnum::new(s), AggregateValueEnum::from(StructValue::new(s)));

    assert_eq!(BasicMetadataValueEnum::new(a), BasicMetadataValueEnum::from(ArrayValue::new(a)));
    assert_eq!(BasicMetadataValueEnum::new(i), BasicMetadataValueEnum::from(IntValue::new(i)));
    assert_eq!(BasicMetadataValueEnum::new(f), BasicMetadataValueEnum::from(FloatValue::new(f)));
    assert_eq!(BasicMetadataValueEnum::new(p), BasicMetadataValueEnum::from(PointerValue::new(p)));
    assert_eq!(BasicMetadataValueEnum::new(s), BasicMetadataValueEnum::from(StructValue::new(s)));
    assert_eq!(BasicMetadataValueEnum::new(v), BasicMetadataValueEnum::from(VectorValue::new(v)));
    assert_eq!(BasicMetadataValueEnum::new(m), BasicMetadataValueEnum::from(MetadataValue::new(m)));
}

fn any_tags(v: &AnyValueEnum) -> [bool; 9] {
    [
        v.is_array_value(),
        v.is_int_value(),
        v.is_float_value(),
        v.is_phi_value(),
        v.is_function_value(),
        v.is_pointer_value(),
        v.is_struct_value(),
        v.is_vector_value(),
        v.is_instruction_value(),
    ]
}

#[test]
fn exactly_one_tag_holds() {
    let kinds = [
        (TypeKind::Array, 0),
        (TypeKind::Integer, 1),
        (TypeKind::Half, 2),
        (TypeKind::Pointer, 5),
        (TypeKind::Struct, 6),
        (TypeKind::Vector, 7),
    ];
    for (n, (kind, tag)) in kinds.iter().enumerate() {
        let v = AnyValueEnum::new(value_of(0x80 + n, *kind));
        let tags = any_tags(&v);
        assert_eq!(tags.iter().filter(|t| **t).count(), 1);
        assert!(tags[*tag]);
    }
    let f = AnyValueEnum::new(function_value(0x90));
    assert_eq!(any_tags(&f).iter().filter(|t| **t).count(), 1);
    assert!(f.is_function_value());

    let inst = ValueRef { is_instruction: true, ..value_of(0x91, TypeKind::Void) };
    let iv = AnyValueEnum::from(InstructionValue::new(inst));
    assert_eq!(any_tags(&iv).iter().filter(|t| **t).count(), 1);
    assert!(iv.is_instruction_value());

    let pv = AnyValueEnum::from(PhiValue::new(instruction_of(0x92, TypeKind::Integer)));
    assert_eq!(any_tags(&pv).iter().filter(|t| **t).count(), 1);
    assert!(pv.is_phi_value());
}

#[test]
fn basic_into_any_keeps_kind_and_value() {
    let handles = [
        value_of(0xa0, TypeKind::Array),
        value_of(0xa1, TypeKind::Integer),
        value_of(0xa2, TypeKind::Float),
        value_of(0xa3, TypeKind::Pointer),
        value_of(0xa4, TypeKind::Struct),
        value_of(0xa5, TypeKind::Vector),
    ];
    for h in handles.iter() {
        let b = BasicValueEnum::new(*h);
        let a = AnyValueEnum::from(b);
        assert_eq!(a, AnyValueEnum::new(*h));
        assert_eq!(a.as_value_ref(), *h);
        assert_eq!(a.is_array_value(), b.is_array_value());
        assert_eq!(a.is_int_value(), b.is_int_value());
        assert_eq!(a.is_float_value(), b.is_float_value());
        assert_eq!(a.is_pointer_value(), b.is_pointer_value());
        assert_eq!(a.is_struct_value(), b.is_struct_value());
        assert_eq!(a.is_vector_value(), b.is_vector_value());
    }
    let i = BasicValueEnum::from(IntValue::new(value_of(0xa6, TypeKind::Integer)));
    assert!(AnyValueEnum::from(i).is_int_value());
}

#[test]
fn narrowing_returns_the_injected_wrapper() {
    let w = IntValue::new(value_of(0xb0, TypeKind::Integer));
    assert_eq!(AnyValueEnum::from(w).as_int_value(), &w);
    assert_eq!(BasicValueEnum::from(w).as_int_value(), &w);
    assert_eq!(BasicMetadataValueEnum::from(w).into_int_value(), w);

    let s = StructValue::new(value_of(0xb1, TypeKind::Struct));
    assert_eq!(AggregateValueEnum::from(s).as_struct_value(), &s);
    assert_eq!(AggregateValueEnum::from(s).into_struct_value(), s);

    let v = VectorValue::new(value_of(0xb2, TypeKind::Vector));
    assert_eq!(AnyValueEnum::from(v).into_vector_value(), v);

    let p = PhiValue::new(instruction_of(0xb3, TypeKind::Integer));
    assert_eq!(AnyValueEnum::from(p).as_phi_value(), &p);

    let m = MetadataValue::new(value_of(0xb4, TypeKind::Metadata));
    assert_eq!(BasicMetadataValueEnum::from(m).as_metadata_value(), &m);
}

#[test]
fn get_type_references_the_value_type() {
    let h = value_of(0xc0, TypeKind::Integer);
    let any_ty = AnyValueEnum::new(h).get_type();
    assert_eq!(any_ty.as_type_ref(), h.ty);
    assert!(matches!(any_ty, AnyTypeEnum::IntType(_)));

    let basic_ty = BasicValueEnum::new(h).get_type();
    assert_eq!(basic_ty.as_type_ref(), h.ty);
    assert!(matches!(basic_ty, BasicTypeEnum::IntType(_)));

    let s = value_of(0xc1, TypeKind::Struct);
    assert!(matches!(BasicValueEnum::new(s).get_type(), BasicTypeEnum::StructType(_)));

    let store = ValueRef { is_instruction: true, ..value_of(0xc2, TypeKind::Void) };
    let void_ty = AnyValueEnum::from(InstructionValue::new(store)).get_type();
    assert_eq!(void_ty.as_type_ref(), store.ty);
    assert!(matches!(void_ty, AnyTypeEnum::VoidType(_)));

    let f = function_value(0xc3);
    assert!(matches!(AnyValueEnum::new(f).get_type(), AnyTypeEnum::FunctionType(_)));
}

#[test]
fn as_instruction_only_for_instruction_values() {
    let plain = BasicValueEnum::new(value_of(0xd0, TypeKind::Integer));
    assert_eq!(plain.as_instruction(), None);

    let h = ValueRef { is_instruction: true, ..value_of(0xd1, TypeKind::Integer) };
    let add = BasicValueEnum::new(h);
    let inst = add.as_instruction().unwrap();
    assert_eq!(inst.as_value_ref(), h);
    assert!(add.is_int_value());
}

#[test]
fn checked_narrowing_gives_none_on_other_kinds() {
    let w = IntValue::new(value_of(0xe0, TypeKind::Integer));
    let v = AnyValueEnum::from(w);
    assert_eq!(v.try_as_int_value(), Some(&w));
    assert_eq!(v.try_as_float_value(), None);
    let b = BasicMetadataValueEnum::new(value_of(0xe1, TypeKind::Metadata));
    assert!(b.try_as_metadata_value().is_some());
    assert_eq!(b.try_as_int_value(), None);
    let s = StructValue::new(value_of(0xe2, TypeKind::Struct));
    assert_eq!(AggregateValueEnum::from(s).try_as_struct_value(), Some(&s));
    assert_eq!(AggregateValueEnum::from(s).try_as_array_value(), None);
}

#[test]
fn get_type_equals_classification_of_the_type() {
    let h = value_of(0xe3, TypeKind::Vector);
    assert_eq!(AnyValueEnum::new(h).get_type(), AnyTypeEnum::new(h.ty));
    assert_eq!(BasicValueEnum::new(h).get_type(), BasicTypeEnum::new(h.ty));
}

#[test]
fn get_type_on_injected_wrappers() {
    let phi = instruction_of(0xf0, TypeKind::Double);
    let t = AnyValueEnum::from(PhiValue::new(phi)).get_type();
    assert_eq!(t.as_type_ref(), phi.ty);
    assert!(matches!(t, AnyTypeEnum::FloatType(_)));

    let load = instruction_of(0xf1, TypeKind::Pointer);
    let t = AnyValueEnum::from(InstructionValue::new(load)).get_type();
    assert_eq!(t, AnyTypeEnum::new(load.ty));
    assert!(matches!(t, AnyTypeEnum::PointerType(_)));

    let f = ValueRef { is_function: true, ..value_of(0xf2, TypeKind::Pointer) };
    let t = AnyValueEnum::from(FunctionValue::new(f)).get_type();
    assert!(matches!(t, AnyTypeEnum::PointerType(_)));
}

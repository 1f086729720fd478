use ffiber::syntax::{ArgumentsKind, FnArgSyntax, ReceiverSyntax, ReturnSyntax, TypeSyntax};
use ffiber::types::{SelfType, Type};

fn name(ident: &str) -> TypeSyntax {
    TypeSyntax::Path {
        has_qself: false,
        has_leading_colon: false,
        segments: 1,
        ident: ident.to_string(),
        kind: ArgumentsKind::Absent,
        args: vec![],
    }
}

fn generic(ident: &str, args: Vec<TypeSyntax>) -> TypeSyntax {
    TypeSyntax::Path {
        has_qself: false,
        has_leading_colon: false,
        segments: 1,
        ident: ident.to_string(),
        kind: ArgumentsKind::AngleBracketed,
        args: args.into_iter().map(Box::new).collect(),
    }
}

fn reference(is_mut: bool, elem: TypeSyntax) -> TypeSyntax {
    TypeSyntax::Reference { has_lifetime: false, is_mut, elem: Box::new(elem) }
}

fn structure(ident: &str, args: Vec<Type>) -> Type {
    Type::Struct { name: ident.to_string(), args: args.into_iter().map(Box::new).collect() }
}

#[test]
fn primitive_names_become_primitives() {
    for ident in ["u8", "u16", "u32", "u64", "i8", "i16", "i32", "i64", "bool"] {
        assert!(name(ident).is_supported());
        assert_eq!(Type::from_syntax(&name(ident)), Type::Primitive(ident.to_string()));
    }
}

#[test]
fn other_names_become_structs() {
    for ident in ["usize", "u128", "f32", "Conn", "String", "U8", "u", ""] {
        assert_eq!(Type::from_syntax(&name(ident)), structure(ident, vec![]));
    }
}

#[test]
fn references_become_references() {
    assert_eq!(Type::from_syntax(&reference(false, name("Conn"))), Type::new_ref("Conn"));
    assert_eq!(Type::from_syntax(&reference(true, name("Conn"))), Type::new_ref_mut("Conn"));
    assert_eq!(
        Type::from_syntax(&reference(false, reference(true, name("u8")))),
        Type::Ref(Box::new(Type::RefMut(Box::new(Type::Primitive("u8".to_string())))))
    );
}

#[test]
fn generic_arguments_are_read_in_order() {
    let syntax = generic(
        "Map",
        vec![generic("Vec", vec![name("u8")]), generic("Option", vec![reference(false, name("Conn"))])],
    );
    assert!(syntax.is_supported());
    let expected = structure(
        "Map",
        vec![
            structure("Vec", vec![Type::Primitive("u8".to_string())]),
            structure("Option", vec![Type::new_ref("Conn")]),
        ],
    );
    assert_eq!(Type::from_syntax(&syntax), expected);
}

#[test]
fn round_trip_of_two_nested_generic_arguments() {
    let syntax = generic(
        "Map",
        vec![generic("Vec", vec![name("u8")]), generic("Option", vec![generic("Box", vec![name("Conn")])])],
    );
    assert_eq!(Type::from_syntax(&syntax).to_rust_str(), "Map<Vec<u8>, Option<Box<Conn>>>");
}

#[test]
fn a_primitive_name_with_angle_brackets_is_a_struct() {
    assert_eq!(Type::from_syntax(&generic("u8", vec![])), structure("u8", vec![]));
}

#[test]
fn a_leading_colon_is_accepted_before_generic_arguments_only() {
    let with_args = TypeSyntax::Path {
        has_qself: false,
        has_leading_colon: true,
        segments: 1,
        ident: "Vec".to_string(),
        kind: ArgumentsKind::AngleBracketed,
        args: vec![Box::new(name("u8"))],
    };
    assert!(with_args.is_supported());
    assert_eq!(
        Type::from_syntax(&with_args),
        structure("Vec", vec![Type::Primitive("u8".to_string())])
    );
    let plain = TypeSyntax::Path {
        has_qself: false,
        has_leading_colon: true,
        segments: 1,
        ident: "Conn".to_string(),
        kind: ArgumentsKind::Absent,
        args: vec![],
    };
    assert!(!plain.is_supported());
}

#[test]
fn unsupported_syntax_is_recognised() {
    assert!(!TypeSyntax::Other.is_supported());
    assert!(!TypeSyntax::NotAType.is_supported());
    assert!(!TypeSyntax::Reference { has_lifetime: true, is_mut: false, elem: Box::new(name("A")) }
        .is_supported());
    assert!(!reference(false, TypeSyntax::Other).is_supported());
    assert!(!generic("Vec", vec![name("u8"), TypeSyntax::NotAType]).is_supported());
    assert!(!generic("Vec", vec![generic("Vec", vec![TypeSyntax::Other])]).is_supported());
    for (has_qself, segments, kind) in [
        (true, 1, ArgumentsKind::Absent),
        (false, 0, ArgumentsKind::Absent),
        (false, 2, ArgumentsKind::Absent),
        (false, 2, ArgumentsKind::AngleBracketed),
        (false, 1, ArgumentsKind::Parenthesized),
    ] {
        let path = TypeSyntax::Path {
            has_qself,
            has_leading_colon: false,
            segments,
            ident: "A".to_string(),
            kind,
            args: vec![],
        };
        assert!(!path.is_supported());
    }
}

#[test]
fn return_types() {
    assert_eq!(Type::from_return_type(&ReturnSyntax::Default), None);
    assert_eq!(
        Type::from_return_type(&ReturnSyntax::Type(name("u32"))),
        Some(Type::Primitive("u32".to_string()))
    );
    assert_eq!(
        Type::from_return_type(&ReturnSyntax::Type(reference(true, name("Conn")))),
        Some(Type::new_ref_mut("Conn"))
    );
}

fn receiver(is_reference: bool, is_mut: bool) -> ReceiverSyntax {
    ReceiverSyntax { has_attrs: false, is_reference, has_lifetime: false, is_mut }
}

#[test]
fn receivers() {
    assert_eq!(SelfType::from_receiver(&receiver(true, true)), SelfType::RefMut);
    assert_eq!(SelfType::from_receiver(&receiver(true, false)), SelfType::Ref);
    assert_eq!(SelfType::from_receiver(&receiver(false, true)), SelfType::ValueMut);
    assert_eq!(SelfType::from_receiver(&receiver(false, false)), SelfType::Value);
}

#[test]
fn receivers_with_attributes_or_lifetimes_are_unsupported() {
    assert!(receiver(true, false).is_supported());
    assert!(receiver(false, true).is_supported());
    let attributed =
        ReceiverSyntax { has_attrs: true, is_reference: false, has_lifetime: false, is_mut: false };
    assert!(!attributed.is_supported());
    let with_lifetime =
        ReceiverSyntax { has_attrs: false, is_reference: true, has_lifetime: true, is_mut: true };
    assert!(!with_lifetime.is_supported());
    assert!(!FnArgSyntax::Receiver(with_lifetime).is_supported());
    assert!(FnArgSyntax::Receiver(receiver(true, true)).is_supported());
    assert!(FnArgSyntax::Typed.is_supported());
}

#[test]
fn first_arguments() {
    assert_eq!(SelfType::from_fn_arg(&FnArgSyntax::Typed), SelfType::Absent);
    assert_eq!(SelfType::from_fn_arg(&FnArgSyntax::Receiver(receiver(true, false))), SelfType::Ref);
    assert_eq!(
        SelfType::from_fn_arg(&FnArgSyntax::Receiver(receiver(false, true))),
        SelfType::ValueMut
    );
}

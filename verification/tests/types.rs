use ffiber::types::{DerivedTrait, SelfType, Type};

fn primitive(name: &str) -> Type {
    Type::Primitive(name.to_string())
}

fn generic(name: &str, args: Vec<Type>) -> Type {
    Type::Struct { name: name.to_string(), args: args.into_iter().map(Box::new).collect() }
}

#[test]
fn self_type_predicates() {
    assert!(!SelfType::Absent.is_ref());
    assert!(!SelfType::Value.is_ref());
    assert!(SelfType::Ref.is_ref());
    assert!(SelfType::RefMut.is_ref());
    assert!(!SelfType::ValueMut.is_ref());
    assert!(SelfType::Absent.is_none());
    assert!(!SelfType::Absent.is_some());
    for mode in [SelfType::Value, SelfType::Ref, SelfType::RefMut, SelfType::ValueMut] {
        assert!(!mode.is_none());
        assert!(mode.is_some());
    }
}

#[test]
fn derived_traits_are_distinct() {
    assert_ne!(DerivedTrait::Default, DerivedTrait::Clone);
    assert_ne!(DerivedTrait::PartialEq, DerivedTrait::Eq);
    assert_eq!(DerivedTrait::Eq, DerivedTrait::Eq);
}

#[test]
fn constructors_build_the_expected_trees() {
    assert_eq!(Type::new_struct("Conn"), generic("Conn", vec![]));
    assert_eq!(Type::new_ref("Conn"), Type::Ref(Box::new(generic("Conn", vec![]))));
    assert_eq!(Type::new_ref_mut("Conn"), Type::RefMut(Box::new(generic("Conn", vec![]))));
    assert_eq!(Type::new_u8_buffer(), Type::Buffer(Box::new(primitive("u8"))));
}

#[test]
fn buffer_and_struct_predicates() {
    assert!(Type::new_u8_buffer().is_buffer());
    assert!(!Type::new_struct("A").is_buffer());
    assert!(Type::new_struct("A").is_struct());
    assert!(!Type::new_ref("A").is_struct());
    assert!(!primitive("u8").is_struct());
    assert!(!primitive("u8").is_buffer());
}

#[test]
fn abi_representation_of_each_variant() {
    let pointer = "*mut ::std::os::raw::c_void";
    assert_eq!(primitive("u32").to_c_str(), "u32");
    assert_eq!(Type::new_struct("Conn").to_c_str(), pointer);
    assert_eq!(generic("Pkt", vec![Type::new_struct("Conn")]).to_c_str(), pointer);
    assert_eq!(Type::new_ref("Conn").to_c_str(), pointer);
    assert_eq!(Type::new_ref_mut("Conn").to_c_str(), pointer);
    assert_eq!(Type::new_u8_buffer().to_c_str(), "*const u8");
    assert_eq!(
        Type::Buffer(Box::new(Type::new_struct("Conn"))).to_c_str(),
        "*const *mut ::std::os::raw::c_void"
    );
    let color = Type::Enum { name: "Color".to_string(), variants: vec!["Red".to_string()] };
    assert_eq!(color.to_c_str(), "usize");
    assert_eq!(Type::Buffer(Box::new(color)).to_c_str(), "*const usize");
}

#[test]
fn native_declaration_of_each_variant() {
    assert_eq!(primitive("u32").to_rust_str(), "u32");
    assert_eq!(Type::new_struct("Conn").to_rust_str(), "Conn");
    assert_eq!(Type::new_ref("Conn").to_rust_str(), "&Conn");
    assert_eq!(Type::new_ref_mut("Conn").to_rust_str(), "&mut Conn");
    assert_eq!(Type::new_u8_buffer().to_rust_str(), "*const u8");
    assert_eq!(
        Type::Buffer(Box::new(Type::new_ref("Conn"))).to_rust_str(),
        "*const *const Conn"
    );
    assert_eq!(
        Type::Buffer(Box::new(Type::new_ref_mut("Conn"))).to_rust_str(),
        "*const *mut Conn"
    );
    assert_eq!(
        Type::Buffer(Box::new(Type::new_struct("Conn"))).to_rust_str(),
        "*const Conn"
    );
    let color = Type::Enum {
        name: "Color".to_string(),
        variants: vec!["Red".to_string(), "Green".to_string()],
    };
    assert_eq!(color.to_rust_str(), "Color");
}

#[test]
fn native_declaration_of_one_generic_argument() {
    let ty = generic("ReceivedPkt", vec![Type::new_struct("Mlx5Connection")]);
    assert_eq!(ty.to_rust_str(), "ReceivedPkt<Mlx5Connection>");
}

#[test]
fn native_declaration_of_two_nested_generic_arguments() {
    let ty = generic(
        "Map",
        vec![
            generic("Vec", vec![primitive("u8")]),
            generic("Option", vec![generic("Box", vec![Type::new_struct("Conn")])]),
        ],
    );
    assert_eq!(ty.to_rust_str(), "Map<Vec<u8>, Option<Box<Conn>>>");
    assert_eq!(generic_texts_of(&ty), vec!["Vec<u8>", "Option<Box<Conn>>"]);
}

fn generic_texts_of(ty: &Type) -> Vec<String> {
    ty.generic_texts()
}

#[test]
fn generic_texts_of_a_plain_struct_are_empty() {
    assert_eq!(Type::new_struct("Conn").generic_texts(), Vec::<String>::new());
}

#[test]
fn nested_sequences_are_unsupported() {
    let nested = Type::Buffer(Box::new(Type::new_u8_buffer()));
    assert!(!nested.is_supported());
    assert!(!Type::Ref(Box::new(nested.duplicate())).is_supported());
    assert!(!Type::RefMut(Box::new(nested.duplicate())).is_supported());
    assert!(!generic("Holder", vec![primitive("u8"), nested.duplicate()]).is_supported());
    assert!(!Type::Buffer(Box::new(Type::Ref(Box::new(nested)))).is_supported());
}

#[test]
fn other_types_are_supported() {
    assert!(primitive("u8").is_supported());
    assert!(Type::new_u8_buffer().is_supported());
    assert!(Type::new_ref("A").is_supported());
    assert!(Type::Buffer(Box::new(Type::new_ref("A"))).is_supported());
    assert!(generic("A", vec![Type::new_u8_buffer(), Type::new_ref_mut("B")]).is_supported());
    assert!(Type::Enum { name: "E".to_string(), variants: vec![] }.is_supported());
}

#[test]
fn update_struct_renames_the_placeholder() {
    let mut ty = Type::new_struct("Self");
    ty.update_struct("Conn");
    assert_eq!(ty, Type::new_struct("Conn"));
}

#[test]
fn update_struct_descends_into_arguments_and_references() {
    let mut ty = Type::Ref(Box::new(generic(
        "Wrapper",
        vec![
            Type::new_struct("Self"),
            Type::RefMut(Box::new(generic("Self", vec![Type::new_struct("Self")]))),
            primitive("Self"),
        ],
    )));
    ty.update_struct("Conn");
    let expected = Type::Ref(Box::new(generic(
        "Wrapper",
        vec![
            Type::new_struct("Conn"),
            Type::RefMut(Box::new(generic("Conn", vec![Type::new_struct("Conn")]))),
            primitive("Self"),
        ],
    )));
    assert_eq!(ty, expected);
}

#[test]
fn update_struct_leaves_sequences_and_enums_alone() {
    let mut buffer = Type::Buffer(Box::new(Type::new_struct("Self")));
    buffer.update_struct("Conn");
    assert_eq!(buffer, Type::Buffer(Box::new(Type::new_struct("Self"))));
    let mut color = Type::Enum { name: "Self".to_string(), variants: vec!["Self".to_string()] };
    color.update_struct("Conn");
    assert_eq!(color, Type::Enum { name: "Self".to_string(), variants: vec!["Self".to_string()] });
    let mut other = Type::new_struct("Other");
    other.update_struct("Conn");
    assert_eq!(other, Type::new_struct("Other"));
}

#[test]
fn clone_and_duplicate_copy_the_whole_tree() {
    let ty = generic(
        "A",
        vec![
            Type::new_u8_buffer(),
            Type::Enum { name: "E".to_string(), variants: vec!["X".to_string(), "Y".to_string()] },
            Type::new_ref_mut("B"),
        ],
    );
    assert_eq!(ty.clone(), ty);
    assert_eq!(ty.duplicate(), ty);
}

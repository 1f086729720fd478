use ffiber::codegen::{add_extern_c_function, check_descriptor};
use ffiber::compiler::{Context, FunctionContext, SerializationCompiler};
use ffiber::error::GenError;
use ffiber::types::{SelfType, Type};

#[test]
fn mutable_receiver_with_primitive_argument() {
    let mut compiler = SerializationCompiler::new();
    let res = add_extern_c_function(
        &mut compiler,
        "Conn_set_limit",
        Some((Type::new_struct("Conn"), SelfType::RefMut)),
        "set_limit",
        vec![("limit", Type::Primitive("usize".to_string()))],
        None,
        false,
    );
    assert_eq!(res, Ok(()));
    let expected = "#[no_mangle]\n\
pub extern \"C\" fn Conn_set_limit(self_: *mut ::std::os::raw::c_void, limit: usize) {\n\
\x20   let self_box = unsafe { Box::from_raw(self_ as *mut Conn) };\n\
\x20   let self_ = unsafe { &mut **self_box };\n\
\x20   let arg0 = limit;\n\
\x20   self_.set_limit(arg0);\n\
\x20   Box::into_raw(self_box);\n\
}\n\
\n";
    assert_eq!(compiler.output(), expected);
}

#[test]
fn fallible_function_with_sequence_return() {
    let mut compiler = SerializationCompiler::new();
    let res = add_extern_c_function(
        &mut compiler,
        "read_all",
        None,
        "read_all",
        vec![],
        Some(Type::new_u8_buffer()),
        true,
    );
    assert_eq!(res, Ok(()));
    let expected = "#[no_mangle]\n\
pub extern \"C\" fn read_all(return_ptr: *mut *const u8, return_len_ptr: *mut usize) -> u32 {\n\
\x20   let value = read_all();\n\
\x20   let value = match value {\n\
\x20       Ok(value) => {\n\
\x20           value\n\
\x20       }\n\
\x20       Err(_) => {\n\
\x20           return 1;\n\
\x20       }\n\
\x20   };\n\
\x20   let value: Vec<*mut u8> = value.into_iter().map(|x| Box::into_raw(Box::new(x))).collect();\n\
\x20   let value = Box::into_raw(Box::new(value));\n\
\x20   unsafe { *return_ptr = (*value).as_ptr() as _; }\n\
\x20   unsafe { *return_len_ptr = (*value).len(); }\n\
\x20   0\n\
}\n\
\n";
    assert_eq!(compiler.output(), expected);
}

#[test]
fn sequence_return_without_error_code_is_refused() {
    let mut compiler = SerializationCompiler::new();
    let res = add_extern_c_function(
        &mut compiler,
        "read_all",
        None,
        "read_all",
        vec![],
        Some(Type::new_u8_buffer()),
        false,
    );
    assert_eq!(res, Err(GenError::SequenceReturnWithoutErrorCode));
    assert_eq!(compiler.output(), "");
}

fn primitive(name: &str) -> Type {
    Type::Primitive(name.to_string())
}

fn wrapper(
    extern_name: &str,
    owner: Option<(Type, SelfType)>,
    func_name: &str,
    args: Vec<(&str, Type)>,
    ret: Option<Type>,
    use_error_code: bool,
) -> String {
    let mut compiler = SerializationCompiler::new();
    let res =
        add_extern_c_function(&mut compiler, extern_name, owner, func_name, args, ret, use_error_code);
    assert_eq!(res, Ok(()));
    assert_eq!(compiler.depth(), 0);
    compiler.output()
}

fn refused(
    owner: Option<(Type, SelfType)>,
    args: Vec<(&str, Type)>,
    ret: Option<Type>,
    use_error_code: bool,
) -> GenError {
    let mut compiler = SerializationCompiler::new();
    compiler.add_line("// before");
    let res = add_extern_c_function(&mut compiler, "f", owner, "f", args, ret, use_error_code);
    assert_eq!(compiler.output(), "// before\n");
    res.unwrap_err()
}

fn count(text: &str, needle: &str) -> usize {
    text.matches(needle).count()
}

#[test]
fn receiver_by_value() {
    let text = wrapper("Pkt_id", Some((Type::new_struct("Pkt"), SelfType::Value)), "id", vec![], None, false);
    let expected = "#[no_mangle]\n\
pub extern \"C\" fn Pkt_id(self_: *mut ::std::os::raw::c_void) {\n\
\x20   let self_ = unsafe { Box::from_raw(self_ as *mut Pkt) };\n\
\x20   self_.id();\n\
}\n\
\n";
    assert_eq!(text, expected);
}

#[test]
fn receiver_by_mutable_value() {
    let text =
        wrapper("Pkt_id", Some((Type::new_struct("Pkt"), SelfType::ValueMut)), "id", vec![], None, false);
    let expected = "#[no_mangle]\n\
pub extern \"C\" fn Pkt_id(self_: *mut ::std::os::raw::c_void) {\n\
\x20   let mut self_ = unsafe { Box::from_raw(self_ as *mut Pkt) };\n\
\x20   self_.id();\n\
}\n\
\n";
    assert_eq!(text, expected);
}

#[test]
fn receiver_by_shared_reference() {
    let text = wrapper("Pkt_id", Some((Type::new_struct("Pkt"), SelfType::Ref)), "id", vec![], None, false);
    let expected = "#[no_mangle]\n\
pub extern \"C\" fn Pkt_id(self_: *mut ::std::os::raw::c_void) {\n\
\x20   let self_box = unsafe { Box::from_raw(self_ as *mut Pkt) };\n\
\x20   let self_ = unsafe { &**self_box };\n\
\x20   self_.id();\n\
\x20   Box::into_raw(self_box);\n\
}\n\
\n";
    assert_eq!(text, expected);
}

#[test]
fn every_receiver_is_taken_back_once_and_released_only_when_borrowed() {
    for (mode, releases) in [
        (SelfType::Value, 0),
        (SelfType::ValueMut, 0),
        (SelfType::Ref, 1),
        (SelfType::RefMut, 1),
    ] {
        for use_error_code in [false, true] {
            let text = wrapper(
                "f",
                Some((Type::new_struct("Pkt"), mode)),
                "f",
                vec![],
                Some(primitive("u32")),
                use_error_code,
            );
            assert_eq!(count(&text, "Box::from_raw(self_ as *mut Pkt)"), 1);
            assert_eq!(count(&text, "    Box::into_raw("), releases);
            assert_eq!(count(&text, "    Box::into_raw(self_box);\n"), releases);
        }
    }
}

#[test]
fn a_function_without_receiver_takes_nothing_back() {
    let text = wrapper("f", Some((Type::new_struct("Pkt"), SelfType::Absent)), "f", vec![], None, false);
    assert_eq!(count(&text, "Box::from_raw"), 0);
    assert_eq!(count(&text, "Box::into_raw"), 0);
    let expected = "#[no_mangle]\npub extern \"C\" fn f() {\n    Pkt::<>::f();\n}\n\n";
    assert_eq!(text, expected);
}

#[test]
fn an_associated_function_is_called_through_its_generic_owner() {
    let owner = Type::Struct {
        name: "Pool".to_string(),
        args: vec![Box::new(Type::new_struct("Conn")), Box::new(primitive("u8"))],
    };
    let text = wrapper(
        "Pool_new",
        Some((owner, SelfType::Absent)),
        "new",
        vec![("size", primitive("usize"))],
        Some(Type::Struct {
            name: "Pool".to_string(),
            args: vec![Box::new(Type::new_struct("Conn")), Box::new(primitive("u8"))],
        }),
        false,
    );
    let expected = "#[no_mangle]\n\
pub extern \"C\" fn Pool_new(size: usize, return_ptr: *mut *mut ::std::os::raw::c_void) {\n\
\x20   let arg0 = size;\n\
\x20   let value = Pool::<Conn, u8>::new(arg0);\n\
\x20   let value = Box::into_raw(Box::new(value));\n\
\x20   unsafe { *return_ptr = value as _; }\n\
}\n\
\n";
    assert_eq!(text, expected);
}

#[test]
fn a_generic_receiver_is_named_with_its_arguments() {
    let owner = Type::Struct {
        name: "ReceivedPkt".to_string(),
        args: vec![Box::new(Type::new_struct("Mlx5Connection"))],
    };
    let text =
        wrapper("ReceivedPkt_msg_id", Some((owner, SelfType::Value)), "msg_id", vec![], Some(primitive("u32")), false);
    let expected = "#[no_mangle]\n\
pub extern \"C\" fn ReceivedPkt_msg_id(self_: *mut ::std::os::raw::c_void, return_ptr: *mut u32) {\n\
\x20   let self_ = unsafe { Box::from_raw(self_ as *mut ReceivedPkt<Mlx5Connection>) };\n\
\x20   let value = self_.msg_id();\n\
\x20   unsafe { *return_ptr = value; }\n\
}\n\
\n";
    assert_eq!(text, expected);
}

#[test]
fn every_kind_of_argument() {
    let text = wrapper(
        "send",
        None,
        "send",
        vec![
            ("count", primitive("u32")),
            ("conn", Type::new_struct("Conn")),
            ("stats", Type::new_ref("Stats")),
            ("pool", Type::new_ref_mut("Pool")),
            ("buf", Type::new_u8_buffer()),
            (
                "mode",
                Type::Enum {
                    name: "Mode".to_string(),
                    variants: vec!["Fast".to_string(), "Safe".to_string()],
                },
            ),
        ],
        None,
        false,
    );
    let expected = "#[no_mangle]\n\
pub extern \"C\" fn send(count: u32, conn: *mut ::std::os::raw::c_void, stats: *mut ::std::os::raw::c_void, pool: *mut ::std::os::raw::c_void, buf: *const u8, buf_len: usize, mode: usize) {\n\
\x20   let arg0 = count;\n\
\x20   let arg1 = unsafe { *Box::from_raw(conn as *mut Conn) };\n\
\x20   let arg2 = unsafe { Box::from_raw(stats as *mut Stats) };\n\
\x20   let mut arg3 = unsafe { Box::from_raw(pool as *mut Pool) };\n\
\x20   let arg4 = unsafe { std::slice::from_raw_parts(buf as *const u8, buf_len) };\n\
\x20   let arg5 = match mode {\n\
\x20       0 => {\n\
\x20           Mode::Fast\n\
\x20       }\n\
\x20       1 => {\n\
\x20           Mode::Safe\n\
\x20       }\n\
\x20       _ => {\n\
\x20           panic!(\"invalid enum variant\")\n\
\x20       }\n\
\x20   };\n\
\x20   send(arg0, arg1, &arg2, unsafe { &mut *arg3 }, arg4, arg5);\n\
\x20   Box::into_raw(arg2);\n\
\x20   Box::into_raw(arg3);\n\
}\n\
\n";
    assert_eq!(text, expected);
}

#[test]
fn a_sequence_argument_is_followed_by_its_length() {
    let mut compiler = SerializationCompiler::new();
    let res = add_extern_c_function(
        &mut compiler,
        "f",
        Some((Type::new_struct("Conn"), SelfType::Ref)),
        "f",
        vec![
            ("a", primitive("u8")),
            ("buf", Type::new_u8_buffer()),
            ("b", Type::new_struct("B")),
            ("other", Type::Buffer(Box::new(Type::new_ref("Conn")))),
        ],
        Some(primitive("bool")),
        false,
    );
    assert_eq!(res, Ok(()));
    let text = compiler.output();
    let header = text.lines().nth(1).unwrap();
    assert_eq!(
        header,
        "pub extern \"C\" fn f(self_: *mut ::std::os::raw::c_void, a: u8, buf: *const u8, buf_len: usize, b: *mut ::std::os::raw::c_void, other: *const *mut ::std::os::raw::c_void, other_len: usize, return_ptr: *mut bool) {"
    );
    assert!(text.contains(
        "    let arg3 = unsafe { std::slice::from_raw_parts(other as *const *const Conn, other_len) };\n"
    ));
}

#[test]
fn an_enum_of_n_variants_has_n_plus_one_arms() {
    for n in [0usize, 1, 2, 11] {
        let variants: Vec<String> = (0..n).map(|k| format!("V{}", k)).collect();
        let text = wrapper(
            "f",
            None,
            "f",
            vec![("e", Type::Enum { name: "E".to_string(), variants })],
            None,
            false,
        );
        assert_eq!(count(&text, " => {\n"), n + 1);
        for k in 0..n {
            assert!(text.contains(&format!("        {} => {{\n            E::V{}\n        }}\n", k, k)));
        }
        assert!(text.contains(
            "        _ => {\n            panic!(\"invalid enum variant\")\n        }\n    };\n    f(arg0);\n"
        ));
    }
}

#[test]
fn fallible_function_with_primitive_return() {
    let text = wrapper(
        "Conn_limit",
        Some((Type::new_struct("Conn"), SelfType::Ref)),
        "limit",
        vec![],
        Some(primitive("usize")),
        true,
    );
    let expected = "#[no_mangle]\n\
pub extern \"C\" fn Conn_limit(self_: *mut ::std::os::raw::c_void, return_ptr: *mut usize) -> u32 {\n\
\x20   let self_box = unsafe { Box::from_raw(self_ as *mut Conn) };\n\
\x20   let self_ = unsafe { &**self_box };\n\
\x20   let value = self_.limit();\n\
\x20   let value = match value {\n\
\x20       Ok(value) => {\n\
\x20           value\n\
\x20       }\n\
\x20       Err(_) => {\n\
\x20           return 1;\n\
\x20       }\n\
\x20   };\n\
\x20   unsafe { *return_ptr = value; }\n\
\x20   Box::into_raw(self_box);\n\
\x20   0\n\
}\n\
\n";
    assert_eq!(text, expected);
    assert_eq!(count(&text, "match value {"), 1);
    assert_eq!(count(&text, "return_ptr = "), 1);
    assert!(text.find("return 1;").unwrap() < text.find("*return_ptr = ").unwrap());
}

#[test]
fn fallible_function_without_return() {
    let text = wrapper(
        "Conn_add_pool",
        Some((Type::new_struct("Conn"), SelfType::RefMut)),
        "add_pool",
        vec![("size", primitive("usize")), ("min_elts", primitive("usize"))],
        None,
        true,
    );
    let expected = "#[no_mangle]\n\
pub extern \"C\" fn Conn_add_pool(self_: *mut ::std::os::raw::c_void, size: usize, min_elts: usize) -> u32 {\n\
\x20   let self_box = unsafe { Box::from_raw(self_ as *mut Conn) };\n\
\x20   let self_ = unsafe { &mut **self_box };\n\
\x20   let arg0 = size;\n\
\x20   let arg1 = min_elts;\n\
\x20   let value = self_.add_pool(arg0, arg1);\n\
\x20   match value {\n\
\x20       Ok(_) => {\n\
\x20           \n\
\x20       }\n\
\x20       Err(_) => {\n\
\x20           return 1;\n\
\x20       }\n\
\x20   }\n\
\x20   Box::into_raw(self_box);\n\
\x20   0\n\
}\n\
\n";
    assert_eq!(text, expected);
}

#[test]
fn returned_references_are_written_as_addresses() {
    let shared = wrapper("f", None, "f", vec![], Some(Type::new_ref("Conn")), false);
    let expected = "#[no_mangle]\n\
pub extern \"C\" fn f(return_ptr: *mut *mut ::std::os::raw::c_void) {\n\
\x20   let value: *const Conn = f();\n\
\x20   unsafe { *return_ptr = value as _; }\n\
}\n\
\n";
    assert_eq!(shared, expected);
    let mutable = wrapper("f", None, "f", vec![], Some(Type::new_ref_mut("Conn")), false);
    assert!(mutable.contains("    let value: *mut Conn = f();\n    unsafe { *return_ptr = value as _; }\n"));
    assert_eq!(count(&mutable, "Box::"), 0);
}

#[test]
fn a_returned_struct_is_boxed() {
    let text = wrapper("f", None, "f", vec![], Some(Type::new_struct("Conn")), true);
    assert!(text.contains(
        "    };\n    let value = Box::into_raw(Box::new(value));\n    unsafe { *return_ptr = value as _; }\n    0\n}\n"
    ));
}

#[test]
fn the_tenth_argument_is_bound_to_arg10() {
    let names = ["a", "b", "c", "d", "e", "f", "g", "h", "i", "j", "k"];
    let args: Vec<(&str, Type)> = names.iter().map(|n| (*n, primitive("u8"))).collect();
    let text = wrapper("f", None, "f", args, None, false);
    assert!(text.contains("    let arg10 = k;\n"));
    assert!(text.contains("    f(arg0, arg1, arg2, arg3, arg4, arg5, arg6, arg7, arg8, arg9, arg10);\n"));
}

#[test]
fn wrappers_follow_one_another() {
    let mut compiler = SerializationCompiler::new();
    for name in ["f", "g"] {
        assert_eq!(add_extern_c_function(&mut compiler, name, None, name, vec![], None, false), Ok(()));
    }
    assert_eq!(
        compiler.output(),
        "#[no_mangle]\npub extern \"C\" fn f() {\n    f();\n}\n\n#[no_mangle]\npub extern \"C\" fn g() {\n    g();\n}\n\n"
    );
}

#[test]
fn an_owner_that_is_no_struct_is_refused_for_an_associated_function() {
    let err = refused(Some((primitive("u8"), SelfType::Absent)), vec![], None, false);
    assert_eq!(err, GenError::OwnerNotStruct);
    let err = refused(Some((Type::new_ref("A"), SelfType::Absent)), vec![], None, false);
    assert_eq!(err, GenError::OwnerNotStruct);
}

#[test]
fn an_owner_that_is_no_struct_may_be_a_receiver() {
    let text = wrapper("f", Some((primitive("u8"), SelfType::Value)), "f", vec![], None, false);
    assert!(text.contains("    let self_ = unsafe { Box::from_raw(self_ as *mut u8) };\n"));
}

#[test]
fn nested_sequences_are_refused_wherever_they_stand() {
    let nested = || Type::Buffer(Box::new(Type::new_u8_buffer()));
    assert_eq!(refused(None, vec![("a", nested())], None, true), GenError::NestedSequence);
    assert_eq!(refused(None, vec![], Some(nested()), true), GenError::NestedSequence);
    assert_eq!(
        refused(Some((Type::Ref(Box::new(nested())), SelfType::Value)), vec![], None, false),
        GenError::NestedSequence
    );
    assert_eq!(
        refused(None, vec![("a", primitive("u8")), ("b", Type::Ref(Box::new(nested())))], None, false),
        GenError::NestedSequence
    );
}

#[test]
fn an_enum_return_is_refused() {
    let color = || Type::Enum { name: "Color".to_string(), variants: vec!["Red".to_string()] };
    assert_eq!(refused(None, vec![], Some(color()), false), GenError::EnumReturn);
    assert_eq!(refused(None, vec![], Some(color()), true), GenError::EnumReturn);
}

#[test]
fn the_first_problem_is_reported() {
    let nested = || Type::Buffer(Box::new(Type::new_u8_buffer()));
    let color = || Type::Enum { name: "Color".to_string(), variants: vec![] };
    assert_eq!(
        refused(Some((primitive("u8"), SelfType::Absent)), vec![("a", nested())], Some(color()), false),
        GenError::OwnerNotStruct
    );
    assert_eq!(refused(None, vec![("a", nested())], Some(color()), false), GenError::NestedSequence);
}

#[test]
fn check_descriptor_agrees_with_generation() {
    assert_eq!(check_descriptor(&None, &vec![], &None, false), None);
    assert_eq!(
        check_descriptor(&None, &vec![], &Some(Type::new_u8_buffer()), false),
        Some(GenError::SequenceReturnWithoutErrorCode)
    );
    assert_eq!(check_descriptor(&None, &vec![], &Some(Type::new_u8_buffer()), true), None);
    assert_eq!(
        check_descriptor(&Some((primitive("u8"), SelfType::Absent)), &vec![], &None, false),
        Some(GenError::OwnerNotStruct)
    );
}

#[test]
fn a_wrapper_inside_an_open_scope_is_indented() {
    let mut compiler = SerializationCompiler::new();
    compiler.add_context(Context::Function(FunctionContext::new("outer", false, vec![], "")));
    assert_eq!(add_extern_c_function(&mut compiler, "f", None, "f", vec![], None, false), Ok(()));
    assert_eq!(compiler.depth(), 1);
    assert_eq!(
        compiler.output(),
        "fn outer() {\n    #[no_mangle]\n    pub extern \"C\" fn f() {\n        f();\n    }\n\n"
    );
}

#[test]
fn a_mutable_reference_argument_is_borrowed_from_its_handle() {
    let text = wrapper("grow", None, "grow", vec![("pool", Type::new_ref_mut("Pool"))], None, false);
    let expected = "#[no_mangle]\n\
pub extern \"C\" fn grow(pool: *mut ::std::os::raw::c_void) {\n\
\x20   let mut arg0 = unsafe { Box::from_raw(pool as *mut Pool) };\n\
\x20   grow(unsafe { &mut *arg0 });\n\
\x20   Box::into_raw(arg0);\n\
}\n\
\n";
    assert_eq!(text, expected);
}

#[test]
fn arguments_are_passed_in_declaration_order_by_their_kind() {
    let mut compiler = SerializationCompiler::new();
    let res = add_extern_c_function(
        &mut compiler,
        "mix",
        Some((Type::new_struct("Conn"), SelfType::Ref)),
        "mix",
        vec![
            ("a", Type::new_ref_mut("A")),
            ("b", Type::new_ref("B")),
            ("c", primitive("u8")),
            ("d", Type::new_ref_mut("D")),
            ("e", Type::new_struct("E")),
        ],
        None,
        false,
    );
    assert_eq!(res, Ok(()));
    let text = compiler.output();
    assert!(text.contains(
        "    self_.mix(unsafe { &mut *arg0 }, &arg1, arg2, unsafe { &mut *arg3 }, arg4);\n"
    ));
    assert_eq!(count(&text, "self_.mix("), 1);
    assert!(text.ends_with(
        "    Box::into_raw(self_box);\n    Box::into_raw(arg0);\n    Box::into_raw(arg1);\n    Box::into_raw(arg3);\n}\n\n"
    ));
}

#[test]
fn the_success_arm_without_payload_holds_an_empty_value() {
    let text = wrapper("f", None, "f", vec![], None, true);
    let expected = "#[no_mangle]\n\
pub extern \"C\" fn f() -> u32 {\n\
\x20   let value = f();\n\
\x20   match value {\n\
\x20       Ok(_) => {\n\
\x20           \n\
\x20       }\n\
\x20       Err(_) => {\n\
\x20           return 1;\n\
\x20       }\n\
\x20   }\n\
\x20   0\n\
}\n\
\n";
    assert_eq!(text, expected);
}

use ffiber::codegen::{gen_build_rs, gen_cargo_toml, gen_makefile};
use ffiber::error::GenError;
use ffiber::types::{SelfType, Type};
use ffiber::CDylibCompiler;

#[test]
fn makefile_text() {
    assert_eq!(gen_makefile(), "build:\n\tCDYLIB=1 cargo b --release\n");
}

#[test]
fn build_script_text() {
    let expected = "extern crate cbindgen;\n\
\n\
use std::{env, path::PathBuf};\n\
use cbindgen::Config;\n\
\n\
fn main() {\n\
\x20   let cargo_manifest_dir = env::var(\"CARGO_MANIFEST_DIR\").unwrap();\n\
\x20   let output_file = PathBuf::from(&cargo_manifest_dir).join(\"mlx5_datapath.h\").display().to_string();\n\
\x20   let config = Config { language: cbindgen::Language::C, ..Default::default() };\n\
\x20   cbindgen::generate_with_config(&cargo_manifest_dir, config) .unwrap() .write_to_file(&output_file);\n\
}\n";
    assert_eq!(gen_build_rs("mlx5_datapath"), expected);
}

#[test]
fn manifest_text() {
    let crates = vec![
        "bumpalo = { git = \"https://example.org/bumpalo\",features = [\"collections\"] }".to_string(),
        "log = \"0.4\"".to_string(),
    ];
    let expected = "[package]\n\
name = \"mlx5-datapath-c\"\n\
version = \"0.1.0\"\n\
edition = \"2021\"\n\
\n\
[lib]\n\
name = \"mlx5_datapath_c\"\n\
path = \"src/lib.rs\"\n\
crate-type = [\"cdylib\"]\n\
\n\
[dependencies]\n\
bumpalo = { git = \"https://example.org/bumpalo\",features = [\"collections\"] }\n\
log = \"0.4\"\n\
\n\
[build-dependencies]\n\
cbindgen = \"0.23.0\"\n\
\n\
[workspace]\n";
    assert_eq!(gen_cargo_toml("mlx5_datapath", &crates), expected);
}

#[test]
fn manifest_without_dependencies() {
    let text = gen_cargo_toml("a", &vec![]);
    assert!(text.starts_with("[package]\nname = \"a-c\"\n"));
    assert!(text.contains("[lib]\nname = \"a_c\"\n"));
    assert!(text.contains("[dependencies]\n\n[build-dependencies]\n"));
}

#[test]
fn package_names() {
    let compiler = CDylibCompiler::new("mlx5-datapath", "out");
    assert_eq!(compiler.package_name, "mlx5_datapath");
    assert_eq!(compiler.package_name_c, "mlx5-datapath-c");
    assert_eq!(compiler.output_folder, "out");
    assert!(compiler.crates.is_empty());
    assert_eq!(compiler.source(), "");
    let other = CDylibCompiler::new("a_b-c", ".");
    assert_eq!(other.package_name, "a_b_c");
    assert_eq!(other.package_name_c, "a-b-c-c");
}

#[test]
fn dependencies_are_kept_in_order() {
    let mut compiler = CDylibCompiler::new("demo", ".");
    compiler.add_dependency_version("log", "0.4");
    assert_eq!(
        compiler.add_dependency(
            "bumpalo",
            vec![("git", "\"https://example.org/bumpalo\""), ("features", "[\"collections\"]")],
        ),
        Ok(())
    );
    assert_eq!(compiler.add_dependency("local", vec![("path", "\"../local\"")]), Ok(()));
    assert_eq!(
        compiler.crates,
        vec![
            "log = \"0.4\"",
            "bumpalo = { git = \"https://example.org/bumpalo\",features = [\"collections\"] }",
            "local = { path = \"../local\" }",
        ]
    );
    assert!(compiler.manifest().contains(
        "[dependencies]\nlog = \"0.4\"\nbumpalo = { git = \"https://example.org/bumpalo\",features = [\"collections\"] }\nlocal = { path = \"../local\" }\n\n"
    ));
}

#[test]
fn a_dependency_without_keys_is_refused() {
    let mut compiler = CDylibCompiler::new("demo", ".");
    compiler.add_dependency_version("log", "0.4");
    assert_eq!(compiler.add_dependency("bumpalo", vec![]), Err(GenError::NoDependencyKeys));
    assert_eq!(compiler.crates, vec!["log = \"0.4\""]);
}

#[test]
fn imports_are_written_into_the_source() {
    let mut compiler = CDylibCompiler::new("demo", ".");
    compiler.import("bumpalo::Bump");
    compiler.import("demo::{A, B}");
    assert_eq!(compiler.source(), "use bumpalo::Bump;\nuse demo::{A, B};\n");
}

#[test]
fn the_default_name_joins_struct_and_function() {
    let mut compiler = CDylibCompiler::new("demo", ".");
    let owner = Type::Struct { name: "Pkt".to_string(), args: vec![Box::new(Type::new_struct("Conn"))] };
    assert_eq!(
        compiler.add_extern_c_function(
            owner,
            SelfType::Value,
            "conn_id",
            vec![],
            Some(Type::Primitive("usize".to_string())),
            false,
        ),
        Ok(())
    );
    let expected = "#[no_mangle]\n\
pub extern \"C\" fn Pkt_conn_id(self_: *mut ::std::os::raw::c_void, return_ptr: *mut usize) {\n\
\x20   let self_ = unsafe { Box::from_raw(self_ as *mut Pkt<Conn>) };\n\
\x20   let value = self_.conn_id();\n\
\x20   unsafe { *return_ptr = value; }\n\
}\n\
\n";
    assert_eq!(compiler.source(), expected);
}

#[test]
fn a_wrapper_under_a_given_name() {
    let mut compiler = CDylibCompiler::new("demo", ".");
    assert_eq!(
        compiler.add_extern_c_function_with_name(
            "reset_bump",
            Type::new_struct("Bump"),
            SelfType::RefMut,
            "reset",
            vec![],
            None,
            false,
        ),
        Ok(())
    );
    assert!(compiler.source().starts_with(
        "#[no_mangle]\npub extern \"C\" fn reset_bump(self_: *mut ::std::os::raw::c_void) {\n"
    ));
    assert!(compiler.source().contains("    self_.reset();\n"));
}

#[test]
fn a_standalone_wrapper() {
    let mut compiler = CDylibCompiler::new("demo", ".");
    assert_eq!(
        compiler.add_extern_c_function_standalone(
            "demo_init",
            "init",
            vec![("level", Type::Primitive("u8".to_string()))],
            None,
            true,
        ),
        Ok(())
    );
    assert!(compiler.source().contains("    let value = init(arg0);\n"));
    assert!(compiler.source().ends_with("    0\n}\n\n"));
}

#[test]
fn an_owner_that_is_no_struct_is_refused_by_the_package_generator() {
    let mut compiler = CDylibCompiler::new("demo", ".");
    compiler.import("a::B");
    for mode in [SelfType::Absent, SelfType::Value, SelfType::Ref] {
        assert_eq!(
            compiler.add_extern_c_function(Type::new_ref("Conn"), mode, "f", vec![], None, false),
            Err(GenError::OwnerNotStruct)
        );
        assert_eq!(
            compiler.add_extern_c_function_with_name(
                "f",
                Type::Primitive("u8".to_string()),
                mode,
                "f",
                vec![],
                None,
                false,
            ),
            Err(GenError::OwnerNotStruct)
        );
    }
    assert_eq!(compiler.source(), "use a::B;\n");
}

#[test]
fn a_refused_wrapper_leaves_the_package_as_it_was() {
    let mut compiler = CDylibCompiler::new("demo", ".");
    compiler.add_dependency_version("log", "0.4");
    assert_eq!(
        compiler.add_extern_c_function_standalone("f", "f", vec![], Some(Type::new_u8_buffer()), false),
        Err(GenError::SequenceReturnWithoutErrorCode)
    );
    assert_eq!(compiler.source(), "");
    assert_eq!(compiler.crates, vec!["log = \"0.4\""]);
}

#[test]
fn build_script_and_manifest_of_a_package() {
    let compiler = CDylibCompiler::new("my-pkg", ".");
    assert_eq!(compiler.build_script(), gen_build_rs("my_pkg"));
    assert_eq!(compiler.manifest(), gen_cargo_toml("my_pkg", &vec![]));
    assert!(compiler.build_script().contains(".join(\"my_pkg.h\")"));
}

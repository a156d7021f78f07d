use crossbind::utils::{
    join_path, output_directory, prepare_cpp_output_paths, prepare_cpp_template_paths,
    prepare_rust_output_paths, prepare_rust_template_paths, rust_source_directory,
    templates_directory,
};
use std::path::PathBuf;

#[test]
fn templates_of_the_cpp_side() {
    let (header, source, makefile, demo) = prepare_cpp_template_paths();
    assert_eq!(header, "./src/templates/cpp_header.hbs");
    assert_eq!(source, "./src/templates/cpp_source.hbs");
    assert_eq!(makefile, "./src/templates/cpp_makefile.hbs");
    assert_eq!(demo, "./src/templates/cpp_demo.hbs");
    assert_eq!(PathBuf::from(header), PathBuf::from("./src/templates").join("cpp_header.hbs"));
}

#[test]
fn templates_of_the_rust_side() {
    let (lib, cargo) = prepare_rust_template_paths();
    assert_eq!(lib, "./src/templates/rs_lib.hbs");
    assert_eq!(cargo, "./src/templates/rs_cargo.hbs");
    assert_eq!(templates_directory(), "./src/templates");
}

#[test]
fn outputs_of_the_cpp_side() {
    let (header, source, makefile, demo) = prepare_cpp_output_paths("rustmath");
    assert_eq!(header, "rustmath-bindings/rustmath.hpp");
    assert_eq!(source, "rustmath-bindings/rustmath.cpp");
    assert_eq!(makefile, "rustmath-bindings/Makefile");
    assert_eq!(demo, "rustmath-bindings/demo.cpp");
    assert_eq!(output_directory("rustmath"), "rustmath-bindings");
    assert_eq!(PathBuf::from(header), PathBuf::from("rustmath-bindings").join("rustmath.hpp"));
}

#[test]
fn outputs_of_the_rust_side() {
    let (lib, cargo) = prepare_rust_output_paths("cppmath");
    assert_eq!(lib, "cppmath-bindings/src/lib.rs");
    assert_eq!(cargo, "cppmath-bindings/Cargo.toml");
    assert_eq!(rust_source_directory("cppmath"), "cppmath-bindings/src");
    assert_eq!(join_path("a", "b"), "a/b");
}

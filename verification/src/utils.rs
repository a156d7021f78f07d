//! Where the templates are read from and where the generated files go.
//! Paths are texts with `/` between their components; nothing here touches
//! the file system.

use crate::text::followed_by;
use vstd::prelude::*;

verus! {

/// The directory that holds the templates.
pub open spec fn templates_dir() -> Seq<char> {
    "./src/templates"@
}

/// The path of a file in a directory.
pub open spec fn path_in(dir: Seq<char>, file: Seq<char>) -> Seq<char> {
    dir + "/"@ + file
}

/// The directory that receives the files generated for a module.
pub open spec fn bindings_dir(module_name: Seq<char>) -> Seq<char> {
    module_name + "-bindings"@
}

/// The directory that receives the Rust source generated for a module.
pub open spec fn rust_source_dir(module_name: Seq<char>) -> Seq<char> {
    path_in(bindings_dir(module_name), "src"@)
}

/// The path of a file in a directory.
pub fn join_path(dir: &str, file: &str) -> (path: String)
    ensures
        path@ == path_in(dir@, file@),
{
    let mut path = String::from_str(dir);
    path.append("/");
    path.append(file);
    path
}

/// The directory that holds the templates.
pub fn templates_directory() -> (dir: String)
    ensures
        dir@ == templates_dir(),
{
    String::from_str("./src/templates")
}

/// The directory that receives the files generated for a module.
pub fn output_directory(module_name: &str) -> (dir: String)
    ensures
        dir@ == bindings_dir(module_name@),
{
    followed_by(module_name, "-bindings")
}

/// The directory that receives the Rust source generated for a module.
pub fn rust_source_directory(module_name: &str) -> (dir: String)
    ensures
        dir@ == rust_source_dir(module_name@),
{
    let dir = output_directory(module_name);
    join_path(dir.as_str(), "src")
}

/// The templates of the C++ side: header, source, makefile and
/// demonstration, in that order.
pub fn prepare_cpp_template_paths() -> (paths: (String, String, String, String))
    ensures
        paths.0@ == path_in(templates_dir(), "cpp_header.hbs"@),
        paths.1@ == path_in(templates_dir(), "cpp_source.hbs"@),
        paths.2@ == path_in(templates_dir(), "cpp_makefile.hbs"@),
        paths.3@ == path_in(templates_dir(), "cpp_demo.hbs"@),
{
    let dir = templates_directory();
    (
        join_path(dir.as_str(), "cpp_header.hbs"),
        join_path(dir.as_str(), "cpp_source.hbs"),
        join_path(dir.as_str(), "cpp_makefile.hbs"),
        join_path(dir.as_str(), "cpp_demo.hbs"),
    )
}

/// The files generated for the C++ side of a module: header, source,
/// makefile and demonstration, in that order, all in the module's
/// directory.
pub fn prepare_cpp_output_paths(module_name: &str) -> (paths: (String, String, String, String))
    ensures
        paths.0@ == path_in(bindings_dir(module_name@), module_name@ + ".hpp"@),
        paths.1@ == path_in(bindings_dir(module_name@), module_name@ + ".cpp"@),
        paths.2@ == path_in(bindings_dir(module_name@), "Makefile"@),
        paths.3@ == path_in(bindings_dir(module_name@), "demo.cpp"@),
{
    let dir = output_directory(module_name);
    let header = followed_by(module_name, ".hpp");
    let source = followed_by(module_name, ".cpp");
    (
        join_path(dir.as_str(), header.as_str()),
        join_path(dir.as_str(), source.as_str()),
        join_path(dir.as_str(), "Makefile"),
        join_path(dir.as_str(), "demo.cpp"),
    )
}

/// The templates of the Rust side: library source and package description, in
/// that order.
pub fn prepare_rust_template_paths() -> (paths: (String, String))
    ensures
        paths.0@ == path_in(templates_dir(), "rs_lib.hbs"@),
        paths.1@ == path_in(templates_dir(), "rs_cargo.hbs"@),
{
    let dir = templates_directory();
    (join_path(dir.as_str(), "rs_lib.hbs"), join_path(dir.as_str(), "rs_cargo.hbs"))
}

/// The files generated for the Rust side of a module: the library source
/// in the source directory and the package description beside that directory,
/// in that order.
pub fn prepare_rust_output_paths(module_name: &str) -> (paths: (String, String))
    ensures
        paths.0@ == path_in(rust_source_dir(module_name@), "lib.rs"@),
        paths.1@ == path_in(bindings_dir(module_name@), "Cargo.toml"@),
{
    let dir = output_directory(module_name);
    let source_dir = rust_source_directory(module_name);
    (join_path(source_dir.as_str(), "lib.rs"), join_path(dir.as_str(), "Cargo.toml"))
}

} // verus!

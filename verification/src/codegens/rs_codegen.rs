//! Rust declarations for functions exported from C++.

use crate::parsers::cpp_parser::{CppFunction, CppFunctionView};
use crate::template::{
    ContextModel, ContextValue, RenderError, FailureKind, field, field_models, json_of,
    lemma_list_model, lemma_record_model, models, outcome, render, rendered, text_value,
};
use crate::text::{replace_all, replaced, text_eq, trim, trimmed};
use crate::types::{CanonicalType, TypeMapping, TypeMappingView, class_mapping};
use vstd::prelude::*;

verus! {

/// The class of a C++ type, named without surrounding white space; a type
/// that the resolver does not know is opaque, and so is `void`.
pub open spec fn canonical_of(token: Seq<char>) -> CanonicalType {
    if token == "int"@ {
        CanonicalType::Int32
    } else if token == "float"@ {
        CanonicalType::Float32
    } else if token == "double"@ {
        CanonicalType::Float64
    } else if token == "char*"@ || token == "const char*"@ {
        CanonicalType::Str
    } else if token == "bool"@ {
        CanonicalType::Bool
    } else {
        CanonicalType::Opaque
    }
}

/// The Rust spelling of a C++ type, named without surrounding white space:
/// a string is a pointer to its bytes, `void` is the unit type, and a type
/// that the resolver does not know is a pointer to unknown.
pub open spec fn surface_of(token: Seq<char>) -> Seq<char> {
    if token == "int"@ {
        "i32"@
    } else if token == "float"@ {
        "f32"@
    } else if token == "double"@ {
        "f64"@
    } else if token == "void"@ {
        "()"@
    } else if token == "char*"@ || token == "const char*"@ {
        "*const u8"@
    } else if token == "bool"@ {
        "bool"@
    } else {
        "*const core::ffi::c_void"@
    }
}

/// What a C++ type maps to; white space around its name does not count.
pub open spec fn mapping_of(cpp_type: Seq<char>) -> TypeMappingView {
    let token = trimmed(cpp_type);
    class_mapping(canonical_of(token), surface_of(token))
}

/// The Rust type of a C++ type.
pub open spec fn rust_type_of(cpp_type: Seq<char>) -> Seq<char> {
    mapping_of(cpp_type).target_surface_type
}

/// What a template sees of one parameter.
pub open spec fn arg_context(parameter: (Seq<char>, Seq<char>)) -> ContextModel {
    ContextModel::Record(
        seq![
            ("type"@, ContextModel::Text(rust_type_of(parameter.0))),
            ("name"@, ContextModel::Text(parameter.1)),
        ],
    )
}

/// What a template sees of one function.
pub open spec fn function_context(f: CppFunctionView) -> ContextModel {
    ContextModel::Record(
        seq![
            ("name"@, ContextModel::Text(f.name)),
            ("return_type"@, ContextModel::Text(rust_type_of(f.return_type))),
            (
                "args"@,
                ContextModel::List(
                    Seq::new(f.parameters.len(), |i: int| arg_context(f.parameters[i])),
                ),
            ),
        ],
    )
}

/// What the template of the declarations is rendered with.
pub open spec fn context_of(module: Seq<char>, functions: Seq<CppFunctionView>) -> ContextModel {
    ContextModel::Record(
        seq![
            ("module"@, ContextModel::Text(module)),
            (
                "functions"@,
                ContextModel::List(
                    Seq::new(functions.len(), |i: int| function_context(functions[i])),
                ),
            ),
        ],
    )
}

/// The text of the declarations of a module and its functions.
pub open spec fn bindings_text(
    module: Seq<char>,
    functions: Seq<CppFunctionView>,
    template: Seq<char>,
) -> Result<Seq<char>, FailureKind> {
    rendered("rs_lib"@, template, json_of(context_of(module, functions)))
}

/// The class of a C++ type.
pub fn classify(cpp_type: &str) -> (c: CanonicalType)
    ensures
        c == mapping_of(cpp_type@).canonical,
{
    let token = trim(cpp_type);
    if text_eq(token, "int") {
        CanonicalType::Int32
    } else if text_eq(token, "float") {
        CanonicalType::Float32
    } else if text_eq(token, "double") {
        CanonicalType::Float64
    } else if text_eq(token, "char*") || text_eq(token, "const char*") {
        CanonicalType::Str
    } else if text_eq(token, "bool") {
        CanonicalType::Bool
    } else {
        CanonicalType::Opaque
    }
}

/// The Rust type of a C++ type. Every type has one: a type that is not
/// known becomes a pointer to unknown.
pub fn map_cpp_type_to_rust(cpp_type: &str) -> (r: &'static str)
    ensures
        r@ == rust_type_of(cpp_type@),
{
    let token = trim(cpp_type);
    if text_eq(token, "int") {
        "i32"
    } else if text_eq(token, "float") {
        "f32"
    } else if text_eq(token, "double") {
        "f64"
    } else if text_eq(token, "void") {
        "()"
    } else if text_eq(token, "char*") || text_eq(token, "const char*") {
        "*const u8"
    } else if text_eq(token, "bool") {
        "bool"
    } else {
        "*const core::ffi::c_void"
    }
}

/// Resolves a C++ type.
pub fn resolve(cpp_type: &str) -> (m: TypeMapping)
    ensures
        m@ == mapping_of(cpp_type@),
        m@.wf(),
{
    TypeMapping::of_class(classify(cpp_type), map_cpp_type_to_rust(cpp_type))
}

/// The context value of one function.
pub fn function_context_value(f: &CppFunction) -> (value: ContextValue)
    ensures
        value.model() == function_context(f@),
{
    let ghost want = Seq::new(f@.parameters.len(), |i: int| arg_context(f@.parameters[i]));
    let mut args: Vec<ContextValue> = Vec::new();
    let n = f.parameters.len();
    let mut i: usize = 0;
    while i < n
        invariant
            n == f.parameters.len(),
            want == Seq::new(f@.parameters.len(), |i: int| arg_context(f@.parameters[i])),
            i <= n,
            models(args@) == want.take(i as int),
        decreases n - i,
    {
        let mut fields: Vec<(String, ContextValue)> = Vec::new();
        fields.push(field("type", text_value(map_cpp_type_to_rust(f.parameters[i].0.as_str()))));
        fields.push(field("name", text_value(f.parameters[i].1.as_str())));
        proof {
            lemma_record_model(fields);
            assert(f@.parameters[i as int] == f.parameters[i as int].deep_view());
            assert(field_models(fields@) == arg_context(f@.parameters[i as int])->Record_0);
        }
        let ghost before = models(args@);
        args.push(ContextValue::Record(fields));
        assert(models(args@) == before.push(arg_context(f@.parameters[i as int])));
        assert(want.take(i + 1) == want.take(i as int).push(arg_context(f@.parameters[i as int])));
        i = i + 1;
    }
    assert(want.take(n as int) == want);
    let mut fields: Vec<(String, ContextValue)> = Vec::new();
    proof {
        lemma_list_model(args);
    }
    fields.push(field("name", text_value(f.name.as_str())));
    fields.push(field("return_type", text_value(map_cpp_type_to_rust(f.return_type.as_str()))));
    fields.push(field("args", ContextValue::List(args)));
    proof {
        lemma_record_model(fields);
        assert(field_models(fields@) == function_context(f@)->Record_0);
    }
    ContextValue::Record(fields)
}

/// The context value of a module and its functions.
pub fn bindings_context(module: &str, functions: &[CppFunction]) -> (value: ContextValue)
    ensures
        value.model() == context_of(module@, functions.deep_view()),
{
    let ghost views = functions.deep_view();
    let ghost want = Seq::new(views.len(), |i: int| function_context(views[i]));
    let mut list: Vec<ContextValue> = Vec::new();
    let n = functions.len();
    let mut i: usize = 0;
    while i < n
        invariant
            n == functions.len(),
            views == functions.deep_view(),
            want == Seq::new(views.len(), |i: int| function_context(views[i])),
            i <= n,
            models(list@) == want.take(i as int),
        decreases n - i,
    {
        let value = function_context_value(&functions[i]);
        let ghost before = models(list@);
        list.push(value);
        assert(views[i as int] == functions[i as int]@);
        assert(models(list@) == before.push(function_context(views[i as int])));
        assert(want.take(i + 1) == want.take(i as int).push(function_context(views[i as int])));
        i = i + 1;
    }
    assert(want.take(n as int) == want);
    let mut fields: Vec<(String, ContextValue)> = Vec::new();
    proof {
        lemma_list_model(list);
    }
    fields.push(field("module", text_value(module)));
    fields.push(field("functions", ContextValue::List(list)));
    proof {
        lemma_record_model(fields);
        assert(field_models(fields@) == context_of(module@, views)->Record_0);
    }
    ContextValue::Record(fields)
}

/// Renders the Rust declarations of a module from their template.
pub fn generate_bindings(module: &str, functions: &[CppFunction], template: &str) -> (text: Result<
    String,
    RenderError,
>)
    ensures
        outcome(text) == bindings_text(module@, functions.deep_view(), template@),
{
    let context = bindings_context(module, functions);
    render("rs_lib", template, &context)
}

/// The package description of a module: its template with the module's name
/// in every place of `{{module}}`.
pub fn generate_cargo(module: &str, template: &str) -> (text: String)
    ensures
        text@ == replaced(template@, "{{module}}"@, module@),
{
    replace_all(template, "{{module}}", module)
}

} // verus!

//! C++ bindings for Rust functions without a slot layout: every argument
//! is taken to be one value. The implementation template may read a list
//! by position through the helper `get`.

use crate::codegen::{Artifacts, ArtifactsView, Templates};
use crate::parsers::rs_parser::{ExportedFunction, ExportedFunctionView};
use crate::template::{
    ContextModel, ContextValue, FailureKind, RenderError, field, field_models, json_of, kind_of,
    lemma_list_model, lemma_record_model, models, outcome, render, render_with_get, rendered,
    rendered_with_get, text_value,
};
use crate::text::{followed_by, text_eq};
use vstd::prelude::*;

verus! {

/// One argument of a function as a template sees it.
#[derive(Clone, Debug, PartialEq, Eq)]
pub struct Arg {
    pub name: String,
    pub typ: String,
    pub wasm_type: String,
}

/// Mathematical model of an [`Arg`].
pub struct ArgView {
    pub name: Seq<char>,
    pub typ: Seq<char>,
    pub wasm_type: Seq<char>,
}

/// One function as a template sees it.
#[derive(Clone, Debug, PartialEq, Eq)]
pub struct CppFunction {
    pub name: String,
    pub args: Vec<Arg>,
    pub return_type: String,
    pub wasm_unwrap: String,
}

/// Mathematical model of a [`CppFunction`].
pub struct CppFunctionView {
    pub name: Seq<char>,
    pub args: Seq<ArgView>,
    pub return_type: Seq<char>,
    pub wasm_unwrap: Seq<char>,
}

/// What a template is rendered with.
#[derive(Clone, Debug, PartialEq, Eq)]
pub struct TemplateData {
    pub module_name: String,
    pub header_name: String,
    pub functions: Vec<CppFunction>,
}

/// Mathematical model of a [`TemplateData`].
pub struct TemplateDataView {
    pub module_name: Seq<char>,
    pub header_name: Seq<char>,
    pub functions: Seq<CppFunctionView>,
}

impl View for Arg {
    type V = ArgView;

    open spec fn view(&self) -> ArgView {
        ArgView { name: self.name@, typ: self.typ@, wasm_type: self.wasm_type@ }
    }
}

impl DeepView for Arg {
    type V = ArgView;

    open spec fn deep_view(&self) -> ArgView {
        self.view()
    }
}

impl View for CppFunction {
    type V = CppFunctionView;

    open spec fn view(&self) -> CppFunctionView {
        CppFunctionView {
            name: self.name@,
            args: self.args.deep_view(),
            return_type: self.return_type@,
            wasm_unwrap: self.wasm_unwrap@,
        }
    }
}

impl DeepView for CppFunction {
    type V = CppFunctionView;

    open spec fn deep_view(&self) -> CppFunctionView {
        self.view()
    }
}

impl View for TemplateData {
    type V = TemplateDataView;

    open spec fn view(&self) -> TemplateDataView {
        TemplateDataView {
            module_name: self.module_name@,
            header_name: self.header_name@,
            functions: self.functions.deep_view(),
        }
    }
}

/// The C++ spelling of a Rust type token; a token that is not known is a
/// pointer to unknown.
pub open spec fn cpp_type_of(token: Seq<char>) -> Seq<char> {
    if token == "i32"@ || token == "u32"@ || token == "usize"@ {
        "int"@
    } else if token == "f32"@ {
        "float"@
    } else if token == "f64"@ {
        "double"@
    } else if token == "bool"@ {
        "bool"@
    } else if token == "String"@ || token == "& str"@ || token == "* const u8"@ {
        "const char*"@
    } else if token == "* mut u8"@ {
        "char*"@
    } else {
        "void*"@
    }
}

/// The value class of a Rust type token, spelled out: the two
/// floating-point types keep their own, everything else travels as a
/// 32-bit integer.
pub open spec fn value_class_of(token: Seq<char>) -> Seq<char> {
    if token == "f32"@ {
        "f32"@
    } else if token == "f64"@ {
        "f64"@
    } else {
        "i32"@
    }
}

/// What a template sees of the argument of the given name and type.
pub open spec fn arg_of(arg: (Seq<char>, Seq<char>)) -> ArgView {
    ArgView { name: arg.0, typ: cpp_type_of(arg.1), wasm_type: value_class_of(arg.1) }
}

/// What a template sees of a function; one without a return type returns
/// `void` and unwraps as a 32-bit integer.
pub open spec fn function_of(f: ExportedFunctionView) -> CppFunctionView {
    CppFunctionView {
        name: f.name,
        args: Seq::new(f.args.len(), |i: int| arg_of(f.args[i])),
        return_type: match f.return_type {
            Some(token) => cpp_type_of(token),
            None => "void"@,
        },
        wasm_unwrap: match f.return_type {
            Some(token) => value_class_of(token),
            None => "i32"@,
        },
    }
}

/// The template data of a module and its functions.
pub open spec fn template_data_of(
    module_name: Seq<char>,
    functions: Seq<ExportedFunctionView>,
) -> TemplateDataView {
    TemplateDataView {
        module_name,
        header_name: module_name + ".hpp"@,
        functions: Seq::new(functions.len(), |i: int| function_of(functions[i])),
    }
}

/// The context of one argument.
pub open spec fn arg_context(a: ArgView) -> ContextModel {
    ContextModel::Record(
        seq![
            ("name"@, ContextModel::Text(a.name)),
            ("type"@, ContextModel::Text(a.typ)),
            ("wasm_type"@, ContextModel::Text(a.wasm_type)),
        ],
    )
}

/// The context of one function.
pub open spec fn function_context(f: CppFunctionView) -> ContextModel {
    ContextModel::Record(
        seq![
            ("name"@, ContextModel::Text(f.name)),
            ("args"@, ContextModel::List(Seq::new(f.args.len(), |i: int| arg_context(f.args[i])))),
            ("return_type"@, ContextModel::Text(f.return_type)),
            ("wasm_unwrap"@, ContextModel::Text(f.wasm_unwrap)),
        ],
    )
}

/// What a template of declarations or implementations is rendered with.
pub open spec fn context_of(d: TemplateDataView) -> ContextModel {
    ContextModel::Record(
        seq![
            ("module_name"@, ContextModel::Text(d.module_name)),
            ("header_name"@, ContextModel::Text(d.header_name)),
            (
                "functions"@,
                ContextModel::List(
                    Seq::new(d.functions.len(), |i: int| function_context(d.functions[i])),
                ),
            ),
        ],
    )
}

/// What a template that only names the module is rendered with.
pub open spec fn module_context(module_name: Seq<char>) -> ContextModel {
    ContextModel::Record(seq![("module_name"@, ContextModel::Text(module_name))])
}

/// The C++ type for a Rust type token.
pub fn map_rust_type_to_cpp(rust_type: &str) -> (r: String)
    ensures
        r@ == cpp_type_of(rust_type@),
{
    if text_eq(rust_type, "i32") || text_eq(rust_type, "u32") || text_eq(rust_type, "usize") {
        String::from_str("int")
    } else if text_eq(rust_type, "f32") {
        String::from_str("float")
    } else if text_eq(rust_type, "f64") {
        String::from_str("double")
    } else if text_eq(rust_type, "bool") {
        String::from_str("bool")
    } else if text_eq(rust_type, "String") || text_eq(rust_type, "& str") || text_eq(
        rust_type,
        "* const u8",
    ) {
        String::from_str("const char*")
    } else if text_eq(rust_type, "* mut u8") {
        String::from_str("char*")
    } else {
        String::from_str("void*")
    }
}

/// The value class of an argument of the Rust type, spelled out.
pub fn map_rust_type_to_wasmer_val(rust_type: &str) -> (r: String)
    ensures
        r@ == value_class_of(rust_type@),
{
    if text_eq(rust_type, "f32") {
        String::from_str("f32")
    } else if text_eq(rust_type, "f64") {
        String::from_str("f64")
    } else {
        String::from_str("i32")
    }
}

/// The value class as which a result of the Rust type is unwrapped,
/// spelled out.
pub fn map_wasmer_unwrap(rust_type: &str) -> (r: String)
    ensures
        r@ == value_class_of(rust_type@),
{
    map_rust_type_to_wasmer_val(rust_type)
}

/// What a template sees of a function.
pub fn template_function(f: &ExportedFunction) -> (r: CppFunction)
    ensures
        r@ == function_of(f@),
{
    let ghost want = function_of(f@).args;
    let mut args: Vec<Arg> = Vec::new();
    let n = f.args.len();
    let mut i: usize = 0;
    while i < n
        invariant
            n == f.args.len(),
            want == function_of(f@).args,
            i <= n,
            args.deep_view() == want.take(i as int),
        decreases n - i,
    {
        let typ = map_rust_type_to_cpp(f.args[i].1.as_str());
        let wasm_type = map_rust_type_to_wasmer_val(f.args[i].1.as_str());
        let ghost before = args.deep_view();
        args.push(Arg { name: f.args[i].0.clone(), typ, wasm_type });
        proof {
            assert(f@.args[i as int] == f.args[i as int].deep_view());
            assert(args.deep_view() == before.push(want[i as int]));
            assert(want.take(i + 1) == want.take(i as int).push(want[i as int]));
        }
        i = i + 1;
    }
    assert(want.take(n as int) == want);
    let (return_type, wasm_unwrap) = match &f.return_type {
        Some(token) => (map_rust_type_to_cpp(token.as_str()), map_wasmer_unwrap(token.as_str())),
        None => (String::from_str("void"), String::from_str("i32")),
    };
    CppFunction { name: f.name.clone(), args, return_type, wasm_unwrap }
}

/// Maps every function, in declaration order, and names the header after
/// the module.
pub fn prepare_template_data(module_name: &str, functions: &[ExportedFunction]) -> (data:
    TemplateData)
    ensures
        data@ == template_data_of(module_name@, functions.deep_view()),
{
    let ghost want = template_data_of(module_name@, functions.deep_view()).functions;
    let mut list: Vec<CppFunction> = Vec::new();
    let n = functions.len();
    let mut i: usize = 0;
    while i < n
        invariant
            n == functions.len(),
            want == template_data_of(module_name@, functions.deep_view()).functions,
            i <= n,
            list.deep_view() == want.take(i as int),
        decreases n - i,
    {
        let function = template_function(&functions[i]);
        let ghost before = list.deep_view();
        list.push(function);
        proof {
            assert(functions.deep_view()[i as int] == functions[i as int]@);
            assert(list.deep_view() == before.push(want[i as int]));
            assert(want.take(i + 1) == want.take(i as int).push(want[i as int]));
        }
        i = i + 1;
    }
    assert(want.take(n as int) == want);
    TemplateData {
        module_name: String::from_str(module_name),
        header_name: followed_by(module_name, ".hpp"),
        functions: list,
    }
}

/// The context value of one function.
pub fn function_context_value(f: &CppFunction) -> (value: ContextValue)
    ensures
        value.model() == function_context(f@),
{
    let ghost want = Seq::new(f@.args.len(), |i: int| arg_context(f@.args[i]));
    let mut args: Vec<ContextValue> = Vec::new();
    let n = f.args.len();
    let mut i: usize = 0;
    while i < n
        invariant
            n == f.args.len(),
            want == Seq::new(f@.args.len(), |i: int| arg_context(f@.args[i])),
            i <= n,
            models(args@) == want.take(i as int),
        decreases n - i,
    {
        let mut fields: Vec<(String, ContextValue)> = Vec::new();
        fields.push(field("name", text_value(f.args[i].name.as_str())));
        fields.push(field("type", text_value(f.args[i].typ.as_str())));
        fields.push(field("wasm_type", text_value(f.args[i].wasm_type.as_str())));
        proof {
            lemma_record_model(fields);
            assert(field_models(fields@) == arg_context(f@.args[i as int])->Record_0);
        }
        let ghost before = models(args@);
        args.push(ContextValue::Record(fields));
        assert(models(args@) == before.push(arg_context(f@.args[i as int])));
        assert(want.take(i + 1) == want.take(i as int).push(arg_context(f@.args[i as int])));
        i = i + 1;
    }
    assert(want.take(n as int) == want);
    let mut fields: Vec<(String, ContextValue)> = Vec::new();
    proof {
        lemma_list_model(args);
    }
    fields.push(field("name", text_value(f.name.as_str())));
    fields.push(field("args", ContextValue::List(args)));
    fields.push(field("return_type", text_value(f.return_type.as_str())));
    fields.push(field("wasm_unwrap", text_value(f.wasm_unwrap.as_str())));
    proof {
        lemma_record_model(fields);
        assert(field_models(fields@) == function_context(f@)->Record_0);
    }
    ContextValue::Record(fields)
}

/// The context value of a module's template data.
pub fn template_context(data: &TemplateData) -> (value: ContextValue)
    ensures
        value.model() == context_of(data@),
{
    let ghost want = Seq::new(data@.functions.len(), |i: int| function_context(data@.functions[i]));
    let mut functions: Vec<ContextValue> = Vec::new();
    let n = data.functions.len();
    let mut i: usize = 0;
    while i < n
        invariant
            n == data.functions.len(),
            want == Seq::new(data@.functions.len(), |i: int| function_context(data@.functions[i])),
            i <= n,
            models(functions@) == want.take(i as int),
        decreases n - i,
    {
        let value = function_context_value(&data.functions[i]);
        let ghost before = models(functions@);
        functions.push(value);
        assert(models(functions@) == before.push(function_context(data@.functions[i as int])));
        assert(want.take(i + 1) == want.take(i as int).push(
            function_context(data@.functions[i as int]),
        ));
        i = i + 1;
    }
    assert(want.take(n as int) == want);
    let mut fields: Vec<(String, ContextValue)> = Vec::new();
    proof {
        lemma_list_model(functions);
    }
    fields.push(field("module_name", text_value(data.module_name.as_str())));
    fields.push(field("header_name", text_value(data.header_name.as_str())));
    fields.push(field("functions", ContextValue::List(functions)));
    proof {
        lemma_record_model(fields);
        assert(field_models(fields@) == context_of(data@)->Record_0);
    }
    ContextValue::Record(fields)
}

/// The context value that only names the module.
pub fn module_context_value(module_name: &str) -> (value: ContextValue)
    ensures
        value.model() == module_context(module_name@),
{
    let mut fields: Vec<(String, ContextValue)> = Vec::new();
    fields.push(field("module_name", text_value(module_name)));
    proof {
        lemma_record_model(fields);
        assert(field_models(fields@) == module_context(module_name@)->Record_0);
    }
    ContextValue::Record(fields)
}

/// Renders the implementation file of a module from its template, which
/// may use the helper `get`.
pub fn generate_cpp(module_name: &str, functions: &[ExportedFunction], cpp_template: &str) -> (text:
    Result<String, RenderError>)
    ensures
        outcome(text) == rendered_with_get(
            "cpp"@,
            cpp_template@,
            json_of(context_of(template_data_of(module_name@, functions.deep_view()))),
        ),
{
    let data = prepare_template_data(module_name, functions);
    let context = template_context(&data);
    render_with_get("cpp", cpp_template, &context)
}

/// Renders the declaration file of a module from its template.
pub fn generate_header(module_name: &str, functions: &[ExportedFunction], h_template: &str) -> (text:
    Result<String, RenderError>)
    ensures
        outcome(text) == rendered(
            "header"@,
            h_template@,
            json_of(context_of(template_data_of(module_name@, functions.deep_view()))),
        ),
{
    let data = prepare_template_data(module_name, functions);
    let context = template_context(&data);
    render("header", h_template, &context)
}

/// Renders the build descriptor of a module from its template.
pub fn generate_makefile(module_name: &str, template_text: &str) -> (text: Result<
    String,
    RenderError,
>)
    ensures
        outcome(text) == rendered(
            "makefile"@,
            template_text@,
            json_of(module_context(module_name@)),
        ),
{
    let context = module_context_value(module_name);
    render("makefile", template_text, &context)
}

/// Renders the demonstration program of a module from its template.
pub fn generate_demo(module_name: &str, template_text: &str) -> (text: Result<String, RenderError>)
    ensures
        outcome(text) == rendered("demo"@, template_text@, json_of(module_context(module_name@))),
{
    let context = module_context_value(module_name);
    render("demo", template_text, &context)
}

/// All the files of a module or none: the files where every template
/// renders, else the failure of the first template that does not, taking
/// header, source, makefile and demonstration in that order.
pub open spec fn artifacts_of(
    module_name: Seq<char>,
    functions: Seq<ExportedFunctionView>,
    header: Seq<char>,
    source: Seq<char>,
    makefile: Seq<char>,
    demo: Seq<char>,
) -> Result<ArtifactsView, FailureKind> {
    let context = json_of(context_of(template_data_of(module_name, functions)));
    let module = json_of(module_context(module_name));
    match rendered("header"@, header, context) {
        Err(kind) => Err(kind),
        Ok(header_text) => match rendered_with_get("cpp"@, source, context) {
            Err(kind) => Err(kind),
            Ok(source_text) => match rendered("makefile"@, makefile, module) {
                Err(kind) => Err(kind),
                Ok(makefile_text) => match rendered("demo"@, demo, module) {
                    Err(kind) => Err(kind),
                    Ok(demo_text) => Ok(
                        ArtifactsView {
                            header: header_text,
                            source: source_text,
                            makefile: makefile_text,
                            demo: demo_text,
                        },
                    ),
                },
            },
        },
    }
}

/// Renders all the files of a module, or none of them.
pub fn generate_all(module_name: &str, functions: &[ExportedFunction], templates: &Templates) -> (r:
    Result<Artifacts, RenderError>)
    ensures
        match r {
            Ok(files) => artifacts_of(
                module_name@,
                functions.deep_view(),
                templates.header@,
                templates.source@,
                templates.makefile@,
                templates.demo@,
            ) == Ok::<ArtifactsView, FailureKind>(files@),
            Err(error) => artifacts_of(
                module_name@,
                functions.deep_view(),
                templates.header@,
                templates.source@,
                templates.makefile@,
                templates.demo@,
            ) == Err::<ArtifactsView, FailureKind>(kind_of(error)),
        },
{
    let header = match generate_header(module_name, functions, templates.header.as_str()) {
        Ok(text) => text,
        Err(error) => {
            return Err(error);
        },
    };
    let source = match generate_cpp(module_name, functions, templates.source.as_str()) {
        Ok(text) => text,
        Err(error) => {
            return Err(error);
        },
    };
    let makefile = match generate_makefile(module_name, templates.makefile.as_str()) {
        Ok(text) => text,
        Err(error) => {
            return Err(error);
        },
    };
    let demo = match generate_demo(module_name, templates.demo.as_str()) {
        Ok(text) => text,
        Err(error) => {
            return Err(error);
        },
    };
    Ok(Artifacts { header, source, makefile, demo })
}

} // verus!

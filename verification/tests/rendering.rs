use crossbind::codegen;
use crossbind::codegens::{cpp_codegen, rs_codegen};
use crossbind::parsers::cpp_parser::CppFunction;
use crossbind::parsers::rs_parser::ExportedFunction;
use crossbind::template::{
    field, has_partials, picked, render, render_with_get, text_value, ContextValue, FailureKind,
    RenderError,
};
use crossbind::types::CanonicalType;

fn signature(name: &str, args: &[(&str, &str)], return_type: Option<&str>) -> ExportedFunction {
    ExportedFunction {
        name: name.to_string(),
        args: args.iter().map(|(n, t)| (n.to_string(), t.to_string())).collect(),
        return_type: return_type.map(|t| t.to_string()),
    }
}

fn functions() -> Vec<ExportedFunction> {
    vec![
        signature("add", &[("a", "i32"), ("b", "i32")], Some("i32")),
        signature("greet", &[("name", "String"), ("times", "u32")], Some("String")),
        signature("reset", &[], None),
    ]
}

fn text(s: &str) -> ContextValue {
    ContextValue::Text(s.to_string())
}

fn record(fields: Vec<(&str, ContextValue)>) -> ContextValue {
    ContextValue::Record(fields.into_iter().map(|(k, v)| (k.to_string(), v)).collect())
}

const LISTING: &str = "{{module_name}} ({{header_name}})\n{{#each functions}}{{{return_type}}} {{name}}({{#each args}}{{{type}}} {{name}} @{{idx}} as {{wasm_type}}{{#unless @last}}, {{/unless}}{{/each}}) slots={{arg_count}} unwrap={{wasm_unwrap}}\n{{/each}}";

#[test]
fn context_has_the_agreed_keys() {
    let data = codegen::prepare_template_data("math", &functions()[..1]);
    let context = codegen::template_context(&data);
    let arg = |name: &str, idx: usize| {
        record(vec![
            ("name", text(name)),
            ("type", text("int")),
            ("idx", ContextValue::Number(idx)),
            ("wasm_type", text("i32")),
        ])
    };
    let expected = record(vec![
        ("module_name", text("math")),
        ("header_name", text("math.hpp")),
        (
            "functions",
            ContextValue::List(vec![record(vec![
                ("name", text("add")),
                ("args", ContextValue::List(vec![arg("a", 0), arg("b", 1)])),
                ("arg_count", ContextValue::Number(2)),
                ("return_type", text("int")),
                ("wasm_unwrap", text("i32")),
            ])]),
        ),
    ]);
    assert_eq!(context, expected);
    assert_eq!(
        codegen::module_context_value("math"),
        record(vec![("module_name", text("math"))])
    );
    assert_eq!(text_value("x"), text("x"));
    assert_eq!(field("k", ContextValue::Number(3)), ("k".to_string(), ContextValue::Number(3)));
}

#[test]
fn header_and_source_are_rendered_from_the_plans() {
    let expected = "math (math.hpp)\nint add(int a @0 as i32, int b @1 as i32) slots=2 unwrap=i32\nconst char* greet(const char* name @0 as i32, unsigned int times @2 as i32) slots=3 unwrap=i32\nvoid reset() slots=0 unwrap=i32\n";
    assert_eq!(codegen::generate_header("math", &functions(), LISTING), Ok(expected.to_string()));
    assert_eq!(codegen::generate_cpp("math", &functions(), LISTING), Ok(expected.to_string()));
    assert_eq!(
        codegen::generate_cpp("math", &functions(), LISTING),
        codegen::generate_cpp("math", &functions(), LISTING)
    );
    assert_eq!(codegen::generate_cpp("m", &[], LISTING), Ok("m (m.hpp)\n".to_string()));
}

#[test]
fn unknown_type_is_rendered_as_the_opaque_pointer() {
    let functions = vec![signature("store", &[("data", "Vec < u8 >"), ("n", "i32")], Some("Widget"))];
    assert_eq!(
        codegen::generate_header("m", &functions, LISTING),
        Ok("m (m.hpp)\nvoid* store(void* data @0 as i32, int n @1 as i32) slots=2 unwrap=i32\n"
            .to_string())
    );
    assert_eq!(codegen::classify("Widget"), CanonicalType::Opaque);
}

#[test]
fn makefile_and_demo_see_the_module_name() {
    assert_eq!(
        codegen::generate_makefile("math", "TARGET = {{module_name}}\nall: $(TARGET)\n"),
        Ok("TARGET = math\nall: $(TARGET)\n".to_string())
    );
    assert_eq!(
        cpp_codegen::generate_demo("math", "#include \"{{module_name}}.hpp\"\n"),
        Ok("#include \"math.hpp\"\n".to_string())
    );
    assert_eq!(
        cpp_codegen::generate_makefile("math", "lib{{module_name}}.a"),
        Ok("libmath.a".to_string())
    );
    assert_eq!(cpp_codegen::generate_demo("math", "{{module_name}}!"), Ok("math!".to_string()));
    assert_eq!(codegen::generate_makefile("a<b", "{{module_name}}"), Ok("a&lt;b".to_string()));
}

#[test]
fn template_that_does_not_parse_is_an_error() {
    let result = codegen::generate_header("math", &functions(), "{{#each functions}}{{name}}");
    assert!(matches!(result, Err(RenderError::Template(_))));
    let result = codegen::generate_makefile("math", "{{module_name");
    assert!(matches!(result, Err(RenderError::Template(_))));
    let result = rs_codegen::generate_bindings("math", &[], "{{#if}}");
    assert!(matches!(result, Err(RenderError::Template(_)) | Err(RenderError::Render(_))));
}

#[test]
fn template_that_cannot_be_rendered_is_an_error() {
    let result = codegen::generate_cpp("math", &functions(), "{{get functions 0}}");
    assert!(matches!(result, Err(RenderError::Render(_))));
    assert_eq!(result.unwrap_err().kind(), FailureKind::Render);
    let result = codegen::generate_makefile("math", "{{eq 1 1 a=(foo 1) b=(bar 1)}}");
    assert!(matches!(result, Err(RenderError::Render(_))));
}

#[test]
fn reduced_bindings_take_every_argument_as_one_value() {
    let functions = vec![
        signature("copy", &[("to", "* mut u8"), ("from", "* const u8"), ("n", "usize")], None),
        signature("ratio", &[("a", "f32"), ("text", "& str")], Some("f64")),
    ];
    let data = cpp_codegen::prepare_template_data("raw", &functions);
    assert_eq!(data.module_name, "raw");
    assert_eq!(data.header_name, "raw.hpp");
    let types: Vec<&str> = data.functions[0].args.iter().map(|a| a.typ.as_str()).collect();
    assert_eq!(types, vec!["char*", "const char*", "int"]);
    assert_eq!(data.functions[0].return_type, "void");
    assert_eq!(data.functions[0].wasm_unwrap, "i32");
    assert_eq!(data.functions[1].args[0].wasm_type, "f32");
    assert_eq!(data.functions[1].args[1].typ, "const char*");
    assert_eq!(data.functions[1].return_type, "double");
    assert_eq!(data.functions[1].wasm_unwrap, "f64");
    assert_eq!(cpp_codegen::map_rust_type_to_cpp("u32"), "int");
    assert_eq!(cpp_codegen::map_rust_type_to_cpp("Widget"), "void*");
    assert_eq!(cpp_codegen::map_rust_type_to_wasmer_val("usize"), "i32");
    assert_eq!(cpp_codegen::map_wasmer_unwrap("f32"), "f32");
    let template = "{{#each functions}}{{{return_type}}} {{name}}({{#each args}}{{{type}}} {{name}}:{{wasm_type}};{{/each}})[{{idx}}{{arg_count}}]\n{{/each}}";
    assert_eq!(
        cpp_codegen::generate_header("raw", &functions, template),
        Ok("void copy(char* to:i32;const char* from:i32;int n:i32;)[]\ndouble ratio(float a:f32;const char* text:i32;)[]\n".to_string())
    );
}

#[test]
fn helper_reads_a_list_by_position() {
    let functions = vec![signature("add", &[("a", "i32"), ("b", "f64")], Some("i32"))];
    let template = "{{#each functions}}{{get args 1}}|{{get args 7}}|{{get args}}|{{get name 0}}{{/each}}";
    assert_eq!(
        cpp_codegen::generate_cpp("m", &functions, template),
        Ok("{\"name\":\"b\",\"type\":\"double\",\"wasm_type\":\"f64\"}||{\"name\":\"a\",\"type\":\"int\",\"wasm_type\":\"i32\"}|".to_string())
    );
    let list = ContextValue::Record(vec![(
        "items".to_string(),
        ContextValue::List(vec![text("x"), ContextValue::Number(7)]),
    )]);
    assert_eq!(render_with_get("t", "{{get items 0}}{{get items 1}}", &list), Ok("\"x\"7".to_string()));
    assert!(render("t", "{{get items 0}}", &list).is_err());
    assert_eq!(render("t", "{{items.[1]}}{{len items}}", &list), Ok("72".to_string()));
}

#[test]
fn position_that_the_helper_reads() {
    assert_eq!(picked(3, Some(0)), Some(0));
    assert_eq!(picked(3, Some(2)), Some(2));
    assert_eq!(picked(3, Some(3)), None);
    assert_eq!(picked(3, None), Some(0));
    assert_eq!(picked(0, None), None);
    assert_eq!(picked(1, Some(u64::MAX)), None);
}

#[test]
fn later_field_of_a_record_stands() {
    let twice = ContextValue::Record(vec![
        ("k".to_string(), text("first")),
        ("other".to_string(), text("o")),
        ("k".to_string(), text("second")),
    ]);
    assert_eq!(render("t", "{{k}}-{{other}}", &twice), Ok("second-o".to_string()));
}

#[test]
fn rust_declarations_for_cpp_functions() {
    let functions = vec![
        CppFunction {
            name: "add".to_string(),
            return_type: "int".to_string(),
            parameters: vec![("int".to_string(), "a".to_string()), ("int".to_string(), "b".to_string())],
        },
        CppFunction {
            name: "label".to_string(),
            return_type: " const char* ".to_string(),
            parameters: vec![
                ("double".to_string(), "value".to_string()),
                ("Widget*".to_string(), "w".to_string()),
            ],
        },
        CppFunction { name: "reset".to_string(), return_type: "void".to_string(), parameters: vec![] },
    ];
    let template = "// {{module}}\n{{#each functions}}fn {{name}}({{#each args}}{{name}}: {{{type}}}, {{/each}}) -> {{{return_type}}};\n{{/each}}";
    assert_eq!(
        rs_codegen::generate_bindings("cppmath", &functions, template),
        Ok("// cppmath\nfn add(a: i32, b: i32, ) -> i32;\nfn label(value: f64, w: *const core::ffi::c_void, ) -> *const u8;\nfn reset() -> ();\n".to_string())
    );
    assert_eq!(
        rs_codegen::bindings_context("m", &functions[..1]),
        record(vec![
            ("module", text("m")),
            (
                "functions",
                ContextValue::List(vec![record(vec![
                    ("name", text("add")),
                    ("return_type", text("i32")),
                    (
                        "args",
                        ContextValue::List(vec![
                            record(vec![("type", text("i32")), ("name", text("a"))]),
                            record(vec![("type", text("i32")), ("name", text("b"))]),
                        ])
                    ),
                ])])
            ),
        ])
    );
}

#[test]
fn rust_types_of_cpp_types() {
    for (cpp, rust) in [
        ("int", "i32"),
        ("float", "f32"),
        ("double", "f64"),
        ("void", "()"),
        ("char*", "*const u8"),
        ("const char*", "*const u8"),
        ("bool", "bool"),
        ("  int\t", "i32"),
        ("long", "*const core::ffi::c_void"),
        ("char *", "*const core::ffi::c_void"),
        ("", "*const core::ffi::c_void"),
    ] {
        assert_eq!(rs_codegen::map_cpp_type_to_rust(cpp), rust, "{:?}", cpp);
    }
    assert_eq!(rs_codegen::classify("double"), CanonicalType::Float64);
    assert_eq!(rs_codegen::classify(" char* "), CanonicalType::Str);
    assert_eq!(rs_codegen::classify("void"), CanonicalType::Opaque);
    let m = rs_codegen::resolve("const char*");
    assert_eq!(m.target_surface_type, "*const u8");
    assert_eq!(m.slot_width, 2);
}

#[test]
fn package_description_names_the_module() {
    let template = "[package]\nname = \"{{module}}-bindings\"\n\n[lib]\nname = \"{{module}}\"\n";
    assert_eq!(
        rs_codegen::generate_cargo("cppmath", template),
        "[package]\nname = \"cppmath-bindings\"\n\n[lib]\nname = \"cppmath\"\n"
    );
    assert_eq!(rs_codegen::generate_cargo("m", "{{ module }} {{module}"), "{{ module }} {{module}");
    assert_eq!(rs_codegen::generate_cargo("a<b", "{{module}}"), "a<b");
}

#[test]
fn demonstration_program_places_the_calls() {
    let template = "#include \"{{module_name}}.hpp\"\nint main() {\n{{{invocations}}}    return 0;\n}\n";
    let expected = "#include \"math.hpp\"\nint main() {\n    auto add_result = add(42, 42);\n    std::cout << \"add = \" << add_result << std::endl;\n    auto greet_result = greet(\"hello\", 42);\n    std::cout << \"greet = \" << greet_result << std::endl;\n    reset();\n    return 0;\n}\n";
    assert_eq!(
        codegen::generate_demo_program("math", &functions(), template),
        Ok(expected.to_string())
    );
}

#[test]
fn all_files_or_none() {
    let templates = codegen::Templates {
        header: "H {{header_name}}".to_string(),
        source: "S {{#each functions}}{{name}};{{/each}}".to_string(),
        makefile: "M {{module_name}}".to_string(),
        demo: "D {{{invocations}}}".to_string(),
    };
    assert_eq!(
        codegen::generate_all("math", &functions()[2..], &templates),
        Ok(codegen::Artifacts {
            header: "H math.hpp".to_string(),
            source: "S reset;".to_string(),
            makefile: "M math".to_string(),
            demo: "D     reset();\n".to_string(),
        })
    );
    let mut broken = templates.clone();
    broken.makefile = "{{#if}".to_string();
    broken.demo = "{{nowhere 1}}".to_string();
    assert!(matches!(
        codegen::generate_all("math", &functions(), &broken),
        Err(RenderError::Template(_))
    ));
    let mut late = templates.clone();
    late.demo = "{{nowhere 1}}".to_string();
    assert!(matches!(
        codegen::generate_all("math", &functions(), &late),
        Err(RenderError::Render(_))
    ));
}

#[test]
fn template_with_partials_is_not_rendered() {
    for template in [
        "{{> other}}",
        "{{#> layout}}body{{/layout}}",
        "{{#*inline \"a\"}}x{{> a}}{{/inline}}{{> a}}",
        "{{#*inline \"a\"}}x{{> b}}{{/inline}}{{#*inline \"b\"}}y{{> a}}{{/inline}}{{> a}}",
        "{{*inline}}",
        "text {{~ # \t\n * inline \"a\"}}{{/inline}}",
        "{{ ~>x}}",
        "{{{{> x}}",
        "a{{b}}{{ >c}}",
    ] {
        assert!(has_partials(template), "{}", template);
        assert_eq!(codegen::generate_makefile("m", template), Err(RenderError::Partials));
        assert_eq!(
            codegen::generate_demo_program("m", &[], template),
            Err(RenderError::Partials)
        );
        assert_eq!(cpp_codegen::generate_cpp("m", &[], template), Err(RenderError::Partials));
        assert_eq!(RenderError::Partials.kind(), FailureKind::Partials);
    }
    for template in [
        "",
        "{",
        "{{",
        "{{ #",
        "plain > text * here",
        "{{module_name}} > {{header_name}}",
        "const char* name = \"{{module_name}}\";",
        "{{#each functions}}{{name}}*{{/each}}",
        "{ {> x}}",
        "{{a>b}}",
        "{{!-- a comment --}}",
    ] {
        assert!(!has_partials(template), "{}", template);
    }
    assert_eq!(
        codegen::generate_makefile("m", "const char* name = \"{{module_name}}\";"),
        Ok("const char* name = \"m\";".to_string())
    );
}

#[test]
fn failures_by_kind() {
    assert_eq!(RenderError::Template("bad".to_string()).kind(), FailureKind::Template);
    assert_eq!(RenderError::Render("bad".to_string()).kind(), FailureKind::Render);
    let failure = codegen::generate_makefile("m", "{{nowhere 1}}").unwrap_err();
    assert_eq!(failure.kind(), FailureKind::Render);
    assert!(matches!(failure, RenderError::Render(message) if !message.is_empty()));
    assert_eq!(
        codegen::generate_makefile("m", "{{#if}").unwrap_err().kind(),
        FailureKind::Template
    );
}

#[test]
fn all_files_or_none_without_slots() {
    let templates = codegen::Templates {
        header: "H {{header_name}}".to_string(),
        source: "S {{#each functions}}{{get args 0}};{{/each}}".to_string(),
        makefile: "M {{module_name}}".to_string(),
        demo: "D {{module_name}}".to_string(),
    };
    assert_eq!(
        cpp_codegen::generate_all("math", &functions()[..1], &templates),
        Ok(codegen::Artifacts {
            header: "H math.hpp".to_string(),
            source: "S {\"name\":\"a\",\"type\":\"int\",\"wasm_type\":\"i32\"};".to_string(),
            makefile: "M math".to_string(),
            demo: "D math".to_string(),
        })
    );
    assert!(matches!(
        codegen::generate_all("math", &functions()[..1], &templates),
        Err(RenderError::Render(_))
    ));
    let mut broken = templates.clone();
    broken.header = "{{> other}}".to_string();
    broken.source = "{{#if}".to_string();
    assert_eq!(cpp_codegen::generate_all("math", &[], &broken), Err(RenderError::Partials));
}

use crossbind::parsers::cpp_parser::{
    declared_function, extract_functions, parse_exported_functions, parse_parameter,
    parse_parameters, CppExtraction, CppFunction,
};
use crossbind::warning::{SkipReason, Warning};

const SOURCE: &str = r#"
#include <emscripten.h>

extern "C" {

EMSCRIPTEN_KEEPALIVE int add(int a, int b) {
    return a + b;
}

EMSCRIPTEN_KEEPALIVE
double   scale ( double value,  const char*   unit )
{
    return value;
}

int hidden(int a) { return a; }

EMSCRIPTEN_KEEPALIVE int bad(int, float y) { return 0; }

EMSCRIPTEN_KEEPALIVE void reset() {}

EMSCRIPTEN_KEEPALIVE std::vector<int> numbers(unsigned long long count) { return {}; }

}
"#;

fn function(name: &str, return_type: &str, parameters: &[(&str, &str)]) -> CppFunction {
    CppFunction {
        name: name.to_string(),
        return_type: return_type.to_string(),
        parameters: parameters.iter().map(|(t, n)| (t.to_string(), n.to_string())).collect(),
    }
}

fn groups(whole: &str, return_type: &str, name: &str, list: &str) -> Vec<Option<String>> {
    vec![
        Some(whole.to_string()),
        Some(return_type.to_string()),
        Some(name.to_string()),
        Some(list.to_string()),
    ]
}

#[test]
fn declarations_are_found_in_order() {
    let extraction = parse_exported_functions(SOURCE).unwrap();
    assert_eq!(
        extraction.functions,
        vec![
            function("add", "int", &[("int", "a"), ("int", "b")]),
            function("scale", "double", &[("double", "value"), ("const char*", "unit")]),
            function("reset", "void", &[]),
            function("numbers", "std::vector<int>", &[("unsigned long long", "count")]),
        ]
    );
    assert_eq!(
        extraction.warnings,
        vec![Warning {
            function: "bad".to_string(),
            reason: SkipReason::UnparsableParameter("int".to_string())
        }]
    );
    assert_eq!(
        extraction.warnings[0].message(),
        "Skipping function bad: unparsable parameter: int"
    );
}

#[test]
fn text_without_declarations_gives_nothing() {
    let nothing = CppExtraction { functions: vec![], warnings: vec![] };
    assert_eq!(parse_exported_functions(""), Ok(nothing.clone()));
    assert_eq!(parse_exported_functions("int add(int a, int b);"), Ok(nothing.clone()));
    assert_eq!(parse_exported_functions("EMSCRIPTEN_KEEPALIVE int"), Ok(nothing.clone()));
    assert_eq!(extract_functions(&vec![]), nothing);
}

#[test]
fn one_parameter() {
    assert_eq!(parse_parameter("int a"), Some(("int".to_string(), "a".to_string())));
    assert_eq!(
        parse_parameter("  const   char *\tname "),
        Some(("const char *".to_string(), "name".to_string()))
    );
    assert_eq!(parse_parameter("int"), None);
    assert_eq!(parse_parameter(""), None);
    assert_eq!(parse_parameter("   "), None);
}

#[test]
fn parameter_lists() {
    assert_eq!(parse_parameters(""), Ok(vec![]));
    assert_eq!(parse_parameters("  \n "), Ok(vec![]));
    assert_eq!(
        parse_parameters(" int a ,float  b "),
        Ok(vec![("int".to_string(), "a".to_string()), ("float".to_string(), "b".to_string())])
    );
    assert_eq!(parse_parameters("void"), Err("void".to_string()));
    assert_eq!(parse_parameters("int a, , int b"), Err(" ".to_string()));
    assert_eq!(parse_parameters("int a, float, double"), Err(" float".to_string()));
    assert_eq!(parse_parameters("int a,"), Err("".to_string()));
}

#[test]
fn function_of_the_groups_of_a_match() {
    assert_eq!(
        declared_function(" int ", " add ", " int a, int b "),
        Ok(function("add", "int", &[("int", "a"), ("int", "b")]))
    );
    assert_eq!(
        declared_function("int", "f", "int"),
        Err(Warning {
            function: "f".to_string(),
            reason: SkipReason::UnparsableParameter("int".to_string())
        })
    );
}

#[test]
fn matches_without_all_groups_give_nothing() {
    let matches = vec![
        groups("w", "int", "one", "int a"),
        vec![Some("w".to_string()), Some("int".to_string()), Some("two".to_string())],
        vec![Some("w".to_string()), None, Some("three".to_string()), Some("".to_string())],
        groups("w", "void", "four", "char c, bool"),
        vec![],
        groups("w", "float", "five", ""),
    ];
    let extraction = extract_functions(&matches);
    assert_eq!(
        extraction.functions,
        vec![function("one", "int", &[("int", "a")]), function("five", "float", &[])]
    );
    assert_eq!(
        extraction.warnings,
        vec![Warning {
            function: "four".to_string(),
            reason: SkipReason::UnparsableParameter(" bool".to_string())
        }]
    );
}

#[test]
fn one_malformed_declaration_among_well_formed_ones() {
    let source = "EMSCRIPTEN_KEEPALIVE int first(int a)\nEMSCRIPTEN_KEEPALIVE int second(int)\nEMSCRIPTEN_KEEPALIVE int third(int c)";
    let extraction = parse_exported_functions(source).unwrap();
    let names: Vec<&str> = extraction.functions.iter().map(|f| f.name.as_str()).collect();
    assert_eq!(names, vec!["first", "third"]);
    assert_eq!(extraction.warnings.len(), 1);
    assert_eq!(extraction.warnings[0].function, "second");
}

use crossbind::codegen::{build_plan, prepare_template_data, ArgPlan, BindingPlan};
use crossbind::parser::parse_rust_code;
use crossbind::parsers::rs_parser::{has_distinct_names, parse_exported_functions};
use crossbind::types::{CanonicalType, DynamicTag, TypeMapping};
use crossbind::syntax::{read_source, FnItem};

const WASM_SAMPLE: &str = r#"
use wasm_bindgen::prelude::*;

// Basic arithmetic functions
#[wasm_bindgen]
pub fn add(a: i32, b: i32) -> i32 {
    a + b
}

#[wasm_bindgen]
pub fn multiply(a: f64, b: f64) -> f64 {
    a * b
}

// String handling
#[wasm_bindgen]
pub fn greet(name: &str) -> String {
    format!("Hello, {}! Welcome to WebAssembly interop.", name)
}

// Return a boolean
#[wasm_bindgen]
pub fn is_even(num: i32) -> bool {
    num % 2 == 0
}

// Simple error handling example
#[wasm_bindgen]
pub fn divide(a: f64, b: f64) -> f64 {
    if b == 0.0 {
        f64::NAN // Return NaN to indicate error
    } else {
        a / b
    }
}
"#;

const C_SAMPLE: &str = r#"
#[unsafe(no_mangle)]
pub extern "C" fn add(a: i32, b: i32) -> i32 {
    a + b
}

#[unsafe(no_mangle)]
pub extern "C" fn multiply(a: f64, b: f64) -> f64 {
    a * b
}

#[unsafe(no_mangle)]
pub extern "C" fn greet(ret_ptr: *mut u8, sub: &str) {
    let response = format!("Hello, {}", sub);

    unsafe {
        std::ptr::copy_nonoverlapping(response.as_ptr(), ret_ptr, response.len());
        *ret_ptr.add(response.len()) = 0; // null terminator
    }
}

#[unsafe(no_mangle)]
pub extern "C" fn is_even(num: i32) -> i32 {
    (num % 2 == 0) as i32
}

#[unsafe(no_mangle)]
pub extern "C" fn divide(a: f64, b: f64) -> f64 {
    if b == 0.0 {
        f64::NAN
    } else {
        a / b
    }
}
"#;

#[test]
fn functions_marked_for_wasm_bindgen() {
    let extraction = parse_rust_code(WASM_SAMPLE).unwrap();
    assert!(extraction.warnings.is_empty());
    let found: Vec<(String, Vec<String>, String)> = extraction
        .functions
        .iter()
        .map(|f| {
            (
                f.name.clone(),
                f.args.iter().map(|a| format!("{} {}", a.cpp_type, a.name)).collect(),
                f.cpp_return_type.clone(),
            )
        })
        .collect();
    let expected = vec![
        ("add", vec!["int32_t a", "int32_t b"], "int32_t"),
        ("multiply", vec!["double a", "double b"], "double"),
        ("greet", vec!["const std::string& name"], "std::string"),
        ("is_even", vec!["int32_t num"], "bool"),
        ("divide", vec!["double a", "double b"], "double"),
    ];
    assert_eq!(found.len(), expected.len());
    for (got, want) in found.iter().zip(expected.iter()) {
        assert_eq!(got.0, want.0);
        assert_eq!(got.1, want.1);
        assert_eq!(got.2, want.2);
    }
}

#[test]
fn functions_exported_with_the_c_convention() {
    let nodes: Vec<FnItem> = read_source(C_SAMPLE).unwrap().into_iter().flatten().collect();
    let collected = parse_exported_functions(&nodes);
    assert!(collected.warnings.is_empty());
    let names: Vec<&str> = collected.functions.iter().map(|f| f.name.as_str()).collect();
    assert_eq!(names, vec!["add", "multiply", "greet", "is_even", "divide"]);
    let data = prepare_template_data("rustmath", &collected.functions);
    let slots: Vec<usize> = data.functions.iter().map(|p| p.total_slots).collect();
    assert_eq!(slots, vec![2, 2, 3, 1, 2]);
    let greet = &data.functions[2];
    assert_eq!(greet.args[0].mapping.target_surface_type, "void*");
    assert_eq!(greet.args[1].mapping.target_surface_type, "const char*");
    assert_eq!(greet.args[1].slot_index, 1);
    assert_eq!(greet.return_mapping.target_surface_type, "void");
    let returns: Vec<&str> =
        data.functions.iter().map(|p| p.return_mapping.target_surface_type.as_str()).collect();
    assert_eq!(returns, vec!["int", "double", "void", "int", "double"]);
}

#[test]
fn the_marker_of_one_sample_is_not_the_marker_of_the_other() {
    assert!(parse_rust_code(C_SAMPLE).unwrap().functions.is_empty());
    let nodes: Vec<FnItem> = read_source(WASM_SAMPLE).unwrap().into_iter().flatten().collect();
    assert!(parse_exported_functions(&nodes).functions.is_empty());
}

#[test]
fn marked_add_is_planned_from_its_source() {
    let code = "#[unsafe(no_mangle)]\npub extern \"C\" fn add(a: i32, b: i32) -> i32 { a + b }\nfn unmarked(a: i32) {}";
    let nodes: Vec<FnItem> = read_source(code).unwrap().into_iter().flatten().collect();
    let collected = parse_exported_functions(&nodes);
    assert_eq!(collected.functions.len(), 1);
    let int32 = TypeMapping {
        canonical: CanonicalType::Int32,
        target_surface_type: "int".to_string(),
        dynamic_tag: DynamicTag::Int32Class,
        slot_width: 1,
    };
    assert_eq!(
        build_plan(&collected.functions[0]),
        BindingPlan {
            name: "add".to_string(),
            args: vec![
                ArgPlan { name: "a".to_string(), mapping: int32.clone(), slot_index: 0 },
                ArgPlan { name: "b".to_string(), mapping: int32.clone(), slot_index: 1 },
            ],
            total_slots: 2,
            return_mapping: int32,
        }
    );
}

#[test]
fn marked_greet_is_planned_from_its_source() {
    let code = "#[unsafe(no_mangle)]\npub fn greet(name: &str) -> String { name.to_string() }";
    let nodes: Vec<FnItem> = read_source(code).unwrap().into_iter().flatten().collect();
    let collected = parse_exported_functions(&nodes);
    let plan = build_plan(&collected.functions[0]);
    assert_eq!(plan.name, "greet");
    assert_eq!(plan.args.len(), 1);
    assert_eq!(plan.args[0].name, "name");
    assert_eq!(plan.args[0].mapping.canonical, CanonicalType::Str);
    assert_eq!(plan.args[0].slot_index, 0);
    assert_eq!(plan.total_slots, 2);
    assert_eq!(plan.return_mapping.canonical, CanonicalType::Str);
}

#[test]
fn names_within_a_run() {
    let nodes: Vec<FnItem> = read_source(C_SAMPLE).unwrap().into_iter().flatten().collect();
    let mut functions = parse_exported_functions(&nodes).functions;
    assert!(has_distinct_names(&functions));
    assert!(has_distinct_names(&functions[..1]));
    assert!(has_distinct_names(&[]));
    functions.push(functions[1].clone());
    assert!(!has_distinct_names(&functions));
}

//! Binding plans for Rust functions called from C++, with the flattened
//! slot layout of their arguments, and the texts generated from them.

use crate::parsers::rs_parser::{ExportedFunction, ExportedFunctionView};
use crate::template::{
    ContextModel, ContextValue, FailureKind, RenderError, field, field_models, json_of, kind_of,
    lemma_list_model, lemma_record_model, models, outcome, render, rendered, text_value,
};
use crate::text::{followed_by, join_first, joined, text_eq};
use crate::types::{CanonicalType, TypeMapping, TypeMappingView, class_mapping, tag_name};
use vstd::prelude::*;

verus! {

/// One argument of a binding: its name, what its type maps to, and the slot
/// at which it starts in the flattened argument list.
#[derive(Clone, Debug, PartialEq, Eq)]
pub struct ArgPlan {
    pub name: String,
    pub mapping: TypeMapping,
    pub slot_index: usize,
}

/// Mathematical model of an [`ArgPlan`].
pub struct ArgPlanView {
    pub name: Seq<char>,
    pub mapping: TypeMappingView,
    pub slot_index: nat,
}

/// The resolved, render-ready description of one function's binding.
#[derive(Clone, Debug, PartialEq, Eq)]
pub struct BindingPlan {
    pub name: String,
    pub args: Vec<ArgPlan>,
    pub total_slots: usize,
    pub return_mapping: TypeMapping,
}

/// Mathematical model of a [`BindingPlan`].
pub struct BindingPlanView {
    pub name: Seq<char>,
    pub args: Seq<ArgPlanView>,
    pub total_slots: nat,
    pub return_mapping: TypeMappingView,
}

/// What a template is rendered with: the module, the name of its header,
/// and one plan per function in declaration order.
#[derive(Clone, Debug, PartialEq, Eq)]
pub struct TemplateData {
    pub module_name: String,
    pub header_name: String,
    pub functions: Vec<BindingPlan>,
}

/// Mathematical model of a [`TemplateData`].
pub struct TemplateDataView {
    pub module_name: Seq<char>,
    pub header_name: Seq<char>,
    pub functions: Seq<BindingPlanView>,
}

impl View for ArgPlan {
    type V = ArgPlanView;

    open spec fn view(&self) -> ArgPlanView {
        ArgPlanView {
            name: self.name@,
            mapping: self.mapping@,
            slot_index: self.slot_index as nat,
        }
    }
}

impl DeepView for ArgPlan {
    type V = ArgPlanView;

    open spec fn deep_view(&self) -> ArgPlanView {
        self.view()
    }
}

impl View for BindingPlan {
    type V = BindingPlanView;

    open spec fn view(&self) -> BindingPlanView {
        BindingPlanView {
            name: self.name@,
            args: self.args.deep_view(),
            total_slots: self.total_slots as nat,
            return_mapping: self.return_mapping@,
        }
    }
}

impl DeepView for BindingPlan {
    type V = BindingPlanView;

    open spec fn deep_view(&self) -> BindingPlanView {
        self.view()
    }
}

impl View for TemplateData {
    type V = TemplateDataView;

    open spec fn view(&self) -> TemplateDataView {
        TemplateDataView {
            module_name: self.module_name@,
            header_name: self.header_name@,
            functions: self.functions.deep_view(),
        }
    }
}

/// Whether the resolver knows the Rust type token.
pub open spec fn is_known_type(token: Seq<char>) -> bool {
    token == "i32"@ || token == "u32"@ || token == "f32"@ || token == "f64"@ || token == "bool"@
        || token == "String"@ || token == "& str"@
}

/// The class of a Rust type token; a token that the resolver does not know
/// is opaque.
pub open spec fn canonical_of(token: Seq<char>) -> CanonicalType {
    if token == "i32"@ {
        CanonicalType::Int32
    } else if token == "u32"@ {
        CanonicalType::UInt32
    } else if token == "f32"@ {
        CanonicalType::Float32
    } else if token == "f64"@ {
        CanonicalType::Float64
    } else if token == "bool"@ {
        CanonicalType::Bool
    } else if token == "String"@ || token == "& str"@ {
        CanonicalType::Str
    } else {
        CanonicalType::Opaque
    }
}

/// The C++ spelling of a class; an opaque value is a pointer to unknown.
pub open spec fn surface_of(c: CanonicalType) -> Seq<char> {
    match c {
        CanonicalType::Int32 => "int"@,
        CanonicalType::UInt32 => "unsigned int"@,
        CanonicalType::Float32 => "float"@,
        CanonicalType::Float64 => "double"@,
        CanonicalType::Bool => "bool"@,
        CanonicalType::Str => "const char*"@,
        _ => "void*"@,
    }
}

/// What a Rust type token maps to.
pub open spec fn mapping_of(token: Seq<char>) -> TypeMappingView {
    class_mapping(canonical_of(token), surface_of(canonical_of(token)))
}

/// The mapping that stands for "no return value".
pub open spec fn unit_mapping() -> TypeMappingView {
    class_mapping(CanonicalType::Opaque, "void"@)
}

/// What a return type maps to: its own mapping, or the unit placeholder
/// where there is none.
pub open spec fn return_mapping_of(return_type: Option<Seq<char>>) -> TypeMappingView {
    match return_type {
        Some(token) => mapping_of(token),
        None => unit_mapping(),
    }
}

/// Sum of the slot widths of the types in `tokens`.
pub open spec fn slots_of(tokens: Seq<Seq<char>>) -> nat
    decreases tokens.len(),
{
    if tokens.len() == 0 {
        0
    } else {
        slots_of(tokens.drop_last()) + mapping_of(tokens.last()).slot_width
    }
}

/// The type tokens of an argument list.
pub open spec fn arg_types(args: Seq<(Seq<char>, Seq<char>)>) -> Seq<Seq<char>> {
    Seq::new(args.len(), |i: int| args[i].1)
}

/// The plan of argument `i`: it starts at the slot after all the slots of
/// the arguments before it.
pub open spec fn arg_plan_of(args: Seq<(Seq<char>, Seq<char>)>, i: int) -> ArgPlanView {
    ArgPlanView {
        name: args[i].0,
        mapping: mapping_of(args[i].1),
        slot_index: slots_of(arg_types(args).take(i)),
    }
}

/// The binding plan of a signature.
pub open spec fn plan_of(f: ExportedFunctionView) -> BindingPlanView {
    BindingPlanView {
        name: f.name,
        args: Seq::new(f.args.len(), |i: int| arg_plan_of(f.args, i)),
        total_slots: slots_of(arg_types(f.args)),
        return_mapping: return_mapping_of(f.return_type),
    }
}

/// The template data of a module and its functions.
pub open spec fn template_data_of(
    module_name: Seq<char>,
    functions: Seq<ExportedFunctionView>,
) -> TemplateDataView {
    TemplateDataView {
        module_name,
        header_name: module_name + ".hpp"@,
        functions: Seq::new(functions.len(), |i: int| plan_of(functions[i])),
    }
}

/// Whether the slot layout of `f` can be counted in a `usize`.
pub open spec fn layout_fits(f: ExportedFunctionView) -> bool {
    2 * f.args.len() <= usize::MAX
}

/// The C++ spelling of a class.
pub fn surface_for(c: CanonicalType) -> (r: &'static str)
    ensures
        r@ == surface_of(c),
{
    match c {
        CanonicalType::Int32 => "int",
        CanonicalType::UInt32 => "unsigned int",
        CanonicalType::Float32 => "float",
        CanonicalType::Float64 => "double",
        CanonicalType::Bool => "bool",
        CanonicalType::Str => "const char*",
        _ => "void*",
    }
}

/// The class of a Rust type token.
pub fn classify(rust_type: &str) -> (c: CanonicalType)
    ensures
        c == canonical_of(rust_type@),
{
    if text_eq(rust_type, "i32") {
        CanonicalType::Int32
    } else if text_eq(rust_type, "u32") {
        CanonicalType::UInt32
    } else if text_eq(rust_type, "f32") {
        CanonicalType::Float32
    } else if text_eq(rust_type, "f64") {
        CanonicalType::Float64
    } else if text_eq(rust_type, "bool") {
        CanonicalType::Bool
    } else if text_eq(rust_type, "String") || text_eq(rust_type, "& str") {
        CanonicalType::Str
    } else {
        CanonicalType::Opaque
    }
}

/// Resolves a Rust type token. Every token resolves: one that is not known
/// becomes the opaque pointer of one slot.
pub fn resolve_type(rust_type: &str) -> (m: TypeMapping)
    ensures
        m@ == mapping_of(rust_type@),
        m@.wf(),
        !is_known_type(rust_type@) ==> m.canonical == CanonicalType::Opaque
            && m.target_surface_type@ == "void*"@ && m.slot_width == 1,
{
    let class = classify(rust_type);
    TypeMapping::of_class(class, surface_for(class))
}

/// The mapping that stands for "no return value".
pub fn unit_placeholder() -> (m: TypeMapping)
    ensures
        m@ == unit_mapping(),
{
    TypeMapping::of_class(CanonicalType::Opaque, "void")
}

/// The C++ type for a Rust type token.
pub fn map_rust_type_to_cpp(rust_type: &str) -> (r: String)
    ensures
        r@ == mapping_of(rust_type@).target_surface_type,
{
    resolve_type(rust_type).target_surface_type
}

/// The value class of an argument of the Rust type, spelled out.
pub fn map_rust_type_to_wasmer_val(rust_type: &str) -> (r: String)
    ensures
        r@ == tag_name(mapping_of(rust_type@).dynamic_tag),
{
    resolve_type(rust_type).dynamic_tag.name()
}

/// The value class as which a result of the Rust type is unwrapped,
/// spelled out.
pub fn map_wasmer_unwrap(rust_type: &str) -> (r: String)
    ensures
        r@ == tag_name(mapping_of(rust_type@).dynamic_tag),
{
    resolve_type(rust_type).dynamic_tag.name()
}

/// Builds the binding plan of one signature: resolves each argument type in
/// declaration order, gives each argument the slot after those of the
/// arguments before it, and resolves the return type.
pub fn build_plan(f: &ExportedFunction) -> (plan: BindingPlan)
    requires
        layout_fits(f@),
    ensures
        plan@ == plan_of(f@),
        plan@.wf(),
{
    proof {
        lemma_plan_layout(f@);
    }
    let mut idx: usize = 0;
    let mut args: Vec<ArgPlan> = Vec::new();
    let ghost types = arg_types(f@.args);
    let n = f.args.len();
    let mut i: usize = 0;
    assert(types.take(0) == Seq::<Seq<char>>::empty());
    while i < n
        invariant
            n == f.args.len(),
            2 * n <= usize::MAX,
            types == arg_types(f@.args),
            i <= n,
            idx == slots_of(types.take(i as int)),
            idx <= 2 * i,
            args.deep_view() == plan_of(f@).args.take(i as int),
        decreases n - i,
    {
        let mapping = resolve_type(f.args[i].1.as_str());
        let width = mapping.slot_width;
        let ghost before = args.deep_view();
        args.push(ArgPlan { name: f.args[i].0.clone(), mapping, slot_index: idx });
        proof {
            assert(f@.args[i as int] == f.args[i as int].deep_view());
            assert(types.take(i + 1).drop_last() == types.take(i as int));
            assert(types.take(i + 1).last() == f@.args[i as int].1);
            assert(args.deep_view() == before.push(arg_plan_of(f@.args, i as int)));
            assert(plan_of(f@).args.take(i + 1) == plan_of(f@).args.take(i as int).push(
                arg_plan_of(f@.args, i as int),
            ));
        }
        idx = idx + width;
        i = i + 1;
    }
    assert(types.take(n as int) == types);
    assert(plan_of(f@).args.take(n as int) == plan_of(f@).args);
    let return_mapping = match &f.return_type {
        Some(token) => resolve_type(token.as_str()),
        None => unit_placeholder(),
    };
    BindingPlan { name: f.name.clone(), args, total_slots: idx, return_mapping }
}

/// The views of a list of signatures, in order.
pub open spec fn signatures(functions: Seq<ExportedFunction>) -> Seq<ExportedFunctionView> {
    Seq::new(functions.len(), |i: int| functions[i]@)
}

/// Whether the slot layout of each signature can be counted in a `usize`.
pub open spec fn layouts_fit(functions: Seq<ExportedFunctionView>) -> bool {
    forall|i: int| 0 <= i < functions.len() ==> layout_fits(#[trigger] functions[i])
}

/// Whether the slot layout of each signature can be counted in a `usize`.
pub fn layouts_fit_in(functions: &[ExportedFunction]) -> (r: bool)
    ensures
        r == layouts_fit(signatures(functions@)),
{
    let mut i: usize = 0;
    while i < functions.len()
        invariant
            i <= functions.len(),
            forall|k: int| 0 <= k < i ==> layout_fits(#[trigger] signatures(functions@)[k]),
        decreases functions.len() - i,
    {
        if functions[i].args.len() > usize::MAX / 2 {
            assert(!layout_fits(signatures(functions@)[i as int]));
            return false;
        }
        i = i + 1;
    }
    true
}

/// Plans every function, in declaration order, and names the header after
/// the module.
pub fn prepare_template_data(module_name: &str, functions: &[ExportedFunction]) -> (data:
    TemplateData)
    requires
        layouts_fit(signatures(functions@)),
    ensures
        data@ == template_data_of(module_name@, signatures(functions@)),
        data@.wf(),
{
    proof {
        lemma_template_data_is_well_formed(module_name@, signatures(functions@));
    }
    let ghost sigs = signatures(functions@);
    let ghost want = template_data_of(module_name@, sigs);
    let mut plans: Vec<BindingPlan> = Vec::new();
    let n = functions.len();
    let mut i: usize = 0;
    while i < n
        invariant
            n == functions@.len(),
            sigs == signatures(functions@),
            want == template_data_of(module_name@, sigs),
            layouts_fit(sigs),
            i <= n,
            plans.deep_view() == want.functions.take(i as int),
        decreases n - i,
    {
        assert(layout_fits(sigs[i as int]));
        let plan = build_plan(&functions[i]);
        let ghost before = plans.deep_view();
        plans.push(plan);
        assert(plans.deep_view() == before.push(plan_of(sigs[i as int])));
        assert(want.functions.take(i + 1) == want.functions.take(i as int).push(
            plan_of(sigs[i as int]),
        ));
        i = i + 1;
    }
    assert(want.functions.take(n as int) == want.functions);
    TemplateData {
        module_name: String::from_str(module_name),
        header_name: followed_by(module_name, ".hpp"),
        functions: plans,
    }
}

/// What a template sees of one argument.
pub open spec fn arg_context(a: ArgPlanView) -> ContextModel {
    ContextModel::Record(
        seq![
            ("name"@, ContextModel::Text(a.name)),
            ("type"@, ContextModel::Text(a.mapping.target_surface_type)),
            ("idx"@, ContextModel::Number(a.slot_index)),
            ("wasm_type"@, ContextModel::Text(tag_name(a.mapping.dynamic_tag))),
        ],
    )
}

/// What a template sees of one function.
pub open spec fn function_context(p: BindingPlanView) -> ContextModel {
    ContextModel::Record(
        seq![
            ("name"@, ContextModel::Text(p.name)),
            ("args"@, ContextModel::List(Seq::new(p.args.len(), |i: int| arg_context(p.args[i])))),
            ("arg_count"@, ContextModel::Number(p.total_slots)),
            ("return_type"@, ContextModel::Text(p.return_mapping.target_surface_type)),
            ("wasm_unwrap"@, ContextModel::Text(tag_name(p.return_mapping.dynamic_tag))),
        ],
    )
}

/// What a template of declarations or implementations is rendered with.
pub open spec fn context_of(d: TemplateDataView) -> ContextModel {
    ContextModel::Record(
        seq![
            ("module_name"@, ContextModel::Text(d.module_name)),
            ("header_name"@, ContextModel::Text(d.header_name)),
            (
                "functions"@,
                ContextModel::List(
                    Seq::new(d.functions.len(), |i: int| function_context(d.functions[i])),
                ),
            ),
        ],
    )
}

/// What a template that only names the module is rendered with.
pub open spec fn module_context(module_name: Seq<char>) -> ContextModel {
    ContextModel::Record(seq![("module_name"@, ContextModel::Text(module_name))])
}

/// The context value of one argument.
pub fn arg_context_value(a: &ArgPlan) -> (value: ContextValue)
    ensures
        value.model() == arg_context(a@),
{
    let tag = a.mapping.dynamic_tag.name();
    let mut fields: Vec<(String, ContextValue)> = Vec::new();
    fields.push(field("name", text_value(a.name.as_str())));
    fields.push(field("type", text_value(a.mapping.target_surface_type.as_str())));
    fields.push(field("idx", ContextValue::Number(a.slot_index)));
    fields.push(field("wasm_type", text_value(tag.as_str())));
    proof {
        lemma_record_model(fields);
        assert(field_models(fields@) == arg_context(a@)->Record_0);
    }
    ContextValue::Record(fields)
}

/// The context value of one function.
pub fn function_context_value(p: &BindingPlan) -> (value: ContextValue)
    ensures
        value.model() == function_context(p@),
{
    let ghost want = Seq::new(p@.args.len(), |i: int| arg_context(p@.args[i]));
    let mut args: Vec<ContextValue> = Vec::new();
    let n = p.args.len();
    let mut i: usize = 0;
    while i < n
        invariant
            n == p.args.len(),
            want == Seq::new(p@.args.len(), |i: int| arg_context(p@.args[i])),
            i <= n,
            models(args@) == want.take(i as int),
        decreases n - i,
    {
        let value = arg_context_value(&p.args[i]);
        let ghost before = models(args@);
        args.push(value);
        assert(models(args@) == before.push(arg_context(p@.args[i as int])));
        assert(want.take(i + 1) == want.take(i as int).push(arg_context(p@.args[i as int])));
        i = i + 1;
    }
    assert(want.take(n as int) == want);
    let tag = p.return_mapping.dynamic_tag.name();
    let mut fields: Vec<(String, ContextValue)> = Vec::new();
    proof {
        lemma_list_model(args);
    }
    fields.push(field("name", text_value(p.name.as_str())));
    fields.push(field("args", ContextValue::List(args)));
    fields.push(field("arg_count", ContextValue::Number(p.total_slots)));
    fields.push(field("return_type", text_value(p.return_mapping.target_surface_type.as_str())));
    fields.push(field("wasm_unwrap", text_value(tag.as_str())));
    proof {
        lemma_record_model(fields);
        assert(field_models(fields@) == function_context(p@)->Record_0);
    }
    ContextValue::Record(fields)
}

/// The context value of a module's template data.
pub fn template_context(data: &TemplateData) -> (value: ContextValue)
    ensures
        value.model() == context_of(data@),
{
    let ghost want = Seq::new(data@.functions.len(), |i: int| function_context(data@.functions[i]));
    let mut functions: Vec<ContextValue> = Vec::new();
    let n = data.functions.len();
    let mut i: usize = 0;
    while i < n
        invariant
            n == data.functions.len(),
            want == Seq::new(data@.functions.len(), |i: int| function_context(data@.functions[i])),
            i <= n,
            models(functions@) == want.take(i as int),
        decreases n - i,
    {
        let value = function_context_value(&data.functions[i]);
        let ghost before = models(functions@);
        functions.push(value);
        assert(models(functions@) == before.push(function_context(data@.functions[i as int])));
        assert(want.take(i + 1) == want.take(i as int).push(
            function_context(data@.functions[i as int]),
        ));
        i = i + 1;
    }
    assert(want.take(n as int) == want);
    let mut fields: Vec<(String, ContextValue)> = Vec::new();
    proof {
        lemma_list_model(functions);
    }
    fields.push(field("module_name", text_value(data.module_name.as_str())));
    fields.push(field("header_name", text_value(data.header_name.as_str())));
    fields.push(field("functions", ContextValue::List(functions)));
    proof {
        lemma_record_model(fields);
        assert(field_models(fields@) == context_of(data@)->Record_0);
    }
    ContextValue::Record(fields)
}

/// The context value that only names the module.
pub fn module_context_value(module_name: &str) -> (value: ContextValue)
    ensures
        value.model() == module_context(module_name@),
{
    let mut fields: Vec<(String, ContextValue)> = Vec::new();
    fields.push(field("module_name", text_value(module_name)));
    proof {
        lemma_record_model(fields);
        assert(field_models(fields@) == module_context(module_name@)->Record_0);
    }
    ContextValue::Record(fields)
}

/// The text of a template of declarations or implementations, registered
/// under `name`, for a module and its functions.
pub open spec fn bindings_text(
    name: Seq<char>,
    module_name: Seq<char>,
    functions: Seq<ExportedFunctionView>,
    template: Seq<char>,
) -> Result<Seq<char>, FailureKind> {
    rendered(name, template, json_of(context_of(template_data_of(module_name, functions))))
}

/// The text of a template that only names the module, registered under
/// `name`.
pub open spec fn module_text(name: Seq<char>, module_name: Seq<char>, template: Seq<char>) -> Result<
    Seq<char>,
    FailureKind,
> {
    rendered(name, template, json_of(module_context(module_name)))
}

/// Renders the implementation file of a module from its template.
pub fn generate_cpp(module_name: &str, functions: &[ExportedFunction], cpp_template: &str) -> (text:
    Result<String, RenderError>)
    requires
        layouts_fit(signatures(functions@)),
    ensures
        outcome(text) == bindings_text(
            "cpp"@,
            module_name@,
            signatures(functions@),
            cpp_template@,
        ),
{
    let data = prepare_template_data(module_name, functions);
    let context = template_context(&data);
    render("cpp", cpp_template, &context)
}

/// Renders the declaration file of a module from its template.
pub fn generate_header(module_name: &str, functions: &[ExportedFunction], h_template: &str) -> (text:
    Result<String, RenderError>)
    requires
        layouts_fit(signatures(functions@)),
    ensures
        outcome(text) == bindings_text(
            "header"@,
            module_name@,
            signatures(functions@),
            h_template@,
        ),
{
    let data = prepare_template_data(module_name, functions);
    let context = template_context(&data);
    render("header", h_template, &context)
}

/// Renders the build descriptor of a module from its template.
pub fn generate_makefile(module_name: &str, template: &str) -> (text: Result<String, RenderError>)
    ensures
        outcome(text) == module_text("makefile"@, module_name@, template@),
{
    let context = module_context_value(module_name);
    render("makefile", template, &context)
}

/// Sum of the slot widths of the arguments of a plan.
pub open spec fn widths_sum(args: Seq<ArgPlanView>) -> nat
    decreases args.len(),
{
    if args.len() == 0 {
        0
    } else {
        widths_sum(args.drop_last()) + args.last().mapping.slot_width
    }
}

impl TemplateDataView {
    /// The header is named after the module, and every plan keeps the
    /// layout invariant.
    pub open spec fn wf(self) -> bool {
        &&& self.header_name == self.module_name + ".hpp"@
        &&& forall|i: int| 0 <= i < self.functions.len() ==> (#[trigger] self.functions[i]).wf()
    }
}

impl BindingPlanView {
    /// The layout invariant of a plan: every width is the one of its class,
    /// every argument starts at the sum of the widths of the arguments
    /// before it, and the total is the sum of all widths.
    pub open spec fn wf(self) -> bool {
        &&& forall|i: int|
            0 <= i < self.args.len() ==> (#[trigger] self.args[i]).mapping.wf()
                && self.args[i].slot_index == widths_sum(self.args.take(i))
        &&& self.total_slots == widths_sum(self.args)
        &&& self.return_mapping.wf()
    }
}

proof fn lemma_widths_of_plan(f: ExportedFunctionView, i: int)
    requires
        0 <= i <= f.args.len(),
    ensures
        widths_sum(plan_of(f).args.take(i)) == slots_of(arg_types(f.args).take(i)),
    decreases i,
{
    let args = plan_of(f).args;
    let types = arg_types(f.args);
    if i > 0 {
        lemma_widths_of_plan(f, i - 1);
        assert(args.take(i).drop_last() == args.take(i - 1));
        assert(types.take(i).drop_last() == types.take(i - 1));
    }
}

/// The total slot count of a plan is the sum of the slot widths of its
/// arguments, and each argument starts where the arguments before it end.
pub proof fn lemma_plan_layout(f: ExportedFunctionView)
    ensures
        plan_of(f).wf(),
        plan_of(f).total_slots == widths_sum(plan_of(f).args),
{
    let plan = plan_of(f);
    assert forall|i: int| 0 <= i < plan.args.len() implies (#[trigger] plan.args[i]).mapping.wf()
        && plan.args[i].slot_index == widths_sum(plan.args.take(i)) by {
        lemma_widths_of_plan(f, i);
    }
    lemma_widths_of_plan(f, f.args.len() as int);
    assert(plan.args.take(f.args.len() as int) == plan.args);
    assert(arg_types(f.args).take(f.args.len() as int) == arg_types(f.args));
}

/// The template data of any module and functions is well formed.
pub proof fn lemma_template_data_is_well_formed(
    module_name: Seq<char>,
    functions: Seq<ExportedFunctionView>,
)
    ensures
        template_data_of(module_name, functions).wf(),
{
    let data = template_data_of(module_name, functions);
    assert forall|i: int| 0 <= i < data.functions.len() implies (#[trigger] data.functions[i]).wf() by {
        lemma_plan_layout(functions[i]);
    }
}

/// Signatures of equal contents get equal plans, equal template data and
/// equal rendered text, whichever values hold them and however often they
/// are planned.
pub proof fn lemma_generation_is_deterministic(
    name: Seq<char>,
    module_name: Seq<char>,
    template: Seq<char>,
    first: Seq<ExportedFunction>,
    second: Seq<ExportedFunction>,
)
    requires
        first.len() == second.len(),
        forall|i: int| 0 <= i < first.len() ==> first[i]@ == second[i]@,
    ensures
        forall|i: int| 0 <= i < first.len() ==> plan_of(first[i]@) == plan_of(second[i]@),
        template_data_of(module_name, signatures(first)) == template_data_of(
            module_name,
            signatures(second),
        ),
        bindings_text(name, module_name, signatures(first), template) == bindings_text(
            name,
            module_name,
            signatures(second),
            template,
        ),
{
    assert(signatures(first) =~= signatures(second));
}

/// An argument of the string class takes exactly two slots: the argument
/// after it starts two slots further, and where it is the last one, the
/// total is two more than its own slot.
pub proof fn lemma_string_argument_takes_two_slots(f: ExportedFunctionView, i: int)
    requires
        0 <= i < f.args.len(),
        plan_of(f).args[i].mapping.canonical == CanonicalType::Str,
    ensures
        plan_of(f).args[i].mapping.slot_width == 2,
        i + 1 < f.args.len() ==> plan_of(f).args[i + 1].slot_index == plan_of(f).args[i].slot_index
            + 2,
        i + 1 == f.args.len() ==> plan_of(f).total_slots == plan_of(f).args[i].slot_index + 2,
{
    let types = arg_types(f.args);
    assert(types.take(i + 1).drop_last() == types.take(i));
    assert(types.take(i + 1).last() == f.args[i].1);
    assert(types.take(f.args.len() as int) == types);
}

/// An argument whose type the resolver does not know is planned all the
/// same: as the opaque pointer of one slot, which is what a template sees
/// as its type.
pub proof fn lemma_unknown_type_is_opaque(f: ExportedFunctionView, i: int)
    requires
        0 <= i < f.args.len(),
        !is_known_type(f.args[i].1),
    ensures
        plan_of(f).args.len() == f.args.len(),
        plan_of(f).args[i].name == f.args[i].0,
        plan_of(f).args[i].mapping.canonical == CanonicalType::Opaque,
        plan_of(f).args[i].mapping.target_surface_type == "void*"@,
        plan_of(f).args[i].mapping.slot_width == 1,
        arg_context(plan_of(f).args[i])->Record_0[1] == ("type"@, ContextModel::Text("void*"@)),
{
}

/// One call of a bound function in a demonstration program.
#[derive(Clone, Debug, PartialEq, Eq)]
pub struct Invocation {
    pub function: String,
    /// One sample per argument, in declaration order.
    pub arguments: Vec<String>,
    /// Whether the result is kept and printed.
    pub captures_result: bool,
}

/// Mathematical model of an [`Invocation`].
pub struct InvocationView {
    pub function: Seq<char>,
    pub arguments: Seq<Seq<char>>,
    pub captures_result: bool,
}

impl View for Invocation {
    type V = InvocationView;

    open spec fn view(&self) -> InvocationView {
        InvocationView {
            function: self.function@,
            arguments: self.arguments.deep_view(),
            captures_result: self.captures_result,
        }
    }
}

impl DeepView for Invocation {
    type V = InvocationView;

    open spec fn deep_view(&self) -> InvocationView {
        self.view()
    }
}

/// The sample that stands for an argument of class `c`: a fixed literal for
/// an integer, a floating-point number, a boolean and a string; for an
/// opaque value, whose shape is unknown, a comment and no literal.
pub open spec fn sample_literal(c: CanonicalType) -> Seq<char> {
    match c {
        CanonicalType::Float32 | CanonicalType::Float64 => "3.14"@,
        CanonicalType::Bool => "true"@,
        CanonicalType::Str => "\"hello\""@,
        CanonicalType::Opaque => "/* opaque value: supply a pointer */"@,
        _ => "42"@,
    }
}

/// Whether a call of the planned function gives a value: it does unless the
/// return mapping is the unit placeholder.
pub open spec fn has_result(p: BindingPlanView) -> bool {
    p.return_mapping.target_surface_type != "void"@
}

/// The demonstration call of a planned function.
pub open spec fn invocation_of(p: BindingPlanView) -> InvocationView {
    InvocationView {
        function: p.name,
        arguments: Seq::new(p.args.len(), |i: int| sample_literal(p.args[i].mapping.canonical)),
        captures_result: has_result(p),
    }
}

/// The demonstration calls of the planned functions, one each, in order.
pub open spec fn invocations_of(plans: Seq<BindingPlanView>) -> Seq<InvocationView> {
    Seq::new(plans.len(), |i: int| invocation_of(plans[i]))
}

/// The call itself: the function applied to its samples.
pub open spec fn call_of(inv: InvocationView) -> Seq<char> {
    inv.function + "("@ + joined(inv.arguments, ", "@) + ")"@
}

/// The C++ statements of one demonstration call: the call, and where it
/// keeps its result, the line that prints it.
pub open spec fn statement_of(inv: InvocationView) -> Seq<char> {
    if inv.captures_result {
        "    auto "@ + inv.function + "_result = "@ + call_of(inv) + ";\n    std::cout << \""@
            + inv.function + " = \" << "@ + inv.function + "_result << std::endl;\n"@
    } else {
        "    "@ + call_of(inv) + ";\n"@
    }
}

/// The statements of the calls, in order.
pub open spec fn statements_of(invs: Seq<InvocationView>) -> Seq<char>
    decreases invs.len(),
{
    if invs.len() == 0 {
        Seq::<char>::empty()
    } else {
        statements_of(invs.drop_last()) + statement_of(invs.last())
    }
}

/// The sample that stands for an argument of class `c`.
pub fn sample_for(c: CanonicalType) -> (r: String)
    ensures
        r@ == sample_literal(c),
{
    match c {
        CanonicalType::Float32 | CanonicalType::Float64 => String::from_str("3.14"),
        CanonicalType::Bool => String::from_str("true"),
        CanonicalType::Str => String::from_str("\"hello\""),
        CanonicalType::Opaque => String::from_str("/* opaque value: supply a pointer */"),
        _ => String::from_str("42"),
    }
}

/// The demonstration call of a planned function.
pub fn plan_invocation(p: &BindingPlan) -> (inv: Invocation)
    ensures
        inv@ == invocation_of(p@),
{
    let ghost want = invocation_of(p@).arguments;
    let mut arguments: Vec<String> = Vec::new();
    let n = p.args.len();
    let mut i: usize = 0;
    while i < n
        invariant
            n == p.args.len(),
            want == invocation_of(p@).arguments,
            i <= n,
            arguments.deep_view() == want.take(i as int),
        decreases n - i,
    {
        let sample = sample_for(p.args[i].mapping.canonical);
        let ghost before = arguments.deep_view();
        arguments.push(sample);
        assert(arguments.deep_view() == before.push(want[i as int]));
        assert(want.take(i + 1) == want.take(i as int).push(want[i as int]));
        i = i + 1;
    }
    assert(want.take(n as int) == want);
    let captures_result = !text_eq(p.return_mapping.target_surface_type.as_str(), "void");
    Invocation { function: p.name.clone(), arguments, captures_result }
}

/// The demonstration calls of the planned functions: exactly one per
/// function, in the order of the plans, each with the sample of each
/// argument's class.
pub fn demo_invocations(plans: &[BindingPlan]) -> (invs: Vec<Invocation>)
    ensures
        invs.deep_view() == invocations_of(plans.deep_view()),
        invs.len() == plans.len(),
        forall|i: int|
            0 <= i < plans.len() ==> (#[trigger] invs[i])@ == invocation_of(plans[i]@),
{
    let ghost want = invocations_of(plans.deep_view());
    let mut invs: Vec<Invocation> = Vec::new();
    let n = plans.len();
    let mut i: usize = 0;
    while i < n
        invariant
            n == plans.len(),
            want == invocations_of(plans.deep_view()),
            i <= n,
            invs.deep_view() == want.take(i as int),
        decreases n - i,
    {
        let inv = plan_invocation(&plans[i]);
        let ghost before = invs.deep_view();
        invs.push(inv);
        assert(invs.deep_view() == before.push(want[i as int]));
        assert(want.take(i + 1) == want.take(i as int).push(want[i as int]));
        i = i + 1;
    }
    assert(want.take(n as int) == want);
    assert forall|i: int| 0 <= i < plans.len() implies (#[trigger] invs[i])@ == invocation_of(
        plans[i]@,
    ) by {
        assert(invs.deep_view()[i] == want[i]);
    }
    invs
}

/// The C++ statements of one demonstration call.
pub fn invocation_statement(inv: &Invocation) -> (r: String)
    ensures
        r@ == statement_of(inv@),
{
    let arguments = join_first(&inv.arguments, inv.arguments.len(), ", ");
    assert(inv.arguments.deep_view().take(inv.arguments.len() as int) == inv.arguments.deep_view());
    let name = inv.function.as_str();
    let mut call = String::from_str(name);
    call.append("(");
    call.append(arguments.as_str());
    call.append(")");
    let mut out = String::new();
    assert(out@ + "    "@ == "    "@);
    assert(out@ + "    auto "@ == "    auto "@);
    if inv.captures_result {
        out.append("    auto ");
        out.append(name);
        out.append("_result = ");
        out.append(call.as_str());
        out.append(";\n    std::cout << \"");
        out.append(name);
        out.append(" = \" << ");
        out.append(name);
        out.append("_result << std::endl;\n");
    } else {
        out.append("    ");
        out.append(call.as_str());
        out.append(";\n");
    }
    out
}

/// The body of a demonstration program: the statements that call every
/// planned function once, in the order of the plans.
pub fn demo_calls(plans: &[BindingPlan]) -> (r: String)
    ensures
        r@ == statements_of(invocations_of(plans.deep_view())),
{
    let invs = demo_invocations(plans);
    let ghost all = invs.deep_view();
    let mut out = String::new();
    let n = invs.len();
    let mut i: usize = 0;
    assert(all.take(0) == Seq::<InvocationView>::empty());
    while i < n
        invariant
            n == invs.len(),
            all == invs.deep_view(),
            i <= n,
            out@ == statements_of(all.take(i as int)),
        decreases n - i,
    {
        let statement = invocation_statement(&invs[i]);
        assert(all.take(i + 1).drop_last() == all.take(i as int));
        assert(all.take(i + 1).last() == invs[i as int]@);
        out.append(statement.as_str());
        i = i + 1;
    }
    assert(all.take(n as int) == all);
    out
}

/// What the template of a demonstration program is rendered with: the
/// module and, under `invocations`, the statements that call every planned
/// function once.
pub open spec fn demo_context(module_name: Seq<char>, plans: Seq<BindingPlanView>) -> ContextModel {
    ContextModel::Record(
        seq![
            ("module_name"@, ContextModel::Text(module_name)),
            ("invocations"@, ContextModel::Text(statements_of(invocations_of(plans)))),
        ],
    )
}

/// Renders the demonstration program of a module from its template: the
/// template places the calls, the calls themselves do not depend on it.
pub fn generate_demo_program(
    module_name: &str,
    functions: &[ExportedFunction],
    template: &str,
) -> (text: Result<String, RenderError>)
    requires
        layouts_fit(signatures(functions@)),
    ensures
        outcome(text) == demo_text(module_name@, signatures(functions@), template@),
{
    let data = prepare_template_data(module_name, functions);
    let calls = demo_calls(data.functions.as_slice());
    let mut fields: Vec<(String, ContextValue)> = Vec::new();
    fields.push(field("module_name", text_value(module_name)));
    fields.push(field("invocations", text_value(calls.as_str())));
    proof {
        lemma_record_model(fields);
        assert(field_models(fields@) == demo_context(module_name@, data@.functions)->Record_0);
    }
    let context = ContextValue::Record(fields);
    render("demo", template, &context)
}

/// The text of the demonstration program of a module and its functions.
pub open spec fn demo_text(
    module_name: Seq<char>,
    functions: Seq<ExportedFunctionView>,
    template: Seq<char>,
) -> Result<Seq<char>, FailureKind> {
    rendered(
        "demo"@,
        template,
        json_of(demo_context(module_name, plans_of(functions))),
    )
}

/// The templates from which the files of a module are rendered.
#[derive(Clone, Debug, PartialEq, Eq)]
pub struct Templates {
    pub header: String,
    pub source: String,
    pub makefile: String,
    pub demo: String,
}

/// The files generated for a module.
#[derive(Clone, Debug, PartialEq, Eq)]
pub struct Artifacts {
    pub header: String,
    pub source: String,
    pub makefile: String,
    pub demo: String,
}

/// Mathematical model of [`Artifacts`].
pub struct ArtifactsView {
    pub header: Seq<char>,
    pub source: Seq<char>,
    pub makefile: Seq<char>,
    pub demo: Seq<char>,
}

impl View for Artifacts {
    type V = ArtifactsView;

    open spec fn view(&self) -> ArtifactsView {
        ArtifactsView {
            header: self.header@,
            source: self.source@,
            makefile: self.makefile@,
            demo: self.demo@,
        }
    }
}

/// All the files of a module or none: the files where every template
/// renders, else the failure of the first template that does not, taking
/// header, source, makefile and demonstration in that order.
pub open spec fn artifacts_of(
    module_name: Seq<char>,
    functions: Seq<ExportedFunctionView>,
    header: Seq<char>,
    source: Seq<char>,
    makefile: Seq<char>,
    demo: Seq<char>,
) -> Result<ArtifactsView, FailureKind> {
    match bindings_text("header"@, module_name, functions, header) {
        Err(error) => Err(error),
        Ok(header_text) => match bindings_text("cpp"@, module_name, functions, source) {
            Err(error) => Err(error),
            Ok(source_text) => match module_text("makefile"@, module_name, makefile) {
                Err(error) => Err(error),
                Ok(makefile_text) => match demo_text(module_name, functions, demo) {
                    Err(error) => Err(error),
                    Ok(demo_text) => Ok(
                        ArtifactsView {
                            header: header_text,
                            source: source_text,
                            makefile: makefile_text,
                            demo: demo_text,
                        },
                    ),
                },
            },
        },
    }
}

/// Renders all the files of a module, or none of them.
pub fn generate_all(module_name: &str, functions: &[ExportedFunction], templates: &Templates) -> (r:
    Result<Artifacts, RenderError>)
    requires
        layouts_fit(signatures(functions@)),
    ensures
        match r {
            Ok(files) => artifacts_of(
                module_name@,
                signatures(functions@),
                templates.header@,
                templates.source@,
                templates.makefile@,
                templates.demo@,
            ) == Ok::<ArtifactsView, FailureKind>(files@),
            Err(error) => artifacts_of(
                module_name@,
                signatures(functions@),
                templates.header@,
                templates.source@,
                templates.makefile@,
                templates.demo@,
            ) == Err::<ArtifactsView, FailureKind>(kind_of(error)),
        },
{
    let header = match generate_header(module_name, functions, templates.header.as_str()) {
        Ok(text) => text,
        Err(error) => {
            return Err(error);
        },
    };
    let source = match generate_cpp(module_name, functions, templates.source.as_str()) {
        Ok(text) => text,
        Err(error) => {
            return Err(error);
        },
    };
    let makefile = match generate_makefile(module_name, templates.makefile.as_str()) {
        Ok(text) => text,
        Err(error) => {
            return Err(error);
        },
    };
    let demo = match generate_demo_program(module_name, functions, templates.demo.as_str()) {
        Ok(text) => text,
        Err(error) => {
            return Err(error);
        },
    };
    Ok(Artifacts { header, source, makefile, demo })
}

/// The demonstration calls every planned function exactly once, in the
/// order of the plans, with one sample per argument: the sample of that
/// argument's class.
pub proof fn lemma_demonstration_calls_each_function_once(plans: Seq<BindingPlanView>, i: int)
    requires
        0 <= i < plans.len(),
    ensures
        invocations_of(plans).len() == plans.len(),
        invocations_of(plans)[i].function == plans[i].name,
        invocations_of(plans)[i].arguments.len() == plans[i].args.len(),
        forall|k: int|
            0 <= k < plans[i].args.len() ==> #[trigger] invocations_of(plans)[i].arguments[k]
                == sample_literal(plans[i].args[k].mapping.canonical),
        invocations_of(plans)[i].captures_result == has_result(plans[i]),
        statements_of(invocations_of(plans).take(i + 1)) == statements_of(
            invocations_of(plans).take(i),
        ) + statement_of(invocation_of(plans[i])),
{
    let all = invocations_of(plans);
    assert(all.take(i + 1).drop_last() == all.take(i));
    assert(all.take(i + 1).last() == all[i]);
}

/// The plans of a list of signatures, in order.
pub open spec fn plans_of(functions: Seq<ExportedFunctionView>) -> Seq<BindingPlanView> {
    Seq::new(functions.len(), |i: int| plan_of(functions[i]))
}

/// The demonstration of a list of signatures: the statements that call
/// every function once, in declaration order.
pub open spec fn demonstration_of(functions: Seq<ExportedFunctionView>) -> Seq<char> {
    statements_of(invocations_of(plans_of(functions)))
}

/// Writes the demonstration of the functions of a module. No template
/// takes part: the text is the statements of exactly one call per
/// function, in declaration order; each call passes one sample per
/// argument, the sample of that argument's class, and keeps and prints its
/// result where the function has one.
pub fn generate_demo(functions: &[ExportedFunction]) -> (text: String)
    requires
        layouts_fit(signatures(functions@)),
    ensures
        text@ == demonstration_of(signatures(functions@)),
        text@ == statements_of(invocations_of(plans_of(signatures(functions@)))),
        invocations_of(plans_of(signatures(functions@))).len() == functions@.len(),
        forall|i: int|
            0 <= i < functions@.len() ==> {
                let call = #[trigger] invocations_of(plans_of(signatures(functions@)))[i];
                &&& call.function == functions@[i]@.name
                &&& call.arguments.len() == functions@[i]@.args.len()
                &&& call.captures_result == has_result(plan_of(functions@[i]@))
                &&& forall|k: int|
                    0 <= k < call.arguments.len() ==> #[trigger] call.arguments[k]
                        == sample_literal(canonical_of(functions@[i]@.args[k].1))
            },
{
    let data = prepare_template_data("", functions);
    assert(data@.functions == plans_of(signatures(functions@)));
    demo_calls(data.functions.as_slice())
}

} // verus!

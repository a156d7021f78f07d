//! Extraction of the functions exported under an `unsafe(..)` attribute
//! from Rust source, with their types as written.

use crate::syntax::{
    FnItem, FnItemView, ParamPattern, ParamPatternView, ParamView, TypeForm, TypeFormView,
    attribute_names, has_marker, has_plain_params, path_names, plain_params,
};
use crate::text::text_eq;
use crate::warning::{SkipReason, SkipReasonView, Warning, WarningView};
use vstd::prelude::*;

verus! {

/// Signature of one exported function: its name, its arguments as
/// `(name, type)` pairs in declaration order, and its return type if it
/// has one.
#[derive(Clone, Debug, PartialEq, Eq)]
pub struct ExportedFunction {
    pub name: String,
    pub args: Vec<(String, String)>,
    pub return_type: Option<String>,
}

/// Mathematical model of an [`ExportedFunction`].
pub struct ExportedFunctionView {
    pub name: Seq<char>,
    pub args: Seq<(Seq<char>, Seq<char>)>,
    pub return_type: Option<Seq<char>>,
}

/// Collects the exported functions of the function items that it is shown,
/// and a warning for each exported function that it leaves out.
#[derive(Clone, Debug, PartialEq, Eq)]
pub struct ExportedFnVisitor {
    pub functions: Vec<ExportedFunction>,
    pub warnings: Vec<Warning>,
}

/// Mathematical model of an [`ExportedFnVisitor`].
pub struct ExportedFnVisitorView {
    pub functions: Seq<ExportedFunctionView>,
    pub warnings: Seq<WarningView>,
}

impl View for ExportedFunction {
    type V = ExportedFunctionView;

    open spec fn view(&self) -> ExportedFunctionView {
        ExportedFunctionView {
            name: self.name@,
            args: self.args.deep_view(),
            return_type: self.return_type.deep_view(),
        }
    }
}

impl DeepView for ExportedFunction {
    type V = ExportedFunctionView;

    open spec fn deep_view(&self) -> ExportedFunctionView {
        self.view()
    }
}

impl View for ExportedFnVisitor {
    type V = ExportedFnVisitorView;

    open spec fn view(&self) -> ExportedFnVisitorView {
        ExportedFnVisitorView {
            functions: self.functions.deep_view(),
            warnings: self.warnings.deep_view(),
        }
    }
}

/// The marker of the functions to extract.
pub open spec fn marker() -> Seq<char> {
    "unsafe"@
}

/// The `(name, type)` pairs for the parameters that are bound by a name,
/// in order, each type as written; a receiver gives none.
pub open spec fn args_of(params: Seq<ParamView>) -> Seq<(Seq<char>, Seq<char>)>
    decreases params.len(),
{
    if params.len() == 0 {
        Seq::<(Seq<char>, Seq<char>)>::empty()
    } else {
        let before = args_of(params.drop_last());
        match params.last().pattern {
            ParamPatternView::Ident(name) => before.push((name, params.last().ty.tokens)),
            _ => before,
        }
    }
}

/// The return type as written, if the function names one.
pub open spec fn return_type_of(output: Option<TypeFormView>) -> Option<Seq<char>> {
    match output {
        Some(ty) => Some(ty.tokens),
        None => None,
    }
}

/// The signature of a function item, or the warning that stands in for it:
/// a function with a parameter that is not bound by a plain name is left
/// out as a whole.
pub open spec fn exported_of(f: FnItemView) -> Result<ExportedFunctionView, WarningView> {
    if plain_params(f.params) {
        Ok(
            ExportedFunctionView {
                name: f.name,
                args: args_of(f.params),
                return_type: return_type_of(f.output),
            },
        )
    } else {
        Err(WarningView { function: f.name, reason: SkipReasonView::UnsupportedPattern })
    }
}

/// What a visitor holds after it was shown a function item: an item that
/// carries the marker adds its signature or its warning, once; any other
/// item changes nothing.
pub open spec fn visited(state: ExportedFnVisitorView, node: FnItemView) -> ExportedFnVisitorView {
    if has_marker(node.attrs, marker()) {
        match exported_of(node) {
            Ok(function) => ExportedFnVisitorView {
                functions: state.functions.push(function),
                warnings: state.warnings,
            },
            Err(warning) => ExportedFnVisitorView {
                functions: state.functions,
                warnings: state.warnings.push(warning),
            },
        }
    } else {
        state
    }
}

/// What a visitor holds after it was shown the function items in order.
pub open spec fn visited_all(state: ExportedFnVisitorView, nodes: Seq<FnItemView>) -> ExportedFnVisitorView
    decreases nodes.len(),
{
    if nodes.len() == 0 {
        state
    } else {
        visited(visited_all(state, nodes.drop_last()), nodes.last())
    }
}

/// Whether no two of the functions have the same name.
pub open spec fn distinct_names(functions: Seq<ExportedFunctionView>) -> bool {
    forall|i: int, j: int|
        0 <= i < j < functions.len() ==> (#[trigger] functions[i]).name != (
        #[trigger] functions[j]).name
}

/// The visitor that has seen nothing.
pub open spec fn fresh() -> ExportedFnVisitorView {
    ExportedFnVisitorView { functions: Seq::empty(), warnings: Seq::empty() }
}

/// Whether an attribute marks its function as exported.
pub fn is_export(attr: &Vec<String>) -> (r: bool)
    ensures
        r == path_names(attr.deep_view(), marker()),
{
    attribute_names(attr, "unsafe")
}

/// A type as written.
pub fn type_to_string(ty: &TypeForm) -> (r: String)
    ensures
        r@ == ty.deep_view().tokens,
{
    ty.tokens.clone()
}

/// The signature of a function item, or the warning that stands in for it.
pub fn exported_function(node: &FnItem) -> (r: Result<ExportedFunction, Warning>)
    ensures
        match r {
            Ok(function) => exported_of(node@) == Ok::<ExportedFunctionView, WarningView>(
                function@,
            ),
            Err(warning) => exported_of(node@) == Err::<ExportedFunctionView, WarningView>(
                warning@,
            ),
        },
{
    if !has_plain_params(&node.params) {
        return Err(Warning { function: node.name.clone(), reason: SkipReason::UnsupportedPattern });
    }
    let ghost params = node@.params;
    let mut args: Vec<(String, String)> = Vec::new();
    let n = node.params.len();
    let mut i: usize = 0;
    assert(params.take(0) == Seq::<ParamView>::empty());
    while i < n
        invariant
            n == node.params.len(),
            params == node@.params,
            i <= n,
            args.deep_view() == args_of(params.take(i as int)),
        decreases n - i,
    {
        assert(params.take(i + 1).drop_last() == params.take(i as int));
        assert(params.take(i + 1).last() == node.params[i as int].deep_view());
        match &node.params[i].pattern {
            ParamPattern::Ident(name) => {
                let ty = type_to_string(&node.params[i].ty);
                let ghost before = args.deep_view();
                args.push((name.clone(), ty));
                assert(args.deep_view() == before.push(
                    (name@, node.params[i as int].ty.deep_view().tokens),
                ));
            },
            _ => {},
        }
        i = i + 1;
    }
    assert(params.take(n as int) == params);
    let return_type = match &node.output {
        Some(ty) => Some(type_to_string(ty)),
        None => None,
    };
    Ok(ExportedFunction { name: node.name.clone(), args, return_type })
}

impl ExportedFnVisitor {
    /// A visitor that has seen nothing.
    pub fn new() -> (visitor: ExportedFnVisitor)
        ensures
            visitor@ == fresh(),
    {
        let visitor = ExportedFnVisitor { functions: Vec::new(), warnings: Vec::new() };
        assert(visitor@.functions == fresh().functions);
        assert(visitor@.warnings == fresh().warnings);
        visitor
    }

    /// Shows the visitor a function item.
    pub fn visit_item_fn(&mut self, node: &FnItem)
        ensures
            final(self)@ == visited(old(self)@, node@),
    {
        let mut is_exported = false;
        let mut i: usize = 0;
        while i < node.attrs.len()
            invariant
                i <= node.attrs.len(),
                is_exported == exists|k: int|
                    0 <= k < i && path_names(#[trigger] node.attrs.deep_view()[k], marker()),
            decreases node.attrs.len() - i,
        {
            if is_export(&node.attrs[i]) {
                assert(path_names(node.attrs.deep_view()[i as int], marker()));
                is_exported = true;
            }
            i = i + 1;
        }
        if is_exported {
            match exported_function(node) {
                Ok(function) => {
                    let ghost before = self.functions.deep_view();
                    self.functions.push(function);
                    assert(self.functions.deep_view() == before.push(function@));
                },
                Err(warning) => {
                    let ghost before = self.warnings.deep_view();
                    self.warnings.push(warning);
                    assert(self.warnings.deep_view() == before.push(warning@));
                },
            }
        }
    }
}

/// Whether no two of the functions have the same name, as the bindings of
/// one module need it.
pub fn has_distinct_names(functions: &[ExportedFunction]) -> (r: bool)
    ensures
        r == distinct_names(functions.deep_view()),
{
    let ghost all = functions.deep_view();
    let n = functions.len();
    let mut j: usize = 0;
    while j < n
        invariant
            n == functions.len(),
            all == functions.deep_view(),
            j <= n,
            forall|a: int, b: int|
                0 <= a < b < j ==> (#[trigger] all[a]).name != (#[trigger] all[b]).name,
        decreases n - j,
    {
        let mut i: usize = 0;
        while i < j
            invariant
                n == functions.len(),
                all == functions.deep_view(),
                i <= j < n,
                forall|a: int| 0 <= a < i ==> (#[trigger] all[a]).name != all[j as int].name,
            decreases j - i,
        {
            if text_eq(functions[i].name.as_str(), functions[j].name.as_str()) {
                assert(all[i as int].name == all[j as int].name);
                return false;
            }
            i = i + 1;
        }
        j = j + 1;
    }
    true
}

/// Extracts the exported functions from the function items of a file, in
/// the order in which the items are given.
pub fn parse_exported_functions(nodes: &Vec<FnItem>) -> (visitor: ExportedFnVisitor)
    ensures
        visitor@ == visited_all(fresh(), nodes.deep_view()),
{
    let ghost all = nodes.deep_view();
    let mut visitor = ExportedFnVisitor::new();
    let n = nodes.len();
    let mut i: usize = 0;
    assert(all.take(0) == Seq::<FnItemView>::empty());
    while i < n
        invariant
            n == nodes.len(),
            all == nodes.deep_view(),
            i <= n,
            visitor@ == visited_all(fresh(), all.take(i as int)),
        decreases n - i,
    {
        assert(all.take(i + 1).drop_last() == all.take(i as int));
        assert(all.take(i + 1).last() == nodes[i as int]@);
        visitor.visit_item_fn(&nodes[i]);
        i = i + 1;
    }
    assert(all.take(n as int) == all);
    visitor
}

/// Showing a visitor two lists of function items, one after the other, is
/// showing it the second list after it was shown the first.
pub proof fn lemma_visits_in_turn(
    state: ExportedFnVisitorView,
    first: Seq<FnItemView>,
    second: Seq<FnItemView>,
)
    ensures
        visited_all(state, first + second) == visited_all(visited_all(state, first), second),
    decreases second.len(),
{
    if second.len() == 0 {
        assert(first + second == first);
    } else {
        lemma_visits_in_turn(state, first, second.drop_last());
        assert((first + second).drop_last() == first + second.drop_last());
        assert((first + second).last() == second.last());
    }
}

/// What a visit adds does not depend on what the visitor already holds.
pub proof fn lemma_visits_append(state: ExportedFnVisitorView, nodes: Seq<FnItemView>)
    ensures
        visited_all(state, nodes).functions == state.functions + visited_all(
            fresh(),
            nodes,
        ).functions,
        visited_all(state, nodes).warnings == state.warnings + visited_all(fresh(), nodes).warnings,
    decreases nodes.len(),
{
    if nodes.len() > 0 {
        lemma_visits_append(state, nodes.drop_last());
    }
}

/// An exported function with a parameter that is not bound by a plain name
/// is absent from the functions and recorded as a warning, and the
/// functions around it are collected as if it were not there.
pub proof fn lemma_malformed_function_is_left_out(
    before: Seq<FnItemView>,
    malformed: FnItemView,
    after: Seq<FnItemView>,
)
    requires
        has_marker(malformed.attrs, marker()),
        !plain_params(malformed.params),
    ensures
        visited_all(fresh(), before + seq![malformed] + after).functions == visited_all(
            fresh(),
            before + after,
        ).functions,
        visited_all(fresh(), before + seq![malformed] + after).warnings == visited_all(
            fresh(),
            before,
        ).warnings.push(
            WarningView { function: malformed.name, reason: SkipReasonView::UnsupportedPattern },
        ) + visited_all(fresh(), after).warnings,
{
    let single = seq![malformed];
    let seen = visited_all(fresh(), before);
    assert(single.drop_last() == Seq::<FnItemView>::empty());
    assert(visited_all(seen, single.drop_last()) == seen);
    assert(visited_all(seen, single) == visited(seen, malformed));
    lemma_visits_in_turn(fresh(), before, single);
    lemma_visits_in_turn(fresh(), before + single, after);
    lemma_visits_in_turn(fresh(), before, after);
    lemma_visits_append(visited(seen, malformed), after);
    lemma_visits_append(seen, after);
}

} // verus!

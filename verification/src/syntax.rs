//! What an extractor reads of a Rust source file: for each item, whether it
//! is a function and, if so, the paths of its attributes, its name, its
//! parameters and its return type. `syn` parses; the values here hold what
//! it found as plain data.

use crate::text::text_eq;
use vstd::prelude::*;

verus! {

/// How a parameter is bound.
#[derive(Clone, Debug, PartialEq, Eq)]
pub enum ParamPattern {
    /// The `self` receiver.
    Receiver,
    /// A plain name; `mut`, `ref` and a sub-pattern do not change it.
    Ident(String),
    /// Any other pattern, such as a tuple or a struct pattern.
    Other,
}

/// Mathematical model of a [`ParamPattern`].
pub enum ParamPatternView {
    Receiver,
    Ident(Seq<char>),
    Other,
}

/// The outer form of a type, as far as an extractor tells types apart.
#[derive(Clone, Debug, PartialEq, Eq)]
pub enum TypeShape {
    /// A path, with the names of its segments without their arguments.
    Path(Vec<String>),
    /// A reference to a path.
    ReferenceToPath(Vec<String>),
    /// A reference to anything else.
    ReferenceToOther,
    /// Anything else.
    Other,
}

/// Mathematical model of a [`TypeShape`].
pub enum TypeShapeView {
    Path(Seq<Seq<char>>),
    ReferenceToPath(Seq<Seq<char>>),
    ReferenceToOther,
    Other,
}

/// A type as written: its outer form and its tokens, separated by blanks.
#[derive(Clone, Debug, PartialEq, Eq)]
pub struct TypeForm {
    pub shape: TypeShape,
    pub tokens: String,
}

/// Mathematical model of a [`TypeForm`].
pub struct TypeFormView {
    pub shape: TypeShapeView,
    pub tokens: Seq<char>,
}

/// One parameter of a function.
#[derive(Clone, Debug, PartialEq, Eq)]
pub struct Param {
    pub pattern: ParamPattern,
    pub ty: TypeForm,
}

/// Mathematical model of a [`Param`].
pub struct ParamView {
    pub pattern: ParamPatternView,
    pub ty: TypeFormView,
}

/// One function item.
#[derive(Clone, Debug, PartialEq, Eq)]
pub struct FnItem {
    /// For each attribute, the names of the segments of its path.
    pub attrs: Vec<Vec<String>>,
    pub name: String,
    pub params: Vec<Param>,
    pub output: Option<TypeForm>,
}

/// Mathematical model of a [`FnItem`].
pub struct FnItemView {
    pub attrs: Seq<Seq<Seq<char>>>,
    pub name: Seq<char>,
    pub params: Seq<ParamView>,
    pub output: Option<TypeFormView>,
}

impl DeepView for ParamPattern {
    type V = ParamPatternView;

    open spec fn deep_view(&self) -> ParamPatternView {
        match self {
            ParamPattern::Receiver => ParamPatternView::Receiver,
            ParamPattern::Ident(name) => ParamPatternView::Ident(name@),
            ParamPattern::Other => ParamPatternView::Other,
        }
    }
}

impl DeepView for TypeShape {
    type V = TypeShapeView;

    open spec fn deep_view(&self) -> TypeShapeView {
        match self {
            TypeShape::Path(segments) => TypeShapeView::Path(segments.deep_view()),
            TypeShape::ReferenceToPath(segments) => TypeShapeView::ReferenceToPath(
                segments.deep_view(),
            ),
            TypeShape::ReferenceToOther => TypeShapeView::ReferenceToOther,
            TypeShape::Other => TypeShapeView::Other,
        }
    }
}

impl DeepView for TypeForm {
    type V = TypeFormView;

    open spec fn deep_view(&self) -> TypeFormView {
        TypeFormView { shape: self.shape.deep_view(), tokens: self.tokens@ }
    }
}

impl DeepView for Param {
    type V = ParamView;

    open spec fn deep_view(&self) -> ParamView {
        ParamView { pattern: self.pattern.deep_view(), ty: self.ty.deep_view() }
    }
}

impl DeepView for FnItem {
    type V = FnItemView;

    open spec fn deep_view(&self) -> FnItemView {
        FnItemView {
            attrs: self.attrs.deep_view(),
            name: self.name@,
            params: self.params.deep_view(),
            output: self.output.deep_view(),
        }
    }
}

impl View for FnItem {
    type V = FnItemView;

    open spec fn view(&self) -> FnItemView {
        self.deep_view()
    }
}

#[verifier::external_type_specification]
#[verifier::external_body]
pub struct ExSynItem(syn::Item);

#[verifier::external_type_specification]
#[verifier::external_body]
pub struct ExSynType(syn::Type);

/// What `syn::parse_file` makes of a source text: for each item of the
/// file, in order, what [`item_content`] says of it; `None` where the text
/// is not a Rust source file.
pub uninterp spec fn parsed_source(code: Seq<char>) -> Option<Seq<Option<FnItemView>>>;

/// What a parsed item holds: for a function item, its attributes' paths,
/// name, parameters and return type; `None` for any other item.
pub uninterp spec fn item_content(item: syn::Item) -> Option<FnItemView>;

/// What a parsed type holds: its outer form and its tokens.
pub uninterp spec fn type_content(ty: syn::Type) -> TypeFormView;

/// The contents of a list of parsed items, in order.
pub open spec fn item_contents(items: Seq<syn::Item>) -> Seq<Option<FnItemView>> {
    Seq::new(items.len(), |i: int| item_content(items[i]))
}

/// The patterns of a list of parameters, in order.
pub open spec fn patterns_of(params: Seq<ParamView>) -> Seq<ParamPatternView> {
    Seq::new(params.len(), |i: int| params[i].pattern)
}

/// The types of a list of parameters, in order.
pub open spec fn types_of(params: Seq<ParamView>) -> Seq<TypeFormView> {
    Seq::new(params.len(), |i: int| params[i].ty)
}

/// The contents of a list of parsed types, in order.
pub open spec fn type_contents(types: Seq<syn::Type>) -> Seq<TypeFormView> {
    Seq::new(types.len(), |i: int| type_content(types[i]))
}

/// Calls `syn::parse_file` and hands out the items of the file, in order.
/// Where the text does not parse, the error is `syn`'s message.
#[verifier::external_body]
fn parse_items(code: &str) -> (r: Result<Vec<syn::Item>, String>)
    ensures
        match r {
            Ok(items) => parsed_source(code@) == Some(item_contents(items@)),
            Err(_) => parsed_source(code@) is None,
        },
{
    syn::parse_file(code).map(|file| file.items).map_err(|e| e.to_string())
}

/// The name of a function item (`sig.ident`); `None` for any other item.
#[verifier::external_body]
fn item_fn_name(item: &syn::Item) -> (r: Option<String>)
    ensures
        r.deep_view() == match item_content(*item) {
            Some(f) => Some(f.name),
            None => None,
        },
{
    match item {
        syn::Item::Fn(f) => Some(f.sig.ident.to_string()),
        _ => None,
    }
}

/// For each attribute of a function item, in order, the names of the
/// segments of its path (`Attribute::path`, each segment's `ident`).
#[verifier::external_body]
fn item_attr_paths(item: &syn::Item) -> (r: Vec<Vec<String>>)
    ensures
        item_content(*item) is Some ==> r.deep_view() == item_content(*item)->0.attrs,
{
    match item {
        syn::Item::Fn(f) => f.attrs.iter().map(
            |a| a.path().segments.iter().map(|s| s.ident.to_string()).collect(),
        ).collect(),
        _ => Vec::new(),
    }
}

/// For each parameter of a function item (`sig.inputs`), in order, how it
/// is bound: a receiver, a `Pat::Ident` with its `ident`, or another
/// pattern.
#[verifier::external_body]
fn item_param_patterns(item: &syn::Item) -> (r: Vec<ParamPattern>)
    ensures
        item_content(*item) is Some ==> r.deep_view() == patterns_of(
            item_content(*item)->0.params,
        ),
{
    match item {
        syn::Item::Fn(f) => f.sig.inputs.iter().map(
            |arg|
                match arg {
                    syn::FnArg::Receiver(_) => ParamPattern::Receiver,
                    syn::FnArg::Typed(typed) => match &*typed.pat {
                        syn::Pat::Ident(p) => ParamPattern::Ident(p.ident.to_string()),
                        _ => ParamPattern::Other,
                    },
                },
        ).collect(),
        _ => Vec::new(),
    }
}

/// For each parameter of a function item (`sig.inputs`), in order, its
/// type (the field `ty` of either kind of parameter).
#[verifier::external_body]
fn item_param_types(item: &syn::Item) -> (r: Vec<syn::Type>)
    ensures
        item_content(*item) is Some ==> type_contents(r@) == types_of(
            item_content(*item)->0.params,
        ),
{
    match item {
        syn::Item::Fn(f) => f.sig.inputs.iter().map(
            |arg|
                match arg {
                    syn::FnArg::Receiver(receiver) => (*receiver.ty).clone(),
                    syn::FnArg::Typed(typed) => (*typed.ty).clone(),
                },
        ).collect(),
        _ => Vec::new(),
    }
}

/// The return type of a function item (`sig.output`), if it names one.
#[verifier::external_body]
fn item_output_type(item: &syn::Item) -> (r: Option<syn::Type>)
    ensures
        item_content(*item) is Some ==> match r {
            Some(ty) => item_content(*item)->0.output == Some(type_content(ty)),
            None => item_content(*item)->0.output is None,
        },
{
    match item {
        syn::Item::Fn(f) => match &f.sig.output {
            syn::ReturnType::Type(_, ty) => Some((**ty).clone()),
            syn::ReturnType::Default => None,
        },
        _ => None,
    }
}

/// The outer form of a type: `Type::Path` and `Type::Reference` are told
/// apart from the rest, and a path gives the `ident` of each segment.
#[verifier::external_body]
fn type_shape(ty: &syn::Type) -> (r: TypeShape)
    ensures
        r.deep_view() == type_content(*ty).shape,
{
    match ty {
        syn::Type::Path(p) => TypeShape::Path(
            p.path.segments.iter().map(|s| s.ident.to_string()).collect(),
        ),
        syn::Type::Reference(reference) => match &*reference.elem {
            syn::Type::Path(p) => TypeShape::ReferenceToPath(
                p.path.segments.iter().map(|s| s.ident.to_string()).collect(),
            ),
            _ => TypeShape::ReferenceToOther,
        },
        _ => TypeShape::Other,
    }
}

/// The tokens of a type as `quote` prints them
/// (`ToTokens::to_token_stream`, then `to_string`).
#[verifier::external_body]
fn type_tokens(ty: &syn::Type) -> (r: String)
    ensures
        r@ == type_content(*ty).tokens,
{
    quote::ToTokens::to_token_stream(ty).to_string()
}

/// Reads a parsed type.
fn read_type(ty: &syn::Type) -> (r: TypeForm)
    ensures
        r.deep_view() == type_content(*ty),
{
    TypeForm { shape: type_shape(ty), tokens: type_tokens(ty) }
}

/// Reads a parsed item: the function that it holds, or `None`.
pub fn read_item(item: &syn::Item) -> (r: Option<FnItem>)
    ensures
        r.deep_view() == item_content(*item),
{
    let name = match item_fn_name(item) {
        Some(name) => name,
        None => {
            return None;
        },
    };
    let ghost want = item_content(*item)->0;
    let attrs = item_attr_paths(item);
    let patterns = item_param_patterns(item);
    let types = item_param_types(item);
    assert(patterns.len() == want.params.len()) by {
        assert(patterns.deep_view().len() == patterns_of(want.params).len());
    }
    assert(types.len() == want.params.len()) by {
        assert(type_contents(types@).len() == types_of(want.params).len());
    }
    let n = patterns.len();
    let mut params: Vec<Param> = Vec::new();
    let mut i: usize = 0;
    while i < n
        invariant
            n == want.params.len(),
            patterns.len() == n,
            types.len() == n,
            i <= n,
            patterns.deep_view() == patterns_of(want.params),
            type_contents(types@) == types_of(want.params),
            params.deep_view() == want.params.take(i as int),
        decreases n - i,
    {
        let ty = read_type(&types[i]);
        assert(type_contents(types@)[i as int] == types_of(want.params)[i as int]);
        let pattern = match &patterns[i] {
            ParamPattern::Receiver => ParamPattern::Receiver,
            ParamPattern::Ident(name) => ParamPattern::Ident(name.clone()),
            ParamPattern::Other => ParamPattern::Other,
        };
        assert(patterns.deep_view()[i as int] == patterns_of(want.params)[i as int]);
        let ghost before = params.deep_view();
        params.push(Param { pattern, ty });
        assert(params.deep_view() == before.push(want.params[i as int]));
        assert(want.params.take(i + 1) == want.params.take(i as int).push(want.params[i as int]));
        i = i + 1;
    }
    assert(want.params.take(n as int) == want.params);
    let output = match item_output_type(item) {
        Some(ty) => Some(read_type(&ty)),
        None => None,
    };
    Some(FnItem { attrs, name, params, output })
}

/// Reads a source text: for each item of the file, in order, the function
/// that it holds, or `None`. Where the text does not parse, the error is
/// the parser's message.
pub fn read_source(code: &str) -> (r: Result<Vec<Option<FnItem>>, String>)
    ensures
        match r {
            Ok(items) => parsed_source(code@) == Some(items.deep_view()),
            Err(_) => parsed_source(code@) is None,
        },
{
    let parsed = match parse_items(code) {
        Ok(parsed) => parsed,
        Err(message) => {
            return Err(message);
        },
    };
    let ghost want = item_contents(parsed@);
    let mut items: Vec<Option<FnItem>> = Vec::new();
    let n = parsed.len();
    let mut i: usize = 0;
    while i < n
        invariant
            n == parsed.len(),
            want == item_contents(parsed@),
            i <= n,
            items.deep_view() == want.take(i as int),
        decreases n - i,
    {
        let item = read_item(&parsed[i]);
        let ghost before = items.deep_view();
        items.push(item);
        assert(items.deep_view() == before.push(want[i as int]));
        assert(want.take(i + 1) == want.take(i as int).push(want[i as int]));
        i = i + 1;
    }
    assert(want.take(n as int) == want);
    Ok(items)
}

/// Whether an attribute's path names the marker: its last segment is the
/// marker, whatever path qualifies it.
pub open spec fn path_names(path: Seq<Seq<char>>, marker: Seq<char>) -> bool {
    path.len() > 0 && path.last() == marker
}

/// Whether any of the attributes names the marker.
pub open spec fn has_marker(attrs: Seq<Seq<Seq<char>>>, marker: Seq<char>) -> bool {
    exists|i: int| 0 <= i < attrs.len() && path_names(#[trigger] attrs[i], marker)
}

/// Whether every parameter is a receiver or bound by a plain name.
pub open spec fn plain_params(params: Seq<ParamView>) -> bool {
    forall|i: int| 0 <= i < params.len() ==> !((#[trigger] params[i]).pattern is Other)
}

/// Whether an attribute's path names the marker.
pub fn attribute_names(path: &Vec<String>, marker: &str) -> (r: bool)
    ensures
        r == path_names(path.deep_view(), marker@),
{
    let n = path.len();
    n > 0 && text_eq(path[n - 1].as_str(), marker)
}

/// Whether any of the attributes names the marker.
pub fn carries_marker(attrs: &Vec<Vec<String>>, marker: &str) -> (r: bool)
    ensures
        r == has_marker(attrs.deep_view(), marker@),
{
    let mut i: usize = 0;
    while i < attrs.len()
        invariant
            i <= attrs.len(),
            forall|k: int| 0 <= k < i ==> !path_names(#[trigger] attrs.deep_view()[k], marker@),
        decreases attrs.len() - i,
    {
        if attribute_names(&attrs[i], marker) {
            assert(path_names(attrs.deep_view()[i as int], marker@));
            return true;
        }
        i = i + 1;
    }
    false
}

/// Whether every parameter is a receiver or bound by a plain name.
pub fn has_plain_params(params: &Vec<Param>) -> (r: bool)
    ensures
        r == plain_params(params.deep_view()),
{
    let mut i: usize = 0;
    while i < params.len()
        invariant
            i <= params.len(),
            forall|k: int| 0 <= k < i ==> !((#[trigger] params.deep_view()[k]).pattern is Other),
        decreases params.len() - i,
    {
        match &params[i].pattern {
            ParamPattern::Other => {
                assert(params.deep_view()[i as int].pattern is Other);
                return false;
            },
            _ => {},
        }
        i = i + 1;
    }
    true
}

} // verus!

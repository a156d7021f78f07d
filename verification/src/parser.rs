//! Extraction of the functions marked `wasm_bindgen` from Rust source, with
//! the C++ standard-library type of each argument and of the result.

use crate::syntax::{
    FnItem, FnItemView, ParamPattern, ParamPatternView, ParamView, TypeForm, TypeFormView,
    TypeShape, TypeShapeView, carries_marker, has_marker, has_plain_params, parsed_source,
    plain_params, read_source,
};
use crate::text::{
    chars_of, contains_char, followed_by, slice, squeeze, squeezed, starts_with, text_eq,
};
use crate::types::{CanonicalType, TypeMapping, TypeMappingView, class_mapping};
use crate::warning::{SkipReason, SkipReasonView, Warning, WarningView};
use vstd::prelude::*;

verus! {

/// One argument of an extracted function.
#[derive(Clone, Debug, PartialEq, Eq)]
pub struct FunctionArg {
    pub name: String,
    pub rust_type: String,
    pub cpp_type: String,
}

/// Mathematical model of a [`FunctionArg`].
pub struct FunctionArgView {
    pub name: Seq<char>,
    pub rust_type: Seq<char>,
    pub cpp_type: Seq<char>,
}

/// An extracted function: its name, its arguments in declaration order and
/// its return type, each type in Rust and in C++.
#[derive(Clone, Debug, PartialEq, Eq)]
pub struct FunctionSignature {
    pub name: String,
    pub args: Vec<FunctionArg>,
    pub return_type: String,
    pub cpp_return_type: String,
}

/// Mathematical model of a [`FunctionSignature`].
pub struct FunctionSignatureView {
    pub name: Seq<char>,
    pub args: Seq<FunctionArgView>,
    pub return_type: Seq<char>,
    pub cpp_return_type: Seq<char>,
}

/// What an extraction gives: the signatures of the marked functions, in
/// declaration order, and a warning for each marked function that was left
/// out.
#[derive(Clone, Debug, PartialEq, Eq)]
pub struct Extraction {
    pub functions: Vec<FunctionSignature>,
    pub warnings: Vec<Warning>,
}

/// Mathematical model of an [`Extraction`].
pub struct ExtractionView {
    pub functions: Seq<FunctionSignatureView>,
    pub warnings: Seq<WarningView>,
}

/// Why a source text gave no extraction.
#[derive(Clone, Debug, PartialEq, Eq)]
pub enum ParseError {
    /// The text is not a Rust source file; with the parser's message.
    Syntax(String),
}

impl View for FunctionArg {
    type V = FunctionArgView;

    open spec fn view(&self) -> FunctionArgView {
        FunctionArgView { name: self.name@, rust_type: self.rust_type@, cpp_type: self.cpp_type@ }
    }
}

impl DeepView for FunctionArg {
    type V = FunctionArgView;

    open spec fn deep_view(&self) -> FunctionArgView {
        self.view()
    }
}

impl View for FunctionSignature {
    type V = FunctionSignatureView;

    open spec fn view(&self) -> FunctionSignatureView {
        FunctionSignatureView {
            name: self.name@,
            args: self.args.deep_view(),
            return_type: self.return_type@,
            cpp_return_type: self.cpp_return_type@,
        }
    }
}

impl DeepView for FunctionSignature {
    type V = FunctionSignatureView;

    open spec fn deep_view(&self) -> FunctionSignatureView {
        self.view()
    }
}

impl View for Extraction {
    type V = ExtractionView;

    open spec fn view(&self) -> ExtractionView {
        ExtractionView {
            functions: self.functions.deep_view(),
            warnings: self.warnings.deep_view(),
        }
    }
}

/// The marker of the functions to extract.
pub open spec fn marker() -> Seq<char> {
    "wasm_bindgen"@
}

/// The class of a Rust type that the resolver knows by name.
pub open spec fn named_class(token: Seq<char>) -> Option<CanonicalType> {
    if token == "i8"@ {
        Some(CanonicalType::Int8)
    } else if token == "i16"@ {
        Some(CanonicalType::Int16)
    } else if token == "i32"@ {
        Some(CanonicalType::Int32)
    } else if token == "i64"@ {
        Some(CanonicalType::Int64)
    } else if token == "u8"@ {
        Some(CanonicalType::UInt8)
    } else if token == "u16"@ {
        Some(CanonicalType::UInt16)
    } else if token == "u32"@ {
        Some(CanonicalType::UInt32)
    } else if token == "u64"@ {
        Some(CanonicalType::UInt64)
    } else if token == "f32"@ {
        Some(CanonicalType::Float32)
    } else if token == "f64"@ {
        Some(CanonicalType::Float64)
    } else if token == "bool"@ {
        Some(CanonicalType::Bool)
    } else if token == "String"@ || token == "&str"@ {
        Some(CanonicalType::Str)
    } else {
        None
    }
}

/// The C++ spelling of a type that the resolver knows by name.
pub open spec fn named_surface(token: Seq<char>) -> Seq<char> {
    if token == "i8"@ {
        "int8_t"@
    } else if token == "i16"@ {
        "int16_t"@
    } else if token == "i32"@ {
        "int32_t"@
    } else if token == "i64"@ {
        "int64_t"@
    } else if token == "u8"@ {
        "uint8_t"@
    } else if token == "u16"@ {
        "uint16_t"@
    } else if token == "u32"@ {
        "uint32_t"@
    } else if token == "u64"@ {
        "uint64_t"@
    } else if token == "f32"@ {
        "float"@
    } else if token == "f64"@ {
        "double"@
    } else if token == "bool"@ {
        "bool"@
    } else if token == "String"@ {
        "std::string"@
    } else {
        "const std::string&"@
    }
}

/// The conservative mapping of a type that the resolver cannot resolve: a
/// pointer to unknown.
pub open spec fn opaque_mapping() -> TypeMappingView {
    class_mapping(CanonicalType::Opaque, "void*"@)
}

/// Whether a token has the shape of an optional: it begins with
/// `Option<`.
pub open spec fn is_optional(token: Seq<char>) -> bool {
    token.len() >= 7 && token.take(7) == "Option<"@
}

/// What an optional wraps: the token without the leading `Option<` and
/// without the `>` that closes it, where there is one.
pub open spec fn option_inner(token: Seq<char>) -> Seq<char> {
    let rest = token.skip(7);
    if rest.len() > 0 && rest.last() == '>' {
        rest.drop_last()
    } else {
        rest
    }
}

/// What a Rust type token resolves to, if it resolves: a type known by
/// name to its class and spelling, the unit type to `void`, and an optional
/// to what its inner type resolves to, wrapped in `std::optional`. An
/// optional of a type that does not resolve does not resolve.
pub open spec fn resolved(token: Seq<char>) -> Option<TypeMappingView>
    decreases token.len(),
{
    if named_class(token) is Some {
        Some(class_mapping(named_class(token)->0, named_surface(token)))
    } else if token == "()"@ {
        Some(class_mapping(CanonicalType::Opaque, "void"@))
    } else if is_optional(token) {
        match resolved(option_inner(token)) {
            Some(inner) => Some(
                TypeMappingView {
                    target_surface_type: "std::optional<"@ + inner.target_surface_type + ">"@,
                    ..inner
                },
            ),
            None => None,
        }
    } else {
        None
    }
}

/// What a Rust type token maps to. Every token maps: one that does not
/// resolve maps to the opaque pointer.
pub open spec fn mapping_of(token: Seq<char>) -> TypeMappingView {
    match resolved(token) {
        Some(mapping) => mapping,
        None => opaque_mapping(),
    }
}

/// The C++ type of a Rust type token.
pub open spec fn cpp_type_of(token: Seq<char>) -> Seq<char> {
    mapping_of(token).target_surface_type
}

/// The token that names a type: for a path with arguments (its tokens
/// hold `<`) the whole path without white space, as in `Option<i32>`; for
/// any other path its first segment; `&` and the first segment for a
/// reference to a path; and for any other type its tokens as written.
pub open spec fn type_string(ty: TypeFormView) -> Seq<char> {
    match ty.shape {
        TypeShapeView::Path(segments) => if segments.len() == 0 {
            ty.tokens
        } else if ty.tokens.contains('<') {
            squeezed(ty.tokens)
        } else {
            segments[0]
        },
        TypeShapeView::ReferenceToPath(segments) => if segments.len() > 0 {
            "&"@ + segments[0]
        } else {
            ty.tokens
        },
        _ => ty.tokens,
    }
}

/// The argument for a parameter of the given name and type.
pub open spec fn arg_of(name: Seq<char>, ty: TypeFormView) -> FunctionArgView {
    FunctionArgView {
        name,
        rust_type: type_string(ty),
        cpp_type: cpp_type_of(type_string(ty)),
    }
}

/// The arguments for the parameters that are bound by a name, in order; a
/// receiver gives none.
pub open spec fn args_of(params: Seq<ParamView>) -> Seq<FunctionArgView>
    decreases params.len(),
{
    if params.len() == 0 {
        Seq::<FunctionArgView>::empty()
    } else {
        let before = args_of(params.drop_last());
        match params.last().pattern {
            ParamPatternView::Ident(name) => before.push(arg_of(name, params.last().ty)),
            _ => before,
        }
    }
}

/// The token of a return type; a function that names none returns the unit
/// type.
pub open spec fn return_token(output: Option<TypeFormView>) -> Seq<char> {
    match output {
        Some(ty) => type_string(ty),
        None => "()"@,
    }
}

/// The signature of a function item, or the warning that stands in for it:
/// a function with a parameter that is not bound by a plain name is left
/// out as a whole.
pub open spec fn signature_of(f: FnItemView) -> Result<FunctionSignatureView, WarningView> {
    if plain_params(f.params) {
        Ok(
            FunctionSignatureView {
                name: f.name,
                args: args_of(f.params),
                return_type: return_token(f.output),
                cpp_return_type: cpp_type_of(return_token(f.output)),
            },
        )
    } else {
        Err(WarningView { function: f.name, reason: SkipReasonView::UnsupportedPattern })
    }
}

/// The extraction from the items of a file: each function item that
/// carries the marker gives its signature or its warning, in the order of
/// the items; every other item gives nothing.
pub open spec fn extraction_of(items: Seq<Option<FnItemView>>) -> ExtractionView
    decreases items.len(),
{
    if items.len() == 0 {
        ExtractionView { functions: Seq::empty(), warnings: Seq::empty() }
    } else {
        let before = extraction_of(items.drop_last());
        match items.last() {
            Some(f) => if has_marker(f.attrs, marker()) {
                match signature_of(f) {
                    Ok(signature) => ExtractionView {
                        functions: before.functions.push(signature),
                        warnings: before.warnings,
                    },
                    Err(warning) => ExtractionView {
                        functions: before.functions,
                        warnings: before.warnings.push(warning),
                    },
                }
            } else {
                before
            },
            None => before,
        }
    }
}

/// Whether the attributes of a function mark it for extraction.
pub fn has_wasm_bindgen_attribute(attrs: &Vec<Vec<String>>) -> (r: bool)
    ensures
        r == has_marker(attrs.deep_view(), marker()),
{
    carries_marker(attrs, "wasm_bindgen")
}

fn named(rust_type: &str) -> (r: Option<TypeMapping>)
    ensures
        match r {
            Some(m) => named_class(rust_type@) is Some && m@ == class_mapping(
                named_class(rust_type@)->0,
                named_surface(rust_type@),
            ),
            None => named_class(rust_type@) is None,
        },
{
    let (class, surface) = if text_eq(rust_type, "i8") {
        (CanonicalType::Int8, "int8_t")
    } else if text_eq(rust_type, "i16") {
        (CanonicalType::Int16, "int16_t")
    } else if text_eq(rust_type, "i32") {
        (CanonicalType::Int32, "int32_t")
    } else if text_eq(rust_type, "i64") {
        (CanonicalType::Int64, "int64_t")
    } else if text_eq(rust_type, "u8") {
        (CanonicalType::UInt8, "uint8_t")
    } else if text_eq(rust_type, "u16") {
        (CanonicalType::UInt16, "uint16_t")
    } else if text_eq(rust_type, "u32") {
        (CanonicalType::UInt32, "uint32_t")
    } else if text_eq(rust_type, "u64") {
        (CanonicalType::UInt64, "uint64_t")
    } else if text_eq(rust_type, "f32") {
        (CanonicalType::Float32, "float")
    } else if text_eq(rust_type, "f64") {
        (CanonicalType::Float64, "double")
    } else if text_eq(rust_type, "bool") {
        (CanonicalType::Bool, "bool")
    } else if text_eq(rust_type, "String") {
        (CanonicalType::Str, "std::string")
    } else if text_eq(rust_type, "&str") {
        (CanonicalType::Str, "const std::string&")
    } else {
        return None;
    };
    Some(TypeMapping::of_class(class, surface))
}

/// Whatever a token maps to, its slot width is the one of its class.
pub proof fn lemma_mapping_is_well_formed(token: Seq<char>)
    ensures
        mapping_of(token).wf(),
        resolved(token) is Some ==> resolved(token)->0.wf(),
    decreases token.len(),
{
    if named_class(token) is None && token != "()"@ && is_optional(token) {
        lemma_mapping_is_well_formed(option_inner(token));
    }
}

/// What a Rust type token resolves to, if it resolves.
pub fn try_resolve(rust_type: &str) -> (r: Option<TypeMapping>)
    ensures
        r.deep_view() == resolved(rust_type@),
    decreases rust_type@.len(),
{
    match named(rust_type) {
        Some(m) => {
            return Some(m);
        },
        None => {},
    }
    if text_eq(rust_type, "()") {
        return Some(TypeMapping::of_class(CanonicalType::Opaque, "void"));
    }
    proof {
        reveal_strlit("Option<");
    }
    if !starts_with(rust_type, "Option<") {
        return None;
    }
    let chars = chars_of(rust_type);
    let n = chars.len();
    let end: usize = if n > 7 && chars[n - 1] == '>' {
        n - 1
    } else {
        n
    };
    let inner = slice(rust_type, 7, end);
    assert(inner@ == option_inner(rust_type@));
    match try_resolve(inner) {
        Some(m) => {
            let mut surface = String::from_str("std::optional<");
            surface.append(m.target_surface_type.as_str());
            surface.append(">");
            Some(
                TypeMapping {
                    canonical: m.canonical,
                    target_surface_type: surface,
                    dynamic_tag: m.dynamic_tag,
                    slot_width: m.slot_width,
                },
            )
        },
        None => None,
    }
}

/// Resolves a Rust type token. Every token resolves: one that is not known
/// becomes the opaque pointer of one slot.
pub fn resolve(rust_type: &str) -> (m: TypeMapping)
    ensures
        m@ == mapping_of(rust_type@),
        m@.wf(),
{
    proof {
        lemma_mapping_is_well_formed(rust_type@);
    }
    match try_resolve(rust_type) {
        Some(m) => m,
        None => TypeMapping::of_class(CanonicalType::Opaque, "void*"),
    }
}

/// The C++ type of a Rust type token.
pub fn rust_to_cpp_type(rust_type: &str) -> (r: String)
    ensures
        r@ == cpp_type_of(rust_type@),
{
    resolve(rust_type).target_surface_type
}

/// The token that names a type.
pub fn get_type_as_string(ty: &TypeForm) -> (r: String)
    ensures
        r@ == type_string(ty.deep_view()),
{
    match &ty.shape {
        TypeShape::Path(segments) => {
            if segments.len() > 0 {
                assert(segments.deep_view()[0] == segments[0]@);
                if contains_char(ty.tokens.as_str(), '<') {
                    return squeeze(ty.tokens.as_str());
                }
                return segments[0].clone();
            }
        },
        TypeShape::ReferenceToPath(segments) => {
            if segments.len() > 0 {
                assert(segments.deep_view()[0] == segments[0]@);
                return followed_by("&", segments[0].as_str());
            }
        },
        _ => {},
    }
    ty.tokens.clone()
}

/// The signature of a function item, or the warning that stands in for it.
pub fn extract_function_signature(func: &FnItem) -> (r: Result<FunctionSignature, Warning>)
    ensures
        match r {
            Ok(signature) => signature_of(func@) == Ok::<FunctionSignatureView, WarningView>(
                signature@,
            ),
            Err(warning) => signature_of(func@) == Err::<FunctionSignatureView, WarningView>(
                warning@,
            ),
        },
{
    if !has_plain_params(&func.params) {
        return Err(Warning { function: func.name.clone(), reason: SkipReason::UnsupportedPattern });
    }
    let ghost params = func@.params;
    let mut args: Vec<FunctionArg> = Vec::new();
    let n = func.params.len();
    let mut i: usize = 0;
    assert(params.take(0) == Seq::<ParamView>::empty());
    while i < n
        invariant
            n == func.params.len(),
            params == func@.params,
            i <= n,
            args.deep_view() == args_of(params.take(i as int)),
        decreases n - i,
    {
        assert(params.take(i + 1).drop_last() == params.take(i as int));
        assert(params.take(i + 1).last() == func.params[i as int].deep_view());
        match &func.params[i].pattern {
            ParamPattern::Ident(name) => {
                let rust_type = get_type_as_string(&func.params[i].ty);
                let cpp_type = rust_to_cpp_type(rust_type.as_str());
                let ghost before = args.deep_view();
                args.push(FunctionArg { name: name.clone(), rust_type, cpp_type });
                assert(args.deep_view() == before.push(
                    arg_of(name@, func.params[i as int].ty.deep_view()),
                ));
            },
            _ => {},
        }
        i = i + 1;
    }
    assert(params.take(n as int) == params);
    let return_type = match &func.output {
        Some(ty) => get_type_as_string(ty),
        None => String::from_str("()"),
    };
    let cpp_return_type = rust_to_cpp_type(return_type.as_str());
    Ok(FunctionSignature { name: func.name.clone(), args, return_type, cpp_return_type })
}

/// Extracts the marked functions from the items of a file.
pub fn extract_signatures(items: &Vec<Option<FnItem>>) -> (r: Extraction)
    ensures
        r@ == extraction_of(items.deep_view()),
{
    let ghost all = items.deep_view();
    let mut functions: Vec<FunctionSignature> = Vec::new();
    let mut warnings: Vec<Warning> = Vec::new();
    let n = items.len();
    let mut i: usize = 0;
    assert(all.take(0) == Seq::<Option<FnItemView>>::empty());
    while i < n
        invariant
            n == items.len(),
            all == items.deep_view(),
            i <= n,
            functions.deep_view() == extraction_of(all.take(i as int)).functions,
            warnings.deep_view() == extraction_of(all.take(i as int)).warnings,
        decreases n - i,
    {
        assert(all.take(i + 1).drop_last() == all.take(i as int));
        assert(all.take(i + 1).last() == items[i as int].deep_view());
        match &items[i] {
            Some(func) => {
                if has_wasm_bindgen_attribute(&func.attrs) {
                    match extract_function_signature(func) {
                        Ok(signature) => {
                            let ghost before = functions.deep_view();
                            functions.push(signature);
                            assert(functions.deep_view() == before.push(signature@));
                        },
                        Err(warning) => {
                            let ghost before = warnings.deep_view();
                            warnings.push(warning);
                            assert(warnings.deep_view() == before.push(warning@));
                        },
                    }
                }
            },
            None => {},
        }
        i = i + 1;
    }
    assert(all.take(n as int) == all);
    Extraction { functions, warnings }
}

/// Parses Rust source and extracts the marked functions. A text that is
/// not a Rust source file is the only error; a function that cannot be
/// extracted is left out with a warning, and the rest is extracted all the
/// same.
pub fn parse_rust_code(code: &str) -> (r: Result<Extraction, ParseError>)
    ensures
        match parsed_source(code@) {
            Some(items) => r is Ok && r->Ok_0@ == extraction_of(items),
            None => r is Err,
        },
{
    match read_source(code) {
        Ok(items) => Ok(extract_signatures(&items)),
        Err(message) => Err(ParseError::Syntax(message)),
    }
}

/// The extraction from two lists of items, one after the other, is the
/// two extractions, one after the other.
pub proof fn lemma_extraction_of_concatenation(
    first: Seq<Option<FnItemView>>,
    second: Seq<Option<FnItemView>>,
)
    ensures
        extraction_of(first + second).functions == extraction_of(first).functions + extraction_of(
            second,
        ).functions,
        extraction_of(first + second).warnings == extraction_of(first).warnings + extraction_of(
            second,
        ).warnings,
    decreases second.len(),
{
    if second.len() == 0 {
        assert(first + second == first);
    } else {
        lemma_extraction_of_concatenation(first, second.drop_last());
        assert((first + second).drop_last() == first + second.drop_last());
        assert((first + second).last() == second.last());
    }
}

/// A marked function with a parameter that is not bound by a plain name is
/// absent from the functions and recorded as a warning, and the items
/// around it are extracted as if it were not there.
pub proof fn lemma_malformed_function_is_left_out(
    before: Seq<Option<FnItemView>>,
    malformed: FnItemView,
    after: Seq<Option<FnItemView>>,
)
    requires
        has_marker(malformed.attrs, marker()),
        !plain_params(malformed.params),
    ensures
        extraction_of(before + seq![Some(malformed)] + after).functions == extraction_of(
            before + after,
        ).functions,
        extraction_of(before + seq![Some(malformed)] + after).warnings == extraction_of(
            before,
        ).warnings.push(
            WarningView { function: malformed.name, reason: SkipReasonView::UnsupportedPattern },
        ) + extraction_of(after).warnings,
{
    let single = seq![Some(malformed)];
    assert(single.drop_last() == Seq::<Option<FnItemView>>::empty());
    assert(extraction_of(single.drop_last()).functions == Seq::<FunctionSignatureView>::empty());
    assert(extraction_of(single).functions == Seq::<FunctionSignatureView>::empty());
    assert(extraction_of(single).warnings == seq![
        WarningView { function: malformed.name, reason: SkipReasonView::UnsupportedPattern },
    ]);
    lemma_extraction_of_concatenation(before, single);
    lemma_extraction_of_concatenation(before + single, after);
    lemma_extraction_of_concatenation(before, after);
}

/// No type stops an extraction: a marked function whose parameters are
/// bound by plain names has a signature whatever their types are, and a
/// type that does not resolve is the opaque pointer in it.
pub proof fn lemma_unsupported_type_is_extracted(f: FnItemView, token: Seq<char>)
    requires
        plain_params(f.params),
    ensures
        signature_of(f) is Ok,
        resolved(token) is None ==> mapping_of(token) == opaque_mapping() && cpp_type_of(token)
            == "void*"@,
{
}

} // verus!

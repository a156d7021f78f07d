//! Extraction of the functions declared after `EMSCRIPTEN_KEEPALIVE` from
//! C++ source, by a pattern over the text.

use crate::text::{join_first, joined, split, split_on, split_words, trim, trimmed, words};
use crate::warning::{SkipReason, SkipReasonView, Warning, WarningView};
use vstd::prelude::*;

verus! {

/// One exported C++ function: its name, its return type, and its
/// parameters as `(type, name)` pairs in declaration order.
#[derive(Clone, Debug, PartialEq, Eq)]
pub struct CppFunction {
    pub name: String,
    pub return_type: String,
    pub parameters: Vec<(String, String)>,
}

/// Mathematical model of a [`CppFunction`].
pub struct CppFunctionView {
    pub name: Seq<char>,
    pub return_type: Seq<char>,
    pub parameters: Seq<(Seq<char>, Seq<char>)>,
}

/// What an extraction gives: the exported functions, in the order of their
/// declarations, and a warning for each declaration that was left out.
#[derive(Clone, Debug, PartialEq, Eq)]
pub struct CppExtraction {
    pub functions: Vec<CppFunction>,
    pub warnings: Vec<Warning>,
}

/// Mathematical model of a [`CppExtraction`].
pub struct CppExtractionView {
    pub functions: Seq<CppFunctionView>,
    pub warnings: Seq<WarningView>,
}

/// The pattern of a declaration was not accepted by the pattern engine.
#[derive(Clone, Copy, Debug, PartialEq, Eq)]
pub struct PatternError;

impl View for CppFunction {
    type V = CppFunctionView;

    open spec fn view(&self) -> CppFunctionView {
        CppFunctionView {
            name: self.name@,
            return_type: self.return_type@,
            parameters: self.parameters.deep_view(),
        }
    }
}

impl DeepView for CppFunction {
    type V = CppFunctionView;

    open spec fn deep_view(&self) -> CppFunctionView {
        self.view()
    }
}

impl View for CppExtraction {
    type V = CppExtractionView;

    open spec fn view(&self) -> CppExtractionView {
        CppExtractionView {
            functions: self.functions.deep_view(),
            warnings: self.warnings.deep_view(),
        }
    }
}

/// The shape of an exported declaration: the marker, a return type, a
/// name, and a parameter list in parentheses, with white space between
/// them. The groups are the return type, the name and the parameter list.
pub open spec fn declaration_pattern() -> Seq<char> {
    r"(?m)EMSCRIPTEN_KEEPALIVE\s+([a-zA-Z_][a-zA-Z0-9_:<>]*)\s+([a-zA-Z_][a-zA-Z0-9_]*)\s*\(([^)]*)\)"@
}

/// All matches of a pattern in a text that do not overlap, from the left,
/// as the `regex` crate finds them: for each match its groups in order,
/// the whole match first, each with the text it matched or `None` where it
/// took no part. `None` where the crate does not accept the pattern.
pub uninterp spec fn regex_captures(pattern: Seq<char>, text: Seq<char>) -> Option<
    Seq<Seq<Option<Seq<char>>>>,
>;

/// Compiles the pattern (`Regex::new`) and walks `captures_iter` over the
/// text; each match gives the texts of its groups (`Captures::iter`,
/// `Match::as_str`).
#[verifier::external_body]
fn capture_all(pattern: &str, text: &str) -> (r: Option<Vec<Vec<Option<String>>>>)
    ensures
        r.deep_view() == regex_captures(pattern@, text@),
{
    let re = regex::Regex::new(pattern).ok()?;
    Some(
        re.captures_iter(text).map(
            |c| c.iter().map(|group| group.map(|m| m.as_str().to_string())).collect(),
        ).collect(),
    )
}

/// One parameter as written: its last word is the name, the words before
/// it, joined by single blanks, are the type. Fewer than two words are no
/// parameter.
pub open spec fn parameter_of(text: Seq<char>) -> Option<(Seq<char>, Seq<char>)> {
    let parts = words(text);
    if parts.len() >= 2 {
        Some((joined(parts.drop_last(), " "@), parts.last()))
    } else {
        None
    }
}

/// The parameters of the pieces of a parameter list, in order, or the
/// first piece that is no parameter.
pub open spec fn parameters_of_pieces(pieces: Seq<Seq<char>>) -> Result<
    Seq<(Seq<char>, Seq<char>)>,
    Seq<char>,
>
    decreases pieces.len(),
{
    if pieces.len() == 0 {
        Ok(Seq::empty())
    } else {
        match parameters_of_pieces(pieces.drop_last()) {
            Ok(before) => match parameter_of(pieces.last()) {
                Some(parameter) => Ok(before.push(parameter)),
                None => Err(pieces.last()),
            },
            Err(piece) => Err(piece),
        }
    }
}

/// The parameters of a parameter list: none where the list is blank,
/// otherwise those of its pieces between commas.
pub open spec fn parameters_of(list: Seq<char>) -> Result<Seq<(Seq<char>, Seq<char>)>, Seq<char>> {
    if trimmed(list).len() == 0 {
        Ok(Seq::empty())
    } else {
        parameters_of_pieces(split_on(trimmed(list), ','))
    }
}

/// Whether a match has the three groups of a declaration.
pub open spec fn is_declaration(groups: Seq<Option<Seq<char>>>) -> bool {
    groups.len() >= 4 && groups[1] is Some && groups[2] is Some && groups[3] is Some
}

/// The function of a declaration, or the warning that stands in for it: a
/// declaration with a piece that is no parameter is left out as a whole.
pub open spec fn function_of(groups: Seq<Option<Seq<char>>>) -> Result<CppFunctionView, WarningView> {
    match parameters_of(groups[3]->0) {
        Ok(parameters) => Ok(
            CppFunctionView {
                name: trimmed(groups[2]->0),
                return_type: trimmed(groups[1]->0),
                parameters,
            },
        ),
        Err(piece) => Err(
            WarningView {
                function: trimmed(groups[2]->0),
                reason: SkipReasonView::UnparsableParameter(piece),
            },
        ),
    }
}

/// The extraction from the matches of the declaration pattern: each match
/// with the three groups gives its function or its warning, in the order
/// of the matches.
pub open spec fn extraction_of(matches: Seq<Seq<Option<Seq<char>>>>) -> CppExtractionView
    decreases matches.len(),
{
    if matches.len() == 0 {
        CppExtractionView { functions: Seq::empty(), warnings: Seq::empty() }
    } else {
        let before = extraction_of(matches.drop_last());
        if is_declaration(matches.last()) {
            match function_of(matches.last()) {
                Ok(function) => CppExtractionView {
                    functions: before.functions.push(function),
                    warnings: before.warnings,
                },
                Err(warning) => CppExtractionView {
                    functions: before.functions,
                    warnings: before.warnings.push(warning),
                },
            }
        } else {
            before
        }
    }
}

/// One parameter as written, if it is one.
pub fn parse_parameter(text: &str) -> (r: Option<(String, String)>)
    ensures
        r.deep_view() == parameter_of(text@),
{
    let parts = split_words(text);
    let n = parts.len();
    if n >= 2 {
        let ty = join_first(&parts, n - 1, " ");
        assert(parts.deep_view().take(n - 1) == parts.deep_view().drop_last());
        assert(parts.deep_view().last() == parts[n - 1]@);
        Some((ty, parts[n - 1].clone()))
    } else {
        None
    }
}

/// The parameters of a parameter list, or the first piece that is no
/// parameter.
pub fn parse_parameters(list: &str) -> (r: Result<Vec<(String, String)>, String>)
    ensures
        match r {
            Ok(parameters) => parameters_of(list@) == Ok::<
                Seq<(Seq<char>, Seq<char>)>,
                Seq<char>,
            >(parameters.deep_view()),
            Err(piece) => parameters_of(list@) == Err::<Seq<(Seq<char>, Seq<char>)>, Seq<char>>(
                piece@,
            ),
        },
{
    let mut parameters: Vec<(String, String)> = Vec::new();
    let inner = trim(list);
    if inner.is_empty() {
        assert(parameters.deep_view() == Seq::<(Seq<char>, Seq<char>)>::empty());
        return Ok(parameters);
    }
    let pieces = split(inner, ',');
    let ghost all = pieces.deep_view();
    let n = pieces.len();
    let mut i: usize = 0;
    assert(all.take(0) == Seq::<Seq<char>>::empty());
    assert(parameters.deep_view() == Seq::<(Seq<char>, Seq<char>)>::empty());
    while i < n
        invariant
            n == pieces.len(),
            all == pieces.deep_view(),
            all == split_on(trimmed(list@), ','),
            trimmed(list@).len() > 0,
            i <= n,
            parameters_of_pieces(all.take(i as int)) == Ok::<
                Seq<(Seq<char>, Seq<char>)>,
                Seq<char>,
            >(parameters.deep_view()),
        decreases n - i,
    {
        assert(all.take(i + 1).drop_last() == all.take(i as int));
        assert(all.take(i + 1).last() == pieces[i as int]@);
        match parse_parameter(pieces[i].as_str()) {
            Some(parameter) => {
                let ghost before = parameters.deep_view();
                parameters.push(parameter);
                assert(parameters.deep_view() == before.push(parameter.deep_view()));
            },
            None => {
                proof {
                    assert(parameter_of(all.take(i + 1).last()) is None);
                    assert(parameters_of_pieces(all.take(i + 1)) == Err::<
                        Seq<(Seq<char>, Seq<char>)>,
                        Seq<char>,
                    >(pieces[i as int]@));
                    lemma_failure_stays(all, i + 1);
                }
                return Err(pieces[i].clone());
            },
        }
        i = i + 1;
    }
    assert(all.take(n as int) == all);
    Ok(parameters)
}

/// Once a piece is no parameter, no longer list of pieces has parameters,
/// and the piece reported stays the same.
proof fn lemma_failure_stays(pieces: Seq<Seq<char>>, k: int)
    requires
        0 <= k <= pieces.len(),
        parameters_of_pieces(pieces.take(k)) is Err,
    ensures
        parameters_of_pieces(pieces) == parameters_of_pieces(pieces.take(k)),
    decreases pieces.len() - k,
{
    if k < pieces.len() {
        assert(pieces.take(k + 1).drop_last() == pieces.take(k));
        lemma_failure_stays(pieces, k + 1);
    } else {
        assert(pieces.take(k) == pieces);
    }
}

/// The function of a declaration, or the warning that stands in for it.
pub fn declared_function(return_type: &str, name: &str, list: &str) -> (r: Result<
    CppFunction,
    Warning,
>)
    ensures
        match r {
            Ok(function) => function_of(seq![None, Some(return_type@), Some(name@), Some(list@)])
                == Ok::<CppFunctionView, WarningView>(function@),
            Err(warning) => function_of(seq![None, Some(return_type@), Some(name@), Some(list@)])
                == Err::<CppFunctionView, WarningView>(warning@),
        },
{
    let name = String::from_str(trim(name));
    match parse_parameters(list) {
        Ok(parameters) => Ok(
            CppFunction { name, return_type: String::from_str(trim(return_type)), parameters },
        ),
        Err(piece) => Err(Warning { function: name, reason: SkipReason::UnparsableParameter(piece) }),
    }
}

/// Extracts the exported functions from the matches of the declaration
/// pattern.
pub fn extract_functions(matches: &Vec<Vec<Option<String>>>) -> (r: CppExtraction)
    ensures
        r@ == extraction_of(matches.deep_view()),
{
    let ghost all = matches.deep_view();
    let mut functions: Vec<CppFunction> = Vec::new();
    let mut warnings: Vec<Warning> = Vec::new();
    let n = matches.len();
    let mut i: usize = 0;
    assert(all.take(0) == Seq::<Seq<Option<Seq<char>>>>::empty());
    while i < n
        invariant
            n == matches.len(),
            all == matches.deep_view(),
            i <= n,
            functions.deep_view() == extraction_of(all.take(i as int)).functions,
            warnings.deep_view() == extraction_of(all.take(i as int)).warnings,
        decreases n - i,
    {
        assert(all.take(i + 1).drop_last() == all.take(i as int));
        assert(all.take(i + 1).last() == matches[i as int].deep_view());
        let groups = &matches[i];
        let ghost g = groups.deep_view();
        if groups.len() >= 4 {
            assert(g[1] == groups[1].deep_view());
            assert(g[2] == groups[2].deep_view());
            assert(g[3] == groups[3].deep_view());
            match (&groups[1], &groups[2], &groups[3]) {
                (Some(return_type), Some(name), Some(list)) => {
                    assert(function_of(g) == function_of(
                        seq![None, Some(return_type@), Some(name@), Some(list@)],
                    ));
                    match declared_function(return_type.as_str(), name.as_str(), list.as_str()) {
                        Ok(function) => {
                            let ghost before = functions.deep_view();
                            functions.push(function);
                            assert(functions.deep_view() == before.push(function@));
                        },
                        Err(warning) => {
                            let ghost before = warnings.deep_view();
                            warnings.push(warning);
                            assert(warnings.deep_view() == before.push(warning@));
                        },
                    }
                },
                _ => {},
            }
        }
        i = i + 1;
    }
    assert(all.take(n as int) == all);
    CppExtraction { functions, warnings }
}

/// Scans C++ source for exported declarations and extracts their
/// functions. A declaration that cannot be extracted is left out with a
/// warning, and the rest is extracted all the same.
pub fn parse_exported_functions(source: &str) -> (r: Result<CppExtraction, PatternError>)
    ensures
        match regex_captures(declaration_pattern(), source@) {
            Some(matches) => r is Ok && r->Ok_0@ == extraction_of(matches),
            None => r is Err,
        },
{
    let pattern =
        r"(?m)EMSCRIPTEN_KEEPALIVE\s+([a-zA-Z_][a-zA-Z0-9_:<>]*)\s+([a-zA-Z_][a-zA-Z0-9_]*)\s*\(([^)]*)\)";
    match capture_all(pattern, source) {
        Some(matches) => Ok(extract_functions(&matches)),
        None => Err(PatternError),
    }
}

/// The extraction from two lists of matches, one after the other, is the
/// two extractions, one after the other.
pub proof fn lemma_extraction_of_concatenation(
    first: Seq<Seq<Option<Seq<char>>>>,
    second: Seq<Seq<Option<Seq<char>>>>,
)
    ensures
        extraction_of(first + second).functions == extraction_of(first).functions + extraction_of(
            second,
        ).functions,
        extraction_of(first + second).warnings == extraction_of(first).warnings + extraction_of(
            second,
        ).warnings,
    decreases second.len(),
{
    if second.len() == 0 {
        assert(first + second == first);
    } else {
        lemma_extraction_of_concatenation(first, second.drop_last());
        assert((first + second).drop_last() == first + second.drop_last());
        assert((first + second).last() == second.last());
    }
}

/// A declaration with a piece that is no parameter is absent from the
/// functions and recorded as a warning, and the declarations around it
/// are extracted as if it were not there.
pub proof fn lemma_malformed_declaration_is_left_out(
    before: Seq<Seq<Option<Seq<char>>>>,
    malformed: Seq<Option<Seq<char>>>,
    after: Seq<Seq<Option<Seq<char>>>>,
)
    requires
        is_declaration(malformed),
        parameters_of(malformed[3]->0) is Err,
    ensures
        extraction_of(before + seq![malformed] + after).functions == extraction_of(
            before + after,
        ).functions,
        extraction_of(before + seq![malformed] + after).warnings == extraction_of(
            before,
        ).warnings.push(function_of(malformed)->Err_0) + extraction_of(after).warnings,
{
    let single = seq![malformed];
    assert(single.drop_last() == Seq::<Seq<Option<Seq<char>>>>::empty());
    assert(extraction_of(single.drop_last()).functions == Seq::<CppFunctionView>::empty());
    assert(extraction_of(single).functions == Seq::<CppFunctionView>::empty());
    assert(extraction_of(single).warnings == seq![function_of(malformed)->Err_0]);
    lemma_extraction_of_concatenation(before, single);
    lemma_extraction_of_concatenation(before + single, after);
    lemma_extraction_of_concatenation(before, after);
}

} // verus!

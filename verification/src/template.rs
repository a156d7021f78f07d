//! The data that a template is rendered with, as a tree of texts, numbers,
//! lists and records, and the rendering itself, which Handlebars does.

use crate::text::chars_of;
use handlebars::{Context, Handlebars, Helper, HelperResult, Output, RenderContext};
use vstd::prelude::*;

verus! {

/// A value of a template's context.
#[derive(Debug, PartialEq, Eq)]
pub enum ContextValue {
    Text(String),
    Number(usize),
    List(Vec<ContextValue>),
    /// Fields by key, in the order in which they were set; where a key
    /// occurs twice, the later field stands.
    Record(Vec<(String, ContextValue)>),
}

/// Mathematical model of a [`ContextValue`].
pub enum ContextModel {
    Text(Seq<char>),
    Number(nat),
    List(Seq<ContextModel>),
    Record(Seq<(Seq<char>, ContextModel)>),
}

/// What a context value is to the renderer: as [`ContextModel`], but a
/// record is a map from keys to values, so that the order of its fields
/// does not count and a key has one value.
pub enum JsonModel {
    Text(Seq<char>),
    Number(nat),
    List(Seq<JsonModel>),
    Record(Map<Seq<char>, JsonModel>),
}

/// Why no text was rendered.
#[derive(Clone, Debug, PartialEq, Eq)]
pub enum RenderError {
    /// The template has a partial or a decorator tag, which this library
    /// does not render.
    Partials,
    /// The template is not well formed; with the parser's message.
    Template(String),
    /// The template could not be rendered with the data; with the
    /// renderer's message.
    Render(String),
}

/// The kind of a failure, without the message that comes with it.
#[derive(Clone, Copy, Debug, PartialEq, Eq, Structural)]
pub enum FailureKind {
    Partials,
    Template,
    Render,
}

/// The kind of a failure. The message is for people: nothing is stated of
/// it, and it is no part of any contract.
pub open spec fn kind_of(error: RenderError) -> FailureKind {
    match error {
        RenderError::Partials => FailureKind::Partials,
        RenderError::Template(_) => FailureKind::Template,
        RenderError::Render(_) => FailureKind::Render,
    }
}

impl RenderError {
    /// The kind of this failure.
    pub fn kind(&self) -> (kind: FailureKind)
        ensures
            kind == kind_of(*self),
    {
        match self {
            RenderError::Partials => FailureKind::Partials,
            RenderError::Template(_) => FailureKind::Template,
            RenderError::Render(_) => FailureKind::Render,
        }
    }

    /// The failure of a template that is not well formed, with the message
    /// that `reason` prints.
    fn template_failure<E: std::fmt::Display>(reason: E) -> (error: RenderError)
        ensures
            match error {
                RenderError::Template(message) => vstd::string::to_string_from_display_ensures::<E>(
                    &reason,
                    message,
                ),
                _ => false,
            },
    {
        RenderError::Template(reason.to_string())
    }

    /// The failure of a rendering, with the message that `reason` prints.
    fn render_failure<E: std::fmt::Display>(reason: E) -> (error: RenderError)
        ensures
            match error {
                RenderError::Render(message) => vstd::string::to_string_from_display_ensures::<E>(
                    &reason,
                    message,
                ),
                _ => false,
            },
    {
        RenderError::Render(reason.to_string())
    }
}

/// The map that a list of fields stands for: each field is set in turn, so
/// that a later field replaces an earlier one of the same key.
pub open spec fn fields_map(fields: Seq<(Seq<char>, JsonModel)>) -> Map<Seq<char>, JsonModel>
    decreases fields.len(),
{
    if fields.len() == 0 {
        Map::empty()
    } else {
        fields_map(fields.drop_last()).insert(fields.last().0, fields.last().1)
    }
}

/// What a context value is to the renderer.
pub open spec fn json_of(value: ContextModel) -> JsonModel
    decreases value,
{
    match value {
        ContextModel::Text(text) => JsonModel::Text(text),
        ContextModel::Number(n) => JsonModel::Number(n),
        ContextModel::List(items) => JsonModel::List(
            Seq::new(
                items.len(),
                |i: int|
                    if 0 <= i < items.len() {
                        json_of(items[i])
                    } else {
                        JsonModel::Number(0)
                    },
            ),
        ),
        ContextModel::Record(fields) => JsonModel::Record(
            fields_map(
                Seq::new(
                    fields.len(),
                    |i: int|
                        if 0 <= i < fields.len() {
                            (fields[i].0, json_of(fields[i].1))
                        } else {
                            (Seq::<char>::empty(), JsonModel::Number(0))
                        },
                ),
            ),
        ),
    }
}

impl ContextValue {
    /// What this value stands for.
    pub open spec fn model(self) -> ContextModel
        decreases self,
    {
        match self {
            ContextValue::Text(text) => ContextModel::Text(text@),
            ContextValue::Number(n) => ContextModel::Number(n as nat),
            ContextValue::List(items) => ContextModel::List(
                Seq::new(
                    items@.len(),
                    |i: int|
                        if 0 <= i < items@.len() {
                            items@[i].model()
                        } else {
                            ContextModel::Number(0)
                        },
                ),
            ),
            ContextValue::Record(fields) => ContextModel::Record(
                Seq::new(
                    fields@.len(),
                    |i: int|
                        if 0 <= i < fields@.len() {
                            (fields@[i].0@, fields@[i].1.model())
                        } else {
                            (Seq::<char>::empty(), ContextModel::Number(0))
                        },
                ),
            ),
        }
    }
}

/// The models of a list of values, in order.
pub open spec fn models(items: Seq<ContextValue>) -> Seq<ContextModel> {
    Seq::new(items.len(), |i: int| items[i].model())
}

/// The models of a list of fields, in order.
pub open spec fn field_models(fields: Seq<(String, ContextValue)>) -> Seq<
    (Seq<char>, ContextModel),
> {
    Seq::new(fields.len(), |i: int| (fields[i].0@, fields[i].1.model()))
}

/// A list stands for the list of what its items stand for.
pub proof fn lemma_list_model(items: Vec<ContextValue>)
    ensures
        ContextValue::List(items).model() == ContextModel::List(models(items@)),
{
    assert(ContextValue::List(items).model()->List_0 =~= models(items@));
}

/// A record stands for the record of what its fields stand for.
pub proof fn lemma_record_model(fields: Vec<(String, ContextValue)>)
    ensures
        ContextValue::Record(fields).model() == ContextModel::Record(field_models(fields@)),
{
    assert(ContextValue::Record(fields).model()->Record_0 =~= field_models(fields@));
}

#[verifier::external_type_specification]
#[verifier::external_body]
pub struct ExJsonValue(serde_json::Value);

/// What a JSON value holds, for the values that [`ContextValue`]s become:
/// a string its text, a non-negative integer its number, an array its
/// items, an object its members by key.
pub uninterp spec fn json_content(value: serde_json::Value) -> JsonModel;

/// Whether `c` may stand between the braces that open a tag and the sign
/// that says what kind of tag it is.
pub open spec fn is_tag_filler(c: char) -> bool {
    c == ' ' || c == '\t' || c == '\n' || c == '\r' || c == '~' || c == '#'
}

/// The first character at or after position `i` that is no filler, if
/// there is one.
pub open spec fn sign_at(template: Seq<char>, i: int) -> Option<char>
    decreases template.len() - i,
{
    if i < 0 || i >= template.len() {
        None
    } else if is_tag_filler(template[i]) {
        sign_at(template, i + 1)
    } else {
        Some(template[i])
    }
}

/// Whether two braces at position `i` open a partial or a decorator: the
/// sign after them is `>` or `*`.
pub open spec fn opens_partial(template: Seq<char>, i: int) -> bool {
    &&& 0 <= i
    &&& i + 1 < template.len()
    &&& template[i] == '{'
    &&& template[i + 1] == '{'
    &&& (sign_at(template, i + 2) == Some('>') || sign_at(template, i + 2) == Some('*'))
}

/// Whether a template has a place that may be a partial or a decorator
/// tag. The scan is on the text alone and errs on the side of finding one:
/// it also finds such a place in a comment or behind an escape.
pub open spec fn uses_partials(template: Seq<char>) -> bool {
    exists|i: int| opens_partial(template, i)
}

/// What Handlebars makes of a template without partials or decorators
/// that is registered under `name` in a fresh registry and rendered with
/// data of the given content: the text, or the kind of the failure
/// (`Template` where the template does not parse, `Render` where it cannot
/// be rendered). With `with_get`, the registry also has the helper `get`:
/// `{{get list index}}` writes the item of the list at
/// [`picked_position`] as JSON text, and nothing where there is no such
/// item or no list.
pub uninterp spec fn render_result(
    with_get: bool,
    name: Seq<char>,
    template: Seq<char>,
    context: JsonModel,
) -> Result<Seq<char>, FailureKind>;

/// The text of a template, or why there is none: a template that uses
/// partials is not rendered, any other is rendered by Handlebars with its
/// built-in helpers.
pub open spec fn rendered(name: Seq<char>, template: Seq<char>, context: JsonModel) -> Result<
    Seq<char>,
    FailureKind,
> {
    if uses_partials(template) {
        Err(FailureKind::Partials)
    } else {
        render_result(false, name, template, context)
    }
}

/// As [`rendered`], with the helper `get` beside the built-in helpers.
pub open spec fn rendered_with_get(
    name: Seq<char>,
    template: Seq<char>,
    context: JsonModel,
) -> Result<Seq<char>, FailureKind> {
    if uses_partials(template) {
        Err(FailureKind::Partials)
    } else {
        render_result(true, name, template, context)
    }
}

/// What a rendering gave: the text, or the kind of the failure.
pub open spec fn outcome(result: Result<String, RenderError>) -> Result<Seq<char>, FailureKind> {
    match result {
        Ok(text) => Ok(text@),
        Err(error) => Err(kind_of(error)),
    }
}

/// The position that the `get` helper reads in a list of `len` items when
/// it is given `index`, which stands for 0 where it is missing: that
/// position if the list has it, else none.
pub open spec fn picked_position(len: nat, index: Option<u64>) -> Option<nat> {
    let position = match index {
        Some(i) => i as nat,
        None => 0,
    };
    if position < len {
        Some(position)
    } else {
        None
    }
}

/// The position that the `get` helper reads.
pub fn picked(len: usize, index: Option<u64>) -> (r: Option<usize>)
    ensures
        match r {
            Some(position) => picked_position(len as nat, index) == Some(position as nat),
            None => picked_position(len as nat, index) is None,
        },
{
    let position: u64 = match index {
        Some(i) => i,
        None => 0,
    };
    if position < len as u64 {
        Some(position as usize)
    } else {
        None
    }
}

/// Builds the `serde_json::Value` of the same shape: `Value::from` for a
/// text and for a number, an array collected from the converted items, and
/// an object into which `Map::insert` puts the converted fields one by
/// one, so that a later field replaces an earlier one of the same key. The
/// content of the result is what `value` is to the renderer.
#[verifier::external_body]
fn to_json(value: &ContextValue) -> (json: serde_json::Value)
    ensures
        json_content(json) == json_of(value.model()),
{
    match value {
        ContextValue::Text(text) => serde_json::Value::from(text.as_str()),
        ContextValue::Number(n) => serde_json::Value::from(*n),
        ContextValue::List(items) => items.iter().map(to_json).collect(),
        ContextValue::Record(fields) => {
            let mut object = serde_json::Map::new();
            fields.iter().for_each(|f| drop(object.insert(f.0.clone(), to_json(&f.1))));
            serde_json::Value::Object(object)
        },
    }
}

/// Registers `template` under `name` in a fresh `Handlebars`
/// (`Handlebars::new`, `register_template_string`) and renders it with
/// `context` (`render`). The text, or which of the two calls failed, is a
/// function of the name, the template and the content of the context; the
/// message of a failure is passed on as Handlebars gives it.
#[verifier::external_body]
fn render_json(name: &str, template: &str, context: &serde_json::Value) -> (result: Result<
    String,
    RenderError,
>)
    requires
        !uses_partials(template@),
    ensures
        outcome(result) == render_result(false, name@, template@, json_content(*context)),
{
    let mut registry = Handlebars::new();
    registry.register_template_string(name, template).map_err(RenderError::template_failure)?;
    registry.render(name, context).map_err(RenderError::render_failure)
}

/// As [`render_json`], after `register_helper` has added the helper `get`
/// to the fresh registry. The helper reads its first parameter as an array
/// and its second as an index, asks [`picked`] for the position, and
/// writes that item's JSON text, or nothing.
#[verifier::external_body]
fn render_json_with_get(name: &str, template: &str, context: &serde_json::Value) -> (result: Result<
    String,
    RenderError,
>)
    requires
        !uses_partials(template@),
    ensures
        outcome(result) == render_result(true, name@, template@, json_content(*context)),
{
    let mut registry = Handlebars::new();
    registry.register_helper(
        "get",
        Box::new(
            |h: &Helper, _: &Handlebars, _: &Context, _: &mut RenderContext, out: &mut dyn Output|
             -> HelperResult {
                let list = h.param(0).and_then(|p| p.value().as_array());
                let index = h.param(1).and_then(|p| p.value().as_u64());
                let item = list.and_then(|l| picked(l.len(), index).map(|i| l[i].to_string()));
                Ok(out.write(&item.unwrap_or_default())?)
            },
        ),
    );
    registry.register_template_string(name, template).map_err(RenderError::template_failure)?;
    registry.render(name, context).map_err(RenderError::render_failure)
}

/// Whether a template has a place that may be a partial or a decorator
/// tag.
pub fn has_partials(template: &str) -> (r: bool)
    ensures
        r == uses_partials(template@),
{
    let t = chars_of(template);
    let n = t.len();
    let mut i: usize = 0;
    while i < n
        invariant
            t@ == template@,
            n == t.len(),
            i <= n,
            forall|k: int| 0 <= k < i ==> !opens_partial(template@, k),
        decreases n - i,
    {
        if t[i] == '{' && i + 1 < n && t[i + 1] == '{' {
            let mut j: usize = i + 2;
            while j < n && (t[j] == ' ' || t[j] == '\t' || t[j] == '\n' || t[j] == '\r' || t[j]
                == '~' || t[j] == '#')
                invariant
                    t@ == template@,
                    n == t.len(),
                    i + 2 <= j <= n,
                    sign_at(template@, i + 2) == sign_at(template@, j as int),
                decreases n - j,
            {
                j = j + 1;
            }
            if j < n && (t[j] == '>' || t[j] == '*') {
                assert(opens_partial(template@, i as int));
                return true;
            }
        }
        i = i + 1;
    }
    assert forall|k: int| !opens_partial(template@, k) by {
        if 0 <= k && k + 1 < n {
            assert(!opens_partial(template@, k));
        }
    }
    false
}

/// Renders `template`, registered under `name`, with `context`.
pub fn render(name: &str, template: &str, context: &ContextValue) -> (result: Result<
    String,
    RenderError,
>)
    ensures
        outcome(result) == rendered(name@, template@, json_of(context.model())),
{
    if has_partials(template) {
        return Err(RenderError::Partials);
    }
    let json = to_json(context);
    render_json(name, template, &json)
}

/// A text value holding `text`.
pub fn text_value(text: &str) -> (value: ContextValue)
    ensures
        value.model() == ContextModel::Text(text@),
{
    ContextValue::Text(String::from_str(text))
}

/// A field of a record.
pub fn field(key: &str, value: ContextValue) -> (f: (String, ContextValue))
    ensures
        f.0@ == key@,
        f.1 == value,
{
    (String::from_str(key), value)
}

/// Renders `template`, registered under `name`, with `context`; the
/// template may use the helper `get`.
pub fn render_with_get(name: &str, template: &str, context: &ContextValue) -> (result: Result<
    String,
    RenderError,
>)
    ensures
        outcome(result) == rendered_with_get(name@, template@, json_of(context.model())),
{
    if has_partials(template) {
        return Err(RenderError::Partials);
    }
    let json = to_json(context);
    render_json_with_get(name, template, &json)
}

} // verus!

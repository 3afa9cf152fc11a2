//! The rendering boundary: JSON documents for the template engine, and the
//! calls that render a template against one.

use vstd::prelude::*;
use crate::error::CtGenError;
use crate::error::CtGenErrorKind;
use crate::task::answer::CtGenAnswer;
use crate::task::answer::CtGenAnswerView;
use crate::text::texts;

verus! {

/// `serde_json::Value`: a JSON value. What it holds is known only through
/// the functions below that make one.
#[verifier::external_type_specification]
#[verifier::external_body]
pub struct ExJsonValue(serde_json::Value);

/// `handlebars::Handlebars`: the template engine with its templates and
/// helpers. Nothing is known of what it holds.
#[verifier::external_type_specification]
#[verifier::external_body]
pub struct ExHandlebars<'reg>(handlebars::Handlebars<'reg>);

/// `handlebars::RenderError`: why a render failed. Nothing is known of
/// what it holds.
#[verifier::external_type_specification]
#[verifier::external_body]
pub struct ExRenderError(handlebars::RenderError);

/// The JSON string with the content `text`.
pub uninterp spec fn json_string_value(text: Seq<char>) -> serde_json::Value;

/// The JSON array with the elements `items`, in order.
pub uninterp spec fn json_array_value(items: Seq<serde_json::Value>) -> serde_json::Value;

/// The JSON object built by inserting `members` in order, a later member
/// replacing an earlier one of the same key.
pub uninterp spec fn json_object_value(
    members: Seq<(Seq<char>, serde_json::Value)>,
) -> serde_json::Value;

/// The JSON value that stands for `value`: the value itself where there is
/// one, and the JSON null value where there is none.
pub uninterp spec fn json_optional_value(value: Option<serde_json::Value>) -> serde_json::Value;

/// The members of an object with their keys as text.
pub open spec fn json_members(entries: Seq<(String, serde_json::Value)>) -> Seq<
    (Seq<char>, serde_json::Value),
> {
    entries.map_values(|e: (String, serde_json::Value)| (e.0@, e.1))
}

/// The JSON strings with the contents `items`.
pub open spec fn json_strings(items: Seq<Seq<char>>) -> Seq<serde_json::Value> {
    items.map_values(|t: Seq<char>| json_string_value(t))
}

/// The JSON value of an answer: a string, or an array of strings.
pub open spec fn answer_json(answer: CtGenAnswerView) -> serde_json::Value {
    match answer {
        CtGenAnswerView::Text(t) => json_string_value(t),
        CtGenAnswerView::List(l) => json_array_value(json_strings(l)),
    }
}

/// `serde_json::Value::from(&str)`: the JSON string that holds a copy of `text`.
#[verifier::external_body]
pub(crate) fn json_string(text: &str) -> (r: serde_json::Value)
    ensures
        r == json_string_value(text@),
{
    serde_json::Value::from(text)
}

/// `serde_json::Value::from(Vec<Value>)`: the JSON array that holds `items` in order.
#[verifier::external_body]
pub(crate) fn json_array(items: Vec<serde_json::Value>) -> (r: serde_json::Value)
    ensures
        r == json_array_value(items@),
{
    serde_json::Value::from(items)
}

/// `serde_json::Map::from_iter`, wrapped in `Value::Object`: the JSON object
/// that results from inserting `entries` in order.
#[verifier::external_body]
pub(crate) fn json_object(entries: Vec<(String, serde_json::Value)>) -> (r: serde_json::Value)
    ensures
        r == json_object_value(json_members(entries@)),
{
    serde_json::Value::Object(entries.into_iter().collect())
}

/// `serde_json::Value::from(Option<Value>)`: the value itself where there
/// is one, and the JSON null value where there is none.
#[verifier::external_body]
pub(crate) fn json_optional(value: Option<serde_json::Value>) -> (r: serde_json::Value)
    ensures
        r == json_optional_value(value),
        value is Some ==> r == value->0,
{
    serde_json::Value::from(value)
}

/// `serde_json::Value::clone`: a copy that equals the value.
#[verifier::external_body]
pub(crate) fn json_clone(value: &serde_json::Value) -> (r: serde_json::Value)
    ensures
        r == *value,
{
    value.clone()
}

/// `Handlebars::render_template`: renders the template text `template`
/// against `data`. What comes out depends on the helpers and partials that
/// the engine holds, so nothing is claimed of it.
#[verifier::external_body]
pub(crate) fn render_inline(
    engine: &handlebars::Handlebars<'static>,
    template: &str,
    data: &serde_json::Value,
) -> (r: Result<String, handlebars::RenderError>) {
    engine.render_template(template, data)
}

/// `Handlebars::render`: renders the registered template `name` against
/// `data`. What comes out depends on what the engine holds, so nothing is
/// claimed of it.
#[verifier::external_body]
pub(crate) fn render_named(
    engine: &handlebars::Handlebars<'static>,
    name: &str,
    data: &serde_json::Value,
) -> (r: Result<String, handlebars::RenderError>) {
    engine.render(name, data)
}

/// The `Display` form of a `handlebars::RenderError`. Nothing is claimed of it.
#[verifier::external_body]
pub(crate) fn render_error_text(error: &handlebars::RenderError) -> (r: String) {
    error.to_string()
}

/// The JSON strings of a list of texts.
pub fn json_texts(items: &Vec<String>) -> (r: Vec<serde_json::Value>)
    ensures
        r@ == json_strings(texts(items@)),
{
    let mut out: Vec<serde_json::Value> = Vec::new();
    let mut i: usize = 0;
    while i < items.len()
        invariant
            i <= items@.len(),
            out@.len() == i,
            forall|j: int| 0 <= j < i ==> out@[j] == json_string_value(items@[j]@),
        decreases items@.len() - i,
    {
        out.push(json_string(items[i].as_str()));
        i = i + 1;
    }
    assert(out@ =~= json_strings(texts(items@)));
    out
}

/// The JSON value of an answer.
pub fn json_answer(answer: &CtGenAnswer) -> (r: serde_json::Value)
    ensures
        r == answer_json(answer@),
{
    match answer {
        CtGenAnswer::Text(t) => json_string(t.as_str()),
        CtGenAnswer::List(l) => json_array(json_texts(l)),
    }
}

/// The outcome of a render as the library reports it: the text, or a
/// runtime error that carries the engine's message.
pub fn rendered(outcome: Result<String, handlebars::RenderError>) -> (r: Result<
    String,
    CtGenError,
>)
    ensures
        outcome is Ok ==> r is Ok && r->Ok_0@ == outcome->Ok_0@,
        outcome is Err ==> r is Err && r->Err_0.kind() == CtGenErrorKind::Runtime,
{
    match outcome {
        Ok(text) => Ok(text),
        Err(e) => Err(CtGenError::RuntimeError(render_error_text(&e))),
    }
}

} // verus!

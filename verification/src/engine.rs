//! The template engine: its types, the calls into it, and what is taken on
//! trust of each. What a value of the engine holds is told by a model of
//! it, `Json`.

use vstd::prelude::*;

verus! {

/// What a value of the template engine holds, as far as this library makes
/// such values: a whole number, a text, a list of values, or named values.
pub enum Json {
    Number(int),
    Text(Seq<char>),
    List(Seq<Json>),
    Object(Map<Seq<char>, Json>),
}

/// The template engine with the templates that were loaded into it.
#[verifier::external_type_specification]
#[verifier::external_body]
pub struct ExTera(tera::Tera);

/// What the template engine reports when it cannot render.
#[verifier::external_type_specification]
#[verifier::external_body]
pub struct ExRenderError(tera::Error);

/// A value of the template engine.
#[verifier::external_type_specification]
#[verifier::external_body]
pub struct ExValue(tera::Value);

/// The named values that make up an object of the template engine.
#[verifier::external_type_specification]
#[verifier::external_body]
#[verifier::reject_recursive_types(K)]
#[verifier::reject_recursive_types(V)]
pub struct ExObject<K, V>(tera::Map<K, V>);

/// The values that a template is rendered with, each under its name.
#[verifier::external_type_specification]
#[verifier::external_body]
pub struct ExContext(tera::Context);

/// What the value `value` holds.
pub uninterp spec fn json_of(value: tera::Value) -> Json;

/// The values that the object `object` holds, each under its name.
pub uninterp spec fn object_entries(object: tera::Map<String, tera::Value>) -> Map<Seq<char>, Json>;

/// The values that the context `context` holds, each under its name.
pub uninterp spec fn context_entries(context: tera::Context) -> Map<Seq<char>, Json>;

/// The names of the templates that are loaded into `engine`.
pub uninterp spec fn loaded_templates(engine: tera::Tera) -> Set<Seq<char>>;

/// Whether `engine`, asked to render its template `name` with a context
/// that holds the values `entries`, returns every time, with a page or with
/// an error: a template can hold arithmetic, and can call filters and
/// functions of the engine's owner, on which the engine unwinds instead.
pub uninterp spec fn rendering_returns(
    engine: tera::Tera,
    name: Seq<char>,
    entries: Map<Seq<char>, Json>,
) -> bool;

/// The engine's words for `error`.
pub uninterp spec fn error_words(error: tera::Error) -> Seq<char>;

/// No values at all.
pub open spec fn no_entries() -> Map<Seq<char>, Json> {
    Map::empty()
}

/// What each value of `values` holds, in their order.
pub open spec fn jsons_of(values: Seq<tera::Value>) -> Seq<Json> {
    values.map_values(|value: tera::Value| json_of(value))
}

/// The value of a whole number, by `Value::from` of an `i64`: it holds
/// that number.
#[verifier::external_body]
pub(crate) fn number_value(number: i64) -> (value: tera::Value)
    ensures
        json_of(value) == Json::Number(number as int),
{
    tera::Value::from(number)
}

/// The value of a text, by `Value::from` of a `&str`: it holds that text.
#[verifier::external_body]
pub(crate) fn text_value(text: &str) -> (value: tera::Value)
    ensures
        json_of(value) == Json::Text(text@),
{
    tera::Value::from(text)
}

/// The value of a list, the variant `Value::Array`: it holds what the
/// items hold, in their order.
#[verifier::external_body]
pub(crate) fn list_value(items: Vec<tera::Value>) -> (value: tera::Value)
    ensures
        json_of(value) == Json::List(jsons_of(items@)),
{
    tera::Value::Array(items)
}

/// An object without values, by `Map::new`.
#[verifier::external_body]
pub(crate) fn new_object() -> (object: tera::Map<String, tera::Value>)
    ensures
        object_entries(object) == no_entries(),
{
    tera::Map::new()
}

/// Puts `value` into `object` under `name`, by `Map::insert`: what stood
/// under that name before is replaced, every other name keeps its value.
#[verifier::external_body]
pub(crate) fn object_insert(
    object: &mut tera::Map<String, tera::Value>,
    name: &str,
    value: tera::Value,
)
    ensures
        object_entries(*final(object)) == object_entries(*old(object)).insert(
            name@,
            json_of(value),
        ),
{
    object.insert(name.to_string(), value);
}

/// The value of an object, the variant `Value::Object`: it holds the
/// object's values under their names.
#[verifier::external_body]
pub(crate) fn object_value(object: tera::Map<String, tera::Value>) -> (value: tera::Value)
    ensures
        json_of(value) == Json::Object(object_entries(object)),
{
    tera::Value::Object(object)
}

/// A context without values, by `Context::new`.
#[verifier::external_body]
pub(crate) fn new_context() -> (context: tera::Context)
    ensures
        context_entries(context) == no_entries(),
{
    tera::Context::new()
}

/// Puts `value` into `context` under `name`, by `Context::insert`: what
/// stood under that name before is replaced, every other name keeps its
/// value. The call serialises the value it is given; a value of the engine
/// serialises to itself.
#[verifier::external_body]
pub(crate) fn context_insert(context: &mut tera::Context, name: &str, value: &tera::Value)
    ensures
        context_entries(*final(context)) == context_entries(*old(context)).insert(
            name@,
            json_of(*value),
        ),
{
    context.insert(name, value);
}

/// Renders the template `name` with `context`, by `Tera::render`, on an
/// engine that returns from that rendering. Where it returns, a name that
/// is not among the engine's templates is an error: the call looks the
/// name up first. Nothing else is claimed of what comes back: it depends on
/// the templates that the engine holds and on the filters and functions
/// that they call, the clock and the environment among them.
#[verifier::external_body]
pub(crate) fn try_render(engine: &tera::Tera, name: &str, context: &tera::Context) -> (out: Result<
    String,
    tera::Error,
>)
    requires
        rendering_returns(*engine, name@, context_entries(*context)),
    ensures
        rendering_returns(*engine, name@, context_entries(*context)) && !loaded_templates(
            *engine,
        ).contains(name@) ==> out is Err,
{
    engine.render(name, context)
}

/// The engine's words for an error, as `Display` of `tera::Error` writes
/// them: they depend on the error alone.
#[verifier::external_body]
pub(crate) fn error_text(error: &tera::Error) -> (text: String)
    ensures
        text@ == error_words(*error),
{
    format!("{}", error)
}

} // verus!

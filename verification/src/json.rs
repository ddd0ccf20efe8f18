//! JSON values as the query results hold them, on top of `serde_json`.
use crate::text::decimal_digits;
use vstd::prelude::*;

verus! {

/// `serde_json::Number`: an integer or a finite floating-point number.
#[verifier::external_type_specification]
#[verifier::external_body]
pub struct ExNumber(serde_json::Number);

/// `serde_json::Value`: any JSON value.
#[verifier::external_type_specification]
#[verifier::external_body]
pub struct ExValue(serde_json::Value);

/// `serde_json::Map`: the fields of a JSON object.
#[verifier::external_type_specification]
#[verifier::external_body]
#[verifier::reject_recursive_types(K)]
#[verifier::reject_recursive_types(V)]
pub struct ExMap<K, V>(serde_json::Map<K, V>);

/// A JSON value, opened up by one level.
#[derive(Debug, PartialEq)]
pub enum JsonValue {
    Null,
    Bool(bool),
    Number(serde_json::Number),
    String(String),
    Array(Vec<serde_json::Value>),
    Object(serde_json::Map<String, serde_json::Value>),
}

/// The model of a JSON value.
pub enum Json {
    Null,
    Bool(bool),
    Number(serde_json::Number),
    String(Seq<char>),
    Array(Seq<serde_json::Value>),
    Object(serde_json::Map<String, serde_json::Value>),
}

impl View for JsonValue {
    type V = Json;

    open spec fn view(&self) -> Json {
        match self {
            JsonValue::Null => Json::Null,
            JsonValue::Bool(b) => Json::Bool(*b),
            JsonValue::Number(n) => Json::Number(*n),
            JsonValue::String(s) => Json::String(s@),
            JsonValue::Array(items) => Json::Array(items@),
            JsonValue::Object(fields) => Json::Object(*fields),
        }
    }
}

/// The fields of a JSON object: each name with its value.
pub uninterp spec fn object_fields(object: serde_json::Map<String, serde_json::Value>) -> Map<Seq<char>, Json>;

/// What a JSON value holds, opened up by one level.
pub uninterp spec fn value_model(value: serde_json::Value) -> Json;

/// The number that `serde_json` makes of an integer.
pub uninterp spec fn integer_number(n: int) -> serde_json::Number;

/// The text of a number as `serde_json` writes it.
pub uninterp spec fn number_text(n: serde_json::Number) -> Seq<char>;

/// The compact JSON text of a string, an array or an object.
pub uninterp spec fn compact_text(value: Json) -> Seq<char>;

/// The JSON text of a value with line breaks and indentation.
pub uninterp spec fn pretty_text(value: Json) -> Seq<char>;

/// What the items of a JSON array hold, one by one.
pub open spec fn array_items(items: Seq<serde_json::Value>) -> Seq<Json> {
    Seq::new(items.len(), |i: int| value_model(items[i]))
}

/// The models of some values.
pub open spec fn models(values: Seq<JsonValue>) -> Seq<Json> {
    Seq::new(values.len(), |i: int| values[i]@)
}

/// The decimal text of an integer, with a minus sign in front of a negative one.
pub open spec fn integer_text(n: int) -> Seq<char> {
    if n < 0 {
        seq!['-'] + decimal_digits((-n) as nat)
    } else {
        decimal_digits(n as nat)
    }
}

/// The text of a truth value.
pub open spec fn bool_text(b: bool) -> Seq<char> {
    if b {
        "true"@
    } else {
        "false"@
    }
}

/// The JSON text of a value.
pub open spec fn json_text(value: Json) -> Seq<char> {
    match value {
        Json::Null => "null"@,
        Json::Bool(b) => bool_text(b),
        Json::Number(n) => number_text(n),
        _ => compact_text(value),
    }
}

/// No fields at all.
pub open spec fn no_fields() -> Map<Seq<char>, Json> {
    Map::empty()
}

/// `serde_json::Map::new`: an object without fields.
#[verifier::external_body]
pub(crate) fn object_new() -> (object: serde_json::Map<String, serde_json::Value>)
    ensures
        object_fields(object) == no_fields(),
{
    serde_json::Map::new()
}

/// The variants of `serde_json::Value`: the value that holds the same.
#[verifier::external_body]
pub(crate) fn value_from(value: &JsonValue) -> (out: serde_json::Value)
    ensures
        value_model(out) == value@,
{
    match value {
        JsonValue::Null => serde_json::Value::Null,
        JsonValue::Bool(b) => serde_json::Value::Bool(*b),
        JsonValue::Number(n) => serde_json::Value::Number(n.clone()),
        JsonValue::String(s) => serde_json::Value::String(s.clone()),
        JsonValue::Array(items) => serde_json::Value::Array(items.clone()),
        JsonValue::Object(fields) => serde_json::Value::Object(fields.clone()),
    }
}

/// `serde_json::Map::insert`: sets the field of that name, which replaces an
/// earlier value of it and leaves every other field alone.
#[verifier::external_body]
pub(crate) fn object_insert(
    object: &mut serde_json::Map<String, serde_json::Value>,
    name: &str,
    value: serde_json::Value,
)
    ensures
        object_fields(*final(object)) == object_fields(*old(object)).insert(
            name@,
            value_model(value),
        ),
{
    object.insert(name.to_string(), value);
}

/// `serde_json::Map::get`: the value of the field of that name, if there is one.
#[verifier::external_body]
pub(crate) fn object_get(
    object: &serde_json::Map<String, serde_json::Value>,
    name: &str,
) -> (value: Option<JsonValue>)
    ensures
        match value {
            Some(v) => object_fields(*object).contains_key(name@) && object_fields(*object)[name@] == v@,
            None => !object_fields(*object).contains_key(name@),
        },
{
    object.get(name).map(|value| match value.clone() {
        serde_json::Value::Null => JsonValue::Null,
        serde_json::Value::Bool(b) => JsonValue::Bool(b),
        serde_json::Value::Number(n) => JsonValue::Number(n),
        serde_json::Value::String(s) => JsonValue::String(s),
        serde_json::Value::Array(items) => JsonValue::Array(items),
        serde_json::Value::Object(fields) => JsonValue::Object(fields),
    })
}

/// Sets the field of that name.
pub(crate) fn set_field(
    object: &mut serde_json::Map<String, serde_json::Value>,
    name: &str,
    value: JsonValue,
)
    ensures
        object_fields(*final(object)) == object_fields(*old(object)).insert(name@, value@),
{
    object_insert(object, name, value_from(&value));
}

/// The items of an array that holds the values, in their order.
pub(crate) fn array_from(values: &Vec<JsonValue>) -> (items: Vec<serde_json::Value>)
    ensures
        array_items(items@) == models(values@),
{
    let mut items: Vec<serde_json::Value> = Vec::new();
    let mut i: usize = 0;
    while i < values.len()
        invariant
            i <= values.len(),
            items.len() == i,
            forall|k: int| 0 <= k < i ==> value_model(#[trigger] items@[k]) == values@[k]@,
        decreases values.len() - i,
    {
        items.push(value_from(&values[i]));
        i = i + 1;
    }
    assert(array_items(items@) =~= models(values@));
    items
}

/// `serde_json::Number::from` on a signed integer. The number depends on the
/// integer alone, not on its width, and is written in decimal.
#[verifier::external_body]
pub(crate) fn number_from_signed(n: i64) -> (number: serde_json::Number)
    ensures
        number == integer_number(n as int),
        number_text(number) == integer_text(n as int),
{
    serde_json::Number::from(n)
}

/// `serde_json::Number::from` on an unsigned integer. The number depends on the
/// integer alone, not on its width or sign type, and is written in decimal.
#[verifier::external_body]
pub(crate) fn number_from_unsigned(n: u64) -> (number: serde_json::Number)
    ensures
        number == integer_number(n as int),
        number_text(number) == integer_text(n as int),
{
    serde_json::Number::from(n)
}

/// `Display` of `serde_json::Value`: the compact JSON text of the value.
#[verifier::external_body]
pub(crate) fn json_to_string(value: &serde_json::Value) -> (text: String)
    ensures
        text@ == match value_model(*value) {
            Json::Null => "null"@,
            Json::Bool(b) => bool_text(b),
            Json::Number(n) => number_text(n),
            other => compact_text(other),
        },
{
    value.to_string()
}

/// `serde_json::to_string_pretty` on a `serde_json::Value`: the JSON text of the
/// value with line breaks and indentation. Writing a value to a string does not fail.
#[verifier::external_body]
pub(crate) fn json_to_string_pretty(value: &serde_json::Value) -> (text: String)
    ensures
        text@ == pretty_text(value_model(*value)),
{
    serde_json::to_string_pretty(value).unwrap()
}

}

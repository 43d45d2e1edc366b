//! The JSON documents that requests arrive as, and what a validator reads of
//! them.
//!
//! A document is a `serde_json::Value`. Verus does not look inside one, so
//! this module gives it a mathematical model, [`JsonModel`], and states what
//! each accessor of `serde_json` returns in terms of that model. Those
//! statements are taken on trust from the source of `serde_json`, built
//! without its `arbitrary_precision` feature; everything else is proved.

use serde_json::Value;
use vstd::prelude::*;

verus! {

/// `serde_json::Value`, a JSON document, opaque to the verifier.
#[verifier::external_type_specification]
#[verifier::external_body]
pub struct ExValue(serde_json::Value);

/// A JSON number: an integer, or a number that is stored as a float.
///
/// `serde_json` keeps an integer that is not negative as a `u64` and a
/// negative one as an `i64`, and never keeps a value that is not negative in
/// the negative form. So the accessors below report an integer as unsigned
/// exactly when it is not negative.
pub enum JsonNumber {
    /// An integer literal between `i64::MIN` and `u64::MAX`.
    Integer(int),
    /// Any other numeric literal. Its value is never read here.
    Float,
}

/// The mathematical model of a JSON document.
pub enum JsonModel {
    Null,
    Bool(bool),
    Number(JsonNumber),
    Text(Seq<char>),
    Array(Seq<JsonModel>),
    Object(Map<Seq<char>, JsonModel>),
}

/// What a `serde_json::Value` holds.
pub uninterp spec fn json_model(value: Value) -> JsonModel;

/// The model of the field `key` of a document, if the document is an object
/// that has such a field.
pub open spec fn model_field(document: JsonModel, key: Seq<char>) -> Option<JsonModel> {
    match document {
        JsonModel::Object(fields) => if fields.contains_key(key) {
            Some(fields[key])
        } else {
            None
        },
        _ => None,
    }
}

/// `serde_json::Value::get` with a string key: the value stored under `key`
/// when the document is an object with that key, and nothing otherwise.
#[verifier::external_body]
fn json_get<'a>(document: &'a Value, key: &str) -> (found: Option<&'a Value>)
    ensures
        match found {
            Some(value) => model_field(json_model(*document), key@) == Some(json_model(*value)),
            None => model_field(json_model(*document), key@) is None,
        },
{
    document.get(key)
}

/// `serde_json::Value::as_str`: the text of a JSON string, and nothing for
/// any other value.
#[verifier::external_body]
fn json_as_str<'a>(value: &'a Value) -> (text: Option<&'a str>)
    ensures
        match text {
            Some(s) => json_model(*value) == JsonModel::Text(s@),
            None => !(json_model(*value) is Text),
        },
{
    value.as_str()
}

/// `serde_json::Value::as_bool`: the value of a JSON boolean, and nothing
/// for any other value.
#[verifier::external_body]
fn json_as_bool(value: &Value) -> (flag: Option<bool>)
    ensures
        match flag {
            Some(b) => json_model(*value) == JsonModel::Bool(b),
            None => !(json_model(*value) is Bool),
        },
{
    value.as_bool()
}

/// `serde_json::Value::as_u64`: a JSON integer that is not negative, and
/// nothing for any other value.
#[verifier::external_body]
fn json_as_u64(value: &Value) -> (number: Option<u64>)
    ensures
        match number {
            Some(n) => json_model(*value) == JsonModel::Number(JsonNumber::Integer(n as int)),
            None => !(json_model(*value) matches JsonModel::Number(JsonNumber::Integer(i))
                && 0 <= i),
        },
{
    value.as_u64()
}

/// `serde_json::Value::as_i64`: a JSON integer that is at most `i64::MAX`,
/// and nothing for any other value.
#[verifier::external_body]
fn json_as_i64(value: &Value) -> (number: Option<i64>)
    ensures
        match number {
            Some(n) => json_model(*value) == JsonModel::Number(JsonNumber::Integer(n as int)),
            None => !(json_model(*value) matches JsonModel::Number(JsonNumber::Integer(i))
                && i <= i64::MAX),
        },
{
    value.as_i64()
}

/// `serde_json::Value::is_number`: whether the value is a JSON number.
#[verifier::external_body]
fn json_is_number(value: &Value) -> (numeric: bool)
    ensures
        numeric == (json_model(*value) is Number),
{
    value.is_number()
}

/// What a validator reads of one JSON value: enough to decide whether the
/// value is compatible with a parameter kind.
#[derive(Debug, Clone, Copy)]
pub enum FieldValue<'a> {
    /// A boolean literal.
    Bool(bool),
    /// An integer literal that is not negative.
    Unsigned(u64),
    /// An integer literal held as a signed integer. A value read from a
    /// document is held so when it is negative.
    Signed(i64),
    /// Any other numeric literal: one with a fraction or an exponent, or an
    /// integer beyond the range of both 64-bit integer types.
    Float,
    /// A string literal.
    Text(&'a str),
    /// Null, an array or an object.
    Other,
}

/// The mathematical value of a [`FieldValue`].
pub enum FieldView {
    Bool(bool),
    Integer(int),
    Float,
    Text(Seq<char>),
    Other,
}

impl<'a> View for FieldValue<'a> {
    type V = FieldView;

    open spec fn view(&self) -> FieldView {
        match self {
            FieldValue::Bool(b) => FieldView::Bool(*b),
            FieldValue::Unsigned(n) => FieldView::Integer(*n as int),
            FieldValue::Signed(n) => FieldView::Integer(*n as int),
            FieldValue::Float => FieldView::Float,
            FieldValue::Text(s) => FieldView::Text(s@),
            FieldValue::Other => FieldView::Other,
        }
    }
}

/// What a validator reads of a JSON document.
pub open spec fn field_view(model: JsonModel) -> FieldView {
    match model {
        JsonModel::Bool(b) => FieldView::Bool(b),
        JsonModel::Number(JsonNumber::Integer(i)) => FieldView::Integer(i),
        JsonModel::Number(JsonNumber::Float) => FieldView::Float,
        JsonModel::Text(s) => FieldView::Text(s),
        _ => FieldView::Other,
    }
}

/// Reads a JSON value as far as a validator needs it.
pub fn read_value<'a>(value: &'a Value) -> (field: FieldValue<'a>)
    ensures
        field@ == field_view(json_model(*value)),
{
    if let Some(flag) = json_as_bool(value) {
        FieldValue::Bool(flag)
    } else if let Some(text) = json_as_str(value) {
        FieldValue::Text(text)
    } else if let Some(number) = json_as_u64(value) {
        FieldValue::Unsigned(number)
    } else if let Some(number) = json_as_i64(value) {
        FieldValue::Signed(number)
    } else if json_is_number(value) {
        FieldValue::Float
    } else {
        FieldValue::Other
    }
}

/// Reads the field `key` of a document, if the document is an object that
/// has such a field.
pub fn read_field<'a>(document: &'a Value, key: &str) -> (field: Option<FieldValue<'a>>)
    ensures
        match field {
            Some(f) => model_field(json_model(*document), key@) matches Some(m) && f@
                == field_view(m),
            None => model_field(json_model(*document), key@) is None,
        },
{
    match json_get(document, key) {
        Some(value) => Some(read_value(value)),
        None => None,
    }
}

} // verus!

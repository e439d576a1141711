//! Text formats: JSON and TOML, read and written by `serde_json` and `toml`.

use vstd::prelude::*;
use crate::errors::{ErrorModel, MigrationError};
use crate::storage::FormatStrategy;
use crate::traits::{FromValue, ToValue};
use crate::value::{items_model, Json, Node};

verus! {

/// `serde_json::Value`: carried between the parser and the conversion, never read here.
#[verifier::external_type_specification]
#[verifier::external_body]
pub struct ExJsonValue(serde_json::Value);

/// `toml::Value`: carried between the TOML and the JSON side, never read here.
#[verifier::external_type_specification]
#[verifier::external_body]
pub struct ExTomlValue(toml::Value);

/// What `serde_json::from_str` makes of a text: the document, or the parser's complaint.
pub uninterp spec fn json_decoding(text: Seq<char>) -> Result<Json, Seq<char>>;

/// What `serde_json::from_str` makes of a text that is read as a list of documents: the
/// items of the array that the text holds, or the parser's complaint.
pub uninterp spec fn json_list_decoding(text: Seq<char>) -> Result<Seq<Json>, Seq<char>>;

/// What `serde_json::to_string` makes of a document: its text, or the message of
/// `serde_json` about the document, such as a number whose text is no number.
pub uninterp spec fn json_encoding(value: Json) -> Result<Seq<char>, Seq<char>>;

/// What `serde_json::to_string_pretty` makes of a document: its text, or the message of
/// `serde_json` about the document, such as a number whose text is no number.
pub uninterp spec fn json_pretty_encoding(value: Json) -> Result<Seq<char>, Seq<char>>;

/// The outcome of a step that yields a value or a complaint, as content.
pub open spec fn value_outcome(r: Result<Node, String>) -> Result<Json, Seq<char>> {
    match r {
        Ok(v) => Ok(v@),
        Err(e) => Err(e@),
    }
}

/// The outcome of a step that yields a list of values or a complaint, as content.
pub open spec fn list_outcome(r: Result<Vec<Node>, String>) -> Result<Seq<Json>, Seq<char>> {
    match r {
        Ok(items) => Ok(items_model(items@)),
        Err(e) => Err(e@),
    }
}

/// The outcome of a step that yields text or a complaint, as characters.
pub open spec fn text_outcome(r: Result<String, String>) -> Result<Seq<char>, Seq<char>> {
    match r {
        Ok(s) => Ok(s@),
        Err(e) => Err(e@),
    }
}

/// Carries a `serde_json::Value` over, variant by variant; a number as its decimal text.
#[verifier::external_body]
fn node_from_json(v: serde_json::Value) -> Node {
    match v {
        serde_json::Value::Null => Node::Null,
        serde_json::Value::Bool(b) => Node::Bool(b),
        serde_json::Value::Number(n) => Node::Number(n.to_string()),
        serde_json::Value::String(s) => Node::Text(s),
        serde_json::Value::Array(a) => Node::Array(a.into_iter().map(node_from_json).collect()),
        serde_json::Value::Object(m) => Node::Object(
            m.into_iter().map(|(k, v)| (k, node_from_json(v))).collect(),
        ),
    }
}

/// Carries a node over to `serde_json`, variant by variant; a number by
/// `serde_json::Number`'s `from_str`, whose error for a text that is no number is the
/// error of the whole conversion.
#[verifier::external_body]
fn node_to_json(v: &Node) -> Result<serde_json::Value, String> {
    Ok(match v {
        Node::Null => serde_json::Value::Null,
        Node::Bool(b) => serde_json::Value::Bool(*b),
        Node::Number(n) => serde_json::Value::Number(
            n.parse::<serde_json::Number>().map_err(|e| e.to_string())?,
        ),
        Node::Text(s) => serde_json::Value::String(s.clone()),
        Node::Array(a) => serde_json::Value::Array(a.iter().map(node_to_json).collect::<Result<_, _>>()?),
        Node::Object(m) => serde_json::Value::Object(
            m.iter().map(|(k, v)| Ok((k.clone(), node_to_json(v)?))).collect::<Result<_, String>>()?,
        ),
    })
}

/// Parses JSON text with `serde_json::from_str`. The result is the document that the
/// parser reads from the text, or the parser's message.
#[verifier::external_body]
pub(crate) fn decode_json(text: &str) -> (r: Result<Node, String>)
    ensures
        value_outcome(r) == json_decoding(text@),
{
    match serde_json::from_str::<serde_json::Value>(text) {
        Ok(v) => Ok(node_from_json(v)),
        Err(e) => Err(e.to_string()),
    }
}

/// Parses JSON text as a list with `serde_json::from_str` at the type of a vector of
/// values. The result is the list that the parser reads, or the parser's message. The
/// parser reads a list exactly from a text that it reads as a document that is an
/// array, and the list then holds the array's items.
#[verifier::external_body]
pub(crate) fn decode_json_list(text: &str) -> (r: Result<Vec<Node>, String>)
    ensures
        list_outcome(r) == json_list_decoding(text@),
        match json_decoding(text@) {
            Ok(Json::Array(items)) => list_outcome(r) == Ok::<Seq<Json>, Seq<char>>(items),
            _ => r is Err,
        },
{
    match serde_json::from_str::<Vec<serde_json::Value>>(text) {
        Ok(items) => Ok(items.into_iter().map(node_from_json).collect()),
        Err(e) => Err(e.to_string()),
    }
}

/// Writes a document as compact JSON with `serde_json::to_string`.
#[verifier::external_body]
pub(crate) fn encode_json(value: &Node) -> (r: Result<String, String>)
    ensures
        text_outcome(r) == json_encoding(value@),
{
    serde_json::to_string(&node_to_json(value)?).map_err(|e| e.to_string())
}

/// Writes a document as indented JSON with `serde_json::to_string_pretty`.
#[verifier::external_body]
pub(crate) fn encode_json_pretty(value: &Node) -> (r: Result<String, String>)
    ensures
        text_outcome(r) == json_pretty_encoding(value@),
{
    serde_json::to_string_pretty(&node_to_json(value)?).map_err(|e| e.to_string())
}

/// What `toml::from_str` reads from a text as a `toml::Value`, or the parser's message.
pub uninterp spec fn toml_parsing(text: Seq<char>) -> Result<toml::Value, Seq<char>>;

/// What `serde_json::to_string` writes for a `toml::Value`.
pub uninterp spec fn toml_json_text(value: toml::Value) -> Result<Seq<char>, Seq<char>>;

/// What `serde_json::from_str` reads from JSON text as a `toml::Value`.
pub uninterp spec fn toml_from_json_text(text: Seq<char>) -> Result<toml::Value, Seq<char>>;

/// What `toml::to_string_pretty` writes for a `toml::Value`.
pub uninterp spec fn toml_rendering(value: toml::Value) -> Result<Seq<char>, Seq<char>>;

/// The outcome of a step that yields a TOML value or a complaint.
pub open spec fn toml_outcome(r: Result<toml::Value, String>) -> Result<toml::Value, Seq<char>> {
    match r {
        Ok(v) => Ok(v),
        Err(e) => Err(e@),
    }
}

/// Parses TOML text with `toml::from_str` at the type `toml::Value`.
#[verifier::external_body]
pub(crate) fn parse_toml(text: &str) -> (r: Result<toml::Value, String>)
    ensures
        toml_outcome(r) == toml_parsing(text@),
{
    toml::from_str::<toml::Value>(text).map_err(|e| e.to_string())
}

/// Writes a `toml::Value` as JSON text with `serde_json::to_string`.
#[verifier::external_body]
pub(crate) fn toml_as_json_text(value: &toml::Value) -> (r: Result<String, String>)
    ensures
        text_outcome(r) == toml_json_text(*value),
{
    serde_json::to_string(value).map_err(|e| e.to_string())
}

/// Reads JSON text as a `toml::Value` with `serde_json::from_str`.
#[verifier::external_body]
pub(crate) fn toml_of_json_text(text: &str) -> (r: Result<toml::Value, String>)
    ensures
        toml_outcome(r) == toml_from_json_text(text@),
{
    serde_json::from_str::<toml::Value>(text).map_err(|e| e.to_string())
}

/// Writes a `toml::Value` as TOML text with `toml::to_string_pretty`.
#[verifier::external_body]
pub(crate) fn render_toml(value: &toml::Value) -> (r: Result<String, String>)
    ensures
        text_outcome(r) == toml_rendering(*value),
{
    toml::to_string_pretty(value).map_err(|e| e.to_string())
}

/// The document that a TOML value stands for: its JSON text, read back.
pub open spec fn toml_document(value: toml::Value) -> Result<Json, ErrorModel> {
    match toml_json_text(value) {
        Err(e) => Err(ErrorModel::SerializationError(e)),
        Ok(text) => match json_decoding(text) {
            Err(e) => Err(ErrorModel::DeserializationError(e)),
            Ok(doc) => Ok(doc),
        },
    }
}

/// The TOML value that stands for a document: its JSON text, read as TOML's value.
pub open spec fn document_toml(doc: Json) -> Result<toml::Value, ErrorModel> {
    match json_encoding(doc) {
        Err(e) => Err(ErrorModel::SerializationError(e)),
        Ok(text) => match toml_from_json_text(text) {
            Err(e) => Err(ErrorModel::TomlParseError(e)),
            Ok(value) => Ok(value),
        },
    }
}

/// The text that a document is stored as in a format.
pub open spec fn content_text(format: FormatStrategy, doc: Json) -> Result<Seq<char>, ErrorModel> {
    if format == FormatStrategy::Toml {
        match document_toml(doc) {
            Err(e) => Err(e),
            Ok(value) => match toml_rendering(value) {
                Err(e) => Err(ErrorModel::TomlSerializeError(e)),
                Ok(text) => Ok(text),
            },
        }
    } else {
        match json_pretty_encoding(doc) {
            Err(e) => Err(ErrorModel::SerializationError(e)),
            Ok(text) => Ok(text),
        }
    }
}

/// The document that a stored text holds in a format.
pub open spec fn content_document(format: FormatStrategy, text: Seq<char>) -> Result<Json, ErrorModel> {
    if format == FormatStrategy::Toml {
        match toml_parsing(text) {
            Err(e) => Err(ErrorModel::TomlParseError(e)),
            Ok(value) => toml_document(value),
        }
    } else {
        match json_decoding(text) {
            Err(e) => Err(ErrorModel::DeserializationError(e)),
            Ok(doc) => Ok(doc),
        }
    }
}

/// The content of a result that carries a node or an error.
pub open spec fn doc_result(r: Result<Node, MigrationError>) -> Result<Json, ErrorModel> {
    match r {
        Ok(v) => Ok(v@),
        Err(e) => Err(e@),
    }
}

/// The content of a result that carries text or an error.
pub open spec fn string_result(r: Result<String, MigrationError>) -> Result<Seq<char>, ErrorModel> {
    match r {
        Ok(s) => Ok(s@),
        Err(e) => Err(e@),
    }
}

/// The content of a result that carries a TOML value or an error.
pub open spec fn toml_result(r: Result<toml::Value, MigrationError>) -> Result<
    toml::Value,
    ErrorModel,
> {
    match r {
        Ok(v) => Ok(v),
        Err(e) => Err(e@),
    }
}

/// Converts a TOML value to a document, by way of JSON text.
pub fn toml_to_json(toml_value: &toml::Value) -> (r: Result<Node, MigrationError>)
    ensures
        doc_result(r) == toml_document(*toml_value),
{
    let json_str = match toml_as_json_text(toml_value) {
        Ok(s) => s,
        Err(e) => {
            return Err(MigrationError::SerializationError(e));
        },
    };
    match decode_json(json_str.as_str()) {
        Ok(doc) => Ok(doc),
        Err(e) => Err(MigrationError::DeserializationError(e)),
    }
}

/// Converts a document to a TOML value, by way of JSON text.
pub fn json_to_toml(json_value: &Node) -> (r: Result<toml::Value, MigrationError>)
    ensures
        toml_result(r) == document_toml(json_value@),
{
    let json_str = match encode_json(json_value) {
        Ok(s) => s,
        Err(e) => {
            return Err(MigrationError::SerializationError(e));
        },
    };
    match toml_of_json_text(json_str.as_str()) {
        Ok(value) => Ok(value),
        Err(e) => Err(MigrationError::TomlParseError(e)),
    }
}

/// Writes a document as the text of a format: indented JSON, or TOML.
pub fn serialize_content(format: FormatStrategy, value: &Node) -> (r: Result<String, MigrationError>)
    ensures
        string_result(r) == content_text(format, value@),
{
    if format == FormatStrategy::Toml {
        let toml_value = match json_to_toml(value) {
            Ok(v) => v,
            Err(e) => {
                return Err(e);
            },
        };
        match render_toml(&toml_value) {
            Ok(text) => Ok(text),
            Err(e) => Err(MigrationError::TomlSerializeError(e)),
        }
    } else {
        match encode_json_pretty(value) {
            Ok(text) => Ok(text),
            Err(e) => Err(MigrationError::SerializationError(e)),
        }
    }
}

/// Reads the document that a text of a format holds.
pub fn deserialize_content(format: FormatStrategy, content: &str) -> (r: Result<Node, MigrationError>)
    ensures
        doc_result(r) == content_document(format, content@),
{
    if format == FormatStrategy::Toml {
        let toml_value = match parse_toml(content) {
            Ok(v) => v,
            Err(e) => {
                return Err(MigrationError::TomlParseError(e));
            },
        };
        toml_to_json(&toml_value)
    } else {
        match decode_json(content) {
            Ok(doc) => Ok(doc),
            Err(e) => Err(MigrationError::DeserializationError(e)),
        }
    }
}


/// The JSON text of what a value is written as.
pub open spec fn json_text_of(written: Result<Json, Seq<char>>) -> Result<Seq<char>, ErrorModel> {
    match written {
        Err(e) => Err(ErrorModel::SerializationError(e)),
        Ok(doc) => match json_encoding(doc) {
            Ok(text) => Ok(text),
            Err(e) => Err(ErrorModel::SerializationError(e)),
        },
    }
}

/// Writes a value as compact JSON text.
pub fn to_json_string<T: ToValue>(value: &T) -> (r: Result<String, MigrationError>)
    ensures
        string_result(r) == json_text_of(value.encoded()),
{
    match value.to_value() {
        Err(e) => Err(MigrationError::SerializationError(e)),
        Ok(doc) => match encode_json(&doc) {
            Ok(text) => Ok(text),
            Err(e) => Err(MigrationError::SerializationError(e)),
        },
    }
}

/// The indented JSON text of what a value is written as.
pub open spec fn json_pretty_text_of(written: Result<Json, Seq<char>>) -> Result<
    Seq<char>,
    ErrorModel,
> {
    match written {
        Err(e) => Err(ErrorModel::SerializationError(e)),
        Ok(doc) => match json_pretty_encoding(doc) {
            Ok(text) => Ok(text),
            Err(e) => Err(ErrorModel::SerializationError(e)),
        },
    }
}

/// Writes a value as indented JSON text.
pub fn to_json_string_pretty<T: ToValue>(value: &T) -> (r: Result<String, MigrationError>)
    ensures
        string_result(r) == json_pretty_text_of(value.encoded()),
{
    match value.to_value() {
        Err(e) => Err(MigrationError::SerializationError(e)),
        Ok(doc) => match encode_json_pretty(&doc) {
            Ok(text) => Ok(text),
            Err(e) => Err(MigrationError::SerializationError(e)),
        },
    }
}

/// The value that a JSON text is read as.
pub open spec fn json_value_of<D: FromValue>(text: Seq<char>) -> Result<D, ErrorModel> {
    match json_decoding(text) {
        Err(e) => Err(ErrorModel::DeserializationError(e)),
        Ok(doc) => match D::decoded(doc) {
            Ok(d) => Ok(d),
            Err(e) => Err(ErrorModel::DeserializationError(e)),
        },
    }
}

/// Reads a value from JSON text.
pub fn from_json_str<D: FromValue>(text: &str) -> (r: Result<D, MigrationError>)
    ensures
        match r {
            Ok(d) => json_value_of::<D>(text@) == Ok::<D, ErrorModel>(d),
            Err(e) => json_value_of::<D>(text@) == Err::<D, ErrorModel>(e@),
        },
{
    match decode_json(text) {
        Err(e) => Err(MigrationError::DeserializationError(e)),
        Ok(doc) => match D::from_value(doc) {
            Ok(d) => Ok(d),
            Err(e) => Err(MigrationError::DeserializationError(e)),
        },
    }
}

/// Reads a document from JSON text.
pub fn parse_json(text: &str) -> (r: Result<Node, MigrationError>)
    ensures
        doc_result(r) == content_document(FormatStrategy::Json, text@),
{
    deserialize_content(FormatStrategy::Json, text)
}


impl ToValue for toml::Value {
    open spec fn encoded(&self) -> Result<Json, Seq<char>> {
        match toml_document(*self) {
            Ok(doc) => Ok(doc),
            Err(e) => Err(e.message()),
        }
    }

    fn to_value(&self) -> (r: Result<Node, String>) {
        match toml_to_json(self) {
            Ok(doc) => Ok(doc),
            Err(e) => Err(e.to_string()),
        }
    }
}

} // verus!

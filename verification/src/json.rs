//! The JSON documents the ticker reads and writes, as far as its logic looks
//! into them: objects whose members are texts, nulls or something else.
//! Reading and printing JSON text is the work of `serde_json`; the three
//! functions that call it are believed, not proved.

use serde_json::Value;
use vstd::prelude::*;

verus! {

/// The value of one member of a JSON object, as far as the ticker tells
/// values apart.
#[derive(Debug, Clone)]
pub enum JsonScalar {
    /// The JSON value `null`.
    Null,
    /// A JSON string, unescaped.
    Text(String),
    /// A boolean, a number, an array or an object.
    Other,
}

/// The mathematical value of a [`JsonScalar`].
pub ghost enum ScalarModel {
    Null,
    Text(Seq<char>),
    Other,
}

impl View for JsonScalar {
    type V = ScalarModel;

    open spec fn view(&self) -> ScalarModel {
        match self {
            JsonScalar::Null => ScalarModel::Null,
            JsonScalar::Text(text) => ScalarModel::Text(text@),
            JsonScalar::Other => ScalarModel::Other,
        }
    }
}

/// The members of a JSON object, each a key with its value.
pub type ObjectModel = Seq<(Seq<char>, ScalarModel)>;

/// A JSON object: its members in the order they were handed out.
#[derive(Debug, Clone)]
pub struct JsonObject {
    pub members: Vec<(String, JsonScalar)>,
}

impl View for JsonObject {
    type V = ObjectModel;

    open spec fn view(&self) -> ObjectModel {
        Seq::new(self.members@.len(), |i: int| (self.members@[i].0@, self.members@[i].1@))
    }
}

/// The mathematical value of a list of objects.
pub open spec fn objects_model(items: Seq<JsonObject>) -> Seq<ObjectModel> {
    Seq::new(items.len(), |i: int| items[i]@)
}

/// The mathematical value of a list of members that are to be printed: each
/// value is a text, or absent and printed as `null`.
pub open spec fn fields_model(fields: Seq<(String, Option<String>)>) -> Seq<
    (Seq<char>, Option<Seq<char>>),
> {
    Seq::new(
        fields.len(),
        |i: int|
            (
                fields[i].0@,
                match fields[i].1 {
                    Some(text) => Some(text@),
                    None => None,
                },
            ),
    )
}

/// What `serde_json::from_str` makes of a text that is read as an array of
/// objects: the objects, or the description of the error.
pub uninterp spec fn parsed_array(text: Seq<char>) -> Result<Seq<ObjectModel>, Seq<char>>;

/// What `serde_json::from_slice` makes of bytes that are read as one object:
/// its members, or the description of the error.
pub uninterp spec fn parsed_object(bytes: Seq<u8>) -> Result<ObjectModel, Seq<char>>;

/// The bytes that `serde_json::to_vec` prints for an object with the given
/// members.
pub uninterp spec fn printed_object(fields: Seq<(Seq<char>, Option<Seq<char>>)>) -> Seq<u8>;

/// Reads a text as a JSON array of objects, with `serde_json::from_str`.
///
/// Believed, not proved: the outcome depends on the text alone. Nothing is
/// claimed about which texts are accepted; an error comes back as its
/// description.
#[verifier::external_body]
pub(crate) fn read_array(text: &str) -> (outcome: Result<Vec<JsonObject>, String>)
    ensures
        match outcome {
            Ok(items) => parsed_array(text@) == Ok::<Seq<ObjectModel>, Seq<char>>(
                objects_model(items@),
            ),
            Err(message) => parsed_array(text@) == Err::<Seq<ObjectModel>, Seq<char>>(message@),
        },
{
    match serde_json::from_str::<Vec<serde_json::Map<String, Value>>>(text) {
        Ok(items) => Ok(items.into_iter().map(|map| JsonObject {
            members: map.into_iter().map(|(key, value)| (key, match value {
                Value::Null => JsonScalar::Null,
                Value::String(text) => JsonScalar::Text(text),
                Value::Bool(_) => JsonScalar::Other,
                Value::Number(_) => JsonScalar::Other,
                Value::Array(_) => JsonScalar::Other,
                Value::Object(_) => JsonScalar::Other,
            })).collect(),
        }).collect()),
        Err(error) => Err(format!("{:#?}", error)),
    }
}

/// Reads bytes as one JSON object, with `serde_json::from_slice`.
///
/// Believed, not proved: the outcome depends on the bytes alone. Nothing is
/// claimed about which bytes are accepted; an error comes back as its
/// description.
#[verifier::external_body]
pub(crate) fn read_object(bytes: &[u8]) -> (outcome: Result<JsonObject, String>)
    ensures
        match outcome {
            Ok(object) => parsed_object(bytes@) == Ok::<ObjectModel, Seq<char>>(object@),
            Err(message) => parsed_object(bytes@) == Err::<ObjectModel, Seq<char>>(message@),
        },
{
    match serde_json::from_slice::<serde_json::Map<String, Value>>(bytes) {
        Ok(map) => Ok(JsonObject {
            members: map.into_iter().map(|(key, value)| (key, match value {
                Value::Null => JsonScalar::Null,
                Value::String(text) => JsonScalar::Text(text),
                Value::Bool(_) => JsonScalar::Other,
                Value::Number(_) => JsonScalar::Other,
                Value::Array(_) => JsonScalar::Other,
                Value::Object(_) => JsonScalar::Other,
            })).collect(),
        }),
        Err(error) => Err(format!("{:#?}", error)),
    }
}

/// Prints an object with the given members as JSON, with
/// `serde_json::to_vec`: a text for a member that has one, `null` for one
/// that has none.
///
/// Believed, not proved: the bytes depend on the members alone. Nothing is
/// claimed about the bytes themselves.
#[verifier::external_body]
pub(crate) fn write_object(fields: &Vec<(String, Option<String>)>) -> (bytes: Vec<u8>)
    ensures
        bytes@ == printed_object(fields_model(fields@)),
{
    let map: serde_json::Map<String, Value> = fields.iter().map(
        |field| (field.0.clone(), Value::from(field.1.clone())),
    ).collect();
    serde_json::to_vec(&map).unwrap_or_default()
}

} // verus!

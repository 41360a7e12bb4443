//! JSON values as the JSON library reads them. To verified code such a
//! value is opaque: what it holds is its model, a value of specifications,
//! and the library's accessors are known by what they find in the model.

use serde_json::Value;
use vstd::prelude::*;

verus! {

/// `serde_json::Value`, any JSON value.
#[verifier::external_type_specification]
#[verifier::external_body]
pub struct ExJsonValue(Value);

/// `serde_json::Error`, why a text is no JSON.
#[verifier::external_type_specification]
#[verifier::external_body]
pub struct ExJsonError(serde_json::Error);

/// A JSON value as a value of specifications. A number is held as the
/// text that stands for it.
pub enum JsonModel {
    Null,
    Bool(bool),
    Number(Seq<char>),
    Text(Seq<char>),
    Array(Seq<JsonModel>),
    Object(Map<Seq<char>, JsonModel>),
}

/// What a JSON value holds.
pub uninterp spec fn json_model(v: Value) -> JsonModel;

/// The value that `serde_json::from_str` reads from a text, where it reads
/// one.
pub uninterp spec fn json_value_of(text: Seq<char>) -> Option<JsonModel>;

/// The models of the given values, in order.
pub open spec fn json_models(items: Seq<Value>) -> Seq<JsonModel> {
    items.map_values(|v: Value| json_model(v))
}

impl JsonModel {
    /// The member of an object under a key; nothing for a key that the
    /// object does not have, and for a value that is no object.
    pub open spec fn member(self, key: Seq<char>) -> Option<JsonModel> {
        match self {
            JsonModel::Object(members) => if members.contains_key(key) {
                Some(members[key])
            } else {
                None
            },
            _ => None,
        }
    }

    /// The items of an array; nothing for any other value.
    pub open spec fn items(self) -> Option<Seq<JsonModel>> {
        match self {
            JsonModel::Array(items) => Some(items),
            _ => None,
        }
    }

    /// The text of a string; nothing for any other value.
    pub open spec fn text(self) -> Option<Seq<char>> {
        match self {
            JsonModel::Text(t) => Some(t),
            _ => None,
        }
    }

    /// The text under a key of an object.
    pub open spec fn text_member(self, key: Seq<char>) -> Option<Seq<char>> {
        match self.member(key) {
            Some(m) => m.text(),
            None => None,
        }
    }

    /// The items of the array under a key of an object.
    pub open spec fn items_member(self, key: Seq<char>) -> Option<Seq<JsonModel>> {
        match self.member(key) {
            Some(m) => m.items(),
            None => None,
        }
    }
}

/// `serde_json::from_str` reads a value from a text, or says why the text is
/// no JSON. What it reads depends on the text alone.
#[verifier::external_body]
pub(crate) fn read_json(text: &str) -> (r: Result<Value, serde_json::Error>)
    ensures
        match r {
            Ok(v) => json_value_of(text@) == Some(json_model(v)),
            Err(_) => json_value_of(text@) is None,
        },
{
    serde_json::from_str(text)
}

/// `Value::get` with a string index returns the member of an object under
/// that key, and nothing for a missing key or for a value that is no object.
#[verifier::external_body]
pub(crate) fn member<'a>(v: &'a Value, key: &str) -> (r: Option<&'a Value>)
    ensures
        match r {
            Some(m) => json_model(*v).member(key@) == Some(json_model(*m)),
            None => json_model(*v).member(key@) is None,
        },
{
    v.get(key)
}

/// `Value::as_array` returns the vector of an array, and nothing for any
/// other value.
pub assume_specification[ Value::as_array ](v: &Value) -> (r: Option<&Vec<Value>>)
    ensures
        match r {
            Some(items) => json_model(*v).items() == Some(json_models(items@)),
            None => json_model(*v).items() is None,
        },
;

/// `Value::as_str` returns the text of a string, and nothing for any other
/// value.
pub assume_specification[ Value::as_str ](v: &Value) -> (r: Option<&str>)
    ensures
        match r {
            Some(t) => json_model(*v).text() == Some(t@),
            None => json_model(*v).text() is None,
        },
;

/// Reads the text under a key of an object.
pub fn text_at<'a>(v: &'a Value, key: &str) -> (r: Option<&'a str>)
    ensures
        match r {
            Some(t) => json_model(*v).text_member(key@) == Some(t@),
            None => json_model(*v).text_member(key@) is None,
        },
{
    match member(v, key) {
        Some(m) => m.as_str(),
        None => None,
    }
}

/// Reads the items of the array under a key of an object.
pub fn items_at<'a>(v: &'a Value, key: &str) -> (r: Option<&'a Vec<Value>>)
    ensures
        match r {
            Some(items) => json_model(*v).items_member(key@) == Some(json_models(items@)),
            None => json_model(*v).items_member(key@) is None,
        },
{
    match member(v, key) {
        Some(m) => m.as_array(),
        None => None,
    }
}

} // verus!

//! Structured response data: the values that a response body holds once it
//! is decoded, and how a record's fields are read.

use serde_json::Value;
use vstd::prelude::*;
use crate::text::{held, same_text};

verus! {

/// A JSON value as `serde_json` holds it.
#[verifier::external_type_specification]
#[verifier::external_body]
pub struct ExValue(Value);

/// A number of a response. `signed` and `unsigned` hold it where it is an
/// integer of that range; `shown` holds the string form of its value where
/// it has one.
#[derive(Debug, Clone, PartialEq, Eq)]
pub struct Number {
    pub signed: Option<i64>,
    pub unsigned: Option<u64>,
    pub shown: Option<String>,
}

/// One named field of a record.
#[derive(Debug, PartialEq, Eq)]
pub struct Member {
    pub key: String,
    pub value: Json,
}

/// A value of a decoded response body.
#[derive(Debug, PartialEq, Eq)]
pub enum Json {
    Null,
    Bool(bool),
    Number(Number),
    Text(String),
    List(Vec<Json>),
    Record(Vec<Member>),
}

/// The value of the first of `members` whose key is `key`.
pub open spec fn member_named(members: Seq<Member>, key: Seq<char>) -> Option<Json>
    decreases members.len(),
{
    if members.len() == 0 {
        None
    } else if members[0].key@ == key {
        Some(members[0].value)
    } else {
        member_named(members.drop_first(), key)
    }
}

/// A copy of a text that may be absent.
pub fn copy_text(text: &Option<String>) -> (copy: Option<String>)
    ensures
        copy == *text,
{
    match text {
        Some(t) => Some(t.clone()),
        None => None,
    }
}

impl Json {
    /// The field `key` of a record; nothing of any other value.
    pub open spec fn member(self, key: Seq<char>) -> Option<Json> {
        match self {
            Json::Record(members) => member_named(members@, key),
            _ => None,
        }
    }

    /// The field `key` where it is a text.
    pub open spec fn text_at(self, key: Seq<char>) -> Option<String> {
        match self.member(key) {
            Some(Json::Text(t)) => Some(t),
            _ => None,
        }
    }

    /// The field `key` where it is an integer that fits in 64 bits with a sign.
    pub open spec fn integer_at(self, key: Seq<char>) -> Option<i64> {
        match self.member(key) {
            Some(Json::Number(n)) => n.signed,
            _ => None,
        }
    }

    /// The field `key` where it is an integer that fits in 64 bits without a sign.
    pub open spec fn natural_at(self, key: Seq<char>) -> Option<u64> {
        match self.member(key) {
            Some(Json::Number(n)) => n.unsigned,
            _ => None,
        }
    }

    /// The string form of the field `key` where it is a number.
    pub open spec fn number_shown_at(self, key: Seq<char>) -> Option<String> {
        match self.member(key) {
            Some(Json::Number(n)) => n.shown,
            _ => None,
        }
    }

    /// The field `key` of a record.
    pub fn find(&self, key: &str) -> (found: Option<&Json>)
        ensures
            found == match self.member(key@) {
                Some(v) => Some(&v),
                None => None,
            },
    {
        match self {
            Json::Record(members) => {
                let mut i: usize = 0;
                assert(members@.skip(0) =~= members@);
                while i < members.len()
                    invariant
                        i <= members.len(),
                        self.member(key@) == member_named(members@, key@),
                        member_named(members@, key@) == member_named(members@.skip(i as int), key@),
                    decreases members.len() - i,
                {
                    let ghost rest = members@.skip(i as int);
                    assert(rest[0] == members@[i as int]);
                    assert(rest.drop_first() =~= members@.skip(i + 1));
                    if same_text(members[i].key.as_str(), key) {
                        return Some(&members[i].value);
                    }
                    i += 1;
                }
                None
            },
            _ => None,
        }
    }

    /// The field `key` where it is a text.
    pub fn find_text(&self, key: &str) -> (found: Option<String>)
        ensures
            found == self.text_at(key@),
    {
        match self.find(key) {
            Some(Json::Text(t)) => Some(t.clone()),
            _ => None,
        }
    }

    /// The field `key` where it is an integer that fits in 64 bits with a sign.
    pub fn find_integer(&self, key: &str) -> (found: Option<i64>)
        ensures
            found == self.integer_at(key@),
    {
        match self.find(key) {
            Some(Json::Number(n)) => n.signed,
            _ => None,
        }
    }

    /// The field `key` where it is an integer that fits in 64 bits without a sign.
    pub fn find_natural(&self, key: &str) -> (found: Option<u64>)
        ensures
            found == self.natural_at(key@),
    {
        match self.find(key) {
            Some(Json::Number(n)) => n.unsigned,
            _ => None,
        }
    }

    /// The string form of the field `key` where it is a number.
    pub fn find_number_shown(&self, key: &str) -> (found: Option<String>)
        ensures
            found == self.number_shown_at(key@),
    {
        match self.find(key) {
            Some(Json::Number(n)) => copy_text(&n.shown),
            _ => None,
        }
    }
}

/// The JSON value that `bytes` write, if they write one.
pub uninterp spec fn value_of_bytes(bytes: Seq<u8>) -> Option<Value>;

/// What the JSON value `value` holds.
pub uninterp spec fn value_json(value: Value) -> Json;

/// The JSON value `value` as indented text, if it can be written.
pub uninterp spec fn value_pretty(value: Value) -> Option<Seq<char>>;

/// Trusted: `serde_json::from_slice` reads the bytes as one JSON value, or
/// fails. The same bytes always give the same result.
#[verifier::external_body]
fn parse_value(bytes: &[u8]) -> (value: Option<Value>)
    ensures
        value == value_of_bytes(bytes@),
{
    serde_json::from_slice::<Value>(bytes).ok()
}

/// Trusted: tells the six variants of `serde_json::Value` apart and moves
/// what each holds into the variant of the same kind. Of a number it takes
/// `as_i64`, `as_u64`, and the string form of what `as_f64` gives; the
/// members of an object come in the order in which `serde_json` hands them
/// out.
#[verifier::external_body]
fn json_from(value: &Value) -> (json: Json)
    ensures
        json == value_json(*value),
{
    match value {
        Value::Null => Json::Null,
        Value::Bool(b) => Json::Bool(*b),
        Value::Number(n) => Json::Number(Number { signed: n.as_i64(), unsigned: n.as_u64(),
            shown: n.as_f64().map(|f| f.to_string()) }),
        Value::String(text) => Json::Text(text.clone()),
        Value::Array(items) => Json::List(items.iter().map(json_from).collect()),
        Value::Object(members) => Json::Record(
            members.iter().map(|(k, v)| Member { key: k.clone(), value: json_from(v) }).collect(),
        ),
    }
}

/// Trusted: `serde_json::to_string_pretty` writes the value as indented
/// text, or fails. The same value always gives the same text.
#[verifier::external_body]
fn pretty_value(value: &Value) -> (text: Option<String>)
    ensures
        held(text) == value_pretty(*value),
{
    serde_json::to_string_pretty(value).ok()
}

/// What `bytes` hold where they write a JSON value.
pub open spec fn json_of_bytes(bytes: Seq<u8>) -> Option<Json> {
    match value_of_bytes(bytes) {
        Some(value) => Some(value_json(value)),
        None => None,
    }
}

/// The JSON value that `bytes` write, as indented text.
pub open spec fn pretty_of_bytes(bytes: Seq<u8>) -> Option<Seq<char>> {
    match value_of_bytes(bytes) {
        Some(value) => value_pretty(value),
        None => None,
    }
}

/// Reads `bytes` as one JSON value.
pub fn decode(bytes: &Vec<u8>) -> (json: Option<Json>)
    ensures
        json == json_of_bytes(bytes@),
{
    match parse_value(bytes.as_slice()) {
        Some(value) => Some(json_from(&value)),
        None => None,
    }
}

/// Reads `bytes` as one JSON value and writes it as indented text.
pub fn prettify(bytes: &Vec<u8>) -> (text: Option<String>)
    ensures
        held(text) == pretty_of_bytes(bytes@),
{
    match parse_value(bytes.as_slice()) {
        Some(value) => pretty_value(&value),
        None => None,
    }
}

/// The values of the list that `bytes` write as JSON, where they write one.
pub open spec fn items_of_bytes(bytes: Seq<u8>) -> Option<Seq<Json>> {
    match json_of_bytes(bytes) {
        Some(Json::List(items)) => Some(items@),
        _ => None,
    }
}

/// What a list of values that may be absent holds.
pub open spec fn held_items(items: Option<Vec<Json>>) -> Option<Seq<Json>> {
    match items {
        Some(list) => Some(list@),
        None => None,
    }
}

/// Reads `bytes` as a JSON list.
pub fn decode_items(bytes: &Vec<u8>) -> (items: Option<Vec<Json>>)
    ensures
        held_items(items) == items_of_bytes(bytes@),
{
    match decode(bytes) {
        Some(Json::List(items)) => Some(items),
        _ => None,
    }
}

} // verus!

//! JSON documents as plain data, and the reading of one from bytes.

use vstd::prelude::*;
use vstd::string::*;
use crate::text::same_text;

verus! {

/// A JSON document. The members of an object stand in the order in which
/// the reader hands them out; a number keeps no value, since nothing here
/// reads one.
#[derive(Debug, PartialEq, Eq)]
pub enum Json {
    Null,
    Bool(bool),
    Number,
    Text(String),
    Array(Vec<Json>),
    Object(Vec<(String, Json)>),
}

#[verifier::external_type_specification]
#[verifier::external_body]
pub struct ExJsonError(serde_json::Error);

#[verifier::external_type_specification]
#[verifier::external_body]
pub struct ExJsonValue(serde_json::Value);

/// The document that `serde_json::from_slice` reads from the given bytes, or
/// `None` where it reports an error.
pub uninterp spec fn parsed_json(body: Seq<u8>) -> Option<Json>;

/// Rebuilds a `serde_json::Value` as a [`Json`], variant by variant: texts,
/// elements and members move over as they are and in their order, and the
/// value of a number is dropped. Nothing is claimed of the result here.
#[verifier::external_body]
fn json_from_value(value: serde_json::Value) -> Json {
    match value {
        serde_json::Value::Null => Json::Null,
        serde_json::Value::Bool(flag) => Json::Bool(flag),
        serde_json::Value::Number(_) => Json::Number,
        serde_json::Value::String(text) => Json::Text(text),
        serde_json::Value::Array(items) => Json::Array(
            items.into_iter().map(json_from_value).collect(),
        ),
        serde_json::Value::Object(members) => Json::Object(
            members.into_iter().map(|(key, item)| (key, json_from_value(item))).collect(),
        ),
    }
}

/// Calls `serde_json::from_slice` for a `serde_json::Value` and rebuilds the
/// value as a [`Json`]. The contract only gives the outcome its name: the
/// same bytes always read as the same document, or always fail.
#[verifier::external_body]
fn read_json(body: &[u8]) -> (outcome: Result<Json, serde_json::Error>)
    ensures
        match outcome {
            Ok(json) => parsed_json(body@) == Some(json),
            Err(_) => parsed_json(body@) is None,
        },
{
    serde_json::from_slice::<serde_json::Value>(body).map(json_from_value)
}

/// Whether `index` is the place of the first member with the given key.
pub open spec fn is_first_member(members: Seq<(String, Json)>, key: Seq<char>, index: int) -> bool {
    &&& 0 <= index < members.len()
    &&& members[index].0@ == key
    &&& forall|earlier: int| 0 <= earlier < index ==> (#[trigger] members[earlier]).0@ != key
}

/// The value of the first member with the given key, if there is one.
pub open spec fn member(members: Seq<(String, Json)>, key: Seq<char>) -> Option<Json> {
    if exists|index: int| is_first_member(members, key, index) {
        Some(members[choose|index: int| is_first_member(members, key, index)].1)
    } else {
        None
    }
}

/// The first member with the given key decides what [`member`] is.
pub proof fn lemma_first_member(members: Seq<(String, Json)>, key: Seq<char>, index: int)
    requires
        is_first_member(members, key, index),
    ensures
        member(members, key) == Some(members[index].1),
{
    let chosen = choose|at: int| is_first_member(members, key, at);
    assert(is_first_member(members, key, chosen));
    if chosen < index {
        assert(members[chosen].0@ != key);
    }
    if index < chosen {
        assert(members[index].0@ != key);
    }
}

/// Where no member has the key, [`member`] is `None`.
pub proof fn lemma_no_member(members: Seq<(String, Json)>, key: Seq<char>)
    requires
        forall|index: int| 0 <= index < members.len() ==> (#[trigger] members[index]).0@ != key,
    ensures
        member(members, key) is None,
{
    if exists|index: int| is_first_member(members, key, index) {
        let found = choose|index: int| is_first_member(members, key, index);
        assert(members[found].0@ != key);
    }
}

impl Json {
    /// The text of a string document.
    pub open spec fn text(self) -> Option<Seq<char>> {
        match self {
            Json::Text(text) => Some(text@),
            _ => None,
        }
    }

    /// Reads a document from bytes of JSON text; `None` where the bytes are
    /// not one.
    pub fn parse(body: &[u8]) -> (document: Option<Json>)
        ensures
            document == parsed_json(body@),
    {
        match read_json(body) {
            Ok(json) => Some(json),
            Err(_) => None,
        }
    }
}

/// Looks up the first member of an object that has the given key.
pub fn find_member<'a>(members: &'a Vec<(String, Json)>, key: &str) -> (found: Option<&'a Json>)
    ensures
        match found {
            Some(value) => member(members@, key@) == Some(*value),
            None => member(members@, key@) is None,
        },
{
    let mut at: usize = 0;
    while at < members.len()
        invariant
            at <= members.len(),
            forall|earlier: int| 0 <= earlier < at ==> (#[trigger] members@[earlier]).0@ != key@,
        decreases members.len() - at,
    {
        if same_text(members[at].0.as_str(), key) {
            proof {
                lemma_first_member(members@, key@, at as int);
            }
            return Some(&members[at].1);
        }
        at += 1;
    }
    proof {
        lemma_no_member(members@, key@);
    }
    None
}

} // verus!

//! JSON documents as plain data, and the parser that produces them.

use vstd::prelude::*;

verus! {

/// One member of a JSON object.
#[derive(Debug, PartialEq, Eq)]
pub struct JsonMember {
    pub name: String,
    pub value: JsonValue,
}

/// A JSON document. A number keeps its value where that is an integer that
/// fits in `i64`, and nothing otherwise.
#[derive(Debug, PartialEq, Eq)]
pub enum JsonValue {
    Null,
    Bool(bool),
    Number(Option<i64>),
    Text(String),
    Array(Vec<JsonValue>),
    Object(Vec<JsonMember>),
}

/// The text could not be read as JSON; the message is the parser's.
#[derive(Debug, PartialEq, Eq)]
pub struct InvalidJson {
    pub message: String,
}

/// `serde_json::Value`, carried through without looking inside.
#[verifier::external_type_specification]
#[verifier::external_body]
pub struct ExJsonTree(serde_json::Value);

/// What `serde_json::from_str` makes of a text, read as a `serde_json::Value`:
/// the document, or for a text that is not valid JSON the words in which the
/// parser's error says so.
pub uninterp spec fn json_document(text: Seq<char>) -> Result<JsonValue, Seq<char>>;

/// Moves a `serde_json::Value` into a `JsonValue`, variant by variant. A
/// number is read with `Number::as_i64`; the members of an object come in the
/// order in which the map hands them out.
#[verifier::external_body]
fn from_serde(value: serde_json::Value) -> JsonValue {
    match value {
        serde_json::Value::Null => JsonValue::Null,
        serde_json::Value::Bool(b) => JsonValue::Bool(b),
        serde_json::Value::Number(n) => JsonValue::Number(n.as_i64()),
        serde_json::Value::String(s) => JsonValue::Text(s),
        serde_json::Value::Array(items) => JsonValue::Array(items.into_iter().map(from_serde).collect()),
        serde_json::Value::Object(map) => JsonValue::Object(
            map.into_iter().map(|(name, v)| JsonMember { name, value: from_serde(v) }).collect(),
        ),
    }
}

/// `serde_json::from_str` at type `serde_json::Value`, with the document
/// moved into a `JsonValue` and the error into its message (`to_string`).
/// The contract names the outcome after the text alone: the same text always
/// parses the same way, and fails with the same words.
#[verifier::external_body]
fn parse_value(text: &str) -> (parsed: Result<JsonValue, String>)
    ensures
        match parsed {
            Ok(doc) => json_document(text@) == Ok::<JsonValue, Seq<char>>(doc),
            Err(message) => json_document(text@) == Err::<JsonValue, Seq<char>>(message@),
        },
{
    match serde_json::from_str::<serde_json::Value>(text) {
        Ok(value) => Ok(from_serde(value)),
        Err(error) => Err(error.to_string()),
    }
}

/// Reads a text as one JSON document. Fails exactly on the texts that are not
/// valid JSON, with the parser's message.
pub fn parse(text: &str) -> (parsed: Result<JsonValue, InvalidJson>)
    ensures
        match parsed {
            Ok(doc) => json_document(text@) == Ok::<JsonValue, Seq<char>>(doc),
            Err(invalid) => json_document(text@) == Err::<JsonValue, Seq<char>>(invalid.message@),
        },
{
    match parse_value(text) {
        Ok(doc) => Ok(doc),
        Err(message) => Err(InvalidJson { message }),
    }
}

/// The value of the first member called `name`.
pub open spec fn find_member(members: Seq<JsonMember>, name: Seq<char>) -> Option<JsonValue>
    decreases members.len(),
{
    if members.len() == 0 {
        None
    } else if members[0].name@ == name {
        Some(members[0].value)
    } else {
        find_member(members.drop_first(), name)
    }
}

impl JsonValue {
    /// The member of an object with the given name; nothing for a value that
    /// is no object or has no such member.
    pub open spec fn member(self, name: Seq<char>) -> Option<JsonValue> {
        match self {
            JsonValue::Object(members) => find_member(members@, name),
            _ => None,
        }
    }

    /// The integer that a number holds.
    pub open spec fn as_int(self) -> Option<i64> {
        match self {
            JsonValue::Number(n) => n,
            _ => None,
        }
    }

    /// The characters of a string value.
    pub open spec fn as_text(self) -> Option<Seq<char>> {
        match self {
            JsonValue::Text(s) => Some(s@),
            _ => None,
        }
    }

    /// The elements of an array.
    pub open spec fn as_items(self) -> Option<Seq<JsonValue>> {
        match self {
            JsonValue::Array(items) => Some(items@),
            _ => None,
        }
    }

    /// Looks a member up by name.
    pub fn get(&self, name: &str) -> (found: Option<&JsonValue>)
        ensures
            match found {
                Some(value) => self.member(name@) == Some(*value),
                None => self.member(name@) is None,
            },
    {
        match self {
            JsonValue::Object(members) => {
                let mut i: usize = 0;
                proof {
                    assert(members@.skip(0) == members@);
                }
                while i < members.len()
                    invariant
                        i <= members.len(),
                        self.member(name@) == find_member(members@, name@),
                        find_member(members@, name@) == find_member(members@.skip(i as int), name@),
                    decreases members.len() - i,
                {
                    let ghost rest = members@.skip(i as int);
                    proof {
                        assert(rest[0] == members@[i as int]);
                        assert(rest.drop_first() == members@.skip(i + 1));
                    }
                    if members[i].name.as_str().eq(name) {
                        assert(find_member(rest, name@) == Some(members@[i as int].value));
                        return Some(&members[i].value);
                    }
                    assert(find_member(rest, name@) == find_member(rest.drop_first(), name@));
                    i = i + 1;
                }
                None
            },
            _ => None,
        }
    }

    /// The integer of a number value.
    pub fn int_value(&self) -> (n: Option<i64>)
        ensures
            n == self.as_int(),
    {
        match self {
            JsonValue::Number(n) => *n,
            _ => None,
        }
    }

    /// The text of a string value.
    pub fn text_value(&self) -> (text: Option<&str>)
        ensures
            match text {
                Some(t) => self.as_text() == Some(t@),
                None => self.as_text() is None,
            },
    {
        match self {
            JsonValue::Text(s) => Some(s.as_str()),
            _ => None,
        }
    }

    /// The elements of an array value.
    pub fn items(&self) -> (items: Option<&Vec<JsonValue>>)
        ensures
            match items {
                Some(v) => self.as_items() == Some(v@),
                None => self.as_items() is None,
            },
    {
        match self {
            JsonValue::Array(items) => Some(items),
            _ => None,
        }
    }
}

} // verus!

use serde_json::Value;
use vstd::prelude::*;

verus! {

/// `serde_json::Value`: a JSON value as `serde_json` holds it. Its inside
/// is not looked at; it is only handed from `json_value` to
/// `json_from_value`.
#[verifier::external_type_specification]
#[verifier::external_body]
pub struct ExValue(Value);

/// A JSON value, as far as the dictionary information is read: a number is
/// kept only where it is a non-negative integer below 2^64, and the members
/// of an object have different names.
pub enum Json {
    Null,
    Bool(bool),
    Number(Option<u64>),
    String(String),
    Array(Vec<Json>),
    Object(Vec<(String, Json)>),
}

/// The value that `serde_json` reads from a text, if the text is JSON.
pub uninterp spec fn json_value_of(text: Seq<char>) -> Option<Value>;

/// A value of `serde_json`, written as a `Json`.
pub uninterp spec fn json_model(value: Value) -> Json;

/// `serde_json::from_str` for a `Value`: the value that the text spells,
/// or `None` where the text is not JSON. The result depends on the text
/// alone.
#[verifier::external_body]
pub(crate) fn json_value(text: &str) -> (r: Option<Value>)
    ensures
        r == json_value_of(text@),
{
    serde_json::from_str::<Value>(text).ok()
}

/// Copies a `Value` of `serde_json` into a `Json`, variant by variant:
/// a number through `Number::as_u64`, the elements of an array in their
/// order, the members of an object in the order of `Map::iter`. The result
/// depends on the value alone.
#[verifier::external_body]
pub(crate) fn json_from_value(value: &Value) -> (r: Json)
    ensures
        r == json_model(*value),
{
    match value {
        Value::Null => Json::Null,
        Value::Bool(b) => Json::Bool(*b),
        Value::Number(n) => Json::Number(n.as_u64()),
        Value::String(s) => Json::String(s.clone()),
        Value::Array(a) => Json::Array(a.iter().map(json_from_value).collect()),
        Value::Object(m) => Json::Object(
            m.iter().map(|(k, v)| (k.clone(), json_from_value(v))).collect(),
        ),
    }
}

/// The JSON value that a text spells, if it spells one.
pub open spec fn json_of_text(text: Seq<char>) -> Option<Json> {
    match json_value_of(text) {
        Some(value) => Some(json_model(value)),
        None => None,
    }
}

/// Reads a text as JSON.
pub fn parse_json(text: &str) -> (r: Option<Json>)
    ensures
        r == json_of_text(text@),
{
    match json_value(text) {
        Some(value) => Some(json_from_value(&value)),
        None => None,
    }
}

/// The value of the first of `members` with the name `key`.
pub open spec fn member(members: Seq<(String, Json)>, key: Seq<char>) -> Option<Json>
    decreases members.len(),
{
    if members.len() == 0 {
        None
    } else if members[0].0@ == key {
        Some(members[0].1)
    } else {
        member(members.skip(1), key)
    }
}

impl Json {
    /// The member `key` of an object.
    pub open spec fn field(self, key: Seq<char>) -> Option<Json> {
        match self {
            Json::Object(members) => member(members@, key),
            _ => None,
        }
    }

    /// The text of a string.
    pub open spec fn text(self) -> Option<String> {
        match self {
            Json::String(s) => Some(s),
            _ => None,
        }
    }

    /// The number, where it is a non-negative integer below 2^64.
    pub open spec fn number(self) -> Option<u64> {
        match self {
            Json::Number(n) => n,
            _ => None,
        }
    }

    /// The truth value of a boolean.
    pub open spec fn truth(self) -> Option<bool> {
        match self {
            Json::Bool(b) => Some(b),
            _ => None,
        }
    }

    /// The elements of an array.
    pub open spec fn elements(self) -> Option<Seq<Json>> {
        match self {
            Json::Array(a) => Some(a@),
            _ => None,
        }
    }

    /// The member `key` of an object; `None` if this is no object or has no
    /// such member.
    pub fn get(&self, key: &str) -> (r: Option<&Json>)
        ensures
            match r {
                Some(value) => self.field(key@) == Some(*value),
                None => self.field(key@) is None,
            },
    {
        match self {
            Json::Object(members) => {
                let wanted = key.to_owned();
                let mut i: usize = 0;
                assert(members@.skip(0) =~= members@);
                while i < members.len()
                    invariant
                        i <= members.len(),
                        wanted@ == key@,
                        self.field(key@) == member(members@, key@),
                        member(members@, key@) == member(members@.skip(i as int), key@),
                    decreases members.len() - i,
                {
                    let entry = &members[i];
                    if entry.0 == wanted {
                        assert(members@.skip(i as int)[0] == *entry);
                        assert(member(members@.skip(i as int), key@) == Some(entry.1));
                        assert(self.field(key@) == Some(entry.1));
                        return Some(&entry.1);
                    }
                    proof {
                        assert(members@.skip(i as int)[0] == members@[i as int]);
                        assert(members@.skip(i as int).skip(1) =~= members@.skip(i + 1));
                    }
                    i += 1;
                }
                None
            },
            _ => None,
        }
    }

    /// The text of a string; `None` if this is no string.
    pub fn as_str(&self) -> (r: Option<&String>)
        ensures
            match r {
                Some(s) => self.text() == Some(*s),
                None => self.text() is None,
            },
    {
        match self {
            Json::String(s) => Some(s),
            _ => None,
        }
    }

    /// The number; `None` if this is no number, or one that is negative, has
    /// a fraction or does not fit.
    pub fn as_u64(&self) -> (r: Option<u64>)
        ensures
            r == self.number(),
    {
        match self {
            Json::Number(n) => *n,
            _ => None,
        }
    }

    /// The truth value; `None` if this is no boolean.
    pub fn as_bool(&self) -> (r: Option<bool>)
        ensures
            r == self.truth(),
    {
        match self {
            Json::Bool(b) => Some(*b),
            _ => None,
        }
    }

    /// The elements of an array; `None` if this is no array.
    pub fn as_array(&self) -> (r: Option<&Vec<Json>>)
        ensures
            match r {
                Some(a) => self.elements() == Some(a@),
                None => self.elements() is None,
            },
    {
        match self {
            Json::Array(a) => Some(a),
            _ => None,
        }
    }
}

} // verus!

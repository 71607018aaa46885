//! A JSON document as the library reads it: the shape of a parsed JSON value, and the
//! parsing of JSON text into it.
use vstd::prelude::*;

verus! {

/// A parsed JSON value. Numbers are kept as their text; an object keeps its members in
/// the order it was given them, and a lookup by key takes the first member with that key.
#[derive(Debug)]
pub enum JsonValue {
    Null,
    Bool(bool),
    Number(String),
    Str(String),
    Array(Vec<JsonValue>),
    Object(Vec<(String, JsonValue)>),
}

/// The value that `serde_json` parses `text` into, in this library's form (`None` when
/// `serde_json` refuses the text).
pub uninterp spec fn parsed_json(text: Seq<char>) -> Option<JsonValue>;

/// The message of the error `serde_json` reports for `text`.
pub uninterp spec fn json_error_text(text: Seq<char>) -> Seq<char>;

#[verifier::external_type_specification]
#[verifier::external_body]
pub struct ExSerdeValue(serde_json::Value);

/// The value `v` in this library's form: each variant of `serde_json::Value` becomes the
/// variant of the same name, a number its text, an object its members in the order
/// `serde_json` gives them. Nothing is stated of the result.
#[verifier::external_body]
fn from_serde(v: serde_json::Value) -> JsonValue {
    match v {
        serde_json::Value::Null => JsonValue::Null,
        serde_json::Value::Bool(b) => JsonValue::Bool(b),
        serde_json::Value::Number(n) => JsonValue::Number(n.to_string()),
        serde_json::Value::String(s) => JsonValue::Str(s),
        serde_json::Value::Array(a) => JsonValue::Array(a.into_iter().map(from_serde).collect()),
        serde_json::Value::Object(m) => JsonValue::Object(
            m.into_iter().map(|(k, v)| (k, from_serde(v))).collect(),
        ),
    }
}

/// `serde_json::from_str::<serde_json::Value>`: parses `text` as JSON. The value, or the
/// error's message, is given the name `parsed_json` (`json_error_text`), a function of
/// the text alone; nothing more is stated of them.
#[verifier::external_body]
pub(crate) fn parse_json(text: &str) -> (r: Result<JsonValue, String>)
    ensures
        match r {
            Ok(v) => parsed_json(text@) == Some(v),
            Err(m) => parsed_json(text@) is None && m@ == json_error_text(text@),
        },
{
    match serde_json::from_str::<serde_json::Value>(text) {
        Ok(v) => Ok(from_serde(v)),
        Err(e) => Err(e.to_string()),
    }
}

/// `i` is the first member of `members` whose key is `key`.
pub open spec fn is_first_key(members: Seq<(String, JsonValue)>, key: Seq<char>, i: int) -> bool {
    &&& 0 <= i < members.len()
    &&& members[i].0@ == key
    &&& forall|j: int| 0 <= j < i ==> members[j].0@ != key
}

/// The member of `members` whose key is `key`, if any (the first one).
pub open spec fn member_index(members: Seq<(String, JsonValue)>, key: Seq<char>) -> Option<int> {
    if exists|i: int| 0 <= i < members.len() && members[i].0@ == key {
        Some(choose|i: int| is_first_key(members, key, i))
    } else {
        None
    }
}

impl JsonValue {
    /// What `get(key)` gives back: the value of the member named `key` of an object;
    /// nothing for any other value.
    pub open spec fn spec_get(&self, key: Seq<char>) -> Option<JsonValue> {
        match self {
            JsonValue::Object(members) => match member_index(members@, key) {
                Some(i) => Some(members@[i].1),
                None => None,
            },
            _ => None,
        }
    }

    /// What `as_str()` gives back: the text of a string value.
    pub open spec fn spec_as_str(&self) -> Option<Seq<char>> {
        match self {
            JsonValue::Str(s) => Some(s@),
            _ => None,
        }
    }

    /// The value of the member named `key` of an object; `None` for any other value
    /// or where there is no such member.
    pub fn get(&self, key: &str) -> (r: Option<&JsonValue>)
        ensures
            match r {
                Some(v) => self.spec_get(key@) == Some(*v),
                None => self.spec_get(key@) is None,
            },
    {
        match self {
            JsonValue::Object(members) => {
                let n = members.len();
                let mut i: usize = 0;
                while i < n
                    invariant
                        i <= n == members.len(),
                        *self == JsonValue::Object(*members),
                        forall|j: int| 0 <= j < i ==> members@[j].0@ != key@,
                    decreases n - i,
                {
                    if crate::text::str_eq(members[i].0.as_str(), key) {
                        proof {
                            let ii = i as int;
                            assert(is_first_key(members@, key@, ii));
                            let k = choose|k: int| is_first_key(members@, key@, k);
                            assert(k == ii) by {
                                if k < ii {
                                    assert(members@[k].0@ != key@);
                                } else if k > ii {
                                    assert(members@[ii].0@ != key@);
                                }
                            }
                        }
                        return Some(&members[i].1);
                    }
                    i += 1;
                }
                None
            },
            _ => None,
        }
    }

    /// The text of a string value.
    pub fn as_str(&self) -> (r: Option<&str>)
        ensures
            match r {
                Some(s) => self.spec_as_str() == Some(s@),
                None => self.spec_as_str() is None,
            },
    {
        match self {
            JsonValue::Str(s) => Some(s.as_str()),
            _ => None,
        }
    }

    /// Whether this is an array.
    pub fn is_array(&self) -> (b: bool)
        ensures
            b == self is Array,
    {
        match self {
            JsonValue::Array(_) => true,
            _ => false,
        }
    }
}

} // verus!

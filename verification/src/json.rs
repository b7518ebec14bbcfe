//! A plain model of JSON documents, the parse that `serde_json` performs,
//! and the lookups (`get`, `as_str`, `as_array`) that the client reads
//! replies with.
use vstd::prelude::*;
use crate::text::{chars_eq, chars_of};

verus! {

/// A JSON document. Numbers keep the text that `serde_json` prints for them;
/// object members keep their order.
pub enum Json {
    Null,
    Bool(bool),
    Number(String),
    String(String),
    Array(Vec<Json>),
    Object(Vec<(String, Json)>),
}

/// The mathematical value of a JSON document.
pub enum JsonValue {
    Null,
    Bool(bool),
    Number(Seq<char>),
    String(Seq<char>),
    Array(Seq<JsonValue>),
    Object(Seq<(Seq<char>, JsonValue)>),
}

impl Json {
    pub open spec fn spec_value(self) -> JsonValue
        decreases self,
    {
        match self {
            Json::Null => JsonValue::Null,
            Json::Bool(b) => JsonValue::Bool(b),
            Json::Number(n) => JsonValue::Number(n@),
            Json::String(s) => JsonValue::String(s@),
            Json::Array(a) => JsonValue::Array(
                Seq::new(
                    a@.len(),
                    |i: int|
                        if 0 <= i < a@.len() {
                            a@[i].spec_value()
                        } else {
                            JsonValue::Null
                        },
                ),
            ),
            Json::Object(m) => JsonValue::Object(
                Seq::new(
                    m@.len(),
                    |i: int|
                        if 0 <= i < m@.len() {
                            (m@[i].0@, m@[i].1.spec_value())
                        } else {
                            (Seq::empty(), JsonValue::Null)
                        },
                ),
            ),
        }
    }
}

impl View for Json {
    type V = JsonValue;

    open spec fn view(&self) -> JsonValue {
        self.spec_value()
    }
}

/// The value of the first member named `key` among `members`.
pub open spec fn member(members: Seq<(Seq<char>, JsonValue)>, key: Seq<char>) -> Option<JsonValue>
    decreases members.len(),
{
    if members.len() == 0 {
        None
    } else if members[0].0 == key {
        Some(members[0].1)
    } else {
        member(members.drop_first(), key)
    }
}

impl JsonValue {
    /// `value.get(key)`: the member `key` of an object, `None` for anything else.
    pub open spec fn key(self, key: Seq<char>) -> Option<JsonValue> {
        match self {
            JsonValue::Object(m) => member(m, key),
            _ => None,
        }
    }

    /// `value.get(i)`: the element `i` of an array, `None` for anything else.
    pub open spec fn at(self, i: int) -> Option<JsonValue> {
        match self {
            JsonValue::Array(a) => if 0 <= i < a.len() {
                Some(a[i])
            } else {
                None
            },
            _ => None,
        }
    }

    /// `value.as_str()`: the text of a string, `None` for anything else.
    pub open spec fn text(self) -> Option<Seq<char>> {
        match self {
            JsonValue::String(s) => Some(s),
            _ => None,
        }
    }
}

/// The member `key` of an optional value, as `and_then(|v| v.get(key))` gives it.
pub open spec fn opt_key(v: Option<JsonValue>, key: Seq<char>) -> Option<JsonValue> {
    match v {
        Some(v) => v.key(key),
        None => None,
    }
}

/// The text of an optional value, as `and_then(|v| v.as_str())` gives it.
pub open spec fn opt_text(v: Option<JsonValue>) -> Option<Seq<char>> {
    match v {
        Some(v) => v.text(),
        None => None,
    }
}

/// What `serde_json::from_str::<serde_json::Value>` makes of `text`:
/// `None` where it returns an error.
pub uninterp spec fn json_parse(text: Seq<char>) -> Option<JsonValue>;

#[verifier::external_type_specification]
#[verifier::external_body]
pub struct ExJsonDocument(serde_json::Value);

/// Converts a `serde_json::Value` into a `Json`, one variant for one
/// variant; a number becomes the text that `Number`'s `Display` prints.
#[verifier::external_body]
fn json_of_value(v: serde_json::Value) -> Json {
    match v {
        serde_json::Value::Null => Json::Null,
        serde_json::Value::Bool(b) => Json::Bool(b),
        serde_json::Value::Number(n) => Json::Number(n.to_string()),
        serde_json::Value::String(s) => Json::String(s),
        serde_json::Value::Array(a) => Json::Array(a.into_iter().map(json_of_value).collect()),
        serde_json::Value::Object(m) => Json::Object(
            m.into_iter().map(|(k, v)| (k, json_of_value(v))).collect(),
        ),
    }
}

/// Calls `serde_json::from_str::<serde_json::Value>(text)` and converts the
/// document it returns. The contract claims only that the result is the
/// named parse of `text`: it depends on the text alone.
#[verifier::external_body]
pub(crate) fn parse_json(text: &str) -> (r: Option<Json>)
    ensures
        match r {
            Some(j) => json_parse(text@) == Some(j@),
            None => json_parse(text@) is None,
        },
{
    match serde_json::from_str::<serde_json::Value>(text) {
        Ok(v) => Some(json_of_value(v)),
        Err(_) => None,
    }
}

impl Json {
    /// `value.get(key)` for a string key.
    pub fn get_key(&self, key: &[char]) -> (r: Option<&Json>)
        ensures
            match r {
                Some(x) => self@.key(key@) == Some(x@),
                None => self@.key(key@) is None,
            },
    {
        match self {
            Json::Object(m) => {
                let ghost mv = self@->Object_0;
                let mut i: usize = 0;
                assert(mv.skip(0) =~= mv);
                while i < m.len()
                    invariant
                        i <= m.len(),
                        mv.len() == m@.len(),
                        forall|j: int| 0 <= j < m@.len() ==> #[trigger] mv[j] == (m@[j].0@, m@[j].1@),
                        self@.key(key@) == member(mv.skip(i as int), key@),
                    decreases m.len() - i,
                {
                    let k = chars_of(m[i].0.as_str());
                    assert(mv.skip(i as int).drop_first() =~= mv.skip(i + 1));
                    assert(mv.skip(i as int)[0] == mv[i as int]);
                    if chars_eq(&k, key) {
                        assert(mv[i as int].0 == key@);
                        assert(member(mv.skip(i as int), key@) == Some(mv[i as int].1));
                        return Some(&m[i].1);
                    }
                    i = i + 1;
                }
                None
            },
            _ => None,
        }
    }

    /// `value.get(i)` for an array index.
    pub fn get_index(&self, i: usize) -> (r: Option<&Json>)
        ensures
            match r {
                Some(x) => self@.at(i as int) == Some(x@),
                None => self@.at(i as int) is None,
            },
    {
        match self {
            Json::Array(a) => {
                if i < a.len() {
                    Some(&a[i])
                } else {
                    None
                }
            },
            _ => None,
        }
    }

    /// `value.as_str()`.
    pub fn as_text(&self) -> (r: Option<&String>)
        ensures
            match r {
                Some(s) => self@.text() == Some(s@),
                None => self@.text() is None,
            },
    {
        match self {
            Json::String(s) => Some(s),
            _ => None,
        }
    }
}

} // verus!

//! JSON documents as the library reads them: the output of `wt list`,
//! `wt switch`, `wt remove` and of herdr's pane list, snapshot and errors.
use vstd::prelude::*;
use crate::text::str_eq;

verus! {

/// The mathematical value of a JSON document.
pub enum JsonValue {
    Null,
    Bool(bool),
    Number(Seq<char>),
    Str(Seq<char>),
    Array(Seq<JsonValue>),
    Object(Seq<(Seq<char>, JsonValue)>),
}

/// A JSON document. Numbers keep their text; object members keep the
/// order in which the parser handed them over.
#[derive(Debug)]
pub enum Json {
    Null,
    Bool(bool),
    Number(String),
    Str(String),
    Array(Vec<Json>),
    Object(Vec<(String, Json)>),
}

pub open spec fn json_value(j: Json) -> JsonValue
    decreases j, 0nat,
{
    match j {
        Json::Null => JsonValue::Null,
        Json::Bool(b) => JsonValue::Bool(b),
        Json::Number(n) => JsonValue::Number(n@),
        Json::Str(s) => JsonValue::Str(s@),
        Json::Array(v) => JsonValue::Array(json_values(v@)),
        Json::Object(m) => JsonValue::Object(json_members(m@)),
    }
}

pub open spec fn json_values(s: Seq<Json>) -> Seq<JsonValue>
    decreases s, 1nat,
{
    if s.len() == 0 {
        Seq::empty()
    } else {
        seq![json_value(s[0])] + json_values(s.drop_first())
    }
}

pub open spec fn json_members(s: Seq<(String, Json)>) -> Seq<(Seq<char>, JsonValue)>
    decreases s, 1nat,
{
    if s.len() == 0 {
        Seq::empty()
    } else {
        seq![(s[0].0@, json_value(s[0].1))] + json_members(s.drop_first())
    }
}


/// The value of the first member named `key`.
pub open spec fn lookup(ms: Seq<(Seq<char>, JsonValue)>, key: Seq<char>) -> Option<JsonValue>
    decreases ms.len(),
{
    if ms.len() == 0 {
        None
    } else if ms[0].0 == key {
        Some(ms[0].1)
    } else {
        lookup(ms.drop_first(), key)
    }
}

/// The member `key` of an object (`Value::get` with a string index);
/// `None` for anything but an object.
pub open spec fn member(v: JsonValue, key: Seq<char>) -> Option<JsonValue> {
    match v {
        JsonValue::Object(ms) => lookup(ms, key),
        _ => None,
    }
}

/// `member`, applied when there is a value.
pub open spec fn member_of(v: Option<JsonValue>, key: Seq<char>) -> Option<JsonValue> {
    match v {
        Some(x) => member(x, key),
        None => None,
    }
}

/// The text of a string value (`Value::as_str`).
pub open spec fn text_of(v: Option<JsonValue>) -> Option<Seq<char>> {
    match v {
        Some(JsonValue::Str(s)) => Some(s),
        _ => None,
    }
}

/// The truth value of a boolean (`Value::as_bool`).
pub open spec fn bool_of(v: Option<JsonValue>) -> Option<bool> {
    match v {
        Some(JsonValue::Bool(b)) => Some(b),
        _ => None,
    }
}

/// The elements of an array (`Value::as_array`).
pub open spec fn array_of(v: Option<JsonValue>) -> Option<Seq<JsonValue>> {
    match v {
        Some(JsonValue::Array(xs)) => Some(xs),
        _ => None,
    }
}

/// Whether the value is an object (`Value::as_object`).
pub open spec fn is_object(v: Option<JsonValue>) -> bool {
    v matches Some(JsonValue::Object(_))
}

pub proof fn lemma_values_index(s: Seq<Json>)
    ensures
        json_values(s).len() == s.len(),
        forall|i: int| 0 <= i < s.len() ==> #[trigger] json_values(s)[i] == json_value(s[i]),
    decreases s.len(),
{
    if s.len() > 0 {
        lemma_values_index(s.drop_first());
        assert forall|i: int| 0 <= i < s.len() implies #[trigger] json_values(s)[i] == json_value(s[i]) by {
            if i > 0 {
                assert(s.drop_first()[i - 1] == s[i]);
            }
        }
    }
}

pub proof fn lemma_members_index(s: Seq<(String, Json)>)
    ensures
        json_members(s).len() == s.len(),
        forall|i: int| 0 <= i < s.len() ==> #[trigger] json_members(s)[i] == (s[i].0@, json_value(s[i].1)),
    decreases s.len(),
{
    if s.len() > 0 {
        lemma_members_index(s.drop_first());
        assert forall|i: int| 0 <= i < s.len() implies #[trigger] json_members(s)[i] == (s[i].0@, json_value(s[i].1)) by {
            if i > 0 {
                assert(s.drop_first()[i - 1] == s[i]);
            }
        }
    }
}

proof fn lemma_lookup_step(ms: Seq<(Seq<char>, JsonValue)>, key: Seq<char>, i: int)
    requires
        0 <= i < ms.len(),
    ensures
        lookup(ms.skip(i), key) == (if ms[i].0 == key {
            Some(ms[i].1)
        } else {
            lookup(ms.skip(i + 1), key)
        }),
{
    assert(ms.skip(i).drop_first() =~= ms.skip(i + 1));
}

impl Json {
    /// The mathematical value of this document.
    pub open spec fn value(&self) -> JsonValue {
        json_value(*self)
    }

    /// The member `key` of an object (`Value::get`).
    pub fn get(&self, key: &str) -> (r: Option<&Json>)
        ensures
            r is Some == member(self.value(), key@) is Some,
            r matches Some(x) ==> member(self.value(), key@) == Some(x.value()),
    {
        match self {
            Json::Object(m) => {
                let n = m.len();
                let mut i: usize = 0;
                proof {
                    lemma_members_index(m@);
                    assert(json_members(m@).skip(0) =~= json_members(m@));
                }
                while i < n
                    invariant
                        n == m@.len(),
                        i <= n,
                        *self == Json::Object(*m),
                        json_members(m@).len() == n,
                        forall|j: int| 0 <= j < n ==> #[trigger] json_members(m@)[j] == (m@[j].0@, json_value(m@[j].1)),
                        member(self.value(), key@) == lookup(json_members(m@).skip(i as int), key@),
                    decreases n - i,
                {
                    proof {
                        lemma_lookup_step(json_members(m@), key@, i as int);
                    }
                    if str_eq(m[i].0.as_str(), key) {
                        return Some(&m[i].1);
                    }
                    i = i + 1;
                }
                assert(json_members(m@).skip(n as int) =~= Seq::<(Seq<char>, JsonValue)>::empty());
                None
            },
            _ => None,
        }
    }

    /// The text of a string (`Value::as_str`).
    pub fn as_str(&self) -> (r: Option<&str>)
        ensures
            r is Some == text_of(Some(self.value())) is Some,
            r matches Some(s) ==> text_of(Some(self.value())) == Some(s@),
    {
        match self {
            Json::Str(s) => Some(s.as_str()),
            _ => None,
        }
    }

    /// The truth value of a boolean (`Value::as_bool`).
    pub fn as_bool(&self) -> (r: Option<bool>)
        ensures
            r == bool_of(Some(self.value())),
    {
        match self {
            Json::Bool(b) => Some(*b),
            _ => None,
        }
    }

    /// The elements of an array (`Value::as_array`).
    pub fn as_array(&self) -> (r: Option<&Vec<Json>>)
        ensures
            r is Some == array_of(Some(self.value())) is Some,
            r matches Some(xs) ==> array_of(Some(self.value())) == Some(json_values(xs@)),
    {
        match self {
            Json::Array(v) => Some(v),
            _ => None,
        }
    }

    /// Whether this is an object (`Value::is_object`).
    pub fn is_object(&self) -> (r: bool)
        ensures
            r == is_object(Some(self.value())),
    {
        match self {
            Json::Object(_) => true,
            _ => false,
        }
    }
}

/// The text of the member `key`, when it is a string.
pub fn get_text<'a>(j: &'a Json, key: &str) -> (r: Option<&'a str>)
    ensures
        r is Some == text_of(member(j.value(), key@)) is Some,
        r matches Some(s) ==> text_of(member(j.value(), key@)) == Some(s@),
{
    match j.get(key) {
        Some(x) => x.as_str(),
        None => None,
    }
}

/// Whether the member `key` is the boolean `true`; a missing or
/// non-boolean member counts as `false`.
pub fn get_flag(j: &Json, key: &str) -> (r: bool)
    ensures
        r == (bool_of(member(j.value(), key@)) == Some(true)),
{
    match j.get(key) {
        Some(x) => match x.as_bool() {
            Some(b) => b,
            None => false,
        },
        None => false,
    }
}

/// The document that serde_json reads from `bytes`, if they hold one.
pub uninterp spec fn json_document(bytes: Seq<u8>) -> Option<JsonValue>;

#[verifier::external_type_specification]
#[verifier::external_body]
pub struct ExSerdeValue(serde_json::Value);

/// Copies a `serde_json::Value` into a `Json`, variant for variant.
#[verifier::external_body]
fn json_from_serde(v: &serde_json::Value) -> Json {
    match v {
        serde_json::Value::Null => Json::Null,
        serde_json::Value::Bool(b) => Json::Bool(*b),
        serde_json::Value::Number(n) => Json::Number(n.to_string()),
        serde_json::Value::String(s) => Json::Str(s.clone()),
        serde_json::Value::Array(xs) => Json::Array(xs.iter().map(json_from_serde).collect()),
        serde_json::Value::Object(m) => Json::Object(
            m.iter().map(|(k, x)| (k.clone(), json_from_serde(x))).collect(),
        ),
    }
}

/// Reads a JSON document with `serde_json::from_slice`. Trusted: the
/// document is `json_document(bytes)`, the value serde_json reads, and
/// the call fails exactly when serde_json finds no document. The text of
/// the error is serde_json's and is left unsaid.
#[verifier::external_body]
pub fn parse_json(bytes: &[u8]) -> (r: Result<Json, String>)
    ensures
        r is Ok == json_document(bytes@) is Some,
        r matches Ok(j) ==> json_document(bytes@) == Some(j.value()),
{
    match serde_json::from_slice::<serde_json::Value>(bytes) {
        Ok(v) => Ok(json_from_serde(&v)),
        Err(e) => Err(e.to_string()),
    }
}

} // verus!

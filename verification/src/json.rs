//! The JSON values that the bridge exchanges with the Flutter daemon and with
//! the editor, and their mathematical model.
//!
//! Objects keep their members in order; looking a key up finds its first
//! member, as an object read from text never holds a key twice.
use vstd::prelude::*;

use serde_json::Value;

use crate::text::str_eq;

verus! {

broadcast use vstd::std_specs::vec::group_vec_axioms;

/// A JSON number: a non-negative integer, a negative integer, or any other
/// number kept as its decimal text.
#[derive(Debug, PartialEq)]
pub enum JsonNumber {
    PosInt(u64),
    NegInt(i64),
    Float(String),
}

/// A JSON value.
#[derive(Debug, PartialEq)]
pub enum Json {
    Null,
    Bool(bool),
    Number(JsonNumber),
    Str(String),
    Array(Vec<Json>),
    Object(Vec<(String, Json)>),
}

/// Model of a JSON number.
pub enum NumberModel {
    PosInt(u64),
    NegInt(i64),
    Float(Seq<char>),
}

/// Model of a JSON value: strings are character sequences.
pub enum JsonModel {
    Null,
    Bool(bool),
    Number(NumberModel),
    Str(Seq<char>),
    Array(Seq<JsonModel>),
    Object(Seq<(Seq<char>, JsonModel)>),
}

pub open spec fn number_model(n: JsonNumber) -> NumberModel {
    match n {
        JsonNumber::PosInt(u) => NumberModel::PosInt(u),
        JsonNumber::NegInt(i) => NumberModel::NegInt(i),
        JsonNumber::Float(s) => NumberModel::Float(s@),
    }
}

pub open spec fn model_of(j: Json) -> JsonModel
    decreases j,
{
    match j {
        Json::Null => JsonModel::Null,
        Json::Bool(b) => JsonModel::Bool(b),
        Json::Number(n) => JsonModel::Number(number_model(n)),
        Json::Str(s) => JsonModel::Str(s@),
        Json::Array(items) => JsonModel::Array(models_of(items@)),
        Json::Object(entries) => JsonModel::Object(entry_models_of(entries@)),
    }
}

pub open spec fn models_of(items: Seq<Json>) -> Seq<JsonModel>
    decreases items,
{
    if items.len() == 0 {
        Seq::empty()
    } else {
        models_of(items.drop_last()).push(model_of(items.last()))
    }
}

pub open spec fn entry_models_of(entries: Seq<(String, Json)>) -> Seq<(Seq<char>, JsonModel)>
    decreases entries,
{
    if entries.len() == 0 {
        Seq::empty()
    } else {
        entry_models_of(entries.drop_last()).push(
            (entries.last().0@, model_of(entries.last().1)),
        )
    }
}

impl View for Json {
    type V = JsonModel;

    open spec fn view(&self) -> JsonModel {
        model_of(*self)
    }
}

/// A JSON object with the given members, in order.
pub open spec fn object(members: Seq<(Seq<char>, JsonModel)>) -> JsonModel {
    JsonModel::Object(members)
}

/// The value of the first member named `key`.
pub open spec fn lookup(entries: Seq<(Seq<char>, JsonModel)>, key: Seq<char>) -> Option<JsonModel>
    decreases entries.len(),
{
    if entries.len() == 0 {
        None
    } else if entries[0].0 == key {
        Some(entries[0].1)
    } else {
        lookup(entries.drop_first(), key)
    }
}

impl JsonModel {
    /// `value[key]` of an object; `None` for a missing key or a non-object.
    pub open spec fn get(self, key: Seq<char>) -> Option<JsonModel> {
        match self {
            JsonModel::Object(entries) => lookup(entries, key),
            _ => None,
        }
    }

    pub open spec fn as_str(self) -> Option<Seq<char>> {
        match self {
            JsonModel::Str(s) => Some(s),
            _ => None,
        }
    }

    pub open spec fn as_bool(self) -> Option<bool> {
        match self {
            JsonModel::Bool(b) => Some(b),
            _ => None,
        }
    }

    pub open spec fn as_u64(self) -> Option<u64> {
        match self {
            JsonModel::Number(NumberModel::PosInt(u)) => Some(u),
            _ => None,
        }
    }

    pub open spec fn as_array(self) -> Option<Seq<JsonModel>> {
        match self {
            JsonModel::Array(items) => Some(items),
            _ => None,
        }
    }

    /// The string member `key`, if there is one.
    pub open spec fn str_member(self, key: Seq<char>) -> Option<Seq<char>> {
        match self.get(key) {
            Some(v) => v.as_str(),
            None => None,
        }
    }

    /// The boolean member `key`, if there is one.
    pub open spec fn bool_member(self, key: Seq<char>) -> Option<bool> {
        match self.get(key) {
            Some(v) => v.as_bool(),
            None => None,
        }
    }
}

/// The member found for `key` is the first one named `key`.
pub proof fn lemma_lookup_at(entries: Seq<(Seq<char>, JsonModel)>, key: Seq<char>, i: int)
    requires
        0 <= i < entries.len(),
        entries[i].0 == key,
        forall|j: int| 0 <= j < i ==> entries[j].0 != key,
    ensures
        lookup(entries, key) == Some(entries[i].1),
    decreases i,
{
    if i > 0 {
        lemma_lookup_at(entries.drop_first(), key, i - 1);
    }
}

pub proof fn lemma_models_of(items: Seq<Json>)
    ensures
        models_of(items).len() == items.len(),
        forall|i: int| 0 <= i < items.len() ==> #[trigger] models_of(items)[i] == model_of(items[i]),
    decreases items.len(),
{
    if items.len() > 0 {
        lemma_models_of(items.drop_last());
    }
}

pub proof fn lemma_entry_models_of(entries: Seq<(String, Json)>)
    ensures
        entry_models_of(entries).len() == entries.len(),
        forall|i: int|
            0 <= i < entries.len() ==> #[trigger] entry_models_of(entries)[i] == (
                entries[i].0@,
                model_of(entries[i].1),
            ),
    decreases entries.len(),
{
    if entries.len() > 0 {
        lemma_entry_models_of(entries.drop_last());
    }
}


/// Declares `serde_json::Value`, the value `serde_json` reads text into and
/// writes text from, as an opaque type: nothing is claimed about what a
/// value holds; it only passes between the two conversions below and
/// `serde_json`'s reader and writer.
#[verifier::external_type_specification]
#[verifier::external_body]
pub struct ExValue(serde_json::Value);

/// The JSON value that `serde_json` reads from `text`, if the text is JSON.
pub uninterp spec fn json_text_value(text: Seq<char>) -> Option<JsonModel>;

/// The text that `serde_json` writes for `value`.
pub uninterp spec fn json_text(value: JsonModel) -> Seq<char>;

/// Converts a `serde_json::Value` into the same value of this library, one
/// variant for one variant. Nothing is claimed of the result.
#[verifier::external_body]
fn json_of_value(v: Value) -> Json {
    match v {
        Value::Null => Json::Null,
        Value::Bool(b) => Json::Bool(b),
        Value::Number(n) => Json::Number(match (n.as_u64(), n.as_i64()) {
            (Some(u), _) => JsonNumber::PosInt(u),
            (None, Some(i)) => JsonNumber::NegInt(i),
            (None, None) => JsonNumber::Float(n.to_string()),
        }),
        Value::String(t) => Json::Str(t),
        Value::Array(a) => Json::Array(a.into_iter().map(json_of_value).collect()),
        Value::Object(m) => Json::Object(m.into_iter().map(|(k, e)| (k, json_of_value(e))).collect()),
    }
}

/// Converts a value of this library into the same `serde_json::Value`, one
/// variant for one variant. Nothing is claimed of the result.
#[verifier::external_body]
fn value_of_json(j: &Json) -> Value {
    match j {
        Json::Null => Value::Null,
        Json::Bool(b) => Value::Bool(*b),
        Json::Number(JsonNumber::PosInt(u)) => Value::from(*u),
        Json::Number(JsonNumber::NegInt(i)) => Value::from(*i),
        Json::Number(JsonNumber::Float(t)) => t.parse().map(Value::Number).unwrap_or(Value::Null),
        Json::Str(t) => Value::String(t.clone()),
        Json::Array(a) => Value::Array(a.iter().map(value_of_json).collect()),
        Json::Object(m) => Value::Object(m.iter().map(|(k, e)| (k.clone(), value_of_json(e))).collect()),
    }
}

/// Reads `text` with `serde_json::from_str` into a JSON value. The contract
/// claims that the outcome is a function of the text alone, named
/// `json_text_value`; what that function is, is left to `serde_json`.
#[verifier::external_body]
pub(crate) fn parse_json_text(text: &str) -> (r: Option<Json>)
    ensures
        r matches Some(j) ==> json_text_value(text@) == Some(j@),
        r is None ==> json_text_value(text@) is None,
{
    serde_json::from_str::<Value>(text).ok().map(json_of_value)
}

/// Writes `j` with `serde_json::to_string`. The contract claims that the
/// text is a function of the value alone, named `json_text`; what that
/// function is, is left to `serde_json`.
#[verifier::external_body]
pub(crate) fn json_to_text(j: &Json) -> (r: String)
    ensures
        r@ == json_text(j@),
{
    value_of_json(j).to_string()
}

impl JsonNumber {
    /// A copy of this number.
    pub fn duplicate(&self) -> (r: JsonNumber)
        ensures
            number_model(r) == number_model(*self),
    {
        match self {
            JsonNumber::PosInt(u) => JsonNumber::PosInt(*u),
            JsonNumber::NegInt(i) => JsonNumber::NegInt(*i),
            JsonNumber::Float(t) => JsonNumber::Float(t.clone()),
        }
    }
}

impl Json {
    /// A deep copy of this value.
    pub fn duplicate(&self) -> (r: Json)
        ensures
            r@ == self@,
        decreases self,
    {
        match self {
            Json::Null => Json::Null,
            Json::Bool(b) => Json::Bool(*b),
            Json::Number(n) => Json::Number(n.duplicate()),
            Json::Str(t) => Json::Str(t.clone()),
            Json::Array(items) => {
                let mut out: Vec<Json> = Vec::new();
                let mut i: usize = 0;
                while i < items.len()
                    invariant
                        *self == Json::Array(*items),
                        i <= items.len(),
                        models_of(out@) == models_of(items@.subrange(0, i as int)),
                    decreases items.len() - i,
                {
                    proof {
                        assert(decreases_to!(*self => (*self)->Array_0));
                    }
                    let c = items[i].duplicate();
                    proof {
                        let pre = items@.subrange(0, i as int);
                        let post = items@.subrange(0, i + 1);
                        assert(post.drop_last() =~= pre);
                        assert(out@.push(c).drop_last() =~= out@);
                    }
                    out.push(c);
                    i = i + 1;
                }
                proof {
                    assert(items@.subrange(0, items@.len() as int) =~= items@);
                }
                Json::Array(out)
            },
            Json::Object(entries) => {
                let mut out: Vec<(String, Json)> = Vec::new();
                let mut i: usize = 0;
                while i < entries.len()
                    invariant
                        *self == Json::Object(*entries),
                        i <= entries.len(),
                        entry_models_of(out@) == entry_models_of(entries@.subrange(0, i as int)),
                    decreases entries.len() - i,
                {
                    let k = entries[i].0.clone();
                    proof {
                        assert(decreases_to!(entries[i as int] => entries[i as int].1));
                        assert(decreases_to!(*self => (*self)->Object_0));
                    }
                    let v = entries[i].1.duplicate();
                    proof {
                        let pre = entries@.subrange(0, i as int);
                        let post = entries@.subrange(0, i + 1);
                        assert(post.drop_last() =~= pre);
                        assert(out@.push((k, v)).drop_last() =~= out@);
                    }
                    out.push((k, v));
                    i = i + 1;
                }
                proof {
                    assert(entries@.subrange(0, entries@.len() as int) =~= entries@);
                }
                Json::Object(out)
            },
        }
    }

    /// `self[key]` for an object; `None` for a missing key or a non-object.
    pub fn get(&self, key: &str) -> (r: Option<&Json>)
        ensures
            r matches Some(v) ==> self@.get(key@) == Some(v@),
            r is None ==> self@.get(key@) is None,
    {
        match self {
            Json::Object(entries) => {
                let ghost ms = entry_models_of(entries@);
                proof {
                    lemma_entry_models_of(entries@);
                    assert(ms.subrange(0, ms.len() as int) =~= ms);
                }
                let mut i: usize = 0;
                while i < entries.len()
                    invariant
                        *self == Json::Object(*entries),
                        i <= entries.len(),
                        ms == entry_models_of(entries@),
                        ms.len() == entries.len(),
                        forall|t: int|
                            0 <= t < entries.len() ==> #[trigger] ms[t] == (
                                entries@[t].0@,
                                model_of(entries@[t].1),
                            ),
                        lookup(ms, key@) == lookup(ms.subrange(i as int, ms.len() as int), key@),
                    decreases entries.len() - i,
                {
                    let ghost rest = ms.subrange(i as int, ms.len() as int);
                    proof {
                        assert(rest[0] == ms[i as int]);
                        assert(rest.drop_first() =~= ms.subrange(i + 1, ms.len() as int));
                    }
                    if str_eq(entries[i].0.as_str(), key) {
                        return Some(&entries[i].1);
                    }
                    i = i + 1;
                }
                None
            },
            _ => None,
        }
    }

    pub fn as_str(&self) -> (r: Option<&String>)
        ensures
            r matches Some(t) ==> self@.as_str() == Some(t@),
            r is None ==> self@.as_str() is None,
    {
        match self {
            Json::Str(t) => Some(t),
            _ => None,
        }
    }

    pub fn as_bool(&self) -> (r: Option<bool>)
        ensures
            r == self@.as_bool(),
    {
        match self {
            Json::Bool(b) => Some(*b),
            _ => None,
        }
    }

    pub fn as_u64(&self) -> (r: Option<u64>)
        ensures
            r == self@.as_u64(),
    {
        match self {
            Json::Number(JsonNumber::PosInt(u)) => Some(*u),
            _ => None,
        }
    }

    pub fn as_array(&self) -> (r: Option<&Vec<Json>>)
        ensures
            r matches Some(items) ==> self@.as_array() == Some(models_of(items@)),
            r is None ==> self@.as_array() is None,
    {
        match self {
            Json::Array(items) => Some(items),
            _ => None,
        }
    }

    /// The string member `key`, copied.
    pub fn str_member(&self, key: &str) -> (r: Option<String>)
        ensures
            r matches Some(t) ==> self@.str_member(key@) == Some(t@),
            r is None ==> self@.str_member(key@) is None,
    {
        match self.get(key) {
            Some(v) => match v.as_str() {
                Some(t) => Some(t.clone()),
                None => None,
            },
            None => None,
        }
    }

    /// The boolean member `key`.
    pub fn bool_member(&self, key: &str) -> (r: Option<bool>)
        ensures
            r == self@.bool_member(key@),
    {
        match self.get(key) {
            Some(v) => v.as_bool(),
            None => None,
        }
    }
}

} // verus!

//! A JSON value as this library reads it, and the calls into `serde_json`
//! that produce one.

use vstd::prelude::*;

verus! {

/// A JSON value held in plain Rust values.
///
/// A number keeps its decimal text, and an object keeps its members as a list
/// of key and value.
#[derive(Debug, PartialEq, Eq)]
pub enum Json {
    Null,
    Bool(bool),
    Number(String),
    Text(String),
    Array(Vec<Json>),
    Object(Vec<(String, Json)>),
}

/// The mathematical value of a [`Json`]: strings are sequences of characters
/// and lists are sequences.
pub enum JsonView {
    Null,
    Bool(bool),
    Number(Seq<char>),
    Text(Seq<char>),
    Array(Seq<JsonView>),
    Object(Seq<(Seq<char>, JsonView)>),
}

/// The value that `json` stands for.
pub open spec fn json_value(json: Json) -> JsonView
    decreases json,
{
    match json {
        Json::Null => JsonView::Null,
        Json::Bool(b) => JsonView::Bool(b),
        Json::Number(n) => JsonView::Number(n@),
        Json::Text(s) => JsonView::Text(s@),
        Json::Array(items) => JsonView::Array(
            Seq::new(
                items.len() as nat,
                |i: int|
                    if 0 <= i < items.len() {
                        json_value(items[i])
                    } else {
                        JsonView::Null
                    },
            ),
        ),
        Json::Object(members) => JsonView::Object(
            Seq::new(
                members.len() as nat,
                |i: int|
                    if 0 <= i < members.len() {
                        (members[i].0@, json_value(members[i].1))
                    } else {
                        (Seq::empty(), JsonView::Null)
                    },
            ),
        ),
    }
}

impl DeepView for Json {
    type V = JsonView;

    open spec fn deep_view(&self) -> JsonView {
        json_value(*self)
    }
}

impl JsonView {
    /// The value of the first member of an object whose key is `key`, searched
    /// from position `from` on; `None` for anything but an object.
    pub open spec fn member_from(self, key: Seq<char>, from: int) -> Option<JsonView>
        decreases
            (match self {
                JsonView::Object(members) => members.len() - from,
                _ => 0,
            }),
    {
        match self {
            JsonView::Object(members) => if from < 0 || from >= members.len() {
                None
            } else if members[from].0 == key {
                Some(members[from].1)
            } else {
                self.member_from(key, from + 1)
            },
            _ => None,
        }
    }

    /// The value of the first member of an object whose key is `key`.
    pub open spec fn member(self, key: Seq<char>) -> Option<JsonView> {
        self.member_from(key, 0)
    }
}

/// The value of a list of JSON values is the list of their values.
pub proof fn lemma_array_view(items: Vec<Json>)
    ensures
        Json::Array(items).deep_view() == JsonView::Array(items.deep_view()),
{
    assert(Json::Array(items).deep_view()->Array_0 =~= items.deep_view());
}

/// The value of a list of members is the list of the members' values.
pub proof fn lemma_object_view(members: Vec<(String, Json)>)
    ensures
        Json::Object(members).deep_view() == JsonView::Object(members.deep_view()),
{
    let whole = Json::Object(members);
    let direct = whole.deep_view()->Object_0;
    assert(whole.deep_view() == JsonView::Object(direct));
    assert(direct =~= members.deep_view()) by {
        reveal_with_fuel(json_value, 2);
    }
}

impl Clone for Json {
    fn clone(&self) -> (copy: Json)
        ensures
            copy.deep_view() == self.deep_view(),
        decreases self,
    {
        match self {
            Json::Null => Json::Null,
            Json::Bool(b) => Json::Bool(*b),
            Json::Number(n) => Json::Number(n.clone()),
            Json::Text(s) => Json::Text(s.clone()),
            Json::Array(items) => {
                let mut copies: Vec<Json> = Vec::new();
                let mut i: usize = 0;
                while i < items.len()
                    invariant
                        i <= items.len(),
                        copies.len() == i,
                        *self == Json::Array(*items),
                        forall|k: int| 0 <= k < i ==> copies[k].deep_view() == items[k].deep_view(),
                    decreases items.len() - i,
                {
                    assert(decreases_to!(self => items[i as int])) by {
                        assert(self->Array_0 == *items);
                        assert(decreases_to!(*self => self->Array_0));
                        assert(decreases_to!(self->Array_0 => self->Array_0[i as int]));
                    }
                    copies.push(items[i].clone());
                    i += 1;
                }
                proof {
                    lemma_array_view(copies);
                    lemma_array_view(*items);
                    assert(copies.deep_view() =~= items.deep_view());
                }
                Json::Array(copies)
            },
            Json::Object(members) => {
                let mut copies: Vec<(String, Json)> = Vec::new();
                let mut i: usize = 0;
                while i < members.len()
                    invariant
                        i <= members.len(),
                        copies.len() == i,
                        *self == Json::Object(*members),
                        forall|k: int|
                            0 <= k < i ==> copies[k].deep_view() == members[k].deep_view(),
                    decreases members.len() - i,
                {
                    assert(decreases_to!(self => members[i as int].1)) by {
                        assert(self->Object_0 == *members);
                        assert(decreases_to!(*self => self->Object_0));
                        assert(decreases_to!(self->Object_0 => self->Object_0[i as int]));
                        assert(decreases_to!(self->Object_0[i as int] => self->Object_0[i as int].1));
                    }
                    copies.push((members[i].0.clone(), members[i].1.clone()));
                    i += 1;
                }
                proof {
                    lemma_object_view(copies);
                    lemma_object_view(*members);
                    assert(copies.deep_view() =~= members.deep_view());
                }
                Json::Object(copies)
            },
        }
    }
}

/// `serde_json::Value`, the tree that `serde_json` parses a text into.
#[verifier::external_type_specification]
#[verifier::external_body]
pub struct ExValue(serde_json::Value);

/// `serde_json::Error`, which says why a text is not JSON.
#[verifier::external_type_specification]
#[verifier::external_body]
pub struct ExJsonError(serde_json::Error);

/// What `serde_json::from_str` reads in a text: the value it finds there, or
/// `None` where it reports an error.
pub uninterp spec fn parsed_json(text: Seq<char>) -> Option<JsonView>;

/// What a `serde_json::Value` holds.
pub uninterp spec fn value_content(value: serde_json::Value) -> JsonView;

/// Calls `serde_json::from_str` for a `serde_json::Value`. The contract only
/// names the outcome: `parsed_json` of the text is the content of the value
/// that came back, and is `None` where an error came back.
#[verifier::external_body]
fn parse_value(text: &str) -> (outcome: Result<serde_json::Value, serde_json::Error>)
    ensures
        outcome matches Ok(value) ==> parsed_json(text@) == Some(value_content(value)),
        outcome is Err ==> parsed_json(text@) is None,
{
    serde_json::from_str::<serde_json::Value>(text)
}

/// Copies a `serde_json::Value` into a [`Json`], variant by variant: a number
/// by the text that `serde_json::Number` displays, an object by the members
/// that `serde_json::Map::iter` hands out, in its order. The contract says
/// that the copy stands for the content of the value.
#[verifier::external_body]
fn copy_value(value: &serde_json::Value) -> (json: Json)
    ensures
        json.deep_view() == value_content(*value),
{
    match value {
        serde_json::Value::Null => Json::Null,
        serde_json::Value::Bool(b) => Json::Bool(*b),
        serde_json::Value::Number(n) => Json::Number(n.to_string()),
        serde_json::Value::String(s) => Json::Text(s.clone()),
        serde_json::Value::Array(items) => Json::Array(items.iter().map(copy_value).collect()),
        serde_json::Value::Object(members) => Json::Object(
            members.iter().map(|(k, v)| (k.clone(), copy_value(v))).collect(),
        ),
    }
}

impl Json {
    /// The content of a `serde_json::Value`.
    pub fn from_value(value: &serde_json::Value) -> (json: Json)
        ensures
            json.deep_view() == value_content(*value),
    {
        copy_value(value)
    }

    /// Reads a JSON text; `None` where the text is not JSON.
    pub fn parse(text: &str) -> (json: Option<Json>)
        ensures
            json.deep_view() == parsed_json(text@),
    {
        match parse_value(text) {
            Ok(value) => Some(copy_value(&value)),
            Err(_) => None,
        }
    }

    /// The first member of an object whose key is `key`.
    pub fn get(&self, key: &str) -> (found: Option<&Json>)
        ensures
            found.deep_view() == self.deep_view().member(key@),
    {
        match self {
            Json::Object(members) => {
                let wanted = key.to_owned();
                let mut i: usize = 0;
                while i < members.len()
                    invariant
                        i <= members.len(),
                        wanted@ == key@,
                        *self == Json::Object(*members),
                        self.deep_view().member(key@) == self.deep_view().member_from(
                            key@,
                            i as int,
                        ),
                    decreases members.len() - i,
                {
                    if members[i].0 == wanted {
                        return Some(&members[i].1);
                    }
                    i += 1;
                }
                None
            },
            _ => None,
        }
    }
}

} // verus!

//! JSON documents as plain values.

use vstd::prelude::*;

verus! {

/// A JSON value. A number is held as text in decimal notation, and an
/// object as the list of its members, each a name and a value.
#[derive(Debug, PartialEq)]
pub enum Json {
    Null,
    Bool(bool),
    Number(String),
    String(String),
    Array(Vec<Json>),
    Object(Vec<(String, Json)>),
}

/// A JSON value as the contracts see it: the same tree, with every string
/// and list taken by its view.
pub enum JsonView {
    Null,
    Bool(bool),
    Number(Seq<char>),
    String(Seq<char>),
    Array(Seq<JsonView>),
    Object(Seq<(Seq<char>, JsonView)>),
}

impl View for Json {
    type V = JsonView;

    open spec fn view(&self) -> JsonView
        decreases self,
    {
        match self {
            Json::Null => JsonView::Null,
            Json::Bool(flag) => JsonView::Bool(*flag),
            Json::Number(text) => JsonView::Number(text@),
            Json::String(text) => JsonView::String(text@),
            Json::Array(items) => JsonView::Array(
                Seq::new(
                    items@.len(),
                    |i: int|
                        if 0 <= i < items@.len() {
                            items@[i]@
                        } else {
                            JsonView::Null
                        },
                ),
            ),
            Json::Object(members) => JsonView::Object(
                Seq::new(
                    members@.len(),
                    |i: int|
                        (
                            members@[i].0@,
                            if 0 <= i < members@.len() {
                                members@[i].1@
                            } else {
                                JsonView::Null
                            },
                        ),
                ),
            ),
        }
    }
}

/// The value of the first member named `name`, if there is one.
pub open spec fn member(members: Seq<(Seq<char>, JsonView)>, name: Seq<char>) -> Option<JsonView>
    decreases members.len(),
{
    if members.len() == 0 {
        None
    } else if members[0].0 == name {
        Some(members[0].1)
    } else {
        member(members.drop_first(), name)
    }
}

impl JsonView {
    /// The member `name` of an object. A value that is no object has no
    /// members.
    pub open spec fn get(self, name: Seq<char>) -> Option<JsonView> {
        match self {
            JsonView::Object(members) => member(members, name),
            _ => None,
        }
    }

    /// The text of a string value.
    pub open spec fn as_str(self) -> Option<Seq<char>> {
        match self {
            JsonView::String(text) => Some(text),
            _ => None,
        }
    }

    /// The items of an array value.
    pub open spec fn as_array(self) -> Option<Seq<JsonView>> {
        match self {
            JsonView::Array(items) => Some(items),
            _ => None,
        }
    }
}

/// `serde_json::Value`, the tree that serde_json reads a document into.
/// Nothing is known of what is inside; `from_value` turns it into a `Json`.
#[verifier::external_type_specification]
#[verifier::external_body]
pub struct ExValue(serde_json::Value);

/// The document that a body holds, or `None` for a body that is not one
/// JSON value: what `serde_json::from_slice` reads from the body.
pub uninterp spec fn json_document(body: Seq<u8>) -> Option<JsonView>;

/// What a value of serde_json holds.
pub uninterp spec fn value_json(value: serde_json::Value) -> JsonView;

/// Reads a body with `serde_json::from_slice` into a `serde_json::Value`.
///
/// Trusted: what serde_json reads is a function of the bytes alone, named
/// `json_document`. Nothing is claimed about which bytes are JSON.
#[verifier::external_body]
fn read_value(body: &[u8]) -> (value: Option<serde_json::Value>)
    ensures
        match value {
            Some(v) => json_document(body@) == Some(value_json(v)),
            None => json_document(body@) is None,
        },
{
    serde_json::from_slice::<serde_json::Value>(body).ok()
}

/// Turns a value of serde_json into a `Json`, variant by variant. A number
/// becomes the text that serde_json prints for it, and the members of an
/// object come in the order in which serde_json's map hands them out.
///
/// Trusted: what the result holds is a function of the value alone, named
/// `value_json`.
#[verifier::external_body]
fn from_value(value: serde_json::Value) -> (json: Json)
    ensures
        json@ == value_json(value),
{
    match value {
        serde_json::Value::Null => Json::Null,
        serde_json::Value::Bool(flag) => Json::Bool(flag),
        serde_json::Value::Number(number) => Json::Number(number.to_string()),
        serde_json::Value::String(text) => Json::String(text),
        serde_json::Value::Array(items) => Json::Array(items.into_iter().map(from_value).collect()),
        serde_json::Value::Object(members) => Json::Object(
            members.into_iter().map(|(name, value)| (name, from_value(value))).collect(),
        ),
    }
}

impl Json {
    /// Reads a body as one JSON document.
    pub fn parse(body: &[u8]) -> (document: Option<Json>)
        ensures
            document is Some <==> json_document(body@) is Some,
            document matches Some(d) ==> json_document(body@) == Some(d@),
    {
        match read_value(body) {
            Some(value) => Some(from_value(value)),
            None => None,
        }
    }

    /// The first member named `name` of an object.
    pub fn get(&self, name: &str) -> (value: Option<&Json>)
        ensures
            value is Some <==> self@.get(name@) is Some,
            value matches Some(v) ==> self@.get(name@) == Some(v@),
    {
        match self {
            Json::Object(members) => {
                let wanted: String = name.to_owned();
                let ghost views = self@->Object_0;
                let mut at: usize = 0;
                assert(views.skip(0) =~= views);
                while at < members.len()
                    invariant
                        at <= members.len(),
                        wanted@ == name@,
                        self@ == JsonView::Object(views),
                        views.len() == members@.len(),
                        forall|i: int|
                            0 <= i < members@.len() ==> views[i] == (
                                members@[i].0@,
                                members@[i].1@,
                            ),
                        member(views, name@) == member(views.skip(at as int), name@),
                    decreases members.len() - at,
                {
                    if members[at].0 == wanted {
                        return Some(&members[at].1);
                    }
                    assert(views.skip(at as int).drop_first() =~= views.skip(at + 1));
                    at += 1;
                }
                None
            },
            _ => None,
        }
    }

    /// The text of a string value.
    pub fn as_str(&self) -> (text: Option<&str>)
        ensures
            text is Some <==> self@.as_str() is Some,
            text matches Some(t) ==> self@.as_str() == Some(t@),
    {
        match self {
            Json::String(text) => Some(text.as_str()),
            _ => None,
        }
    }

    /// The items of an array value.
    pub fn as_array(&self) -> (items: Option<&Vec<Json>>)
        ensures
            items is Some <==> self@.as_array() is Some,
            items matches Some(v) ==> self@.as_array() matches Some(views) && views.len()
                == v@.len() && forall|i: int| 0 <= i < v@.len() ==> views[i] == v@[i]@,
    {
        match self {
            Json::Array(items) => Some(items),
            _ => None,
        }
    }
}

} // verus!

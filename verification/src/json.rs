//! JSON documents as a tree of plain values.

use crate::error::{Fault, ProcessingError};
use vstd::prelude::*;

verus! {

/// `serde_json::Error`: why a text is no JSON document.
#[verifier::external_type_specification]
#[verifier::external_body]
pub struct ExJsonError(serde_json::Error);

/// `serde_json::Value`: a JSON value as the reader hands it over.
#[verifier::external_type_specification]
#[verifier::external_body]
pub struct ExJsonValue(serde_json::Value);

/// A JSON value. A number is kept as the `u64` it is, where it is one; the members of an
/// object stand in the order in which the document's reader walks them.
#[derive(Debug, PartialEq, Eq)]
pub enum Json {
    Null,
    Bool(bool),
    Number(Option<u64>),
    Text(String),
    Array(Vec<Json>),
    Object(Vec<(String, Json)>),
}

/// A JSON value as a plain value.
pub ghost enum JsonView {
    Null,
    Bool(bool),
    Number(Option<u64>),
    Text(Seq<char>),
    Array(Seq<JsonView>),
    Object(Seq<(Seq<char>, JsonView)>),
}

/// The plain value of a tree.
pub open spec fn tree_view(value: Json) -> JsonView
    decreases value,
{
    match value {
        Json::Null => JsonView::Null,
        Json::Bool(flag) => JsonView::Bool(flag),
        Json::Number(number) => JsonView::Number(number),
        Json::Text(text) => JsonView::Text(text@),
        Json::Array(items) => JsonView::Array(
            Seq::new(
                items@.len(),
                |i: int|
                    if 0 <= i < items@.len() {
                        tree_view(items@[i])
                    } else {
                        JsonView::Null
                    },
            ),
        ),
        Json::Object(members) => JsonView::Object(
            Seq::new(
                members@.len(),
                |i: int|
                    if 0 <= i < members@.len() {
                        (members@[i].0@, tree_view(members@[i].1))
                    } else {
                        (Seq::empty(), JsonView::Null)
                    },
            ),
        ),
    }
}

impl View for Json {
    type V = JsonView;

    open spec fn view(&self) -> JsonView {
        tree_view(*self)
    }
}

/// The views of the items of an array, one for one.
pub open spec fn item_views(items: Seq<Json>) -> Seq<JsonView> {
    Seq::new(items.len(), |i: int| items[i]@)
}

/// The views of the members of an object, one for one.
pub open spec fn member_views(members: Seq<(String, Json)>) -> Seq<(Seq<char>, JsonView)> {
    Seq::new(members.len(), |i: int| (members[i].0@, members[i].1@))
}

/// The view of an array is the array of its items' views, that of an object the object of
/// its members' views.
pub proof fn lemma_view(value: Json)
    ensures
        value matches Json::Array(items) ==> value@ == JsonView::Array(item_views(items@)),
        value matches Json::Object(members) ==> value@ == JsonView::Object(
            member_views(members@),
        ),
{
    match value {
        Json::Array(items) => {
            assert(value@->Array_0 =~= item_views(items@));
        },
        Json::Object(members) => {
            assert(value@->Object_0 =~= member_views(members@));
        },
        _ => {},
    }
}

/// The value that a JSON text denotes, or `None` where the text is not one JSON value: what
/// `serde_json::from_str` reads.
pub uninterp spec fn json_document(text: Seq<char>) -> Option<JsonView>;

/// A document that may be missing, as a plain value.
pub open spec fn document_view(document: Result<Json, ProcessingError>) -> Option<JsonView> {
    match document {
        Ok(tree) => Some(tree@),
        Err(_) => None,
    }
}

/// `serde_json::from_str` into a `Value`, copied into a tree.
#[verifier::external_body]
pub(crate) fn parse(text: &str) -> (document: Result<Json, serde_json::Error>)
    ensures
        document is Ok == json_document(text@) is Some,
        document matches Ok(tree) ==> json_document(text@) == Some(tree@),
{
    serde_json::from_str::<serde_json::Value>(text).map(tree_of)
}

/// Copies a `serde_json::Value` into a tree, variant by variant; `Number::as_u64` gives a
/// number's value.
#[verifier::external_body]
fn tree_of(value: serde_json::Value) -> Json {
    match value {
        serde_json::Value::Null => Json::Null,
        serde_json::Value::Bool(flag) => Json::Bool(flag),
        serde_json::Value::Number(number) => Json::Number(number.as_u64()),
        serde_json::Value::String(text) => Json::Text(text),
        serde_json::Value::Array(items) => Json::Array(items.into_iter().map(tree_of).collect()),
        serde_json::Value::Object(members) => Json::Object(
            members.into_iter().map(|(name, member)| (name, tree_of(member))).collect(),
        ),
    }
}

/// `serde_json::Error` as `Display` writes it: the reader's words for why a text is no
/// document.
#[verifier::external_body]
pub(crate) fn words(error: &serde_json::Error) -> (text: String) {
    error.to_string()
}

/// Reads a JSON document.
pub fn read(text: &str) -> (document: Result<Json, ProcessingError>)
    ensures
        document_view(document) == json_document(text@),
        document matches Err(error) ==> error.fault() == Fault::Json,
{
    match parse(text) {
        Ok(tree) => Ok(tree),
        Err(error) => Err(ProcessingError::Json(words(&error))),
    }
}

/// The first of `members` that goes by `name`.
pub open spec fn find_member(members: Seq<(Seq<char>, JsonView)>, name: Seq<char>) -> Option<
    JsonView,
>
    decreases members.len(),
{
    if members.len() == 0 {
        None
    } else if members.first().0 == name {
        Some(members.first().1)
    } else {
        find_member(members.drop_first(), name)
    }
}

impl JsonView {
    /// The member `name` of an object; `None` for any other value and for a missing member.
    pub open spec fn member(self, name: Seq<char>) -> Option<JsonView> {
        match self {
            JsonView::Object(members) => find_member(members, name),
            _ => None,
        }
    }

    /// What a string value holds.
    pub open spec fn text(self) -> Option<Seq<char>> {
        match self {
            JsonView::Text(text) => Some(text),
            _ => None,
        }
    }

    /// The value of a number that is a `u64`.
    pub open spec fn number(self) -> Option<u64> {
        match self {
            JsonView::Number(number) => number,
            _ => None,
        }
    }

    /// The text of the member `name`, where it is a string.
    pub open spec fn member_text(self, name: Seq<char>) -> Option<Seq<char>> {
        match self.member(name) {
            Some(member) => member.text(),
            None => None,
        }
    }
}

/// A value that may be missing, as a plain value.
pub open spec fn found_view(found: Option<&Json>) -> Option<JsonView> {
    match found {
        Some(value) => Some(value@),
        None => None,
    }
}

/// A text that may be missing, as a plain value.
pub open spec fn slice_view(text: Option<&str>) -> Option<Seq<char>> {
    match text {
        Some(text) => Some(text@),
        None => None,
    }
}

/// The first of `members` that goes by `name`.
pub fn find<'a>(members: &'a Vec<(String, Json)>, name: &str) -> (member: Option<&'a Json>)
    ensures
        found_view(member) == find_member(member_views(members@), name@),
{
    let ghost all = member_views(members@);
    let mut at: usize = 0;
    assert(all.skip(0) =~= all);
    while at < members.len()
        invariant
            at <= members.len(),
            all == member_views(members@),
            find_member(all, name@) == find_member(all.skip(at as int), name@),
        decreases members.len() - at,
    {
        assert(all.skip(at as int).first() == all[at as int]);
        assert(all.skip(at as int).drop_first() =~= all.skip(at + 1));
        if crate::text::same_text(members[at].0.as_str(), name) {
            return Some(&members[at].1);
        }
        at = at + 1;
    }
    assert(all.skip(at as int).len() == 0);
    None
}

impl Json {
    /// The member `name` of an object.
    pub fn get(&self, name: &str) -> (member: Option<&Json>)
        ensures
            found_view(member) == self@.member(name@),
    {
        proof {
            lemma_view(*self);
        }
        match self {
            Json::Object(members) => find(members, name),
            _ => None,
        }
    }

    /// The items of an array.
    pub fn as_array(&self) -> (items: Option<&Vec<Json>>)
        ensures
            items matches Some(found) ==> self@ == JsonView::Array(item_views(found@)),
            items is None ==> !(self@ is Array),
    {
        proof {
            lemma_view(*self);
        }
        match self {
            Json::Array(items) => Some(items),
            _ => None,
        }
    }

    /// The members of an object.
    pub fn as_object(&self) -> (members: Option<&Vec<(String, Json)>>)
        ensures
            members matches Some(found) ==> self@ == JsonView::Object(member_views(found@)),
            members is None ==> !(self@ is Object),
    {
        proof {
            lemma_view(*self);
        }
        match self {
            Json::Object(members) => Some(members),
            _ => None,
        }
    }

    /// What a string value holds.
    pub fn as_text(&self) -> (text: Option<&str>)
        ensures
            slice_view(text) == self@.text(),
    {
        match self {
            Json::Text(text) => Some(text.as_str()),
            _ => None,
        }
    }

    /// The value of a number that is a `u64`.
    pub fn as_u64(&self) -> (number: Option<u64>)
        ensures
            number == self@.number(),
    {
        match self {
            Json::Number(number) => *number,
            _ => None,
        }
    }

    /// The text of the member `name`, where it is a string.
    pub fn get_text(&self, name: &str) -> (text: Option<&str>)
        ensures
            slice_view(text) == self@.member_text(name@),
    {
        match self.get(name) {
            Some(member) => member.as_text(),
            None => None,
        }
    }
}

} // verus!

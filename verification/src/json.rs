//! A JSON document as the translators read it.

use crate::views::views;
use serde_json::Value;
use vstd::prelude::*;

verus! {

/// A JSON document held as plain values.
#[derive(Debug)]
pub enum Json {
    Null,
    Bool(bool),
    /// A number; the field holds its value where it is an integer that fits `i64`.
    Number(Option<i64>),
    Text(String),
    Array(Vec<Json>),
    /// The members of an object, in the order in which the document lists them.
    Object(Vec<(String, Json)>),
}

/// The mathematical value of a [`Json`].
pub enum JsonView {
    Null,
    Bool(bool),
    Number(Option<i64>),
    Text(Seq<char>),
    Array(Seq<JsonView>),
    Object(Seq<(Seq<char>, JsonView)>),
}

impl View for Json {
    type V = JsonView;

    open spec fn view(&self) -> JsonView {
        json_view(*self)
    }
}

/// The value of a document: that of each variant, with the items of an array
/// and the members of an object taken in their order.
pub open spec fn json_view(doc: Json) -> JsonView
    decreases doc, 0nat,
{
    match doc {
        Json::Null => JsonView::Null,
        Json::Bool(b) => JsonView::Bool(b),
        Json::Number(n) => JsonView::Number(n),
        Json::Text(s) => JsonView::Text(s@),
        Json::Array(items) => JsonView::Array(items_view(items@, items@.len())),
        Json::Object(members) => JsonView::Object(members_view(members@, members@.len())),
    }
}

/// The values of the first `n` items.
pub open spec fn items_view(items: Seq<Json>, n: nat) -> Seq<JsonView>
    decreases items, n,
{
    if n == 0 || n > items.len() {
        Seq::empty()
    } else {
        items_view(items, (n - 1) as nat).push(json_view(items[n - 1]))
    }
}

/// The names and values of the first `n` members.
pub open spec fn members_view(members: Seq<(String, Json)>, n: nat) -> Seq<(Seq<char>, JsonView)>
    decreases members, n,
{
    if n == 0 || n > members.len() {
        Seq::empty()
    } else {
        members_view(members, (n - 1) as nat).push(
            (members[n - 1].0@, json_view(members[n - 1].1)),
        )
    }
}

/// The view of an array has one value for each item, in the same order.
pub proof fn lemma_items_view(items: Seq<Json>, n: nat)
    requires
        n <= items.len(),
    ensures
        items_view(items, n).len() == n,
        forall|i: int| 0 <= i < n ==> #[trigger] items_view(items, n)[i] == items[i]@,
    decreases n,
{
    if n > 0 {
        lemma_items_view(items, (n - 1) as nat);
    }
}

/// The view of an object has one member for each member, in the same order.
pub proof fn lemma_members_view(members: Seq<(String, Json)>, n: nat)
    requires
        n <= members.len(),
    ensures
        members_view(members, n).len() == n,
        forall|i: int|
            0 <= i < n ==> #[trigger] members_view(members, n)[i] == (members[i].0@, members[i].1@),
    decreases n,
{
    if n > 0 {
        lemma_members_view(members, (n - 1) as nat);
    }
}

/// `serde_json::Value`, as a type whose values are carried and not looked
/// into. What one holds is read through [`json_of_value`].
#[verifier::external_type_specification]
#[verifier::external_body]
pub struct ExValue(Value);

/// What `serde_json::from_str` makes of a text: the document, or the message
/// of the error with which it refuses the text.
pub uninterp spec fn json_of_text(text: Seq<char>) -> Result<JsonView, Seq<char>>;

/// The document that a `serde_json::Value` holds. A number is held as
/// `serde_json::Number::as_i64` gives it; the members of an object are held
/// in the order in which the value hands them out.
pub uninterp spec fn json_of_value(value: Value) -> JsonView;

/// Whether no two members of the list have the same name.
pub open spec fn distinct_names<T>(members: Seq<(Seq<char>, T)>) -> bool {
    forall|i: int, j: int|
        0 <= i < j < members.len() ==> (#[trigger] members[i]).0 != (#[trigger] members[j]).0
}

impl JsonView {
    /// Whether every object of the document, at whatever depth, has each of
    /// its names once.
    pub open spec fn names_once(self) -> bool
        decreases self,
    {
        match self {
            JsonView::Array(items) => forall|i: int|
                0 <= i < items.len() ==> (#[trigger] items[i]).names_once(),
            JsonView::Object(members) => distinct_names(members) && forall|i: int|
                0 <= i < members.len() ==> (#[trigger] members[i]).1.names_once(),
            _ => true,
        }
    }
}

/// Moves a `serde_json::Value` into a [`Json`], variant by variant: the
/// outcome is the document that the value holds. An object of
/// `serde_json` is a map, so that each of its names is there once.
#[verifier::external_body]
fn json_from_value(value: Value) -> (r: Json)
    ensures
        r@ == json_of_value(value),
        r@.names_once(),
{
    match value {
        Value::Null => Json::Null,
        Value::Bool(b) => Json::Bool(b),
        Value::Number(n) => Json::Number(n.as_i64()),
        Value::String(s) => Json::Text(s),
        Value::Array(items) => Json::Array(items.into_iter().map(json_from_value).collect()),
        Value::Object(members) => Json::Object(
            members.into_iter().map(|(k, v)| (k, json_from_value(v))).collect(),
        ),
    }
}

/// Calls `serde_json::from_str` for a `serde_json::Value`. The contract names
/// the outcome after the text alone: parsing reads nothing else. An error
/// is handed back as its message.
#[verifier::external_body]
fn value_from_str(text: &str) -> (r: Result<Value, String>)
    ensures
        match r {
            Ok(value) => json_of_text(text@) == Ok::<JsonView, Seq<char>>(json_of_value(value)),
            Err(message) => json_of_text(text@) == Err::<JsonView, Seq<char>>(message@),
        },
{
    match serde_json::from_str::<Value>(text) {
        Ok(value) => Ok(value),
        Err(error) => Err(error.to_string()),
    }
}

/// Why a document does not have the shape that a reader expects.
#[derive(Debug, Clone, PartialEq)]
pub enum ShapeError {
    /// An object lacks the member of this name.
    MissingField(String),
    /// The member of this name holds a value of another type than expected.
    InvalidType(String),
}

pub enum ShapeErrorView {
    MissingField(Seq<char>),
    InvalidType(Seq<char>),
}

impl View for ShapeError {
    type V = ShapeErrorView;

    open spec fn view(&self) -> ShapeErrorView {
        match self {
            ShapeError::MissingField(name) => ShapeErrorView::MissingField(name@),
            ShapeError::InvalidType(name) => ShapeErrorView::InvalidType(name@),
        }
    }
}

impl Json {
    /// Parses a text as JSON. In the document that comes out, a name that
    /// the text gives twice to one object is there once.
    pub fn parse(text: &str) -> (r: Result<Json, String>)
        ensures
            match r {
                Ok(doc) => json_of_text(text@) == Ok::<JsonView, Seq<char>>(doc@)
                    && doc@.names_once(),
                Err(message) => json_of_text(text@) == Err::<JsonView, Seq<char>>(message@),
            },
    {
        match value_from_str(text) {
            Ok(value) => Ok(json_from_value(value)),
            Err(message) => Err(message),
        }
    }

    /// The value of the first member called `key`, where this is an object
    /// that has such a member.
    pub fn get(&self, key: &str) -> (r: Option<&Json>)
        ensures
            match r {
                Some(value) => self@.member(key@) == Some(value@),
                None => self@.member(key@) is None,
            },
    {
        let members = match self.as_object() {
            Some(members) => members,
            None => {
                return None;
            },
        };
        let wanted = key.to_owned();
        let mut i: usize = 0;
        while i < members.len()
            invariant
                i <= members.len(),
                wanted@ == key@,
                self@ == JsonView::Object(views(members@)),
                member_from(views(members@), key@, 0) == member_from(
                    views(members@),
                    key@,
                    i as int,
                ),
            decreases members.len() - i,
        {
            if members[i].0 == wanted {
                return Some(&members[i].1);
            }
            i += 1;
        }
        None
    }
}

impl JsonView {
    /// The value of the first member called `key`, where this is an object
    /// that has such a member.
    pub open spec fn member(self, key: Seq<char>) -> Option<JsonView> {
        match self {
            JsonView::Object(members) => member_from(members, key, 0),
            _ => None,
        }
    }

    /// The text of the member `name`, which must be there.
    pub open spec fn text_field(self, name: Seq<char>) -> Result<Seq<char>, ShapeErrorView> {
        match self.member(name) {
            None => Err(ShapeErrorView::MissingField(name)),
            Some(JsonView::Text(text)) => Ok(text),
            Some(_) => Err(ShapeErrorView::InvalidType(name)),
        }
    }

    /// The text of the member `name`; the empty text where the object has no
    /// such member.
    pub open spec fn text_field_or_empty(self, name: Seq<char>) -> Result<
        Seq<char>,
        ShapeErrorView,
    > {
        match self.member(name) {
            None => Ok(Seq::empty()),
            Some(JsonView::Text(text)) => Ok(text),
            Some(_) => Err(ShapeErrorView::InvalidType(name)),
        }
    }

    /// The truth value of the member `name`, which must be there.
    pub open spec fn bool_field(self, name: Seq<char>) -> Result<bool, ShapeErrorView> {
        match self.member(name) {
            None => Err(ShapeErrorView::MissingField(name)),
            Some(JsonView::Bool(b)) => Ok(b),
            Some(_) => Err(ShapeErrorView::InvalidType(name)),
        }
    }

    /// The member `name` as a 32-bit integer: it must be there, and be an
    /// integer in the range of `i32`.
    pub open spec fn i32_field(self, name: Seq<char>) -> Result<i32, ShapeErrorView> {
        match self.member(name) {
            None => Err(ShapeErrorView::MissingField(name)),
            Some(JsonView::Number(Some(n))) => if i32::MIN <= n <= i32::MAX {
                Ok(n as i32)
            } else {
                Err(ShapeErrorView::InvalidType(name))
            },
            Some(_) => Err(ShapeErrorView::InvalidType(name)),
        }
    }
}

/// The outcome of reading a member, as a value of specifications.
pub open spec fn text_outcome(r: Result<String, ShapeError>) -> Result<Seq<char>, ShapeErrorView> {
    match r {
        Ok(text) => Ok(text@),
        Err(e) => Err(e@),
    }
}

/// The outcome of reading a member that is no text, as a value of
/// specifications.
pub open spec fn plain_outcome<T>(r: Result<T, ShapeError>) -> Result<T, ShapeErrorView> {
    match r {
        Ok(value) => Ok(value),
        Err(e) => Err(e@),
    }
}

impl Json {
    /// The items, where this is an array.
    pub fn as_array(&self) -> (r: Option<&Vec<Json>>)
        ensures
            match r {
                Some(items) => self@ == JsonView::Array(views(items@)),
                None => !(self@ is Array),
            },
    {
        match self {
            Json::Array(items) => {
                proof {
                    lemma_items_view(items@, items@.len());
                    assert(items_view(items@, items@.len()) =~= views(items@));
                }
                Some(items)
            },
            _ => None,
        }
    }

    /// The members, where this is an object.
    pub fn as_object(&self) -> (r: Option<&Vec<(String, Json)>>)
        ensures
            match r {
                Some(members) => self@ == JsonView::Object(views(members@)),
                None => !(self@ is Object),
            },
    {
        match self {
            Json::Object(members) => {
                proof {
                    lemma_members_view(members@, members@.len());
                    assert(members_view(members@, members@.len()) =~= views(members@));
                }
                Some(members)
            },
            _ => None,
        }
    }

    /// The text of the member `name`, which must be there.
    pub fn text_field(&self, name: &str) -> (r: Result<String, ShapeError>)
        ensures
            text_outcome(r) == self@.text_field(name@),
    {
        match self.get(name) {
            None => Err(ShapeError::MissingField(name.to_owned())),
            Some(Json::Text(text)) => Ok(text.clone()),
            Some(_) => Err(ShapeError::InvalidType(name.to_owned())),
        }
    }

    /// The text of the member `name`; the empty text where the object has no
    /// such member.
    pub fn text_field_or_empty(&self, name: &str) -> (r: Result<String, ShapeError>)
        ensures
            text_outcome(r) == self@.text_field_or_empty(name@),
    {
        match self.get(name) {
            None => Ok(String::new()),
            Some(Json::Text(text)) => Ok(text.clone()),
            Some(_) => Err(ShapeError::InvalidType(name.to_owned())),
        }
    }

    /// The truth value of the member `name`, which must be there.
    pub fn bool_field(&self, name: &str) -> (r: Result<bool, ShapeError>)
        ensures
            plain_outcome(r) == self@.bool_field(name@),
    {
        match self.get(name) {
            None => Err(ShapeError::MissingField(name.to_owned())),
            Some(Json::Bool(b)) => Ok(*b),
            Some(_) => Err(ShapeError::InvalidType(name.to_owned())),
        }
    }

    /// The member `name` as a 32-bit integer: it must be there, and be an
    /// integer in the range of `i32`.
    pub fn i32_field(&self, name: &str) -> (r: Result<i32, ShapeError>)
        ensures
            plain_outcome(r) == self@.i32_field(name@),
    {
        match self.get(name) {
            None => Err(ShapeError::MissingField(name.to_owned())),
            Some(Json::Number(Some(n))) => {
                if -2147483648 <= *n && *n <= 2147483647 {
                    Ok(*n as i32)
                } else {
                    Err(ShapeError::InvalidType(name.to_owned()))
                }
            },
            Some(_) => Err(ShapeError::InvalidType(name.to_owned())),
        }
    }
}

/// The value of the first member called `key` at or after the index `from`.
pub open spec fn member_from(
    members: Seq<(Seq<char>, JsonView)>,
    key: Seq<char>,
    from: int,
) -> Option<JsonView>
    decreases members.len() - from,
{
    if from < 0 || from >= members.len() {
        None
    } else if members[from].0 == key {
        Some(members[from].1)
    } else {
        member_from(members, key, from + 1)
    }
}

/// A member of a document in which every object has each of its names once
/// is such a document too.
pub proof fn lemma_member_names_once(doc: JsonView, key: Seq<char>)
    requires
        doc.names_once(),
        doc.member(key) is Some,
    ensures
        doc.member(key)->Some_0.names_once(),
{
    let members = doc->Object_0;
    lemma_member_from_is_member(members, key, 0);
}

/// What is found from `from` on is the value of one of the members.
pub proof fn lemma_member_from_is_member(
    members: Seq<(Seq<char>, JsonView)>,
    key: Seq<char>,
    from: int,
)
    requires
        0 <= from,
        member_from(members, key, from) is Some,
    ensures
        exists|i: int|
            from <= i < members.len() && (#[trigger] members[i]).1 == member_from(
                members,
                key,
                from,
            )->Some_0,
    decreases members.len() - from,
{
    if from < members.len() && members[from].0 != key {
        lemma_member_from_is_member(members, key, from + 1);
    }
}

} // verus!

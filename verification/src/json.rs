//! JSON documents as the library reads them.
//!
//! [`JsonValue`] is the library's own picture of a JSON document, and
//! [`JsonModel`] is its mathematical view.  Text is parsed by `serde_json`;
//! everything that is decided about a parsed document is decided here, on
//! [`JsonValue`].

use vstd::prelude::*;

verus! {

/// A JSON document.
///
/// The members of an object stand in a list, in the order in which the
/// parser hands them out; a member is looked up by its name, and the first
/// of that name counts.
#[derive(Debug, PartialEq, Eq)]
pub enum JsonValue {
    Null,
    Bool(bool),
    /// A number: its value when it is written as an integer and fits a
    /// `u64`; `None` for every other number, be it negative, beyond
    /// 2^64 - 1, or written with a fraction or an exponent.
    Number(Option<u64>),
    String(String),
    Array(Vec<JsonValue>),
    /// The members of an object, each with its name.
    Object(Vec<(String, JsonValue)>),
}

/// The mathematical view of a [`JsonValue`].
pub ghost enum JsonModel {
    Null,
    Bool(bool),
    Number(Option<u64>),
    String(Seq<char>),
    Array(Seq<JsonModel>),
    Object(Seq<(Seq<char>, JsonModel)>),
}

/// The model of a document: the same document with its texts and
/// collections taken as mathematical sequences.
pub open spec fn model_of(value: JsonValue) -> JsonModel
    decreases value,
{
    match value {
        JsonValue::Null => JsonModel::Null,
        JsonValue::Bool(b) => JsonModel::Bool(b),
        JsonValue::Number(n) => JsonModel::Number(n),
        JsonValue::String(s) => JsonModel::String(s@),
        JsonValue::Array(items) => JsonModel::Array(
            Seq::new(
                items@.len(),
                |i: int|
                    if 0 <= i < items@.len() {
                        model_of(items@[i])
                    } else {
                        JsonModel::Null
                    },
            ),
        ),
        JsonValue::Object(members) => JsonModel::Object(
            Seq::new(
                members@.len(),
                |i: int|
                    if 0 <= i < members@.len() {
                        (members@[i].0@, model_of(members@[i].1))
                    } else {
                        (Seq::empty(), JsonModel::Null)
                    },
            ),
        ),
    }
}

impl View for JsonValue {
    type V = JsonModel;

    open spec fn view(&self) -> JsonModel {
        model_of(*self)
    }
}

/// The value of the first member called `key`, if there is one.
pub open spec fn lookup(members: Seq<(Seq<char>, JsonModel)>, key: Seq<char>) -> Option<
    JsonModel,
>
    decreases members.len(),
{
    if members.len() == 0 {
        None
    } else if members[0].0 == key {
        Some(members[0].1)
    } else {
        lookup(members.drop_first(), key)
    }
}

/// The texts of a list of strings.
pub open spec fn text_views(list: Seq<String>) -> Seq<Seq<char>> {
    Seq::new(list.len(), |i: int| list[i]@)
}

/// The texts of `items` when every one of them is a string.
pub open spec fn texts(items: Seq<JsonModel>) -> Option<Seq<Seq<char>>> {
    if forall|i: int| 0 <= i < items.len() ==> #[trigger] items[i] is String {
        Some(Seq::new(items.len(), |i: int| items[i]->String_0))
    } else {
        None
    }
}

impl JsonModel {
    /// The member called `key` of an object; `None` for anything else.
    pub open spec fn member(self, key: Seq<char>) -> Option<JsonModel> {
        match self {
            JsonModel::Object(members) => lookup(members, key),
            _ => None,
        }
    }

    /// The text of the string member called `key`.
    pub open spec fn text_member(self, key: Seq<char>) -> Option<Seq<char>> {
        match self.member(key) {
            Some(JsonModel::String(text)) => Some(text),
            _ => None,
        }
    }

    /// The value of the boolean member called `key`.
    pub open spec fn bool_member(self, key: Seq<char>) -> Option<bool> {
        match self.member(key) {
            Some(JsonModel::Bool(b)) => Some(b),
            _ => None,
        }
    }

    /// The value of the member called `key` when it is a number that fits
    /// a `u64`.
    pub open spec fn u64_member(self, key: Seq<char>) -> Option<u64> {
        match self.member(key) {
            Some(JsonModel::Number(Some(n))) => Some(n),
            _ => None,
        }
    }

    /// The texts of the member called `key` when it is an array of strings.
    pub open spec fn texts_member(self, key: Seq<char>) -> Option<Seq<Seq<char>>> {
        match self.member(key) {
            Some(JsonModel::Array(items)) => texts(items),
            _ => None,
        }
    }

    /// How many members an object has; `None` for anything else.
    pub open spec fn member_count(self) -> Option<nat> {
        match self {
            JsonModel::Object(members) => Some(members.len()),
            _ => None,
        }
    }
}

impl JsonValue {
    /// The first member called `key`, when this is an object that has one.
    pub fn member(&self, key: &String) -> (r: Option<&JsonValue>)
        ensures
            match r {
                Some(value) => self@.member(key@) == Some(value@),
                None => self@.member(key@) is None,
            },
    {
        match self {
            JsonValue::Object(members) => {
                let ghost all = self@->Object_0;
                assert(all.skip(0) == all);
                let mut i: usize = 0;
                while i < members.len()
                    invariant
                        i <= members.len(),
                        self@ == JsonModel::Object(all),
                        all.len() == members@.len(),
                        forall|j: int|
                            0 <= j < members@.len() ==> #[trigger] all[j] == (
                                members@[j].0@,
                                members@[j].1@,
                            ),
                        lookup(all, key@) == lookup(all.skip(i as int), key@),
                    decreases members.len() - i,
                {
                    proof {
                        let rest = all.skip(i as int);
                        assert(rest[0] == all[i as int]);
                        assert(rest.drop_first() == all.skip(i + 1));
                    }
                    if members[i].0 == *key {
                        return Some(&members[i].1);
                    }
                    i += 1;
                }
                proof {
                    assert(all.skip(i as int).len() == 0);
                }
                None
            },
            _ => None,
        }
    }

    /// The text of the string member called `key`.
    pub fn text_member(&self, key: &String) -> (r: Option<&String>)
        ensures
            match r {
                Some(text) => self@.text_member(key@) == Some(text@),
                None => self@.text_member(key@) is None,
            },
    {
        match self.member(key) {
            Some(JsonValue::String(text)) => Some(text),
            _ => None,
        }
    }

    /// The value of the boolean member called `key`.
    pub fn bool_member(&self, key: &String) -> (r: Option<bool>)
        ensures
            r == self@.bool_member(key@),
    {
        match self.member(key) {
            Some(JsonValue::Bool(b)) => Some(*b),
            _ => None,
        }
    }

    /// The value of the member called `key` when it is a number that fits
    /// a `u64`.
    pub fn u64_member(&self, key: &String) -> (r: Option<u64>)
        ensures
            r == self@.u64_member(key@),
    {
        match self.member(key) {
            Some(JsonValue::Number(Some(n))) => Some(*n),
            _ => None,
        }
    }

    /// The texts of the member called `key` when it is an array of strings.
    pub fn texts_member(&self, key: &String) -> (r: Option<Vec<String>>)
        ensures
            match r {
                Some(list) => self@.texts_member(key@) == Some(text_views(list@)),
                None => self@.texts_member(key@) is None,
            },
    {
        match self.member(key) {
            Some(JsonValue::Array(items)) => {
                let ghost all = model_of(JsonValue::Array(*items))->Array_0;
                let mut list: Vec<String> = Vec::new();
                let mut i: usize = 0;
                while i < items.len()
                    invariant
                        i <= items.len(),
                        self@.member(key@) == Some(JsonModel::Array(all)),
                        all.len() == items@.len(),
                        forall|j: int| 0 <= j < items@.len() ==> #[trigger] all[j] == items@[j]@,
                        list@.len() == i,
                        forall|j: int|
                            0 <= j < i ==> #[trigger] all[j] == JsonModel::String(list@[j]@),
                    decreases items.len() - i,
                {
                    match &items[i] {
                        JsonValue::String(text) => {
                            list.push(text.clone());
                        },
                        _ => {
                            assert(!(all[i as int] is String));
                            return None;
                        },
                    }
                    i += 1;
                }
                assert(texts(all) == Some(text_views(list@))) by {
                    assert forall|j: int| 0 <= j < all.len() implies #[trigger] all[j] is String by {
                        assert(all[j] == JsonModel::String(list@[j]@));
                    }
                    assert(texts(all)->0 =~= text_views(list@));
                }
                Some(list)
            },
            _ => None,
        }
    }

    /// How many members an object has; `None` for anything else.
    pub fn member_count(&self) -> (r: Option<usize>)
        ensures
            match r {
                Some(n) => self@.member_count() == Some(n as nat),
                None => self@.member_count() is None,
            },
    {
        match self {
            JsonValue::Object(members) => Some(members.len()),
            _ => None,
        }
    }
}

/// `serde_json::Value`: a parsed document, carried from the parser to the
/// copy into a [`JsonValue`] and never looked into in between.
#[verifier::external_type_specification]
#[verifier::external_body]
pub struct ExJsonTree(serde_json::Value);

/// `serde_json::Error`: why a text could not be parsed.  Nothing is read
/// of it.
#[verifier::external_type_specification]
#[verifier::external_body]
pub struct ExJsonError(serde_json::Error);

/// What `serde_json::from_str` makes of a text: the document that it
/// reads, or `None` where it reports an error.
pub uninterp spec fn json_tree(text: Seq<char>) -> Option<serde_json::Value>;

/// What a `serde_json::Value` holds: its variants, texts, items and
/// members, and of each number its value where that fits a `u64`.
pub uninterp spec fn json_content(tree: serde_json::Value) -> JsonModel;

/// Calls `serde_json::from_str` to read one JSON document from `text`.
///
/// The parser is a function of the text alone; the contract claims no more
/// than that, by naming its result [`json_tree`].
#[verifier::external_body]
fn parse_tree(text: &str) -> (r: Result<serde_json::Value, serde_json::Error>)
    ensures
        match r {
            Ok(tree) => json_tree(text@) == Some(tree),
            Err(_) => json_tree(text@) is None,
        },
{
    serde_json::from_str::<serde_json::Value>(text)
}

/// Copies a `serde_json::Value` into a [`JsonValue`], variant by variant
/// and member by member, in the order in which `serde_json` hands the
/// members out.  A number is read with `serde_json::Number::as_u64`.
///
/// The copy depends on the value alone; the contract claims no more than
/// that, by naming what comes out [`json_content`].
#[verifier::external_body]
fn copy_tree(tree: &serde_json::Value) -> (r: JsonValue)
    ensures
        r@ == json_content(*tree),
{
    match tree {
        serde_json::Value::Null => JsonValue::Null,
        serde_json::Value::Bool(b) => JsonValue::Bool(*b),
        serde_json::Value::Number(n) => JsonValue::Number(n.as_u64()),
        serde_json::Value::String(s) => JsonValue::String(s.clone()),
        serde_json::Value::Array(items) => JsonValue::Array(items.iter().map(copy_tree).collect()),
        serde_json::Value::Object(members) => JsonValue::Object(
            members.iter().map(|(name, value)| (name.clone(), copy_tree(value))).collect(),
        ),
    }
}

/// The document that a text denotes, in the library's own model.
pub open spec fn json_document(text: Seq<char>) -> Option<JsonModel> {
    match json_tree(text) {
        Some(tree) => Some(json_content(tree)),
        None => None,
    }
}

/// Reads one JSON document from `text`.
pub fn parse(text: &str) -> (r: Option<JsonValue>)
    ensures
        match r {
            Some(value) => json_document(text@) == Some(value@),
            None => json_document(text@) is None,
        },
{
    match parse_tree(text) {
        Ok(tree) => Some(copy_tree(&tree)),
        Err(_) => None,
    }
}

} // verus!

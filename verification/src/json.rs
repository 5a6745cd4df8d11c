//! JSON documents as plain trees, and the decoder that produces them.

use vstd::prelude::*;

verus! {

/// One member of a JSON object.
#[derive(Debug, PartialEq, Eq)]
pub struct Member {
    pub key: String,
    pub value: Json,
}

/// A JSON document.
#[derive(Debug, PartialEq, Eq)]
pub enum Json {
    Null,
    Bool(bool),
    /// A number, kept as its decimal text.
    Number(String),
    Text(String),
    Array(Vec<Json>),
    Object(Vec<Member>),
}

/// The mathematical value of a [`Json`] document.
pub enum JsonModel {
    Null,
    Bool(bool),
    Number(Seq<char>),
    Text(Seq<char>),
    Array(Seq<JsonModel>),
    Object(Seq<(Seq<char>, JsonModel)>),
}

impl View for Member {
    type V = (Seq<char>, JsonModel);

    open spec fn view(&self) -> (Seq<char>, JsonModel) {
        (self.key@, self.value@)
    }
}

impl View for Json {
    type V = JsonModel;

    open spec fn view(&self) -> JsonModel
        decreases self,
    {
        match self {
            Json::Null => JsonModel::Null,
            Json::Bool(b) => JsonModel::Bool(*b),
            Json::Number(t) => JsonModel::Number(t@),
            Json::Text(t) => JsonModel::Text(t@),
            Json::Array(items) => JsonModel::Array(
                Seq::new(
                    items@.len(),
                    |i: int|
                        if 0 <= i < items@.len() {
                            items@[i]@
                        } else {
                            JsonModel::Null
                        },
                ),
            ),
            Json::Object(members) => JsonModel::Object(
                Seq::new(
                    members@.len(),
                    |i: int|
                        if 0 <= i < members@.len() {
                            (members@[i].key@, members@[i].value@)
                        } else {
                            (Seq::empty(), JsonModel::Null)
                        },
                ),
            ),
        }
    }
}

impl JsonModel {
    /// The value of the first member named `key` at or after position `from`.
    pub open spec fn member_from(
        members: Seq<(Seq<char>, JsonModel)>,
        key: Seq<char>,
        from: int,
    ) -> Option<JsonModel>
        decreases members.len() - from,
    {
        if from < 0 || from >= members.len() {
            None
        } else if members[from].0 == key {
            Some(members[from].1)
        } else {
            Self::member_from(members, key, from + 1)
        }
    }

    /// The value stored under `key`, if this is an object that has such a
    /// member. Where a key occurs more than once, the first occurrence counts.
    pub open spec fn field(self, key: Seq<char>) -> Option<JsonModel> {
        match self {
            JsonModel::Object(members) => Self::member_from(members, key, 0),
            _ => None,
        }
    }

    /// The text of a string value.
    pub open spec fn text(self) -> Option<Seq<char>> {
        match self {
            JsonModel::Text(t) => Some(t),
            _ => None,
        }
    }

    /// The truth value of a boolean.
    pub open spec fn flag(self) -> Option<bool> {
        match self {
            JsonModel::Bool(b) => Some(b),
            _ => None,
        }
    }

    /// The text stored under `key`, if this is an object whose member `key`
    /// is a string.
    pub open spec fn text_field(self, key: Seq<char>) -> Option<Seq<char>> {
        match self.field(key) {
            Some(value) => value.text(),
            None => None,
        }
    }

    /// The truth value stored under `key`, if this is an object whose member
    /// `key` is a boolean.
    pub open spec fn flag_field(self, key: Seq<char>) -> Option<bool> {
        match self.field(key) {
            Some(value) => value.flag(),
            None => None,
        }
    }

    /// The elements of an array.
    pub open spec fn items(self) -> Option<Seq<JsonModel>> {
        match self {
            JsonModel::Array(items) => Some(items),
            _ => None,
        }
    }
}

/// The values of the members of an object, in their order.
pub open spec fn member_models(members: Seq<Member>) -> Seq<(Seq<char>, JsonModel)> {
    Seq::new(members.len(), |i: int| members[i]@)
}

/// The values of the elements of an array, in their order.
pub open spec fn item_models(items: Seq<Json>) -> Seq<JsonModel> {
    Seq::new(items.len(), |i: int| items[i]@)
}

/// The value of an object is the object of its members' values.
pub proof fn lemma_object_view(members: Vec<Member>)
    ensures
        Json::Object(members)@ == JsonModel::Object(member_models(members@)),
{
    reveal_with_fuel(<Json as View>::view, 2);
    assert(Json::Object(members)@->Object_0 =~= member_models(members@));
}

/// The value of an array is the array of its elements' values.
pub proof fn lemma_array_view(items: Vec<Json>)
    ensures
        Json::Array(items)@ == JsonModel::Array(item_models(items@)),
{
    reveal_with_fuel(<Json as View>::view, 2);
    assert(Json::Array(items)@->Array_0 =~= item_models(items@));
}

/// The document that a JSON text denotes, or `None` where the bytes are not
/// one well-formed JSON value.
pub uninterp spec fn json_document(body: Seq<u8>) -> Option<JsonModel>;

/// The tree that a decoded `serde_json::Value` holds.
pub uninterp spec fn value_tree(value: serde_json::Value) -> JsonModel;

#[verifier::external_type_specification]
#[verifier::external_body]
pub struct ExValue(serde_json::Value);

/// `serde_json::from_slice` at type `serde_json::Value`.
///
/// Trusted: the decoder accepts exactly the texts that denote a document, and
/// the value it returns holds that document.
#[verifier::external_body]
fn value_from_slice(body: &[u8]) -> (parsed: Option<serde_json::Value>)
    ensures
        match parsed {
            Some(value) => json_document(body@) == Some(value_tree(value)),
            None => json_document(body@) is None,
        },
{
    match serde_json::from_slice::<serde_json::Value>(body) {
        Ok(value) => Some(value),
        Err(_) => None,
    }
}

/// Copies a `serde_json::Value` into a [`Json`], variant by variant. Object
/// members come in the order in which `serde_json::Map::iter` yields them.
///
/// Trusted: the copy has the tree that the value holds.
#[verifier::external_body]
fn tree_from_value(value: &serde_json::Value) -> (tree: Json)
    ensures
        tree@ == value_tree(*value),
{
    match value {
        serde_json::Value::Null => Json::Null,
        serde_json::Value::Bool(b) => Json::Bool(*b),
        serde_json::Value::Number(n) => Json::Number(n.to_string()),
        serde_json::Value::String(t) => Json::Text(t.clone()),
        serde_json::Value::Array(items) => Json::Array(items.iter().map(tree_from_value).collect()),
        serde_json::Value::Object(members) => Json::Object(
            members.iter().map(|(k, v)| Member { key: k.clone(), value: tree_from_value(v) }).collect(),
        ),
    }
}

impl Json {
    /// Decodes a JSON text.
    pub fn parse(body: &[u8]) -> (doc: Option<Json>)
        ensures
            match doc {
                Some(tree) => json_document(body@) == Some(tree@),
                None => json_document(body@) is None,
            },
    {
        match value_from_slice(body) {
            Some(value) => Some(tree_from_value(&value)),
            None => None,
        }
    }

    /// The value stored under `key`, if this is an object that has such a
    /// member.
    pub fn get(&self, key: &str) -> (found: Option<&Json>)
        ensures
            match found {
                Some(value) => self@.field(key@) == Some(value@),
                None => self@.field(key@) is None,
            },
    {
        match self {
            Json::Object(members) => {
                let wanted = key.to_owned();
                let ghost model = member_models(members@);
                proof {
                    lemma_object_view(*members);
                }
                let mut i: usize = 0;
                while i < members.len()
                    invariant
                        i <= members.len(),
                        wanted@ == key@,
                        self@ == JsonModel::Object(model),
                        model == member_models(members@),
                        JsonModel::member_from(model, key@, 0) == JsonModel::member_from(
                            model,
                            key@,
                            i as int,
                        ),
                    decreases members.len() - i,
                {
                    if members[i].key == wanted {
                        return Some(&members[i].value);
                    }
                    i += 1;
                }
                None
            },
            _ => None,
        }
    }

    /// The text of a string value.
    pub fn as_text(&self) -> (text: Option<&String>)
        ensures
            match text {
                Some(t) => self@.text() == Some(t@),
                None => self@.text() is None,
            },
    {
        match self {
            Json::Text(t) => Some(t),
            _ => None,
        }
    }

    /// The truth value of a boolean.
    pub fn as_flag(&self) -> (flag: Option<bool>)
        ensures
            flag == self@.flag(),
    {
        match self {
            Json::Bool(b) => Some(*b),
            _ => None,
        }
    }

    /// The text stored under `key`, if this is an object whose member `key`
    /// is a string.
    pub fn text_at(&self, key: &str) -> (text: Option<&String>)
        ensures
            match text {
                Some(t) => self@.text_field(key@) == Some(t@),
                None => self@.text_field(key@) is None,
            },
    {
        match self.get(key) {
            Some(value) => value.as_text(),
            None => None,
        }
    }

    /// The truth value stored under `key`, if this is an object whose member
    /// `key` is a boolean.
    pub fn flag_at(&self, key: &str) -> (flag: Option<bool>)
        ensures
            flag == self@.flag_field(key@),
    {
        match self.get(key) {
            Some(value) => value.as_flag(),
            None => None,
        }
    }

    /// The elements of an array.
    pub fn as_items(&self) -> (items: Option<&Vec<Json>>)
        ensures
            match items {
                Some(v) => self@.items() == Some(item_models(v@)),
                None => self@.items() is None,
            },
    {
        match self {
            Json::Array(items) => {
                proof {
                    lemma_array_view(*items);
                }
                Some(items)
            },
            _ => None,
        }
    }
}



} // verus!

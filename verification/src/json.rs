//! A plain model of JSON documents and the parser that produces it.

use vstd::prelude::*;

verus! {

/// A JSON document. The value of a number is not kept: nothing here reads it.
#[derive(Debug, PartialEq, Eq)]
pub enum Json {
    Null,
    Bool(bool),
    Number,
    Text(String),
    List(Vec<Json>),
    Record(Vec<Member>),
}

/// One member of a JSON object.
#[derive(Debug, PartialEq, Eq)]
pub struct Member {
    pub name: String,
    pub value: Json,
}

/// The mathematical value of a [`Json`] document.
pub enum JsonModel {
    Null,
    Bool(bool),
    Number,
    Text(Seq<char>),
    List(Seq<JsonModel>),
    Record(Seq<MemberModel>),
}

/// The mathematical value of a [`Member`].
pub struct MemberModel {
    pub name: Seq<char>,
    pub value: JsonModel,
}

impl View for Json {
    type V = JsonModel;

    open spec fn view(&self) -> JsonModel
        decreases self,
    {
        match self {
            Json::Null => JsonModel::Null,
            Json::Bool(b) => JsonModel::Bool(*b),
            Json::Number => JsonModel::Number,
            Json::Text(s) => JsonModel::Text(s@),
            Json::List(items) => JsonModel::List(
                Seq::new(
                    items@.len(),
                    |i: int|
                        if 0 <= i < items@.len() {
                            items@[i]@
                        } else {
                            JsonModel::Null
                        },
                ),
            ),
            Json::Record(fields) => JsonModel::Record(
                Seq::new(
                    fields@.len(),
                    |i: int|
                        if 0 <= i < fields@.len() {
                            MemberModel { name: fields@[i].name@, value: fields@[i].value@ }
                        } else {
                            MemberModel { name: Seq::empty(), value: JsonModel::Null }
                        },
                ),
            ),
        }
    }
}

/// What `serde_json::Value` holds, as a document model.
pub uninterp spec fn value_model(value: serde_json::Value) -> JsonModel;

/// The document that `serde_json::from_str` reads from `text`, or none where
/// it rejects the text.
pub uninterp spec fn json_document(text: Seq<char>) -> Option<JsonModel>;

#[verifier::external_type_specification]
#[verifier::external_body]
pub struct ExValue(serde_json::Value);

#[verifier::external_type_specification]
#[verifier::external_body]
pub struct ExJsonError(serde_json::Error);

/// `serde_json::from_str`, reading a `serde_json::Value`: the outcome is a
/// function of the text alone, and [`json_document`] is its name.
#[verifier::external_body]
fn parse_value(text: &str) -> (r: Result<serde_json::Value, serde_json::Error>)
    ensures
        match r {
            Ok(value) => json_document(text@) == Some(value_model(value)),
            Err(_) => json_document(text@).is_none(),
        },
{
    serde_json::from_str::<serde_json::Value>(text)
}

/// Moves a `serde_json::Value` into a [`Json`], variant by variant; members
/// of an object come in the order in which its map hands them out.
#[verifier::external_body]
fn json_from_value(value: serde_json::Value) -> (r: Json)
    ensures
        r@ == value_model(value),
{
    match value {
        serde_json::Value::Null => Json::Null,
        serde_json::Value::Bool(b) => Json::Bool(b),
        serde_json::Value::Number(_) => Json::Number,
        serde_json::Value::String(s) => Json::Text(s),
        serde_json::Value::Array(items) => Json::List(
            items.into_iter().map(json_from_value).collect(),
        ),
        serde_json::Value::Object(members) => Json::Record(
            members.into_iter().map(|(k, v)| Member { name: k, value: json_from_value(v) }).collect(),
        ),
    }
}

/// The JSON document that `text` holds, if it is one.
pub fn parse_json(text: &str) -> (r: Option<Json>)
    ensures
        match r {
            Some(doc) => json_document(text@) == Some(doc@),
            None => json_document(text@).is_none(),
        },
{
    match parse_value(text) {
        Ok(value) => Some(json_from_value(value)),
        Err(_) => None,
    }
}

/// The value of the first member named `key` among `members`.
pub open spec fn lookup(members: Seq<MemberModel>, key: Seq<char>) -> Option<JsonModel>
    decreases members.len(),
{
    if members.len() == 0 {
        None
    } else if members[0].name == key {
        Some(members[0].value)
    } else {
        lookup(members.drop_first(), key)
    }
}

/// The member of `doc` named `key`; none where `doc` is no record or has no
/// such member.
pub open spec fn member_of(doc: JsonModel, key: Seq<char>) -> Option<JsonModel> {
    match doc {
        JsonModel::Record(members) => lookup(members, key),
        _ => None,
    }
}

/// The first text among `items`.
pub open spec fn first_text(items: Seq<JsonModel>) -> Option<Seq<char>>
    decreases items.len(),
{
    if items.len() == 0 {
        None
    } else {
        match items[0] {
            JsonModel::Text(s) => Some(s),
            _ => first_text(items.drop_first()),
        }
    }
}

impl Json {
    /// The member named `key`, as [`member_of`] defines it.
    pub fn member(&self, key: &str) -> (r: Option<&Json>)
        ensures
            match r {
                Some(found) => member_of(self@, key@) == Some(found@),
                None => member_of(self@, key@).is_none(),
            },
    {
        match self {
            Json::Record(members) => {
                let wanted: String = key.to_owned();
                let ghost model = self@->Record_0;
                let mut i: usize = 0;
                assert(model.skip(0) == model);
                while i < members.len()
                    invariant
                        i <= members.len(),
                        wanted@ == key@,
                        self@ == JsonModel::Record(model),
                        model.len() == members@.len(),
                        forall|j: int|
                            0 <= j < members@.len() ==> #[trigger] model[j] == (MemberModel {
                                name: members@[j].name@,
                                value: members@[j].value@,
                            }),
                        lookup(model, key@) == lookup(model.skip(i as int), key@),
                    decreases members.len() - i,
                {
                    assert(model.skip(i as int)[0] == model[i as int]);
                    assert(model.skip(i as int).drop_first() == model.skip(i + 1));
                    if members[i].name == wanted {
                        return Some(&members[i].value);
                    }
                    i += 1;
                }
                None
            },
            _ => None,
        }
    }

    /// The first text among the items, where this is a list.
    pub fn first_text_item(&self) -> (r: Option<&String>)
        ensures
            match self@ {
                JsonModel::List(items) => match r {
                    Some(s) => first_text(items) == Some(s@),
                    None => first_text(items).is_none(),
                },
                _ => r.is_none(),
            },
    {
        match self {
            Json::List(items) => {
                let ghost model = self@->List_0;
                let mut i: usize = 0;
                assert(model.skip(0) == model);
                while i < items.len()
                    invariant
                        i <= items.len(),
                        self@ == JsonModel::List(model),
                        model.len() == items@.len(),
                        forall|j: int| 0 <= j < items@.len() ==> #[trigger] model[j] == items@[j]@,
                        first_text(model) == first_text(model.skip(i as int)),
                    decreases items.len() - i,
                {
                    assert(model.skip(i as int)[0] == model[i as int]);
                    assert(model.skip(i as int).drop_first() == model.skip(i + 1));
                    match &items[i] {
                        Json::Text(s) => {
                            return Some(s);
                        },
                        _ => {},
                    }
                    i += 1;
                }
                None
            },
            _ => None,
        }
    }

    /// The text, where this is one.
    pub fn as_text(&self) -> (r: Option<&String>)
        ensures
            match self@ {
                JsonModel::Text(s) => r matches Some(t) && t@ == s,
                _ => r.is_none(),
            },
    {
        match self {
            Json::Text(s) => Some(s),
            _ => None,
        }
    }
}

} // verus!

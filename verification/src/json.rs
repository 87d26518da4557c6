//! A JSON document as a tree of plain values, and the call that reads one
//! from the bytes of a response body.

use vstd::prelude::*;

verus! {

/// `serde_json::Value`, the tree that the parser builds. Nothing of what it
/// holds is read here: it is handed from the parser to the rewriting.
#[verifier::external_type_specification]
#[verifier::external_body]
pub struct ExValue(serde_json::Value);

/// `serde_json::Number`, the number inside a `serde_json::Value`. Nothing
/// of what it holds is read here.
#[verifier::external_type_specification]
#[verifier::external_body]
pub struct ExNumber(serde_json::Number);

/// A JSON number, kept in the form in which it was read.
#[derive(Clone, Copy, Debug, PartialEq, Eq)]
pub enum JsonNumber {
    /// A whole number that is not negative.
    PosInt(u64),
    /// A whole number below zero.
    NegInt(i64),
    /// A number written with a fraction or an exponent: the bit pattern of
    /// the IEEE 754 double nearest to it.
    Float(u64),
}

impl DeepView for JsonNumber {
    type V = JsonNumber;

    open spec fn deep_view(&self) -> JsonNumber {
        *self
    }
}

/// One `name: value` pair of a JSON object.
#[derive(Debug, PartialEq, Eq)]
pub struct Member {
    pub name: String,
    pub value: Json,
}

/// A JSON document.
#[derive(Debug, PartialEq, Eq)]
pub enum Json {
    Null,
    Bool(bool),
    Number(JsonNumber),
    Text(String),
    Array(Vec<Json>),
    /// The members of an object, in the order in which they are held.
    Object(Vec<Member>),
}

/// The mathematical value of a [`Member`].
pub struct MemberModel {
    pub name: Seq<char>,
    pub value: JsonModel,
}

/// The mathematical value of a [`Json`] document.
pub enum JsonModel {
    Null,
    Bool(bool),
    Number(JsonNumber),
    Text(Seq<char>),
    Array(Seq<JsonModel>),
    Object(Seq<MemberModel>),
}

/// The value that the document `j` stands for.
pub open spec fn model_of(j: Json) -> JsonModel
    decreases j,
{
    match j {
        Json::Null => JsonModel::Null,
        Json::Bool(b) => JsonModel::Bool(b),
        Json::Number(n) => JsonModel::Number(n),
        Json::Text(s) => JsonModel::Text(s@),
        Json::Array(items) => JsonModel::Array(
            Seq::new(
                items@.len(),
                |i: int|
                    if 0 <= i < items@.len() {
                        model_of(items@[i])
                    } else {
                        JsonModel::Null
                    },
            ),
        ),
        Json::Object(members) => JsonModel::Object(
            Seq::new(
                members@.len(),
                |i: int|
                    if 0 <= i < members@.len() {
                        MemberModel { name: members@[i].name@, value: model_of(members@[i].value) }
                    } else {
                        MemberModel { name: Seq::empty(), value: JsonModel::Null }
                    },
            ),
        ),
    }
}

impl View for Json {
    type V = JsonModel;

    open spec fn view(&self) -> JsonModel {
        model_of(*self)
    }
}

impl DeepView for Json {
    type V = JsonModel;

    open spec fn deep_view(&self) -> JsonModel {
        model_of(*self)
    }
}

impl View for Member {
    type V = MemberModel;

    open spec fn view(&self) -> MemberModel {
        MemberModel { name: self.name@, value: self.value@ }
    }
}

/// The members of `members`, each by its value.
pub open spec fn member_models(members: Seq<Member>) -> Seq<MemberModel> {
    Seq::new(members.len(), |i: int| members[i]@)
}

/// The documents of `items`, each by its value.
pub open spec fn item_models(items: Seq<Json>) -> Seq<JsonModel> {
    Seq::new(items.len(), |i: int| items[i]@)
}

/// An array's value holds the values of its items, in order.
pub proof fn array_model(items: Vec<Json>)
    ensures
        Json::Array(items)@ == JsonModel::Array(item_models(items@)),
{
    assert(Json::Array(items)@->Array_0 =~= item_models(items@));
}

/// An object's value holds the values of its members, in order.
pub proof fn object_model(members: Vec<Member>)
    ensures
        Json::Object(members)@ == JsonModel::Object(member_models(members@)),
{
    assert(Json::Object(members)@->Object_0 =~= member_models(members@));
}

/// What `serde_json::from_slice` reads from `body` as a `serde_json::Value`,
/// by the value of the [`Json`] tree that it is rewritten as; `None` where the
/// parser reports an error.
pub uninterp spec fn json_document(body: Seq<u8>) -> Option<JsonModel>;

/// Calls `serde_json::from_slice` for a `serde_json::Value`. The result is
/// the document that `json_document` names; an error of the parser (text that
/// is not JSON, bytes that are not UTF-8, nesting beyond its limit) gives
/// `None`.
#[verifier::external_body]
pub(crate) fn read_document(body: &[u8]) -> (r: Option<Json>)
    ensures
        match r {
            Some(document) => json_document(body@) == Some(document@),
            None => json_document(body@) is None,
        },
{
    match serde_json::from_slice::<serde_json::Value>(body) {
        Ok(value) => Some(lift(value)),
        Err(_) => None,
    }
}

/// Rewrites a `serde_json::Value` as a [`Json`] tree, variant by variant. An
/// object's members come in the order in which `serde_json::Map` hands them
/// out. The map holds each name once: of a name that the text writes twice
/// the parser has kept the last value, so the tree holds that one.
#[verifier::external_body]
fn lift(value: serde_json::Value) -> Json {
    match value {
        serde_json::Value::Null => Json::Null,
        serde_json::Value::Bool(b) => Json::Bool(b),
        serde_json::Value::Number(n) => Json::Number(lift_number(&n)),
        serde_json::Value::String(s) => Json::Text(s),
        serde_json::Value::Array(items) => Json::Array(items.into_iter().map(lift).collect()),
        serde_json::Value::Object(map) => Json::Object(
            map.into_iter().map(|(name, value)| Member { name, value: lift(value) }).collect(),
        ),
    }
}

/// Rewrites a `serde_json::Number` by its accessors `as_u64`, `as_i64` and
/// `as_f64`, taken in that order; a double is kept by `to_bits`.
#[verifier::external_body]
fn lift_number(n: &serde_json::Number) -> JsonNumber {
    match (n.as_u64(), n.as_i64()) {
        (Some(u), _) => JsonNumber::PosInt(u),
        (None, Some(i)) => JsonNumber::NegInt(i),
        (None, None) => JsonNumber::Float(n.as_f64().map(|x| x.to_bits()).unwrap_or_default()),
    }
}

} // verus!

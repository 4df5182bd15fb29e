//! The boundary to `serde_json`: the JSON value type, carried opaquely, and
//! the few operations on it that the rest of the library relies on. The
//! contracts in this file are believed, not proved.

use vstd::prelude::*;

verus! {

/// `serde_json::Value`: an arbitrary JSON value. Nothing inside it is visible
/// to proofs except through the spec functions below.
#[verifier::external_type_specification]
#[verifier::external_body]
pub struct ExJsonValue(serde_json::Value);

/// The keys that a JSON value holds, in the order in which `serde_json`
/// walks them, if the value is an object; `None` for every other value.
pub uninterp spec fn object_keys(v: serde_json::Value) -> Option<Seq<Seq<char>>>;

/// Whether a JSON value is `null`.
pub uninterp spec fn is_null(v: serde_json::Value) -> bool;

/// The compact JSON text that `serde_json::to_string` writes for the object
/// built by inserting the given members in turn; a member without a value
/// stands for `null`.
pub uninterp spec fn object_text(members: Seq<(Seq<char>, Option<Seq<char>>)>) -> Seq<char>;

/// One member of a flat JSON object: a key with a string value or `null`.
pub struct Member {
    pub key: String,
    pub value: Option<String>,
}

impl View for Member {
    type V = (Seq<char>, Option<Seq<char>>);

    open spec fn view(&self) -> Self::V {
        (
            self.key@,
            match self.value {
                Some(s) => Some(s@),
                None => None,
            },
        )
    }
}

/// The members of a list, each as plain text.
pub open spec fn member_views(members: Seq<Member>) -> Seq<(Seq<char>, Option<Seq<char>>)> {
    Seq::new(members.len(), |i: int| members[i]@)
}

/// The strings of a list, each as a sequence of characters.
pub open spec fn texts(strings: Seq<String>) -> Seq<Seq<char>> {
    Seq::new(strings.len(), |i: int| strings[i]@)
}

/// `serde_json::Value::Null`. Claimed: the value is `null`, hence no object.
#[verifier::external_body]
pub(crate) fn null_value() -> (v: serde_json::Value)
    ensures
        is_null(v),
        object_keys(v) is None,
{
    serde_json::Value::Null
}

/// `serde_json::Map::new` inside `Value::Object`. Claimed: the value is an
/// object without keys.
#[verifier::external_body]
pub(crate) fn empty_object() -> (v: serde_json::Value)
    ensures
        !is_null(v),
        object_keys(v) == Some(Seq::<Seq<char>>::empty()),
{
    serde_json::Value::Object(serde_json::Map::new())
}

/// `Value::as_object` followed by `Map::keys`. Claimed: `None` exactly for a
/// value that is no object, and otherwise a copy of each key, in the order in
/// which the map hands them out.
#[verifier::external_body]
pub(crate) fn keys_of(v: &serde_json::Value) -> (out: Option<Vec<String>>)
    ensures
        out is Some <==> object_keys(*v) is Some,
        out matches Some(keys) ==> object_keys(*v) == Some(texts(keys@)),
{
    v.as_object().map(|m| m.keys().cloned().collect())
}

/// `serde_json::to_string` on the object that holds the given members, each
/// made into a JSON string or `null` by `Value::from`. Claimed: the text
/// depends on the members alone, and there is one for every list: writing
/// such an object into memory has no failing step, since every key is a
/// string and no value is a number.
#[verifier::external_body]
pub(crate) fn object_to_text(members: &Vec<Member>) -> (out: String)
    ensures
        out@ == object_text(member_views(members@)),
{
    let map: serde_json::Map<String, serde_json::Value> = members
        .iter()
        .map(|m| (m.key.clone(), serde_json::Value::from(m.value.clone())))
        .collect();
    serde_json::to_string(&serde_json::Value::Object(map)).expect("an object of strings has a JSON text")
}

} // verus!

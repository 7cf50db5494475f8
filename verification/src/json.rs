//! JSON values, as far as the store reads and writes them.
//!
//! The values themselves are `serde_json::Value`s. Verus sees nothing inside
//! one, so this module gives them a mathematical model, [`JsonModel`], and
//! states over it what each operation of `serde_json` that the store calls
//! does. Those statements are believed, not proved.

use vstd::prelude::*;

verus! {

/// A JSON value as a mathematical tree.
///
/// An integer number is held exactly. A number with a fraction or an exponent
/// is held by the 64 bits of its binary form. An object is a finite map: its
/// keys are unique, and their order carries no meaning.
pub enum JsonModel {
    Null,
    Bool(bool),
    Integer(int),
    Fraction(u64),
    String(Seq<char>),
    Array(Seq<JsonModel>),
    Object(JsonMembers),
}

/// The members of a JSON object, by key.
pub type JsonMembers = Map<Seq<char>, JsonModel>;

impl JsonModel {
    /// The member of an object under `key`; `Null` where the value is no
    /// object or has no such member.
    pub open spec fn member(self, key: Seq<char>) -> JsonModel {
        match self {
            JsonModel::Object(members) => if members.dom().contains(key) {
                members[key]
            } else {
                JsonModel::Null
            },
            _ => JsonModel::Null,
        }
    }

    /// The elements of an array; none where the value is no array.
    pub open spec fn elements(self) -> Seq<JsonModel> {
        match self {
            JsonModel::Array(items) => items,
            _ => Seq::empty(),
        }
    }

    /// The characters of a string; none where the value is no string.
    pub open spec fn text(self) -> Seq<char> {
        match self {
            JsonModel::String(chars) => chars,
            _ => Seq::empty(),
        }
    }

    /// The value of an integer that fits in 64 signed bits; 0 for any other
    /// value.
    pub open spec fn integer(self) -> i64 {
        match self {
            JsonModel::Integer(n) => if i64::MIN <= n <= i64::MAX {
                n as i64
            } else {
                0
            },
            _ => 0,
        }
    }
}

/// `serde_json::Value`, carried as it is: what it holds is known only
/// through [`json_view`].
#[verifier::external_type_specification]
#[verifier::external_body]
pub struct ExValue(serde_json::Value);

/// `serde_json::Map`, carried as it is: what it holds is known only through
/// [`json_members`].
#[verifier::external_type_specification]
#[verifier::external_body]
#[verifier::reject_recursive_types(K)]
#[verifier::reject_recursive_types(V)]
pub struct ExMap<K, V>(serde_json::Map<K, V>);

/// `serde_json::Error`, carried as it is: nothing is known of what it holds.
#[verifier::external_type_specification]
#[verifier::external_body]
pub struct ExError(serde_json::Error);

/// The tree that a `serde_json::Value` holds.
pub uninterp spec fn json_view(value: serde_json::Value) -> JsonModel;

/// The members that a `serde_json::Map` holds, by key.
pub uninterp spec fn json_members(
    members: serde_json::Map<String, serde_json::Value>,
) -> JsonMembers;

/// What `serde_json::from_str` reads from `text` as a `Value`: the tree, or
/// `None` where it rejects the text.
pub uninterp spec fn json_parse(text: Seq<char>) -> Option<JsonModel>;

/// What `serde_json::to_string_pretty` writes for a `Value` that holds
/// `tree`, or `None` where it fails. The members of an object are written in
/// the order of their keys, so the text depends on the tree alone.
pub uninterp spec fn json_pretty(tree: JsonModel) -> Option<Seq<char>>;

/// The trees of a sequence of values, one for one.
pub open spec fn json_views(values: Seq<serde_json::Value>) -> Seq<JsonModel> {
    values.map_values(|value: serde_json::Value| json_view(value))
}

/// `serde_json::from_str::<Value>`: the value read holds the tree that
/// [`json_parse`] names for this text, and the call fails exactly where that
/// is `None`.
#[verifier::external_body]
pub(crate) fn from_str(text: &str) -> (read: Result<serde_json::Value, serde_json::Error>)
    ensures
        match read {
            Ok(value) => json_parse(text@) == Some(json_view(value)),
            Err(_) => json_parse(text@) is None,
        },
{
    serde_json::from_str::<serde_json::Value>(text)
}

/// `serde_json::to_string_pretty` on a `Value`: the text written is the one
/// that [`json_pretty`] names for the value's tree, and the call fails exactly
/// where that is `None`.
#[verifier::external_body]
pub(crate) fn to_string_pretty(value: &serde_json::Value) -> (written: Result<
    String,
    serde_json::Error,
>)
    ensures
        match written {
            Ok(text) => json_pretty(json_view(*value)) == Some(text@),
            Err(_) => json_pretty(json_view(*value)) is None,
        },
{
    serde_json::to_string_pretty(value)
}

/// `Value::as_array`: the elements of an array, `None` for any other value.
#[verifier::external_body]
pub(crate) fn as_array(value: &serde_json::Value) -> (items: Option<&Vec<serde_json::Value>>)
    ensures
        match json_view(*value) {
            JsonModel::Array(trees) => items is Some && json_views(items.unwrap()@) == trees,
            _ => items is None,
        },
{
    value.as_array()
}

/// Indexing a `Value` by a string: the member of an object under `key`, and a
/// null value where the value is no object or has no such member.
#[verifier::external_body]
pub(crate) fn index<'a>(value: &'a serde_json::Value, key: &str) -> (found: &'a serde_json::Value)
    ensures
        json_view(*found) == json_view(*value).member(key@),
{
    &value[key]
}

/// `Value::as_str`: the characters of a string, `None` for any other value.
#[verifier::external_body]
pub(crate) fn as_str(value: &serde_json::Value) -> (chars: Option<&str>)
    ensures
        match json_view(*value) {
            JsonModel::String(text) => chars is Some && chars.unwrap()@ == text,
            _ => chars is None,
        },
{
    value.as_str()
}

/// `Value::as_i64`: the value of an integer that fits in 64 signed bits,
/// `None` for any other value.
#[verifier::external_body]
pub(crate) fn as_i64(value: &serde_json::Value) -> (number: Option<i64>)
    ensures
        match json_view(*value) {
            JsonModel::Integer(n) => if i64::MIN <= n <= i64::MAX {
                number == Some(n as i64)
            } else {
                number is None
            },
            _ => number is None,
        },
{
    value.as_i64()
}

/// `Value::String`: the string value with these characters.
#[verifier::external_body]
pub(crate) fn string(chars: String) -> (value: serde_json::Value)
    ensures
        json_view(value) == JsonModel::String(chars@),
{
    serde_json::Value::String(chars)
}

/// `Value::from` on an `i64`: the integer value with this number.
#[verifier::external_body]
pub(crate) fn integer(number: i64) -> (value: serde_json::Value)
    ensures
        json_view(value) == JsonModel::Integer(number as int),
{
    serde_json::Value::from(number)
}

/// `Value::Array`: the array value with these elements, in this order.
#[verifier::external_body]
pub(crate) fn array(items: Vec<serde_json::Value>) -> (value: serde_json::Value)
    ensures
        json_view(value) == JsonModel::Array(json_views(items@)),
{
    serde_json::Value::Array(items)
}

/// `Value::Object`: the object value with these members.
#[verifier::external_body]
pub(crate) fn object(members: serde_json::Map<String, serde_json::Value>) -> (value:
    serde_json::Value)
    ensures
        json_view(value) == JsonModel::Object(json_members(members)),
{
    serde_json::Value::Object(members)
}

/// `Map::new`: a map without members.
#[verifier::external_body]
pub(crate) fn map_new() -> (members: serde_json::Map<String, serde_json::Value>)
    ensures
        json_members(members) == JsonMembers::empty(),
{
    serde_json::Map::new()
}

/// `Map::insert`: the map holds `value` under `key` afterwards, in place of
/// what it held there, and its other members as before.
#[verifier::external_body]
pub(crate) fn map_insert(
    members: &mut serde_json::Map<String, serde_json::Value>,
    key: String,
    value: serde_json::Value,
)
    ensures
        json_members(*final(members)) == json_members(*old(members)).insert(key@, json_view(value)),
{
    members.insert(key, value);
}

} // verus!

//! JSON documents as the `json` crate parses them, with the few readings that
//! the commands make of them. A parsed document is the crate's own value; what
//! it holds is described by `JsonModel`.

use vstd::prelude::*;
use crate::text::opt_str_view;

verus! {

#[verifier::external_type_specification]
#[verifier::external_body]
pub struct ExJsonValue(json::JsonValue);

#[verifier::external_type_specification]
#[verifier::external_body]
pub struct ExJsonError(json::Error);

/// What a JSON value holds. Numbers keep the crate's decimal form: a sign (or
/// not-a-number, which counts as not positive), a mantissa and a decimal
/// exponent. Short and long strings are both `Str`.
pub enum JsonModel {
    Null,
    Bool(bool),
    Number { positive: bool, mantissa: u64, exponent: i16 },
    Str(Seq<char>),
    Array(Seq<JsonModel>),
    Object(Map<Seq<char>, JsonModel>),
}

impl JsonModel {
    /// The member `key` of an object; `Null` when there is none or this is no object.
    pub open spec fn field(self, key: Seq<char>) -> JsonModel {
        match self {
            JsonModel::Object(m) => if m.dom().contains(key) {
                m[key]
            } else {
                JsonModel::Null
            },
            _ => JsonModel::Null,
        }
    }

    /// The element at `i` of an array; `Null` when out of range or this is no array.
    pub open spec fn item(self, i: int) -> JsonModel {
        match self {
            JsonModel::Array(s) => if 0 <= i < s.len() {
                s[i]
            } else {
                JsonModel::Null
            },
            _ => JsonModel::Null,
        }
    }

    /// The number of elements of an array, 0 for any other value.
    pub open spec fn member_count(self) -> nat {
        match self {
            JsonModel::Array(s) => s.len(),
            _ => 0,
        }
    }

    /// The text of a string.
    pub open spec fn as_str(self) -> Option<Seq<char>> {
        match self {
            JsonModel::Str(s) => Some(s),
            _ => None,
        }
    }

    /// The value of a number that is a non-negative integer written without
    /// exponent, as `JsonValue::as_u64` reads it.
    pub open spec fn as_u64(self) -> Option<u64> {
        match self {
            JsonModel::Number { positive, mantissa, exponent } => if positive && exponent == 0 {
                Some(mantissa)
            } else {
                None
            },
            _ => None,
        }
    }
}

/// What a value of the `json` crate holds.
pub uninterp spec fn json_tree(v: json::JsonValue) -> JsonModel;

/// The value that `json::parse` reads from a text, `None` where the text is not JSON.
pub uninterp spec fn parsed_json(text: Seq<char>) -> Option<JsonModel>;

/// Calls `json::parse`. Claimed: it succeeds exactly when `parsed_json` gives
/// a value, and the value it returns holds that. What the parser accepts is
/// left to the name.
#[verifier::external_body]
pub(crate) fn parse_json(text: &str) -> (r: Result<json::JsonValue, json::Error>)
    ensures
        (r is Ok) <==> (parsed_json(text@) is Some),
        r matches Ok(v) ==> parsed_json(text@) == Some(json_tree(v)),
{
    json::parse(text)
}

/// Calls `Index<&str>` of `json::JsonValue`: the member named `key` of an
/// object, and `Null` for a missing member or a value that is no object.
#[verifier::external_body]
pub(crate) fn field<'a>(value: &'a json::JsonValue, key: &str) -> (r: &'a json::JsonValue)
    ensures
        json_tree(*r) == json_tree(*value).field(key@),
{
    &value[key]
}

/// Calls `Index<usize>` of `json::JsonValue`: the element at `index` of an
/// array, and `Null` out of range or for a value that is no array.
#[verifier::external_body]
pub(crate) fn item<'a>(value: &'a json::JsonValue, index: usize) -> (r: &'a json::JsonValue)
    ensures
        json_tree(*r) == json_tree(*value).item(index as int),
{
    &value[index]
}

/// Calls `JsonValue::is_null`: whether the value is `Null`.
#[verifier::external_body]
pub(crate) fn is_null(value: &json::JsonValue) -> (r: bool)
    ensures
        r == (json_tree(*value) is Null),
{
    value.is_null()
}

/// Calls `JsonValue::is_string`: whether the value is a string.
#[verifier::external_body]
pub(crate) fn is_string(value: &json::JsonValue) -> (r: bool)
    ensures
        r == (json_tree(*value) is Str),
{
    value.is_string()
}

/// Calls `JsonValue::is_array`: whether the value is an array.
#[verifier::external_body]
pub(crate) fn is_array(value: &json::JsonValue) -> (r: bool)
    ensures
        r == (json_tree(*value) is Array),
{
    value.is_array()
}

/// Calls `JsonValue::len`: for an array, its number of elements (for an
/// object the number of its members, which is left unsaid here).
#[verifier::external_body]
pub(crate) fn array_len(value: &json::JsonValue) -> (r: usize)
    ensures
        json_tree(*value) is Array ==> r == json_tree(*value).member_count(),
{
    value.len()
}

/// Calls `JsonValue::as_str`: the text of a string, `None` for any other value.
#[verifier::external_body]
pub(crate) fn as_str(value: &json::JsonValue) -> (r: Option<&str>)
    ensures
        opt_str_view(r) == json_tree(*value).as_str(),
{
    value.as_str()
}

/// Calls `JsonValue::as_u64`: a positive number with exponent 0 gives its
/// mantissa, every other value `None`.
#[verifier::external_body]
pub(crate) fn as_u64(value: &json::JsonValue) -> (r: Option<u64>)
    ensures
        r == json_tree(*value).as_u64(),
{
    value.as_u64()
}

/// A response that is not JSON; the parser's own error is kept for its text.
pub struct JsonParseError {
    pub error: json::Error,
}

/// Whether the members of an array hold the whole number `n`, as
/// `value.members().any(|v| v.as_u64() == Some(n))` tells.
pub open spec fn has_member_u64(m: JsonModel, n: u64) -> bool {
    exists|i: int| 0 <= i < m.member_count() && #[trigger] m.item(i).as_u64() == Some(n)
}

/// Whether an array of `value` holds the whole number `n`.
pub fn members_contain_u64(value: &json::JsonValue, n: u64) -> (r: bool)
    ensures
        r == has_member_u64(json_tree(*value), n),
{
    if !is_array(value) {
        return false;
    }
    let len = array_len(value);
    let mut i: usize = 0;
    while i < len
        invariant
            json_tree(*value) is Array,
            len == json_tree(*value).member_count(),
            i <= len,
            forall|k: int| 0 <= k < i ==> #[trigger] json_tree(*value).item(k).as_u64() != Some(n),
        decreases len - i,
    {
        if as_u64(item(value, i)) == Some(n) {
            return true;
        }
        i = i + 1;
    }
    false
}

} // verus!

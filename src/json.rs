//! The JSON calls the library makes: quoting a string, and reading a parsed reply.

use vstd::prelude::*;

verus! {

#[verifier::external_type_specification]
#[verifier::external_body]
pub struct ExValue(serde_json::Value);

/// The JSON string literal that stands for the characters `s`, quotes and escapes included.
pub uninterp spec fn json_string_of(s: Seq<char>) -> Seq<char>;

/// The member of `v` under `key`, as `serde_json::Value::get` finds it.
pub uninterp spec fn member_of(v: serde_json::Value, key: Seq<char>) -> Option<serde_json::Value>;

/// The elements of `v` where it is an array, as `serde_json::Value::as_array` gives them.
pub uninterp spec fn elements_of(v: serde_json::Value) -> Option<Seq<serde_json::Value>>;

/// The text of `v` where it is a string, as `serde_json::Value::as_str` gives it.
pub uninterp spec fn text_value(v: serde_json::Value) -> Option<Seq<char>>;

/// Characters that a JSON string literal holds as they are: no quote, no
/// backslash and no control character below U+0020.
pub open spec fn needs_no_escape(s: Seq<char>) -> bool {
    forall|i: int| 0 <= i < s.len() ==> #[trigger] s[i] != '"' && s[i] != '\\' && s[i] >= ' '
}

/// Relies on `serde_json::to_string` on a `str`: the quoted, escaped literal,
/// which depends on the characters alone. It writes into a `Vec<u8>`, which
/// never reports an I/O error, so the fallback is never taken.
#[verifier::external_body]
pub(crate) fn json_string(s: &str) -> (r: String)
    ensures
        r@ == json_string_of(s@),
        needs_no_escape(s@) ==> r@ == seq!['"'] + s@ + seq!['"'],
{
    serde_json::to_string(s).unwrap_or_default()
}

/// Relies on `serde_json::Value::get` with a string key: the member of an
/// object under that key, `None` for a missing key or a value that is no object.
#[verifier::external_body]
pub(crate) fn member<'a>(v: &'a serde_json::Value, key: &str) -> (r: Option<&'a serde_json::Value>)
    ensures
        match r {
            Some(x) => member_of(*v, key@) == Some(*x),
            None => member_of(*v, key@) is None,
        },
{
    v.get(key)
}

/// Relies on `serde_json::Value::as_array`: the elements of an array, `None`
/// for any other value.
#[verifier::external_body]
pub(crate) fn elements(v: &serde_json::Value) -> (r: Option<&Vec<serde_json::Value>>)
    ensures
        match r {
            Some(xs) => elements_of(*v) == Some(xs@),
            None => elements_of(*v) is None,
        },
{
    v.as_array()
}

/// Relies on `serde_json::Value::as_str`: the text of a string value, `None`
/// for any other value.
#[verifier::external_body]
pub(crate) fn text_of(v: &serde_json::Value) -> (r: Option<String>)
    ensures
        match r {
            Some(t) => text_value(*v) == Some(t@),
            None => text_value(*v) is None,
        },
{
    v.as_str().map(String::from)
}

/// The text at `properties.<property>.<kind>.<leaf>` of `record`, or the empty
/// text where any step of that path is missing or the leaf is no string.
pub open spec fn path_text(
    record: serde_json::Value,
    property: Seq<char>,
    kind: Seq<char>,
    leaf: Seq<char>,
) -> Seq<char> {
    match member_of(record, "properties"@) {
        Some(properties) => match member_of(properties, property) {
            Some(column) => match member_of(column, kind) {
                Some(cell) => match member_of(cell, leaf) {
                    Some(value) => match text_value(value) {
                        Some(t) => t,
                        None => Seq::empty(),
                    },
                    None => Seq::empty(),
                },
                None => Seq::empty(),
            },
            None => Seq::empty(),
        },
        None => Seq::empty(),
    }
}

/// The text found at `properties.<property>.<kind>.<leaf>` of a record, or the
/// empty string where any step of that path is missing or the leaf is no string.
pub fn property_text(record: &serde_json::Value, property: &str, kind: &str, leaf: &str) -> (r: String)
    ensures
        r@ == path_text(*record, property@, kind@, leaf@),
{
    let found = match member(record, "properties") {
        Some(properties) => match member(properties, property) {
            Some(column) => match member(column, kind) {
                Some(cell) => match member(cell, leaf) {
                    Some(value) => text_of(value),
                    None => None,
                },
                None => None,
            },
            None => None,
        },
        None => None,
    };
    match found {
        Some(t) => t,
        None => String::new(),
    }
}

} // verus!

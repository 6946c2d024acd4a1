//! Trusted bridge to the JSON library.
//!
//! The inference service speaks JSON over HTTP.  Quoting a string for a
//! request body, and looking a field up in a response body, are done by
//! `serde_json`; each call sits behind one wrapper here, and its result is
//! named by an uninterpreted spec function, since it depends on the text
//! alone.  Everything around these calls is verified.

use vstd::prelude::*;

verus! {

/// The JSON string literal (quoted and escaped) for a text.  Uninterpreted:
/// it stands for what `serde_json::to_string` returns on a string slice,
/// which depends on the characters alone.
pub uninterp spec fn json_str_of(s: Seq<char>) -> Seq<char>;

/// Relies on `serde_json::to_string` on a string slice: it returns the JSON
/// string literal for the text, which depends on the characters alone, and
/// serializing a string slice does not fail.
#[verifier::external_body]
pub fn json_quote(s: &str) -> (r: String)
    ensures
        r@ == json_str_of(s@),
{
    match serde_json::to_string(s) {
        Ok(t) => t,
        Err(_) => String::new(),
    }
}

/// The string found at a top-level key of a JSON document.  Uninterpreted:
/// `None` stands for a document that does not parse; `Some(None)` for one
/// that parses but holds no string at the key; `Some(Some(t))` for the
/// field's text.  All three depend on the document and key alone.
pub uninterp spec fn json_str_field(body: Seq<char>, key: Seq<char>) -> Option<Option<Seq<char>>>;

/// Relies on `serde_json::from_str::<Value>`, `Value::get` and
/// `Value::as_str`: whether the document parses, and what string its field
/// holds, depend on the text alone.  `Err` carries the parse error's
/// message.
#[verifier::external_body]
pub fn lookup_str_field(body: &str, key: &str) -> (r: Result<Option<String>, String>)
    ensures
        (r is Ok) == (json_str_field(body@, key@) is Some),
        r matches Ok(o) ==> o.deep_view() == json_str_field(body@, key@).unwrap(),
{
    match serde_json::from_str::<serde_json::Value>(body) {
        Ok(v) => match v.get(key) {
            Some(f) => match f.as_str() {
                Some(s) => Ok(Some(s.to_string())),
                None => Ok(None),
            },
            None => Ok(None),
        },
        Err(e) => Err(e.to_string()),
    }
}

/// The strings found under an array field of a JSON document: one element
/// per array item, holding the item's string at the given key, if any.
/// Uninterpreted: `None` stands for a document that does not parse or holds
/// no array at the list key.  The result depends on the text alone.
pub uninterp spec fn json_name_list(
    body: Seq<char>,
    list_key: Seq<char>,
    item_key: Seq<char>,
) -> Option<Seq<Option<Seq<char>>>>;

/// Relies on `serde_json::from_str::<Value>`, `Value::get`,
/// `Value::as_array` and `Value::as_str`: the array under the list key, and
/// each item's string at the item key, depend on the text alone.  Each
/// array item is converted to its string, one for one.
#[verifier::external_body]
pub fn lookup_name_list(body: &str, list_key: &str, item_key: &str) -> (r: Option<
    Vec<Option<String>>,
>)
    ensures
        r.deep_view() == json_name_list(body@, list_key@, item_key@),
{
    let v = match serde_json::from_str::<serde_json::Value>(body) {
        Ok(v) => v,
        Err(_) => return None,
    };
    let arr = match v.get(list_key).and_then(|l| l.as_array()) {
        Some(a) => a,
        None => return None,
    };
    Some(arr.iter().map(|m| m.get(item_key).and_then(|x| x.as_str()).map(|s| s.to_string())).collect())
}

} // verus!

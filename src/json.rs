//! JSON text: what serde_json reads out of it, and how this library frames it.
//!
//! A JSON value is carried as its text. Objects and arrays are taken apart one
//! level at a time, each member or item again as its text.
use vstd::prelude::*;
use std::collections::BTreeMap;
use serde_json::value::RawValue;

verus! {

/// The members of a JSON object, each value as its text; `None` when the text is no object.
pub uninterp spec fn object_fields_of(text: Seq<char>) -> Option<Seq<(Seq<char>, Seq<char>)>>;

/// The items of a JSON array, each as its text; `None` when the text is no array.
pub uninterp spec fn array_items_of(text: Seq<char>) -> Option<Seq<Seq<char>>>;

/// The JSON number in the text, when it is an integer that fits `u32`.
pub uninterp spec fn u32_of(text: Seq<char>) -> Option<u32>;

/// The JSON number in the text, when it is an integer that fits `i32`.
pub uninterp spec fn i32_of(text: Seq<char>) -> Option<i32>;

/// The string that a JSON string literal denotes.
pub uninterp spec fn string_of(text: Seq<char>) -> Option<Seq<char>>;

/// The JSON string literal that denotes a string.
pub uninterp spec fn quoted(s: Seq<char>) -> Seq<char>;

pub open spec fn strings_view(v: Seq<String>) -> Seq<Seq<char>> {
    v.map_values(|s: String| s@)
}

pub open spec fn pairs_view(v: Seq<(String, String)>) -> Seq<(Seq<char>, Seq<char>)> {
    v.map_values(|p: (String, String)| (p.0@, p.1@))
}

/// The value of the first member named `key`.
pub open spec fn lookup(fields: Seq<(Seq<char>, Seq<char>)>, key: Seq<char>) -> Option<Seq<char>>
    decreases fields.len(),
{
    if fields.len() == 0 {
        None
    } else if fields[0].0 == key {
        Some(fields[0].1)
    } else {
        lookup(fields.drop_first(), key)
    }
}

/// The text of JSON null.
pub open spec fn null_text() -> Seq<char> {
    "null"@
}

/// Texts joined with commas between them.
pub open spec fn comma_joined(parts: Seq<Seq<char>>) -> Seq<char>
    decreases parts.len(),
{
    if parts.len() == 0 {
        Seq::empty()
    } else if parts.len() == 1 {
        parts[0]
    } else {
        comma_joined(parts.drop_last()) + ","@ + parts.last()
    }
}

pub open spec fn object_text(members: Seq<Seq<char>>) -> Seq<char> {
    "{"@ + comma_joined(members) + "}"@
}

pub open spec fn array_text(items: Seq<Seq<char>>) -> Seq<char> {
    "["@ + comma_joined(items) + "]"@
}

/// The text of an object member with a literal key.
pub open spec fn member_text(key: Seq<char>, value: Seq<char>) -> Seq<char> {
    quoted(key) + ":"@ + value
}

/// Relies on serde_json::from_str into a `BTreeMap<String, Box<RawValue>>`: the
/// members of a JSON object, each value as its raw text.
#[verifier::external_body]
pub(crate) fn object_fields(text: &str) -> (r: Option<Vec<(String, String)>>)
    ensures
        r is None <==> object_fields_of(text@) is None,
        r matches Some(v) ==> object_fields_of(text@) == Some(pairs_view(v@)),
{
    match serde_json::from_str::<BTreeMap<String, Box<RawValue>>>(text) {
        Ok(map) => Some(map.into_iter().map(|(k, v)| (k, v.get().to_string())).collect()),
        Err(_) => None,
    }
}

/// Relies on serde_json::from_str into a `Vec<Box<RawValue>>`: the items of a
/// JSON array, each as its raw text.
#[verifier::external_body]
pub(crate) fn array_items(text: &str) -> (r: Option<Vec<String>>)
    ensures
        r is None <==> array_items_of(text@) is None,
        r matches Some(v) ==> array_items_of(text@) == Some(strings_view(v@)),
{
    match serde_json::from_str::<Vec<Box<RawValue>>>(text) {
        Ok(items) => Some(items.into_iter().map(|v| v.get().to_string()).collect()),
        Err(_) => None,
    }
}

/// Relies on serde_json::from_str into a `u32`.
#[verifier::external_body]
pub(crate) fn u32_value(text: &str) -> (r: Option<u32>)
    ensures
        r == u32_of(text@),
{
    serde_json::from_str::<u32>(text).ok()
}

/// Relies on serde_json::from_str into an `i32`.
#[verifier::external_body]
pub(crate) fn i32_value(text: &str) -> (r: Option<i32>)
    ensures
        r == i32_of(text@),
{
    serde_json::from_str::<i32>(text).ok()
}

/// Relies on serde_json::from_str into a `String`.
#[verifier::external_body]
pub(crate) fn string_value(text: &str) -> (r: Option<String>)
    ensures
        r is None <==> string_of(text@) is None,
        r matches Some(s) ==> string_of(text@) == Some(s@),
{
    serde_json::from_str::<String>(text).ok()
}

/// Relies on the `Display` of serde_json's `Value::String`: the JSON string literal
/// that denotes `s`, with quotes and escapes.
#[verifier::external_body]
pub(crate) fn quote(s: &str) -> (r: String)
    ensures
        r@ == quoted(s@),
{
    serde_json::Value::String(s.to_string()).to_string()
}

/// Whether two texts are equal.
pub fn same_text(a: &str, b: &str) -> (r: bool)
    ensures
        r == (a@ == b@),
{
    String::from_str(a) == String::from_str(b)
}

/// The value of the first member named `key`.
pub fn find_field(fields: &Vec<(String, String)>, key: &str) -> (r: Option<String>)
    ensures
        r is None <==> lookup(pairs_view(fields@), key@) is None,
        r matches Some(v) ==> lookup(pairs_view(fields@), key@) == Some(v@),
{
    let ghost all = pairs_view(fields@);
    let mut i: usize = 0;
    assert(all.subrange(0, all.len() as int) =~= all);
    while i < fields.len()
        invariant
            i <= fields.len(),
            all == pairs_view(fields@),
            lookup(all, key@) == lookup(all.subrange(i as int, all.len() as int), key@),
        decreases fields.len() - i,
    {
        let ghost rest = all.subrange(i as int, all.len() as int);
        assert(rest.drop_first() =~= all.subrange(i + 1, all.len() as int));
        if same_text(fields[i].0.as_str(), key) {
            return Some(fields[i].1.clone());
        }
        i = i + 1;
    }
    None
}

/// Texts joined with commas between them.
pub fn join_with_commas(parts: &Vec<String>) -> (r: String)
    ensures
        r@ == comma_joined(strings_view(parts@)),
{
    let mut out = String::new();
    let mut i: usize = 0;
    while i < parts.len()
        invariant
            i <= parts.len(),
            out@ == comma_joined(strings_view(parts@).subrange(0, i as int)),
        decreases parts.len() - i,
    {
        let ghost prefix = strings_view(parts@).subrange(0, i + 1);
        assert(prefix.drop_last() =~= strings_view(parts@).subrange(0, i as int));
        if i > 0 {
            out.append(",");
        }
        out.append(parts[i].as_str());
        i = i + 1;
    }
    assert(strings_view(parts@).subrange(0, parts.len() as int) =~= strings_view(parts@));
    out
}

} // verus!

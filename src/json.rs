//! A JSON document as the library reads it, and the two calls into serde_json
//! that turn text into such a document and a string into a JSON string literal.
use vstd::prelude::*;

verus! {

/// A JSON value. Numbers keep what serde_json keeps of them: an integer that
/// fits in `u64`, a negative integer that fits in `i64`, or some other number,
/// whose digits the library never reads.
pub enum Json {
    Null,
    Bool(bool),
    Unsigned(u64),
    Negative(i64),
    Fraction,
    Text(String),
    List(Vec<Json>),
    Object(Vec<(String, Json)>),
}

/// The value under `key` among `entries`: the first entry with that key.
pub open spec fn entry_value(entries: Seq<(String, Json)>, key: Seq<char>) -> Option<Json>
    decreases entries.len(),
{
    if entries.len() == 0 {
        None
    } else if entries[0].0@ == key {
        Some(entries[0].1)
    } else {
        entry_value(entries.drop_first(), key)
    }
}

/// The member `key` of `j`, where `j` is an object that has one.
pub open spec fn member(j: Json, key: Seq<char>) -> Option<Json> {
    match j {
        Json::Object(entries) => entry_value(entries@, key),
        _ => None,
    }
}

/// The value of `j` as a `u64`, where `j` is a non-negative integer in range.
pub open spec fn as_unsigned(j: Json) -> Option<u64> {
    match j {
        Json::Unsigned(n) => Some(n),
        _ => None,
    }
}

proof fn lemma_entry_value_skip(entries: Seq<(String, Json)>, key: Seq<char>, i: int)
    requires
        0 <= i < entries.len(),
        entries[i].0@ != key,
    ensures
        entry_value(entries.subrange(i, entries.len() as int), key)
            == entry_value(entries.subrange(i + 1, entries.len() as int), key),
{
    assert(entries.subrange(i, entries.len() as int).drop_first()
        =~= entries.subrange(i + 1, entries.len() as int));
}

/// The position of the first entry whose key is `key`.
pub fn find_member(entries: &Vec<(String, Json)>, key: &String) -> (r: Option<usize>)
    ensures
        match r {
            None => entry_value(entries@, key@) is None,
            Some(i) => i < entries@.len() && entries@[i as int].0@ == key@
                && entry_value(entries@, key@) == Some(entries@[i as int].1),
        },
{
    let mut i: usize = 0;
    assert(entries@.subrange(0, entries@.len() as int) =~= entries@);
    while i < entries.len()
        invariant
            i <= entries@.len(),
            entry_value(entries@, key@)
                == entry_value(entries@.subrange(i as int, entries@.len() as int), key@),
        decreases entries@.len() - i,
    {
        if entries[i].0 == *key {
            return Some(i);
        }
        proof {
            lemma_entry_value_skip(entries@, key@, i as int);
        }
        i = i + 1;
    }
    None
}

/// serde_json's own value type, which the parser hands back.
#[verifier::external_type_specification]
#[verifier::external_body]
pub struct ExJsonValue(serde_json::Value);

/// What serde_json reads out of `text` as one JSON document, or `None` where the
/// text is not one.
pub uninterp spec fn json_document(text: Seq<char>) -> Option<Json>;

/// The JSON string literal that serde_json writes for the characters `s`.
pub uninterp spec fn json_string_literal(s: Seq<char>) -> Seq<char>;

/// Relies on serde_json::from_str::<serde_json::Value>: the document in `text`,
/// which depends on the text alone, or an error where the text is not JSON.
#[verifier::external_body]
pub(crate) fn parse_json(text: &str) -> (r: Option<Json>)
    ensures
        r == json_document(text@),
{
    match serde_json::from_str::<serde_json::Value>(text) {
        Ok(v) => Some(json_of_value(v)),
        Err(_) => None,
    }
}

/// Moves a serde_json value into the library's model, variant for variant; the
/// conversion behind `parse_json`.
#[verifier::external_body]
fn json_of_value(v: serde_json::Value) -> Json {
    match v {
        serde_json::Value::Null => Json::Null,
        serde_json::Value::Bool(b) => Json::Bool(b),
        serde_json::Value::Number(n) => match (n.as_u64(), n.as_i64()) {
            (Some(u), _) => Json::Unsigned(u),
            (None, Some(i)) => Json::Negative(i),
            (None, None) => Json::Fraction,
        },
        serde_json::Value::String(s) => Json::Text(s),
        serde_json::Value::Array(a) => Json::List(a.into_iter().map(json_of_value).collect()),
        serde_json::Value::Object(m) => Json::Object(
            m.into_iter().map(|(k, x)| (k, json_of_value(x))).collect(),
        ),
    }
}

/// Relies on the compact writer of serde_json (`Display` for
/// `serde_json::Value::String`): `s` as a quoted, escaped JSON string.
#[verifier::external_body]
pub(crate) fn quote_json(s: &str) -> (r: String)
    ensures
        r@ == json_string_literal(s@),
{
    serde_json::Value::String(s.to_string()).to_string()
}

} // verus!

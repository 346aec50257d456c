//! A plain model of the JSON documents this API exchanges, together with
//! the trusted boundary to the `serde_json` parser.

use vstd::prelude::*;

verus! {

/// A JSON value, as plain data the rest of the crate can reason about.
///
/// Numbers are modelled as unsigned integers: every numeric field this
/// API carries (TTLs, cache sizes, lease durations) is a non-negative
/// integer.  A number outside `u64` range is read as `Null` at the parse
/// boundary and therefore rejected by every typed decoder.
pub enum Json {
    Null,
    Bool(bool),
    UInt(u64),
    Text(String),
    Arr(Vec<Json>),
    Obj(Vec<(String, Json)>),
}

/// First value bound to key `k` in an object's entry list, if any.
pub open spec fn lookup(entries: Seq<(String, Json)>, k: Seq<char>) -> Option<Json>
    decreases entries.len(),
{
    if entries.len() == 0 {
        None
    } else if entries[0].0@ == k {
        Some(entries[0].1)
    } else {
        lookup(entries.skip(1), k)
    }
}

/// What `parse_json` returns for a given text: the parsed document, or
/// absence when the text is not well-formed JSON.
pub uninterp spec fn json_of(s: Seq<char>) -> Option<Json>;

/// Mirror of `serde_json::Value`, so that values of that type can cross
/// the trusted boundary below.
#[verifier::external_type_specification]
#[verifier::external_body]
pub struct ExValue(serde_json::Value);

/// Relies on the structure of `serde_json::Value`: each variant is moved
/// into the matching [`Json`] variant, element by element; a number that
/// is not a `u64` becomes [`Json::Null`].  Serves only [`parse_json`].
#[verifier::external_body]
fn from_value(v: serde_json::Value) -> Json {
    match v {
        serde_json::Value::Null => Json::Null,
        serde_json::Value::Bool(b) => Json::Bool(b),
        serde_json::Value::Number(n) => match n.as_u64() {
            Some(u) => Json::UInt(u),
            None => Json::Null,
        },
        serde_json::Value::String(s) => Json::Text(s),
        serde_json::Value::Array(a) => Json::Arr(a.into_iter().map(from_value).collect()),
        serde_json::Value::Object(m) => Json::Obj(m.into_iter().map(|p| (p.0, from_value(p.1))).collect()),
    }
}

/// Relies on `serde_json::from_str`: parses JSON text, deterministically
/// in the text alone; `Err` exactly on malformed input.
#[verifier::external_body]
pub fn parse_json(text: &str) -> (r: Option<Json>)
    ensures
        r == json_of(text@),
{
    serde_json::from_str::<serde_json::Value>(text).ok().map(from_value)
}

/// Looks a key up in an object's entry list, first occurrence wins.
pub fn get_entry<'a>(entries: &'a Vec<(String, Json)>, k: &str) -> (r: Option<&'a Json>)
    ensures
        match r {
            Some(j) => lookup(entries@, k@) == Some(*j),
            None => lookup(entries@, k@) is None,
        },
{
    let key: String = k.to_owned();
    assert(entries@.skip(0) =~= entries@);
    for i in 0..entries.len()
        invariant
            key@ == k@,
            lookup(entries@, k@) == lookup(entries@.skip(i as int), k@),
    {
        assert(entries@.skip(i as int)[0] == entries@[i as int]);
        if entries[i].0 == key {
            return Some(&entries[i].1);
        }
        assert(entries@.skip(i as int).skip(1) =~= entries@.skip(i as int + 1));
    }
    assert(entries@.skip(entries@.len() as int).len() == 0);
    None
}

} // verus!

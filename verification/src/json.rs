//! Trusted access to serde_json: decoding the two response shapes
//! the workflow reads (a nested string field, a list of string
//! pairs) and encoding the one request body it sends (a two-field
//! JSON object). Each decoded or encoded value is a function of the
//! argument bytes and key names alone, so each result carries a name
//! that the callers' contracts are stated over; which keys are read
//! or written is decided by the verified callers, which pass the key
//! names in.

use vstd::prelude::*;

verus! {

/// The string at `body.outer.key` of the JSON document `body`, or
/// `None` when `body` is not JSON, a level is missing, or the value
/// there is not a string.
pub uninterp spec fn json_nested_string(
    body: Seq<u8>,
    outer: Seq<char>,
    key: Seq<char>,
) -> Option<Seq<char>>;

/// The list of string pairs at `body.list_key` of the JSON document
/// `body`, each element read from the fields `first_key` and
/// `second_key` of one entry in order, or `None` when `body` is not
/// JSON, `list_key` is missing or not an array, or some entry lacks
/// one of the two string fields.
pub uninterp spec fn json_pair_list(
    body: Seq<u8>,
    list_key: Seq<char>,
    first_key: Seq<char>,
    second_key: Seq<char>,
) -> Option<Seq<(Seq<char>, Seq<char>)>>;

/// The serialized JSON object with the two string members `k1: v1`
/// and `k2: v2` (`k1 != k2`; members in sorted key order).
pub uninterp spec fn json_object_2(
    k1: Seq<char>,
    v1: Seq<char>,
    k2: Seq<char>,
    v2: Seq<char>,
) -> Seq<char>;

/// The views of a list of string pairs.
pub open spec fn pairs_view(v: Seq<(String, String)>) -> Seq<(Seq<char>, Seq<char>)> {
    v.map_values(|p: (String, String)| (p.0@, p.1@))
}

/// Relies on `serde_json::from_slice`, `serde_json::Value::get` and
/// `serde_json::Value::as_str`: parsing a document and reading the
/// string two object levels down depend on the bytes and the two
/// keys alone.
#[verifier::external_body]
pub(crate) fn get_nested_string(body: &[u8], outer: &str, key: &str) -> (r: Option<String>)
    ensures
        match r {
            Some(t) => json_nested_string(body@, outer@, key@) == Some(t@),
            None => json_nested_string(body@, outer@, key@) is None,
        },
{
    let doc: serde_json::Value = serde_json::from_slice(body).ok()?;
    Some(doc.get(outer)?.get(key)?.as_str()?.to_string())
}

/// Relies on `serde_json::from_slice`, `serde_json::Value::get`,
/// `serde_json::Value::as_array` and `serde_json::Value::as_str`:
/// the decoded pair list depends on the bytes and the three keys
/// alone, and keeps the array's order.
#[verifier::external_body]
pub(crate) fn get_pair_list(
    body: &[u8],
    list_key: &str,
    first_key: &str,
    second_key: &str,
) -> (r: Option<Vec<(String, String)>>)
    ensures
        match r {
            Some(v) => json_pair_list(body@, list_key@, first_key@, second_key@) == Some(
                pairs_view(v@),
            ),
            None => json_pair_list(body@, list_key@, first_key@, second_key@) is None,
        },
{
    let doc: serde_json::Value = serde_json::from_slice(body).ok()?;
    let items = doc.get(list_key)?.as_array()?;
    let mut out: Vec<(String, String)> = Vec::with_capacity(items.len());
    for item in items {
        let first = item.get(first_key)?.as_str()?.to_string();
        let second = item.get(second_key)?.as_str()?.to_string();
        out.push((first, second));
    }
    Some(out)
}

/// Relies on `serde_json::Map::insert` and `serde_json::to_string`:
/// the map is backed by a `BTreeMap` (members serialized in sorted
/// key order), serializing a `serde_json::Value` cannot fail, and
/// the output depends on the keys and values alone.
#[verifier::external_body]
pub(crate) fn encode_object_2(k1: &str, v1: &str, k2: &str, v2: &str) -> (r: String)
    requires
        k1@ != k2@,
    ensures
        r@ == json_object_2(k1@, v1@, k2@, v2@),
{
    let mut members = serde_json::Map::new();
    members.insert(k1.to_string(), serde_json::Value::String(v1.to_string()));
    members.insert(k2.to_string(), serde_json::Value::String(v2.to_string()));
    match serde_json::to_string(&serde_json::Value::Object(members)) {
        Ok(encoded) => encoded,
        Err(_) => String::new(),
    }
}

} // verus!

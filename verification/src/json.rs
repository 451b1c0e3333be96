use vstd::prelude::*;

verus! {

/// `serde_json::Map`, a JSON object; nothing is known of what is inside
/// but through `json_map_keys`.
#[verifier::external_type_specification]
#[verifier::external_body]
#[verifier::reject_recursive_types(K)]
#[verifier::reject_recursive_types(V)]
pub struct ExJsonMap<K, V>(serde_json::Map<K, V>);

/// `serde_json::Value`, a JSON value; it is only carried along.
#[verifier::external_type_specification]
#[verifier::external_body]
pub struct ExJsonValue(serde_json::Value);

/// The keys of a JSON object.
pub uninterp spec fn json_map_keys(m: serde_json::Map<String, serde_json::Value>) -> Set<Seq<char>>;

/// `serde_json::Map::contains_key`: whether the object has a value under
/// `key`. The call hands on what the map that holds the entries answers,
/// so the result says whether `key` is among the keys of the object.
#[verifier::external_body]
pub(crate) fn json_map_contains_key(
    map: &serde_json::Map<String, serde_json::Value>,
    key: &str,
) -> (r: bool)
    ensures
        r == json_map_keys(*map).contains(key@),
{
    map.contains_key(key)
}

} // verus!

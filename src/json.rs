use vstd::prelude::*;

verus! {

/// The string held by the member `key` of the JSON object written in `body`;
/// none where `body` is not JSON, is not an object, has no such member, or the
/// member holds no string.
pub uninterp spec fn json_string_member(body: Seq<char>, key: Seq<char>) -> Option<Seq<char>>;

/// Relies on `serde_json::from_str` into a `serde_json::Value`, then
/// `Value::get` with a string key and `Value::as_str`: together a function of
/// the two texts alone.
#[verifier::external_body]
pub(crate) fn string_member(body: &str, key: &str) -> (r: Option<String>)
    ensures
        match r {
            Some(v) => json_string_member(body@, key@) == Some(v@),
            None => json_string_member(body@, key@) is None,
        },
{
    let value: serde_json::Value = serde_json::from_str(body).ok()?;
    value.get(key).and_then(|m| m.as_str()).map(|m| m.to_string())
}

} // verus!

//! The calls into serde_json that decoding a status record needs.
use vstd::prelude::*;

verus! {

#[verifier::external_type_specification]
#[verifier::external_body]
pub struct ExJsonValue(serde_json::Value);

#[verifier::external_type_specification]
#[verifier::external_body]
pub struct ExJsonError(serde_json::Error);

/// The JSON value that serde_json reads from the bytes `b`, if they hold one.
pub uninterp spec fn json_of(b: Seq<u8>) -> Option<serde_json::Value>;

/// The value that the JSON pointer `p` picks out of `v`, if any.
pub uninterp spec fn pointer_of(v: serde_json::Value, p: Seq<char>) -> Option<serde_json::Value>;

/// The integer that `v` holds, if it is a JSON number that fits in an `i64`.
pub uninterp spec fn int_of(v: serde_json::Value) -> Option<i64>;

/// Relies on serde_json::from_slice: reads one JSON text from the bytes;
/// an empty input holds none.
#[verifier::external_body]
pub(crate) fn parse_json(b: &[u8]) -> (r: Result<serde_json::Value, serde_json::Error>)
    ensures
        r matches Ok(v) ==> json_of(b@) == Some(v),
        r is Err ==> json_of(b@) is None,
        b@.len() == 0 ==> r is Err,
{
    serde_json::from_slice::<serde_json::Value>(b)
}

/// Relies on serde_json::Value::pointer: looks a member up by JSON pointer.
pub assume_specification<'a>[ serde_json::Value::pointer ](
    v: &'a serde_json::Value,
    pointer: &str,
) -> (r: Option<&'a serde_json::Value>)
    ensures
        r matches Some(x) ==> pointer_of(*v, pointer@) == Some(*x),
        r is None ==> pointer_of(*v, pointer@) is None,
;

/// Relies on serde_json::Value::as_i64: the integer of a number that fits in an `i64`.
pub assume_specification[ serde_json::Value::as_i64 ](v: &serde_json::Value) -> (r: Option<i64>)
    ensures
        r == int_of(*v),
;

} // verus!

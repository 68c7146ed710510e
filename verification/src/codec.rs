//! JSON at the edge of the contract: the argument payload of the remote call and
//! the balance carried by its result.

use vstd::prelude::*;

verus! {

/// The bytes that `serde_json::to_vec` writes for a JSON object with the single
/// member `key`, whose value is the JSON string `value`.
pub uninterp spec fn json_string_member(key: Seq<char>, value: Seq<char>) -> Seq<u8>;

/// What `serde_json::from_slice` makes of `bytes` when it is asked for a
/// `near_sdk::json_types::U128`, a number written as a JSON string: the number
/// that it decodes, or `None` where it reports an error.
pub uninterp spec fn json_u128(bytes: Seq<u8>) -> Option<u128>;

/// Calls `serde_json::to_vec`, as `near_sdk` re-exports it, on a
/// `serde_json::Value::Object` with one member.
///
/// Trusted: the bytes are a function of `key` and `value` alone. The call cannot
/// fail here: the object's key is a string, `Value` never refuses to serialise,
/// and the writer is a `Vec<u8>`, so the `unwrap` never panics.
#[verifier::external_body]
pub(crate) fn encode_string_member(key: &str, value: &str) -> (bytes: Vec<u8>)
    ensures
        bytes@ == json_string_member(key@, value@),
{
    let mut members = near_sdk::serde_json::Map::new();
    members.insert(key.to_string(), near_sdk::serde_json::Value::String(value.to_string()));
    near_sdk::serde_json::to_vec(&near_sdk::serde_json::Value::Object(members)).unwrap()
}

/// Calls `serde_json::from_slice`, as `near_sdk` re-exports it, for a
/// `near_sdk::json_types::U128`.
///
/// Trusted: the outcome is a function of the bytes alone. Nothing is claimed about
/// which bytes decode; an error of the decoder becomes `None`.
#[verifier::external_body]
pub(crate) fn decode_u128(bytes: &[u8]) -> (decoded: Option<u128>)
    ensures
        decoded == json_u128(bytes@),
{
    match near_sdk::serde_json::from_slice::<near_sdk::json_types::U128>(bytes) {
        Ok(balance) => Some(balance.0),
        Err(_) => None,
    }
}

} // verus!

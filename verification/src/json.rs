//! The JSON values that a classification carries.
//!
//! A `reason` or `details` value reaches the wire as a JSON value.  The
//! library never looks inside one: it makes them from string contents,
//! copies them, and hands them through to the transform policy.

use vstd::prelude::*;

verus! {

#[verifier::external_type_specification]
#[verifier::external_body]
pub struct ExValue(serde_json::Value);

/// The JSON string value holding the characters of `s`.
pub uninterp spec fn json_string(s: Seq<char>) -> serde_json::Value;

/// Relies on `serde_json::to_value` on a string slice: serializing a
/// string slice cannot fail, and yields the JSON string holding the same
/// characters.
#[verifier::external_body]
pub fn to_json_string(s: &str) -> (r: Option<serde_json::Value>)
    ensures
        r == Some(json_string(s@)),
{
    serde_json::to_value(s).ok()
}

/// Relies on the `Clone` implementation of `serde_json::Value`: a deep
/// copy equal to the value cloned.
pub assume_specification[ <serde_json::Value as Clone>::clone ](v: &serde_json::Value) -> (r:
    serde_json::Value)
    ensures
        r == *v,
;

/// A copy of an optional JSON value.
pub fn dup_opt_json(o: &Option<serde_json::Value>) -> (r: Option<serde_json::Value>)
    ensures
        r == *o,
{
    match o {
        None => None,
        Some(v) => Some(v.clone()),
    }
}

} // verus!

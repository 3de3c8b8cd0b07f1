//! The shared bearer token that gates every call.

use vstd::prelude::*;
use vstd::string::StringExecFns;

verus! {

/// The value of the `authorization` entry that presents `token`.
pub open spec fn bearer(token: Seq<char>) -> Seq<char> {
    "Bearer "@ + token
}

/// Builds the value of the `authorization` entry that presents `token`.
pub fn authorization_value(token: &String) -> (value: String)
    ensures
        value@ == bearer(token@),
{
    String::from_str("Bearer ").concat(token.as_str())
}

/// Whether a call that presents `presented` as its `authorization` entry may
/// pass the server that holds `token`: the entry has to be there and to
/// present that very token.
pub fn is_authorized(presented: Option<&String>, token: &String) -> (allowed: bool)
    ensures
        allowed == (presented matches Some(value) && value@ == bearer(token@)),
{
    match presented {
        Some(value) => *value == authorization_value(token),
        None => false,
    }
}

} // verus!

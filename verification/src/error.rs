//! The error type of the agent library.

use vstd::prelude::*;

use crate::text::{push_str, to_owned_string};

verus! {

/// Errors reported by the agent library.
#[derive(Debug, Clone, PartialEq, Eq)]
pub enum AgentError {
    /// A platform rejected or could not interpret something.
    Platform(String),
    /// A configuration value is missing or invalid.
    Configuration(String),
    /// A looked-up item does not exist.
    NotFound(String),
    /// A looked-up agent or thread does not exist.
    AgentNotFound(String),
    /// Credentials are missing or were refused.
    Authentication(String),
}

/// `prefix` followed by the text of a 128-bit ID in UUID form.
pub fn message_with_id(prefix: &str, id: u128) -> (s: String)
    ensures
        s@ == prefix@ + crate::clock::uuid_text(id),
{
    let mut s = to_owned_string(prefix);
    let t = crate::clock::uuid_string(id);
    push_str(&mut s, t.as_str());
    s
}

/// `prefix` followed by `detail`, as a new string.
pub fn message_with(prefix: &str, detail: &str) -> (s: String)
    ensures
        s@ == prefix@ + detail@,
{
    let mut s = to_owned_string(prefix);
    push_str(&mut s, detail);
    s
}

} // verus!

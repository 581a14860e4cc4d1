//! The restart flag of a channel, as it comes back from the store.
//!
//! The store keeps JSON values. The relay reads one thing of a value: the
//! boolean, if it is one.

use vstd::prelude::*;

verus! {

/// A JSON value of `serde_json`. Nothing of its inside is known here.
#[verifier::external_type_specification]
#[verifier::external_body]
pub struct ExJsonValue(serde_json::Value);

/// The boolean that a JSON value holds: `Some` of it where the value is a
/// JSON boolean, `None` for every other value.
pub uninterp spec fn json_boolean(value: serde_json::Value) -> Option<bool>;

/// `serde_json::Value::as_bool`: the boolean of a JSON boolean, `None` for
/// any other value. The contract gives that result its name.
#[verifier::external_body]
fn as_bool(value: &serde_json::Value) -> (flag: Option<bool>)
    ensures
        flag == json_boolean(*value),
{
    value.as_bool()
}

/// What a read of the store says of the flag: the boolean where the key
/// holds one, `None` where the key holds something else or nothing came
/// back.
pub open spec fn flag_in(stored: Option<serde_json::Value>) -> Option<bool> {
    match stored {
        Some(value) => json_boolean(value),
        None => None,
    }
}

/// Reads the restart flag out of what the store gave back for a key.
pub fn stored_flag(stored: Option<serde_json::Value>) -> (flag: Option<bool>)
    ensures
        flag == flag_in(stored),
{
    match stored {
        Some(value) => as_bool(&value),
        None => None,
    }
}

/// Whether the next completion starts a new conversation: only where the
/// flag was read and is `true`. An absent flag counts as `false`.
pub open spec fn restart_from(flag: Option<bool>) -> bool {
    flag == Some(true)
}

/// Decides from the flag read whether to start a new conversation.
pub fn restart_requested(flag: Option<bool>) -> (restart: bool)
    ensures
        restart == restart_from(flag),
{
    match flag {
        Some(set) => set,
        None => false,
    }
}

} // verus!

//! Fresh opaque identifiers for conversations and messages.

use vstd::prelude::*;

verus! {

/// Relies on `uuid::Uuid::new_v4` and its `Display` impl: a fresh random
/// version-4 UUID rendered in the hyphenated textual form, which is always
/// 36 ASCII characters. The value depends on randomness, so nothing
/// relates the results of two calls.
#[verifier::external_body]
pub(crate) fn fresh_uuid() -> (r: String)
    ensures
        r@.len() == 36,
{
    uuid::Uuid::new_v4().to_string()
}

} // verus!

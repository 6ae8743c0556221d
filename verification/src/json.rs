//! The JSON payload type.

use vstd::prelude::*;

verus! {

/// `serde_json::Value`, the payload of commands and events.
///
/// The plugin never looks inside a payload: it hands the host what it was
/// given and hands back what the host answered. The type is therefore known
/// here by name only, and nothing is claimed of its contents.
#[verifier::external_type_specification]
#[verifier::external_body]
pub struct ExJsonValue(serde_json::Value);

} // verus!

//! Rendering JSON values for output.
use vstd::prelude::*;

use crate::error::TickTickError;
use crate::json::{json_pretty, pretty_json};

verus! {

/// The value as pretty-printed JSON (two-space indentation), as serde_json renders it.
pub fn format_json(value: &serde_json::Value) -> (r: Result<String, TickTickError>)
    ensures
        r matches Ok(s) && s@ == json_pretty(*value),
{
    match pretty_json(value) {
        Ok(s) => Ok(s),
        Err(e) => Err(TickTickError::InvalidJson(e)),
    }
}

} // verus!

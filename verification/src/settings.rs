//! Switches of the configuration.

use vstd::prelude::*;
use crate::text::same_text;

verus! {

/// What a switch is set to: off where it is not set, on for `true`, off
/// for `false`, and nothing for any other text.
pub open spec fn spec_switch(value: Option<&str>) -> Option<bool> {
    match value {
        None => Some(false),
        Some(text) => if text@ == "true"@ {
            Some(true)
        } else if text@ == "false"@ {
            Some(false)
        } else {
            None
        },
    }
}

/// Reads a switch that turns a store on or off. `None` means that the
/// switch is set to a text that is neither `true` nor `false`.
pub fn is_enabled(value: Option<&str>) -> (enabled: Option<bool>)
    ensures
        enabled == spec_switch(value),
{
    match value {
        None => Some(false),
        Some(text) => if same_text(text, "true") {
            Some(true)
        } else if same_text(text, "false") {
            Some(false)
        } else {
            None
        },
    }
}

} // verus!

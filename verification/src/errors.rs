//! Errors of the bot's own.

use vstd::prelude::*;
use vstd::string::*;

verus! {

/// There was no dolphin to pick: the dolphin list is empty.
#[derive(Clone, Copy, Debug, PartialEq, Eq, Structural)]
pub struct NoDolphinError;

impl NoDolphinError {
    /// The text of the error.
    pub fn message(&self) -> (r: String)
        ensures
            r@ == "no dolphin found"@,
    {
        String::from_str("no dolphin found")
    }
}

} // verus!

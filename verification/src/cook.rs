//! The cook result handed across the boundary: a message plus a
//! severity tag.

use vstd::prelude::*;

verus! {

/// Severity of a finished cook.
#[allow(non_camel_case_types)]
#[derive(Clone, Copy, PartialEq, Eq, Structural, Debug)]
pub enum CookResultTag {
    SUCCESS,
    WARNING,
    ERROR,
}

/// A cook outcome in boundary shape: message and severity side by side.
#[derive(Debug)]
pub struct CookResult {
    pub message: String,
    pub tag: CookResultTag,
}

impl CookResult {
    /// The message text.
    pub fn message(&self) -> (r: &str)
        ensures
            r@ == self.message@,
    {
        self.message.as_str()
    }

    /// The severity tag.
    pub fn tag(&self) -> (r: CookResultTag)
        ensures
            r == self.tag,
    {
        self.tag
    }
}

} // verus!

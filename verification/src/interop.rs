//! The idiomatic cook result and its conversion to the boundary shape.

use vstd::prelude::*;

use crate::cook::CookResultTag;

verus! {

/// A cook outcome as the library's own code produces it.
pub enum CookResult {
    Success(String),
    Warning(String),
    Error(String),
}

impl From<CookResult> for crate::cook::CookResult {
    fn from(res: CookResult) -> (r: crate::cook::CookResult) {
        match res {
            CookResult::Success(msg) => crate::cook::CookResult {
                message: msg,
                tag: CookResultTag::SUCCESS,
            },
            CookResult::Warning(msg) => crate::cook::CookResult {
                message: msg,
                tag: CookResultTag::WARNING,
            },
            CookResult::Error(msg) => crate::cook::CookResult {
                message: msg,
                tag: CookResultTag::ERROR,
            },
        }
    }
}

impl vstd::std_specs::convert::FromSpecImpl<CookResult> for crate::cook::CookResult {
    open spec fn obeys_from_spec() -> bool {
        true
    }

    open spec fn from_spec(res: CookResult) -> crate::cook::CookResult {
        match res {
            CookResult::Success(msg) => crate::cook::CookResult {
                message: msg,
                tag: CookResultTag::SUCCESS,
            },
            CookResult::Warning(msg) => crate::cook::CookResult {
                message: msg,
                tag: CookResultTag::WARNING,
            },
            CookResult::Error(msg) => crate::cook::CookResult {
                message: msg,
                tag: CookResultTag::ERROR,
            },
        }
    }
}

} // verus!

//! An htmx event to fire in the browser, and the element it targets.
use vstd::prelude::*;

verus! {

#[derive(Debug, Clone, Copy)]
pub struct HxTrigger {
    pub event: &'static str,
    pub target: &'static str,
}

} // verus!

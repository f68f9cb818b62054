//! A change of the PLC's e-stop input.
use vstd::prelude::*;

verus! {

/// The new e-stop state; `None` when it is not known.
#[derive(Clone, Copy, Debug, PartialEq, Eq, Structural)]
pub struct EstopStateUpdate {
    pub in_estop: Option<bool>,
}

} // verus!

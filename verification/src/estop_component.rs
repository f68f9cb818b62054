//! The e-stop control on the HMI: whether the PLC is in e-stop and whether the HMI asks
//! for one (the PLC's FORCE_ESTOP coil).
use vstd::prelude::*;

verus! {

/// What the e-stop control shows.
#[derive(Clone, Copy, Debug, PartialEq, Eq, Structural)]
pub struct EstopControl {
    /// The PLC's e-stop input; `None` when it could not be read.
    pub in_estop: Option<bool>,
    /// Whether the HMI requests an e-stop.
    pub requesting_estop: bool,
}

/// The e-stop request as submitted.
#[derive(Clone, Copy, Debug)]
pub struct EstopRequestForm {
    pub requesting_estop: bool,
}

pub fn build_estop_control(in_estop: Option<bool>, requesting_estop: bool) -> (c: EstopControl)
    ensures
        c == (EstopControl { in_estop, requesting_estop }),
{
    EstopControl { in_estop, requesting_estop }
}

/// The control's state from the two PLC readings; an unreadable request coil is taken
/// as "not requesting".
pub fn estop_state(in_estop: Option<bool>, force_estop: Option<bool>) -> (r: (Option<bool>, bool))
    ensures
        r.0 == in_estop,
        r.1 == match force_estop {
            Some(b) => b,
            None => false,
        },
{
    let requesting = match force_estop {
        Some(b) => b,
        None => false,
    };
    (in_estop, requesting)
}

/// The control after a request: when the write of the request coil succeeded it shows
/// what was requested, otherwise what the coil reads back.
pub fn estop_after_request(
    form: EstopRequestForm,
    write_ok: bool,
    in_estop: Option<bool>,
    force_estop: Option<bool>,
) -> (c: EstopControl)
    ensures
        c.in_estop == in_estop,
        write_ok ==> c.requesting_estop == form.requesting_estop,
        !write_ok ==> c.requesting_estop == match force_estop {
            Some(b) => b,
            None => false,
        },
{
    let (in_estop, mut requesting_estop) = estop_state(in_estop, force_estop);
    if write_ok {
        requesting_estop = form.requesting_estop;
    }
    build_estop_control(in_estop, requesting_estop)
}

} // verus!

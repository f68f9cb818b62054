//! What happens when a watched PLC register changes.
use vstd::prelude::*;
use crate::modbus::ModbusValue;
use crate::sse::error_toast::ErrorToast;
use crate::sse::new_estop_state::EstopStateUpdate;

verus! {

/// The PLC's touch-retract request is passed on to the welder's touch-sense coil: a bit
/// reading is written as it is; a word or a missing reading writes nothing.
pub fn touch_retract_request(new_value: Option<ModbusValue>) -> (r: Option<bool>)
    ensures
        r == (match new_value {
            Some(ModbusValue::Bool(b)) => Some(b),
            _ => None::<bool>,
        }),
{
    match new_value {
        Some(ModbusValue::Bool(requested)) => Some(requested),
        _ => None,
    }
}

/// The e-stop state that a reading of the PLC's e-stop input means.
pub open spec fn spec_estop_state(new_value: Option<ModbusValue>) -> Option<bool> {
    match new_value {
        Some(ModbusValue::Bool(b)) => Some(b),
        _ => None,
    }
}

/// The toast shown when the e-stop input changes.
pub open spec fn spec_estop_message(new_value: Option<ModbusValue>) -> Seq<char> {
    match new_value {
        Some(ModbusValue::Bool(true)) => "E-stop activated"@,
        Some(ModbusValue::Bool(false)) => "E-stop de-activated"@,
        Some(ModbusValue::U16(_)) => "Critical error in e-stop system. This should never happen, contact Mitusa for support"@,
        None => "E-stop state changed to unknown"@,
    }
}

/// The two events sent when the e-stop input changes: the new state for the e-stop
/// control, and a toast for the operator.
pub fn estop_events(new_value: Option<ModbusValue>) -> (r: (EstopStateUpdate, ErrorToast))
    ensures
        r.0.in_estop == spec_estop_state(new_value),
        r.1.msg@ == spec_estop_message(new_value),
{
    let in_estop = match new_value {
        Some(ModbusValue::Bool(b)) => Some(b),
        _ => None,
    };
    let msg = match new_value {
        Some(ModbusValue::Bool(true)) => String::from_str("E-stop activated"),
        Some(ModbusValue::Bool(false)) => String::from_str("E-stop de-activated"),
        Some(ModbusValue::U16(_)) => String::from_str(
            "Critical error in e-stop system. This should never happen, contact Mitusa for support",
        ),
        None => String::from_str("E-stop state changed to unknown"),
    };
    (EstopStateUpdate { in_estop }, ErrorToast { msg })
}

/// The e-stop control follows the input: it shows the bit read, or unknown when the input
/// could not be read as a bit; the toast says "activated" exactly when the bit is set and
/// "de-activated" exactly when it is clear, and a value that is not a bit gives neither.
pub proof fn law_estop_follows_input(new_value: Option<ModbusValue>)
    ensures
        forall|b: bool| spec_estop_state(new_value) == Some(b) <==> new_value == Some(ModbusValue::Bool(b)),
        spec_estop_state(new_value) is None <==> !(new_value matches Some(ModbusValue::Bool(_))),
        spec_estop_message(new_value) == "E-stop activated"@ <==> new_value == Some(ModbusValue::Bool(true)),
        spec_estop_message(new_value) == "E-stop de-activated"@ <==> new_value == Some(ModbusValue::Bool(false)),
{
    reveal_strlit("E-stop activated");
    reveal_strlit("E-stop de-activated");
    reveal_strlit("Critical error in e-stop system. This should never happen, contact Mitusa for support");
    reveal_strlit("E-stop state changed to unknown");
    match new_value {
        Some(ModbusValue::Bool(_)) => {
            assert("E-stop activated"@[7] != "E-stop de-activated"@[7]);
        },
        Some(ModbusValue::U16(_)) => {
            assert("Critical error in e-stop system. This should never happen, contact Mitusa for support"@[0] != "E-stop activated"@[0]);
            assert("Critical error in e-stop system. This should never happen, contact Mitusa for support"@[0] != "E-stop de-activated"@[0]);
        },
        None => {
            assert("E-stop state changed to unknown"@[7] != "E-stop activated"@[7]);
            assert("E-stop state changed to unknown"@[7] != "E-stop de-activated"@[7]);
        },
    }
}

} // verus!

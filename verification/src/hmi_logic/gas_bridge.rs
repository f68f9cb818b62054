//! The gas bridge: every tick, the PLC's "gas requested" coil is made to follow the
//! welder's "gas output enabled" input.
use vstd::prelude::*;

verus! {

/// Milliseconds between two ticks of the bridge.
pub const GAS_BRIDGE_INTERVAL_MS: u64 = 50;

/// Least time, in milliseconds, between two reports of an unreadable PLC coil.
pub const READ_ERROR_LOG_THROTTLE_MS: u64 = 5000;

/// What one tick decides.
#[derive(Clone, Copy, Debug, PartialEq, Eq, Structural)]
pub struct GasBridgeStep {
    /// Report that the PLC's coil could not be read.
    pub report_read_failure: bool,
    /// The value to write to the PLC's coil, if any.
    pub write: Option<bool>,
}

pub open spec fn read_or_off(v: Option<bool>) -> bool {
    match v {
        Some(b) => b,
        None => false,
    }
}

/// A failed read of the PLC coil is reported while the PLC is connected, at most once per
/// throttle window (`since_last_report_ms` is the time since the last report, if any).
pub open spec fn spec_report_read_failure(
    clearcore_requested_on: Option<bool>,
    clearcore_connected: bool,
    since_last_report_ms: Option<u64>,
) -> bool {
    &&& clearcore_requested_on is None
    &&& clearcore_connected
    &&& match since_last_report_ms {
        Some(ms) => ms >= READ_ERROR_LOG_THROTTLE_MS,
        None => true,
    }
}

/// The coil is written with the welder's state whenever the two differ; an unreadable
/// value counts as off.
pub open spec fn spec_gas_write(welder_gas_on: Option<bool>, clearcore_requested_on: Option<bool>) -> Option<bool> {
    if read_or_off(welder_gas_on) == read_or_off(clearcore_requested_on) {
        None
    } else {
        Some(read_or_off(welder_gas_on))
    }
}

/// One tick of the bridge, from what was read to what is to be done.
pub fn gas_bridge_step(
    welder_gas_on: Option<bool>,
    clearcore_requested_on: Option<bool>,
    clearcore_connected: bool,
    since_last_report_ms: Option<u64>,
) -> (r: GasBridgeStep)
    ensures
        r.report_read_failure == spec_report_read_failure(
            clearcore_requested_on,
            clearcore_connected,
            since_last_report_ms,
        ),
        r.write == spec_gas_write(welder_gas_on, clearcore_requested_on),
{
    let welder = match welder_gas_on {
        Some(b) => b,
        None => false,
    };
    let requested = match clearcore_requested_on {
        Some(b) => b,
        None => false,
    };
    let report_read_failure = if clearcore_requested_on.is_none() && clearcore_connected {
        match since_last_report_ms {
            Some(ms) => ms >= READ_ERROR_LOG_THROTTLE_MS,
            None => true,
        }
    } else {
        false
    };
    let write = if welder == requested {
        None
    } else {
        Some(welder)
    };
    GasBridgeStep { report_read_failure, write }
}

/// Once a write has landed, the PLC mirrors the welder: the next tick with the same
/// welder reading writes nothing.
pub proof fn law_gas_bridge_settles(welder_gas_on: Option<bool>, clearcore_requested_on: Option<bool>)
    ensures
        spec_gas_write(welder_gas_on, clearcore_requested_on) matches Some(v) ==> spec_gas_write(
            welder_gas_on,
            Some(v),
        ) is None,
        spec_gas_write(welder_gas_on, clearcore_requested_on) is None ==> read_or_off(welder_gas_on)
            == read_or_off(clearcore_requested_on),
{
}

/// A read failure is never reported twice within one throttle window.
pub proof fn law_read_failure_throttled(
    clearcore_requested_on: Option<bool>,
    clearcore_connected: bool,
    since_last_report_ms: u64,
)
    requires
        since_last_report_ms < READ_ERROR_LOG_THROTTLE_MS,
    ensures
        !spec_report_read_failure(clearcore_requested_on, clearcore_connected, Some(since_last_report_ms)),
{
}

} // verus!

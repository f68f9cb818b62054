//! Connection state of a Modbus link and the rules that guard its operations.
use vstd::prelude::*;
use crate::error::{HmPiError, ModbusFault};

verus! {

/// Where a link stands.
#[derive(Clone, Copy, Debug, PartialEq, Eq, Structural, PartialOrd, Ord)]
pub enum ModbusState {
    Connected,
    Connecting,
    Disconnected,
}

impl Default for ModbusState {
    fn default() -> (s: Self)
        ensures
            s == ModbusState::Disconnected,
    {
        ModbusState::Disconnected
    }
}

impl ModbusState {
    pub open spec fn spec_str(self) -> Seq<char> {
        match self {
            ModbusState::Connected => "Connected"@,
            ModbusState::Connecting => "Connecting"@,
            ModbusState::Disconnected => "Disconnected"@,
        }
    }

    pub fn to_str(&self) -> (s: &'static str)
        ensures
            s@ == self.spec_str(),
    {
        match self {
            ModbusState::Connected => "Connected",
            ModbusState::Connecting => "Connecting",
            ModbusState::Disconnected => "Disconnected",
        }
    }
}

/// The first step of a connect: refused while a link is up or being set up, otherwise
/// the link moves to `Connecting`.
pub open spec fn spec_begin_connect(state: ModbusState) -> core::result::Result<ModbusState, HmPiError> {
    match state {
        ModbusState::Connecting | ModbusState::Connected => Err(HmPiError::ModbusAlreadyConnected),
        ModbusState::Disconnected => Ok(ModbusState::Connecting),
    }
}

pub fn begin_connect(state: ModbusState) -> (r: core::result::Result<ModbusState, HmPiError>)
    ensures
        r == spec_begin_connect(state),
{
    match state {
        ModbusState::Connecting | ModbusState::Connected => Err(HmPiError::ModbusAlreadyConnected),
        ModbusState::Disconnected => Ok(ModbusState::Connecting),
    }
}

/// The state a connect leaves behind: `Connected` when the transport came up, else
/// `Disconnected` again.
pub open spec fn spec_finish_connect(transport_up: bool) -> ModbusState {
    if transport_up {
        ModbusState::Connected
    } else {
        ModbusState::Disconnected
    }
}

pub fn finish_connect(transport_up: bool) -> (s: ModbusState)
    ensures
        s == spec_finish_connect(transport_up),
{
    if transport_up {
        ModbusState::Connected
    } else {
        ModbusState::Disconnected
    }
}

/// A link's settings together with the state of the link they describe.
pub struct LinkConfig<S> {
    pub state: ModbusState,
    pub settings: S,
}

/// The stored configuration once a connect attempt has finished: on success the requested
/// settings, `Connected`; on failure the settings that were stored, `Disconnected`. The
/// attempt's outcome is handed back.
pub open spec fn spec_settle_connect<S>(
    stored: LinkConfig<S>,
    requested: LinkConfig<S>,
    outcome: core::result::Result<(), HmPiError>,
) -> (LinkConfig<S>, core::result::Result<(), HmPiError>) {
    match outcome {
        Ok(()) => (LinkConfig { state: spec_finish_connect(true), settings: requested.settings }, Ok(())),
        Err(e) => (LinkConfig { state: spec_finish_connect(false), settings: stored.settings }, Err(e)),
    }
}

/// Opens a connect attempt on the stored configuration: refused while a link is up or
/// being set up, otherwise the state becomes `Connecting` and the settings are kept.
pub fn start_connect<S>(stored: &mut LinkConfig<S>) -> (r: core::result::Result<(), HmPiError>)
    ensures
        final(stored).settings == old(stored).settings,
        match spec_begin_connect(old(stored).state) {
            Ok(s) => r is Ok && final(stored).state == s,
            Err(e) => r == Err::<(), HmPiError>(e) && final(stored).state == old(stored).state,
        },
{
    match begin_connect(stored.state) {
        Ok(s) => {
            stored.state = s;
            Ok(())
        },
        Err(e) => Err(e),
    }
}

/// Closes a connect attempt: the configuration to store and the result to report, given
/// the stored configuration, the requested one and whether the transport came up.
pub fn settle_connect<S>(
    stored: LinkConfig<S>,
    requested: LinkConfig<S>,
    outcome: core::result::Result<(), HmPiError>,
) -> (r: (LinkConfig<S>, core::result::Result<(), HmPiError>))
    ensures
        r == spec_settle_connect(stored, requested, outcome),
{
    match outcome {
        Ok(()) => (LinkConfig { state: finish_connect(true), settings: requested.settings }, Ok(())),
        Err(e) => (LinkConfig { state: finish_connect(false), settings: stored.settings }, Err(e)),
    }
}

/// Whether a function code may be sent: the link must be `Connected` and hold a context.
pub open spec fn spec_op_precheck(state: ModbusState, has_context: bool) -> core::result::Result<(), HmPiError> {
    if state != ModbusState::Connected {
        Err(HmPiError::NotConnected)
    } else if !has_context {
        Err(HmPiError::ModbusInvariantBroken)
    } else {
        Ok(())
    }
}

pub fn op_precheck(state: ModbusState, has_context: bool) -> (r: core::result::Result<(), HmPiError>)
    ensures
        r == spec_op_precheck(state, has_context),
{
    if state != ModbusState::Connected {
        Err(HmPiError::NotConnected)
    } else if !has_context {
        Err(HmPiError::ModbusInvariantBroken)
    } else {
        Ok(())
    }
}

/// Flattens a device reply: an exception code or a transport/protocol fault becomes an error.
pub fn squash_error<T>(mb: core::result::Result<core::result::Result<T, u8>, ModbusFault>) -> (r: crate::error::Result<T>)
    ensures
        match mb {
            Ok(Ok(v)) => r == Ok::<T, HmPiError>(v),
            Ok(Err(code)) => r == Err::<T, HmPiError>(HmPiError::ModbusException(code)),
            Err(f) => r == Err::<T, HmPiError>(HmPiError::ModbusProtocolError(f)),
        },
{
    match mb {
        Ok(Ok(res)) => Ok(res),
        Ok(Err(e)) => Err(HmPiError::ModbusException(e)),
        Err(e) => Err(HmPiError::ModbusProtocolError(e)),
    }
}

/// A connect that was let through leaves the link `Connecting`, so a second connect is
/// refused until the first one finishes.
pub proof fn law_connect_is_exclusive(state: ModbusState)
    requires
        spec_begin_connect(state) is Ok,
    ensures
        spec_begin_connect(state) == Ok::<ModbusState, HmPiError>(ModbusState::Connecting),
        spec_begin_connect(ModbusState::Connecting) is Err,
{
}


/// A connect attempt never leaves a link stuck: once it finishes, a link that came up
/// refuses further connects and allows operations (given its context), and a link that
/// did not come up accepts a new attempt and refuses operations.
pub proof fn law_connect_attempt_settles(transport_up: bool)
    ensures
        ({
            let s = spec_finish_connect(transport_up);
            &&& transport_up ==> spec_begin_connect(s) is Err && spec_op_precheck(s, true) is Ok
            &&& !transport_up ==> spec_begin_connect(s) is Ok && spec_op_precheck(s, true) is Err
        }),
{
}

/// A connect on a disconnected link is let through, and once it finishes the stored
/// configuration is the requested one, `Connected`, when the transport came up, and the one
/// stored before, `Disconnected`, with the attempt's error, when it did not. It is never
/// left `Connecting`.
pub proof fn law_connect_stores_config<S>(
    stored: LinkConfig<S>,
    requested: LinkConfig<S>,
    outcome: core::result::Result<(), HmPiError>,
)
    requires
        stored.state == ModbusState::Disconnected,
    ensures
        spec_begin_connect(stored.state) == Ok::<ModbusState, HmPiError>(ModbusState::Connecting),
        ({
            let connecting = LinkConfig { state: ModbusState::Connecting, settings: stored.settings };
            let (after, r) = spec_settle_connect(connecting, requested, outcome);
            &&& after.state != ModbusState::Connecting
            &&& r == outcome
            &&& outcome is Ok ==> after.state == ModbusState::Connected && after.settings == requested.settings
            &&& outcome is Err ==> after.state == ModbusState::Disconnected && after.settings == stored.settings
        }),
{
    if let Ok(u) = outcome {
        assert(u == ());
    }
}

} // verus!

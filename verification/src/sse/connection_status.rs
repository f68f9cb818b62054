//! The connection state of one Modbus link, as pushed to the status icons.
use vstd::prelude::*;
use crate::modbus::ModbusState;

verus! {

#[derive(Clone, Debug)]
pub struct ConnectionStatus {
    /// Which link: `"clearcore"` or `"welder"`.
    pub connection: &'static str,
    /// The link's state name.
    pub state: &'static str,
}

impl ConnectionStatus {
    pub fn new(connection: &'static str, state: ModbusState) -> (s: Self)
        ensures
            s.connection == connection,
            s.state@ == state.spec_str(),
    {
        Self { connection, state: state.to_str() }
    }
}

} // verus!

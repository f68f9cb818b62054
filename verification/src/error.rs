//! The crate-wide error type.
use vstd::prelude::*;
use crate::file_io::FileIoError;
use crate::modbus::{ModbusValue, RegisterAddress};
use crate::text::push_str;

verus! {

/// A Modbus transport or protocol failure, as far as the connection logic reads it:
/// whether the transport itself failed, and the text of the failure.
#[derive(Debug)]
pub struct ModbusFault {
    pub is_transport: bool,
    pub message: String,
}

/// Every failure the HMI reports. Causes that come from outside the library are
/// carried as their display text (or, for Modbus exceptions, the exception code).
#[derive(Debug)]
pub enum HmPiError {
    Io(String),
    NotConnected,
    ConnectionFailed(String),
    ModbusProtocolError(ModbusFault),
    ModbusException(u8),
    InvalidAddress(String),
    ModbusAlreadyConnected,
    ModbusInvariantBroken,
    ModbusTimedOut(String),
    LockTimedOut(String),
    FailedToUnwindConnectAttempt,
    LocalRegisterTypeMismatch(ModbusValue, RegisterAddress),
    LocalRegisterTriedWriteReadOnly(ModbusValue, RegisterAddress),
    ReadUnpopulatedRegister(RegisterAddress),
    JsonError(String),
    FileIo(FileIoError),
    ConfigVersionMismatch,
    InvalidWelderModel,
    MissingExpectedRegister(RegisterAddress, String),
    FailToReadFile(String),
    FailToWriteFile(String),
    FailToParseFile(String),
    CcConfigError(String),
    CcConfigBadRegisterKey(String),
    ModbusFailToReadBackWrites,
}

pub type Result<T> = core::result::Result<T, HmPiError>;

/// Whether a failed poll means the link is dead: a timeout, or a failure of the transport.
pub open spec fn spec_needs_disconnect(e: HmPiError) -> bool {
    match e {
        HmPiError::ModbusTimedOut(_) => true,
        HmPiError::ModbusProtocolError(f) => f.is_transport,
        _ => false,
    }
}

/// The polling loop drops the link exactly after a timeout or a failure of the transport
/// itself; an exception answered by the device, a protocol fault that is not a transport
/// failure, and every other error leave it up.
pub proof fn law_disconnect_only_on_dead_link(e: HmPiError)
    ensures
        spec_needs_disconnect(e) <==> (e is ModbusTimedOut || (e matches HmPiError::ModbusProtocolError(f)
            && f.is_transport)),
{
}

/// Decides whether the polling loop drops the connection after `e`.
pub fn needs_disconnect(e: &HmPiError) -> (b: bool)
    ensures
        b == spec_needs_disconnect(*e),
{
    match e {
        HmPiError::ModbusTimedOut(_) => true,
        HmPiError::ModbusProtocolError(f) => f.is_transport,
        _ => false,
    }
}


/// What a Modbus exception code means, as the Modbus client describes it.
pub open spec fn spec_exception_description(code: u8) -> Seq<char> {
    if code == 0x01 {
        "Illegal function"@
    } else if code == 0x02 {
        "Illegal data address"@
    } else if code == 0x03 {
        "Illegal data value"@
    } else if code == 0x04 {
        "Server device failure"@
    } else if code == 0x05 {
        "Acknowledge"@
    } else if code == 0x06 {
        "Server device busy"@
    } else if code == 0x08 {
        "Memory parity error"@
    } else if code == 0x0A {
        "Gateway path unavailable"@
    } else if code == 0x0B {
        "Gateway target device failed to respond"@
    } else {
        "Custom"@
    }
}

pub fn exception_description(code: u8) -> (s: &'static str)
    ensures
        s@ == spec_exception_description(code),
{
    if code == 0x01 {
        "Illegal function"
    } else if code == 0x02 {
        "Illegal data address"
    } else if code == 0x03 {
        "Illegal data value"
    } else if code == 0x04 {
        "Server device failure"
    } else if code == 0x05 {
        "Acknowledge"
    } else if code == 0x06 {
        "Server device busy"
    } else if code == 0x08 {
        "Memory parity error"
    } else if code == 0x0A {
        "Gateway path unavailable"
    } else if code == 0x0B {
        "Gateway target device failed to respond"
    } else {
        "Custom"
    }
}

impl HmPiError {
    /// The text this error displays.
    pub open spec fn spec_message(&self) -> Seq<char> {
        match self {
            HmPiError::Io(s) => s@,
            HmPiError::NotConnected => "Tried to perform modbus operation when not connected."@,
            HmPiError::ConnectionFailed(s) => "Failed to connect to Modbus server: "@ + s@,
            HmPiError::ModbusProtocolError(f) => "Modbus protocol/transport error: "@ + f.message@,
            HmPiError::ModbusException(c) => "Modbus exception from server: "@
                + spec_exception_description(*c),
            HmPiError::InvalidAddress(s) => "Invalid address: "@ + s@,
            HmPiError::ModbusAlreadyConnected => "Tried to connect to modbus when already connected or connecting."@,
            HmPiError::ModbusInvariantBroken => "The connection state does not match the expected invariant. Author has made a mistake. This could also be a VERY precise race condition, if we check connection and disconnect within a couple lines on different threads"@,
            HmPiError::ModbusTimedOut(s) => "Timed out performing modbus operation. elapsed: "@ + s@,
            HmPiError::LockTimedOut(s) => "Timed out waiting for lock. elapsed: "@ + s@,
            HmPiError::FailedToUnwindConnectAttempt => "Failed to unwind connect attempt. State was set to connecting, connection failed, and then failed to set state to disconnected. Can only arise from lock acquisition timeout"@,
            HmPiError::LocalRegisterTypeMismatch(v, a) => "Tried to write a bool to a register that expects a u16 or vice versa. value: "@
                + v.spec_debug() + ", address: "@ + a.spec_debug() + ")"@,
            HmPiError::LocalRegisterTriedWriteReadOnly(v, a) => "Tried to write to a read-only register. value: "@
                + v.spec_debug() + ", address: "@ + a.spec_debug() + ")"@,
            HmPiError::ReadUnpopulatedRegister(a) => "Tried to read a register from cache that has not been populated. This could be because it isn't a real register, or MB isn't working. address: "@
                + a.spec_debug() + ")"@,
            HmPiError::JsonError(s) => "Failed to parse JSON: "@ + s@,
            HmPiError::FileIo(e) => e.spec_message(),
            HmPiError::ConfigVersionMismatch => "Configuration file version mismatch. Expected fields may not match. This may indicate the file was created with a different version of the software."@,
            HmPiError::InvalidWelderModel => "Invalid welder model"@,
            HmPiError::MissingExpectedRegister(a, s) => "Could not find a cached register \""@ + s@
                + "\" with address "@ + a.spec_debug() + "."@,
            HmPiError::FailToReadFile(s) => "failed to read file at "@ + s@,
            HmPiError::FailToWriteFile(s) => "failed to write file at "@ + s@,
            HmPiError::FailToParseFile(s) => "failed to parse file at "@ + s@,
            HmPiError::CcConfigError(s) => "Clearcore static config error: "@ + s@,
            HmPiError::CcConfigBadRegisterKey(s) => "Clearcore static config contained register "@
                + s@ + " that was not defined"@,
            HmPiError::ModbusFailToReadBackWrites => "Failed to read back registers with the same value that was written to them."@,
        }
    }

    /// Renders the error for a user.
    pub fn message(&self) -> (m: String)
        ensures
            m@ == self.spec_message(),
    {
        match self {
            HmPiError::Io(s) => s.clone(),
            HmPiError::NotConnected => String::from_str("Tried to perform modbus operation when not connected."),
            HmPiError::ConnectionFailed(s) => prefixed("Failed to connect to Modbus server: ", s.as_str()),
            HmPiError::ModbusProtocolError(f) => prefixed("Modbus protocol/transport error: ", f.message.as_str()),
            HmPiError::ModbusException(c) => prefixed("Modbus exception from server: ", exception_description(*c)),
            HmPiError::InvalidAddress(s) => prefixed("Invalid address: ", s.as_str()),
            HmPiError::ModbusAlreadyConnected => String::from_str("Tried to connect to modbus when already connected or connecting."),
            HmPiError::ModbusInvariantBroken => String::from_str(
                "The connection state does not match the expected invariant. Author has made a mistake. This could also be a VERY precise race condition, if we check connection and disconnect within a couple lines on different threads",
            ),
            HmPiError::ModbusTimedOut(s) => prefixed("Timed out performing modbus operation. elapsed: ", s.as_str()),
            HmPiError::LockTimedOut(s) => prefixed("Timed out waiting for lock. elapsed: ", s.as_str()),
            HmPiError::FailedToUnwindConnectAttempt => String::from_str(
                "Failed to unwind connect attempt. State was set to connecting, connection failed, and then failed to set state to disconnected. Can only arise from lock acquisition timeout",
            ),
            HmPiError::LocalRegisterTypeMismatch(v, a) => {
                let mut m = String::from_str("Tried to write a bool to a register that expects a u16 or vice versa. value: ");
                value_and_address(&mut m, v, a);
                m
            },
            HmPiError::LocalRegisterTriedWriteReadOnly(v, a) => {
                let mut m = String::from_str("Tried to write to a read-only register. value: ");
                value_and_address(&mut m, v, a);
                m
            },
            HmPiError::ReadUnpopulatedRegister(a) => {
                let mut m = String::from_str(
                    "Tried to read a register from cache that has not been populated. This could be because it isn't a real register, or MB isn't working. address: ",
                );
                let d = a.to_debug_string();
                push_str(&mut m, d.as_str());
                push_str(&mut m, ")");
                m
            },
            HmPiError::JsonError(s) => prefixed("Failed to parse JSON: ", s.as_str()),
            HmPiError::FileIo(e) => e.message(),
            HmPiError::ConfigVersionMismatch => String::from_str(
                "Configuration file version mismatch. Expected fields may not match. This may indicate the file was created with a different version of the software.",
            ),
            HmPiError::InvalidWelderModel => String::from_str("Invalid welder model"),
            HmPiError::MissingExpectedRegister(a, s) => {
                let mut m = String::from_str("Could not find a cached register \"");
                push_str(&mut m, s.as_str());
                push_str(&mut m, "\" with address ");
                let d = a.to_debug_string();
                push_str(&mut m, d.as_str());
                push_str(&mut m, ".");
                m
            },
            HmPiError::FailToReadFile(s) => prefixed("failed to read file at ", s.as_str()),
            HmPiError::FailToWriteFile(s) => prefixed("failed to write file at ", s.as_str()),
            HmPiError::FailToParseFile(s) => prefixed("failed to parse file at ", s.as_str()),
            HmPiError::CcConfigError(s) => prefixed("Clearcore static config error: ", s.as_str()),
            HmPiError::CcConfigBadRegisterKey(s) => {
                let mut m = prefixed("Clearcore static config contained register ", s.as_str());
                push_str(&mut m, " that was not defined");
                m
            },
            HmPiError::ModbusFailToReadBackWrites => String::from_str(
                "Failed to read back registers with the same value that was written to them.",
            ),
        }
    }
}

fn prefixed(prefix: &str, rest: &str) -> (s: String)
    ensures
        s@ == prefix@ + rest@,
{
    let mut s = String::from_str(prefix);
    push_str(&mut s, rest);
    s
}

fn value_and_address(m: &mut String, v: &ModbusValue, a: &RegisterAddress)
    ensures
        final(m)@ == old(m)@ + v.spec_debug() + ", address: "@ + a.spec_debug() + ")"@,
{
    let vd = v.to_debug_string();
    push_str(m, vd.as_str());
    push_str(m, ", address: ");
    let ad = a.to_debug_string();
    push_str(m, ad.as_str());
    push_str(m, ")");
}

} // verus!

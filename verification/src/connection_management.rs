//! The connection box of each Modbus link (ClearCore and welder): what it shows when it
//! is drawn, after a connect attempt and after a disconnect, and the status icons.
use vstd::prelude::*;
use crate::modbus::ModbusState;
use crate::text::{decimal, decimal_string, push_str};

verus! {

/// The host shown when a link's settings cannot be read.
pub open spec fn fallback_host() -> Seq<char> {
    "127.0.0.1"@
}

/// The port shown when a link's settings cannot be read.
pub const FALLBACK_PORT: u16 = 502;

/// The unit id shown when a link's settings cannot be read.
pub const FALLBACK_UNIT_ID: u8 = 1;

/// The timeout, in milliseconds, shown when none is known and used when none is given.
pub const DEFAULT_TIMEOUT_MS: u64 = 1000;

/// The connection box of one link.
#[derive(Debug)]
pub struct ConnectionTemplate {
    pub name: String,
    pub connected: bool,
    pub auto_connect: bool,
    pub host: String,
    pub port: u16,
    pub unit_id: u8,
    pub timeout_ms: u64,
    pub error: Option<String>,
}

/// The state names of both links, for the status icons.
#[derive(Debug)]
pub struct StatusTemplate {
    pub clearcore_state: String,
    pub welder_state: String,
}

/// The connect form as submitted.
#[derive(Debug)]
pub struct ConnectForm {
    pub host: String,
    pub port: u16,
    pub unit_id: u8,
    pub timeout_ms: Option<u32>,
}

/// The auto-connect switch as submitted.
#[derive(Debug)]
pub struct AutoConnectForm {
    pub enabled: bool,
}

/// The stored settings of a link, as the connection box reads them.
#[derive(Debug)]
pub struct LinkSettings {
    pub state: ModbusState,
    pub host: String,
    pub port: u16,
    pub unit_id: u8,
    pub timeout_ms: u64,
}

/// How a connect attempt ended.
#[derive(Debug)]
pub enum ConnectOutcome {
    /// Host and port do not form a socket address.
    InvalidAddress,
    /// The link is up.
    Connected,
    /// The link could not be brought up; the text describes why.
    Failed(String),
}

pub open spec fn spec_option_string(o: Option<String>) -> Option<Seq<char>> {
    match o {
        Some(s) => Some(s@),
        None => None,
    }
}

/// The connection box drawn from a link's settings; when they cannot be read, the box
/// shows a disconnected link with the fallback address.
pub fn connection_template(settings: Option<LinkSettings>, name: &str, auto_connect: bool) -> (t: ConnectionTemplate)
    ensures
        t.name@ == name@,
        t.auto_connect == auto_connect,
        t.error is None,
        match settings {
            Some(s) => {
                &&& t.connected == (s.state == ModbusState::Connected)
                &&& t.host@ == s.host@
                &&& t.port == s.port
                &&& t.unit_id == s.unit_id
                &&& t.timeout_ms == s.timeout_ms
            },
            None => {
                &&& !t.connected
                &&& t.host@ == fallback_host()
                &&& t.port == FALLBACK_PORT
                &&& t.unit_id == FALLBACK_UNIT_ID
                &&& t.timeout_ms == DEFAULT_TIMEOUT_MS
            },
        },
{
    let (connected, host, port, unit_id, timeout_ms) = match settings {
        Some(s) => (s.state == ModbusState::Connected, s.host, s.port, s.unit_id, s.timeout_ms),
        None => (
            false,
            String::from_str("127.0.0.1"),
            FALLBACK_PORT,
            FALLBACK_UNIT_ID,
            DEFAULT_TIMEOUT_MS,
        ),
    };
    ConnectionTemplate {
        name: String::from_str(name),
        connected,
        auto_connect,
        host,
        port,
        unit_id,
        timeout_ms,
        error: None,
    }
}

/// The connection box after a disconnect: the link's last settings (or the fallback),
/// shown as disconnected.
pub fn disconnect_template(settings: Option<LinkSettings>, name: &str, auto_connect: bool) -> (t: ConnectionTemplate)
    ensures
        t.name@ == name@,
        !t.connected,
        t.auto_connect == auto_connect,
        t.error is None,
        match settings {
            Some(s) => {
                &&& t.host@ == s.host@
                &&& t.port == s.port
                &&& t.unit_id == s.unit_id
                &&& t.timeout_ms == s.timeout_ms
            },
            None => {
                &&& t.host@ == fallback_host()
                &&& t.port == FALLBACK_PORT
                &&& t.unit_id == FALLBACK_UNIT_ID
                &&& t.timeout_ms == DEFAULT_TIMEOUT_MS
            },
        },
{
    let (host, port, unit_id, timeout_ms) = match settings {
        Some(s) => (s.host, s.port, s.unit_id, s.timeout_ms),
        None => (String::from_str("127.0.0.1"), FALLBACK_PORT, FALLBACK_UNIT_ID, DEFAULT_TIMEOUT_MS),
    };
    ConnectionTemplate {
        name: String::from_str(name),
        connected: false,
        auto_connect,
        host,
        port,
        unit_id,
        timeout_ms,
        error: None,
    }
}

/// The text that is parsed as the socket address of a connect request: `host:port`.
pub fn address_text(form: &ConnectForm) -> (s: String)
    ensures
        s@ == form.host@ + ":"@ + decimal(form.port as nat),
{
    let mut s = form.host.clone();
    push_str(&mut s, ":");
    let port = decimal_string(form.port as u32);
    push_str(&mut s, port.as_str());
    s
}

/// The timeout of a connect request: the one given, else the default.
pub fn requested_timeout_ms(form: &ConnectForm) -> (ms: u64)
    ensures
        ms == match form.timeout_ms {
            Some(t) => t as u64,
            None => DEFAULT_TIMEOUT_MS,
        },
{
    match form.timeout_ms {
        Some(t) => t as u64,
        None => DEFAULT_TIMEOUT_MS,
    }
}

pub open spec fn spec_connect_error(outcome: ConnectOutcome) -> Option<Seq<char>> {
    match outcome {
        ConnectOutcome::InvalidAddress => Some("Invalid IP address or Port"@),
        ConnectOutcome::Connected => None,
        ConnectOutcome::Failed(e) => Some("Connection Failed: "@ + e@),
    }
}

/// The connection box after a connect attempt: the submitted settings, whether the link
/// came up, and why not.
pub fn connect_attempt_template(
    form: ConnectForm,
    name: &str,
    auto_connect: bool,
    outcome: ConnectOutcome,
) -> (t: ConnectionTemplate)
    ensures
        t.name@ == name@,
        t.connected == (outcome is Connected),
        t.auto_connect == auto_connect,
        t.host@ == form.host@,
        t.port == form.port,
        t.unit_id == form.unit_id,
        t.timeout_ms == match form.timeout_ms {
            Some(ms) => ms as u64,
            None => DEFAULT_TIMEOUT_MS,
        },
        spec_option_string(t.error) == spec_connect_error(outcome),
{
    let timeout_ms = requested_timeout_ms(&form);
    let connected = match outcome {
        ConnectOutcome::Connected => true,
        _ => false,
    };
    let error = match outcome {
        ConnectOutcome::InvalidAddress => Some(String::from_str("Invalid IP address or Port")),
        ConnectOutcome::Connected => None,
        ConnectOutcome::Failed(e) => {
            let mut m = String::from_str("Connection Failed: ");
            push_str(&mut m, e.as_str());
            Some(m)
        },
    };
    ConnectionTemplate {
        name: String::from_str(name),
        connected,
        auto_connect,
        host: form.host,
        port: form.port,
        unit_id: form.unit_id,
        timeout_ms,
        error,
    }
}

pub open spec fn spec_state_label(state: Option<ModbusState>) -> Seq<char> {
    match state {
        Some(s) => s.spec_str(),
        None => "Error"@,
    }
}

fn state_label(state: Option<ModbusState>) -> (s: String)
    ensures
        s@ == spec_state_label(state),
{
    match state {
        Some(st) => String::from_str(st.to_str()),
        None => String::from_str("Error"),
    }
}

/// The status icons: each link's state name, or `Error` when it cannot be read.
pub fn status_template(clearcore: Option<ModbusState>, welder: Option<ModbusState>) -> (t: StatusTemplate)
    ensures
        t.clearcore_state@ == spec_state_label(clearcore),
        t.welder_state@ == spec_state_label(welder),
{
    StatusTemplate { clearcore_state: state_label(clearcore), welder_state: state_label(welder) }
}

} // verus!

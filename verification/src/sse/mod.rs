//! Server-sent events pushed to the browser: what each event carries and the event name
//! it is sent under.
pub mod connection_status;
pub mod error_toast;
pub mod new_estop_state;

use vstd::prelude::*;
use vstd::std_specs::convert::FromSpecImpl;
use crate::sse::connection_status::ConnectionStatus;
use crate::sse::error_toast::ErrorToast;
use crate::sse::new_estop_state::EstopStateUpdate;
use crate::udp_log_listener::ClearcoreLog;

verus! {

/// One event for the browser.
#[derive(Clone, Debug)]
pub enum SseEvent {
    ErrorToast(ErrorToast),
    NewLog(ClearcoreLog),
    ConnectionStatus(ConnectionStatus),
    NewEstopState(EstopStateUpdate),
}

impl SseEvent {
    /// The SSE event name each kind of event is sent under.
    pub open spec fn spec_tag(&self) -> Seq<char> {
        match self {
            SseEvent::ErrorToast(_) => "error-toast"@,
            SseEvent::NewLog(_) => "clearcore-log"@,
            SseEvent::ConnectionStatus(_) => "connection-status"@,
            SseEvent::NewEstopState(_) => "estop-state-update"@,
        }
    }

    pub fn get_tag(&self) -> (s: &'static str)
        ensures
            s@ == self.spec_tag(),
    {
        match self {
            SseEvent::ErrorToast(_) => "error-toast",
            SseEvent::NewLog(_) => "clearcore-log",
            SseEvent::ConnectionStatus(_) => "connection-status",
            SseEvent::NewEstopState(_) => "estop-state-update",
        }
    }
}


impl From<ErrorToast> for SseEvent {
    fn from(value: ErrorToast) -> (e: Self) {
        SseEvent::ErrorToast(value)
    }
}

impl FromSpecImpl<ErrorToast> for SseEvent {
    open spec fn obeys_from_spec() -> bool {
        true
    }

    open spec fn from_spec(value: ErrorToast) -> SseEvent {
        SseEvent::ErrorToast(value)
    }
}

impl From<ClearcoreLog> for SseEvent {
    fn from(value: ClearcoreLog) -> (e: Self) {
        SseEvent::NewLog(value)
    }
}

impl FromSpecImpl<ClearcoreLog> for SseEvent {
    open spec fn obeys_from_spec() -> bool {
        true
    }

    open spec fn from_spec(value: ClearcoreLog) -> SseEvent {
        SseEvent::NewLog(value)
    }
}

impl From<ConnectionStatus> for SseEvent {
    fn from(value: ConnectionStatus) -> (e: Self) {
        SseEvent::ConnectionStatus(value)
    }
}

impl FromSpecImpl<ConnectionStatus> for SseEvent {
    open spec fn obeys_from_spec() -> bool {
        true
    }

    open spec fn from_spec(value: ConnectionStatus) -> SseEvent {
        SseEvent::ConnectionStatus(value)
    }
}

impl From<EstopStateUpdate> for SseEvent {
    fn from(value: EstopStateUpdate) -> (e: Self) {
        SseEvent::NewEstopState(value)
    }
}

impl FromSpecImpl<EstopStateUpdate> for SseEvent {
    open spec fn obeys_from_spec() -> bool {
        true
    }

    open spec fn from_spec(value: EstopStateUpdate) -> SseEvent {
        SseEvent::NewEstopState(value)
    }
}

} // verus!

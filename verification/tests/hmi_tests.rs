use hm_pi::estop_component::{build_estop_control, estop_after_request, estop_state, EstopControl, EstopRequestForm};
use hm_pi::hmi_logic::gas_bridge::{gas_bridge_step, GasBridgeStep, READ_ERROR_LOG_THROTTLE_MS};
use hm_pi::hmi_logic::mb_watcher::{initial_readings, watch_update};
use hm_pi::hmi_logic::watched_registers::{estop_events, touch_retract_request};
use hm_pi::modbus::ModbusValue;
use hm_pi::sse::error_toast::ErrorToast;
use hm_pi::sse::new_estop_state::EstopStateUpdate;
use hm_pi::sse::SseEvent;
use hm_pi::udp_log_listener::ClearcoreLog;

#[test]
fn estop_control_reflects_readings() {
    assert_eq!(
        build_estop_control(Some(true), false),
        EstopControl { in_estop: Some(true), requesting_estop: false }
    );
    assert_eq!(estop_state(None, None), (None, false));
    assert_eq!(estop_state(Some(false), Some(true)), (Some(false), true));
}

#[test]
fn estop_request_shows_what_was_written() {
    let form = EstopRequestForm { requesting_estop: true };
    let c = estop_after_request(form, true, Some(false), Some(false));
    assert_eq!(c, EstopControl { in_estop: Some(false), requesting_estop: true });
    // A failed write shows what the coil reads back.
    let c = estop_after_request(form, false, Some(false), Some(false));
    assert!(!c.requesting_estop);
    let c = estop_after_request(form, false, None, None);
    assert_eq!(c, EstopControl { in_estop: None, requesting_estop: false });
}

#[test]
fn gas_bridge_copies_the_welder_state() {
    assert_eq!(
        gas_bridge_step(Some(true), Some(false), true, None),
        GasBridgeStep { report_read_failure: false, write: Some(true) }
    );
    assert_eq!(
        gas_bridge_step(Some(false), Some(true), true, None),
        GasBridgeStep { report_read_failure: false, write: Some(false) }
    );
    assert_eq!(gas_bridge_step(Some(true), Some(true), true, None).write, None);
    // Unreadable values count as off.
    assert_eq!(gas_bridge_step(None, Some(false), true, None).write, None);
    assert_eq!(gas_bridge_step(None, Some(true), true, None).write, Some(false));
    assert_eq!(gas_bridge_step(Some(true), None, false, None).write, Some(true));
}

#[test]
fn gas_bridge_read_failures_are_throttled() {
    assert!(gas_bridge_step(Some(false), None, true, None).report_read_failure);
    assert!(!gas_bridge_step(Some(false), None, true, Some(READ_ERROR_LOG_THROTTLE_MS - 1)).report_read_failure);
    assert!(gas_bridge_step(Some(false), None, true, Some(READ_ERROR_LOG_THROTTLE_MS)).report_read_failure);
    // Not while the PLC is disconnected, nor when the coil was read.
    assert!(!gas_bridge_step(Some(false), None, false, None).report_read_failure);
    assert!(!gas_bridge_step(Some(false), Some(false), true, None).report_read_failure);
}

#[test]
fn estop_changes_produce_state_and_toast() {
    let (state, toast) = estop_events(Some(ModbusValue::Bool(true)));
    assert_eq!(state, EstopStateUpdate { in_estop: Some(true) });
    assert_eq!(toast.msg, "E-stop activated");
    let (state, toast) = estop_events(Some(ModbusValue::Bool(false)));
    assert_eq!(state.in_estop, Some(false));
    assert_eq!(toast.msg, "E-stop de-activated");
    let (state, toast) = estop_events(Some(ModbusValue::U16(1)));
    assert_eq!(state.in_estop, None);
    assert_eq!(
        toast.msg,
        "Critical error in e-stop system. This should never happen, contact Mitusa for support"
    );
    let (state, toast) = estop_events(None);
    assert_eq!(state.in_estop, None);
    assert_eq!(toast.msg, "E-stop state changed to unknown");
}

#[test]
fn touch_retract_passes_bits_only() {
    assert_eq!(touch_retract_request(Some(ModbusValue::Bool(true))), Some(true));
    assert_eq!(touch_retract_request(Some(ModbusValue::Bool(false))), Some(false));
    assert_eq!(touch_retract_request(Some(ModbusValue::U16(1))), None);
    assert_eq!(touch_retract_request(None), None);
}

#[test]
fn watcher_fires_on_change_only() {
    let mut seen = initial_readings(2);
    assert_eq!(seen, vec![None, None]);
    assert!(!watch_update(&mut seen, 0, None));
    assert!(watch_update(&mut seen, 0, Some(ModbusValue::Bool(true))));
    assert!(!watch_update(&mut seen, 0, Some(ModbusValue::Bool(true))));
    assert!(watch_update(&mut seen, 0, Some(ModbusValue::Bool(false))));
    assert!(watch_update(&mut seen, 1, Some(ModbusValue::U16(4))));
    assert!(watch_update(&mut seen, 1, None));
    assert_eq!(seen, vec![Some(ModbusValue::Bool(false)), None]);
}

#[test]
fn sse_event_tags() {
    let toast: SseEvent = ErrorToast { msg: "x".to_string() }.into();
    assert_eq!(toast.get_tag(), "error-toast");
    let estop: SseEvent = EstopStateUpdate { in_estop: None }.into();
    assert_eq!(estop.get_tag(), "estop-state-update");
    let log: SseEvent = ClearcoreLog {
        timestamp: String::new(),
        level: None,
        source_info: String::new(),
        message: String::new(),
    }
    .into();
    assert_eq!(log.get_tag(), "clearcore-log");
    let status: SseEvent =
        hm_pi::sse::connection_status::ConnectionStatus::new("clearcore", hm_pi::modbus::ModbusState::Connected).into();
    assert_eq!(status.get_tag(), "connection-status");
}

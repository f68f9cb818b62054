use hm_pi::connection_management::{
    address_text, connect_attempt_template, connection_template, disconnect_template,
    requested_timeout_ms, status_template, ConnectForm, ConnectOutcome, LinkSettings,
};
use hm_pi::modbus::ModbusState;
use hm_pi::sse::connection_status::ConnectionStatus;

fn settings(state: ModbusState) -> LinkSettings {
    LinkSettings {
        state,
        host: "192.168.1.68".to_string(),
        port: 502,
        unit_id: 3,
        timeout_ms: 750,
    }
}

fn form(timeout_ms: Option<u32>) -> ConnectForm {
    ConnectForm { host: "10.0.0.5".to_string(), port: 1502, unit_id: 7, timeout_ms }
}

#[test]
fn box_shows_the_stored_settings() {
    let t = connection_template(Some(settings(ModbusState::Connected)), "clearcore", true);
    assert_eq!(t.name, "clearcore");
    assert!(t.connected);
    assert!(t.auto_connect);
    assert_eq!(t.host, "192.168.1.68");
    assert_eq!(t.port, 502);
    assert_eq!(t.unit_id, 3);
    assert_eq!(t.timeout_ms, 750);
    assert!(t.error.is_none());
    let t = connection_template(Some(settings(ModbusState::Connecting)), "welder", false);
    assert!(!t.connected);
}

#[test]
fn box_falls_back_when_settings_are_unreadable() {
    let t = connection_template(None, "welder", false);
    assert!(!t.connected);
    assert_eq!(t.host, "127.0.0.1");
    assert_eq!(t.port, 502);
    assert_eq!(t.unit_id, 1);
    assert_eq!(t.timeout_ms, 1000);
}

#[test]
fn disconnect_keeps_the_address() {
    let t = disconnect_template(Some(settings(ModbusState::Connected)), "clearcore", true);
    assert!(!t.connected);
    assert_eq!(t.host, "192.168.1.68");
    assert_eq!(t.unit_id, 3);
    let t = disconnect_template(None, "clearcore", true);
    assert_eq!(t.host, "127.0.0.1");
    assert_eq!(t.timeout_ms, 1000);
}

#[test]
fn connect_requests() {
    assert_eq!(address_text(&form(None)), "10.0.0.5:1502");
    assert_eq!(requested_timeout_ms(&form(None)), 1000);
    assert_eq!(requested_timeout_ms(&form(Some(250))), 250);
}

#[test]
fn connect_outcomes() {
    let ok = connect_attempt_template(form(Some(300)), "welder", false, ConnectOutcome::Connected);
    assert!(ok.connected);
    assert_eq!(ok.host, "10.0.0.5");
    assert_eq!(ok.port, 1502);
    assert_eq!(ok.unit_id, 7);
    assert_eq!(ok.timeout_ms, 300);
    assert!(ok.error.is_none());

    let bad = connect_attempt_template(form(None), "welder", true, ConnectOutcome::InvalidAddress);
    assert!(!bad.connected);
    assert!(bad.auto_connect);
    assert_eq!(bad.timeout_ms, 1000);
    assert_eq!(bad.error.as_deref(), Some("Invalid IP address or Port"));

    let failed = connect_attempt_template(
        form(None),
        "welder",
        false,
        ConnectOutcome::Failed("ModbusTimedOut(\"deadline\")".to_string()),
    );
    assert!(!failed.connected);
    assert_eq!(
        failed.error.as_deref(),
        Some("Connection Failed: ModbusTimedOut(\"deadline\")")
    );
}

#[test]
fn status_icons() {
    let t = status_template(Some(ModbusState::Connected), None);
    assert_eq!(t.clearcore_state, "Connected");
    assert_eq!(t.welder_state, "Error");
    let t = status_template(Some(ModbusState::Connecting), Some(ModbusState::Disconnected));
    assert_eq!(t.clearcore_state, "Connecting");
    assert_eq!(t.welder_state, "Disconnected");
}

#[test]
fn connection_status_event() {
    let s = ConnectionStatus::new("welder", ModbusState::Disconnected);
    assert_eq!(s.connection, "welder");
    assert_eq!(s.state, "Disconnected");
}

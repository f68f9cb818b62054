use hm_pi::error::HmPiError;
use hm_pi::modbus::cached_modbus::{chunk_values_fit, ChunkSchedule, ChunkValues, ModbusChunk, RegisterCache, UpdateStep};
use hm_pi::modbus::{settle_connect, start_connect, LinkConfig, ModbusState};

fn schedule() -> ChunkSchedule {
    ChunkSchedule::new(vec![
        ModbusChunk::Coils { address: 0, count: 2 },
        ModbusChunk::HoldingRegisters { address: 10, count: 3 },
    ])
}

#[test]
fn successful_poll_records_values_and_moves_on() {
    let mut s = schedule();
    let mut c = RegisterCache::new();
    assert!(s.finish_poll(&mut c, Ok(ChunkValues::Bits(vec![true, false]))).is_ok());
    assert_eq!(c.read_coil(0), Some(true));
    assert_eq!(c.read_coil(1), Some(false));
    assert!(matches!(s.plan(true), UpdateStep::Poll(ModbusChunk::HoldingRegisters { address: 10, .. })));
    assert!(s.finish_poll(&mut c, Ok(ChunkValues::Words(vec![7, 8, 9]))).is_ok());
    assert_eq!(c.read_hreg(10), Some(7));
    assert_eq!(c.read_hreg(12), Some(9));
    assert_eq!(c.read_hreg(13), None);
    assert!(matches!(s.plan(true), UpdateStep::Poll(ModbusChunk::Coils { address: 0, .. })));
}

#[test]
fn failed_poll_keeps_cache_and_cursor() {
    let mut s = schedule();
    let mut c = RegisterCache::new();
    c.update_coils(0, &[false, true]);
    let r = s.finish_poll(&mut c, Err(HmPiError::NotConnected));
    assert!(matches!(r, Err(HmPiError::NotConnected)));
    assert_eq!(c.read_coil(0), Some(false));
    assert_eq!(c.read_coil(1), Some(true));
    assert!(matches!(s.plan(true), UpdateStep::Poll(ModbusChunk::Coils { address: 0, .. })));
}

#[test]
fn poll_results_must_fit_their_chunk() {
    let coils = ModbusChunk::Coils { address: 65534, count: 2 };
    assert!(chunk_values_fit(&coils, &ChunkValues::Bits(vec![true, true])));
    assert!(!chunk_values_fit(&coils, &ChunkValues::Bits(vec![true, true, true])));
    assert!(!chunk_values_fit(&coils, &ChunkValues::Words(vec![1])));
    let iregs = ModbusChunk::InputRegisters { address: 3, count: 1 };
    assert!(chunk_values_fit(&iregs, &ChunkValues::Words(vec![1])));
    assert!(!chunk_values_fit(&iregs, &ChunkValues::Bits(vec![true])));
}

#[test]
fn connect_stores_requested_settings_on_success() {
    let mut stored = LinkConfig { state: ModbusState::Disconnected, settings: "old" };
    assert!(start_connect(&mut stored).is_ok());
    assert_eq!(stored.state, ModbusState::Connecting);
    let requested = LinkConfig { state: ModbusState::Disconnected, settings: "new" };
    let (after, r) = settle_connect(stored, requested, Ok(()));
    assert!(r.is_ok());
    assert_eq!(after.state, ModbusState::Connected);
    assert_eq!(after.settings, "new");
}

#[test]
fn failed_connect_restores_stored_settings() {
    let mut stored = LinkConfig { state: ModbusState::Disconnected, settings: "old" };
    assert!(start_connect(&mut stored).is_ok());
    let requested = LinkConfig { state: ModbusState::Disconnected, settings: "new" };
    let (after, r) = settle_connect(stored, requested, Err(HmPiError::ModbusTimedOut("t".to_string())));
    assert!(matches!(r, Err(HmPiError::ModbusTimedOut(_))));
    assert_eq!(after.state, ModbusState::Disconnected);
    assert_eq!(after.settings, "old");
}

#[test]
fn connect_is_refused_while_a_link_is_up() {
    let mut stored = LinkConfig { state: ModbusState::Connected, settings: 1u8 };
    assert!(matches!(start_connect(&mut stored), Err(HmPiError::ModbusAlreadyConnected)));
    assert_eq!(stored.state, ModbusState::Connected);
    assert_eq!(stored.settings, 1);
}

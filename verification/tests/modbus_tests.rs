use hm_pi::error::{needs_disconnect, HmPiError, ModbusFault};
use hm_pi::miller::miller_register_definitions::{
    get_miller_register_metadata, miller_chunks, miller_registers, GAS_OUTPUT_ENABLED,
};
use hm_pi::modbus::cached_modbus::{
    plan_write, ChunkSchedule, ModbusChunk, RegisterCache, UpdateStep, WriteRequest,
};
use hm_pi::modbus::{
    begin_connect, dbg_helper, finish_connect, lookup_by_name, op_precheck, squash_error,
    MbDiffStub, ModbusAddressType, ModbusState, ModbusValue, RegisterAddress, RegisterMetadata,
};
use hm_pi::plc::plc_register_definitions::{
    clearcore_chunks, clearcore_registers, get_clearcore_register_metadata, FORCE_ESTOP, IN_ESTOP,
};

fn addr(t: ModbusAddressType, a: u16) -> RegisterAddress {
    RegisterAddress::new(t, a)
}

#[test]
fn cache_reads_what_was_polled() {
    let mut c = RegisterCache::new();
    assert_eq!(c.read(&addr(ModbusAddressType::HoldingRegister, 10)), None);
    c.update_hreg_chunk(10, &[7, 8, 9]);
    c.update_coils(0, &[true, false]);
    c.update_discs(5, &[true]);
    c.update_ireg_chunk(10, &[1]);
    assert_eq!(c.read(&addr(ModbusAddressType::HoldingRegister, 11)), Some(ModbusValue::U16(8)));
    assert_eq!(c.read(&addr(ModbusAddressType::InputRegister, 10)), Some(ModbusValue::U16(1)));
    assert_eq!(c.read(&addr(ModbusAddressType::Coil, 1)), Some(ModbusValue::Bool(false)));
    assert_eq!(c.read(&addr(ModbusAddressType::DiscreteInput, 5)), Some(ModbusValue::Bool(true)));
    assert_eq!(c.read_hreg(12), Some(9));
    assert_eq!(c.read_hreg(13), None);
    assert_eq!(c.read_ireg(10), Some(1));
    assert_eq!(c.read_coil(0), Some(true));
    assert_eq!(c.read_disc(6), None);
    // A later poll overwrites.
    c.update_hreg_chunk(11, &[80]);
    assert_eq!(c.read_hreg(11), Some(80));
    assert_eq!(c.read_hreg(10), Some(7));
    c.clear_cache();
    assert_eq!(c.read_hreg(10), None);
    assert_eq!(c.read_coil(0), None);
}

#[test]
fn cache_reads_32_bit_values_low_word_first() {
    let mut c = RegisterCache::new();
    c.update_hreg_chunk(100, &[0x5678, 0x1234]);
    assert_eq!(c.read_u32(&addr(ModbusAddressType::HoldingRegister, 100)), Some(0x1234_5678));
    assert_eq!(c.read_u32(&addr(ModbusAddressType::HoldingRegister, 101)), None);
    assert_eq!(c.read_u32(&addr(ModbusAddressType::InputRegister, 100)), None);
    assert_eq!(c.read_u32(&addr(ModbusAddressType::Coil, 100)), None);
}

#[test]
fn writes_go_to_writable_tables_only() {
    match plan_write(&addr(ModbusAddressType::Coil, 3), ModbusValue::Bool(true)) {
        Ok(WriteRequest::Coil(r)) => {
            assert_eq!(r.address, 3);
            assert!(r.value);
        }
        other => panic!("unexpected {:?}", other),
    }
    match plan_write(&addr(ModbusAddressType::HoldingRegister, 4), ModbusValue::U16(9)) {
        Ok(WriteRequest::Register(r)) => {
            assert_eq!(r.address, 4);
            assert_eq!(r.value, 9);
        }
        other => panic!("unexpected {:?}", other),
    }
    assert!(matches!(
        plan_write(&addr(ModbusAddressType::InputRegister, 4), ModbusValue::U16(9)),
        Err(HmPiError::LocalRegisterTriedWriteReadOnly(ModbusValue::U16(9), _))
    ));
    assert!(matches!(
        plan_write(&addr(ModbusAddressType::DiscreteInput, 4), ModbusValue::Bool(true)),
        Err(HmPiError::LocalRegisterTriedWriteReadOnly(_, _))
    ));
    assert!(matches!(
        plan_write(&addr(ModbusAddressType::Coil, 4), ModbusValue::U16(1)),
        Err(HmPiError::LocalRegisterTypeMismatch(ModbusValue::U16(1), _))
    ));
}

#[test]
fn schedule_polls_round_robin() {
    let mut s = ChunkSchedule::new(vec![
        ModbusChunk::Coils { address: 0, count: 4 },
        ModbusChunk::HoldingRegisters { address: 10, count: 2 },
    ]);
    assert!(matches!(s.plan(false), UpdateStep::ClearCacheNotConnected));
    assert!(matches!(s.plan(true), UpdateStep::Poll(ModbusChunk::Coils { address: 0, count: 4 })));
    s.advance();
    assert!(matches!(
        s.plan(true),
        UpdateStep::Poll(ModbusChunk::HoldingRegisters { address: 10, count: 2 })
    ));
    s.advance();
    assert!(matches!(s.plan(true), UpdateStep::Poll(ModbusChunk::Coils { .. })));
    let mut empty = ChunkSchedule::new(Vec::new());
    assert!(matches!(empty.plan(true), UpdateStep::Idle));
    empty.advance();
    assert!(matches!(empty.plan(true), UpdateStep::Idle));
}

#[test]
fn connection_rules() {
    assert_eq!(begin_connect(ModbusState::Disconnected).unwrap(), ModbusState::Connecting);
    assert!(matches!(begin_connect(ModbusState::Connecting), Err(HmPiError::ModbusAlreadyConnected)));
    assert!(matches!(begin_connect(ModbusState::Connected), Err(HmPiError::ModbusAlreadyConnected)));
    assert_eq!(finish_connect(true), ModbusState::Connected);
    assert_eq!(finish_connect(false), ModbusState::Disconnected);
    assert!(op_precheck(ModbusState::Connected, true).is_ok());
    assert!(matches!(op_precheck(ModbusState::Connecting, true), Err(HmPiError::NotConnected)));
    assert!(matches!(op_precheck(ModbusState::Connected, false), Err(HmPiError::ModbusInvariantBroken)));
    assert_eq!(ModbusState::default(), ModbusState::Disconnected);
    assert_eq!(ModbusState::Connecting.to_str(), "Connecting");
}

#[test]
fn device_replies_are_flattened() {
    assert_eq!(squash_error::<u16>(Ok(Ok(5))).unwrap(), 5);
    assert!(matches!(squash_error::<u16>(Ok(Err(2))), Err(HmPiError::ModbusException(2))));
    let fault = ModbusFault { is_transport: true, message: "broken pipe".to_string() };
    assert!(matches!(squash_error::<u16>(Err(fault)), Err(HmPiError::ModbusProtocolError(_))));
}

#[test]
fn dead_links_are_dropped() {
    assert!(needs_disconnect(&HmPiError::ModbusTimedOut("t".to_string())));
    assert!(needs_disconnect(&HmPiError::ModbusProtocolError(ModbusFault {
        is_transport: true,
        message: String::new()
    })));
    assert!(!needs_disconnect(&HmPiError::ModbusProtocolError(ModbusFault {
        is_transport: false,
        message: String::new()
    })));
    assert!(!needs_disconnect(&HmPiError::ModbusException(1)));
    assert!(!needs_disconnect(&HmPiError::NotConnected));
}

#[test]
fn addresses_and_values_display() {
    let a = addr(ModbusAddressType::HoldingRegister, 0x1f);
    assert_eq!(a.to_display_string(), "Holding Register: 0x1f");
    assert_eq!(addr(ModbusAddressType::Coil, 5).to_display_string(), "Coil: 0x05");
    assert_eq!(addr(ModbusAddressType::InputRegister, 0x1234).to_display_string(), "Input Register: 0x1234");
    assert_eq!(
        addr(ModbusAddressType::DiscreteInput, 7).to_debug_string(),
        "RegisterAddress { register_type: DiscreteInput, address: 7 }"
    );
    assert_eq!(ModbusValue::Bool(true).to_display_string(), "true");
    assert_eq!(ModbusValue::U16(513).to_display_string(), "513");
    assert_eq!(ModbusValue::Bool(false).as_bool(), Some(false));
    assert_eq!(ModbusValue::Bool(false).as_u16(), None);
    assert_eq!(ModbusValue::U16(3).as_u16(), Some(3));
    assert_eq!(ModbusValue::U16(3).as_bool(), None);
    assert_eq!(u8::from(ModbusAddressType::InputRegister), 4);
    assert_eq!(ModbusAddressType::DiscreteInput.display_name(), "Discrete Input");
    assert_eq!(dbg_helper(&None), "None");
    assert_eq!(dbg_helper(&Some(ModbusValue::U16(2))), "2");
    let m = RegisterMetadata::new_raw(ModbusAddressType::Coil, 2, "PUMP", "the pump");
    assert_eq!(m.to_debug_string(), "Coil: 0x02: PUMP");
    assert_eq!(RegisterMetadata::new(a, "X", "").address, a);
}

#[test]
fn diff_stubs_compare_cache_and_local_values() {
    let reg = RegisterMetadata::new_raw(ModbusAddressType::Coil, 2, "PUMP", "");
    let word = RegisterMetadata::new_raw(ModbusAddressType::HoldingRegister, 9, "AMPS", "");
    let mut c = RegisterCache::new();
    assert!(MbDiffStub::check_bool(&c, reg, true).is_none());
    c.update_coils(2, &[false]);
    c.update_hreg_chunk(9, &[120]);
    assert!(MbDiffStub::check_bool(&c, reg, false).is_none());
    let d = MbDiffStub::check_bool(&c, reg, true).expect("differs");
    assert_eq!(d.local_value(), ModbusValue::Bool(true));
    assert_eq!(d.value_in_mb(), Some(ModbusValue::Bool(false)));
    assert_eq!(
        d.to_debug_string(),
        "Register{addr: RegisterAddress { register_type: Coil, address: 2 } name: PUMP} modbus value: false, local value: true"
    );
    // A word register never differs from a bit and vice versa.
    assert!(MbDiffStub::check_word(&c, reg, 1).is_none());
    assert!(MbDiffStub::check_bool(&c, word, true).is_none());
    let w = MbDiffStub::check_word(&c, word, 100).expect("differs");
    assert_eq!(w.value_in_mb(), Some(ModbusValue::U16(120)));
    match w.write_request() {
        Ok(WriteRequest::Register(r)) => assert_eq!((r.address, r.value), (9, 100)),
        other => panic!("unexpected {:?}", other),
    }
    let fresh = MbDiffStub::new(ModbusValue::U16(1), word);
    assert_eq!(fresh.value_in_mb(), None);
    assert_eq!(fresh.register().name, "AMPS");
}

#[test]
fn register_maps() {
    let gas = get_miller_register_metadata("GAS OUTPUT ENABLED").expect("known");
    assert_eq!(gas.address, addr(ModbusAddressType::DiscreteInput, GAS_OUTPUT_ENABLED));
    assert!(get_miller_register_metadata("NO SUCH REGISTER").is_none());
    assert!(!miller_registers().is_empty());
    assert!(!miller_chunks().is_empty());
    assert_eq!(clearcore_chunks().len(), 5);
    let table = clearcore_registers();
    let estop = lookup_by_name(&table, "IN ESTOP").expect("known");
    assert_eq!(estop.address, addr(ModbusAddressType::DiscreteInput, IN_ESTOP));
    let force = get_clearcore_register_metadata("FORCE ESTOP").expect("known");
    assert_eq!(force.address, addr(ModbusAddressType::Coil, FORCE_ESTOP));
}

#[test]
fn error_messages() {
    assert_eq!(
        HmPiError::NotConnected.message(),
        "Tried to perform modbus operation when not connected."
    );
    assert_eq!(
        HmPiError::ModbusException(2).message(),
        "Modbus exception from server: Illegal data address"
    );
    assert_eq!(HmPiError::ModbusException(0x0B).message(), "Modbus exception from server: Gateway target device failed to respond");
    assert_eq!(HmPiError::ModbusException(0x42).message(), "Modbus exception from server: Custom");
    assert_eq!(
        HmPiError::ModbusTimedOut("deadline has elapsed".to_string()).message(),
        "Timed out performing modbus operation. elapsed: deadline has elapsed"
    );
    assert_eq!(
        HmPiError::LocalRegisterTriedWriteReadOnly(
            ModbusValue::U16(5),
            addr(ModbusAddressType::InputRegister, 12)
        )
        .message(),
        "Tried to write to a read-only register. value: U16(5), address: RegisterAddress { register_type: InputRegister, address: 12 })"
    );
    assert_eq!(
        HmPiError::MissingExpectedRegister(addr(ModbusAddressType::Coil, 1), "PUMP".to_string()).message(),
        "Could not find a cached register \"PUMP\" with address RegisterAddress { register_type: Coil, address: 1 }."
    );
    assert_eq!(
        HmPiError::FileIo(hm_pi::file_io::FileIoError::NotFound { path: "/x".to_string() }).message(),
        "File not found: /x"
    );
    assert_eq!(ModbusValue::Bool(true).to_debug_string(), "Bool(true)");
}

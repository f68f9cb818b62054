use hm_pi::error::HmPiError;
use hm_pi::miller::miller_register_definitions::{
    AC_EN_AMPERAGE, AC_INDEPENDANT_EN, HOT_WIRE_VOLTAGE, PRESET_MIN_AMPERAGE, TUNGSTEN_PRESET,
    USE_DC_OUTPUT,
};
use hm_pi::miller::miller_register_types::{
    map_char_helper, SerialNumber, SoftwareUpdateRevision, SubModuleSoftwareVersion, WeldProcess,
    WeldState, WelderModel,
};
use hm_pi::miller::miller_weld_profile::arc_start::TungstenPresetTagSize;
use hm_pi::miller::miller_weld_profile::sub_types::{
    AcBalance, AsModbusRegisterValue, ElectrodePolarity, NonZeroBoundedU16, PostFlowTime,
    PulseFrequency, ScaledNonZeroU16, TungstenPresetTag, WaveShape,
};
use hm_pi::miller::miller_weld_profile_old::MillerWeldProfile;
use hm_pi::modbus::cached_modbus::RegisterCache;
use hm_pi::modbus::{ModbusAddressType, RegisterAddress};
use hm_pi::machine_config::MachineConfig;

#[test]
fn models_processes_and_states() {
    assert_eq!(WelderModel::Maxstar210.display_name(), "Maxstar 210");
    assert_eq!(WelderModel::Syncrowave400.display_name(), "Syncrowave 400");
    assert_eq!(WeldProcess::from_primitive(1), WeldProcess::Tig);
    assert_eq!(WeldProcess::from_primitive(77), WeldProcess::Unknown);
    assert_eq!(WeldProcess::HotWire.to_primitive(), 4);
    assert_eq!(u16::from(WeldProcess::Unknown), 5);
    assert_eq!(WeldProcess::from(2u16), WeldProcess::Mig);
    assert_eq!(WeldState::from_primitive(13), WeldState::Error);
    assert_eq!(WeldState::from_primitive(10), WeldState::Unknown);
    assert_eq!(WeldState::PowerUp.to_primitive(), 15);
    assert_eq!(WeldState::OutputShorted.display_name(), "output shorted");
    assert_eq!(WeldProcess::Stick.display_name(), "Stick");
}

#[test]
fn designator_letters() {
    assert_eq!(map_char_helper(0), '@');
    assert_eq!(map_char_helper(1), 'A');
    assert_eq!(map_char_helper(26), 'Z');
    assert_eq!(map_char_helper(27), '?');
}

#[test]
fn software_version_fields() {
    // part 123456, revision C (3), evaluation @ (0)
    let v = SubModuleSoftwareVersion((123456 << 10) | (3 << 5));
    assert_eq!(v.get_part_number(), 123456);
    assert_eq!(v.get_raw_revision_level(), 3);
    assert_eq!(v.get_revision_level(), 'C');
    assert_eq!(v.get_raw_evaluation_revision(), 0);
    assert_eq!(v.get_evaluation_revision(), '@');
    assert_eq!(
        v.to_display_string(),
        "Part Number: 123456, Release Revision: C, Evaluation Revision: @"
    );
}

#[test]
fn software_update_revision() {
    let r = SoftwareUpdateRevision((42 << 10) | (0 << 5) | 2);
    assert_eq!(r.get_part_number(), 42);
    assert_eq!(r.get_msd(), None);
    assert_eq!(r.get_lsd(), 'B');
    assert_eq!(r.revision_str(), "B");
    assert_eq!(r.to_display_string(), "Part Number: 42, Revision: B");
    let r = SoftwareUpdateRevision((7 << 10) | (1 << 5) | 26);
    assert_eq!(r.get_msd_raw(), 1);
    assert_eq!(r.get_lsd_raw(), 26);
    assert_eq!(r.get_msd(), Some('A'));
    assert_eq!(r.revision_str(), "AZ");
}

#[test]
fn serial_numbers() {
    // decade 2 (P, skipping O), year 8 (J, skipping I), week 7, serial 42, unit 3 (D)
    let raw: u32 = (2 << 29) | (8 << 25) | (7 << 19) | (42 << 5) | 3;
    let s = SerialNumber(raw);
    assert_eq!(s.get_decade(), 'P');
    assert_eq!(s.get_year(), 'J');
    assert_eq!(s.get_week(), 7);
    assert_eq!(s.get_serialized_number(), 42);
    assert_eq!(s.get_business_unit(), 'D');
    assert_eq!(s.to_display_string(), "PJ070042D");
    assert_eq!(SerialNumber(0).to_display_string(), "MA000000A");
}

#[test]
fn bounded_words() {
    assert!(AcBalance::try_from_u16(29).is_none());
    assert_eq!(AcBalance::try_from_u16(30).unwrap().value(), 30);
    assert_eq!(AcBalance::try_from_u16(99).unwrap().value(), 99);
    assert_eq!(
        hm_pi::miller::miller_weld_profile::sub_types::PulserPeakTime::try_from_u16(95)
            .unwrap()
            .as_modbus_register_value(),
        95
    );
    assert!(AcBalance::try_from_u16(100).is_none());
    // 0 is the "off" value.
    assert_eq!(NonZeroBoundedU16::<10>::try_from_u16(0).unwrap().0, None);
    assert_eq!(NonZeroBoundedU16::<10>::zero_value().as_modbus_register_value(), 0);
    assert_eq!(ScaledNonZeroU16::<25, 100>::try_from_u16(0).unwrap().0 .0, None);
    assert_eq!(ScaledNonZeroU16::<25, 100>::zero_value().as_modbus_register_value(), 0);
    assert!(ScaledNonZeroU16::<25, 100>::try_from_u16(26).is_none());
    assert!(NonZeroBoundedU16::<10>::try_from_u16(11).is_none());
    assert_eq!(NonZeroBoundedU16::<10>::try_from_u16(10).unwrap().0, Some(10));
    assert_eq!(NonZeroBoundedU16::<10>::new_unchecked(4).as_modbus_register_value(), 4);
    assert_eq!(NonZeroBoundedU16::<10>::zero_value().0, None);
    assert_eq!(PulseFrequency::try_from_u16(50000).unwrap().as_modbus_register_value(), 50000);
    assert!(PulseFrequency::try_from_u16(50001).is_none());
    assert!(ScaledNonZeroU16::<25, 100>::from_rounded_raw(-1).is_none());
    assert_eq!(ScaledNonZeroU16::<25, 100>::from_rounded_raw(0).unwrap().0 .0, None);
    assert_eq!(ScaledNonZeroU16::<25, 100>::from_rounded_raw(25).unwrap().0 .0, Some(25));
    assert!(ScaledNonZeroU16::<25, 100>::from_rounded_raw(26).is_none());
}

#[test]
fn postflow_times() {
    assert_eq!(PostFlowTime::from_register(0), PostFlowTime::Off);
    assert_eq!(PostFlowTime::from_register(51), PostFlowTime::Auto);
    assert_eq!(PostFlowTime::from_register(12), PostFlowTime::Manual(12));
    assert_eq!(PostFlowTime::Off.as_modbus_register_value(), 0);
    assert_eq!(PostFlowTime::Auto.as_modbus_register_value(), 51);
    assert_eq!(PostFlowTime::Manual(0).as_modbus_register_value(), 1);
    assert_eq!(PostFlowTime::Manual(30).as_modbus_register_value(), 30);
    assert_eq!(PostFlowTime::Manual(200).as_modbus_register_value(), 50);
}

#[test]
fn enumerated_words() {
    assert_eq!(ElectrodePolarity::from_primitive(1), ElectrodePolarity::ElectrodePositive);
    assert_eq!(ElectrodePolarity::from_primitive(0), ElectrodePolarity::ElectrodeNegative);
    assert_eq!(ElectrodePolarity::ElectrodePositive.to_primitive(), 1);
    assert_eq!(WaveShape::try_from_u16(2), Some(WaveShape::Sine));
    assert_eq!(WaveShape::try_from_u16(4), None);
    assert_eq!(WaveShape::Triangle.to_primitive(), 3);
    assert_eq!(TungstenPresetTag::from_primitive(9), TungstenPresetTag::Disabled);
    assert_eq!(TungstenPresetTag::from_primitive(8), TungstenPresetTag::General);
    assert_eq!(TungstenPresetTag::Diameter2_4mm.to_primitive(), 3);
    assert_eq!(TungstenPresetTagSize::try_from_u16(7), Some(TungstenPresetTagSize::Diameter6_4mm));
    assert_eq!(TungstenPresetTagSize::try_from_u16(8), None);
    assert_eq!(TungstenPresetTagSize::Diameter1_0mm.to_primitive(), 1);
}

#[test]
fn machine_config_defaults() {
    let c = MachineConfig::default();
    assert_eq!(c.welder_model, WelderModel::Maxstar210);
    assert_eq!(c.udp_logging_port, 42069);
    assert!(!c.ps_ui_disable);
}

fn full_cache() -> RegisterCache {
    let mut c = RegisterCache::new();
    // Coils 4..=19 (only some are read).
    c.update_coils(4, &[true; 16]);
    // 6205..=6214
    c.update_hreg_chunk(6205, &[3, 10, 50, 5, 6, 7, 1, 1, 2, 3]);
    // 6300..=6318
    c.update_hreg_chunk(
        6300,
        &[100, 110, 75, 120, 150, 25, 40, 0, 2, 20, 3, 4, 100, 5, 10, 6, 51, 0, 12],
    );
    c
}

#[test]
fn profile_is_read_from_the_cache() {
    let p = MillerWeldProfile::pull_from_mb(&full_cache()).expect("complete profile");
    assert!(p.use_dc_output && p.ac_independent_en);
    assert_eq!(p.tungsten_preset, TungstenPresetTag::Diameter2_4mm);
    assert_eq!(p.preset_min_amperage.value(), 10);
    assert_eq!(p.arc_start_amperage.value(), 50);
    assert_eq!(p.arc_start_time.0 .0, Some(5));
    assert_eq!(p.arc_start_polarity_phase, ElectrodePolarity::ElectrodePositive);
    assert_eq!(p.ac_en_wave_shape, WaveShape::SoftSquare);
    assert_eq!(p.ac_ep_wave_shape, WaveShape::Sine);
    assert_eq!(p.ac_balance.value(), 75);
    assert_eq!(p.ac_frequency.value(), 120);
    assert_eq!(p.weld_amperage.0, 150);
    assert_eq!(p.pulser_pps.0 .0, Some(25));
    assert_eq!(p.main_time.0 .0, Some(100));
    assert_eq!(p.postflow_time, PostFlowTime::Auto);
    assert_eq!(p.hot_wire_voltage.value(), 12);
}

#[test]
fn durations_of_zero_read_as_off() {
    let mut c = full_cache();
    // Preflow (6308) and arc start time (6208) off.
    c.update_hreg_chunk(6308, &[0]);
    c.update_hreg_chunk(6208, &[0]);
    let p = MillerWeldProfile::pull_from_mb(&c).expect("off is a valid setting");
    assert_eq!(p.preflow_time.0 .0, None);
    assert_eq!(p.arc_start_time.0 .0, None);
    assert_eq!(p.preflow_time.as_modbus_register_value(), 0);
    assert_eq!(p.initial_time.0 .0, Some(3));
}

#[test]
fn profile_reports_the_first_unusable_register() {
    let empty = RegisterCache::new();
    match MillerWeldProfile::pull_from_mb(&empty) {
        Err(HmPiError::ReadUnpopulatedRegister(a)) => {
            assert_eq!(a, RegisterAddress::new(ModbusAddressType::Coil, USE_DC_OUTPUT))
        }
        other => panic!("unexpected {:?}", other),
    }
    let mut c = RegisterCache::new();
    c.update_coils(4, &[false; 16]);
    match MillerWeldProfile::pull_from_mb(&c) {
        Err(HmPiError::ReadUnpopulatedRegister(a)) => {
            assert_eq!(a, RegisterAddress::new(ModbusAddressType::HoldingRegister, TUNGSTEN_PRESET))
        }
        other => panic!("unexpected {:?}", other),
    }
    // Out of range counts as unusable.
    let mut c = full_cache();
    c.update_hreg_chunk(PRESET_MIN_AMPERAGE, &[64]);
    match MillerWeldProfile::pull_from_mb(&c) {
        Err(HmPiError::ReadUnpopulatedRegister(a)) => assert_eq!(a.address, PRESET_MIN_AMPERAGE),
        other => panic!("unexpected {:?}", other),
    }
    let mut c = full_cache();
    c.update_hreg_chunk(HOT_WIRE_VOLTAGE, &[21]);
    match MillerWeldProfile::pull_from_mb(&c) {
        Err(HmPiError::ReadUnpopulatedRegister(a)) => assert_eq!(a.address, HOT_WIRE_VOLTAGE),
        other => panic!("unexpected {:?}", other),
    }
    let _ = (AC_EN_AMPERAGE, AC_INDEPENDANT_EN);
}

//! The weld profile as the power source holds it in its registers, and its decoding from
//! the register cache.
use vstd::prelude::*;
use crate::error::HmPiError;
use crate::modbus::{ModbusAddressType, RegisterAddress};
use crate::modbus::cached_modbus::RegisterCache;
use crate::miller::miller_register_definitions::{
    USE_DC_OUTPUT, USE_EP_POLARITY, BOOST_EN, DROOP_EN, USE_LOW_OCV, PULSER_EN, USE_LOW_AC_COMMUTATION_AMP, AC_INDEPENDANT_EN, TUNGSTEN_PRESET, PRESET_MIN_AMPERAGE, ARC_START_AMPERAGE, ARC_START_TIME, ARC_START_SLOPE_TIME, ARC_START_AC_TIME, ARC_START_POLARITY_PHASE, AC_EN_WAVE_SHAPE, AC_EP_WAVE_SHAPE, HOT_START_TIME, AC_EN_AMPERAGE, AC_EP_AMPERAGE, AC_BALANCE, AC_FREQUENCY, WELD_AMPERAGE, PULSER_PPS, PULSER_PEAK_TIME, PREFLOW_TIME, INITIAL_AMPERAGE, INITIAL_TIME, INITIAL_SLOPE_TIME, MAIN_TIME, FINAL_SLOPE_TIME, FINAL_AMPERAGE, FINAL_TIME, POSTFLOW_TIME, HOT_WIRE_VOLTAGE,
};
use crate::miller::miller_weld_profile::sub_types::{
    AcAmperageProfile, AcBalance, AcFrequency, ArcStartTiming, ClampedInclusiveU16,
    ElectrodePolarity, HotStartProfile, HotWireVoltage, PostFlowTime, PulseFrequency,
    PulserPeakTime, TungstenPresetTag, WaveShape, WavePhaseDuration, MAX_ARC_START_TIMING_RAW,
    MAX_HOT_START_RAW, MAX_PULSER_RAW, off_or_word,
};

verus! {

/// Every setting of a weld, one field per coil or holding register.
#[derive(Debug, Clone, Copy, PartialEq, Eq)]
pub struct MillerWeldProfile {
    /// 0004 AC power source output DC: true (DC) / false (AC).
    pub use_dc_output: bool,
    /// 0005 AC power source DC polarity EP: true (EP) / false (EN).
    pub use_ep_polarity: bool,
    /// 0008 Boost enable.
    pub boost_en: bool,
    /// 0009 Droop enable.
    pub droop_en: bool,
    /// 0010 Open circuit voltage low enable (stick and MIG).
    pub use_low_ocv: bool,
    /// 0017 Pulser enable.
    pub pulser_en: bool,
    /// 0018 AC commutation amperage low enable (Dynasty/Maxstar 400/800 only).
    pub use_low_ac_commutation_amp: bool,
    /// 0019 AC independent enable (amperages and wave shapes).
    pub ac_independent_en: bool,
    /// 6205 Tungsten preset (canned arc start parameters).
    pub tungsten_preset: TungstenPresetTag,
    /// 6206 Preset amperage minimum, 1-63 A.
    pub preset_min_amperage: ClampedInclusiveU16<1, 63>,
    /// 6207 Arc start amperage, 5-200 A.
    pub arc_start_amperage: ClampedInclusiveU16<5, 200>,
    /// 6208 Arc start time, 10 ms units; 0 is off.
    pub arc_start_time: ArcStartTiming,
    /// 6209 Arc start slope time, 10 ms units; 0 is off.
    pub arc_start_slope_time: ArcStartTiming,
    /// 6210 Arc start AC time, 10 ms units; 0 is off.
    pub arc_start_ac_time: ArcStartTiming,
    /// 6211 Arc start polarity phase.
    pub arc_start_polarity_phase: ElectrodePolarity,
    /// 6212 AC EN wave shape.
    pub ac_en_wave_shape: WaveShape,
    /// 6213 AC EP wave shape.
    pub ac_ep_wave_shape: WaveShape,
    /// 6214 Hot start time, tenths of a second (stick only); 0 is off.
    pub hot_start_time: HotStartProfile,
    /// 6300 AC EN amperage.
    pub ac_en_amperage: AcAmperageProfile,
    /// 6301 AC EP amperage.
    pub ac_ep_amperage: AcAmperageProfile,
    /// 6302 AC balance, 30-99 %.
    pub ac_balance: AcBalance,
    /// 6303 AC frequency, 20-400 Hz.
    pub ac_frequency: AcFrequency,
    /// 6304 Weld amperage (DC or AC).
    pub weld_amperage: AcAmperageProfile,
    /// 6305 Pulser pulses per second, tenths of a hertz; 0 is off.
    pub pulser_pps: PulseFrequency,
    /// 6306 Pulser peak time, 5-95 %.
    pub pulser_peak_time: PulserPeakTime,
    /// 6308 Preflow time, tenths of a second; 0 is off.
    pub preflow_time: WavePhaseDuration<250>,
    /// 6309 Initial amperage.
    pub initial_amperage: AcAmperageProfile,
    /// 6310 Initial time, tenths of a second; 0 is off.
    pub initial_time: WavePhaseDuration<250>,
    /// 6311 Initial slope time, tenths of a second; 0 is off.
    pub initial_slope_time: WavePhaseDuration<500>,
    /// 6312 Main time, tenths of a second; 0 is off.
    pub main_time: WavePhaseDuration<9990>,
    /// 6313 Final slope time, tenths of a second; 0 is off.
    pub final_slope_time: WavePhaseDuration<500>,
    /// 6314 Final amperage.
    pub final_amperage: AcAmperageProfile,
    /// 6315 Final time, tenths of a second; 0 is off.
    pub final_time: WavePhaseDuration<250>,
    /// 6316 Postflow time: off, 1-50 s, or auto.
    pub postflow_time: PostFlowTime,
    /// 6318 Hot wire voltage, 5-20 V.
    pub hot_wire_voltage: HotWireVoltage,
}

/// The cached coil at `a`, if a poll has filled it.
pub open spec fn coil_at(c: &RegisterCache, a: u16) -> Option<bool> {
    if c.coil_map().contains_key(a) {
        Some(c.coil_map()[a])
    } else {
        None
    }
}

/// The cached holding register at `a`, if a poll has filled it.
pub open spec fn hreg_at(c: &RegisterCache, a: u16) -> Option<u16> {
    if c.hreg_map().contains_key(a) {
        Some(c.hreg_map()[a])
    } else {
        None
    }
}

pub open spec fn coil_address(a: u16) -> RegisterAddress {
    RegisterAddress { register_type: ModbusAddressType::Coil, address: a }
}

pub open spec fn hreg_address(a: u16) -> RegisterAddress {
    RegisterAddress { register_type: ModbusAddressType::HoldingRegister, address: a }
}

/// The holding register at `a` is cached and within `lo..=hi`.
pub open spec fn hreg_within(c: &RegisterCache, a: u16, lo: u16, hi: u16) -> bool {
    hreg_at(c, a) matches Some(v) && lo <= v <= hi
}

/// The first register, in the order the profile reads them, that is missing from the
/// cache or holds a value the profile cannot take.
pub open spec fn first_unreadable(c: &RegisterCache) -> Option<RegisterAddress> {
    if coil_at(c, USE_DC_OUTPUT) is None {
        Some(coil_address(USE_DC_OUTPUT))
    } else if coil_at(c, USE_EP_POLARITY) is None {
        Some(coil_address(USE_EP_POLARITY))
    } else if coil_at(c, BOOST_EN) is None {
        Some(coil_address(BOOST_EN))
    } else if coil_at(c, DROOP_EN) is None {
        Some(coil_address(DROOP_EN))
    } else if coil_at(c, USE_LOW_OCV) is None {
        Some(coil_address(USE_LOW_OCV))
    } else if coil_at(c, PULSER_EN) is None {
        Some(coil_address(PULSER_EN))
    } else if coil_at(c, USE_LOW_AC_COMMUTATION_AMP) is None {
        Some(coil_address(USE_LOW_AC_COMMUTATION_AMP))
    } else if coil_at(c, AC_INDEPENDANT_EN) is None {
        Some(coil_address(AC_INDEPENDANT_EN))
    } else if hreg_at(c, TUNGSTEN_PRESET) is None {
        Some(hreg_address(TUNGSTEN_PRESET))
    } else if !hreg_within(c, PRESET_MIN_AMPERAGE, 1, 63) {
        Some(hreg_address(PRESET_MIN_AMPERAGE))
    } else if !hreg_within(c, ARC_START_AMPERAGE, 5, 200) {
        Some(hreg_address(ARC_START_AMPERAGE))
    } else if !hreg_within(c, ARC_START_TIME, 0, MAX_ARC_START_TIMING_RAW) {
        Some(hreg_address(ARC_START_TIME))
    } else if !hreg_within(c, ARC_START_SLOPE_TIME, 0, MAX_ARC_START_TIMING_RAW) {
        Some(hreg_address(ARC_START_SLOPE_TIME))
    } else if !hreg_within(c, ARC_START_AC_TIME, 0, MAX_ARC_START_TIMING_RAW) {
        Some(hreg_address(ARC_START_AC_TIME))
    } else if hreg_at(c, ARC_START_POLARITY_PHASE) is None {
        Some(hreg_address(ARC_START_POLARITY_PHASE))
    } else if !hreg_within(c, AC_EN_WAVE_SHAPE, 0, 3) {
        Some(hreg_address(AC_EN_WAVE_SHAPE))
    } else if !hreg_within(c, AC_EP_WAVE_SHAPE, 0, 3) {
        Some(hreg_address(AC_EP_WAVE_SHAPE))
    } else if !hreg_within(c, HOT_START_TIME, 0, MAX_HOT_START_RAW) {
        Some(hreg_address(HOT_START_TIME))
    } else if hreg_at(c, AC_EN_AMPERAGE) is None {
        Some(hreg_address(AC_EN_AMPERAGE))
    } else if hreg_at(c, AC_EP_AMPERAGE) is None {
        Some(hreg_address(AC_EP_AMPERAGE))
    } else if !hreg_within(c, AC_BALANCE, 30, 99) {
        Some(hreg_address(AC_BALANCE))
    } else if !hreg_within(c, AC_FREQUENCY, 20, 400) {
        Some(hreg_address(AC_FREQUENCY))
    } else if hreg_at(c, WELD_AMPERAGE) is None {
        Some(hreg_address(WELD_AMPERAGE))
    } else if !hreg_within(c, PULSER_PPS, 0, MAX_PULSER_RAW) {
        Some(hreg_address(PULSER_PPS))
    } else if !hreg_within(c, PULSER_PEAK_TIME, 5, 95) {
        Some(hreg_address(PULSER_PEAK_TIME))
    } else if !hreg_within(c, PREFLOW_TIME, 0, 250) {
        Some(hreg_address(PREFLOW_TIME))
    } else if hreg_at(c, INITIAL_AMPERAGE) is None {
        Some(hreg_address(INITIAL_AMPERAGE))
    } else if !hreg_within(c, INITIAL_TIME, 0, 250) {
        Some(hreg_address(INITIAL_TIME))
    } else if !hreg_within(c, INITIAL_SLOPE_TIME, 0, 500) {
        Some(hreg_address(INITIAL_SLOPE_TIME))
    } else if !hreg_within(c, MAIN_TIME, 0, 9990) {
        Some(hreg_address(MAIN_TIME))
    } else if !hreg_within(c, FINAL_SLOPE_TIME, 0, 500) {
        Some(hreg_address(FINAL_SLOPE_TIME))
    } else if hreg_at(c, FINAL_AMPERAGE) is None {
        Some(hreg_address(FINAL_AMPERAGE))
    } else if !hreg_within(c, FINAL_TIME, 0, 250) {
        Some(hreg_address(FINAL_TIME))
    } else if hreg_at(c, POSTFLOW_TIME) is None {
        Some(hreg_address(POSTFLOW_TIME))
    } else if !hreg_within(c, HOT_WIRE_VOLTAGE, 5, 20) {
        Some(hreg_address(HOT_WIRE_VOLTAGE))
    } else {
        None
    }
}

/// Every field of `p` is the decoding of its register in `c`.
pub open spec fn decodes_to(c: &RegisterCache, p: MillerWeldProfile) -> bool {
    &&& Some(p.use_dc_output) == coil_at(c, USE_DC_OUTPUT)
    &&& Some(p.use_ep_polarity) == coil_at(c, USE_EP_POLARITY)
    &&& Some(p.boost_en) == coil_at(c, BOOST_EN)
    &&& Some(p.droop_en) == coil_at(c, DROOP_EN)
    &&& Some(p.use_low_ocv) == coil_at(c, USE_LOW_OCV)
    &&& Some(p.pulser_en) == coil_at(c, PULSER_EN)
    &&& Some(p.use_low_ac_commutation_amp) == coil_at(c, USE_LOW_AC_COMMUTATION_AMP)
    &&& Some(p.ac_independent_en) == coil_at(c, AC_INDEPENDANT_EN)
    &&& p.tungsten_preset == TungstenPresetTag::spec_from_u16(hreg_at(c, TUNGSTEN_PRESET)->0)
    &&& p.preset_min_amperage.spec_value() == hreg_at(c, PRESET_MIN_AMPERAGE)->0
    &&& p.arc_start_amperage.spec_value() == hreg_at(c, ARC_START_AMPERAGE)->0
    &&& p.arc_start_time.0.0 == off_or_word(hreg_at(c, ARC_START_TIME)->0)
    &&& p.arc_start_slope_time.0.0 == off_or_word(hreg_at(c, ARC_START_SLOPE_TIME)->0)
    &&& p.arc_start_ac_time.0.0 == off_or_word(hreg_at(c, ARC_START_AC_TIME)->0)
    &&& p.arc_start_polarity_phase == ElectrodePolarity::spec_from_u16(hreg_at(c, ARC_START_POLARITY_PHASE)->0)
    &&& WaveShape::spec_try_from_u16(hreg_at(c, AC_EN_WAVE_SHAPE)->0) == Some(p.ac_en_wave_shape)
    &&& WaveShape::spec_try_from_u16(hreg_at(c, AC_EP_WAVE_SHAPE)->0) == Some(p.ac_ep_wave_shape)
    &&& p.hot_start_time.0.0 == off_or_word(hreg_at(c, HOT_START_TIME)->0)
    &&& p.ac_en_amperage == AcAmperageProfile(hreg_at(c, AC_EN_AMPERAGE)->0)
    &&& p.ac_ep_amperage == AcAmperageProfile(hreg_at(c, AC_EP_AMPERAGE)->0)
    &&& p.ac_balance.spec_value() == hreg_at(c, AC_BALANCE)->0
    &&& p.ac_frequency.spec_value() == hreg_at(c, AC_FREQUENCY)->0
    &&& p.weld_amperage == AcAmperageProfile(hreg_at(c, WELD_AMPERAGE)->0)
    &&& p.pulser_pps.0.0 == off_or_word(hreg_at(c, PULSER_PPS)->0)
    &&& p.pulser_peak_time.spec_value() == hreg_at(c, PULSER_PEAK_TIME)->0
    &&& p.preflow_time.0.0 == off_or_word(hreg_at(c, PREFLOW_TIME)->0)
    &&& p.initial_amperage == AcAmperageProfile(hreg_at(c, INITIAL_AMPERAGE)->0)
    &&& p.initial_time.0.0 == off_or_word(hreg_at(c, INITIAL_TIME)->0)
    &&& p.initial_slope_time.0.0 == off_or_word(hreg_at(c, INITIAL_SLOPE_TIME)->0)
    &&& p.main_time.0.0 == off_or_word(hreg_at(c, MAIN_TIME)->0)
    &&& p.final_slope_time.0.0 == off_or_word(hreg_at(c, FINAL_SLOPE_TIME)->0)
    &&& p.final_amperage == AcAmperageProfile(hreg_at(c, FINAL_AMPERAGE)->0)
    &&& p.final_time.0.0 == off_or_word(hreg_at(c, FINAL_TIME)->0)
    &&& p.postflow_time == PostFlowTime::spec_from_register(hreg_at(c, POSTFLOW_TIME)->0)
    &&& p.hot_wire_voltage.spec_value() == hreg_at(c, HOT_WIRE_VOLTAGE)->0
}

fn read_coil_result(memory: &RegisterCache, address: u16) -> (r: Result<bool, HmPiError>)
    ensures
        match coil_at(memory, address) {
            Some(v) => r == Ok::<bool, HmPiError>(v),
            None => r == Err::<bool, HmPiError>(HmPiError::ReadUnpopulatedRegister(coil_address(address))),
        },
{
    match memory.read_coil(address) {
        Some(v) => Ok(v),
        None => Err(HmPiError::ReadUnpopulatedRegister(RegisterAddress::new(ModbusAddressType::Coil, address))),
    }
}

fn read_hreg_result(memory: &RegisterCache, address: u16) -> (r: Result<u16, HmPiError>)
    ensures
        match hreg_at(memory, address) {
            Some(v) => r == Ok::<u16, HmPiError>(v),
            None => r == Err::<u16, HmPiError>(HmPiError::ReadUnpopulatedRegister(hreg_address(address))),
        },
{
    match memory.read_hreg(address) {
        Some(v) => Ok(v),
        None => Err(
            HmPiError::ReadUnpopulatedRegister(RegisterAddress::new(ModbusAddressType::HoldingRegister, address)),
        ),
    }
}

fn unreadable_hreg(address: u16) -> (e: HmPiError)
    ensures
        e == HmPiError::ReadUnpopulatedRegister(hreg_address(address)),
{
    HmPiError::ReadUnpopulatedRegister(RegisterAddress::new(ModbusAddressType::HoldingRegister, address))
}

impl MillerWeldProfile {
    /// Reads the profile out of the cached registers. Fails on the first register (in
    /// field order) that is not cached or holds a value its field cannot take, naming
    /// that register.
    #[verifier::rlimit(80)]
    pub fn pull_from_mb(memory: &RegisterCache) -> (r: Result<Self, HmPiError>)
        ensures
            match r {
                Ok(p) => first_unreadable(memory) is None && decodes_to(memory, p),
                Err(e) => first_unreadable(memory) matches Some(a) && e == HmPiError::ReadUnpopulatedRegister(a),
            },
    {
        let use_dc_output = read_coil_result(memory, USE_DC_OUTPUT)?;
        let use_ep_polarity = read_coil_result(memory, USE_EP_POLARITY)?;
        let boost_en = read_coil_result(memory, BOOST_EN)?;
        let droop_en = read_coil_result(memory, DROOP_EN)?;
        let use_low_ocv = read_coil_result(memory, USE_LOW_OCV)?;
        let pulser_en = read_coil_result(memory, PULSER_EN)?;
        let use_low_ac_commutation_amp = read_coil_result(memory, USE_LOW_AC_COMMUTATION_AMP)?;
        let ac_independent_en = read_coil_result(memory, AC_INDEPENDANT_EN)?;
        let tungsten_preset = TungstenPresetTag::from_primitive(read_hreg_result(memory, TUNGSTEN_PRESET)?);
        let preset_min_amperage = match ClampedInclusiveU16::<1, 63>::try_from_u16(read_hreg_result(memory, PRESET_MIN_AMPERAGE)?) {
            Some(v) => v,
            None => return Err(unreadable_hreg(PRESET_MIN_AMPERAGE)),
        };
        let arc_start_amperage = match ClampedInclusiveU16::<5, 200>::try_from_u16(read_hreg_result(memory, ARC_START_AMPERAGE)?) {
            Some(v) => v,
            None => return Err(unreadable_hreg(ARC_START_AMPERAGE)),
        };
        let arc_start_time = match ArcStartTiming::try_from_u16(read_hreg_result(memory, ARC_START_TIME)?) {
            Some(v) => v,
            None => return Err(unreadable_hreg(ARC_START_TIME)),
        };
        let arc_start_slope_time = match ArcStartTiming::try_from_u16(read_hreg_result(memory, ARC_START_SLOPE_TIME)?) {
            Some(v) => v,
            None => return Err(unreadable_hreg(ARC_START_SLOPE_TIME)),
        };
        let arc_start_ac_time = match ArcStartTiming::try_from_u16(read_hreg_result(memory, ARC_START_AC_TIME)?) {
            Some(v) => v,
            None => return Err(unreadable_hreg(ARC_START_AC_TIME)),
        };
        let arc_start_polarity_phase = ElectrodePolarity::from_primitive(read_hreg_result(memory, ARC_START_POLARITY_PHASE)?);
        let ac_en_wave_shape = match WaveShape::try_from_u16(read_hreg_result(memory, AC_EN_WAVE_SHAPE)?) {
            Some(v) => v,
            None => return Err(unreadable_hreg(AC_EN_WAVE_SHAPE)),
        };
        let ac_ep_wave_shape = match WaveShape::try_from_u16(read_hreg_result(memory, AC_EP_WAVE_SHAPE)?) {
            Some(v) => v,
            None => return Err(unreadable_hreg(AC_EP_WAVE_SHAPE)),
        };
        let hot_start_time = match HotStartProfile::try_from_u16(read_hreg_result(memory, HOT_START_TIME)?) {
            Some(v) => v,
            None => return Err(unreadable_hreg(HOT_START_TIME)),
        };
        let ac_en_amperage = AcAmperageProfile(read_hreg_result(memory, AC_EN_AMPERAGE)?);
        let ac_ep_amperage = AcAmperageProfile(read_hreg_result(memory, AC_EP_AMPERAGE)?);
        let ac_balance = match AcBalance::try_from_u16(read_hreg_result(memory, AC_BALANCE)?) {
            Some(v) => v,
            None => return Err(unreadable_hreg(AC_BALANCE)),
        };
        let ac_frequency = match AcFrequency::try_from_u16(read_hreg_result(memory, AC_FREQUENCY)?) {
            Some(v) => v,
            None => return Err(unreadable_hreg(AC_FREQUENCY)),
        };
        let weld_amperage = AcAmperageProfile(read_hreg_result(memory, WELD_AMPERAGE)?);
        let pulser_pps = match PulseFrequency::try_from_u16(read_hreg_result(memory, PULSER_PPS)?) {
            Some(v) => v,
            None => return Err(unreadable_hreg(PULSER_PPS)),
        };
        let pulser_peak_time = match PulserPeakTime::try_from_u16(read_hreg_result(memory, PULSER_PEAK_TIME)?) {
            Some(v) => v,
            None => return Err(unreadable_hreg(PULSER_PEAK_TIME)),
        };
        let preflow_time = match WavePhaseDuration::<250>::try_from_u16(read_hreg_result(memory, PREFLOW_TIME)?) {
            Some(v) => v,
            None => return Err(unreadable_hreg(PREFLOW_TIME)),
        };
        let initial_amperage = AcAmperageProfile(read_hreg_result(memory, INITIAL_AMPERAGE)?);
        let initial_time = match WavePhaseDuration::<250>::try_from_u16(read_hreg_result(memory, INITIAL_TIME)?) {
            Some(v) => v,
            None => return Err(unreadable_hreg(INITIAL_TIME)),
        };
        let initial_slope_time = match WavePhaseDuration::<500>::try_from_u16(read_hreg_result(memory, INITIAL_SLOPE_TIME)?) {
            Some(v) => v,
            None => return Err(unreadable_hreg(INITIAL_SLOPE_TIME)),
        };
        let main_time = match WavePhaseDuration::<9990>::try_from_u16(read_hreg_result(memory, MAIN_TIME)?) {
            Some(v) => v,
            None => return Err(unreadable_hreg(MAIN_TIME)),
        };
        let final_slope_time = match WavePhaseDuration::<500>::try_from_u16(read_hreg_result(memory, FINAL_SLOPE_TIME)?) {
            Some(v) => v,
            None => return Err(unreadable_hreg(FINAL_SLOPE_TIME)),
        };
        let final_amperage = AcAmperageProfile(read_hreg_result(memory, FINAL_AMPERAGE)?);
        let final_time = match WavePhaseDuration::<250>::try_from_u16(read_hreg_result(memory, FINAL_TIME)?) {
            Some(v) => v,
            None => return Err(unreadable_hreg(FINAL_TIME)),
        };
        let postflow_time = PostFlowTime::from_register(read_hreg_result(memory, POSTFLOW_TIME)?);
        let hot_wire_voltage = match HotWireVoltage::try_from_u16(read_hreg_result(memory, HOT_WIRE_VOLTAGE)?) {
            Some(v) => v,
            None => return Err(unreadable_hreg(HOT_WIRE_VOLTAGE)),
        };
        Ok(Self {
            use_dc_output,
            use_ep_polarity,
            boost_en,
            droop_en,
            use_low_ocv,
            pulser_en,
            use_low_ac_commutation_amp,
            ac_independent_en,
            tungsten_preset,
            preset_min_amperage,
            arc_start_amperage,
            arc_start_time,
            arc_start_slope_time,
            arc_start_ac_time,
            arc_start_polarity_phase,
            ac_en_wave_shape,
            ac_ep_wave_shape,
            hot_start_time,
            ac_en_amperage,
            ac_ep_amperage,
            ac_balance,
            ac_frequency,
            weld_amperage,
            pulser_pps,
            pulser_peak_time,
            preflow_time,
            initial_amperage,
            initial_time,
            initial_slope_time,
            main_time,
            final_slope_time,
            final_amperage,
            final_time,
            postflow_time,
            hot_wire_voltage,
        })
    }
}

} // verus!

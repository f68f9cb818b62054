//! Value types of the weld-profile registers: bounded and scaled words and the
//! enumerations the power source encodes as register values.
use vstd::prelude::*;
use vstd::std_specs::convert::FromSpecImpl;

verus! {

/// The word behind a non-zero register value (the value must be present).
fn unwrap_opt_nz_u16(v: Option<u16>) -> (r: u16)
    requires
        v is Some,
    ensures
        r == v->0,
{
    v.unwrap()
}

/// A value that is written to the power source as one holding register.
pub trait AsModbusRegisterValue {
    /// The register word the value is written as.
    spec fn spec_register_value(&self) -> u16;

    fn as_modbus_register_value(&self) -> (r: u16)
        ensures
            r == self.spec_register_value(),
    ;
}

/// The word a register holds read as an optional non-zero word: 0 means "off".
pub open spec fn off_or_word(v: u16) -> Option<u16> {
    if v == 0 {
        None
    } else {
        Some(v)
    }
}

/// A word known to lie in `MIN..=MAX`.
#[derive(Debug, Clone, Copy, PartialEq, Eq)]
pub struct ClampedInclusiveU16<const MIN: u16, const MAX: u16>(u16);

impl<const MIN: u16, const MAX: u16> ClampedInclusiveU16<MIN, MAX> {
    #[verifier::type_invariant]
    spec fn in_range(self) -> bool {
        MIN <= self.0 <= MAX
    }

    pub closed spec fn spec_value(self) -> u16 {
        self.0
    }

    /// Accepts `val` exactly when `MIN <= val <= MAX`.
    pub fn try_from_u16(val: u16) -> (r: Option<Self>)
        ensures
            r is Some <==> MIN <= val <= MAX,
            r matches Some(c) ==> c.spec_value() == val,
    {
        if val > MAX {
            None
        } else if val < MIN {
            None
        } else {
            Some(Self(val))
        }
    }

    pub fn value(&self) -> (v: u16)
        ensures
            v == self.spec_value(),
            MIN <= v <= MAX,
    {
        proof {
            use_type_invariant(self);
        }
        self.0
    }
}

/// Hot wire voltage, 5-20 V, resolution 1 V.
pub type HotWireVoltage = ClampedInclusiveU16<5, 20>;

/// Postflow time: off, 1-50 s, or automatic.
#[derive(Debug, Clone, Copy, PartialEq, Eq)]
pub enum PostFlowTime {
    Off,
    Manual(u8),
    Auto,
}

/// Register value of `PostFlowTime::Off`.
pub const POSTFLOW_OFF_VAL: u16 = 0;
/// Least manual postflow time.
pub const POSTFLOW_MIN_MANUAL_VAL: u16 = POSTFLOW_OFF_VAL + 1;
/// Register value of `PostFlowTime::Auto`.
pub const POSTFLOW_AUTO_VAL: u16 = 51;
/// Greatest manual postflow time.
pub const POSTFLOW_MAX_MANUAL_VAL: u16 = POSTFLOW_AUTO_VAL - 1;

impl PostFlowTime {
    /// The postflow time a register word stands for: 0 is off, 51 is automatic, and any
    /// other word is a manual time (its low byte).
    pub open spec fn spec_from_register(v: u16) -> PostFlowTime {
        if v == POSTFLOW_OFF_VAL {
            PostFlowTime::Off
        } else if v == POSTFLOW_AUTO_VAL {
            PostFlowTime::Auto
        } else {
            PostFlowTime::Manual((v % 256) as u8)
        }
    }

    pub fn from_register(v: u16) -> (p: Self)
        ensures
            p == Self::spec_from_register(v),
    {
        if v == POSTFLOW_OFF_VAL {
            PostFlowTime::Off
        } else if v == POSTFLOW_AUTO_VAL {
            PostFlowTime::Auto
        } else {
            PostFlowTime::Manual((v % 256) as u8)
        }
    }
}

impl AsModbusRegisterValue for PostFlowTime {
    /// Off is 0, auto is 51, and a manual time is clamped into 1-50.
    open spec fn spec_register_value(&self) -> u16 {
        match *self {
            PostFlowTime::Off => POSTFLOW_OFF_VAL,
            PostFlowTime::Manual(v) => if v > POSTFLOW_MAX_MANUAL_VAL {
                POSTFLOW_MAX_MANUAL_VAL
            } else if v < POSTFLOW_MIN_MANUAL_VAL {
                POSTFLOW_MIN_MANUAL_VAL
            } else {
                v as u16
            },
            PostFlowTime::Auto => POSTFLOW_AUTO_VAL,
        }
    }

    fn as_modbus_register_value(&self) -> (r: u16) {
        match self {
            Self::Off => POSTFLOW_OFF_VAL,
            Self::Manual(v) => {
                let val = *v as u16;
                if val > POSTFLOW_MAX_MANUAL_VAL {
                    POSTFLOW_MAX_MANUAL_VAL
                } else if val < POSTFLOW_MIN_MANUAL_VAL {
                    POSTFLOW_MIN_MANUAL_VAL
                } else {
                    val
                }
            },
            Self::Auto => POSTFLOW_AUTO_VAL,
        }
    }
}

/// A word in `1..=MAX`, or absent for "off" (register value 0). The constructors give
/// values that meet `wf`.
#[derive(Debug, Clone, Copy, PartialEq, Eq)]
pub struct NonZeroBoundedU16<const MAX: u16>(pub Option<u16>);

impl<const MAX: u16> NonZeroBoundedU16<MAX> {
    /// A present word is neither 0 nor above `MAX`.
    pub open spec fn wf(self) -> bool {
        self.0 matches Some(v) ==> 0 < v <= MAX
    }

    /// The "off" value.
    pub fn zero_value() -> (r: Self)
        ensures
            r.0 is None,
            r.wf(),
    {
        Self(None)
    }

    /// Accepts `val` exactly when `val <= MAX`; 0 is "off".
    pub fn try_from_u16(val: u16) -> (r: Option<Self>)
        ensures
            r is Some <==> val <= MAX,
            r matches Some(c) ==> c.0 == off_or_word(val) && c.wf(),
    {
        if val == 0 {
            Some(Self::zero_value())
        } else if val > MAX {
            None
        } else {
            Some(Self(Some(val)))
        }
    }

    /// Wraps `val`, which the caller has checked to lie in `1..=MAX`.
    pub fn new_unchecked(val: u16) -> (r: Self)
        requires
            0 < val <= MAX,
        ensures
            r.0 == Some(val),
            r.wf(),
    {
        Self(Some(val))
    }
}

impl<const MAX: u16> AsModbusRegisterValue for NonZeroBoundedU16<MAX> {
    /// A present word is written as itself, "off" as 0.
    open spec fn spec_register_value(&self) -> u16 {
        match self.0 {
            Some(v) => v,
            None => 0,
        }
    }

    fn as_modbus_register_value(&self) -> (r: u16) {
        match self.0 {
            Some(_) => unwrap_opt_nz_u16(self.0),
            None => 0,
        }
    }
}

/// A `NonZeroBoundedU16` whose word counts `1 / SCALE` of a unit.
#[derive(Debug, Clone, Copy, PartialEq, Eq)]
pub struct ScaledNonZeroU16<const MAX: u16, const SCALE: u16>(pub NonZeroBoundedU16<MAX>);

impl<const MAX: u16, const SCALE: u16> ScaledNonZeroU16<MAX, SCALE> {
    /// The "off" value.
    pub fn zero_value() -> (r: Self)
        ensures
            r.0.0 is None,
            r.0.wf(),
    {
        Self(NonZeroBoundedU16::zero_value())
    }

    /// Accepts a raw word exactly when `val <= MAX`; 0 is "off".
    pub fn try_from_u16(val: u16) -> (r: Option<Self>)
        ensures
            r is Some <==> val <= MAX,
            r matches Some(c) ==> c.0.0 == off_or_word(val) && c.0.wf(),
    {
        match NonZeroBoundedU16::try_from_u16(val) {
            Some(v) => Some(Self(v)),
            None => None,
        }
    }

    /// The value for a raw word already scaled and rounded: negative and over-`MAX`
    /// words are refused, 0 is "off".
    pub fn from_rounded_raw(val: i32) -> (r: Option<Self>)
        ensures
            val < 0 ==> r is None,
            val == 0 ==> (r matches Some(c) && c.0.0 is None),
            val > MAX ==> r is None,
            0 < val <= MAX ==> (r matches Some(c) && c.0.0 == Some(val as u16)),
            r matches Some(c) ==> c.0.wf(),
    {
        if val < 0 {
            None
        } else if val == 0 {
            Some(Self::zero_value())
        } else if val > MAX as i32 {
            None
        } else {
            Some(Self(NonZeroBoundedU16::<MAX>::new_unchecked(val as u16)))
        }
    }
}

impl<const MAX: u16, const SCALE: u16> AsModbusRegisterValue for ScaledNonZeroU16<MAX, SCALE> {
    open spec fn spec_register_value(&self) -> u16 {
        self.0.spec_register_value()
    }

    fn as_modbus_register_value(&self) -> (r: u16) {
        self.0.as_modbus_register_value()
    }
}

/// A duration from 0 (off) to `MAX` tenths of a second.
pub type WavePhaseDuration<const MAX: u16> = ScaledNonZeroU16<MAX, 10>;

/// Pulser background amperage, 5-95 %, resolution 1 %.
pub type PulserBackgroundAmps = ClampedInclusiveU16<5, 95>;

/// Pulser peak time, 5-95 %, resolution 1 %.
pub type PulserPeakTime = ClampedInclusiveU16<5, 95>;

impl AsModbusRegisterValue for ClampedInclusiveU16<5, 95> {
    open spec fn spec_register_value(&self) -> u16 {
        self.spec_value()
    }

    fn as_modbus_register_value(&self) -> (r: u16) {
        self.value()
    }
}

/// Highest pulser frequency, in hertz.
pub const MAX_PULSER_FREQUENCY_HERTZ: u16 = 5000;
/// Highest pulser word (tenths of a hertz).
pub const MAX_PULSER_RAW: u16 = MAX_PULSER_FREQUENCY_HERTZ * 10;

/// Pulser pulses per second: 0 (off) to 5000 Hz in tenths of a hertz.
pub type PulseFrequency = ScaledNonZeroU16<MAX_PULSER_RAW, 10>;

/// AC frequency, 20-400 Hz, resolution 1 Hz.
pub type AcFrequency = ClampedInclusiveU16<20, 400>;

/// AC balance, 30-99 %, resolution 1 %.
pub type AcBalance = ClampedInclusiveU16<30, 99>;

/// An amperage between the preset minimum and the power source maximum, resolution 1 A.
#[derive(Debug, Clone, Copy, PartialEq, Eq)]
pub struct AcAmperageProfile(pub u16);

/// Electrode polarity.
#[derive(Copy, Clone, Debug, Eq, PartialEq)]
pub enum ElectrodePolarity {
    ElectrodeNegative,
    ElectrodePositive,
}

impl ElectrodePolarity {
    /// 1 is electrode-positive; every other word reads as electrode-negative.
    pub open spec fn spec_from_u16(v: u16) -> ElectrodePolarity {
        if v == 1 {
            ElectrodePolarity::ElectrodePositive
        } else {
            ElectrodePolarity::ElectrodeNegative
        }
    }

    pub open spec fn spec_to_u16(self) -> u16 {
        match self {
            ElectrodePolarity::ElectrodeNegative => 0,
            ElectrodePolarity::ElectrodePositive => 1,
        }
    }

    pub fn from_primitive(v: u16) -> (p: Self)
        ensures
            p == Self::spec_from_u16(v),
    {
        if v == 1 {
            ElectrodePolarity::ElectrodePositive
        } else {
            ElectrodePolarity::ElectrodeNegative
        }
    }

    pub fn to_primitive(&self) -> (v: u16)
        ensures
            v == self.spec_to_u16(),
    {
        match self {
            ElectrodePolarity::ElectrodeNegative => 0,
            ElectrodePolarity::ElectrodePositive => 1,
        }
    }
}

impl From<u16> for ElectrodePolarity {
    fn from(v: u16) -> Self {
        ElectrodePolarity::from_primitive(v)
    }
}

impl FromSpecImpl<u16> for ElectrodePolarity {
    open spec fn obeys_from_spec() -> bool {
        true
    }

    open spec fn from_spec(v: u16) -> ElectrodePolarity {
        ElectrodePolarity::spec_from_u16(v)
    }
}

/// AC wave shape: 0 advanced square, 1 soft square, 2 sine, 3 triangle.
#[derive(Copy, Clone, Debug, Eq, PartialEq)]
pub enum WaveShape {
    AdvanceSquare,
    SoftSquare,
    Sine,
    Triangle,
}

impl WaveShape {
    pub open spec fn spec_try_from_u16(v: u16) -> Option<WaveShape> {
        if v == 0 {
            Some(WaveShape::AdvanceSquare)
        } else if v == 1 {
            Some(WaveShape::SoftSquare)
        } else if v == 2 {
            Some(WaveShape::Sine)
        } else if v == 3 {
            Some(WaveShape::Triangle)
        } else {
            None
        }
    }

    pub open spec fn spec_to_u16(self) -> u16 {
        match self {
            WaveShape::AdvanceSquare => 0,
            WaveShape::SoftSquare => 1,
            WaveShape::Sine => 2,
            WaveShape::Triangle => 3,
        }
    }

    /// The shape a register word names; words above 3 name none.
    pub fn try_from_u16(v: u16) -> (r: Option<Self>)
        ensures
            r == Self::spec_try_from_u16(v),
    {
        if v == 0 {
            Some(WaveShape::AdvanceSquare)
        } else if v == 1 {
            Some(WaveShape::SoftSquare)
        } else if v == 2 {
            Some(WaveShape::Sine)
        } else if v == 3 {
            Some(WaveShape::Triangle)
        } else {
            None
        }
    }

    pub fn to_primitive(&self) -> (v: u16)
        ensures
            v == self.spec_to_u16(),
    {
        match self {
            WaveShape::AdvanceSquare => 0,
            WaveShape::SoftSquare => 1,
            WaveShape::Sine => 2,
            WaveShape::Triangle => 3,
        }
    }
}

/// Tungsten preset (canned arc start parameters): electrode diameters 0-7, 8 general
/// (user defined), 9 disabled.
#[derive(Clone, Copy, Debug, Eq, PartialEq)]
pub enum TungstenPresetTag {
    Diameter0_5mm,
    Diameter1_0mm,
    Diameter1_6mm,
    Diameter2_4mm,
    Diameter3_2mm,
    Diameter4_0mm,
    Diameter4_8mm,
    Diameter6_4mm,
    General,
    Disabled,
}

impl TungstenPresetTag {
    /// The preset a word names; words without a preset read as `General`.
    pub open spec fn spec_from_u16(v: u16) -> TungstenPresetTag {
        if v == 0 {
            TungstenPresetTag::Diameter0_5mm
        } else if v == 1 {
            TungstenPresetTag::Diameter1_0mm
        } else if v == 2 {
            TungstenPresetTag::Diameter1_6mm
        } else if v == 3 {
            TungstenPresetTag::Diameter2_4mm
        } else if v == 4 {
            TungstenPresetTag::Diameter3_2mm
        } else if v == 5 {
            TungstenPresetTag::Diameter4_0mm
        } else if v == 6 {
            TungstenPresetTag::Diameter4_8mm
        } else if v == 7 {
            TungstenPresetTag::Diameter6_4mm
        } else if v == 9 {
            TungstenPresetTag::Disabled
        } else {
            TungstenPresetTag::General
        }
    }

    pub open spec fn spec_to_u16(self) -> u16 {
        match self {
            TungstenPresetTag::Diameter0_5mm => 0,
            TungstenPresetTag::Diameter1_0mm => 1,
            TungstenPresetTag::Diameter1_6mm => 2,
            TungstenPresetTag::Diameter2_4mm => 3,
            TungstenPresetTag::Diameter3_2mm => 4,
            TungstenPresetTag::Diameter4_0mm => 5,
            TungstenPresetTag::Diameter4_8mm => 6,
            TungstenPresetTag::Diameter6_4mm => 7,
            TungstenPresetTag::General => 8,
            TungstenPresetTag::Disabled => 9,
        }
    }

    pub fn from_primitive(v: u16) -> (t: Self)
        ensures
            t == Self::spec_from_u16(v),
    {
        if v == 0 {
            TungstenPresetTag::Diameter0_5mm
        } else if v == 1 {
            TungstenPresetTag::Diameter1_0mm
        } else if v == 2 {
            TungstenPresetTag::Diameter1_6mm
        } else if v == 3 {
            TungstenPresetTag::Diameter2_4mm
        } else if v == 4 {
            TungstenPresetTag::Diameter3_2mm
        } else if v == 5 {
            TungstenPresetTag::Diameter4_0mm
        } else if v == 6 {
            TungstenPresetTag::Diameter4_8mm
        } else if v == 7 {
            TungstenPresetTag::Diameter6_4mm
        } else if v == 9 {
            TungstenPresetTag::Disabled
        } else {
            TungstenPresetTag::General
        }
    }

    pub fn to_primitive(&self) -> (v: u16)
        ensures
            v == self.spec_to_u16(),
    {
        match self {
            TungstenPresetTag::Diameter0_5mm => 0,
            TungstenPresetTag::Diameter1_0mm => 1,
            TungstenPresetTag::Diameter1_6mm => 2,
            TungstenPresetTag::Diameter2_4mm => 3,
            TungstenPresetTag::Diameter3_2mm => 4,
            TungstenPresetTag::Diameter4_0mm => 5,
            TungstenPresetTag::Diameter4_8mm => 6,
            TungstenPresetTag::Diameter6_4mm => 7,
            TungstenPresetTag::General => 8,
            TungstenPresetTag::Disabled => 9,
        }
    }
}

impl From<u16> for TungstenPresetTag {
    fn from(v: u16) -> Self {
        TungstenPresetTag::from_primitive(v)
    }
}

impl FromSpecImpl<u16> for TungstenPresetTag {
    open spec fn obeys_from_spec() -> bool {
        true
    }

    open spec fn from_spec(v: u16) -> TungstenPresetTag {
        TungstenPresetTag::spec_from_u16(v)
    }
}

/// Highest hot start word (tenths of a second).
pub const MAX_HOT_START_RAW: u16 = 20;

/// Hot start time: 0 (off) to 2.0 s in tenths of a second (stick only).
pub type HotStartProfile = ScaledNonZeroU16<MAX_HOT_START_RAW, 10>;

/// Highest arc start timing word (units of 10 ms).
pub const MAX_ARC_START_TIMING_RAW: u16 = 25;

/// Arc start time, slope time or AC time: 0 (off) to 250 ms in units of 10 ms.
pub type ArcStartTiming = ScaledNonZeroU16<MAX_ARC_START_TIMING_RAW, 100>;

/// Every word names a preset, and naming it back gives a preset's own word: the word of a
/// preset read from a register is that register's word when the word names a preset.
pub proof fn law_tungsten_preset_roundtrip(t: TungstenPresetTag, v: u16)
    ensures
        TungstenPresetTag::spec_from_u16(t.spec_to_u16()) == t,
        v <= 9 ==> TungstenPresetTag::spec_from_u16(v).spec_to_u16() == v,
{
}

/// A shape survives encoding and decoding, and a decodable word survives decoding and
/// encoding.
pub proof fn law_wave_shape_roundtrip(s: WaveShape, v: u16)
    ensures
        WaveShape::spec_try_from_u16(s.spec_to_u16()) == Some(s),
        WaveShape::spec_try_from_u16(v) matches Some(t) ==> t.spec_to_u16() == v,
{
}


/// A polarity survives encoding and decoding; of the words, 0 and 1 survive decoding and
/// encoding (every other word reads as electrode negative).
pub proof fn law_electrode_polarity_roundtrip(p: ElectrodePolarity, v: u16)
    ensures
        ElectrodePolarity::spec_from_u16(p.spec_to_u16()) == p,
        v <= 1 ==> ElectrodePolarity::spec_from_u16(v).spec_to_u16() == v,
{
}

/// A postflow setting within range survives writing and reading back, and every register
/// word up to auto survives reading and writing back.
pub proof fn law_postflow_roundtrip(p: PostFlowTime, v: u16)
    ensures
        (p matches PostFlowTime::Manual(m) ==> POSTFLOW_MIN_MANUAL_VAL <= m <= POSTFLOW_MAX_MANUAL_VAL)
            ==> PostFlowTime::spec_from_register(p.spec_register_value()) == p,
        v <= POSTFLOW_AUTO_VAL ==> PostFlowTime::spec_from_register(v).spec_register_value() == v,
{
    match p {
        PostFlowTime::Manual(m) => {
            assert((m as u16) % 256 == m);
        },
        _ => {},
    }
}

} // verus!

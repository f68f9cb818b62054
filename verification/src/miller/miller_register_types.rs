//! Enumerations and packed words the Miller power source reports.
use vstd::prelude::*;
use vstd::std_specs::convert::FromSpecImpl;
use crate::text::{decimal, decimal_padded, decimal_string, push_char, push_str, zero_pad};

verus! {

/// Supported power-source models.
#[derive(Debug, Clone, Copy, PartialEq, Eq, Structural)]
pub enum WelderModel {
    Dynasty210,
    Dynasty280,
    Dynasty400,
    Dynasty800,
    Maxstar210,
    Maxstar280,
    Maxstar400,
    Maxstar800,
    Syncrowave300,
    Syncrowave400,
}

impl WelderModel {
    pub open spec fn spec_display(self) -> Seq<char> {
        match self {
            WelderModel::Dynasty210 => "Dynasty 210"@,
            WelderModel::Dynasty280 => "Dynasty 280"@,
            WelderModel::Dynasty400 => "Dynasty 400"@,
            WelderModel::Dynasty800 => "Dynasty 800"@,
            WelderModel::Maxstar210 => "Maxstar 210"@,
            WelderModel::Maxstar280 => "Maxstar 280"@,
            WelderModel::Maxstar400 => "Maxstar 400"@,
            WelderModel::Maxstar800 => "Maxstar 800"@,
            WelderModel::Syncrowave300 => "Syncrowave 300"@,
            WelderModel::Syncrowave400 => "Syncrowave 400"@,
        }
    }

    /// The model's name as printed on the machine.
    pub fn display_name(&self) -> (s: &'static str)
        ensures
            s@ == self.spec_display(),
    {
        match self {
            WelderModel::Dynasty210 => "Dynasty 210",
            WelderModel::Dynasty280 => "Dynasty 280",
            WelderModel::Dynasty400 => "Dynasty 400",
            WelderModel::Dynasty800 => "Dynasty 800",
            WelderModel::Maxstar210 => "Maxstar 210",
            WelderModel::Maxstar280 => "Maxstar 280",
            WelderModel::Maxstar400 => "Maxstar 400",
            WelderModel::Maxstar800 => "Maxstar 800",
            WelderModel::Syncrowave300 => "Syncrowave 300",
            WelderModel::Syncrowave400 => "Syncrowave 400",
        }
    }
}

/// Weld process selected on the power source (holding register 6201).
#[derive(Debug, Clone, Copy, PartialEq, Eq, Structural)]
pub enum WeldProcess {
    Stick,
    Tig,
    Mig,
    Test,
    HotWire,
    Unknown,
}

impl WeldProcess {
    /// Register value to process; values without a process read as `Unknown`.
    pub open spec fn spec_from_u16(v: u16) -> WeldProcess {
        if v == 0 {
            WeldProcess::Stick
        } else if v == 1 {
            WeldProcess::Tig
        } else if v == 2 {
            WeldProcess::Mig
        } else if v == 3 {
            WeldProcess::Test
        } else if v == 4 {
            WeldProcess::HotWire
        } else {
            WeldProcess::Unknown
        }
    }

    pub open spec fn spec_to_u16(self) -> u16 {
        match self {
            WeldProcess::Stick => 0,
            WeldProcess::Tig => 1,
            WeldProcess::Mig => 2,
            WeldProcess::Test => 3,
            WeldProcess::HotWire => 4,
            WeldProcess::Unknown => 5,
        }
    }

    pub fn from_primitive(v: u16) -> (p: Self)
        ensures
            p == Self::spec_from_u16(v),
    {
        if v == 0 {
            WeldProcess::Stick
        } else if v == 1 {
            WeldProcess::Tig
        } else if v == 2 {
            WeldProcess::Mig
        } else if v == 3 {
            WeldProcess::Test
        } else if v == 4 {
            WeldProcess::HotWire
        } else {
            WeldProcess::Unknown
        }
    }

    pub fn to_primitive(&self) -> (v: u16)
        ensures
            v == self.spec_to_u16(),
    {
        match self {
            WeldProcess::Stick => 0,
            WeldProcess::Tig => 1,
            WeldProcess::Mig => 2,
            WeldProcess::Test => 3,
            WeldProcess::HotWire => 4,
            WeldProcess::Unknown => 5,
        }
    }

    pub open spec fn spec_display(self) -> Seq<char> {
        match self {
            WeldProcess::Stick => "Stick"@,
            WeldProcess::Tig => "TIG"@,
            WeldProcess::Mig => "MIG"@,
            WeldProcess::Test => "Test"@,
            WeldProcess::HotWire => "Hot wire"@,
            WeldProcess::Unknown => "Unknown"@,
        }
    }

    pub fn display_name(&self) -> (s: &'static str)
        ensures
            s@ == self.spec_display(),
    {
        match self {
            WeldProcess::Stick => "Stick",
            WeldProcess::Tig => "TIG",
            WeldProcess::Mig => "MIG",
            WeldProcess::Test => "Test",
            WeldProcess::HotWire => "Hot wire",
            WeldProcess::Unknown => "Unknown",
        }
    }
}

impl From<u16> for WeldProcess {
    fn from(v: u16) -> Self {
        WeldProcess::from_primitive(v)
    }
}

impl FromSpecImpl<u16> for WeldProcess {
    open spec fn obeys_from_spec() -> bool {
        true
    }

    open spec fn from_spec(v: u16) -> WeldProcess {
        WeldProcess::spec_from_u16(v)
    }
}

impl From<WeldProcess> for u16 {
    fn from(p: WeldProcess) -> Self {
        p.to_primitive()
    }
}

impl FromSpecImpl<WeldProcess> for u16 {
    open spec fn obeys_from_spec() -> bool {
        true
    }

    open spec fn from_spec(p: WeldProcess) -> u16 {
        p.spec_to_u16()
    }
}

/// Phase of the weld sequence (input register 4100).
#[derive(Debug, Clone, Copy, PartialEq, Eq, Structural)]
pub enum WeldState {
    InitialAmperage,
    InitialSlopeTime,
    MainAmperage,
    FinalSlopeTime,
    FinalAmperage,
    Preflow,
    Standby,
    OutputShorted,
    ReleaseTrigger,
    OutputDisabled,
    Error,
    PowerDown,
    PowerUp,
    Unknown,
}

impl WeldState {
    /// Register value to state; values without a state read as `Unknown`.
    pub open spec fn spec_from_u16(v: u16) -> WeldState {
        if v == 0 {
            WeldState::InitialAmperage
        } else if v == 1 {
            WeldState::InitialSlopeTime
        } else if v == 2 {
            WeldState::MainAmperage
        } else if v == 3 {
            WeldState::FinalSlopeTime
        } else if v == 4 {
            WeldState::FinalAmperage
        } else if v == 5 {
            WeldState::Preflow
        } else if v == 6 {
            WeldState::Standby
        } else if v == 7 {
            WeldState::OutputShorted
        } else if v == 8 {
            WeldState::ReleaseTrigger
        } else if v == 9 {
            WeldState::OutputDisabled
        } else if v == 13 {
            WeldState::Error
        } else if v == 14 {
            WeldState::PowerDown
        } else if v == 15 {
            WeldState::PowerUp
        } else {
            WeldState::Unknown
        }
    }

    pub open spec fn spec_to_u16(self) -> u16 {
        match self {
            WeldState::InitialAmperage => 0,
            WeldState::InitialSlopeTime => 1,
            WeldState::MainAmperage => 2,
            WeldState::FinalSlopeTime => 3,
            WeldState::FinalAmperage => 4,
            WeldState::Preflow => 5,
            WeldState::Standby => 6,
            WeldState::OutputShorted => 7,
            WeldState::ReleaseTrigger => 8,
            WeldState::OutputDisabled => 9,
            WeldState::Error => 13,
            WeldState::PowerDown => 14,
            WeldState::PowerUp => 15,
            WeldState::Unknown => 16,
        }
    }

    pub fn from_primitive(v: u16) -> (s: Self)
        ensures
            s == Self::spec_from_u16(v),
    {
        if v == 0 {
            WeldState::InitialAmperage
        } else if v == 1 {
            WeldState::InitialSlopeTime
        } else if v == 2 {
            WeldState::MainAmperage
        } else if v == 3 {
            WeldState::FinalSlopeTime
        } else if v == 4 {
            WeldState::FinalAmperage
        } else if v == 5 {
            WeldState::Preflow
        } else if v == 6 {
            WeldState::Standby
        } else if v == 7 {
            WeldState::OutputShorted
        } else if v == 8 {
            WeldState::ReleaseTrigger
        } else if v == 9 {
            WeldState::OutputDisabled
        } else if v == 13 {
            WeldState::Error
        } else if v == 14 {
            WeldState::PowerDown
        } else if v == 15 {
            WeldState::PowerUp
        } else {
            WeldState::Unknown
        }
    }

    pub fn to_primitive(&self) -> (v: u16)
        ensures
            v == self.spec_to_u16(),
    {
        match self {
            WeldState::InitialAmperage => 0,
            WeldState::InitialSlopeTime => 1,
            WeldState::MainAmperage => 2,
            WeldState::FinalSlopeTime => 3,
            WeldState::FinalAmperage => 4,
            WeldState::Preflow => 5,
            WeldState::Standby => 6,
            WeldState::OutputShorted => 7,
            WeldState::ReleaseTrigger => 8,
            WeldState::OutputDisabled => 9,
            WeldState::Error => 13,
            WeldState::PowerDown => 14,
            WeldState::PowerUp => 15,
            WeldState::Unknown => 16,
        }
    }

    pub open spec fn spec_display(self) -> Seq<char> {
        match self {
            WeldState::InitialAmperage => "initial amperage"@,
            WeldState::InitialSlopeTime => "initial slope time"@,
            WeldState::MainAmperage => "main amperage"@,
            WeldState::FinalSlopeTime => "final slope time"@,
            WeldState::FinalAmperage => "final amperage"@,
            WeldState::Preflow => "pre-flow"@,
            WeldState::Standby => "standby"@,
            WeldState::OutputShorted => "output shorted"@,
            WeldState::ReleaseTrigger => "release trigger"@,
            WeldState::OutputDisabled => "output disabled"@,
            WeldState::Error => "error"@,
            WeldState::PowerDown => "power down"@,
            WeldState::PowerUp => "power up"@,
            WeldState::Unknown => "unknown"@,
        }
    }

    pub fn display_name(&self) -> (s: &'static str)
        ensures
            s@ == self.spec_display(),
    {
        match self {
            WeldState::InitialAmperage => "initial amperage",
            WeldState::InitialSlopeTime => "initial slope time",
            WeldState::MainAmperage => "main amperage",
            WeldState::FinalSlopeTime => "final slope time",
            WeldState::FinalAmperage => "final amperage",
            WeldState::Preflow => "pre-flow",
            WeldState::Standby => "standby",
            WeldState::OutputShorted => "output shorted",
            WeldState::ReleaseTrigger => "release trigger",
            WeldState::OutputDisabled => "output disabled",
            WeldState::Error => "error",
            WeldState::PowerDown => "power down",
            WeldState::PowerUp => "power up",
            WeldState::Unknown => "unknown",
        }
    }
}

impl From<u16> for WeldState {
    fn from(v: u16) -> Self {
        WeldState::from_primitive(v)
    }
}

impl FromSpecImpl<u16> for WeldState {
    open spec fn obeys_from_spec() -> bool {
        true
    }

    open spec fn from_spec(v: u16) -> WeldState {
        WeldState::spec_from_u16(v)
    }
}

impl From<WeldState> for u16 {
    fn from(s: WeldState) -> Self {
        s.to_primitive()
    }
}

impl FromSpecImpl<WeldState> for u16 {
    open spec fn obeys_from_spec() -> bool {
        true
    }

    open spec fn from_spec(s: WeldState) -> u16 {
        s.spec_to_u16()
    }
}

/// A 5-bit revision designator as a letter: 0 is `@`, 1 to 26 are `A` to `Z`,
/// anything else is `?`.
pub open spec fn designator_char(val: u32) -> char {
    if val == 0 {
        '@'
    } else if val <= 26 {
        (64 + val) as char
    } else {
        '?'
    }
}

/// Maps a raw 5-bit value to its designator letter.
pub fn map_char_helper(val: u32) -> (c: char)
    ensures
        c == designator_char(val),
{
    if val == 0 {
        '@'
    } else if val <= 26 {
        ((64 + val) as u8) as char
    } else {
        '?'
    }
}

/// Application software number and revision, bit-mapped as
/// `NNNN,NNNN NNNN,NNNN NNNN,NNRR RRRE,EEEE`: a 22-bit Miller part number (bits 31-10),
/// a 5-bit revision level (bits 9-5, 0 is `@` for preproduction or field test, then `A`,
/// `B`, ...) and a 5-bit evaluation revision (bits 4-0, 0 is `@` for released software).
pub struct SubModuleSoftwareVersion(pub u32);

impl SubModuleSoftwareVersion {
    /// Bits 31-10.
    pub fn get_part_number(&self) -> (r: u32)
        ensures
            r == self.0 / 1024,
    {
        let x = self.0;
        let bit: u32 = 1u32 << 22u32;
        assert(bit == 0x40_0000) by (bit_vector)
            requires
                bit == 1u32 << 22u32,
        ;
        assert((x >> 10u32) & 0x3fffffu32 == x / 1024) by (bit_vector);
        (x >> 10) & (bit - 1)
    }

    /// Bits 9-5.
    pub fn get_raw_revision_level(&self) -> (r: u32)
        ensures
            r == (self.0 / 32) % 32,
    {
        let x = self.0;
        assert((x >> 5u32) & 31u32 == (x / 32) % 32) by (bit_vector);
        (x >> 5) & 0b11111
    }

    pub fn get_revision_level(&self) -> (c: char)
        ensures
            c == designator_char((self.0 / 32) % 32),
    {
        map_char_helper(self.get_raw_revision_level())
    }

    /// Bits 4-0.
    pub fn get_raw_evaluation_revision(&self) -> (r: u32)
        ensures
            r == self.0 % 32,
    {
        let x = self.0;
        assert(x & 31u32 == x % 32) by (bit_vector);
        x & 0b11111
    }

    pub fn get_evaluation_revision(&self) -> (c: char)
        ensures
            c == designator_char(self.0 % 32),
    {
        map_char_helper(self.get_raw_evaluation_revision())
    }

    pub open spec fn spec_display(&self) -> Seq<char> {
        "Part Number: "@ + decimal((self.0 / 1024) as nat) + ", Release Revision: "@ + seq![
            designator_char((self.0 / 32) % 32),
        ] + ", Evaluation Revision: "@ + seq![designator_char(self.0 % 32)]
    }

    /// `Part Number: <n>, Release Revision: <c>, Evaluation Revision: <c>`.
    pub fn to_display_string(&self) -> (s: String)
        ensures
            s@ == self.spec_display(),
    {
        let mut s = String::from_str("Part Number: ");
        let n = decimal_string(self.get_part_number());
        push_str(&mut s, n.as_str());
        push_str(&mut s, ", Release Revision: ");
        push_char(&mut s, self.get_revision_level());
        push_str(&mut s, ", Evaluation Revision: ");
        push_char(&mut s, self.get_evaluation_revision());
        s
    }
}

/// Software update number and revision, bit-mapped as
/// `NNNN,NNNN NNNN,NNNN NNNN,NNMM MMML,LLLL`: a 22-bit Miller part number (bits 31-10),
/// the revision's most significant designator (bits 9-5, 0 is omitted when shown) and its
/// least significant designator (bits 4-0).
pub struct SoftwareUpdateRevision(pub u32);

impl SoftwareUpdateRevision {
    /// Bits 31-10.
    pub fn get_part_number(&self) -> (r: u32)
        ensures
            r == self.0 / 1024,
    {
        let x = self.0;
        let bit: u32 = 1u32 << 22u32;
        assert(bit == 0x40_0000) by (bit_vector)
            requires
                bit == 1u32 << 22u32,
        ;
        assert((x >> 10u32) & 0x3fffffu32 == x / 1024) by (bit_vector);
        (x >> 10) & (bit - 1)
    }

    /// Bits 9-5.
    pub fn get_msd_raw(&self) -> (r: u32)
        ensures
            r == (self.0 / 32) % 32,
    {
        let x = self.0;
        assert((x >> 5u32) & 31u32 == (x / 32) % 32) by (bit_vector);
        (x >> 5) & 0b11111
    }

    /// Bits 4-0.
    pub fn get_lsd_raw(&self) -> (r: u32)
        ensures
            r == self.0 % 32,
    {
        let x = self.0;
        assert(x & 31u32 == x % 32) by (bit_vector);
        x & 0b11111
    }

    pub open spec fn spec_msd(&self) -> Option<char> {
        if (self.0 / 32) % 32 == 0 {
            None
        } else {
            Some(designator_char((self.0 / 32) % 32))
        }
    }

    /// The most significant designator, absent when it is 0.
    pub fn get_msd(&self) -> (r: Option<char>)
        ensures
            r == self.spec_msd(),
    {
        let val = self.get_msd_raw();
        if val == 0 {
            None
        } else {
            Some(map_char_helper(val))
        }
    }

    pub fn get_lsd(&self) -> (c: char)
        ensures
            c == designator_char(self.0 % 32),
    {
        map_char_helper(self.get_lsd_raw())
    }

    pub open spec fn spec_revision(&self) -> Seq<char> {
        match self.spec_msd() {
            Some(m) => seq![m, designator_char(self.0 % 32)],
            None => seq![designator_char(self.0 % 32)],
        }
    }

    /// The revision as shown: the two designators, or only the least significant one when
    /// the most significant one is 0.
    pub fn revision_str(&self) -> (s: String)
        ensures
            s@ == self.spec_revision(),
    {
        let mut s = String::new();
        match self.get_msd() {
            Some(msd) => {
                push_char(&mut s, msd);
                push_char(&mut s, self.get_lsd());
            },
            None => {
                push_char(&mut s, self.get_lsd());
            },
        }
        proof {
            assert(s@ =~= self.spec_revision());
        }
        s
    }

    pub open spec fn spec_display(&self) -> Seq<char> {
        "Part Number: "@ + decimal((self.0 / 1024) as nat) + ", Revision: "@ + self.spec_revision()
    }

    /// `Part Number: <n>, Revision: <rev>`.
    pub fn to_display_string(&self) -> (s: String)
        ensures
            s@ == self.spec_display(),
    {
        let mut s = String::from_str("Part Number: ");
        let n = decimal_string(self.get_part_number());
        push_str(&mut s, n.as_str());
        push_str(&mut s, ", Revision: ");
        let r = self.revision_str();
        push_str(&mut s, r.as_str());
        s
    }
}

/// Serial number, bit-mapped as `DDDY,YYYW WWWW,WSSS SSSS,SSSS SSSB,BBBB`: decade code
/// (bits 31-29, letters `M` to `U` without `O`), year code (bits 28-25, letters from `A`
/// without `I`), week (bits 24-19), serialized number (bits 18-5) and business unit
/// (bits 4-0, letters from `A`).
pub struct SerialNumber(pub u32);

/// The decade letter for a 3-bit decade code.
pub open spec fn decade_char(val: u32) -> char {
    (77 + val + (if val >= 2 { 1u32 } else { 0u32 })) as char
}

/// The year letter for a 4-bit year code.
pub open spec fn year_char(val: u32) -> char {
    (65 + val + (if val >= 8 { 1u32 } else { 0u32 })) as char
}

impl SerialNumber {
    pub fn get_decade(&self) -> (c: char)
        ensures
            c == decade_char(self.0 / 0x2000_0000),
    {
        let x = self.0;
        let val = (x >> 29) & 0b111;
        assert((x >> 29u32) & 7u32 == x / 0x2000_0000) by (bit_vector);
        let offset: u32 = if val >= 2 {
            1
        } else {
            0
        };
        ((77 + val + offset) as u8) as char
    }

    pub fn get_year(&self) -> (c: char)
        ensures
            c == year_char((self.0 / 0x200_0000) % 16),
    {
        let x = self.0;
        let val = (x >> 25) & 0b1111;
        assert((x >> 25u32) & 15u32 == (x / 0x200_0000) % 16) by (bit_vector);
        let offset: u32 = if val >= 8 {
            1
        } else {
            0
        };
        ((65 + val + offset) as u8) as char
    }

    /// Bits 24-19.
    pub fn get_week(&self) -> (r: u32)
        ensures
            r == (self.0 / 0x8_0000) % 64,
    {
        let x = self.0;
        assert((x >> 19u32) & 63u32 == (x / 0x8_0000) % 64) by (bit_vector);
        (x >> 19) & 0b111111
    }

    /// Bits 18-5.
    pub fn get_serialized_number(&self) -> (r: u32)
        ensures
            r == (self.0 / 32) % 0x4000,
    {
        let x = self.0;
        assert((x >> 5u32) & 0x3fffu32 == (x / 32) % 0x4000) by (bit_vector);
        (x >> 5) & 0b11_1111_1111_1111
    }

    /// Bits 4-0 as a letter counted from `A`.
    pub fn get_business_unit(&self) -> (c: char)
        ensures
            c == (65 + self.0 % 32) as char,
    {
        let x = self.0;
        let val = x & 0b11111;
        assert(x & 31u32 == x % 32) by (bit_vector);
        ((65 + val) as u8) as char
    }

    pub open spec fn spec_display(&self) -> Seq<char> {
        seq![decade_char(self.0 / 0x2000_0000), year_char((self.0 / 0x200_0000) % 16)]
            + zero_pad(decimal(((self.0 / 0x8_0000) % 64) as nat), 2) + zero_pad(
            decimal(((self.0 / 32) % 0x4000) as nat),
            4,
        ) + seq![(65 + self.0 % 32) as char]
    }

    /// Decade, year, two-digit week, four-digit serial and business unit, run together.
    pub fn to_display_string(&self) -> (s: String)
        ensures
            s@ == self.spec_display(),
    {
        let mut s = String::new();
        push_char(&mut s, self.get_decade());
        push_char(&mut s, self.get_year());
        let w = decimal_padded(self.get_week(), 2);
        push_str(&mut s, w.as_str());
        let n = decimal_padded(self.get_serialized_number(), 4);
        push_str(&mut s, n.as_str());
        push_char(&mut s, self.get_business_unit());
        proof {
            assert(s@ =~= self.spec_display());
        }
        s
    }
}

/// The three fields of a software version word put back together give the word.
pub proof fn law_software_version_fields_recompose(x: u32)
    ensures
        (x / 1024) * 1024 + ((x / 32) % 32) * 32 + x % 32 == x,
{
    assert((x / 1024) * 1024 + ((x / 32) % 32) * 32 + x % 32 == x) by (bit_vector);
}

/// The five fields of a serial number put back together give the word.
pub proof fn law_serial_number_fields_recompose(x: u32)
    ensures
        (x / 0x2000_0000) * 0x2000_0000 + ((x / 0x200_0000) % 16) * 0x200_0000 + ((x / 0x8_0000)
            % 64) * 0x8_0000 + ((x / 32) % 0x4000) * 32 + x % 32 == x,
{
    assert((x / 0x2000_0000) * 0x2000_0000 + ((x / 0x200_0000) % 16) * 0x200_0000 + ((x
        / 0x8_0000) % 64) * 0x8_0000 + ((x / 32) % 0x4000) * 32 + x % 32 == x) by (bit_vector);
}


/// Every known process survives a trip through its register value, and every register
/// value of a known process survives a trip through the process.
pub proof fn law_weld_process_roundtrip(p: WeldProcess, v: u16)
    ensures
        p != WeldProcess::Unknown ==> WeldProcess::spec_from_u16(p.spec_to_u16()) == p,
        WeldProcess::spec_from_u16(v) != WeldProcess::Unknown ==> WeldProcess::spec_from_u16(
            v,
        ).spec_to_u16() == v,
{
}

/// Every known weld state survives a trip through its register value, and every
/// register value of a known state survives a trip through the state.
pub proof fn law_weld_state_roundtrip(s: WeldState, v: u16)
    ensures
        s != WeldState::Unknown ==> WeldState::spec_from_u16(s.spec_to_u16()) == s,
        WeldState::spec_from_u16(v) != WeldState::Unknown ==> WeldState::spec_from_u16(
            v,
        ).spec_to_u16() == v,
{
}

} // verus!

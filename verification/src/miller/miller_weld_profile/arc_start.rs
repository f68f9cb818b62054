//! How an arc is started: from a tungsten preset, by hand, or without arc start control.
use vstd::prelude::*;

verus! {

pub enum ArcStartProfile {
    TungstenPreset(TungstenPresetTagSize),
    Manual(ManualArcStartProfile),
    Disabled(ArcStartAmperageProfile),
}

/// Tungsten electrode diameters with canned arc start parameters.
#[derive(Debug, Eq, PartialEq)]
pub enum TungstenPresetTagSize {
    Diameter0_5mm,
    Diameter1_0mm,
    Diameter1_6mm,
    Diameter2_4mm,
    Diameter3_2mm,
    Diameter4_0mm,
    Diameter4_8mm,
    Diameter6_4mm,
}

impl TungstenPresetTagSize {
    pub open spec fn spec_try_from_u16(v: u16) -> Option<TungstenPresetTagSize> {
        if v == 0 {
            Some(TungstenPresetTagSize::Diameter0_5mm)
        } else if v == 1 {
            Some(TungstenPresetTagSize::Diameter1_0mm)
        } else if v == 2 {
            Some(TungstenPresetTagSize::Diameter1_6mm)
        } else if v == 3 {
            Some(TungstenPresetTagSize::Diameter2_4mm)
        } else if v == 4 {
            Some(TungstenPresetTagSize::Diameter3_2mm)
        } else if v == 5 {
            Some(TungstenPresetTagSize::Diameter4_0mm)
        } else if v == 6 {
            Some(TungstenPresetTagSize::Diameter4_8mm)
        } else if v == 7 {
            Some(TungstenPresetTagSize::Diameter6_4mm)
        } else {
            None
        }
    }

    /// The diameter a word names; words above 7 name none.
    pub fn try_from_u16(v: u16) -> (r: Option<Self>)
        ensures
            r == Self::spec_try_from_u16(v),
    {
        if v == 0 {
            Some(TungstenPresetTagSize::Diameter0_5mm)
        } else if v == 1 {
            Some(TungstenPresetTagSize::Diameter1_0mm)
        } else if v == 2 {
            Some(TungstenPresetTagSize::Diameter1_6mm)
        } else if v == 3 {
            Some(TungstenPresetTagSize::Diameter2_4mm)
        } else if v == 4 {
            Some(TungstenPresetTagSize::Diameter3_2mm)
        } else if v == 5 {
            Some(TungstenPresetTagSize::Diameter4_0mm)
        } else if v == 6 {
            Some(TungstenPresetTagSize::Diameter4_8mm)
        } else if v == 7 {
            Some(TungstenPresetTagSize::Diameter6_4mm)
        } else {
            None
        }
    }

    pub fn to_primitive(&self) -> (v: u16)
        ensures
            Self::spec_try_from_u16(v) == Some(*self),
    {
        match self {
            TungstenPresetTagSize::Diameter0_5mm => 0,
            TungstenPresetTagSize::Diameter1_0mm => 1,
            TungstenPresetTagSize::Diameter1_6mm => 2,
            TungstenPresetTagSize::Diameter2_4mm => 3,
            TungstenPresetTagSize::Diameter3_2mm => 4,
            TungstenPresetTagSize::Diameter4_0mm => 5,
            TungstenPresetTagSize::Diameter4_8mm => 6,
            TungstenPresetTagSize::Diameter6_4mm => 7,
        }
    }
}

/// Arc start set by hand (tungsten general): amperages, timings in 10 ms units, and the
/// polarity phase.
pub struct ManualArcStartProfile {
    pub amperage_profile: ArcStartAmperageProfile,
    pub arc_start_time: u16,
    pub arc_start_slope_time: u16,
    pub arc_start_ac_time: u16,
    pub arc_start_polarity_phase_use_ep: bool,
}

/// Preset minimum amperage and arc start amperage.
pub struct ArcStartAmperageProfile {
    pub min_amperage: u16,
    pub arc_start_amperage: u16,
}

} // verus!

//! The Miller welding power source: register map, register codecs and weld profiles.
pub mod miller_register_definitions;
pub mod miller_register_types;
pub mod miller_stats;
pub mod miller_weld_profile;
pub mod miller_weld_profile_old;

//! The ClearCore motion controller.
pub mod plc_register_definitions;

//! Verified core of the welding-cell HMI: register maps and codecs for the Miller power
//! source and the ClearCore PLC, the local register cache and its poll schedule, the
//! connection rules of a Modbus link, the weld-profile decoder, the UDP log frame parser,
//! file-name rules and store listings, data paths and USB mounts, logins, and the
//! decisions behind the background tasks and the web views.

pub mod text;
pub mod logging;
pub mod file_io;
pub mod error;
pub mod modbus;
pub mod miller;
pub mod plc;
pub mod udp_log_listener;
pub mod sse;
pub mod hmi_logic;
pub mod connection_management;
pub mod estop_component;
pub mod auth;
pub mod paths;
pub mod modbus_http;
pub mod machine_config;
pub mod hx_trigger;

pub use logging::LogTarget;

//! The HMI's background behaviour: the gas bridge between welder and PLC, the register
//! watcher and what it does when a watched register changes.
pub mod gas_bridge;
pub mod mb_watcher;
pub mod watched_registers;

//! The xHCI USB host controller driver.
pub mod trb;
pub mod contexts;
pub mod operational;
pub mod doorbell;
pub mod capability;
pub mod port_registers;
pub mod interrupter;
pub mod device_context;
pub mod scratchpad;
pub mod dcbaa;
pub mod extended;
pub mod tasks;
pub mod controller;

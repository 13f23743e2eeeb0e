//! The system-configuration block of the LPC82x.

pub mod peripherals;
pub mod syscon;

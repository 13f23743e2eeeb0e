//! The system-configuration block of the LPC845.

pub mod clocksource;
pub mod peripherals;
pub mod syscon;

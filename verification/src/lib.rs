//! Verified control of the system-configuration block of LPC8xx
//! microcontrollers: clock gating, peripheral reset, analog power and
//! wake-up enables, mediated by a single handle and unforgeable tokens.

pub mod bits;
pub mod clock;
pub mod init_state;
pub mod register;
pub mod syscon;
pub mod lpc82x;
pub mod lpc845;
pub mod laws;

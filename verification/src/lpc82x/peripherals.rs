//! The peripherals of the LPC82x, as far as the system-configuration block
//! controls them, and the bits that belong to each.
//!
//! A marker stands for the peripheral itself. Whoever holds it may gate the
//! clock of that peripheral, reset it or power it, as far as the peripheral
//! has the capability.

use vstd::prelude::*;
use crate::syscon::{AnalogBlock, ClockControl, ResetControl};

verus! {

/// Flash controller.
#[allow(non_camel_case_types)]
pub struct FLASH_CTRL(());

/// I2C0.
pub struct I2C0(());

/// General-purpose I/O.
pub struct GPIO(());

/// Switch matrix.
pub struct SWM0(());

/// State-configurable timer.
pub struct SCT0(());

/// Self-wake-up timer.
pub struct WKT(());

/// Multi-rate timer.
pub struct MRT0(());

/// SPI0.
pub struct SPI0(());

/// SPI1.
pub struct SPI1(());

/// CRC engine.
pub struct CRC(());

/// USART0.
pub struct USART0(());

/// USART1.
pub struct USART1(());

/// USART2.
pub struct USART2(());

/// Windowed watchdog timer.
pub struct WWDT(());

/// I/O configuration.
pub struct IOCON(());

/// Analog comparator.
pub struct ACOMP(());

/// I2C1.
pub struct I2C1(());

/// I2C2.
pub struct I2C2(());

/// I2C3.
pub struct I2C3(());

/// Analog-to-digital converter.
pub struct ADC0(());

/// DMA controller.
pub struct DMA0(());

/// One marker for each peripheral of the chip.
pub struct Peripherals {
    /// Flash controller.
    pub flash_ctrl: FLASH_CTRL,
    /// I2C0.
    pub i2c0: I2C0,
    /// General-purpose I/O.
    pub gpio: GPIO,
    /// Switch matrix.
    pub swm0: SWM0,
    /// State-configurable timer.
    pub sct0: SCT0,
    /// Self-wake-up timer.
    pub wkt: WKT,
    /// Multi-rate timer.
    pub mrt0: MRT0,
    /// SPI0.
    pub spi0: SPI0,
    /// SPI1.
    pub spi1: SPI1,
    /// CRC engine.
    pub crc: CRC,
    /// USART0.
    pub usart0: USART0,
    /// USART1.
    pub usart1: USART1,
    /// USART2.
    pub usart2: USART2,
    /// Windowed watchdog timer.
    pub wwdt: WWDT,
    /// I/O configuration.
    pub iocon: IOCON,
    /// Analog comparator.
    pub acomp: ACOMP,
    /// I2C1.
    pub i2c1: I2C1,
    /// I2C2.
    pub i2c2: I2C2,
    /// I2C3.
    pub i2c3: I2C3,
    /// Analog-to-digital converter.
    pub adc0: ADC0,
    /// DMA controller.
    pub dma0: DMA0,
}

impl Peripherals {
    /// Issues the markers.
    ///
    /// A marker is the credential for the bits of its peripheral, so a firmware
    /// calls this once, where it takes the peripherals of the chip into
    /// possession.
    pub fn new() -> Self {
        Peripherals {
            flash_ctrl: FLASH_CTRL(()),
            i2c0: I2C0(()),
            gpio: GPIO(()),
            swm0: SWM0(()),
            sct0: SCT0(()),
            wkt: WKT(()),
            mrt0: MRT0(()),
            spi0: SPI0(()),
            spi1: SPI1(()),
            crc: CRC(()),
            usart0: USART0(()),
            usart1: USART1(()),
            usart2: USART2(()),
            wwdt: WWDT(()),
            iocon: IOCON(()),
            acomp: ACOMP(()),
            i2c1: I2C1(()),
            i2c2: I2C2(()),
            i2c3: I2C3(()),
            adc0: ADC0(()),
            dma0: DMA0(()),
        }
    }
}

impl ClockControl for FLASH_CTRL {
    /// Bit 3.
    open spec fn clock_mask() -> u32 {
        0x0000_0008
    }

    fn clock_bits() -> (mask: u32) {
        0x0000_0008
    }
}

impl ClockControl for I2C0 {
    /// Bit 5.
    open spec fn clock_mask() -> u32 {
        0x0000_0020
    }

    fn clock_bits() -> (mask: u32) {
        0x0000_0020
    }
}

impl ClockControl for GPIO {
    /// Bit 6.
    open spec fn clock_mask() -> u32 {
        0x0000_0040
    }

    fn clock_bits() -> (mask: u32) {
        0x0000_0040
    }
}

impl ClockControl for SWM0 {
    /// Bit 7.
    open spec fn clock_mask() -> u32 {
        0x0000_0080
    }

    fn clock_bits() -> (mask: u32) {
        0x0000_0080
    }
}

impl ClockControl for SCT0 {
    /// Bit 8.
    open spec fn clock_mask() -> u32 {
        0x0000_0100
    }

    fn clock_bits() -> (mask: u32) {
        0x0000_0100
    }
}

impl ClockControl for WKT {
    /// Bit 9.
    open spec fn clock_mask() -> u32 {
        0x0000_0200
    }

    fn clock_bits() -> (mask: u32) {
        0x0000_0200
    }
}

impl ClockControl for MRT0 {
    /// Bit 10.
    open spec fn clock_mask() -> u32 {
        0x0000_0400
    }

    fn clock_bits() -> (mask: u32) {
        0x0000_0400
    }
}

impl ClockControl for SPI0 {
    /// Bit 11.
    open spec fn clock_mask() -> u32 {
        0x0000_0800
    }

    fn clock_bits() -> (mask: u32) {
        0x0000_0800
    }
}

impl ClockControl for SPI1 {
    /// Bit 12.
    open spec fn clock_mask() -> u32 {
        0x0000_1000
    }

    fn clock_bits() -> (mask: u32) {
        0x0000_1000
    }
}

impl ClockControl for CRC {
    /// Bit 13.
    open spec fn clock_mask() -> u32 {
        0x0000_2000
    }

    fn clock_bits() -> (mask: u32) {
        0x0000_2000
    }
}

impl ClockControl for USART0 {
    /// Bit 14.
    open spec fn clock_mask() -> u32 {
        0x0000_4000
    }

    fn clock_bits() -> (mask: u32) {
        0x0000_4000
    }
}

impl ClockControl for USART1 {
    /// Bit 15.
    open spec fn clock_mask() -> u32 {
        0x0000_8000
    }

    fn clock_bits() -> (mask: u32) {
        0x0000_8000
    }
}

impl ClockControl for USART2 {
    /// Bit 16.
    open spec fn clock_mask() -> u32 {
        0x0001_0000
    }

    fn clock_bits() -> (mask: u32) {
        0x0001_0000
    }
}

impl ClockControl for WWDT {
    /// Bit 17.
    open spec fn clock_mask() -> u32 {
        0x0002_0000
    }

    fn clock_bits() -> (mask: u32) {
        0x0002_0000
    }
}

impl ClockControl for IOCON {
    /// Bit 18.
    open spec fn clock_mask() -> u32 {
        0x0004_0000
    }

    fn clock_bits() -> (mask: u32) {
        0x0004_0000
    }
}

impl ClockControl for ACOMP {
    /// Bit 19.
    open spec fn clock_mask() -> u32 {
        0x0008_0000
    }

    fn clock_bits() -> (mask: u32) {
        0x0008_0000
    }
}

impl ClockControl for I2C1 {
    /// Bit 21.
    open spec fn clock_mask() -> u32 {
        0x0020_0000
    }

    fn clock_bits() -> (mask: u32) {
        0x0020_0000
    }
}

impl ClockControl for I2C2 {
    /// Bit 22.
    open spec fn clock_mask() -> u32 {
        0x0040_0000
    }

    fn clock_bits() -> (mask: u32) {
        0x0040_0000
    }
}

impl ClockControl for I2C3 {
    /// Bit 23.
    open spec fn clock_mask() -> u32 {
        0x0080_0000
    }

    fn clock_bits() -> (mask: u32) {
        0x0080_0000
    }
}

impl ClockControl for ADC0 {
    /// Bit 24.
    open spec fn clock_mask() -> u32 {
        0x0100_0000
    }

    fn clock_bits() -> (mask: u32) {
        0x0100_0000
    }
}

impl ClockControl for DMA0 {
    /// Bit 29.
    open spec fn clock_mask() -> u32 {
        0x2000_0000
    }

    fn clock_bits() -> (mask: u32) {
        0x2000_0000
    }
}

impl ResetControl for FLASH_CTRL {
    /// Bit 11.
    open spec fn reset_mask() -> u32 {
        0x0000_0800
    }

    fn reset_bits() -> (mask: u32) {
        0x0000_0800
    }
}

impl ResetControl for I2C0 {
    /// Bit 6.
    open spec fn reset_mask() -> u32 {
        0x0000_0040
    }

    fn reset_bits() -> (mask: u32) {
        0x0000_0040
    }
}

impl ResetControl for GPIO {
    /// Bit 10.
    open spec fn reset_mask() -> u32 {
        0x0000_0400
    }

    fn reset_bits() -> (mask: u32) {
        0x0000_0400
    }
}

impl ResetControl for SCT0 {
    /// Bit 8.
    open spec fn reset_mask() -> u32 {
        0x0000_0100
    }

    fn reset_bits() -> (mask: u32) {
        0x0000_0100
    }
}

impl ResetControl for WKT {
    /// Bit 9.
    open spec fn reset_mask() -> u32 {
        0x0000_0200
    }

    fn reset_bits() -> (mask: u32) {
        0x0000_0200
    }
}

impl ResetControl for MRT0 {
    /// Bit 7.
    open spec fn reset_mask() -> u32 {
        0x0000_0080
    }

    fn reset_bits() -> (mask: u32) {
        0x0000_0080
    }
}

impl ResetControl for SPI0 {
    /// Bit 0.
    open spec fn reset_mask() -> u32 {
        0x0000_0001
    }

    fn reset_bits() -> (mask: u32) {
        0x0000_0001
    }
}

impl ResetControl for SPI1 {
    /// Bit 1.
    open spec fn reset_mask() -> u32 {
        0x0000_0002
    }

    fn reset_bits() -> (mask: u32) {
        0x0000_0002
    }
}

impl ResetControl for USART0 {
    /// Bit 3.
    open spec fn reset_mask() -> u32 {
        0x0000_0008
    }

    fn reset_bits() -> (mask: u32) {
        0x0000_0008
    }
}

impl ResetControl for USART1 {
    /// Bit 4.
    open spec fn reset_mask() -> u32 {
        0x0000_0010
    }

    fn reset_bits() -> (mask: u32) {
        0x0000_0010
    }
}

impl ResetControl for USART2 {
    /// Bit 5.
    open spec fn reset_mask() -> u32 {
        0x0000_0020
    }

    fn reset_bits() -> (mask: u32) {
        0x0000_0020
    }
}

impl ResetControl for ACOMP {
    /// Bit 12.
    open spec fn reset_mask() -> u32 {
        0x0000_1000
    }

    fn reset_bits() -> (mask: u32) {
        0x0000_1000
    }
}

impl ResetControl for I2C1 {
    /// Bit 14.
    open spec fn reset_mask() -> u32 {
        0x0000_4000
    }

    fn reset_bits() -> (mask: u32) {
        0x0000_4000
    }
}

impl ResetControl for I2C2 {
    /// Bit 15.
    open spec fn reset_mask() -> u32 {
        0x0000_8000
    }

    fn reset_bits() -> (mask: u32) {
        0x0000_8000
    }
}

impl ResetControl for I2C3 {
    /// Bit 16.
    open spec fn reset_mask() -> u32 {
        0x0001_0000
    }

    fn reset_bits() -> (mask: u32) {
        0x0001_0000
    }
}

impl ResetControl for ADC0 {
    /// Bit 24.
    open spec fn reset_mask() -> u32 {
        0x0100_0000
    }

    fn reset_bits() -> (mask: u32) {
        0x0100_0000
    }
}

impl ResetControl for DMA0 {
    /// Bit 29.
    open spec fn reset_mask() -> u32 {
        0x2000_0000
    }

    fn reset_bits() -> (mask: u32) {
        0x2000_0000
    }
}

impl AnalogBlock for WWDT {
    /// Bit 6.
    open spec fn power_mask() -> u32 {
        0x0000_0040
    }

    fn power_bits() -> (mask: u32) {
        0x0000_0040
    }
}

impl AnalogBlock for ACOMP {
    /// Bit 15.
    open spec fn power_mask() -> u32 {
        0x0000_8000
    }

    fn power_bits() -> (mask: u32) {
        0x0000_8000
    }
}

impl AnalogBlock for ADC0 {
    /// Bit 4.
    open spec fn power_mask() -> u32 {
        0x0000_0010
    }

    fn power_bits() -> (mask: u32) {
        0x0000_0010
    }
}

} // verus!

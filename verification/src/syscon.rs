//! The part of the system-configuration block that all LPC8xx chips share.
//!
//! A [`Handle`] owns the four control registers through which clocks are
//! gated, peripherals are reset, analog blocks are powered and wake-up
//! interrupts are enabled. Whoever wants to change a bit in one of them
//! borrows the handle and presents the token of the resource that the bit
//! belongs to. The four capability traits say which bits those are.

use vstd::prelude::*;
use crate::bits::{clear_bits, set_bits, with_cleared, with_set};
use crate::register::RegisterWindow;

verus! {

/// The contents of the four control registers that a [`Handle`] mediates.
#[derive(Clone, Copy, Debug, PartialEq, Eq, Structural)]
pub struct Registers {
    /// Power-down configuration: a set bit takes the power from an analog block.
    pub pdruncfg: u32,
    /// Peripheral reset control: a cleared bit holds a peripheral in reset.
    pub presetctrl: u32,
    /// Wake-up enable: a set bit lets an interrupt wake the system.
    pub starterp1: u32,
    /// Clock control: a set bit feeds the system clock to a peripheral.
    pub sysahbclkctrl: u32,
}

impl Registers {
    /// The registers after the clock bits of `mask` have been set.
    pub open spec fn with_clock_enabled(self, mask: u32) -> Registers {
        Registers { sysahbclkctrl: with_set(self.sysahbclkctrl, mask), ..self }
    }

    /// The registers after the clock bits of `mask` have been cleared.
    pub open spec fn with_clock_disabled(self, mask: u32) -> Registers {
        Registers { sysahbclkctrl: with_cleared(self.sysahbclkctrl, mask), ..self }
    }

    /// The registers after the reset bits of `mask` have been cleared, which
    /// puts the peripheral into reset.
    pub open spec fn with_reset_asserted(self, mask: u32) -> Registers {
        Registers { presetctrl: with_cleared(self.presetctrl, mask), ..self }
    }

    /// The registers after the reset bits of `mask` have been set, which
    /// releases the peripheral from reset.
    pub open spec fn with_reset_cleared(self, mask: u32) -> Registers {
        Registers { presetctrl: with_set(self.presetctrl, mask), ..self }
    }

    /// The registers after the power-down bits of `mask` have been cleared,
    /// which powers the block.
    pub open spec fn with_power_up(self, mask: u32) -> Registers {
        Registers { pdruncfg: with_cleared(self.pdruncfg, mask), ..self }
    }

    /// The registers after the power-down bits of `mask` have been set, which
    /// takes the power from the block.
    pub open spec fn with_power_down(self, mask: u32) -> Registers {
        Registers { pdruncfg: with_set(self.pdruncfg, mask), ..self }
    }

    /// The registers after the wake-up bits of `mask` have been set.
    pub open spec fn with_wakeup_enabled(self, mask: u32) -> Registers {
        Registers { starterp1: with_set(self.starterp1, mask), ..self }
    }

    /// The registers after the wake-up bits of `mask` have been cleared.
    pub open spec fn with_wakeup_disabled(self, mask: u32) -> Registers {
        Registers { starterp1: with_cleared(self.starterp1, mask), ..self }
    }
}

/// A resource whose clock can be gated.
///
/// The two methods transform the value that is about to be written to the
/// clock-control register, so that several of them can be chained into one
/// write.
pub trait ClockControl {
    /// The bits of the clock-control register that feed this resource.
    spec fn clock_mask() -> u32;

    /// The bits of the clock-control register that feed this resource.
    fn clock_bits() -> (mask: u32)
        ensures
            mask == Self::clock_mask(),
    ;

    /// Sets the clock bits of this resource in `w`.
    fn enable_clock(&self, w: u32) -> (r: u32)
        ensures
            r == with_set(w, Self::clock_mask()),
    {
        set_bits(w, Self::clock_bits())
    }

    /// Clears the clock bits of this resource in `w`.
    fn disable_clock(&self, w: u32) -> (r: u32)
        ensures
            r == with_cleared(w, Self::clock_mask()),
    {
        clear_bits(w, Self::clock_bits())
    }
}

/// A peripheral that can be held in reset.
///
/// The reset bits are active low: a peripheral is in reset while its bits are
/// clear, and runs while they are set.
pub trait ResetControl {
    /// The bits of the reset-control register that belong to this peripheral.
    spec fn reset_mask() -> u32;

    /// The bits of the reset-control register that belong to this peripheral.
    fn reset_bits() -> (mask: u32)
        ensures
            mask == Self::reset_mask(),
    ;

    /// Clears the reset bits of this peripheral in `w`, which asserts its reset.
    fn assert_reset(&self, w: u32) -> (r: u32)
        ensures
            r == with_cleared(w, Self::reset_mask()),
    {
        clear_bits(w, Self::reset_bits())
    }

    /// Sets the reset bits of this peripheral in `w`, which releases it.
    fn clear_reset(&self, w: u32) -> (r: u32)
        ensures
            r == with_set(w, Self::reset_mask()),
    {
        set_bits(w, Self::reset_bits())
    }
}

/// An analog block whose power can be switched.
///
/// The power-down bits are active high: a block is powered while its bits are
/// clear.
pub trait AnalogBlock {
    /// The bits of the power-down register that belong to this block.
    spec fn power_mask() -> u32;

    /// The bits of the power-down register that belong to this block.
    fn power_bits() -> (mask: u32)
        ensures
            mask == Self::power_mask(),
    ;

    /// Clears the power-down bits of this block in `w`, which powers it.
    fn power_up(&self, w: u32) -> (r: u32)
        ensures
            r == with_cleared(w, Self::power_mask()),
    {
        clear_bits(w, Self::power_bits())
    }

    /// Sets the power-down bits of this block in `w`, which takes its power.
    fn power_down(&self, w: u32) -> (r: u32)
        ensures
            r == with_set(w, Self::power_mask()),
    {
        set_bits(w, Self::power_bits())
    }
}

/// An interrupt that can wake the system from deep sleep and power-down.
///
/// A selector is never instantiated for this purpose: it only names the bit.
pub trait WakeUpInterrupt {
    /// The bits of the wake-up enable register that belong to this interrupt.
    spec fn wakeup_mask() -> u32;

    /// The bits of the wake-up enable register that belong to this interrupt.
    fn wakeup_bits() -> (mask: u32)
        ensures
            mask == Self::wakeup_mask(),
    ;

    /// Sets the wake-up bits of this interrupt in `w`.
    fn enable(w: u32) -> (r: u32)
        ensures
            r == with_set(w, Self::wakeup_mask()),
    {
        set_bits(w, Self::wakeup_bits())
    }

    /// Clears the wake-up bits of this interrupt in `w`.
    fn disable(w: u32) -> (r: u32)
        ensures
            r == with_cleared(w, Self::wakeup_mask()),
    {
        clear_bits(w, Self::wakeup_bits())
    }
}

/// The one mutator of the four shared control registers.
///
/// Every method borrows the handle exclusively, reads one register, lets the
/// presented resource transform the value, and writes it back. No method
/// touches a bit outside the mask of that resource.
pub struct Handle<R: RegisterWindow> {
    pdruncfg: R,
    presetctrl: R,
    starterp1: R,
    sysahbclkctrl: R,
}

impl<R: RegisterWindow> View for Handle<R> {
    type V = Registers;

    closed spec fn view(&self) -> Registers {
        Registers {
            pdruncfg: self.pdruncfg.bits(),
            presetctrl: self.presetctrl.bits(),
            starterp1: self.starterp1.bits(),
            sysahbclkctrl: self.sysahbclkctrl.bits(),
        }
    }
}

impl<R: RegisterWindow> Handle<R> {
    /// Enables the clock of a peripheral or other hardware component.
    pub fn enable_clock<P: ClockControl>(&mut self, peripheral: &P)
        ensures
            final(self)@ == old(self)@.with_clock_enabled(P::clock_mask()),
    {
        let transform = |w: u32| -> (r: u32)
            ensures
                r == with_set(w, P::clock_mask()),
            {
                peripheral.enable_clock(w)
            };
        self.sysahbclkctrl.modify(transform);
    }

    /// Disables the clock of a peripheral or other hardware component.
    pub fn disable_clock<P: ClockControl>(&mut self, peripheral: &P)
        ensures
            final(self)@ == old(self)@.with_clock_disabled(P::clock_mask()),
    {
        let transform = |w: u32| -> (r: u32)
            ensures
                r == with_cleared(w, P::clock_mask()),
            {
                peripheral.disable_clock(w)
            };
        self.sysahbclkctrl.modify(transform);
    }

    /// Puts a peripheral into reset.
    pub fn assert_reset<P: ResetControl>(&mut self, peripheral: &P)
        ensures
            final(self)@ == old(self)@.with_reset_asserted(P::reset_mask()),
    {
        let transform = |w: u32| -> (r: u32)
            ensures
                r == with_cleared(w, P::reset_mask()),
            {
                peripheral.assert_reset(w)
            };
        self.presetctrl.modify(transform);
    }

    /// Releases a peripheral from reset.
    pub fn clear_reset<P: ResetControl>(&mut self, peripheral: &P)
        ensures
            final(self)@ == old(self)@.with_reset_cleared(P::reset_mask()),
    {
        let transform = |w: u32| -> (r: u32)
            ensures
                r == with_set(w, P::reset_mask()),
            {
                peripheral.clear_reset(w)
            };
        self.presetctrl.modify(transform);
    }

    /// Provides power to an analog block.
    pub fn power_up<P: AnalogBlock>(&mut self, peripheral: &P)
        ensures
            final(self)@ == old(self)@.with_power_up(P::power_mask()),
    {
        let transform = |w: u32| -> (r: u32)
            ensures
                r == with_cleared(w, P::power_mask()),
            {
                peripheral.power_up(w)
            };
        self.pdruncfg.modify(transform);
    }

    /// Removes power from an analog block.
    pub fn power_down<P: AnalogBlock>(&mut self, peripheral: &P)
        ensures
            final(self)@ == old(self)@.with_power_down(P::power_mask()),
    {
        let transform = |w: u32| -> (r: u32)
            ensures
                r == with_set(w, P::power_mask()),
            {
                peripheral.power_down(w)
            };
        self.pdruncfg.modify(transform);
    }

    /// Lets an interrupt wake the system from deep-sleep and power-down mode.
    ///
    /// The interrupt has to be enabled in the interrupt controller as well.
    /// Regular sleep mode needs neither.
    pub fn enable_interrupt_wakeup<I>(&mut self) where I: WakeUpInterrupt
        ensures
            final(self)@ == old(self)@.with_wakeup_enabled(I::wakeup_mask()),
    {
        let transform = |w: u32| -> (r: u32)
            ensures
                r == with_set(w, I::wakeup_mask()),
            {
                I::enable(w)
            };
        self.starterp1.modify(transform);
    }

    /// Stops an interrupt from waking the system from deep-sleep and
    /// power-down mode.
    pub fn disable_interrupt_wakeup<I>(&mut self) where I: WakeUpInterrupt
        ensures
            final(self)@ == old(self)@.with_wakeup_disabled(I::wakeup_mask()),
    {
        let transform = |w: u32| -> (r: u32)
            ensures
                r == with_cleared(w, I::wakeup_mask()),
            {
                I::disable(w)
            };
        self.starterp1.modify(transform);
    }

    /// Reads the four registers back.
    pub fn registers(&self) -> (registers: Registers)
        ensures
            registers == self@,
    {
        Registers {
            pdruncfg: self.pdruncfg.read(),
            presetctrl: self.presetctrl.read(),
            starterp1: self.starterp1.read(),
            sysahbclkctrl: self.sysahbclkctrl.read(),
        }
    }
}

/// Brown-out detection.
///
/// The token of a resource is handed out once, when the block is split, and
/// cannot be copied. Whoever holds it is the one owner of the resource's bits.
pub struct BOD(());

/// Flash memory.
pub struct FLASH(());

/// Micro trace buffer.
pub struct MTB(());

/// Random access memory.
#[allow(non_camel_case_types)]
pub struct RAM0_1(());

/// Read-only memory.
pub struct ROM(());

/// System oscillator.
pub struct SYSOSC(());

/// System PLL.
pub struct SYSPLL(());

impl ClockControl for ROM {
    /// Bit 1.
    open spec fn clock_mask() -> u32 {
        0x0000_0002
    }

    fn clock_bits() -> (mask: u32) {
        0x0000_0002
    }
}

impl ClockControl for RAM0_1 {
    /// Bit 2.
    open spec fn clock_mask() -> u32 {
        0x0000_0004
    }

    fn clock_bits() -> (mask: u32) {
        0x0000_0004
    }
}

impl ClockControl for FLASH {
    /// Bit 4.
    open spec fn clock_mask() -> u32 {
        0x0000_0010
    }

    fn clock_bits() -> (mask: u32) {
        0x0000_0010
    }
}

impl ClockControl for MTB {
    /// Bit 26.
    open spec fn clock_mask() -> u32 {
        0x0400_0000
    }

    fn clock_bits() -> (mask: u32) {
        0x0400_0000
    }
}

impl AnalogBlock for FLASH {
    /// Bit 2.
    open spec fn power_mask() -> u32 {
        0x0000_0004
    }

    fn power_bits() -> (mask: u32) {
        0x0000_0004
    }
}

impl AnalogBlock for BOD {
    /// Bit 3.
    open spec fn power_mask() -> u32 {
        0x0000_0008
    }

    fn power_bits() -> (mask: u32) {
        0x0000_0008
    }
}

impl AnalogBlock for SYSOSC {
    /// Bit 5.
    open spec fn power_mask() -> u32 {
        0x0000_0020
    }

    fn power_bits() -> (mask: u32) {
        0x0000_0020
    }
}

impl AnalogBlock for SYSPLL {
    /// Bit 7.
    open spec fn power_mask() -> u32 {
        0x0000_0080
    }

    fn power_bits() -> (mask: u32) {
        0x0000_0080
    }
}

/// Selects the SPI0 interrupt as a wake-up source.
pub struct Spi0Wakeup;

/// Selects the SPI1 interrupt as a wake-up source.
pub struct Spi1Wakeup;

/// Selects the USART0 interrupt as a wake-up source.
pub struct Usart0Wakeup;

/// Selects the USART1 interrupt as a wake-up source.
pub struct Usart1Wakeup;

/// Selects the USART2 interrupt as a wake-up source.
pub struct Usart2Wakeup;

/// Selects the I2C1 interrupt as a wake-up source.
pub struct I2c1Wakeup;

/// Selects the I2C0 interrupt as a wake-up source.
pub struct I2c0Wakeup;

/// Selects the windowed watchdog interrupt as a wake-up source.
pub struct WwdtWakeup;

/// Selects the brown-out detection interrupt as a wake-up source.
pub struct BodWakeup;

/// Selects the self-wake-up timer interrupt as a wake-up source.
pub struct WktWakeup;

/// Selects the I2C2 interrupt as a wake-up source.
pub struct I2c2Wakeup;

/// Selects the I2C3 interrupt as a wake-up source.
pub struct I2c3Wakeup;

impl WakeUpInterrupt for Spi0Wakeup {
    /// Bit 0.
    open spec fn wakeup_mask() -> u32 {
        0x0000_0001
    }

    fn wakeup_bits() -> (mask: u32) {
        0x0000_0001
    }
}

impl WakeUpInterrupt for Spi1Wakeup {
    /// Bit 1.
    open spec fn wakeup_mask() -> u32 {
        0x0000_0002
    }

    fn wakeup_bits() -> (mask: u32) {
        0x0000_0002
    }
}

impl WakeUpInterrupt for Usart0Wakeup {
    /// Bit 3.
    open spec fn wakeup_mask() -> u32 {
        0x0000_0008
    }

    fn wakeup_bits() -> (mask: u32) {
        0x0000_0008
    }
}

impl WakeUpInterrupt for Usart1Wakeup {
    /// Bit 4.
    open spec fn wakeup_mask() -> u32 {
        0x0000_0010
    }

    fn wakeup_bits() -> (mask: u32) {
        0x0000_0010
    }
}

impl WakeUpInterrupt for Usart2Wakeup {
    /// Bit 5.
    open spec fn wakeup_mask() -> u32 {
        0x0000_0020
    }

    fn wakeup_bits() -> (mask: u32) {
        0x0000_0020
    }
}

impl WakeUpInterrupt for I2c1Wakeup {
    /// Bit 7.
    open spec fn wakeup_mask() -> u32 {
        0x0000_0080
    }

    fn wakeup_bits() -> (mask: u32) {
        0x0000_0080
    }
}

impl WakeUpInterrupt for I2c0Wakeup {
    /// Bit 8.
    open spec fn wakeup_mask() -> u32 {
        0x0000_0100
    }

    fn wakeup_bits() -> (mask: u32) {
        0x0000_0100
    }
}

impl WakeUpInterrupt for WwdtWakeup {
    /// Bit 12.
    open spec fn wakeup_mask() -> u32 {
        0x0000_1000
    }

    fn wakeup_bits() -> (mask: u32) {
        0x0000_1000
    }
}

impl WakeUpInterrupt for BodWakeup {
    /// Bit 13.
    open spec fn wakeup_mask() -> u32 {
        0x0000_2000
    }

    fn wakeup_bits() -> (mask: u32) {
        0x0000_2000
    }
}

impl WakeUpInterrupt for WktWakeup {
    /// Bit 15.
    open spec fn wakeup_mask() -> u32 {
        0x0000_8000
    }

    fn wakeup_bits() -> (mask: u32) {
        0x0000_8000
    }
}

impl WakeUpInterrupt for I2c2Wakeup {
    /// Bit 21.
    open spec fn wakeup_mask() -> u32 {
        0x0020_0000
    }

    fn wakeup_bits() -> (mask: u32) {
        0x0020_0000
    }
}

impl WakeUpInterrupt for I2c3Wakeup {
    /// Bit 22.
    open spec fn wakeup_mask() -> u32 {
        0x0040_0000
    }

    fn wakeup_bits() -> (mask: u32) {
        0x0040_0000
    }
}

/// The handle and the tokens that every LPC8xx chip has.
pub struct CommonParts<R: RegisterWindow> {
    /// The handle to the four shared registers.
    pub handle: Handle<R>,
    /// Brown-out detection.
    pub bod: BOD,
    /// Flash memory.
    pub flash: FLASH,
    /// Micro trace buffer.
    pub mtb: MTB,
    /// Random access memory.
    pub ram0_1: RAM0_1,
    /// Read-only memory.
    pub rom: ROM,
    /// System oscillator.
    pub sysosc: SYSOSC,
    /// System PLL.
    pub syspll: SYSPLL,
}

impl<R: RegisterWindow> CommonParts<R> {
    /// Puts the four register windows behind one handle and issues the
    /// tokens of the shared resources.
    ///
    /// The windows are consumed, so one set of windows yields one handle and
    /// one token of each kind. Nothing is written to the registers.
    pub fn new(pdruncfg: R, presetctrl: R, starterp1: R, sysahbclkctrl: R) -> (parts: Self)
        ensures
            parts.handle@ == (Registers {
                pdruncfg: pdruncfg.bits(),
                presetctrl: presetctrl.bits(),
                starterp1: starterp1.bits(),
                sysahbclkctrl: sysahbclkctrl.bits(),
            }),
    {
        CommonParts {
            handle: Handle { pdruncfg, presetctrl, starterp1, sysahbclkctrl },
            bod: BOD(()),
            flash: FLASH(()),
            mtb: MTB(()),
            ram0_1: RAM0_1(()),
            rom: ROM(()),
            sysosc: SYSOSC(()),
            syspll: SYSPLL(()),
        }
    }
}

} // verus!

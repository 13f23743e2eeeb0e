//! Entry point to the system-configuration block of the LPC82x.
//!
//! [`SYSCON`] owns the register block. [`SYSCON::split`] turns it, once, into
//! the handle and the tokens of [`Parts`]; [`SYSCON::free`] gives the register
//! block back instead.

use vstd::prelude::*;
use crate::clock;
use crate::clock::Frequency;
use crate::init_state;
use crate::register::RegisterWindow;
use crate::syscon::{
    AnalogBlock, CommonParts, Handle, Registers, ResetControl, BOD, FLASH, MTB, RAM0_1, ROM,
    SYSOSC, SYSPLL,
};

verus! {

/// The registers of the block, as the hardware lays them out for this crate:
/// one window for each register that the block's API touches.
pub struct RegisterBlock<R: RegisterWindow> {
    /// Power-down configuration.
    pub pdruncfg: R,
    /// Peripheral reset control.
    pub presetctrl: R,
    /// Wake-up enable for the interrupts of the peripherals.
    pub starterp1: R,
    /// System clock control.
    pub sysahbclkctrl: R,
    /// USART clock divider.
    pub uartclkdiv: R,
    /// Divider of the USART fractional baud rate generator.
    pub uartfrgdiv: R,
    /// Multiplier of the USART fractional baud rate generator.
    pub uartfrgmult: R,
}

/// Entry point to the API of the block.
///
/// The value stands for the unsplit block. It is consumed by whichever of
/// [`SYSCON::split`] and [`SYSCON::free`] is called first, so that one register
/// block never yields two handles, or a handle and the raw registers.
pub struct SYSCON<R: RegisterWindow> {
    syscon: RegisterBlock<R>,
}

/// The parts that the API of the block is made of.
pub struct Parts<R: RegisterWindow> {
    /// The handle to the four shared registers.
    pub handle: Handle<R>,
    /// Brown-out detection.
    pub bod: BOD,
    /// Flash memory.
    pub flash: FLASH,
    /// Internal RC oscillator.
    pub irc: IRC,
    /// Output of the internal RC oscillator.
    pub ircout: IRCOUT,
    /// Micro trace buffer.
    pub mtb: MTB,
    /// Random access memory.
    pub ram0_1: RAM0_1,
    /// Read-only memory.
    pub rom: ROM,
    /// System oscillator.
    pub sysosc: SYSOSC,
    /// System PLL.
    pub syspll: SYSPLL,
    /// USART fractional baud rate generator.
    pub uartfrg: UARTFRG<R>,
    /// The 750 kHz clock derived from the internal RC oscillator, which runs
    /// when the chip comes out of reset.
    pub irc_derived_clock: IrcDerivedClock<init_state::Enabled>,
}

impl<R: RegisterWindow> SYSCON<R> {
    /// The register block that this value owns.
    pub closed spec fn raw(&self) -> RegisterBlock<R> {
        self.syscon
    }

    /// Takes the register block into possession.
    pub fn new(syscon: RegisterBlock<R>) -> (unsplit: Self)
        ensures
            unsplit.raw() == syscon,
    {
        SYSCON { syscon }
    }

    /// Splits the API of the block into its parts.
    ///
    /// Every register window moves to the part that owns it from now on, and
    /// nothing is written to any register.
    pub fn split(self) -> (parts: Parts<R>)
        ensures
            parts.handle@ == (Registers {
                pdruncfg: self.raw().pdruncfg.bits(),
                presetctrl: self.raw().presetctrl.bits(),
                starterp1: self.raw().starterp1.bits(),
                sysahbclkctrl: self.raw().sysahbclkctrl.bits(),
            }),
            parts.uartfrg@ == (FrgRegisters {
                uartclkdiv: self.raw().uartclkdiv.bits(),
                uartfrgdiv: self.raw().uartfrgdiv.bits(),
                uartfrgmult: self.raw().uartfrgmult.bits(),
            }),
    {
        let raw = self.syscon;
        let parts = CommonParts::new(
            raw.pdruncfg,
            raw.presetctrl,
            raw.starterp1,
            raw.sysahbclkctrl,
        );
        Parts {
            handle: parts.handle,
            bod: parts.bod,
            flash: parts.flash,
            irc: IRC(()),
            ircout: IRCOUT(()),
            mtb: parts.mtb,
            ram0_1: parts.ram0_1,
            rom: parts.rom,
            sysosc: parts.sysosc,
            syspll: parts.syspll,
            uartfrg: UARTFRG {
                uartclkdiv: raw.uartclkdiv,
                uartfrgdiv: raw.uartfrgdiv,
                uartfrgmult: raw.uartfrgmult,
            },
            irc_derived_clock: IrcDerivedClock::new(),
        }
    }

    /// Returns the register block, untouched.
    ///
    /// This is the way out of the API for what the API does not offer. The
    /// block cannot be split afterwards.
    pub fn free(self) -> (raw: RegisterBlock<R>)
        ensures
            raw == self.raw(),
    {
        self.syscon
    }
}

/// Internal RC oscillator.
pub struct IRC(());

/// Output of the internal RC oscillator.
pub struct IRCOUT(());

impl AnalogBlock for IRCOUT {
    /// Bit 0.
    open spec fn power_mask() -> u32 {
        0x0000_0001
    }

    fn power_bits() -> (mask: u32) {
        0x0000_0001
    }
}

impl AnalogBlock for IRC {
    /// Bit 1.
    open spec fn power_mask() -> u32 {
        0x0000_0002
    }

    fn power_bits() -> (mask: u32) {
        0x0000_0002
    }
}

/// The contents of the three registers of the USART fractional baud rate
/// generator.
#[derive(Clone, Copy, Debug, PartialEq, Eq, Structural)]
pub struct FrgRegisters {
    /// USART clock divider.
    pub uartclkdiv: u32,
    /// Divider of the fractional generator.
    pub uartfrgdiv: u32,
    /// Multiplier of the fractional generator.
    pub uartfrgmult: u32,
}

/// USART fractional baud rate generator.
///
/// Controls the clock that all USARTs share.
pub struct UARTFRG<R: RegisterWindow> {
    uartclkdiv: R,
    uartfrgdiv: R,
    uartfrgmult: R,
}

impl<R: RegisterWindow> View for UARTFRG<R> {
    type V = FrgRegisters;

    closed spec fn view(&self) -> FrgRegisters {
        FrgRegisters {
            uartclkdiv: self.uartclkdiv.bits(),
            uartfrgdiv: self.uartfrgdiv.bits(),
            uartfrgmult: self.uartfrgmult.bits(),
        }
    }
}

impl<R: RegisterWindow> UARTFRG<R> {
    /// Sets the USART clock divider.
    ///
    /// The divider takes the low byte of its register; the write leaves the
    /// rest of the register zero.
    pub fn set_clkdiv(&mut self, value: u8)
        ensures
            final(self)@ == (FrgRegisters { uartclkdiv: value as u32, ..old(self)@ }),
    {
        self.uartclkdiv.write(value as u32);
    }

    /// Sets the multiplier of the fractional generator.
    ///
    /// The multiplier takes the low byte of its register; the write leaves the
    /// rest of the register zero.
    pub fn set_frgmult(&mut self, value: u8)
        ensures
            final(self)@ == (FrgRegisters { uartfrgmult: value as u32, ..old(self)@ }),
    {
        self.uartfrgmult.write(value as u32);
    }

    /// Sets the divider of the fractional generator.
    ///
    /// The divider takes the low byte of its register; the write leaves the
    /// rest of the register zero.
    pub fn set_frgdiv(&mut self, value: u8)
        ensures
            final(self)@ == (FrgRegisters { uartfrgdiv: value as u32, ..old(self)@ }),
    {
        self.uartfrgdiv.write(value as u32);
    }

    /// Reads the three registers back.
    pub fn registers(&self) -> (registers: FrgRegisters)
        ensures
            registers == self@,
    {
        FrgRegisters {
            uartclkdiv: self.uartclkdiv.read(),
            uartfrgdiv: self.uartfrgdiv.read(),
            uartfrgmult: self.uartfrgmult.read(),
        }
    }
}

impl<R: RegisterWindow> ResetControl for UARTFRG<R> {
    /// Bit 2.
    open spec fn reset_mask() -> u32 {
        0x0000_0004
    }

    fn reset_bits() -> (mask: u32) {
        0x0000_0004
    }
}

/// The 750 kHz clock derived from the internal RC oscillator.
///
/// It is one of the clocks that can run the self-wake-up timer. The type
/// parameter records whether the clock has been switched on: only a clock in
/// the state [`init_state::Disabled`] can be enabled, and only one in the
/// state [`init_state::Enabled`] is a [`clock::Enabled`].
pub struct IrcDerivedClock<State = init_state::Enabled> {
    _state: State,
}

impl IrcDerivedClock<init_state::Enabled> {
    pub(crate) fn new() -> Self {
        IrcDerivedClock { _state: init_state::Enabled(()) }
    }
}

impl IrcDerivedClock<init_state::Disabled> {
    /// The clock while the oscillator, or its output, is without power.
    pub fn disabled() -> Self {
        IrcDerivedClock { _state: init_state::Disabled }
    }

    /// Enables the clock.
    ///
    /// Powers the oscillator and its output, in this order, and returns the
    /// clock in the enabled state. The disabled clock and the two tokens are
    /// consumed: nobody can take the power away again behind the back of the
    /// enabled clock.
    pub fn enable<R: RegisterWindow>(
        self,
        syscon: &mut Handle<R>,
        irc: IRC,
        ircout: IRCOUT,
    ) -> (enabled: IrcDerivedClock<init_state::Enabled>)
        ensures
            final(syscon)@ == old(syscon)@.with_power_up(IRC::power_mask()).with_power_up(
                IRCOUT::power_mask(),
            ),
            enabled.frequency() == self.frequency(),
    {
        syscon.power_up(&irc);
        syscon.power_up(&ircout);
        IrcDerivedClock { _state: init_state::Enabled(()) }
    }
}

impl<State> clock::Frequency for IrcDerivedClock<State> {
    open spec fn frequency(&self) -> u32 {
        750_000
    }

    fn hz(&self) -> (hz: u32) {
        750_000
    }
}

impl clock::Enabled for IrcDerivedClock<init_state::Enabled> {
}

} // verus!

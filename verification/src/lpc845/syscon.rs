//! Entry point to the system-configuration block of the LPC845.
//!
//! [`SYSCON`] owns the register block. [`SYSCON::split`] turns it, once, into
//! the handle and the tokens of [`Parts`]; [`SYSCON::free`] gives the register
//! block back instead.

use vstd::prelude::*;
use crate::clock;
use crate::clock::Frequency;
use crate::init_state;
use crate::register::RegisterWindow;
use crate::syscon::{
    AnalogBlock, CommonParts, Handle, Registers, BOD, FLASH, MTB, RAM0_1, ROM, SYSOSC, SYSPLL,
};

verus! {

/// The registers of the block, as the hardware lays them out for this crate:
/// one window for each register that the block's API touches.
pub struct RegisterBlock<R: RegisterWindow> {
    /// Power-down configuration.
    pub pdruncfg: R,
    /// Peripheral reset control 0.
    pub presetctrl0: R,
    /// Wake-up enable for the interrupts of the peripherals.
    pub starterp1: R,
    /// System clock control 0.
    pub sysahbclkctrl0: R,
}

/// Entry point to the API of the block.
///
/// The value stands for the unsplit block. It is consumed by whichever of
/// [`SYSCON::split`] and [`SYSCON::free`] is called first, so that one register
/// block never yields two handles, or a handle and the raw registers.
pub struct SYSCON<R: RegisterWindow> {
    syscon: RegisterBlock<R>,
}

/// The parts that the API of the block is made of.
pub struct Parts<R: RegisterWindow> {
    /// The handle to the four shared registers.
    pub handle: Handle<R>,
    /// Brown-out detection.
    pub bod: BOD,
    /// Flash memory.
    pub flash: FLASH,
    /// Free-running oscillator.
    pub fro: FRO,
    /// Output of the free-running oscillator.
    pub froout: FROOUT,
    /// Micro trace buffer.
    pub mtb: MTB,
    /// Random access memory.
    pub ram0_1: RAM0_1,
    /// Read-only memory.
    pub rom: ROM,
    /// System oscillator.
    pub sysosc: SYSOSC,
    /// System PLL.
    pub syspll: SYSPLL,
    /// The 750 kHz clock derived from the free-running oscillator, which runs
    /// when the chip comes out of reset.
    pub fro_derived_clock: FroDerivedClock<init_state::Enabled>,
}

impl<R: RegisterWindow> SYSCON<R> {
    /// The register block that this value owns.
    pub closed spec fn raw(&self) -> RegisterBlock<R> {
        self.syscon
    }

    /// Takes the register block into possession.
    pub fn new(syscon: RegisterBlock<R>) -> (unsplit: Self)
        ensures
            unsplit.raw() == syscon,
    {
        SYSCON { syscon }
    }

    /// Splits the API of the block into its parts.
    ///
    /// Every register window moves to the handle, and nothing is written to
    /// any register.
    pub fn split(self) -> (parts: Parts<R>)
        ensures
            parts.handle@ == (Registers {
                pdruncfg: self.raw().pdruncfg.bits(),
                presetctrl: self.raw().presetctrl0.bits(),
                starterp1: self.raw().starterp1.bits(),
                sysahbclkctrl: self.raw().sysahbclkctrl0.bits(),
            }),
    {
        let raw = self.syscon;
        let parts = CommonParts::new(
            raw.pdruncfg,
            raw.presetctrl0,
            raw.starterp1,
            raw.sysahbclkctrl0,
        );
        Parts {
            handle: parts.handle,
            bod: parts.bod,
            flash: parts.flash,
            fro: FRO(()),
            froout: FROOUT(()),
            mtb: parts.mtb,
            ram0_1: parts.ram0_1,
            rom: parts.rom,
            sysosc: parts.sysosc,
            syspll: parts.syspll,
            fro_derived_clock: FroDerivedClock::new(),
        }
    }

    /// Returns the register block, untouched.
    ///
    /// This is the way out of the API for what the API does not offer. The
    /// block cannot be split afterwards.
    pub fn free(self) -> (raw: RegisterBlock<R>)
        ensures
            raw == self.raw(),
    {
        self.syscon
    }
}

/// Free-running oscillator.
pub struct FRO(());

/// Output of the free-running oscillator.
pub struct FROOUT(());

impl AnalogBlock for FRO {
    /// Bit 1.
    open spec fn power_mask() -> u32 {
        0x0000_0002
    }

    fn power_bits() -> (mask: u32) {
        0x0000_0002
    }
}

impl AnalogBlock for FROOUT {
    /// Bit 0.
    open spec fn power_mask() -> u32 {
        0x0000_0001
    }

    fn power_bits() -> (mask: u32) {
        0x0000_0001
    }
}

/// The 750 kHz clock derived from the free-running oscillator.
///
/// It is one of the clocks that can run the self-wake-up timer. The type
/// parameter records whether the clock has been switched on: only a clock in
/// the state [`init_state::Disabled`] can be enabled, and only one in the
/// state [`init_state::Enabled`] is a [`clock::Enabled`].
pub struct FroDerivedClock<State = init_state::Enabled> {
    _state: State,
}

impl FroDerivedClock<init_state::Enabled> {
    pub(crate) fn new() -> Self {
        FroDerivedClock { _state: init_state::Enabled(()) }
    }
}

impl FroDerivedClock<init_state::Disabled> {
    /// The clock while the oscillator, or its output, is without power.
    pub fn disabled() -> Self {
        FroDerivedClock { _state: init_state::Disabled }
    }

    /// Enables the clock.
    ///
    /// Powers the oscillator and its output, in this order, and returns the
    /// clock in the enabled state. The disabled clock and the two tokens are
    /// consumed: nobody can take the power away again behind the back of the
    /// enabled clock.
    pub fn enable<R: RegisterWindow>(
        self,
        syscon: &mut Handle<R>,
        fro: FRO,
        froout: FROOUT,
    ) -> (enabled: FroDerivedClock<init_state::Enabled>)
        ensures
            final(syscon)@ == old(syscon)@.with_power_up(FRO::power_mask()).with_power_up(
                FROOUT::power_mask(),
            ),
            enabled.frequency() == self.frequency(),
    {
        syscon.power_up(&fro);
        syscon.power_up(&froout);
        FroDerivedClock { _state: init_state::Enabled(()) }
    }
}

impl<State> clock::Frequency for FroDerivedClock<State> {
    open spec fn frequency(&self) -> u32 {
        750_000
    }

    fn hz(&self) -> (hz: u32) {
        750_000
    }
}

impl clock::Enabled for FroDerivedClock<init_state::Enabled> {
}

} // verus!

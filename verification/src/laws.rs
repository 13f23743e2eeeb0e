//! What holds of the block for every resource and every state.
//!
//! The methods of [`Handle`](crate::syscon::Handle) promise, each for itself,
//! the transition of [`Registers`] that they perform. The proof functions here
//! state what follows for a resource from the transitions of its capability
//! taken together.

use vstd::prelude::*;
use crate::clock::Frequency;
use crate::init_state::{Disabled, Enabled};
use crate::lpc82x::syscon::IrcDerivedClock;
use crate::lpc845::syscon::FroDerivedClock;
use crate::bits::{
    all_clear, all_set, changed, lemma_clear_exact, lemma_disjoint_masks_independent,
    lemma_idempotent, lemma_last_wins, lemma_set_exact,
};
use crate::syscon::{
    AnalogBlock, BodWakeup, ClockControl, I2c0Wakeup, I2c1Wakeup, I2c2Wakeup, I2c3Wakeup,
    Registers, ResetControl, Spi0Wakeup, Spi1Wakeup, Usart0Wakeup, Usart1Wakeup, Usart2Wakeup,
    WakeUpInterrupt, WktWakeup, WwdtWakeup, BOD, FLASH, MTB, RAM0_1, ROM, SYSOSC, SYSPLL,
};

verus! {

/// Enabling the clock of a resource leaves the clock bits of the resource
/// set and changes no other bit of any register. Where the bits were clear
/// before, the bits that changed are those of the resource exactly.
pub proof fn clock_enable_changes_its_mask_only<P: ClockControl>(before: Registers)
    ensures
        all_set(before.with_clock_enabled(P::clock_mask()).sysahbclkctrl, P::clock_mask()),
        changed(
            before.sysahbclkctrl,
            before.with_clock_enabled(P::clock_mask()).sysahbclkctrl,
        ) & !P::clock_mask() == 0,
        all_clear(before.sysahbclkctrl, P::clock_mask()) ==> changed(
            before.sysahbclkctrl,
            before.with_clock_enabled(P::clock_mask()).sysahbclkctrl,
        ) == P::clock_mask(),
        before.with_clock_enabled(P::clock_mask()).pdruncfg == before.pdruncfg,
        before.with_clock_enabled(P::clock_mask()).presetctrl == before.presetctrl,
        before.with_clock_enabled(P::clock_mask()).starterp1 == before.starterp1,
{
    lemma_set_exact(before.sysahbclkctrl, P::clock_mask());
}

/// Disabling the clock of a resource leaves the clock bits of the resource
/// clear and changes no other bit of any register.
pub proof fn clock_disable_changes_its_mask_only<P: ClockControl>(before: Registers)
    ensures
        all_clear(before.with_clock_disabled(P::clock_mask()).sysahbclkctrl, P::clock_mask()),
        changed(
            before.sysahbclkctrl,
            before.with_clock_disabled(P::clock_mask()).sysahbclkctrl,
        ) & !P::clock_mask() == 0,
        before.with_clock_disabled(P::clock_mask()).pdruncfg == before.pdruncfg,
        before.with_clock_disabled(P::clock_mask()).presetctrl == before.presetctrl,
        before.with_clock_disabled(P::clock_mask()).starterp1 == before.starterp1,
{
    lemma_clear_exact(before.sysahbclkctrl, P::clock_mask());
}

/// Disabling a clock undoes enabling it, and the other way round: of the two
/// the later one decides, either of them done twice is done once, and the
/// pair restores registers whose bits were in the state of the later one.
pub proof fn clock_disable_inverts_enable<P: ClockControl>(before: Registers)
    ensures
        before.with_clock_enabled(P::clock_mask()).with_clock_disabled(P::clock_mask())
            == before.with_clock_disabled(P::clock_mask()),
        before.with_clock_disabled(P::clock_mask()).with_clock_enabled(P::clock_mask())
            == before.with_clock_enabled(P::clock_mask()),
        before.with_clock_enabled(P::clock_mask()).with_clock_enabled(P::clock_mask())
            == before.with_clock_enabled(P::clock_mask()),
        before.with_clock_disabled(P::clock_mask()).with_clock_disabled(P::clock_mask())
            == before.with_clock_disabled(P::clock_mask()),
        all_clear(before.sysahbclkctrl, P::clock_mask()) ==> before.with_clock_enabled(
            P::clock_mask(),
        ).with_clock_disabled(P::clock_mask()) == before,
        all_set(before.sysahbclkctrl, P::clock_mask()) ==> before.with_clock_disabled(
            P::clock_mask(),
        ).with_clock_enabled(P::clock_mask()) == before,
{
    lemma_last_wins(before.sysahbclkctrl, P::clock_mask());
    lemma_idempotent(before.sysahbclkctrl, P::clock_mask());
}

/// Two resources whose clock bits are apart do not disturb each other:
/// whatever is done to the clock of the one leaves the clock bits of the other
/// as they were, and it does not matter whose clock is switched first.
pub proof fn clocks_of_apart_resources_are_independent<P: ClockControl, Q: ClockControl>(
    before: Registers,
)
    requires
        P::clock_mask() & Q::clock_mask() == 0,
    ensures
        before.with_clock_enabled(Q::clock_mask()).sysahbclkctrl & P::clock_mask()
            == before.sysahbclkctrl & P::clock_mask(),
        before.with_clock_disabled(Q::clock_mask()).sysahbclkctrl & P::clock_mask()
            == before.sysahbclkctrl & P::clock_mask(),
        before.with_clock_enabled(P::clock_mask()).with_clock_enabled(Q::clock_mask())
            == before.with_clock_enabled(Q::clock_mask()).with_clock_enabled(P::clock_mask()),
        before.with_clock_disabled(P::clock_mask()).with_clock_disabled(Q::clock_mask())
            == before.with_clock_disabled(Q::clock_mask()).with_clock_disabled(P::clock_mask()),
        before.with_clock_enabled(P::clock_mask()).with_clock_disabled(Q::clock_mask())
            == before.with_clock_disabled(Q::clock_mask()).with_clock_enabled(P::clock_mask()),
{
    lemma_disjoint_masks_independent(before.sysahbclkctrl, P::clock_mask(), Q::clock_mask());
}

/// The tokens that every chip has stand for one bit each, and no two of them
/// for the same bit of a register: their holders are independent.
pub proof fn shared_tokens_are_distinct_bits()
    ensures
        <ROM as ClockControl>::clock_mask() == 1u32 << 1,
        <RAM0_1 as ClockControl>::clock_mask() == 1u32 << 2,
        <FLASH as ClockControl>::clock_mask() == 1u32 << 4,
        <MTB as ClockControl>::clock_mask() == 1u32 << 26,
        <FLASH as AnalogBlock>::power_mask() == 1u32 << 2,
        <BOD as AnalogBlock>::power_mask() == 1u32 << 3,
        <SYSOSC as AnalogBlock>::power_mask() == 1u32 << 5,
        <SYSPLL as AnalogBlock>::power_mask() == 1u32 << 7,
{
    assert(0x0000_0002u32 == 1u32 << 1 && 0x0000_0004u32 == 1u32 << 2 && 0x0000_0010u32 == 1u32
        << 4 && 0x0400_0000u32 == 1u32 << 26 && 0x0000_0008u32 == 1u32 << 3 && 0x0000_0020u32
        == 1u32 << 5 && 0x0000_0080u32 == 1u32 << 7) by (bit_vector);
}

/// Reset is active low: asserting the reset of a peripheral clears its bits,
/// clearing the reset sets them, and neither changes another bit of any
/// register. Asserting and then clearing the reset leaves the bits set, which
/// restores registers in which the peripheral was running.
pub proof fn reset_is_active_low<P: ResetControl>(before: Registers)
    ensures
        all_clear(before.with_reset_asserted(P::reset_mask()).presetctrl, P::reset_mask()),
        all_set(before.with_reset_cleared(P::reset_mask()).presetctrl, P::reset_mask()),
        changed(
            before.presetctrl,
            before.with_reset_asserted(P::reset_mask()).presetctrl,
        ) & !P::reset_mask() == 0,
        changed(
            before.presetctrl,
            before.with_reset_cleared(P::reset_mask()).presetctrl,
        ) & !P::reset_mask() == 0,
        before.with_reset_asserted(P::reset_mask()).with_reset_cleared(P::reset_mask())
            == before.with_reset_cleared(P::reset_mask()),
        before.with_reset_cleared(P::reset_mask()).with_reset_asserted(P::reset_mask())
            == before.with_reset_asserted(P::reset_mask()),
        all_set(before.presetctrl, P::reset_mask()) ==> before.with_reset_asserted(
            P::reset_mask(),
        ).with_reset_cleared(P::reset_mask()) == before,
        before.with_reset_asserted(P::reset_mask()).pdruncfg == before.pdruncfg,
        before.with_reset_asserted(P::reset_mask()).starterp1 == before.starterp1,
        before.with_reset_asserted(P::reset_mask()).sysahbclkctrl == before.sysahbclkctrl,
        before.with_reset_cleared(P::reset_mask()).pdruncfg == before.pdruncfg,
        before.with_reset_cleared(P::reset_mask()).starterp1 == before.starterp1,
        before.with_reset_cleared(P::reset_mask()).sysahbclkctrl == before.sysahbclkctrl,
{
    lemma_set_exact(before.presetctrl, P::reset_mask());
    lemma_clear_exact(before.presetctrl, P::reset_mask());
    lemma_last_wins(before.presetctrl, P::reset_mask());
}

/// Power-down is active high: powering a block up clears its bits, powering
/// it down sets them, and neither changes another bit of any register.
/// Powering a block down and up again leaves the bits clear, which restores
/// registers in which the block had power.
pub proof fn power_down_is_active_high<P: AnalogBlock>(before: Registers)
    ensures
        all_clear(before.with_power_up(P::power_mask()).pdruncfg, P::power_mask()),
        all_set(before.with_power_down(P::power_mask()).pdruncfg, P::power_mask()),
        changed(before.pdruncfg, before.with_power_up(P::power_mask()).pdruncfg)
            & !P::power_mask() == 0,
        changed(before.pdruncfg, before.with_power_down(P::power_mask()).pdruncfg)
            & !P::power_mask() == 0,
        before.with_power_down(P::power_mask()).with_power_up(P::power_mask())
            == before.with_power_up(P::power_mask()),
        before.with_power_up(P::power_mask()).with_power_down(P::power_mask())
            == before.with_power_down(P::power_mask()),
        all_clear(before.pdruncfg, P::power_mask()) ==> before.with_power_down(
            P::power_mask(),
        ).with_power_up(P::power_mask()) == before,
        before.with_power_up(P::power_mask()).presetctrl == before.presetctrl,
        before.with_power_up(P::power_mask()).starterp1 == before.starterp1,
        before.with_power_up(P::power_mask()).sysahbclkctrl == before.sysahbclkctrl,
        before.with_power_down(P::power_mask()).presetctrl == before.presetctrl,
        before.with_power_down(P::power_mask()).starterp1 == before.starterp1,
        before.with_power_down(P::power_mask()).sysahbclkctrl == before.sysahbclkctrl,
{
    lemma_set_exact(before.pdruncfg, P::power_mask());
    lemma_clear_exact(before.pdruncfg, P::power_mask());
    lemma_last_wins(before.pdruncfg, P::power_mask());
}

/// Enabling or disabling the wake-up of an interrupt changes the bits of its
/// selector and no other bit of any register: enabling leaves them set,
/// disabling leaves them clear.
pub proof fn wakeup_changes_its_mask_only<I: WakeUpInterrupt>(before: Registers)
    ensures
        all_set(before.with_wakeup_enabled(I::wakeup_mask()).starterp1, I::wakeup_mask()),
        all_clear(before.with_wakeup_disabled(I::wakeup_mask()).starterp1, I::wakeup_mask()),
        changed(before.starterp1, before.with_wakeup_enabled(I::wakeup_mask()).starterp1)
            & !I::wakeup_mask() == 0,
        changed(before.starterp1, before.with_wakeup_disabled(I::wakeup_mask()).starterp1)
            & !I::wakeup_mask() == 0,
        all_clear(before.starterp1, I::wakeup_mask()) ==> changed(
            before.starterp1,
            before.with_wakeup_enabled(I::wakeup_mask()).starterp1,
        ) == I::wakeup_mask(),
        all_set(before.starterp1, I::wakeup_mask()) ==> changed(
            before.starterp1,
            before.with_wakeup_disabled(I::wakeup_mask()).starterp1,
        ) == I::wakeup_mask(),
        before.with_wakeup_enabled(I::wakeup_mask()).pdruncfg == before.pdruncfg,
        before.with_wakeup_enabled(I::wakeup_mask()).presetctrl == before.presetctrl,
        before.with_wakeup_enabled(I::wakeup_mask()).sysahbclkctrl == before.sysahbclkctrl,
        before.with_wakeup_disabled(I::wakeup_mask()).pdruncfg == before.pdruncfg,
        before.with_wakeup_disabled(I::wakeup_mask()).presetctrl == before.presetctrl,
        before.with_wakeup_disabled(I::wakeup_mask()).sysahbclkctrl == before.sysahbclkctrl,
{
    lemma_set_exact(before.starterp1, I::wakeup_mask());
    lemma_clear_exact(before.starterp1, I::wakeup_mask());
}

/// Each wake-up selector stands for one bit, and no two for the same.
pub proof fn wakeup_selectors_are_distinct_bits()
    ensures
        Spi0Wakeup::wakeup_mask() == 1u32 << 0,
        Spi1Wakeup::wakeup_mask() == 1u32 << 1,
        Usart0Wakeup::wakeup_mask() == 1u32 << 3,
        Usart1Wakeup::wakeup_mask() == 1u32 << 4,
        Usart2Wakeup::wakeup_mask() == 1u32 << 5,
        I2c1Wakeup::wakeup_mask() == 1u32 << 7,
        I2c0Wakeup::wakeup_mask() == 1u32 << 8,
        WwdtWakeup::wakeup_mask() == 1u32 << 12,
        BodWakeup::wakeup_mask() == 1u32 << 13,
        WktWakeup::wakeup_mask() == 1u32 << 15,
        I2c2Wakeup::wakeup_mask() == 1u32 << 21,
        I2c3Wakeup::wakeup_mask() == 1u32 << 22,
{
    assert(0x0000_0001u32 == 1u32 << 0 && 0x0000_0002u32 == 1u32 << 1 && 0x0000_0008u32 == 1u32
        << 3 && 0x0000_0010u32 == 1u32 << 4 && 0x0000_0020u32 == 1u32 << 5 && 0x0000_0080u32
        == 1u32 << 7 && 0x0000_0100u32 == 1u32 << 8 && 0x0000_1000u32 == 1u32 << 12
        && 0x0000_2000u32 == 1u32 << 13 && 0x0000_8000u32 == 1u32 << 15 && 0x0020_0000u32
        == 1u32 << 21 && 0x0040_0000u32 == 1u32 << 22) by (bit_vector);
}

/// A derived clock runs at 750 kHz, whatever its state: enabling it does not
/// change what its frequency accessor returns.
pub proof fn derived_clock_keeps_its_frequency(
    irc_before: IrcDerivedClock<Disabled>,
    irc_after: IrcDerivedClock<Enabled>,
    fro_before: FroDerivedClock<Disabled>,
    fro_after: FroDerivedClock<Enabled>,
)
    ensures
        irc_before.frequency() == 750_000,
        irc_after.frequency() == irc_before.frequency(),
        fro_before.frequency() == 750_000,
        fro_after.frequency() == fro_before.frequency(),
{
}

} // verus!

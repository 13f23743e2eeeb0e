use lpc8xx_syscon::clock::Frequency;
use lpc8xx_syscon::lpc82x::peripherals::{
    Peripherals, ACOMP, ADC0, CRC, DMA0, FLASH_CTRL, GPIO, I2C0, I2C1, I2C2, I2C3, IOCON, MRT0,
    SCT0, SPI0, SPI1, SWM0, USART0, USART1, USART2, WKT, WWDT,
};
use lpc8xx_syscon::lpc82x::syscon::{
    FrgRegisters, IrcDerivedClock, Parts, RegisterBlock, IRC, IRCOUT, SYSCON, UARTFRG,
};
use lpc8xx_syscon::register::ShadowRegister;
use lpc8xx_syscon::syscon::{AnalogBlock, ClockControl, Registers, ResetControl};

fn block(
    pdruncfg: u32,
    presetctrl: u32,
    starterp1: u32,
    sysahbclkctrl: u32,
) -> RegisterBlock<ShadowRegister> {
    RegisterBlock {
        pdruncfg: ShadowRegister::new(pdruncfg),
        presetctrl: ShadowRegister::new(presetctrl),
        starterp1: ShadowRegister::new(starterp1),
        sysahbclkctrl: ShadowRegister::new(sysahbclkctrl),
        uartclkdiv: ShadowRegister::new(0),
        uartfrgdiv: ShadowRegister::new(0),
        uartfrgmult: ShadowRegister::new(0),
    }
}

fn split(
    pdruncfg: u32,
    presetctrl: u32,
    starterp1: u32,
    sysahbclkctrl: u32,
) -> Parts<ShadowRegister> {
    SYSCON::new(block(pdruncfg, presetctrl, starterp1, sysahbclkctrl)).split()
}

#[test]
fn lpc82x_split_hands_the_registers_to_the_handle_untouched() {
    let parts = split(0x0000_edf0, 0x2101_dfff, 0x0000_0100, 0x0000_00df);
    assert_eq!(
        parts.handle.registers(),
        Registers {
            pdruncfg: 0x0000_edf0,
            presetctrl: 0x2101_dfff,
            starterp1: 0x0000_0100,
            sysahbclkctrl: 0x0000_00df,
        }
    );
}

#[test]
fn lpc82x_split_hands_the_generator_registers_to_uartfrg_untouched() {
    let mut raw = block(0, 0, 0, 0);
    raw.uartclkdiv = ShadowRegister::new(1);
    raw.uartfrgdiv = ShadowRegister::new(0xff);
    raw.uartfrgmult = ShadowRegister::new(0x20);
    let parts = SYSCON::new(raw).split();
    assert_eq!(
        parts.uartfrg.registers(),
        FrgRegisters { uartclkdiv: 1, uartfrgdiv: 0xff, uartfrgmult: 0x20 }
    );
}

#[test]
fn lpc82x_split_issues_a_token_for_every_resource() {
    let mut parts = split(0xffff_ffff, 0, 0, 0);
    parts.handle.enable_clock(&parts.rom);
    parts.handle.enable_clock(&parts.ram0_1);
    parts.handle.enable_clock(&parts.flash);
    parts.handle.enable_clock(&parts.mtb);
    parts.handle.power_up(&parts.ircout);
    parts.handle.power_up(&parts.irc);
    parts.handle.power_up(&parts.flash);
    parts.handle.power_up(&parts.bod);
    parts.handle.power_up(&parts.sysosc);
    parts.handle.power_up(&parts.syspll);
    parts.handle.clear_reset(&parts.uartfrg);
    assert_eq!(
        parts.handle.registers(),
        Registers {
            pdruncfg: 0xffff_ff50,
            presetctrl: 0x0000_0004,
            starterp1: 0,
            sysahbclkctrl: 0x0400_0016,
        }
    );
    assert_eq!(parts.irc_derived_clock.hz(), 750_000);
}

#[test]
fn lpc82x_free_returns_the_register_block_untouched() {
    let raw = SYSCON::new(block(1, 2, 3, 4)).free();
    assert_eq!(raw.pdruncfg.bits, 1);
    assert_eq!(raw.presetctrl.bits, 2);
    assert_eq!(raw.starterp1.bits, 3);
    assert_eq!(raw.sysahbclkctrl.bits, 4);
    assert_eq!(raw.uartclkdiv.bits, 0);
    assert_eq!(raw.uartfrgdiv.bits, 0);
    assert_eq!(raw.uartfrgmult.bits, 0);
}

#[test]
fn lpc82x_a_freed_block_can_be_taken_again() {
    let raw = SYSCON::new(block(0, 0, 0, 0x10)).free();
    let mut parts = SYSCON::new(raw).split();
    parts.handle.disable_clock(&parts.flash);
    assert_eq!(parts.handle.registers().sysahbclkctrl, 0);
}

#[test]
fn uartfrg_setters_write_the_value_to_their_register_alone() {
    let mut parts = split(0, 0, 0, 0);
    parts.uartfrg.set_clkdiv(1);
    assert_eq!(
        parts.uartfrg.registers(),
        FrgRegisters { uartclkdiv: 1, uartfrgdiv: 0, uartfrgmult: 0 }
    );
    parts.uartfrg.set_frgdiv(0xff);
    assert_eq!(
        parts.uartfrg.registers(),
        FrgRegisters { uartclkdiv: 1, uartfrgdiv: 0xff, uartfrgmult: 0 }
    );
    parts.uartfrg.set_frgmult(0x16);
    assert_eq!(
        parts.uartfrg.registers(),
        FrgRegisters { uartclkdiv: 1, uartfrgdiv: 0xff, uartfrgmult: 0x16 }
    );
    assert_eq!(
        parts.handle.registers(),
        Registers { pdruncfg: 0, presetctrl: 0, starterp1: 0, sysahbclkctrl: 0 }
    );
}

#[test]
fn uartfrg_setters_overwrite_the_whole_register() {
    let mut raw = block(0, 0, 0, 0);
    raw.uartclkdiv = ShadowRegister::new(0xffff_ffff);
    raw.uartfrgdiv = ShadowRegister::new(0xffff_ffff);
    raw.uartfrgmult = ShadowRegister::new(0xffff_ffff);
    let mut parts = SYSCON::new(raw).split();
    parts.uartfrg.set_clkdiv(0);
    parts.uartfrg.set_frgdiv(0x80);
    parts.uartfrg.set_frgmult(255);
    assert_eq!(
        parts.uartfrg.registers(),
        FrgRegisters { uartclkdiv: 0, uartfrgdiv: 0x80, uartfrgmult: 255 }
    );
}

#[test]
fn uartfrg_reset_is_bit_2() {
    assert_eq!(<UARTFRG<ShadowRegister> as ResetControl>::reset_bits(), 1 << 2);
    let mut parts = split(0, 0xffff_ffff, 0, 0);
    parts.handle.assert_reset(&parts.uartfrg);
    assert_eq!(parts.handle.registers().presetctrl, 0xffff_fffb);
    parts.handle.clear_reset(&parts.uartfrg);
    assert_eq!(parts.handle.registers().presetctrl, 0xffff_ffff);
}

#[test]
fn irc_derived_clock_runs_at_750_khz_before_and_after_enable() {
    let mut parts = split(0x0000_edf3, 0, 0, 0);
    let disabled = IrcDerivedClock::disabled();
    assert_eq!(disabled.hz(), 750_000);
    let enabled = disabled.enable(&mut parts.handle, parts.irc, parts.ircout);
    assert_eq!(enabled.hz(), 750_000);
}

#[test]
fn irc_derived_clock_enable_powers_oscillator_and_output() {
    let mut parts = split(0x0000_edf3, 0x11, 0x22, 0x33);
    let _enabled = IrcDerivedClock::disabled().enable(&mut parts.handle, parts.irc, parts.ircout);
    assert_eq!(
        parts.handle.registers(),
        Registers { pdruncfg: 0x0000_edf0, presetctrl: 0x11, starterp1: 0x22, sysahbclkctrl: 0x33 }
    );
}

#[test]
fn irc_derived_clock_enable_leaves_powered_blocks_powered() {
    let mut parts = split(0x0000_edf0, 0, 0, 0);
    let _enabled = IrcDerivedClock::disabled().enable(&mut parts.handle, parts.irc, parts.ircout);
    assert_eq!(parts.handle.registers().pdruncfg, 0x0000_edf0);
}

#[test]
fn lpc82x_masks_of_the_oscillator_tokens() {
    assert_eq!(IRCOUT::power_bits(), 1 << 0);
    assert_eq!(IRC::power_bits(), 1 << 1);
}

#[test]
fn lpc82x_clock_masks_of_the_peripherals() {
    assert_eq!(FLASH_CTRL::clock_bits(), 1 << 3);
    assert_eq!(I2C0::clock_bits(), 1 << 5);
    assert_eq!(GPIO::clock_bits(), 1 << 6);
    assert_eq!(SWM0::clock_bits(), 1 << 7);
    assert_eq!(SCT0::clock_bits(), 1 << 8);
    assert_eq!(WKT::clock_bits(), 1 << 9);
    assert_eq!(MRT0::clock_bits(), 1 << 10);
    assert_eq!(SPI0::clock_bits(), 1 << 11);
    assert_eq!(SPI1::clock_bits(), 1 << 12);
    assert_eq!(CRC::clock_bits(), 1 << 13);
    assert_eq!(USART0::clock_bits(), 1 << 14);
    assert_eq!(USART1::clock_bits(), 1 << 15);
    assert_eq!(USART2::clock_bits(), 1 << 16);
    assert_eq!(WWDT::clock_bits(), 1 << 17);
    assert_eq!(IOCON::clock_bits(), 1 << 18);
    assert_eq!(ACOMP::clock_bits(), 1 << 19);
    assert_eq!(I2C1::clock_bits(), 1 << 21);
    assert_eq!(I2C2::clock_bits(), 1 << 22);
    assert_eq!(I2C3::clock_bits(), 1 << 23);
    assert_eq!(ADC0::clock_bits(), 1 << 24);
    assert_eq!(DMA0::clock_bits(), 1 << 29);
}

#[test]
fn lpc82x_reset_masks_of_the_peripherals() {
    assert_eq!(SPI0::reset_bits(), 1 << 0);
    assert_eq!(SPI1::reset_bits(), 1 << 1);
    assert_eq!(USART0::reset_bits(), 1 << 3);
    assert_eq!(USART1::reset_bits(), 1 << 4);
    assert_eq!(USART2::reset_bits(), 1 << 5);
    assert_eq!(I2C0::reset_bits(), 1 << 6);
    assert_eq!(MRT0::reset_bits(), 1 << 7);
    assert_eq!(SCT0::reset_bits(), 1 << 8);
    assert_eq!(WKT::reset_bits(), 1 << 9);
    assert_eq!(GPIO::reset_bits(), 1 << 10);
    assert_eq!(FLASH_CTRL::reset_bits(), 1 << 11);
    assert_eq!(ACOMP::reset_bits(), 1 << 12);
    assert_eq!(I2C1::reset_bits(), 1 << 14);
    assert_eq!(I2C2::reset_bits(), 1 << 15);
    assert_eq!(I2C3::reset_bits(), 1 << 16);
    assert_eq!(ADC0::reset_bits(), 1 << 24);
    assert_eq!(DMA0::reset_bits(), 1 << 29);
}

#[test]
fn lpc82x_power_masks_of_the_peripherals() {
    assert_eq!(ADC0::power_bits(), 1 << 4);
    assert_eq!(WWDT::power_bits(), 1 << 6);
    assert_eq!(ACOMP::power_bits(), 1 << 15);
}

#[test]
fn lpc82x_assert_reset_clears_the_bit_and_clear_reset_sets_it() {
    let p = Peripherals::new();
    let mut parts = split(0x55, 0x2101_dfff, 0x66, 0x77);
    parts.handle.assert_reset(&p.spi0);
    assert_eq!(
        parts.handle.registers(),
        Registers { pdruncfg: 0x55, presetctrl: 0x2101_dffe, starterp1: 0x66, sysahbclkctrl: 0x77 }
    );
    parts.handle.clear_reset(&p.spi0);
    assert_eq!(
        parts.handle.registers(),
        Registers { pdruncfg: 0x55, presetctrl: 0x2101_dfff, starterp1: 0x66, sysahbclkctrl: 0x77 }
    );
}

#[test]
fn lpc82x_clear_reset_then_assert_reset_leaves_the_peripheral_in_reset() {
    let p = Peripherals::new();
    let mut parts = split(0, 0, 0, 0);
    parts.handle.clear_reset(&p.dma0);
    assert_eq!(parts.handle.registers().presetctrl, 0x2000_0000);
    parts.handle.assert_reset(&p.dma0);
    assert_eq!(parts.handle.registers().presetctrl, 0);
    parts.handle.assert_reset(&p.dma0);
    assert_eq!(parts.handle.registers().presetctrl, 0);
}

#[test]
fn lpc82x_a_peripheral_uses_its_own_bit_in_each_register() {
    let p = Peripherals::new();
    let mut parts = split(0xffff_ffff, 0, 0, 0);
    parts.handle.enable_clock(&p.adc0);
    parts.handle.clear_reset(&p.adc0);
    parts.handle.power_up(&p.adc0);
    parts.handle.enable_clock(&p.gpio);
    parts.handle.clear_reset(&p.gpio);
    assert_eq!(
        parts.handle.registers(),
        Registers {
            pdruncfg: 0xffff_ffef,
            presetctrl: 0x0100_0400,
            starterp1: 0,
            sysahbclkctrl: 0x0100_0040,
        }
    );
}

#[test]
fn lpc82x_capability_methods_of_a_peripheral_chain() {
    let p = Peripherals::new();
    let w = p.usart0.enable_clock(p.usart1.enable_clock(0));
    assert_eq!(w, 0x0000_c000);
    assert_eq!(p.usart0.disable_clock(w), 0x0000_8000);
    assert_eq!(p.i2c0.assert_reset(0xffff_ffff), 0xffff_ffbf);
    assert_eq!(p.i2c0.clear_reset(0), 0x40);
    assert_eq!(p.wwdt.power_up(0xffff_ffff), 0xffff_ffbf);
    assert_eq!(p.acomp.power_down(0), 0x8000);
}

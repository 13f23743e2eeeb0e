use lpc8xx_syscon::lpc845::clocksource::{
    ClockSel, ClockSelectRegisters, I2cClock, PeripheralClockSelector, PeripheralClockSource,
    UsartClock, FRG, FRG0, FRG1, IOSC, IOSC_HZ, SLOTS,
};
use lpc8xx_syscon::lpc845::peripherals::{
    I2C0, I2C1, I2C2, I2C3, USART0, USART1, USART2, USART3, USART4,
};
use lpc8xx_syscon::register::ShadowRegister;

fn bank(bits: u32) -> ClockSelectRegisters<ShadowRegister> {
    ClockSelectRegisters::new([
        ShadowRegister::new(bits),
        ShadowRegister::new(bits),
        ShadowRegister::new(bits),
        ShadowRegister::new(bits),
        ShadowRegister::new(bits),
        ShadowRegister::new(bits),
        ShadowRegister::new(bits),
        ShadowRegister::new(bits),
        ShadowRegister::new(bits),
        ShadowRegister::new(bits),
        ShadowRegister::new(bits),
    ])
}

#[test]
fn constants_of_the_clock_selection() {
    assert_eq!(SLOTS, 11);
    assert_eq!(IOSC_HZ, 12_000_000);
}

#[test]
fn codes_of_the_clock_sources() {
    assert_eq!(ClockSel::Fro.bits(), 0);
    assert_eq!(ClockSel::MainClk.bits(), 1);
    assert_eq!(ClockSel::Frg0Clk.bits(), 2);
    assert_eq!(ClockSel::Frg1Clk.bits(), 3);
    assert_eq!(ClockSel::FroDiv.bits(), 4);
    assert_eq!(ClockSel::NoClock.bits(), 7);
}

#[test]
fn slots_of_the_peripherals() {
    assert_eq!(USART0::register_index(), 0);
    assert_eq!(USART1::register_index(), 1);
    assert_eq!(USART2::register_index(), 2);
    assert_eq!(USART3::register_index(), 3);
    assert_eq!(USART4::register_index(), 4);
    assert_eq!(I2C0::register_index(), 5);
    assert_eq!(I2C1::register_index(), 6);
    assert_eq!(I2C2::register_index(), 7);
    assert_eq!(I2C3::register_index(), 8);
}

#[test]
fn selections_of_the_clocks() {
    assert_eq!(<FRG<FRG0> as PeripheralClockSource>::selection(), ClockSel::Frg0Clk);
    assert_eq!(<FRG<FRG1> as PeripheralClockSource>::selection(), ClockSel::Frg1Clk);
    assert_eq!(IOSC::selection(), ClockSel::Fro);
}

#[test]
fn a_new_bank_shows_the_registers_as_they_were_given() {
    let b = ClockSelectRegisters::new([
        ShadowRegister::new(0),
        ShadowRegister::new(1),
        ShadowRegister::new(2),
        ShadowRegister::new(3),
        ShadowRegister::new(4),
        ShadowRegister::new(5),
        ShadowRegister::new(6),
        ShadowRegister::new(7),
        ShadowRegister::new(8),
        ShadowRegister::new(9),
        ShadowRegister::new(10),
    ]);
    assert_eq!(b.registers(), vec![0, 1, 2, 3, 4, 5, 6, 7, 8, 9, 10]);
}

#[test]
fn usart_clock_stores_the_oversampling_ratio_less_one() {
    let c = UsartClock::<(USART0, IOSC)>::new(&IOSC, 77, 16);
    assert_eq!(c.psc(), 77);
    assert_eq!(c.osrval(), 15);
    let c = UsartClock::<(USART3, FRG<FRG0>)>::new(&FRG { instance: FRG0 }, 0xffff, 5);
    assert_eq!(c.psc(), 0xffff);
    assert_eq!(c.osrval(), 4);
    let c = UsartClock::<(USART1, IOSC)>::new(&IOSC, 0, 10);
    assert_eq!(c.psc(), 0);
    assert_eq!(c.osrval(), 9);
}

#[test]
fn baudrate_115200_takes_five_samples_and_divides_by_20() {
    let c = UsartClock::<(USART0, IOSC)>::new_with_baudrate(115_200);
    assert_eq!(c.osrval(), 4);
    assert_eq!(c.psc(), 19);
    assert!(20 * 115_200 * 5 < 12_000_000);
    assert!(20 * 115_200 * 6 >= 12_000_000);
}

#[test]
fn baudrate_9600_takes_sixteen_samples_and_divides_by_78() {
    let c = UsartClock::<(USART2, IOSC)>::new_with_baudrate(9_600);
    assert_eq!(c.osrval(), 15);
    assert_eq!(c.psc(), 77);
}

#[test]
fn baudrate_takes_the_largest_ratio_that_leaves_the_margin() {
    let c = UsartClock::<(USART0, IOSC)>::new_with_baudrate(37_499);
    assert_eq!(c.osrval(), 15);
    assert_eq!(c.psc(), 19);
    let c = UsartClock::<(USART0, IOSC)>::new_with_baudrate(37_500);
    assert_eq!(c.osrval(), 14);
    assert_eq!(c.psc(), 20);
    let c = UsartClock::<(USART0, IOSC)>::new_with_baudrate(57_600);
    assert_eq!(c.osrval(), 9);
    assert_eq!(c.psc(), 19);
    let c = UsartClock::<(USART0, IOSC)>::new_with_baudrate(99_999);
    assert_eq!(c.osrval(), 5);
    assert_eq!(c.psc(), 19);
    let c = UsartClock::<(USART0, IOSC)>::new_with_baudrate(100_000);
    assert_eq!(c.osrval(), 4);
    assert_eq!(c.psc(), 23);
}

#[test]
fn baudrate_falls_back_to_five_samples_where_no_ratio_leaves_the_margin() {
    let c = UsartClock::<(USART0, IOSC)>::new_with_baudrate(120_000);
    assert_eq!(c.osrval(), 4);
    assert_eq!(c.psc(), 19);
    let c = UsartClock::<(USART0, IOSC)>::new_with_baudrate(1_000_000);
    assert_eq!(c.osrval(), 4);
    assert_eq!(c.psc(), 1);
}

#[test]
fn baudrate_at_the_ends_of_its_range() {
    let c = UsartClock::<(USART4, IOSC)>::new_with_baudrate(12);
    assert_eq!(c.osrval(), 15);
    assert_eq!(c.psc(), 62_499);
    let c = UsartClock::<(USART4, IOSC)>::new_with_baudrate(2_400_000);
    assert_eq!(c.osrval(), 4);
    assert_eq!(c.psc(), 0);
}

#[test]
fn i2c_clock_stores_the_scl_times_less_two() {
    let c = I2cClock::<(I2C0, IOSC)>::new(&IOSC, 5, 2, 3);
    assert_eq!(c.divval(), 5);
    assert_eq!(c.mstsclhigh(), 0);
    assert_eq!(c.mstscllow(), 1);
    let c = I2cClock::<(I2C3, FRG<FRG1>)>::new(&FRG { instance: FRG1 }, 0xffff, 9, 2);
    assert_eq!(c.divval(), 0xffff);
    assert_eq!(c.mstsclhigh(), 7);
    assert_eq!(c.mstscllow(), 0);
    let c = I2cClock::<(I2C1, IOSC)>::new(&IOSC, 0, 4, 9);
    assert_eq!(c.divval(), 0);
    assert_eq!(c.mstsclhigh(), 2);
    assert_eq!(c.mstscllow(), 7);
}

#[test]
fn i2c_clock_for_400_khz() {
    let c = I2cClock::<(I2C0, IOSC)>::new_400khz();
    assert_eq!(c.divval(), 5);
    assert_eq!(c.mstsclhigh(), 0);
    assert_eq!(c.mstscllow(), 1);
}

#[test]
fn i2c_clock_for_400_khz_is_what_raw_times_2_and_3_give() {
    let preset = I2cClock::<(I2C2, IOSC)>::new_400khz();
    let by_hand = I2cClock::<(I2C2, IOSC)>::new(&IOSC, 5, 2, 3);
    assert_eq!(preset.divval(), by_hand.divval());
    assert_eq!(preset.mstsclhigh(), by_hand.mstsclhigh());
    assert_eq!(preset.mstscllow(), by_hand.mstscllow());
}

#[test]
fn usart_select_clock_writes_the_code_to_the_slot_of_the_usart() {
    let mut b = bank(7);
    UsartClock::<(USART0, IOSC)>::new_with_baudrate(115_200).select_clock(&mut b);
    assert_eq!(b.registers(), vec![0, 7, 7, 7, 7, 7, 7, 7, 7, 7, 7]);
    UsartClock::<(USART4, FRG<FRG0>)>::new(&FRG { instance: FRG0 }, 0, 16).select_clock(&mut b);
    assert_eq!(b.registers(), vec![0, 7, 7, 7, 2, 7, 7, 7, 7, 7, 7]);
    UsartClock::<(USART2, FRG<FRG1>)>::new(&FRG { instance: FRG1 }, 0, 16).select_clock(&mut b);
    assert_eq!(b.registers(), vec![0, 7, 3, 7, 2, 7, 7, 7, 7, 7, 7]);
}

#[test]
fn i2c_select_clock_writes_the_code_to_the_slot_of_the_i2c() {
    let mut b = bank(7);
    I2cClock::<(I2C0, IOSC)>::new_400khz().select_clock(&mut b);
    assert_eq!(b.registers(), vec![7, 7, 7, 7, 7, 0, 7, 7, 7, 7, 7]);
    I2cClock::<(I2C3, FRG<FRG1>)>::new(&FRG { instance: FRG1 }, 1, 2, 2).select_clock(&mut b);
    assert_eq!(b.registers(), vec![7, 7, 7, 7, 7, 0, 7, 7, 3, 7, 7]);
    I2cClock::<(I2C1, FRG<FRG0>)>::new(&FRG { instance: FRG0 }, 1, 2, 2).select_clock(&mut b);
    assert_eq!(b.registers(), vec![7, 7, 7, 7, 7, 0, 2, 7, 3, 7, 7]);
    I2cClock::<(I2C2, IOSC)>::new_400khz().select_clock(&mut b);
    assert_eq!(b.registers(), vec![7, 7, 7, 7, 7, 0, 2, 0, 3, 7, 7]);
}

#[test]
fn select_clock_overwrites_the_whole_slot() {
    let mut b = bank(0xffff_ffff);
    UsartClock::<(USART1, FRG<FRG0>)>::new(&FRG { instance: FRG0 }, 0, 5).select_clock(&mut b);
    assert_eq!(b.registers()[1], 2);
    assert_eq!(b.registers()[0], 0xffff_ffff);
    assert_eq!(b.registers()[2], 0xffff_ffff);
}

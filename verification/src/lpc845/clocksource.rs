//! Clock sources of the serial peripherals of the LPC845.
//!
//! Each USART and each I2C has a slot in a bank of select registers, and each
//! clock source has a code. A clock configuration ties a peripheral to a
//! source, carries the dividers that the peripheral is to work with, and
//! routes the source to the peripheral by writing the code into the slot.

use core::marker::PhantomData;
use vstd::prelude::*;
use vstd::arithmetic::div_mod::lemma_fundamental_div_mod;
use vstd::pervasive::runtime_assert;
use crate::lpc845::peripherals::{I2C0, I2C1, I2C2, I2C3, USART0, USART1, USART2, USART3, USART4};
use crate::register::RegisterWindow;

verus! {

/// The number of slots in the bank of select registers.
pub const SLOTS: usize = 11;

/// The rate of the internal oscillator that the baud-rate search assumes, in
/// Hertz.
pub const IOSC_HZ: u32 = 12_000_000;

/// A source of a peripheral clock.
#[derive(Clone, Copy, Debug, PartialEq, Eq, Structural)]
pub enum ClockSel {
    /// The free-running oscillator.
    Fro,
    /// The main clock.
    MainClk,
    /// The first fractional rate generator.
    Frg0Clk,
    /// The second fractional rate generator.
    Frg1Clk,
    /// The free-running oscillator, divided.
    FroDiv,
    /// No clock.
    NoClock,
}

impl ClockSel {
    /// The code of the source in a select register.
    pub open spec fn code(self) -> u32 {
        match self {
            ClockSel::Fro => 0,
            ClockSel::MainClk => 1,
            ClockSel::Frg0Clk => 2,
            ClockSel::Frg1Clk => 3,
            ClockSel::FroDiv => 4,
            ClockSel::NoClock => 7,
        }
    }

    /// The code of the source in a select register.
    pub fn bits(self) -> (code: u32)
        ensures
            code == self.code(),
    {
        match self {
            ClockSel::Fro => 0,
            ClockSel::MainClk => 1,
            ClockSel::Frg0Clk => 2,
            ClockSel::Frg1Clk => 3,
            ClockSel::FroDiv => 4,
            ClockSel::NoClock => 7,
        }
    }
}

/// A peripheral that has a slot in the bank of select registers.
pub trait PeripheralClockSelector {
    /// The index of the slot.
    spec fn register_num() -> usize;

    /// The index of the slot, which lies within the bank.
    fn register_index() -> (index: usize)
        ensures
            index == Self::register_num(),
            index < SLOTS,
    ;
}

/// A clock that can be routed to a peripheral.
pub trait PeripheralClockSource {
    /// The source that selects this clock.
    spec fn clock() -> ClockSel;

    /// The source that selects this clock.
    fn selection() -> (sel: ClockSel)
        ensures
            sel == Self::clock(),
    ;
}

impl PeripheralClockSelector for USART0 {
    open spec fn register_num() -> usize {
        0
    }

    fn register_index() -> (index: usize) {
        0
    }
}

impl PeripheralClockSelector for USART1 {
    open spec fn register_num() -> usize {
        1
    }

    fn register_index() -> (index: usize) {
        1
    }
}

impl PeripheralClockSelector for USART2 {
    open spec fn register_num() -> usize {
        2
    }

    fn register_index() -> (index: usize) {
        2
    }
}

impl PeripheralClockSelector for USART3 {
    open spec fn register_num() -> usize {
        3
    }

    fn register_index() -> (index: usize) {
        3
    }
}

impl PeripheralClockSelector for USART4 {
    open spec fn register_num() -> usize {
        4
    }

    fn register_index() -> (index: usize) {
        4
    }
}

impl PeripheralClockSelector for I2C0 {
    open spec fn register_num() -> usize {
        5
    }

    fn register_index() -> (index: usize) {
        5
    }
}

impl PeripheralClockSelector for I2C1 {
    open spec fn register_num() -> usize {
        6
    }

    fn register_index() -> (index: usize) {
        6
    }
}

impl PeripheralClockSelector for I2C2 {
    open spec fn register_num() -> usize {
        7
    }

    fn register_index() -> (index: usize) {
        7
    }
}

impl PeripheralClockSelector for I2C3 {
    open spec fn register_num() -> usize {
        8
    }

    fn register_index() -> (index: usize) {
        8
    }
}

/// A USART, the one kind of peripheral that a [`UsartClock`] can be made for.
pub trait UsartInstance: PeripheralClockSelector {
}

impl UsartInstance for USART0 {
}

impl UsartInstance for USART1 {
}

impl UsartInstance for USART2 {
}

impl UsartInstance for USART3 {
}

impl UsartInstance for USART4 {
}

/// The internal oscillator.
pub struct IOSC;

/// Names the first fractional rate generator.
pub struct FRG0;

/// Names the second fractional rate generator.
pub struct FRG1;

/// A fractional rate generator.
pub struct FRG<I> {
    /// Which of the generators this is.
    pub instance: I,
}

impl PeripheralClockSource for FRG<FRG0> {
    open spec fn clock() -> ClockSel {
        ClockSel::Frg0Clk
    }

    fn selection() -> (sel: ClockSel) {
        ClockSel::Frg0Clk
    }
}

impl PeripheralClockSource for FRG<FRG1> {
    open spec fn clock() -> ClockSel {
        ClockSel::Frg1Clk
    }

    fn selection() -> (sel: ClockSel) {
        ClockSel::Frg1Clk
    }
}

impl PeripheralClockSource for IOSC {
    open spec fn clock() -> ClockSel {
        ClockSel::Fro
    }

    fn selection() -> (sel: ClockSel) {
        ClockSel::Fro
    }
}

/// The bank of select registers, one slot for each serial peripheral.
pub struct ClockSelectRegisters<R: RegisterWindow> {
    fclksel: [R; SLOTS],
}

impl<R: RegisterWindow> View for ClockSelectRegisters<R> {
    type V = Seq<u32>;

    closed spec fn view(&self) -> Seq<u32> {
        Seq::new(SLOTS as nat, |i: int| self.fclksel[i].bits())
    }
}

impl<R: RegisterWindow> ClockSelectRegisters<R> {
    /// Takes the windows of the bank into possession, in the order of the
    /// slots. Nothing is written to any register.
    pub fn new(fclksel: [R; SLOTS]) -> (bank: Self)
        ensures
            bank@ == Seq::new(SLOTS as nat, |i: int| fclksel[i].bits()),
    {
        ClockSelectRegisters { fclksel }
    }

    /// Writes the code of `sel` to the slot at `index`.
    ///
    /// The write sets the rest of the register to zero, as the hardware has
    /// no other field in it.
    fn select(&mut self, index: usize, sel: ClockSel)
        requires
            index < SLOTS,
        ensures
            final(self)@ == old(self)@.update(index as int, sel.code()),
    {
        let code: u32 = sel.bits();
        self.fclksel[index].write(code);
        assert(self@ =~= old(self)@.update(index as int, sel.code()));
    }

    /// Reads the bank back, slot by slot.
    pub fn registers(&self) -> (values: Vec<u32>)
        ensures
            values@ == self@,
    {
        let mut values: Vec<u32> = Vec::new();
        let mut i: usize = 0;
        while i < SLOTS
            invariant
                i <= SLOTS,
                values@.len() == i,
                forall|k: int| 0 <= k < i ==> values@[k] == self@[k],
            decreases SLOTS - i,
        {
            let bits: u32 = self.fclksel[i].read();
            values.push(bits);
            i = i + 1;
        }
        assert(values@ =~= self@);
        values
    }
}

/// What a [`UsartClock`] holds.
#[derive(Clone, Copy, Debug, PartialEq, Eq, Structural)]
pub struct UsartDividers {
    /// The divider of the baud rate generator, less one.
    pub psc: u16,
    /// The oversampling ratio, less one.
    pub osrval: u8,
}

/// The clock configuration of a USART.
pub struct UsartClock<PeriphClock> {
    psc: u16,
    osrval: u8,
    _periphclock: PhantomData<PeriphClock>,
}

/// Whether a USART can sample a bit `ratio` times at `baudrate` with a clock
/// of [`IOSC_HZ`], with a margin of one in twenty.
pub open spec fn oversampling_fits(baudrate: u32, ratio: int) -> bool {
    20 * baudrate * ratio < IOSC_HZ
}

/// Whether `ratio` is the oversampling ratio for `baudrate`: the largest
/// ratio from 5 to 16 that fits, or 5 where none fits.
pub open spec fn is_oversampling_ratio(baudrate: u32, ratio: int) -> bool {
    &&& 5 <= ratio <= 16
    &&& ratio > 5 ==> oversampling_fits(baudrate, ratio)
    &&& forall|larger: int| ratio < larger <= 16 ==> !oversampling_fits(baudrate, larger)
}

/// The oversampling ratio for `baudrate`, in closed form: the margin holds
/// for the ratios up to the quotient below, and the ratio is that quotient
/// brought into the range from 5 to 16.
pub open spec fn oversampling_ratio(baudrate: u32) -> int {
    let limit: int = (IOSC_HZ - 1) / (20 * baudrate);
    if limit >= 16 {
        16
    } else if limit >= 5 {
        limit
    } else {
        5
    }
}

/// The divider that brings [`IOSC_HZ`] down to `ratio` samples for each bit at
/// `baudrate`, less one, as the hardware wants it.
pub open spec fn baud_divider(baudrate: u32, ratio: int) -> int {
    (IOSC_HZ as int) / (baudrate * ratio) - 1
}

impl<PeriphClock> View for UsartClock<PeriphClock> {
    type V = UsartDividers;

    closed spec fn view(&self) -> UsartDividers {
        UsartDividers { psc: self.psc, osrval: self.osrval }
    }
}

impl<PeriphClock> UsartClock<PeriphClock> {
    /// Whether the configuration holds an oversampling ratio that the
    /// hardware accepts: 5 to 16, stored less one.
    pub open spec fn wf(&self) -> bool {
        4 <= self@.osrval <= 15
    }

    /// The divider of the baud rate generator, less one.
    pub fn psc(&self) -> (psc: u16)
        ensures
            psc == self@.psc,
    {
        self.psc
    }

    /// The oversampling ratio, less one.
    pub fn osrval(&self) -> (osrval: u8)
        ensures
            osrval == self@.osrval,
    {
        self.osrval
    }
}

impl<PERIPH: UsartInstance, CLOCK: PeripheralClockSource> UsartClock<(PERIPH, CLOCK)> {
    /// Creates the clock configuration of a USART.
    ///
    /// `osrval` is the oversampling ratio and has to lie between 5 and 16.
    /// A caller that Verus has not seen is stopped at run time where it does
    /// not.
    pub fn new(_clock: &CLOCK, psc: u16, osrval: u8) -> (config: Self)
        requires
            5 <= osrval <= 16,
        ensures
            config@ == (UsartDividers { psc, osrval: (osrval - 1) as u8 }),
            config.wf(),
    {
        runtime_assert(5 <= osrval && osrval <= 16);
        UsartClock { psc, osrval: osrval - 1, _periphclock: PhantomData }
    }
}

impl<PERIPH: UsartInstance + PeripheralClockSelector> UsartClock<(PERIPH, IOSC)> {
    /// Creates the configuration for `baudrate`, for a USART that runs on the
    /// internal oscillator at [`IOSC_HZ`].
    ///
    /// The oversampling ratio is the largest from 5 to 16 that leaves a
    /// margin of one in twenty, and the divider follows from it. Below 12 baud
    /// the divider does not fit its register, and above 2.4 MBd the oscillator
    /// is too slow for five samples a bit: neither is a baud rate of this
    /// hardware. A caller that Verus has not seen is stopped at run time where
    /// it asks for one.
    pub fn new_with_baudrate(baudrate: u32) -> (config: Self)
        requires
            12 <= baudrate <= 2_400_000,
        ensures
            is_oversampling_ratio(baudrate, config@.osrval + 1),
            config@.osrval + 1 == oversampling_ratio(baudrate),
            config@.psc == baud_divider(baudrate, oversampling_ratio(baudrate)),
            config.wf(),
    {
        runtime_assert(12 <= baudrate && baudrate <= 2_400_000);
        let calc: u64 = baudrate as u64 * 20;
        let mut ratio: u64 = 16;
        while ratio > 5
            invariant
                5 <= ratio <= 16,
                calc == 20 * baudrate,
                baudrate <= 2_400_000,
                forall|larger: int| ratio < larger <= 16 ==> !oversampling_fits(baudrate, larger),
            ensures
                ratio > 5 ==> oversampling_fits(baudrate, ratio as int),
            decreases ratio,
        {
            assert(calc * ratio <= 768_000_000) by (nonlinear_arith)
                requires
                    calc <= 48_000_000,
                    ratio <= 16,
            ;
            if calc * ratio < 12_000_000 {
                break;
            }
            ratio = ratio - 1;
        }
        proof {
            lemma_divider_fits(baudrate, ratio as int);
            lemma_oversampling_ratio_is_largest(baudrate);
            lemma_oversampling_ratio_unique(baudrate, ratio as int, oversampling_ratio(baudrate));
        }
        let divider: u64 = 12_000_000 / (baudrate as u64 * ratio) - 1;
        UsartClock { psc: divider as u16, osrval: (ratio - 1) as u8, _periphclock: PhantomData }
    }
}

/// For every admissible baud rate, the samples of a second are no more than
/// the oscillator delivers, and the divider fits its 16-bit register.
pub proof fn lemma_divider_fits(baudrate: u32, ratio: int)
    requires
        12 <= baudrate <= 2_400_000,
        is_oversampling_ratio(baudrate, ratio),
    ensures
        192 <= baudrate * ratio <= IOSC_HZ,
        0 <= baud_divider(baudrate, ratio) <= u16::MAX,
{
    let product: int = baudrate * ratio;
    assert(ratio < 16 ==> !oversampling_fits(baudrate, ratio + 1));
    assert(192 <= product <= 12_000_000) by (nonlinear_arith)
        requires
            product == baudrate * ratio,
            12 <= baudrate <= 2_400_000,
            5 <= ratio <= 16,
            ratio > 5 ==> 20 * baudrate * ratio < 12_000_000,
            ratio < 16 ==> 20 * baudrate * (ratio + 1) >= 12_000_000,
    {
        if ratio < 16 {
            assert(20 * baudrate * ratio + 20 * baudrate >= 12_000_000);
        }
    }
    assert(1 <= 12_000_000int / product <= 65_536) by (nonlinear_arith)
        requires
            192 <= product <= 12_000_000,
    ;
}

/// The margin holds for a ratio just where the ratio does not exceed the
/// quotient that [`oversampling_ratio`] works with.
proof fn lemma_fits_up_to_limit(baudrate: u32, ratio: int)
    requires
        baudrate > 0,
    ensures
        oversampling_fits(baudrate, ratio) <==> ratio <= (IOSC_HZ - 1) / (20 * baudrate),
{
    let n: int = IOSC_HZ - 1;
    let d: int = 20 * baudrate;
    let q: int = n / d;
    lemma_fundamental_div_mod(n, d);
    assert(ratio <= q ==> d * ratio <= d * q) by (nonlinear_arith)
        requires
            d > 0,
    ;
    assert(ratio >= q + 1 ==> d * ratio >= d * q + d) by (nonlinear_arith)
        requires
            d > 0,
    ;
}

/// The closed form is the oversampling ratio: the largest ratio from 5 to 16
/// for which the margin holds, or 5 where it holds for none.
pub proof fn lemma_oversampling_ratio_is_largest(baudrate: u32)
    requires
        baudrate > 0,
    ensures
        is_oversampling_ratio(baudrate, oversampling_ratio(baudrate)),
{
    let ratio: int = oversampling_ratio(baudrate);
    lemma_fits_up_to_limit(baudrate, ratio);
    assert forall|larger: int| ratio < larger <= 16 implies !oversampling_fits(
        baudrate,
        larger,
    ) by {
        lemma_fits_up_to_limit(baudrate, larger);
    }
}

/// For each baud rate there is one oversampling ratio.
pub proof fn lemma_oversampling_ratio_unique(baudrate: u32, r1: int, r2: int)
    requires
        is_oversampling_ratio(baudrate, r1),
        is_oversampling_ratio(baudrate, r2),
    ensures
        r1 == r2,
{
}

impl<PERIPH: PeripheralClockSelector, CLOCK: PeripheralClockSource> UsartClock<(PERIPH, CLOCK)> {
    /// Routes the clock source of this configuration to its peripheral.
    pub fn select_clock<R: RegisterWindow>(&self, bank: &mut ClockSelectRegisters<R>)
        ensures
            final(bank)@ == old(bank)@.update(
                PERIPH::register_num() as int,
                CLOCK::clock().code(),
            ),
    {
        bank.select(PERIPH::register_index(), CLOCK::selection());
    }
}

/// What an [`I2cClock`] holds.
#[derive(Clone, Copy, Debug, PartialEq, Eq, Structural)]
pub struct I2cDividers {
    /// The clock divider.
    pub divval: u16,
    /// The clocks that SCL stays high, less two.
    pub mstsclhigh: u8,
    /// The clocks that SCL stays low, less two.
    pub mstscllow: u8,
}

/// The clock configuration of an I2C peripheral.
pub struct I2cClock<PeriphClock> {
    divval: u16,
    mstsclhigh: u8,
    mstscllow: u8,
    _periphclock: PhantomData<PeriphClock>,
}

impl<PeriphClock> View for I2cClock<PeriphClock> {
    type V = I2cDividers;

    closed spec fn view(&self) -> I2cDividers {
        I2cDividers {
            divval: self.divval,
            mstsclhigh: self.mstsclhigh,
            mstscllow: self.mstscllow,
        }
    }
}

impl<PeriphClock> I2cClock<PeriphClock> {
    /// Whether the configuration holds SCL times that the hardware accepts:
    /// 2 to 9 clocks each, stored less two.
    pub open spec fn wf(&self) -> bool {
        self@.mstsclhigh <= 7 && self@.mstscllow <= 7
    }

    /// The clock divider.
    pub fn divval(&self) -> (divval: u16)
        ensures
            divval == self@.divval,
    {
        self.divval
    }

    /// The clocks that SCL stays high, less two.
    pub fn mstsclhigh(&self) -> (mstsclhigh: u8)
        ensures
            mstsclhigh == self@.mstsclhigh,
    {
        self.mstsclhigh
    }

    /// The clocks that SCL stays low, less two.
    pub fn mstscllow(&self) -> (mstscllow: u8)
        ensures
            mstscllow == self@.mstscllow,
    {
        self.mstscllow
    }
}

impl<PERIPH: PeripheralClockSelector, CLOCK: PeripheralClockSource> I2cClock<(PERIPH, CLOCK)> {
    /// Creates the clock configuration of an I2C peripheral.
    ///
    /// `mstsclhigh` and `mstscllow` are the clocks that SCL stays high and
    /// low, and have to lie between 2 and 9. A caller that Verus has not seen
    /// is stopped at run time where they do not.
    pub fn new(_clock: &CLOCK, divval: u16, mstsclhigh: u8, mstscllow: u8) -> (config: Self)
        requires
            2 <= mstsclhigh <= 9,
            2 <= mstscllow <= 9,
        ensures
            config@ == (I2cDividers {
                divval,
                mstsclhigh: (mstsclhigh - 2) as u8,
                mstscllow: (mstscllow - 2) as u8,
            }),
            config.wf(),
    {
        runtime_assert(2 <= mstsclhigh && mstsclhigh <= 9);
        runtime_assert(2 <= mstscllow && mstscllow <= 9);
        I2cClock {
            divval,
            mstsclhigh: mstsclhigh - 2,
            mstscllow: mstscllow - 2,
            _periphclock: PhantomData,
        }
    }

    /// Routes the clock source of this configuration to its peripheral.
    pub fn select_clock<R: RegisterWindow>(&self, bank: &mut ClockSelectRegisters<R>)
        ensures
            final(bank)@ == old(bank)@.update(
                PERIPH::register_num() as int,
                CLOCK::clock().code(),
            ),
    {
        bank.select(PERIPH::register_index(), CLOCK::selection());
    }
}

impl<PERIPH: PeripheralClockSelector> I2cClock<(PERIPH, IOSC)> {
    /// Creates the configuration for 400 kHz, for an I2C peripheral that runs
    /// on the internal oscillator at [`IOSC_HZ`]: the clock divided by 6, SCL
    /// high for 2 clocks and low for 3.
    pub fn new_400khz() -> (config: Self)
        ensures
            config@ == (I2cDividers { divval: 5, mstsclhigh: 0, mstscllow: 1 }),
            config.wf(),
    {
        I2cClock { divval: 5, mstsclhigh: 0, mstscllow: 1, _periphclock: PhantomData }
    }
}

} // verus!

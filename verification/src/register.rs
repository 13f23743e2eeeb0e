//! Register windows: read-modify-write access to one control register each.

use vstd::prelude::*;

verus! {

/// Access to one 32-bit control register.
///
/// The handle and the other owners of registers in this crate reach the
/// hardware through this trait alone. [`ShadowRegister`] implements it in
/// memory; firmware implements it on the memory-mapped register itself.
///
/// Everything this crate proves about a register is proved from the two
/// contracts below: what was written is what is read next. An implementation
/// outside this crate has to make sure of that itself, by giving each window
/// to one owner and by mapping it to a register that keeps what it is given.
pub trait RegisterWindow {
    /// The value that the register holds.
    spec fn bits(&self) -> u32;

    /// Reads the register.
    fn read(&self) -> (bits: u32)
        ensures
            bits == self.bits(),
    ;

    /// Overwrites the register.
    fn write(&mut self, bits: u32)
        ensures
            final(self).bits() == bits,
    ;

    /// Reads the register, hands the value to `f`, and writes back what `f`
    /// returns.
    fn modify<F: FnOnce(u32) -> u32>(&mut self, f: F)
        requires
            f.requires((old(self).bits(),)),
        ensures
            f.ensures((old(self).bits(),), final(self).bits()),
    {
        let before: u32 = self.read();
        let after: u32 = f(before);
        self.write(after);
    }
}

/// A register held in memory.
///
/// It stands in for a hardware register wherever none is at hand: on a host,
/// in a simulation, or as the shadow copy of a write-only register.
#[derive(Debug)]
pub struct ShadowRegister {
    /// The value that the register holds.
    pub bits: u32,
}

impl ShadowRegister {
    /// A register that holds `bits`.
    pub fn new(bits: u32) -> (register: Self)
        ensures
            register.bits == bits,
    {
        ShadowRegister { bits }
    }
}

impl RegisterWindow for ShadowRegister {
    open spec fn bits(&self) -> u32 {
        self.bits
    }

    fn read(&self) -> (bits: u32) {
        self.bits
    }

    fn write(&mut self, bits: u32) {
        self.bits = bits;
    }
}

} // verus!

//! The APU and input register block at 0x4000-0x401E: an opaque byte
//! array that reads back what was written. Sound and controllers are
//! outside this core; the bus only needs the pass-through behaviour.

use vstd::prelude::*;

verus! {

pub struct Registers {
    pub values: Vec<u8>,
}

impl Registers {
    pub open spec fn wf(&self) -> bool {
        self.values@.len() == 32
    }

    pub fn new() -> (r: Registers)
        ensures
            r.wf(),
            forall|i: int| 0 <= i < 32 ==> r.values@[i] == 0u8,
    {
        Registers { values: vec![0u8; 32] }
    }

    /// Read the register selected by the low byte of the address. The bus
    /// only routes 0x4000-0x401E here, so the low byte stays below 32.
    pub fn read(&self, addr: u16) -> (r: u8)
        requires
            self.wf(),
            (addr & 0xFF) < 32,
        ensures
            r == self.values@[(addr & 0xFF) as int],
    {
        self.values[(addr & 0xFF) as usize]
    }

    /// Write the register selected by the low byte of the address.
    pub fn write(&mut self, addr: u16, v: u8)
        requires
            old(self).wf(),
            (addr & 0xFF) < 32,
        ensures
            final(self).wf(),
            final(self).values@ == old(self).values@.update((addr & 0xFF) as int, v),
    {
        self.values[(addr & 0xFF) as usize] = v;
    }
}

} // verus!

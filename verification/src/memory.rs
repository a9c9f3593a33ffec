//! Internal work RAM: 2 KiB, mirrored across the 8 KiB window at
//! 0x0000-0x1FFF. The zero page and the stack page have dedicated helpers.

use vstd::prelude::*;

verus! {

pub const MEMORY_SIZE: usize = 2048;

/// 2 KiB of internal RAM. Addresses are taken modulo 0x0800, so the four
/// copies of the window at 0x0000-0x1FFF alias the same cells.
pub struct Memory {
    pub values: Vec<u8>,
}

impl Memory {
    /// All 2048 cells are present.
    pub open spec fn wf(&self) -> bool {
        self.values@.len() == MEMORY_SIZE
    }

    pub fn new() -> (r: Memory)
        ensures
            r.wf(),
            forall|i: int| 0 <= i < MEMORY_SIZE ==> r.values@[i] == 0u8,
    {
        Memory { values: vec![0u8; MEMORY_SIZE] }
    }

    /// Read from the zero page (the first 256 bytes).
    pub fn read_zero_page(&self, addr: u8) -> (r: u8)
        requires
            self.wf(),
        ensures
            r == self.values@[addr as int],
    {
        self.values[addr as usize]
    }

    /// Write to the zero page.
    pub fn write_zero_page(&mut self, addr: u8, v: u8)
        requires
            old(self).wf(),
        ensures
            final(self).wf(),
            final(self).values@ == old(self).values@.update(addr as int, v),
    {
        self.values[addr as usize] = v;
    }

    /// Read from the stack page (0x0100-0x01FF).
    pub fn read_stack(&self, addr: u8) -> (r: u8)
        requires
            self.wf(),
        ensures
            r == self.values@[0x0100 + addr as int],
    {
        proof {
            crate::bits::lemma_u16_or_stack_page(addr as u16);
        }
        self.values[(0x0100u16 | addr as u16) as usize]
    }

    /// Write to the stack page.
    pub fn write_stack(&mut self, addr: u8, v: u8)
        requires
            old(self).wf(),
        ensures
            final(self).wf(),
            final(self).values@ == old(self).values@.update(0x0100 + addr as int, v),
    {
        proof {
            crate::bits::lemma_u16_or_stack_page(addr as u16);
        }
        self.values[(0x0100u16 | addr as u16) as usize] = v;
    }

    /// Read through the mirrored window: the cell is `addr & 0x07FF`.
    pub fn read(&self, addr: u16) -> (r: u8)
        requires
            self.wf(),
        ensures
            r == self.values@[(addr & 0x07FF) as int],
    {
        proof {
            crate::bits::lemma_u16_and_le(addr, 0x07FF);
        }
        self.values[(addr & 0x07FF) as usize]
    }

    /// Write through the mirrored window: the cell is `addr & 0x07FF`.
    pub fn write(&mut self, addr: u16, v: u8)
        requires
            old(self).wf(),
        ensures
            final(self).wf(),
            final(self).values@ == old(self).values@.update((addr & 0x07FF) as int, v),
    {
        proof {
            crate::bits::lemma_u16_and_le(addr, 0x07FF);
        }
        self.values[(addr & 0x07FF) as usize] = v;
    }
}

/// Two addresses that agree on their low eleven bits reach the same RAM
/// cell: reads through either return the same byte, and a value written
/// through one is the value read through the other.
pub proof fn lemma_ram_mirror(m: Memory, a: u16, b: u16, v: u8)
    requires
        m.wf(),
        a & 0x07FF == b & 0x07FF,
    ensures
        m.values@[(a & 0x07FF) as int] == m.values@[(b & 0x07FF) as int],
        m.values@.update((a & 0x07FF) as int, v)[(b & 0x07FF) as int] == v,
{
    crate::bits::lemma_u16_and_le(a, 0x07FF);
}

} // verus!

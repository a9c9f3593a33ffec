//! Nametable mirroring: the policy that folds the four logical nametable
//! quadrants onto the 2 KiB of physical VRAM.

use vstd::prelude::*;
use crate::rom::Rom;

verus! {

/// The physical VRAM cell behind a horizontally mirrored address:
/// quadrants zero and one share the first bank, quadrants two and three
/// the second.
pub open spec fn horizontal_index(addr: u16) -> int {
    let index = (addr & 0x0BFF) as int;
    if index >= 0x0800 {
        index - 0x0400
    } else {
        index
    }
}

/// The physical VRAM cell behind a vertically mirrored address: banks
/// zero and two alias, as do banks one and three.
pub open spec fn vertical_index(addr: u16) -> int {
    (addr & 0x07FF) as int
}

/// The mirroring policy the cartridge selects.
#[derive(Clone, Copy, PartialEq, Eq, Structural)]
pub enum Mirroring {
    Horizontal,
    Vertical,
}

impl Mirroring {
    /// The physical cell this policy maps an address onto.
    pub open spec fn index(&self, addr: u16) -> int {
        match *self {
            Mirroring::Horizontal => horizontal_index(addr),
            Mirroring::Vertical => vertical_index(addr),
        }
    }

    /// Read VRAM through this policy.
    pub fn read(&self, addr: u16, memory: &Vec<u8>, rom: &Rom) -> (r: u8)
        requires
            memory@.len() == 2048,
        ensures
            r == memory@[self.index(addr)],
    {
        match self {
            Mirroring::Horizontal => horizontal_mirroring_read(addr, memory, rom),
            Mirroring::Vertical => vertical_mirroring_read(addr, memory, rom),
        }
    }

    /// Write VRAM through this policy.
    pub fn write(&self, addr: u16, v: u8, memory: &mut Vec<u8>, rom: &mut Rom)
        requires
            old(memory)@.len() == 2048,
        ensures
            final(memory)@ == old(memory)@.update(self.index(addr), v),
            *final(rom) == *old(rom),
    {
        match self {
            Mirroring::Horizontal => horizontal_mirroring_write(addr, v, memory, rom),
            Mirroring::Vertical => vertical_mirroring_write(addr, v, memory, rom),
        }
    }
}

/// Every mirrored address lands inside the 2 KiB of physical VRAM.
pub proof fn lemma_mirroring_index_bound(m: Mirroring, addr: u16)
    ensures
        0 <= m.index(addr) < 2048,
{
    crate::bits::lemma_u16_and_le(addr, 0x0BFF);
    crate::bits::lemma_u16_and_le(addr, 0x07FF);
}

/// Pick the policy for the cartridge's mirroring bit. Four-screen
/// mirroring (no bit) is unavailable; the caller rejects it at insert.
pub fn select_mirroring(rom: &Rom) -> (r: Mirroring)
    requires
        rom.mirroring is Some,
    ensures
        r == (if rom.mirroring->Some_0 == 0 {
            Mirroring::Horizontal
        } else {
            Mirroring::Vertical
        }),
{
    match rom.mirroring() {
        Some(m) => {
            if m == 0 {
                Mirroring::Horizontal
            } else {
                Mirroring::Vertical
            }
        },
        None => Mirroring::Horizontal,
    }
}

pub fn horizontal_mirroring_read(addr: u16, memory: &Vec<u8>, _rom: &Rom) -> (r: u8)
    requires
        memory@.len() == 2048,
    ensures
        r == memory@[horizontal_index(addr)],
{
    proof {
        crate::bits::lemma_u16_and_le(addr, 0x0BFF);
    }
    let index = addr & 0x0BFF;
    if index >= 0x0800 {
        memory[(index - 0x0400) as usize]
    } else {
        memory[index as usize]
    }
}

pub fn horizontal_mirroring_write(addr: u16, v: u8, memory: &mut Vec<u8>, _rom: &mut Rom)
    requires
        old(memory)@.len() == 2048,
    ensures
        final(memory)@ == old(memory)@.update(horizontal_index(addr), v),
        *final(_rom) == *old(_rom),
{
    proof {
        crate::bits::lemma_u16_and_le(addr, 0x0BFF);
    }
    let index = addr & 0x0BFF;
    if index >= 0x0800 {
        memory[(index - 0x0400) as usize] = v;
    } else {
        memory[index as usize] = v;
    }
}

pub fn vertical_mirroring_read(addr: u16, memory: &Vec<u8>, _rom: &Rom) -> (r: u8)
    requires
        memory@.len() == 2048,
    ensures
        r == memory@[vertical_index(addr)],
{
    proof {
        crate::bits::lemma_u16_and_le(addr, 0x07FF);
    }
    memory[(addr & 0x07FF) as usize]
}

pub fn vertical_mirroring_write(addr: u16, v: u8, memory: &mut Vec<u8>, _rom: &mut Rom)
    requires
        old(memory)@.len() == 2048,
    ensures
        final(memory)@ == old(memory)@.update(vertical_index(addr), v),
        *final(_rom) == *old(_rom),
{
    proof {
        crate::bits::lemma_u16_and_le(addr, 0x07FF);
    }
    memory[(addr & 0x07FF) as usize] = v;
}

} // verus!

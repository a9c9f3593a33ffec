//! Palette storage on the bus side of the PPU: 32 bytes at 0x3F00-0x3F1F
//! (mirrored through 0x3FFF), with the write-through quirk that every
//! fourth entry is aliased with the entry sixteen bytes away.

use vstd::prelude::*;

verus! {

/// The palette cells after one write: writes to an index divisible by
/// four land in both the background copy and the sprite copy of that
/// backdrop entry; all other indexes are written directly.
pub open spec fn palette_written(s: Seq<u8>, addr: u16, v: u8) -> Seq<u8> {
    let index = (addr & 0x1F) as int;
    if index % 4 == 0 {
        let base = 4 * ((index / 4) % 4);
        s.update(base, v).update(base + 16, v)
    } else {
        s.update(index, v)
    }
}

pub struct Palette {
    pub data: Vec<u8>,
}

impl Palette {
    pub open spec fn wf(&self) -> bool {
        self.data@.len() == 32
    }

    pub fn new() -> (r: Palette)
        ensures
            r.wf(),
            forall|i: int| 0 <= i < 32 ==> r.data@[i] == 0u8,
    {
        Palette { data: vec![0u8; 32] }
    }

    /// Read the entry at `addr & 0x1F`.
    pub fn read(&self, addr: u16) -> (r: u8)
        requires
            self.wf(),
        ensures
            r == self.data@[(addr & 0x1F) as int],
    {
        proof {
            crate::bits::lemma_u16_and_le(addr, 0x1F);
        }
        self.data[(addr & 0x1F) as usize]
    }

    /// Write the entry at `addr & 0x1F`, mirroring every fourth entry
    /// into the copy sixteen bytes away.
    pub fn write(&mut self, addr: u16, v: u8)
        requires
            old(self).wf(),
        ensures
            final(self).wf(),
            final(self).data@ == palette_written(old(self).data@, addr, v),
    {
        proof {
            crate::bits::lemma_u16_and_le(addr, 0x1F);
        }
        let index: u16 = addr & 0x1F;
        if index % 4 == 0 {
            let i: u16 = index / 4 % 4;
            self.data[(4 * i) as usize] = v;
            self.data[(4 * i) as usize + 16] = v;
        } else {
            self.data[index as usize] = v;
        }
    }
}

/// Writing a backdrop entry (palette address with the low two bits clear)
/// at `p` and at `p ^ 0x10` stores into the same pair of cells, so the
/// two addresses are observably aliased.
pub proof fn lemma_palette_mirror(s: Seq<u8>, p: u16, v: u8)
    requires
        p & 0x03 == 0,
    ensures
        palette_written(s, p, v) == palette_written(s, p ^ 0x10, v),
{
    let q = p ^ 0x10;
    assert((p & 0x1F) % 4 == 0 && ((p ^ 0x10) & 0x1F) % 4 == 0 && ((p & 0x1F) / 4) % 4 == (((p
        ^ 0x10) & 0x1F) / 4) % 4) by (bit_vector)
        requires
            p & 0x03 == 0,
    ;
}

} // verus!

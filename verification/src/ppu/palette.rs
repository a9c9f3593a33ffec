//! Palette storage as seen from the PPU's rendering path: the same
//! 32-byte table with the write-through mirror on every fourth entry, and
//! a read that can apply the grayscale mask from the mask latch.

use vstd::prelude::*;

verus! {

/// The palette cells after one write: writes to an index divisible by
/// four land in both the background copy and the sprite copy of that
/// backdrop entry; all other indexes are written directly.
pub open spec fn palette_written(s: Seq<u8>, addr: u16, v: u8) -> Seq<u8> {
    let index = (addr & 0x1F) as int;
    if index % 4 == 0 {
        let base = 4 * ((index / 4) % 4);
        s.update(base, v).update(base + 16, v)
    } else {
        s.update(index, v)
    }
}

pub struct Palette {
    pub data: Vec<u8>,
}

impl Palette {
    pub open spec fn wf(&self) -> bool {
        self.data@.len() == 32
    }

    pub fn new() -> (r: Palette)
        ensures
            r.wf(),
            forall|i: int| 0 <= i < 32 ==> r.data@[i] == 0u8,
    {
        Palette { data: vec![0u8; 32] }
    }

    /// Read the entry at `addr & 0x1F`; in grayscale mode only the hue
    /// row survives (the colour column bits 0x0F are cleared).
    pub fn read(&self, addr: u16, grey: bool) -> (r: u8)
        requires
            self.wf(),
        ensures
            r == (if grey {
                self.data@[(addr & 0x1F) as int] & 0x30
            } else {
                self.data@[(addr & 0x1F) as int]
            }),
    {
        proof {
            crate::bits::lemma_u16_and_le(addr, 0x1F);
        }
        let result = self.data[(addr & 0x1F) as usize];
        if grey {
            result & 0x30
        } else {
            result
        }
    }

    /// Write the entry at `addr & 0x1F`, mirroring every fourth entry
    /// into the copy sixteen bytes away.
    pub fn write(&mut self, addr: u16, v: u8)
        requires
            old(self).wf(),
        ensures
            final(self).wf(),
            final(self).data@ == palette_written(old(self).data@, addr, v),
    {
        proof {
            crate::bits::lemma_u16_and_le(addr, 0x1F);
        }
        let index: u16 = addr & 0x1F;
        if index % 4 == 0 {
            let i: u16 = index / 4 % 4;
            self.data[(4 * i) as usize] = v;
            self.data[(4 * i) as usize + 16] = v;
        } else {
            self.data[index as usize] = v;
        }
    }
}

} // verus!

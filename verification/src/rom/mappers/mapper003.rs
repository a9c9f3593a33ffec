//! Mapper id 3: fixed PRG banks with CHR bank switching. A 32 KiB PRG
//! image maps straight onto 0x8000-0xFFFF; a smaller image repeats every
//! 16 KiB. Any write to PRG space selects one of up to four 8 KiB CHR
//! banks through its low two bits. The contracts live on the inherent
//! methods; the `Mapper` trait impl delegates to them.

use vstd::prelude::*;
use crate::rom::mapper::Mapper;
use crate::rom::slice::Slice;

verus! {

pub struct Mapper003 {
    pub prg_rom: Slice,
    pub chr_rom: Slice,
    pub bank: u8,
    pub prg_32k: bool,
}

/// What a PRG read returns: addresses below the 0x8000 window and offsets
/// past the image read as zero; otherwise the offset into the window,
/// folded to 16 KiB unless the image is a full 32 KiB.
pub open spec fn prg_byte(m: Mapper003, addr: u16) -> u8 {
    if addr < 0x8000 {
        0u8
    } else {
        let offset = if m.prg_32k {
            addr - 0x8000
        } else {
            (addr - 0x8000) % 0x4000
        };
        if offset < m.prg_rom.data@.len() {
            m.prg_rom.data@[offset]
        } else {
            0u8
        }
    }
}

/// What a CHR read returns: the byte at the selected bank's offset, or
/// zero past the image.
pub open spec fn chr_byte(m: Mapper003, addr: u16) -> u8 {
    let offset = m.bank * 0x2000 + addr;
    if offset < m.chr_rom.data@.len() {
        m.chr_rom.data@[offset]
    } else {
        0u8
    }
}

impl Mapper003 {
    pub open spec fn wf(&self) -> bool {
        &&& self.prg_rom.wf()
        &&& self.chr_rom.wf()
        &&& self.bank <= 3
        &&& self.prg_32k == (self.prg_rom.data@.len() == 0x8000)
    }

    pub fn new(prg_rom: Slice, chr_rom: Slice) -> (r: Mapper003)
        requires
            prg_rom.wf(),
            chr_rom.wf(),
        ensures
            r.wf(),
            r.prg_rom == prg_rom,
            r.chr_rom == chr_rom,
            r.bank == 0,
    {
        let prg_32k = prg_rom.length() == 32 * 1024;
        Mapper003 { prg_rom, chr_rom, bank: 0, prg_32k }
    }

    /// Read from the PRG window.
    pub fn prg_read(&self, addr: u16) -> (r: u8)
        ensures
            r == prg_byte(*self, addr),
    {
        if addr < 0x8000 {
            return 0;
        }
        let offset: u32 = if self.prg_32k {
            (addr - 0x8000) as u32
        } else {
            ((addr - 0x8000) % 0x4000) as u32
        };
        if (offset as usize) < self.prg_rom.data.len() {
            self.prg_rom.at(offset)
        } else {
            0
        }
    }

    /// A PRG write selects the CHR bank through its low two bits.
    pub fn prg_write(&mut self, _addr: u16, value: u8)
        ensures
            old(self).wf() ==> final(self).wf(),
            *final(self) == (Mapper003 { bank: (value & 0x03), ..*old(self) }),
    {
        proof {
            crate::bits::lemma_u8_and_le(value, 0x03);
        }
        self.bank = value & 0x03;
    }

    /// Read from the selected CHR bank.
    pub fn chr_read(&self, addr: u16) -> (r: u8)
        ensures
            r == chr_byte(*self, addr),
    {
        let offset: u32 = self.bank as u32 * 0x2000 + addr as u32;
        if (offset as usize) < self.chr_rom.data.len() {
            self.chr_rom.at(offset)
        } else {
            0
        }
    }

    /// The CHR banks are read-only on this mapper.
    pub fn chr_write(&mut self, _addr: u16, _value: u8)
        ensures
            *final(self) == *old(self),
    {
    }
}

impl Mapper for Mapper003 {
    fn read_prg(&self, addr: u16) -> u8 {
        Mapper003::prg_read(self, addr)
    }

    fn write_prg(&mut self, addr: u16, value: u8) {
        Mapper003::prg_write(self, addr, value)
    }

    fn read_chr(&self, addr: u16) -> u8 {
        Mapper003::chr_read(self, addr)
    }

    fn write_chr(&mut self, addr: u16, value: u8) {
        Mapper003::chr_write(self, addr, value)
    }
}

} // verus!

//! The mapper interface: the cartridge-side circuit that translates CPU
//! and PPU addresses into ROM offsets and may bank-switch. Reads and
//! writes are total; unmapped offsets read as zero.

use vstd::prelude::*;
use crate::rom::mappers::Mapper003;
use crate::rom::slice::Slice;

verus! {

/// The four operations every mapper offers. The bus talks to the concrete
/// mapper type, whose contracts pin the behaviour; the trait states the
/// shape of the interface.
pub trait Mapper {
    /// Read from CPU space (0x4020-0xFFFF).
    fn read_prg(&self, addr: u16) -> u8;

    /// Write to CPU space; mappers use this for bank selection.
    fn write_prg(&mut self, addr: u16, value: u8);

    /// Read from PPU pattern space (0x0000-0x1FFF).
    fn read_chr(&self, addr: u16) -> u8;

    /// Write to PPU pattern space.
    fn write_chr(&mut self, addr: u16, value: u8);
}

/// Pick the mapper implementation for a header's mapper id. Only mapper
/// id 3 is implemented, and it needs a CHR image.
pub fn find_mapper(mapper: u16, _sub_mapper: Option<u8>, prg_rom: Slice, chr_rom: Option<Slice>)
    -> (r: Option<Mapper003>)
    requires
        prg_rom.wf(),
        (chr_rom matches Some(c) ==> c.wf()),
    ensures
        (r is Some) == (mapper == 3 && chr_rom is Some),
        (r matches Some(m) ==> (m.wf() && m.prg_rom == prg_rom && m.chr_rom == chr_rom->Some_0
            && m.bank == 0)),
{
    if mapper == 3 {
        match chr_rom {
            Some(chr) => Some(Mapper003::new(prg_rom, chr)),
            None => None,
        }
    } else {
        None
    }
}

} // verus!

//! The cartridge image parser. The 16-byte header gives the ROM sizes,
//! the mirroring policy, the region timing and the mapper id; the PRG and
//! CHR sections follow, after an optional 512-byte trainer. Reading past
//! the end of the image is a format error.

use vstd::prelude::*;
use crate::i18n::Message;
use crate::rom::mapper::find_mapper;
use crate::rom::mappers::Mapper003;
use crate::rom::slice::Slice;
use crate::rom::timing::Timing;

verus! {

/// The header version: the original layout, or the extended one selected
/// by bits 2-3 of byte 7 reading as binary 10.
pub enum Version {
    V1,
    V2,
}

/// The console family named by the low bits of byte 7.
pub enum Console {
    Nes,
    VsSystem,
    PlayChoice10,
    Extended,
}

/// The image begins with the four signature bytes.
pub open spec fn sig_ok(d: Seq<u8>) -> bool {
    &&& d.len() >= 16
    &&& d[0] == 0x4E
    &&& d[1] == 0x45
    &&& d[2] == 0x53
    &&& d[3] == 0x1A
}

/// Bits 2-3 of byte 7 select the extended header.
pub open spec fn is_v2(d: Seq<u8>) -> bool {
    d[7] & 0x0C == 0x08
}

/// The declared PRG-ROM size in bytes: byte 4 counts 16 KiB units; the
/// extended header adds a high nibble, or replaces the count with a
/// multiplier encoding when that nibble is all ones.
pub open spec fn spec_prg_size(d: Seq<u8>) -> int {
    let base = d[4] * 16 * 1024;
    if !is_v2(d) {
        base
    } else {
        let nibble = d[9] & 0x0F;
        if nibble != 0x0F {
            base + nibble * 256 * 16 * 1024
        } else {
            ((d[4] & 0x03) * 2 + 1) * ((d[4] & 0xFC) / 4)
        }
    }
}

/// The declared CHR-ROM size in bytes: byte 5 counts 8 KiB units, with
/// the same extended-header scheme as the PRG size.
pub open spec fn spec_chr_size(d: Seq<u8>) -> int {
    let base = d[5] * 8 * 1024;
    if !is_v2(d) {
        base
    } else {
        let nibble = d[9] & 0xF0;
        if nibble != 0xF0 {
            base + nibble * 16 * 8 * 1024
        } else {
            ((d[5] & 0x03) * 2 + 1) * ((d[5] & 0xFC) / 4)
        }
    }
}

/// A 512-byte trainer precedes the PRG section when byte 6 bit 2 is set.
pub open spec fn has_trainer(d: Seq<u8>) -> bool {
    d[6] & 0x04 != 0
}

/// The nametable mirroring: none when four-screen is requested, else the
/// horizontal/vertical selector bit.
pub open spec fn spec_mirroring(d: Seq<u8>) -> Option<u8> {
    if d[6] & 0x08 != 0 {
        None
    } else {
        Some((d[6] & 0x01) as u8)
    }
}

/// The region timing: byte 9 bit 0 in the original header, byte 12 bits
/// 0-1 in the extended one.
pub open spec fn spec_timing(d: Seq<u8>) -> Timing {
    if !is_v2(d) {
        if d[9] & 0x01 > 0 {
            Timing::PAL
        } else {
            Timing::NTSC
        }
    } else {
        if d[12] & 0x03 == 0 {
            Timing::NTSC
        } else if d[12] & 0x03 == 1 {
            Timing::PAL
        } else if d[12] & 0x03 == 2 {
            Timing::MultipleRegion
        } else {
            Timing::Dendy
        }
    }
}

/// The mapper id: the high nibbles of bytes 6 and 7, extended by the low
/// nibble of byte 8.
pub open spec fn spec_mapper_id(d: Seq<u8>) -> int {
    let low = ((d[6] & 0xF0) / 16) | (d[7] & 0xF0);
    if is_v2(d) {
        low + (d[8] & 0x0F) * 256
    } else {
        low as int
    }
}

/// Where the PRG section starts in the image.
pub open spec fn spec_prg_start(d: Seq<u8>) -> int {
    if has_trainer(d) {
        16 + 512int
    } else {
        16
    }
}

/// How many bytes the header promises the image holds.
pub open spec fn spec_total_size(d: Seq<u8>) -> int {
    spec_prg_start(d) + spec_prg_size(d) + spec_chr_size(d)
}

/// The parsed cartridge: header fields, the optional trainer, and the
/// mapper holding the PRG and CHR sections.
pub struct Rom {
    pub prg_rom_size: u32,
    pub chr_rom_size: u32,
    pub mirroring: Option<u8>,
    pub extra_memory: bool,
    pub console: Console,
    pub version: Version,
    pub prg_ram_size: u32,
    pub prg_nv_ram_size: u32,
    pub timing: Timing,
    pub chr_ram_size: u32,
    pub chr_nv_ram_size: u32,
    pub vs_ppu_type: u8,
    pub vs_hardware: u8,
    pub ext_console_type: u8,
    pub misc_roms: u8,
    pub exp_device: u8,
    pub trainer: Option<Slice>,
    pub mapper: Mapper003,
}

impl Rom {
    pub open spec fn wf(&self) -> bool {
        self.mapper.wf()
    }

    /// Parse a cartridge image. Fails with `MalformedFileFormat` when the
    /// signature is absent or the declared sizes exceed the image, and
    /// with `MapperNotSupported` when the mapper id is not implemented
    /// (mapper 3, which needs a CHR section).
    pub fn parse(data: Vec<u8>) -> (r: Result<Rom, Message>)
        ensures
            (r matches Err(m) ==> (m is MalformedFileFormat || m is MapperNotSupported)),
            (r matches Err(m) && m is MalformedFileFormat) <==> (!sig_ok(data@) || spec_total_size(
                data@,
            ) > data@.len()),
            (r matches Err(m) && m is MapperNotSupported) <==> (sig_ok(data@) && spec_total_size(
                data@,
            ) <= data@.len() && !(spec_mapper_id(data@) == 3 && spec_chr_size(data@) > 0)),
            (r matches Ok(rom) ==> {
                &&& rom.wf()
                &&& rom.prg_rom_size == spec_prg_size(data@)
                &&& rom.chr_rom_size == spec_chr_size(data@)
                &&& rom.mirroring == spec_mirroring(data@)
                &&& rom.timing == spec_timing(data@)
                &&& rom.extra_memory == (data@[6] & 0x02 != 0)
                &&& rom.mapper.bank == 0
                &&& rom.mapper.prg_rom.data@ == data@.subrange(
                    spec_prg_start(data@),
                    spec_prg_start(data@) + spec_prg_size(data@),
                )
                &&& rom.mapper.chr_rom.data@ == data@.subrange(
                    spec_prg_start(data@) + spec_prg_size(data@),
                    spec_prg_start(data@) + spec_prg_size(data@) + spec_chr_size(data@),
                )
                &&& (rom.trainer matches Some(t) ==> t.data@ == data@.subrange(16, 16 + 512int))
                &&& (rom.trainer is Some) == has_trainer(data@)
            }),
    {
        if data.len() < 16 {
            return Err(Message::MalformedFileFormat);
        }
        if data[0] != 0x4E || data[1] != 0x45 || data[2] != 0x53 || data[3] != 0x1A {
            return Err(Message::MalformedFileFormat);
        }
        proof {
            crate::bits::lemma_u8_and_le(data@[4] as u8, 0x03);
            crate::bits::lemma_u8_and_le(data@[4] as u8, 0xFC);
            crate::bits::lemma_u8_and_le(data@[5] as u8, 0x03);
            crate::bits::lemma_u8_and_le(data@[5] as u8, 0xFC);
            crate::bits::lemma_u8_and_le(data@[8] as u8, 0x0F);
            crate::bits::lemma_u8_and_le(data@[9] as u8, 0x0F);
            crate::bits::lemma_u8_and_le(data@[9] as u8, 0xF0);
            crate::bits::lemma_u8_and_le(data@[10] as u8, 0x0F);
            crate::bits::lemma_u8_and_le(data@[11] as u8, 0x0F);
        }
        let mut prg_rom_size: u32 = data[4] as u32 * 16 * 1024;
        let mut chr_rom_size: u32 = data[5] as u32 * 8 * 1024;

        let mirroring: Option<u8> = if data[6] & 0x08 != 0 {
            None
        } else {
            Some(data[6] & 0x01)
        };
        let extra_memory = data[6] & 0x02 != 0;
        let trainer_exists = data[6] & 0x04 != 0;

        let console = if data[7] & 0x03 == 0 {
            Console::Nes
        } else if data[7] & 0x03 == 1 {
            Console::VsSystem
        } else if data[7] & 0x03 == 2 {
            Console::PlayChoice10
        } else {
            Console::Extended
        };
        let v2 = data[7] & 0x0C == 0x08;

        let mut mapper_id: u16 = (((data[6] & 0xF0) / 16) | (data[7] & 0xF0)) as u16;
        let mut sub_mapper: Option<u8> = None;
        let mut prg_ram_size: u32 = 0;
        let mut prg_nv_ram_size: u32 = 0;
        let mut timing = Timing::NTSC;
        let mut chr_ram_size: u32 = 0;
        let mut chr_nv_ram_size: u32 = 0;
        let mut vs_ppu_type: u8 = 0;
        let mut vs_hardware: u8 = 0;
        let mut ext_console_type: u8 = 0;
        let mut misc_roms: u8 = 0;
        let mut exp_device: u8 = 0;
        if !v2 {
            prg_ram_size = data[8] as u32 * 8 * 1024;
            if data[9] & 0x01 > 0 {
                timing = Timing::PAL;
            }
        } else {
            mapper_id = mapper_id + (data[8] & 0x0F) as u16 * 256;
            sub_mapper = Some((data[8] & 0xF0) / 16);

            let r_nibble: u32 = (data[9] & 0x0F) as u32;
            if r_nibble != 0x0F {
                prg_rom_size = prg_rom_size + r_nibble * 256 * 16 * 1024;
            } else {
                let m4: u32 = (data[4] & 0x03) as u32 * 2 + 1;
                let e4: u32 = (data[4] & 0xFC) as u32 / 4;
                proof {
                    assert(m4 * e4 <= 7 * 63) by (nonlinear_arith)
                        requires
                            m4 <= 7 && e4 <= 63,
                    ;
                }
                prg_rom_size = m4 * e4;
            }

            let c_nibble: u32 = (data[9] & 0xF0) as u32;
            if c_nibble != 0xF0 {
                chr_rom_size = chr_rom_size + c_nibble * 16 * 8 * 1024;
            } else {
                let m5: u32 = (data[5] & 0x03) as u32 * 2 + 1;
                let e5: u32 = (data[5] & 0xFC) as u32 / 4;
                proof {
                    assert(m5 * e5 <= 7 * 63) by (nonlinear_arith)
                        requires
                            m5 <= 7 && e5 <= 63,
                    ;
                }
                chr_rom_size = m5 * e5;
            }

            let p_shift = data[10] & 0x0F;
            if p_shift > 0 {
                prg_ram_size = 64u32 << p_shift as u32;
            }
            let pn_shift = (data[10] & 0xF0) / 16;
            if pn_shift > 0 {
                prg_nv_ram_size = 64u32 << pn_shift as u32;
            }

            let c_shift = data[11] & 0x0F;
            if c_shift > 0 {
                chr_ram_size = 64u32 << c_shift as u32;
            }
            let cn_shift = (data[11] & 0xF0) / 16;
            if cn_shift > 0 {
                chr_nv_ram_size = 64u32 << cn_shift as u32;
            }

            timing = if data[12] & 0x03 == 0 {
                Timing::NTSC
            } else if data[12] & 0x03 == 1 {
                Timing::PAL
            } else if data[12] & 0x03 == 2 {
                Timing::MultipleRegion
            } else {
                Timing::Dendy
            };

            match console {
                Console::VsSystem => {
                    vs_ppu_type = data[13] & 0x0F;
                    vs_hardware = (data[13] & 0xF0) / 16;
                },
                Console::Extended => {
                    ext_console_type = data[13] & 0x0F;
                },
                _ => (),
            };

            misc_roms = data[14] & 0x03;
            exp_device = data[15] & 0x3F;
        }
        let version = if v2 {
            Version::V2
        } else {
            Version::V1
        };

        let mut start: u32 = 16;
        if trainer_exists {
            start = 16 + 512;
        }
        let needed: u64 = start as u64 + prg_rom_size as u64 + chr_rom_size as u64;
        if needed > data.len() as u64 {
            return Err(Message::MalformedFileFormat);
        }
        let trainer: Option<Slice> = if trainer_exists {
            Some(Slice::new(&data, 16, 512))
        } else {
            None
        };

        let prg_rom = Slice::new(&data, start, prg_rom_size);
        let chr_start: u32 = start + prg_rom_size;

        let chr_rom: Option<Slice> = if chr_rom_size > 0 {
            Some(Slice::new(&data, chr_start, chr_rom_size))
        } else {
            None
        };

        let mapper = match find_mapper(mapper_id, sub_mapper, prg_rom, chr_rom) {
            Some(m) => m,
            None => {
                return Err(Message::MapperNotSupported);
            },
        };

        Ok(
            Rom {
                prg_rom_size,
                chr_rom_size,
                mirroring,
                extra_memory,
                console,
                version,
                prg_ram_size,
                prg_nv_ram_size,
                timing,
                chr_ram_size,
                chr_nv_ram_size,
                vs_ppu_type,
                vs_hardware,
                ext_console_type,
                misc_roms,
                exp_device,
                trainer,
                mapper,
            },
        )
    }

    pub fn mapper(&self) -> (r: &Mapper003)
        ensures
            r == &self.mapper,
    {
        &self.mapper
    }

    pub fn mapper_mut(&mut self) -> (r: &mut Mapper003)
        ensures
            *r == old(self).mapper,
            *final(self) == (Rom { mapper: *final(r), ..*old(self) }),
    {
        &mut self.mapper
    }

    pub fn timing(&self) -> (r: &Timing)
        ensures
            r == &self.timing,
    {
        &self.timing
    }

    pub fn mirroring(&self) -> (r: Option<u8>)
        ensures
            r == self.mirroring,
    {
        self.mirroring
    }
}

} // verus!

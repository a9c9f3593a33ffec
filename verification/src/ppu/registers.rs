//! A second revision of the PPU register latches: the mask latch decodes
//! the grayscale and colour-emphasis bits (with the red/green swap on
//! PAL-like regions), and the status latch tracks the sprite-zero hit as
//! a named field beside the packed byte.

use vstd::prelude::*;

verus! {

/// The control latch at offset 0; see the written-byte decoding on `set`.
pub struct PPUControl {
    pub nt_base: u16,
    pub vram_step: u16,
    pub large_sprite: bool,
    pub sprite_pattern: u16,
    pub background_pattern: u16,
    pub nmi: bool,
}

impl PPUControl {
    pub open spec fn wf(&self) -> bool {
        &&& (self.nt_base == 0x2000 || self.nt_base == 0x2400 || self.nt_base == 0x2800
            || self.nt_base == 0x2C00)
        &&& (self.vram_step == 1 || self.vram_step == 32)
        &&& (self.sprite_pattern == 0 || self.sprite_pattern == 0x1000)
        &&& (self.background_pattern == 0 || self.background_pattern == 0x1000)
    }

    pub fn new() -> (r: PPUControl)
        ensures
            r.wf(),
            r.nt_base == 0x2000 && r.vram_step == 1 && !r.large_sprite,
            r.sprite_pattern == 0 && r.background_pattern == 0 && !r.nmi,
    {
        PPUControl {
            nt_base: 0x2000,
            vram_step: 1,
            large_sprite: false,
            sprite_pattern: 0,
            background_pattern: 0,
            nmi: false,
        }
    }

    /// Decode a written control byte: bits 0-1 pick the nametable, bit 2
    /// the increment step, bit 3 the sprite pattern table (for small
    /// sprites only), bit 4 the background pattern table, bit 5 the
    /// sprite size, bit 7 the NMI enable.
    pub fn set(&mut self, value: u8)
        requires
            old(self).wf(),
        ensures
            final(self).wf(),
            final(self).nt_base == 0x2000 + 0x0400 * (value & 0x03),
            final(self).vram_step == (if value & 0x04 == 0 { 1int } else { 32 }),
            final(self).large_sprite == ((value & 0x20) > 0),
            final(self).sprite_pattern == (if value & 0x20 > 0 {
                old(self).sprite_pattern as int
            } else if value & 0x08 == 0 {
                0int
            } else {
                0x1000int
            }),
            final(self).background_pattern == (if value & 0x10 == 0 { 0int } else { 0x1000 }),
            final(self).nmi == (value & 0x80 > 0),
    {
        proof {
            crate::bits::lemma_u8_and_le(value, 0x03);
        }
        self.nt_base = 0x2000 + 0x0400 * (value & 0x03) as u16;
        self.vram_step = if value & 0x04 == 0 {
            1
        } else {
            32
        };
        self.large_sprite = (value & 0x20) > 0;
        if !self.large_sprite {
            self.sprite_pattern = if value & 0x08 == 0 {
                0
            } else {
                0x1000
            };
        }
        self.background_pattern = if value & 0x10 == 0 {
            0
        } else {
            0x1000
        };
        self.nmi = value & 0x80 > 0;
        proof {
            assert((value & 0x03) == 0 || (value & 0x03) == 1 || (value & 0x03) == 2 || (value
                & 0x03) == 3) by (bit_vector);
        }
    }

    pub fn nt_base(&self) -> (r: u16)
        ensures
            r == self.nt_base,
    {
        self.nt_base
    }

    pub fn vram_step(&self) -> (r: u16)
        ensures
            r == self.vram_step,
    {
        self.vram_step
    }

    pub fn large_sprite(&self) -> (r: bool)
        ensures
            r == self.large_sprite,
    {
        self.large_sprite
    }

    pub fn sprite_pattern(&self) -> (r: u16)
        ensures
            r == self.sprite_pattern,
    {
        self.sprite_pattern
    }

    pub fn background_pattern(&self) -> (r: u16)
        ensures
            r == self.background_pattern,
    {
        self.background_pattern
    }

    pub fn nmi(&self) -> (r: bool)
        ensures
            r == self.nmi,
    {
        self.nmi
    }
}

/// The mask latch at offset 1, with grayscale and colour emphasis. The
/// green and red emphasis bits trade places on non-NTSC regions.
pub struct PPUMask {
    pub grey_scale: bool,
    pub show_background_left: bool,
    pub show_sprite_left: bool,
    pub show_background: bool,
    pub show_sprite: bool,
    pub emphasize_red: bool,
    pub emphasize_green: bool,
    pub emphasize_blue: bool,
    pub ntsc: bool,
}

impl PPUMask {
    pub fn new(ntsc: bool) -> (r: PPUMask)
        ensures
            !r.grey_scale && !r.show_background_left && !r.show_sprite_left,
            !r.show_background && !r.show_sprite,
            !r.emphasize_red && !r.emphasize_green && !r.emphasize_blue,
            r.ntsc == ntsc,
    {
        PPUMask {
            grey_scale: false,
            show_background_left: false,
            show_sprite_left: false,
            show_background: false,
            show_sprite: false,
            emphasize_red: false,
            emphasize_green: false,
            emphasize_blue: false,
            ntsc,
        }
    }

    /// Decode a written mask byte: bit 0 grayscale, bits 1-4 the enables,
    /// bits 5-7 the emphasis channels with the region swap on red/green.
    pub fn set(&mut self, value: u8)
        ensures
            final(self).grey_scale == (value & 0x01 > 0),
            final(self).show_background_left == (value & 0x02 > 0),
            final(self).show_sprite_left == (value & 0x04 > 0),
            final(self).show_background == (value & 0x08 > 0),
            final(self).show_sprite == (value & 0x10 > 0),
            final(self).emphasize_blue == (value & 0x80 > 0),
            final(self).emphasize_green == (if old(self).ntsc {
                value & 0x40 > 0
            } else {
                value & 0x20 > 0
            }),
            final(self).emphasize_red == (if old(self).ntsc {
                value & 0x20 > 0
            } else {
                value & 0x40 > 0
            }),
            final(self).ntsc == old(self).ntsc,
    {
        self.grey_scale = value & 0x01 > 0;
        self.show_background_left = value & 0x02 > 0;
        self.show_sprite_left = value & 0x04 > 0;
        self.show_background = value & 0x08 > 0;
        self.show_sprite = value & 0x10 > 0;
        self.emphasize_blue = value & 0x80 > 0;
        if self.ntsc {
            self.emphasize_green = value & 0x40 > 0;
            self.emphasize_red = value & 0x20 > 0;
        } else {
            self.emphasize_green = value & 0x20 > 0;
            self.emphasize_red = value & 0x40 > 0;
        }
    }

    pub fn grey_scale(&self) -> (r: bool)
        ensures
            r == self.grey_scale,
    {
        self.grey_scale
    }

    pub fn show_background_left(&self) -> (r: bool)
        ensures
            r == self.show_background_left,
    {
        self.show_background_left
    }

    pub fn show_sprite_left(&self) -> (r: bool)
        ensures
            r == self.show_sprite_left,
    {
        self.show_sprite_left
    }

    pub fn show_background(&self) -> (r: bool)
        ensures
            r == self.show_background,
    {
        self.show_background
    }

    pub fn show_sprite(&self) -> (r: bool)
        ensures
            r == self.show_sprite,
    {
        self.show_sprite
    }

    pub fn emphasize_red(&self) -> (r: bool)
        ensures
            r == self.emphasize_red,
    {
        self.emphasize_red
    }

    pub fn emphasize_green(&self) -> (r: bool)
        ensures
            r == self.emphasize_green,
    {
        self.emphasize_green
    }

    pub fn emphasize_blue(&self) -> (r: bool)
        ensures
            r == self.emphasize_blue,
    {
        self.emphasize_blue
    }
}

/// The status latch at offset 2, tracking vblank (bit 0x80) and the
/// sprite-zero hit (bit 0x40) as named fields beside the packed byte.
pub struct PPUStatus {
    pub value: u8,
    pub vertical_blank: bool,
    pub sprite_0_hit: bool,
}

impl PPUStatus {
    /// The named latches agree with their bits in the packed byte.
    pub open spec fn wf(&self) -> bool {
        &&& self.vertical_blank == (self.value & 0x80 != 0)
        &&& self.sprite_0_hit == (self.value & 0x40 != 0)
    }

    pub fn new() -> (r: PPUStatus)
        ensures
            r.wf(),
            r.value == 0 && !r.vertical_blank && !r.sprite_0_hit,
    {
        proof {
            assert(0u8 & 0x80 == 0 && 0u8 & 0x40 == 0) by (bit_vector);
        }
        PPUStatus { value: 0, vertical_blank: false, sprite_0_hit: false }
    }

    pub fn value(&self) -> (r: u8)
        ensures
            r == self.value,
    {
        self.value
    }

    pub fn vertical_blank(&self) -> (r: bool)
        ensures
            r == self.vertical_blank,
    {
        self.vertical_blank
    }

    /// Latch or clear the vblank bit 0x80.
    pub fn set_vertical_blank(&mut self, value: bool)
        requires
            old(self).wf(),
        ensures
            final(self).wf(),
            final(self).vertical_blank == value,
            final(self).sprite_0_hit == old(self).sprite_0_hit,
            final(self).value == (if value {
                old(self).value | 0x80
            } else {
                old(self).value & 0x7F
            }),
            final(self).value & 0x20 == old(self).value & 0x20,
    {
        self.vertical_blank = value;
        let v0 = self.value;
        if value {
            self.value |= 0x80;
        } else {
            self.value &= 0x7F;
        }
        proof {
            assert((v0 | 0x80) & 0x80 != 0 && (v0 & 0x7F) & 0x80 == 0 && (v0 | 0x80) & 0x40 == v0
                & 0x40 && (v0 & 0x7F) & 0x40 == v0 & 0x40 && (v0 | 0x80) & 0x20 == v0 & 0x20 && (v0
                & 0x7F) & 0x20 == v0 & 0x20) by (bit_vector);
        }
    }

    /// Latch or clear the sprite-overflow bit 0x20.
    pub fn set_sprite_overflow(&mut self, value: bool)
        requires
            old(self).wf(),
        ensures
            final(self).wf(),
            final(self).vertical_blank == old(self).vertical_blank,
            final(self).sprite_0_hit == old(self).sprite_0_hit,
            final(self).value == (if value {
                old(self).value | 0x20
            } else {
                old(self).value & 0xDF
            }),
            final(self).value & 0x20 == (if value { 0x20 as u8 } else { 0u8 }),
    {
        let v0 = self.value;
        if value {
            self.value |= 0x20;
        } else {
            self.value &= 0xDF;
        }
        proof {
            assert((v0 | 0x20) & 0x20 == 0x20 && (v0 & 0xDF) & 0x20 == 0 && (v0 | 0x20) & 0x80 == v0
                & 0x80 && (v0 & 0xDF) & 0x80 == v0 & 0x80 && (v0 | 0x20) & 0x40 == v0 & 0x40 && (v0
                & 0xDF) & 0x40 == v0 & 0x40) by (bit_vector);
        }
    }

    /// Latch or clear the sprite-zero-hit bit 0x40.
    pub fn set_sprite_0_hit(&mut self, value: bool)
        requires
            old(self).wf(),
        ensures
            final(self).wf(),
            final(self).vertical_blank == old(self).vertical_blank,
            final(self).sprite_0_hit == value,
            final(self).value == (if value {
                old(self).value | 0x40
            } else {
                old(self).value & 0xBF
            }),
            final(self).value & 0x20 == old(self).value & 0x20,
    {
        self.sprite_0_hit = value;
        let v0 = self.value;
        if value {
            self.value |= 0x40;
        } else {
            self.value &= 0xBF;
        }
        proof {
            assert((v0 | 0x40) & 0x40 == 0x40 && (v0 & 0xBF) & 0x40 == 0 && (v0 | 0x40) & 0x80 == v0
                & 0x80 && (v0 & 0xBF) & 0x80 == v0 & 0x80 && (v0 | 0x40) & 0x20 == v0 & 0x20 && (v0
                & 0xBF) & 0x20 == v0 & 0x20) by (bit_vector);
        }
    }

    pub fn sprite_0_hit(&self) -> (r: bool)
        ensures
            r == self.sprite_0_hit,
    {
        self.sprite_0_hit
    }
}

/// The scroll latch at offset 5: a two-write x/y pair behind a phase
/// toggle. The first write sets x, the second y.
pub struct PPUScroll {
    pub x: u8,
    pub y: u8,
    pub to_x: bool,
}

impl PPUScroll {
    pub fn new() -> (r: PPUScroll)
        ensures
            r.x == 0 && r.y == 0 && r.to_x,
    {
        PPUScroll { x: 0, y: 0, to_x: true }
    }

    pub fn x(&self) -> (r: u8)
        ensures
            r == self.x,
    {
        self.x
    }

    pub fn y(&self) -> (r: u8)
        ensures
            r == self.y,
    {
        self.y
    }

    /// Store into the coordinate the toggle selects and flip the toggle.
    pub fn write(&mut self, v: u8)
        ensures
            final(self).to_x == !old(self).to_x,
            final(self).x == (if old(self).to_x { v } else { old(self).x }),
            final(self).y == (if old(self).to_x { old(self).y } else { v }),
    {
        if self.to_x {
            self.x = v;
        } else {
            self.y = v;
        }
        self.to_x = !self.to_x;
    }
}

/// The address latch at offset 6: a two-write 16-bit address, high byte
/// first, behind a phase toggle that a status read resets.
pub struct PPUAddress {
    pub addr: u16,
    pub high: bool,
}

impl PPUAddress {
    pub fn new() -> (r: PPUAddress)
        ensures
            r.addr == 0 && r.high,
    {
        PPUAddress { addr: 0, high: true }
    }

    pub fn addr(&self) -> (r: u16)
        ensures
            r == self.addr,
    {
        self.addr
    }

    /// Advance the address by the auto-increment step after a data-port
    /// write, wrapping modulo the 16-bit range.
    pub fn go_forward(&mut self, step: u16)
        ensures
            final(self).addr == (old(self).addr + step) % 0x10000,
            final(self).high == old(self).high,
    {
        let a: u32 = self.addr as u32 + step as u32;
        self.addr = (a % 0x10000) as u16;
    }

    /// Advance the address after a data-port read, wrapping modulo the
    /// 16-bit range and folding addresses past the palette window back by
    /// 0x1F00 as the read path mirrors them.
    pub fn go_forward_mirroring(&mut self, step: u16)
        ensures
            final(self).high == old(self).high,
            final(self).addr == ({
                let a = (old(self).addr + step) % 0x10000;
                if a > 0x3EFF {
                    a - 0x1F00
                } else {
                    a
                }
            }),
    {
        let a: u32 = self.addr as u32 + step as u32;
        let a16: u16 = (a % 0x10000) as u16;
        self.addr = if a16 > 0x3EFF {
            a16 - 0x1F00
        } else {
            a16
        };
    }

    /// A status read resets the phase toggle to expect a high byte.
    pub fn reset(&mut self)
        ensures
            final(self).addr == old(self).addr,
            final(self).high,
    {
        self.high = true;
    }

    /// Store the written byte into the half the toggle selects and flip
    /// the toggle.
    pub fn write(&mut self, v: u8)
        ensures
            final(self).high == !old(self).high,
            final(self).addr == (if old(self).high {
                (v * 0x100) + (old(self).addr & 0x00FF)
            } else {
                (old(self).addr & 0xFF00) + v
            }),
    {
        if self.high {
            proof {
                crate::bits::lemma_u16_and_le(self.addr, 0x00FF);
            }
            self.addr = ((v as u16) << 8) | (self.addr & 0x00FF);
            proof {
                let vv = v;
                let a0 = old(self).addr;
                assert(((vv as u16) << 8) | (a0 & 0x00FF) == (vv as u16) * 0x100 + (a0 & 0x00FF))
                    by (bit_vector);
            }
        } else {
            self.addr = (self.addr & 0xFF00) | v as u16;
            proof {
                let vv = v;
                let a0 = old(self).addr;
                assert((a0 & 0xFF00) | (vv as u16) == (a0 & 0xFF00) + (vv as u16)) by (bit_vector);
                crate::bits::lemma_u16_and_le(a0, 0xFF00);
            }
        }
        self.high = !self.high;
    }
}

} // verus!

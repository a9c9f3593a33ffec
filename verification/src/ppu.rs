//! The picture processing unit: the scanline phase machine, background
//! and sprite rendering, sprite evaluation, the host-visible register
//! file and the vertical-blank interrupt. Its register-latch and palette
//! revisions live in the submodules.
//!
//! Timing is modelled by a ghost dot clock: one CPU cycle advances the
//! unit by three dots, and `ticks` proves that the machine it leaves
//! behind is exactly the spec clock advanced by that many dots.

pub mod palette;
pub mod registers;

use vstd::prelude::*;
use crate::i18n::Message;
use crate::mirroring::Mirroring;
use crate::mirroring::select_mirroring;
use crate::palette::Palette;
use crate::palette::palette_written;
use crate::ppu_registers::PPUAddress;
use crate::ppu_registers::PPUControl;
use crate::ppu_registers::PPUMask;
use crate::ppu_registers::PPUScroll;
use crate::ppu_registers::PPUStatus;
use crate::renderer::Renderer;
use crate::rom::Rom;
use crate::rom::mappers::mapper003::chr_byte;

verus! {

pub const PHRASE_PRE_RENDER: u8 = 0;

pub const PHRASE_VISIBLE_RENDER: u8 = 1;

pub const PHRASE_POST_RENDER: u8 = 2;

pub const PHRASE_START_VBL: u8 = 3;

pub const SCANLINE_CLK: u32 = 341;

/// The abstract dot clock: the phase, its length in dots, the dot
/// counter within the phase, and the even/odd frame toggle.
pub ghost struct DotClock {
    pub phrase: int,
    pub len: int,
    pub clk: int,
    pub even: bool,
}

/// Each phase's length in dots. The pre-render line loses one dot on odd
/// frames; the visible phase spans 240 scanlines and the vertical blank
/// twenty.
pub open spec fn phase_len(phrase: int, even: bool) -> int {
    if phrase == 0 {
        if even {
            341
        } else {
            340
        }
    } else if phrase == 1 {
        240 * 341int
    } else if phrase == 2 {
        341
    } else {
        20 * 341int
    }
}

pub open spec fn clock_wf(c: DotClock) -> bool {
    &&& 0 <= c.phrase <= 3
    &&& 0 <= c.clk < c.len
    &&& c.len == phase_len(c.phrase, c.even)
}

/// One dot: the counter advances; at the end of a phase the next phase
/// is loaded, and entering the pre-render line flips the frame toggle.
pub open spec fn tick_dot(c: DotClock) -> DotClock {
    if c.clk + 1 == c.len {
        let phrase = (c.phrase + 1) % 4;
        let even = if phrase == 0 {
            !c.even
        } else {
            c.even
        };
        DotClock { phrase, len: phase_len(phrase, even), clk: 0, even }
    } else {
        DotClock { clk: c.clk + 1, ..c }
    }
}

/// The clock after `t` dots.
pub open spec fn advance(c: DotClock, t: nat) -> DotClock
    decreases t,
{
    if t == 0 {
        c
    } else {
        advance(tick_dot(c), (t - 1) as nat)
    }
}

/// The dot on which the vertical blank flag is raised.
pub open spec fn is_vbl_dot(c: DotClock) -> bool {
    c.phrase == 3 && c.clk == 1
}

/// The dot on which vblank, sprite-zero hit and sprite overflow clear.
pub open spec fn is_clear_dot(c: DotClock) -> bool {
    c.phrase == 0 && c.clk == 1
}

/// A dot that completes the vertical blank: the next dot starts a new
/// frame.
pub open spec fn is_end_step(c: DotClock) -> bool {
    c.clk + 1 == c.len && c.phrase == 3
}

/// How many vblank-raising dots the next `t` dots contain.
pub open spec fn count_vbl(c: DotClock, t: nat) -> nat
    decreases t,
{
    if t == 0 {
        0
    } else {
        (if is_vbl_dot(c) {
            1nat
        } else {
            0
        }) + count_vbl(tick_dot(c), (t - 1) as nat)
    }
}

/// How many frame boundaries the next `t` dots cross.
pub open spec fn count_ends(c: DotClock, t: nat) -> nat
    decreases t,
{
    if t == 0 {
        0
    } else {
        (if is_end_step(c) {
            1nat
        } else {
            0
        }) + count_ends(tick_dot(c), (t - 1) as nat)
    }
}

/// The vblank flag after `t` dots, given its value `vb` now: raised on a
/// vblank dot, cleared on a pre-render clear dot, kept otherwise.
pub open spec fn vblank_after(c: DotClock, t: nat, vb: bool) -> bool
    decreases t,
{
    if t == 0 {
        vb
    } else {
        vblank_after(
            tick_dot(c),
            (t - 1) as nat,
            if is_vbl_dot(c) {
                true
            } else if is_clear_dot(c) {
                false
            } else {
                vb
            },
        )
    }
}

/// A status bit that only the pre-render clear dot touches: cleared
/// there, kept elsewhere. The sprite-zero-hit and sprite-overflow bits
/// follow this machine whenever the sprite pipeline is off.
pub open spec fn cleared_after(c: DotClock, t: nat, b: bool) -> bool
    decreases t,
{
    if t == 0 {
        b
    } else {
        cleared_after(
            tick_dot(c),
            (t - 1) as nat,
            if is_clear_dot(c) {
                false
            } else {
                b
            },
        )
    }
}

/// Appending one dot to an advance is one dot step at its end.
pub proof fn lemma_advance_snoc(c: DotClock, t: nat)
    ensures
        advance(c, t + 1) == tick_dot(advance(c, t)),
    decreases t,
{
    reveal_with_fuel(advance, 2);
    if t > 0 {
        lemma_advance_snoc(tick_dot(c), (t - 1) as nat);
    }
}

/// The vblank-dot count grows by the last dot's contribution.
pub proof fn lemma_count_vbl_snoc(c: DotClock, t: nat)
    ensures
        count_vbl(c, t + 1) == count_vbl(c, t) + (if is_vbl_dot(advance(c, t)) {
            1nat
        } else {
            0
        }),
    decreases t,
{
    reveal_with_fuel(advance, 2);
    reveal_with_fuel(count_vbl, 2);
    if t > 0 {
        lemma_count_vbl_snoc(tick_dot(c), (t - 1) as nat);
    }
}

/// The frame-boundary count grows by the last dot's contribution.
pub proof fn lemma_count_ends_snoc(c: DotClock, t: nat)
    ensures
        count_ends(c, t + 1) == count_ends(c, t) + (if is_end_step(advance(c, t)) {
            1nat
        } else {
            0
        }),
    decreases t,
{
    reveal_with_fuel(advance, 2);
    reveal_with_fuel(count_ends, 2);
    if t > 0 {
        lemma_count_ends_snoc(tick_dot(c), (t - 1) as nat);
    }
}

/// The vblank flag after one more dot follows the last dot's event.
pub proof fn lemma_vblank_after_snoc(c: DotClock, t: nat, vb: bool)
    ensures
        vblank_after(c, t + 1, vb) == (if is_vbl_dot(advance(c, t)) {
            true
        } else if is_clear_dot(advance(c, t)) {
            false
        } else {
            vblank_after(c, t, vb)
        }),
    decreases t,
{
    reveal_with_fuel(advance, 2);
    reveal_with_fuel(vblank_after, 2);
    if t > 0 {
        lemma_vblank_after_snoc(
            tick_dot(c),
            (t - 1) as nat,
            if is_vbl_dot(c) {
                true
            } else if is_clear_dot(c) {
                false
            } else {
                vb
            },
        );
    }
}

/// Whether the sprite whose four OAM bytes start at `i` covers scanline
/// `line`: its y byte plus one is the top row, and it spans eight rows.
pub open spec fn sprite_match(oam: Seq<u8>, i: int, line: u8) -> bool {
    let y = oam[i] + 1;
    line >= y && line - y < 8
}

/// How many sprites match the line when primary OAM is scanned from slot
/// `i` in four-byte steps; the scan ends past slot 252.
pub open spec fn count_matches(oam: Seq<u8>, i: int, line: u8) -> nat
    decreases (if i <= 252 { 253 - i } else { 0int }),
{
    if i < 0 || i > 252 {
        0
    } else {
        (if sprite_match(oam, i, line) {
            1nat
        } else {
            0
        }) + count_matches(oam, i + 4, line)
    }
}

/// The OAM slot of the n-th matching sprite (counting from zero) when
/// scanning from slot `i`; negative when fewer than n+1 sprites match.
pub open spec fn nth_match(oam: Seq<u8>, i: int, line: u8, n: nat) -> int
    decreases (if i <= 252 { 253 - i } else { 0int }),
{
    if i < 0 || i > 252 {
        -1
    } else if sprite_match(oam, i, line) {
        if n == 0 {
            i
        } else {
            nth_match(oam, i + 4, line, (n - 1) as nat)
        }
    } else {
        nth_match(oam, i + 4, line, n)
    }
}

/// When `n` sprites match between slot `start` and slot `i` of the scan
/// grid and slot `i` itself matches, slot `i` is the n-th match.
pub proof fn lemma_nth_from_count(oam: Seq<u8>, start: int, i: int, line: u8, n: nat)
    requires
        0 <= start <= i <= 252,
        (i - start) % 4 == 0,
        count_matches(oam, start, line) == n + count_matches(oam, i, line),
        sprite_match(oam, i, line),
    ensures
        nth_match(oam, start, line, n) == i,
    decreases i - start,
{
    lemma_count_ge(oam, start, i, line);
    if start < i {
        lemma_count_ge(oam, start + 4, i, line);
        if sprite_match(oam, start, line) {
            lemma_nth_from_count(oam, start + 4, i, line, (n - 1) as nat);
        } else {
            lemma_nth_from_count(oam, start + 4, i, line, n);
        }
    }
}

/// Scanning from an earlier slot never finds fewer matches.
pub proof fn lemma_count_ge(oam: Seq<u8>, a: int, b: int, line: u8)
    requires
        0 <= a <= b,
        (b - a) % 4 == 0,
    ensures
        count_matches(oam, a, line) >= count_matches(oam, b, line),
    decreases b - a,
{
    if a < b {
        lemma_count_ge(oam, a + 4, b, line);
    }
}

/// The scanline picture unit.
pub struct PPU {
    pub renderer: Renderer,
    pub memory: Vec<u8>,
    pub data_buffer: u8,
    pub palette: Palette,
    pub oam: Vec<u8>,
    pub secondary_oam: Vec<u8>,
    pub sprite_count: u8,
    pub sprite_0: bool,
    pub oam_clear: bool,
    pub oam_addr: u8,
    pub oam_index: u8,
    pub wait_cpu: bool,
    pub even: bool,
    pub ppu_ctrl: PPUControl,
    pub ppu_mask: PPUMask,
    pub ppu_status: PPUStatus,
    pub ppu_scroll: PPUScroll,
    pub ppu_addr: PPUAddress,
    pub phrase: u8,
    pub phrase_clk: u32,
    pub clk_counter: u32,
    pub mirroring: Mirroring,
}

/// What a read of the PPU's own address space returns: pattern space from
/// the cartridge's CHR banks, nametable space through the mirroring
/// policy, the palette above that.
pub open spec fn ppu_read_value(p: PPU, rom: Rom, addr: u16) -> u8 {
    if addr & 0xF000 == 0 || addr & 0xF000 == 0x1000 {
        chr_byte(rom.mapper, addr)
    } else if addr < 0x3EFF {
        p.memory@[p.mirroring.index(addr & 0x0FFF)]
    } else {
        p.palette.data@[(addr & 0x1F) as int]
    }
}

impl PPU {
    /// The abstract dot clock this unit is at.
    pub open spec fn clock(&self) -> DotClock {
        DotClock {
            phrase: self.phrase as int,
            len: self.phrase_clk as int,
            clk: self.clk_counter as int,
            even: self.even,
        }
    }

    pub open spec fn wf(&self) -> bool {
        &&& self.renderer.wf()
        &&& self.memory@.len() == 2048
        &&& self.palette.wf()
        &&& self.oam@.len() == 256
        &&& self.secondary_oam@.len() == 32
        &&& self.sprite_count <= 8
        &&& self.ppu_ctrl.wf()
        &&& self.ppu_status.wf()
        &&& clock_wf(self.clock())
    }

    /// Everything the dot clock never touches: the latches, the memories
    /// and the data-port state.
    pub open spec fn same_peripherals(pre: PPU, post: PPU) -> bool {
        &&& post.memory == pre.memory
        &&& post.data_buffer == pre.data_buffer
        &&& post.palette == pre.palette
        &&& post.oam == pre.oam
        &&& post.oam_addr == pre.oam_addr
        &&& post.oam_index == pre.oam_index
        &&& post.wait_cpu == pre.wait_cpu
        &&& post.ppu_ctrl == pre.ppu_ctrl
        &&& post.ppu_mask == pre.ppu_mask
        &&& post.ppu_scroll == pre.ppu_scroll
        &&& post.ppu_addr == pre.ppu_addr
        &&& post.mirroring == pre.mirroring
    }

    /// Power-on state: cleared memories, the pre-render phase at dot
    /// zero, and the cold-start latch that ignores early register writes.
    pub fn new(rom: &Rom) -> (r: PPU)
        requires
            rom.mirroring is Some,
        ensures
            r.wf(),
            r.wait_cpu,
            r.phrase == PHRASE_PRE_RENDER && r.clk_counter == 0 && r.even,
            !r.ppu_status.vertical_blank,
            !r.ppu_ctrl.nmi,
            r.mirroring == (if rom.mirroring->Some_0 == 0 {
                Mirroring::Horizontal
            } else {
                Mirroring::Vertical
            }),
    {
        PPU {
            renderer: Renderer::new(),
            oam: vec![0u8; 256],
            secondary_oam: vec![0u8; 32],
            sprite_count: 0,
            sprite_0: false,
            oam_clear: false,
            oam_addr: 0,
            oam_index: 0,
            palette: Palette::new(),
            memory: vec![0u8; 2048],
            data_buffer: 0,
            wait_cpu: true,
            even: true,
            ppu_ctrl: PPUControl::new(),
            ppu_mask: PPUMask::new(),
            ppu_status: PPUStatus::new(),
            ppu_scroll: PPUScroll::new(),
            ppu_addr: PPUAddress::new(),
            phrase: PHRASE_PRE_RENDER,
            phrase_clk: SCANLINE_CLK,
            clk_counter: 0,
            mirroring: select_mirroring(rom),
        }
    }

    /// Read the PPU's own address space.
    fn read(&self, addr: u16, rom: &Rom) -> (r: u8)
        requires
            self.wf(),
            rom.wf(),
        ensures
            r == ppu_read_value(*self, *rom, addr),
    {
        let mark = addr & 0xF000;
        if mark == 0 || mark == 0x1000 {
            rom.mapper().chr_read(addr)
        } else if addr < 0x3EFF {
            let address = addr & 0x0FFF;
            self.mirroring.read(address, &self.memory, rom)
        } else {
            self.palette.read(addr)
        }
    }

    /// Write the PPU's own address space.
    fn write(&mut self, addr: u16, v: u8, rom: &mut Rom)
        requires
            old(self).wf(),
            old(rom).wf(),
        ensures
            final(self).wf(),
            final(rom).wf(),
            *final(rom) == *old(rom),
            final(self).clock() == old(self).clock(),
            ({
                let mark = addr & 0xF000;
                if mark == 0 || mark == 0x1000 {
                    *final(self) == *old(self)
                } else if addr < 0x3EFF {
                    *final(self) == (PPU { memory: final(self).memory, ..*old(self) })
                        && final(self).memory@ == old(self).memory@.update(
                        old(self).mirroring.index(addr & 0x0FFF),
                        v,
                    )
                } else {
                    *final(self) == (PPU { palette: final(self).palette, ..*old(self) })
                        && final(self).palette.data@ == palette_written(
                        old(self).palette.data@,
                        addr,
                        v,
                    )
                }
            }),
    {
        let mark = addr & 0xF000;
        if mark == 0 || mark == 0x1000 {
            rom.mapper_mut().chr_write(addr, v);
        } else if addr < 0x3EFF {
            let address = addr & 0x0FFF;
            proof {
                crate::mirroring::lemma_mirroring_index_bound(self.mirroring, address);
            }
            let m = self.mirroring;
            m.write(address, v, &mut self.memory, rom);
        } else {
            self.palette.write(addr, v);
        }
    }

    /// The cold-start latch is lifted once enough CPU cycles have run.
    pub fn stop_waiting(&mut self)
        ensures
            *final(self) == (PPU { wait_cpu: false, ..*old(self) }),
    {
        self.wait_cpu = false;
    }

    /// One byte of an OAM DMA burst: store at the write index and advance
    /// it with wraparound, returning the new index.
    pub fn fill_oam(&mut self, v: u8) -> (r: u8)
        requires
            old(self).wf(),
        ensures
            final(self).wf(),
            final(self).oam@ == old(self).oam@.update(old(self).oam_index as int, v),
            final(self).oam_index == (if old(self).oam_index == 255 {
                0int
            } else {
                old(self).oam_index + 1
            }),
            r == final(self).oam_index,
            *final(self) == (PPU {
                oam: final(self).oam,
                oam_index: final(self).oam_index,
                ..*old(self)
            }),
    {
        self.oam[self.oam_index as usize] = v;
        self.oam_index = if self.oam_index == 255 {
            0
        } else {
            self.oam_index + 1
        };
        self.oam_index
    }

    /// Read a host-visible register (the index is the address modulo 8).
    /// Control, mask, OAM address, scroll and address are write-only:
    /// reading them is an invalid access. A status read returns the
    /// latched byte, clears vblank and resets the address toggle. An OAM
    /// data read returns 0xFF during the clear window. A data-port read
    /// is buffered below the palette and direct at the palette, and
    /// advances the address by the auto-increment step.
    pub fn read_register(&mut self, addr: u16, rom: &Rom) -> (r: Result<u8, Message>)
        requires
            old(self).wf(),
            rom.wf(),
        ensures
            final(self).wf(),
            ({
                let index = addr & 0x07;
                if index == 2 {
                    &&& r == Ok::<u8, Message>(old(self).ppu_status.value)
                    &&& !final(self).ppu_status.vertical_blank
                    &&& final(self).ppu_status.value == old(self).ppu_status.value & 0x7F
                    &&& final(self).ppu_addr == (PPUAddress { high: true, ..old(self).ppu_addr })
                    &&& *final(self) == (PPU {
                        ppu_status: final(self).ppu_status,
                        ppu_addr: final(self).ppu_addr,
                        ..*old(self)
                    })
                } else if index == 4 {
                    &&& r == Ok::<u8, Message>(
                        if old(self).oam_clear {
                            0xFFu8
                        } else {
                            old(self).oam@[old(self).oam_addr as int]
                        },
                    )
                    &&& *final(self) == *old(self)
                } else if index == 7 {
                    let a = old(self).ppu_addr.addr;
                    let v = ppu_read_value(*old(self), *rom, a);
                    &&& r == Ok::<u8, Message>(
                        if a >= 0x3F00 {
                            v
                        } else {
                            old(self).data_buffer
                        },
                    )
                    &&& final(self).data_buffer == v
                    &&& final(self).ppu_addr.high == old(self).ppu_addr.high
                    &&& final(self).ppu_addr.addr == ({
                        let n = (a + old(self).ppu_ctrl.vram_step) % 0x10000;
                        if n > 0x3EFF {
                            n - 0x1F00
                        } else {
                            n
                        }
                    })
                    &&& *final(self) == (PPU {
                        data_buffer: final(self).data_buffer,
                        ppu_addr: final(self).ppu_addr,
                        ..*old(self)
                    })
                } else {
                    &&& r == Err::<u8, Message>(Message::InvalidPpuRegisterAccess)
                    &&& *final(self) == *old(self)
                }
            }),
    {
        let index = addr & 0x07;
        proof {
            crate::bits::lemma_u16_and_le(addr, 0x07);
        }
        if index == 2 {
            let status = self.ppu_status.value();
            self.ppu_status.set_vertical_blank(false);
            self.ppu_addr.reset();
            Ok(status)
        } else if index == 4 {
            if self.oam_clear {
                Ok(0xFF)
            } else {
                Ok(self.oam[self.oam_addr as usize])
            }
        } else if index == 7 {
            let a = self.ppu_addr.addr();
            let v = self.read(a, rom);
            let buffer = self.data_buffer;
            self.data_buffer = v;
            let step = self.ppu_ctrl.vram_step();
            self.ppu_addr.go_forward_mirroring(step);
            if a >= 0x3F00 {
                Ok(v)
            } else {
                Ok(buffer)
            }
        } else {
            Err(Message::InvalidPpuRegisterAccess)
        }
    }


    /// A control write: latch the byte unless the cold-start latch holds;
    /// report whether this write must raise an immediate NMI.
    fn write_control(&mut self, v: u8) -> (r: bool)
        requires
            old(self).wf(),
        ensures
            final(self).wf(),
            *final(self) == (if old(self).wait_cpu {
                *old(self)
            } else {
                PPU {
                    ppu_ctrl: crate::ppu_registers::control_after(old(self).ppu_ctrl, v),
                    ..*old(self)
                }
            }),
            r == (!old(self).wait_cpu && old(self).ppu_status.vertical_blank && !old(
                self,
            ).ppu_ctrl.nmi && (v & 0x80 > 0)),
    {
        if !self.wait_cpu {
            let prev_nmi = self.ppu_ctrl.nmi();
            self.ppu_ctrl.set(v);
            self.ppu_status.vertical_blank() && !prev_nmi && self.ppu_ctrl.nmi()
        } else {
            false
        }
    }

    /// An OAM data write: stored only during vertical blank; the pointer
    /// always advances, wrapping at the end of OAM.
    fn write_oam_data(&mut self, v: u8)
        requires
            old(self).wf(),
        ensures
            final(self).wf(),
            final(self).oam@ == (if old(self).ppu_status.vertical_blank {
                old(self).oam@.update(old(self).oam_addr as int, v)
            } else {
                old(self).oam@
            }),
            final(self).oam_addr == (old(self).oam_addr + 1) % 256,
            *final(self) == (PPU {
                oam: final(self).oam,
                oam_addr: final(self).oam_addr,
                ..*old(self)
            }),
    {
        if self.ppu_status.vertical_blank() {
            self.oam[self.oam_addr as usize] = v;
        }
        self.oam_addr = if self.oam_addr == 255 {
            0
        } else {
            self.oam_addr + 1
        };
    }

    /// A data-port write: store through the address decoder and advance
    /// the address by the auto-increment step.
    #[verifier::rlimit(100)]
    #[verifier::spinoff_prover]
    fn write_data(&mut self, v: u8, rom: &mut Rom)
        requires
            old(self).wf(),
            old(rom).wf(),
        ensures
            final(self).wf(),
            *final(rom) == *old(rom),
            ({
                let a = old(self).ppu_addr.addr;
                &&& (if a & 0xF000 == 0 || a & 0xF000 == 0x1000 {
                    final(self).memory == old(self).memory && final(self).palette == old(
                        self,
                    ).palette
                } else if a < 0x3EFF {
                    final(self).memory@ == old(self).memory@.update(
                        old(self).mirroring.index(a & 0x0FFF),
                        v,
                    ) && final(self).palette == old(self).palette
                } else {
                    final(self).memory == old(self).memory && final(self).palette.data@
                        == palette_written(old(self).palette.data@, a, v)
                })
                &&& final(self).ppu_addr.high == old(self).ppu_addr.high
                &&& final(self).ppu_addr.addr == (a + old(self).ppu_ctrl.vram_step) % 0x10000
                &&& *final(self) == (PPU {
                    memory: final(self).memory,
                    palette: final(self).palette,
                    ppu_addr: final(self).ppu_addr,
                    ..*old(self)
                })
            }),
    {
        let a = self.ppu_addr.addr();
        self.write(a, v, rom);
        let step = self.ppu_ctrl.vram_step();
        self.ppu_addr.go_forward(step);
    }

    /// Write a host-visible register (the index is the address modulo 8).
    /// The status register is read-only: writing it is an invalid access.
    /// Until the cold-start latch lifts, writes to control, mask, scroll
    /// and address are ignored. The call returns true exactly when a
    /// control write enables the interrupt while vblank is set and it was
    /// disabled before: the one write that raises an immediate NMI.
    #[verifier::rlimit(100)]
    #[verifier::spinoff_prover]
    pub fn write_register(&mut self, addr: u16, v: u8, rom: &mut Rom) -> (r: Result<
        bool,
        Message,
    >)
        requires
            old(self).wf(),
            old(rom).wf(),
        ensures
            final(self).wf(),
            *final(rom) == *old(rom),
            ({
                let index = addr & 0x07;
                if index == 0 {
                    if old(self).wait_cpu {
                        &&& *final(self) == *old(self)
                        &&& r == Ok::<bool, Message>(false)
                    } else {
                        &&& *final(self) == (PPU {
                            ppu_ctrl: crate::ppu_registers::control_after(old(self).ppu_ctrl, v),
                            ..*old(self)
                        })
                        &&& r == Ok::<bool, Message>(
                            old(self).ppu_status.vertical_blank && !old(self).ppu_ctrl.nmi && (v
                                & 0x80 > 0),
                        )
                    }
                } else if index == 1 {
                    &&& *final(self) == (if old(self).wait_cpu {
                        *old(self)
                    } else {
                        PPU { ppu_mask: crate::ppu_registers::mask_after(v), ..*old(self) }
                    })
                    &&& r == Ok::<bool, Message>(false)
                } else if index == 2 {
                    &&& *final(self) == *old(self)
                    &&& r == Err::<bool, Message>(Message::InvalidPpuRegisterAccess)
                } else if index == 3 {
                    &&& *final(self) == (PPU { oam_addr: v, oam_index: v, ..*old(self) })
                    &&& r == Ok::<bool, Message>(false)
                } else if index == 4 {
                    &&& final(self).oam@ == (if old(self).ppu_status.vertical_blank {
                        old(self).oam@.update(old(self).oam_addr as int, v)
                    } else {
                        old(self).oam@
                    })
                    &&& final(self).oam_addr == (old(self).oam_addr + 1) % 256
                    &&& *final(self) == (PPU {
                        oam: final(self).oam,
                        oam_addr: final(self).oam_addr,
                        ..*old(self)
                    })
                    &&& r == Ok::<bool, Message>(false)
                } else if index == 5 {
                    &&& *final(self) == (if old(self).wait_cpu {
                        *old(self)
                    } else {
                        PPU {
                            ppu_scroll: crate::ppu_registers::scroll_after(old(self).ppu_scroll, v),
                            ..*old(self)
                        }
                    })
                    &&& r == Ok::<bool, Message>(false)
                } else if index == 6 {
                    &&& *final(self) == (if old(self).wait_cpu {
                        *old(self)
                    } else {
                        PPU {
                            ppu_addr: crate::ppu_registers::address_after(old(self).ppu_addr, v),
                            ..*old(self)
                        }
                    })
                    &&& r == Ok::<bool, Message>(false)
                } else {
                    let a = old(self).ppu_addr.addr;
                    &&& (if a & 0xF000 == 0 || a & 0xF000 == 0x1000 {
                        final(self).memory == old(self).memory && final(self).palette == old(
                            self,
                        ).palette
                    } else if a < 0x3EFF {
                        final(self).memory@ == old(self).memory@.update(
                            old(self).mirroring.index(a & 0x0FFF),
                            v,
                        ) && final(self).palette == old(self).palette
                    } else {
                        final(self).memory == old(self).memory && final(self).palette.data@
                            == palette_written(old(self).palette.data@, a, v)
                    })
                    &&& final(self).ppu_addr.high == old(self).ppu_addr.high
                    &&& final(self).ppu_addr.addr == (a + old(self).ppu_ctrl.vram_step) % 0x10000
                    &&& *final(self) == (PPU {
                        memory: final(self).memory,
                        palette: final(self).palette,
                        ppu_addr: final(self).ppu_addr,
                        ..*old(self)
                    })
                    &&& r == Ok::<bool, Message>(false)
                }
            }),
    {
        let index = addr & 0x07;
        proof {
            crate::bits::lemma_u16_and_le(addr, 0x07);
        }
        if index == 0 {
            let raise = self.write_control(v);
            Ok(raise)
        } else if index == 1 {
            if !self.wait_cpu {
                self.ppu_mask.set(v);
            }
            Ok(false)
        } else if index == 2 {
            Err(Message::InvalidPpuRegisterAccess)
        } else if index == 3 {
            self.oam_addr = v;
            self.oam_index = v;
            Ok(false)
        } else if index == 4 {
            self.write_oam_data(v);
            Ok(false)
        } else if index == 5 {
            if !self.wait_cpu {
                self.ppu_scroll.write(v);
            }
            Ok(false)
        } else if index == 6 {
            if !self.wait_cpu {
                self.ppu_addr.write(v);
            }
            Ok(false)
        } else {
            self.write_data(v, rom);
            Ok(false)
        }
    }

    /// Sprite evaluation for one scanline: scan primary OAM from the
    /// current pointer in four-byte steps and copy the first up to eight
    /// sprites whose vertical range covers the line into secondary OAM; a
    /// ninth match sets the overflow flag. Records whether the first
    /// scanned sprite was copied.
    fn detect_sprite(&mut self, line: u8)
        requires
            old(self).wf(),
        ensures
            final(self).wf(),
            ({
                let oam = old(self).oam@;
                let start = old(self).oam_addr as int;
                let total = count_matches(oam, start, line);
                &&& final(self).sprite_count == (if total < 8 {
                    total as int
                } else {
                    8int
                })
                &&& final(self).sprite_0 == (start <= 252 && sprite_match(oam, start, line))
                &&& final(self).ppu_status.value & 0x20 == (if total > 8 {
                    0x20u8
                } else {
                    old(self).ppu_status.value & 0x20
                })
                &&& forall|n: int, j: int|
                    0 <= n < final(self).sprite_count && 0 <= j < 4
                        ==> #[trigger] final(self).secondary_oam@[4 * n + j] == oam[nth_match(
                        oam,
                        start,
                        line,
                        n as nat,
                    ) + j]
                &&& forall|k: int|
                    4 * final(self).sprite_count <= k < 32 ==> final(self).secondary_oam@[k]
                        == old(self).secondary_oam@[k]
            }),
            final(self).ppu_status.vertical_blank == old(self).ppu_status.vertical_blank,
            final(self).ppu_status.value & 0x40 == old(self).ppu_status.value & 0x40,
            final(self).clock() == old(self).clock(),
            final(self).oam == old(self).oam,
            final(self).memory == old(self).memory,
            final(self).palette == old(self).palette,
            final(self).data_buffer == old(self).data_buffer,
            final(self).renderer == old(self).renderer,
            final(self).oam_addr == old(self).oam_addr,
            final(self).oam_index == old(self).oam_index,
            final(self).oam_clear == old(self).oam_clear,
            final(self).wait_cpu == old(self).wait_cpu,
            final(self).ppu_ctrl == old(self).ppu_ctrl,
            final(self).ppu_mask == old(self).ppu_mask,
            final(self).ppu_scroll == old(self).ppu_scroll,
            final(self).ppu_addr == old(self).ppu_addr,
            final(self).mirroring == old(self).mirroring,
    {
        let ghost oam = self.oam@;
        let ghost start = self.oam_addr as int;
        let ghost total = count_matches(oam, start, line);
        self.sprite_count = 0;
        self.sprite_0 = false;
        let mut i: u8 = self.oam_addr;
        loop
            invariant_except_break
                self.wf(),
                oam == old(self).oam@,
                start == old(self).oam_addr as int,
                total == count_matches(oam, start, line),
                start <= i,
                (i - start) % 4 == 0,
                start <= 252 || i == start,
                self.sprite_count <= 8,
                self.sprite_count + count_matches(oam, i as int, line) == total,
                self.sprite_0 == (i > start && start <= 252 && sprite_match(oam, start, line)),
                forall|n: int, j: int|
                    0 <= n < self.sprite_count && 0 <= j < 4
                        ==> #[trigger] self.secondary_oam@[4 * n + j] == oam[nth_match(
                        oam,
                        start,
                        line,
                        n as nat,
                    ) + j],
                forall|k: int|
                    4 * self.sprite_count <= k < 32 ==> self.secondary_oam@[k] == old(
                        self,
                    ).secondary_oam@[k],
                self.ppu_status == old(self).ppu_status,
                self.clock() == old(self).clock(),
                self.oam == old(self).oam,
                self.memory == old(self).memory,
                self.palette == old(self).palette,
                self.data_buffer == old(self).data_buffer,
                self.renderer == old(self).renderer,
                self.oam_addr == old(self).oam_addr,
                self.oam_index == old(self).oam_index,
                self.oam_clear == old(self).oam_clear,
                self.wait_cpu == old(self).wait_cpu,
                self.ppu_ctrl == old(self).ppu_ctrl,
                self.ppu_mask == old(self).ppu_mask,
                self.ppu_scroll == old(self).ppu_scroll,
                self.ppu_addr == old(self).ppu_addr,
                self.mirroring == old(self).mirroring,
            ensures
                self.wf(),
                oam == old(self).oam@,
                start == old(self).oam_addr as int,
                total == count_matches(oam, start, line),
                self.sprite_count == (if total < 8 {
                    total as int
                } else {
                    8int
                }),
                self.sprite_0 == (start <= 252 && sprite_match(oam, start, line)),
                self.ppu_status.value & 0x20 == (if total > 8 {
                    0x20u8
                } else {
                    old(self).ppu_status.value & 0x20
                }),
                self.ppu_status.vertical_blank == old(self).ppu_status.vertical_blank,
                self.ppu_status.value & 0x40 == old(self).ppu_status.value & 0x40,
                forall|n: int, j: int|
                    0 <= n < self.sprite_count && 0 <= j < 4
                        ==> #[trigger] self.secondary_oam@[4 * n + j] == oam[nth_match(
                        oam,
                        start,
                        line,
                        n as nat,
                    ) + j],
                forall|k: int|
                    4 * self.sprite_count <= k < 32 ==> self.secondary_oam@[k] == old(
                        self,
                    ).secondary_oam@[k],
                self.clock() == old(self).clock(),
                self.oam == old(self).oam,
                self.memory == old(self).memory,
                self.palette == old(self).palette,
                self.data_buffer == old(self).data_buffer,
                self.oam_addr == old(self).oam_addr,
                self.oam_index == old(self).oam_index,
                self.oam_clear == old(self).oam_clear,
                self.renderer == old(self).renderer,
                self.wait_cpu == old(self).wait_cpu,
                self.ppu_ctrl == old(self).ppu_ctrl,
                self.ppu_mask == old(self).ppu_mask,
                self.ppu_scroll == old(self).ppu_scroll,
                self.ppu_addr == old(self).ppu_addr,
                self.mirroring == old(self).mirroring,
            decreases 255 - i,
        {
            let dist: u8 = 255 - i;
            if dist < 3 {
                proof {
                    assert(count_matches(oam, i as int, line) == 0);
                }
                break;
            }
            let y: u16 = self.oam[i as usize] as u16 + 1;
            if line as u16 >= y && (line as u16 - y) < 8 {
                if self.sprite_count >= 8 {
                    self.ppu_status.set_sprite_overflow(true);
                    proof {
                        assert(count_matches(oam, i as int, line) >= 1);
                    }
                    break;
                } else {
                    proof {
                        lemma_nth_from_count(oam, start, i as int, line, self.sprite_count as nat);
                    }
                    let mut j: usize = 0;
                    while j < 4
                        invariant
                            self.wf(),
                            oam == old(self).oam@,
                            start == old(self).oam_addr as int,
                            total == count_matches(oam, start, line),
                            j <= 4,
                            start <= i <= 252,
                            (i - start) % 4 == 0,
                            sprite_match(oam, i as int, line),
                            self.sprite_count < 8,
                            self.sprite_count + count_matches(oam, i as int, line) == total,
                            nth_match(oam, start, line, self.sprite_count as nat) == i,
                            self.sprite_0 == (i > start && start <= 252 && sprite_match(
                                oam,
                                start,
                                line,
                            )),
                            forall|jj: int|
                                0 <= jj < j ==> #[trigger] self.secondary_oam@[4
                                    * self.sprite_count + jj] == oam[i + jj],
                            forall|n: int, jj: int|
                                0 <= n < self.sprite_count && 0 <= jj < 4
                                    ==> #[trigger] self.secondary_oam@[4 * n + jj] == oam[nth_match(
                                    oam,
                                    start,
                                    line,
                                    n as nat,
                                ) + jj],
                            forall|k: int|
                                4 * self.sprite_count + j <= k < 32 ==> self.secondary_oam@[k]
                                    == old(self).secondary_oam@[k],
                            self.ppu_status == old(self).ppu_status,
                            self.clock() == old(self).clock(),
                            self.oam == old(self).oam,
                            self.memory == old(self).memory,
                            self.palette == old(self).palette,
                            self.data_buffer == old(self).data_buffer,
                            self.renderer == old(self).renderer,
                            self.oam_addr == old(self).oam_addr,
                            self.oam_index == old(self).oam_index,
                            self.oam_clear == old(self).oam_clear,
                            self.wait_cpu == old(self).wait_cpu,
                            self.ppu_ctrl == old(self).ppu_ctrl,
                            self.ppu_mask == old(self).ppu_mask,
                            self.ppu_scroll == old(self).ppu_scroll,
                            self.ppu_addr == old(self).ppu_addr,
                            self.mirroring == old(self).mirroring,
                        decreases 4 - j,
                    {
                        let b = self.oam[i as usize + j];
                        let sc = self.sprite_count;
                        self.secondary_oam[4 * sc as usize + j] = b;
                        j += 1;
                    }
                    if i == self.oam_addr {
                        self.sprite_0 = true;
                    }
                    self.sprite_count += 1;
                }
            }
            if dist == 3 {
                proof {
                    assert(count_matches(oam, i as int + 4, line) == 0);
                }
                break;
            } else {
                i += 4;
            }
        }
    }

    /// One dot of a visible scanline: background sampling, the sprite
    /// evaluation windows, sprite pixel emission and the line merge. The
    /// dot clock itself is advanced by the caller.
    #[verifier::rlimit(100)]
    #[verifier::spinoff_prover]
    fn visible_dot(&mut self, rom: &Rom)
        requires
            old(self).wf(),
            rom.wf(),
            old(self).phrase == 1,
        ensures
            final(self).wf(),
            final(self).ppu_status.vertical_blank == old(self).ppu_status.vertical_blank,
            !old(self).ppu_mask.show_sprite ==> final(self).ppu_status == old(self).ppu_status,
            final(self).clock() == old(self).clock(),
            final(self).oam == old(self).oam,
            final(self).memory == old(self).memory,
            final(self).palette == old(self).palette,
            final(self).data_buffer == old(self).data_buffer,
            final(self).oam_addr == old(self).oam_addr,
            final(self).oam_index == old(self).oam_index,
            final(self).wait_cpu == old(self).wait_cpu,
            final(self).ppu_ctrl == old(self).ppu_ctrl,
            final(self).ppu_mask == old(self).ppu_mask,
            final(self).ppu_scroll == old(self).ppu_scroll,
            final(self).ppu_addr == old(self).ppu_addr,
            final(self).mirroring == old(self).mirroring,
    {
        let tick: u16 = (self.clk_counter % SCANLINE_CLK) as u16;
        if tick == 0 {
            self.renderer.clear_buffer();
        } else {
            let line: u16 = (self.clk_counter / SCANLINE_CLK) as u16;

            if self.ppu_mask.show_background() && tick < 257 {
                let mut x: u16 = tick - 1 + self.ppu_scroll.x() as u16;
                let mut y: u16 = line + self.ppu_scroll.y() as u16;
                let mut nt_base: u16 = self.ppu_ctrl.nt_base();
                if x >= 256 {
                    x -= 256;
                    proof {
                        lemma_nt_toggle(nt_base, 0x0400);
                    }
                    nt_base ^= 0x0400;
                }
                if y >= 240 {
                    y -= 240;
                    proof {
                        lemma_nt_toggle(nt_base, 0x0800);
                    }
                    nt_base ^= 0x0800;
                }

                let nt_offset_x: u16 = x / 8;
                let nt_offset_y: u16 = y / 8;

                let attr = self.read(nt_base + 960 + nt_offset_y / 4 * 8 + nt_offset_x / 4, rom);
                let attr_offset: u32 = (nt_offset_x % 4 / 2 * 4 + nt_offset_y % 4 / 2 * 2) as u32;
                let palette_index: u8 = (attr >> attr_offset) & 0x03;
                proof {
                    crate::bits::lemma_u8_and_le(((attr as u8) >> attr_offset) as u8, 0x03);
                }
                let palette_addr: u16 = 0x3F00 + 4 * palette_index as u16;

                let pattern_index = self.read(nt_base + nt_offset_y * 32 + nt_offset_x, rom);
                let pattern_addr: u16 = self.ppu_ctrl.background_pattern() + pattern_index as u16
                    * 16 + y % 8;
                let pattern_low = self.read(pattern_addr, rom);
                let pattern_high = self.read(pattern_addr + 8, rom);

                let pattern_offset: u32 = (x % 8) as u32;
                let hi: u8 = (pattern_high >> (7 - pattern_offset)) & 0x01;
                let lo: u8 = (pattern_low >> (7 - pattern_offset)) & 0x01;
                proof {
                    crate::bits::lemma_u8_and_le((pattern_high >> (7 - pattern_offset)) as u8, 0x01);
                    crate::bits::lemma_u8_and_le((pattern_low >> (7 - pattern_offset)) as u8, 0x01);
                }
                let c: u8 = hi * 2 + lo;
                if c > 0 {
                    let color = self.palette.read(palette_addr + c as u16);
                    self.renderer.set_background((tick - 1) as u8, color);
                }
            }
            if self.ppu_mask.show_sprite() && line > 0 {
                if tick == 1 {
                    self.oam_clear = true;
                } else if tick == 65 {
                    self.oam_clear = false;
                    self.detect_sprite(line as u8);
                } else if tick > 256 && self.sprite_count > 0 && (tick - 1) % 8 == 0 {
                    self.sprite_count = self.sprite_count - 1;
                    let sc: usize = self.sprite_count as usize;

                    let y: u16 = self.secondary_oam[4 * sc] as u16 + 1;
                    let pattern_index = self.secondary_oam[4 * sc + 1];
                    let sprite_attr = self.secondary_oam[4 * sc + 2];
                    let x = self.secondary_oam[4 * sc + 3];

                    let pattern_addr_base: u16 = self.ppu_ctrl.sprite_pattern() + pattern_index
                        as u16 * 16;
                    // The pattern row for this line, or its vertical
                    // mirror for a flipped sprite; a sprite that does not
                    // cover the line reads row zero rather than indexing
                    // outside its eight rows.
                    let row: u16 = if sprite_attr & 0x80 == 0 {
                        if line >= y && line - y <= 7 {
                            line - y
                        } else {
                            0
                        }
                    } else {
                        if y + 7 >= line && line >= y {
                            y + 7 - line
                        } else {
                            0
                        }
                    };
                    let pattern_addr: u16 = pattern_addr_base + row;
                    let pattern_low = self.read(pattern_addr, rom);
                    let pattern_high = self.read(pattern_addr + 8, rom);
                    proof {
                        crate::bits::lemma_u8_and_le(sprite_attr, 0x03);
                    }
                    let palette_addr: u16 = 0x3F10 + 4 * (sprite_attr & 0x03) as u16;
                    let mut i: u32 = 0;
                    while i < 8
                        invariant
                            self.wf(),
                            rom.wf(),
                            i <= 8,
                            palette_addr <= 0x3F1C,
                            self.ppu_status.vertical_blank == old(
                                self,
                            ).ppu_status.vertical_blank,
                            self.clock() == old(self).clock(),
                            self.oam == old(self).oam,
                            self.memory == old(self).memory,
                            self.palette == old(self).palette,
                            self.data_buffer == old(self).data_buffer,
                            self.oam_addr == old(self).oam_addr,
                            self.oam_index == old(self).oam_index,
                            self.wait_cpu == old(self).wait_cpu,
                            self.ppu_ctrl == old(self).ppu_ctrl,
                            self.ppu_mask == old(self).ppu_mask,
                            self.ppu_scroll == old(self).ppu_scroll,
                            self.ppu_addr == old(self).ppu_addr,
                            self.mirroring == old(self).mirroring,
                        decreases 8 - i,
                    {
                        let hi: u8 = if sprite_attr & 0x40 == 0 {
                            (pattern_high >> (7 - i)) & 0x01
                        } else {
                            (pattern_high >> i) & 0x01
                        };
                        let lo: u8 = if sprite_attr & 0x40 == 0 {
                            (pattern_low >> (7 - i)) & 0x01
                        } else {
                            (pattern_low >> i) & 0x01
                        };
                        proof {
                            crate::bits::lemma_u8_and_le((pattern_high >> (7 - i)) as u8, 0x01);
                            crate::bits::lemma_u8_and_le((pattern_low >> (7 - i)) as u8, 0x01);
                            crate::bits::lemma_u8_and_le((pattern_high >> i) as u8, 0x01);
                            crate::bits::lemma_u8_and_le((pattern_low >> i) as u8, 0x01);
                        }
                        let c: u8 = hi * 2 + lo;
                        if c > 0 {
                            let color = self.palette.read(palette_addr + c as u16);
                            let x_index: u16 = x as u16 + i as u16;
                            if x_index < 256 {
                                let front = sprite_attr & 0x20 == 0;
                                self.renderer.set_sprite(x_index as u8, color, front);
                                if (self.ppu_status.value() & 0x40) == 0 && self.sprite_0
                                    && self.sprite_count == 0 && front && !self.renderer
                                    .is_bg_transparent(x_index as u8) {
                                    self.ppu_status.set_sprite_0_hit(true);
                                }
                            }
                        }
                        i += 1;
                    }
                }
            }
            if tick == 340 && (self.ppu_mask.show_sprite() || self.ppu_mask.show_background()) {
                let backdrop = self.palette.read(0x3F00);
                self.renderer.merge_line(line as u8, backdrop);
            }
        }
    }


    /// One dot of the clock: advance the counter and, at the end of a
    /// phase, load the next phase's length, flipping the frame toggle on
    /// entry to pre-render. Returns whether this dot completed a frame.
    fn step_clock(&mut self) -> (end: bool)
        requires
            old(self).wf(),
        ensures
            final(self).wf(),
            final(self).clock() == tick_dot(old(self).clock()),
            end == is_end_step(old(self).clock()),
            *final(self) == (PPU {
                phrase: final(self).phrase,
                phrase_clk: final(self).phrase_clk,
                clk_counter: final(self).clk_counter,
                even: final(self).even,
                ..*old(self)
            }),
    {
        let mut end_frame = false;
        self.clk_counter = self.clk_counter + 1;
        if self.clk_counter == self.phrase_clk {
            self.phrase = (self.phrase + 1) % 4;
            self.clk_counter = 0;
            if self.phrase == PHRASE_PRE_RENDER {
                end_frame = true;
                self.even = !self.even;
                self.phrase_clk = if self.even {
                    SCANLINE_CLK
                } else {
                    SCANLINE_CLK - 1
                };
            } else if self.phrase == PHRASE_VISIBLE_RENDER {
                self.phrase_clk = 240 * SCANLINE_CLK;
            } else if self.phrase == PHRASE_POST_RENDER {
                self.phrase_clk = SCANLINE_CLK;
            } else {
                self.phrase_clk = 20 * SCANLINE_CLK;
            }
        }
        end_frame
    }

    /// Advance the unit by `t` dots. The first result reports whether a
    /// frame completed (the clock crossed from the vertical blank back
    /// into pre-render); the second reports whether the vertical blank
    /// began while the NMI enable was set. The latches, the memories and
    /// the data-port state are untouched; only the renderer, the sprite
    /// pipeline and the status flags change.
    pub fn ticks(&mut self, t: u16, rom: &Rom) -> (r: (bool, bool))
        requires
            old(self).wf(),
            rom.wf(),
        ensures
            final(self).wf(),
            final(self).clock() == advance(old(self).clock(), t as nat),
            r.0 == (count_ends(old(self).clock(), t as nat) > 0),
            r.1 == (old(self).ppu_ctrl.nmi && count_vbl(old(self).clock(), t as nat) > 0),
            final(self).ppu_status.vertical_blank == vblank_after(
                old(self).clock(),
                t as nat,
                old(self).ppu_status.vertical_blank,
            ),
            !old(self).ppu_mask.show_sprite ==> (final(self).ppu_status.value & 0x40 != 0)
                == cleared_after(
                old(self).clock(),
                t as nat,
                old(self).ppu_status.value & 0x40 != 0,
            ),
            !old(self).ppu_mask.show_sprite ==> (final(self).ppu_status.value & 0x20 != 0)
                == cleared_after(
                old(self).clock(),
                t as nat,
                old(self).ppu_status.value & 0x20 != 0,
            ),
            final(self).oam == old(self).oam,
            final(self).memory == old(self).memory,
            final(self).palette == old(self).palette,
            final(self).data_buffer == old(self).data_buffer,
            final(self).oam_addr == old(self).oam_addr,
            final(self).oam_index == old(self).oam_index,
            final(self).wait_cpu == old(self).wait_cpu,
            final(self).ppu_ctrl == old(self).ppu_ctrl,
            final(self).ppu_mask == old(self).ppu_mask,
            final(self).ppu_scroll == old(self).ppu_scroll,
            final(self).ppu_addr == old(self).ppu_addr,
            final(self).mirroring == old(self).mirroring,
    {
        let mut end_frame = false;
        let mut nmi = false;
        let mut tick_i: u16 = 0;
        while tick_i < t
            invariant
                self.wf(),
                rom.wf(),
                tick_i <= t,
                self.clock() == advance(old(self).clock(), tick_i as nat),
                end_frame == (count_ends(old(self).clock(), tick_i as nat) > 0),
                nmi == (old(self).ppu_ctrl.nmi && count_vbl(old(self).clock(), tick_i as nat)
                    > 0),
                self.ppu_status.vertical_blank == vblank_after(
                    old(self).clock(),
                    tick_i as nat,
                    old(self).ppu_status.vertical_blank,
                ),
                !old(self).ppu_mask.show_sprite ==> (self.ppu_status.value & 0x40 != 0)
                    == cleared_after(
                    old(self).clock(),
                    tick_i as nat,
                    old(self).ppu_status.value & 0x40 != 0,
                ),
                !old(self).ppu_mask.show_sprite ==> (self.ppu_status.value & 0x20 != 0)
                    == cleared_after(
                    old(self).clock(),
                    tick_i as nat,
                    old(self).ppu_status.value & 0x20 != 0,
                ),
                self.oam == old(self).oam,
                self.memory == old(self).memory,
                self.palette == old(self).palette,
                self.data_buffer == old(self).data_buffer,
                self.oam_addr == old(self).oam_addr,
                self.oam_index == old(self).oam_index,
                self.wait_cpu == old(self).wait_cpu,
                self.ppu_ctrl == old(self).ppu_ctrl,
                self.ppu_mask == old(self).ppu_mask,
                self.ppu_scroll == old(self).ppu_scroll,
                self.ppu_addr == old(self).ppu_addr,
                self.mirroring == old(self).mirroring,
            decreases t - tick_i,
        {
            if self.phrase == PHRASE_PRE_RENDER {
                if self.clk_counter == 1 {
                    self.ppu_status.set_vertical_blank(false);
                    self.ppu_status.set_sprite_overflow(false);
                    self.ppu_status.set_sprite_0_hit(false);
                }
            } else if self.phrase == PHRASE_VISIBLE_RENDER {
                self.visible_dot(rom);
            } else if self.phrase == PHRASE_POST_RENDER {
            } else {
                if self.clk_counter == 1 {
                    self.ppu_status.set_vertical_blank(true);
                    nmi = self.ppu_ctrl.nmi();
                }
            }

            let ended = self.step_clock();
            if ended {
                end_frame = true;
            }
            proof {
                lemma_advance_snoc(old(self).clock(), tick_i as nat);
                lemma_count_ends_snoc(old(self).clock(), tick_i as nat);
                lemma_count_vbl_snoc(old(self).clock(), tick_i as nat);
                lemma_vblank_after_snoc(
                    old(self).clock(),
                    tick_i as nat,
                    old(self).ppu_status.vertical_blank,
                );
                lemma_cleared_after_snoc(
                    old(self).clock(),
                    tick_i as nat,
                    old(self).ppu_status.value & 0x40 != 0,
                );
                lemma_cleared_after_snoc(
                    old(self).clock(),
                    tick_i as nat,
                    old(self).ppu_status.value & 0x20 != 0,
                );
            }
            tick_i += 1;
        }
        (end_frame, nmi)
    }
}

/// Toggling a nametable select bit keeps the base among the four
/// nametable origins.
pub proof fn lemma_nt_toggle(nt: u16, mask: u16)
    requires
        nt == 0x2000 || nt == 0x2400 || nt == 0x2800 || nt == 0x2C00,
        mask == 0x0400 || mask == 0x0800,
    ensures
        (nt ^ mask) == 0x2000 || (nt ^ mask) == 0x2400 || (nt ^ mask) == 0x2800 || (nt ^ mask)
            == 0x2C00,
{
    assert((nt ^ mask) == 0x2000 || (nt ^ mask) == 0x2400 || (nt ^ mask) == 0x2800 || (nt ^ mask)
        == 0x2C00) by (bit_vector)
        requires
            (nt == 0x2000 || nt == 0x2400 || nt == 0x2800 || nt == 0x2C00) && (mask == 0x0400
                || mask == 0x0800),
    ;
}

/// The cleared-only bit after one more dot follows the last dot's event.
pub proof fn lemma_cleared_after_snoc(c: DotClock, t: nat, b: bool)
    ensures
        cleared_after(c, t + 1, b) == (if is_clear_dot(advance(c, t)) {
            false
        } else {
            cleared_after(c, t, b)
        }),
    decreases t,
{
    reveal_with_fuel(advance, 2);
    reveal_with_fuel(cleared_after, 2);
    if t > 0 {
        lemma_cleared_after_snoc(
            tick_dot(c),
            (t - 1) as nat,
            if is_clear_dot(c) {
                false
            } else {
                b
            },
        );
    }
}

/// Dots left until the current frame completes: the rest of the current
/// phase plus the phases that follow it.
pub open spec fn dots_to_end(c: DotClock) -> int {
    let rest = if c.phrase == 0 {
        240 * 341 + 341 + 20 * 341int
    } else if c.phrase == 1 {
        341 + 20 * 341int
    } else if c.phrase == 2 {
        20 * 341int
    } else {
        0int
    };
    (c.len - c.clk) + rest
}

/// Dots left until the vertical blank flag is next raised: zero on the
/// raising dot itself, and at least the rest of the frame once the
/// raising dot has passed.
pub open spec fn dots_to_vbl(c: DotClock) -> int {
    if c.phrase == 3 && c.clk >= 2 {
        dots_to_end(c)
    } else if c.phrase == 3 && c.clk == 1 {
        0
    } else {
        dots_to_end(c) - 20 * 341 + 1
    }
}

/// One dot brings the frame's completion one dot closer; a frame
/// completes exactly when one dot is left.
pub proof fn lemma_dots_to_end_step(c: DotClock)
    requires
        clock_wf(c),
    ensures
        clock_wf(tick_dot(c)),
        is_end_step(c) == (dots_to_end(c) == 1),
        !is_end_step(c) ==> dots_to_end(tick_dot(c)) == dots_to_end(c) - 1,
        is_end_step(c) ==> dots_to_end(tick_dot(c)) == 341 * 262 - (if tick_dot(c).even {
            0int
        } else {
            1
        }),
        dots_to_end(c) >= 1,
{
}

/// Advancing within a frame: as long as the frame does not complete, no
/// completion is counted and the remaining dots shrink by the advance.
pub proof fn lemma_advance_within_frame(c: DotClock, t: nat)
    requires
        clock_wf(c),
        t < dots_to_end(c),
    ensures
        clock_wf(advance(c, t)),
        count_ends(c, t) == 0,
        dots_to_end(advance(c, t)) == dots_to_end(c) - t,
    decreases t,
{
    if t > 0 {
        lemma_dots_to_end_step(c);
        lemma_advance_within_frame(tick_dot(c), (t - 1) as nat);
    }
}

/// A full frame from its first dot takes exactly 262 scanlines of 341
/// dots, less one dot when the frame is odd: after that many dots exactly
/// one frame completion has been counted and a new frame begins.
pub proof fn lemma_frame_dots(c: DotClock)
    requires
        clock_wf(c),
        c.phrase == 0,
        c.clk == 0,
    ensures
        dots_to_end(c) == 341 * 262 - (if c.even {
            0int
        } else {
            1
        }),
        count_ends(c, (dots_to_end(c) - 1) as nat) == 0,
        count_ends(c, dots_to_end(c) as nat) == 1,
        advance(c, dots_to_end(c) as nat).phrase == 0,
        advance(c, dots_to_end(c) as nat).clk == 0,
    decreases dots_to_end(c),
{
    let d = (dots_to_end(c) - 1) as nat;
    lemma_advance_within_frame(c, d);
    let last = advance(c, d);
    lemma_dots_to_end_step(last);
    lemma_advance_snoc(c, d);
    lemma_count_ends_snoc(c, d);
}

/// Advancing within a frame raises the vertical blank at most once: the
/// count of raising dots in any window that stays inside one frame is at
/// most one, and is one exactly when the window crosses the raising dot.
pub proof fn lemma_vbl_once(c: DotClock, t: nat)
    requires
        clock_wf(c),
        t <= dots_to_end(c),
    ensures
        count_vbl(c, t) <= 1,
        (count_vbl(c, t) == 1) == (dots_to_vbl(c) < t),
    decreases t,
{
    if t > 0 {
        lemma_dots_to_end_step(c);
        lemma_vbl_once(tick_dot(c), (t - 1) as nat);
    }
}

/// A window counts no frame completion exactly when it stays short of the
/// frame's remaining dots.
pub proof fn lemma_count_ends_zero(c: DotClock, t: nat)
    requires
        clock_wf(c),
    ensures
        (count_ends(c, t) == 0) <==> (t < dots_to_end(c)),
        clock_wf(advance(c, t)),
        count_ends(c, t) == 0 ==> dots_to_end(advance(c, t)) == dots_to_end(c) - t,
    decreases t,
{
    lemma_dots_to_end_step(c);
    if t > 0 {
        lemma_count_ends_zero(tick_dot(c), (t - 1) as nat);
    }
}

/// Advancing the clock is additive: the dots of two successive bursts
/// land where one combined burst would. With three dots a CPU cycle, the
/// clock a run of instructions leaves behind depends only on the total
/// cycles charged.
pub proof fn lemma_advance_add(c: DotClock, a: nat, b: nat)
    ensures
        advance(c, a + b) == advance(advance(c, a), b),
    decreases a,
{
    if a > 0 {
        lemma_advance_add(tick_dot(c), (a - 1) as nat, b);
    }
}

/// Frame completions split across two successive advances.
pub proof fn lemma_count_ends_add(c: DotClock, a: nat, b: nat)
    ensures
        count_ends(c, a + b) == count_ends(c, a) + count_ends(advance(c, a), b),
    decreases a,
{
    if a > 0 {
        lemma_count_ends_add(tick_dot(c), (a - 1) as nat, b);
    }
}

/// A window that does not reach past the following frame contains at
/// most one frame completion: completions are at least a frame apart.
pub proof fn lemma_ends_le_one(c: DotClock, t: nat)
    requires
        clock_wf(c),
        t <= dots_to_end(c) + 341 * 261,
    ensures
        count_ends(c, t) <= 1,
        (count_ends(c, t) >= 1) == (t >= dots_to_end(c)),
    decreases t,
{
    lemma_dots_to_end_step(c);
    if t > 0 {
        if is_end_step(c) {
            lemma_count_ends_zero(tick_dot(c), (t - 1) as nat);
        } else {
            lemma_ends_le_one(tick_dot(c), (t - 1) as nat);
        }
    }
}

} // verus!

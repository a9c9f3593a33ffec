//! The address bus: routes CPU reads and writes to internal RAM, the PPU
//! register file, the APU and input register block and the cartridge
//! mapper; holds the NMI latch and the OAM DMA stall counter; and offers
//! the PC-relative operand fetch helpers the instruction table uses.

use vstd::prelude::*;
use crate::cpu::CPU;
use crate::cpu::flags_byte;
use crate::i18n::Message;
use crate::memory::Memory;
use crate::ppu::PPU;
use crate::ppu::ppu_read_value;
use crate::ppu::advance;
use crate::ppu::count_ends;
use crate::ppu::count_vbl;
use crate::ppu::vblank_after;
use crate::ppu_registers::PPUAddress;
use crate::registers::Registers;
use crate::rom::Rom;
use crate::rom::mappers::mapper003::prg_byte;

verus! {

/// Addresses decoded to internal RAM, mirrored every 0x0800.
pub open spec fn ram_region(addr: u16) -> bool {
    addr & 0xF000 == 0 || addr & 0xF000 == 0x1000
}

/// Addresses decoded to the PPU register file, index `addr & 7`.
pub open spec fn ppu_region(addr: u16) -> bool {
    addr & 0xF000 == 0x2000 || addr & 0xF000 == 0x3000
}

/// Addresses decoded to the APU and input register block.
pub open spec fn io_region(addr: u16) -> bool {
    !ram_region(addr) && !ppu_region(addr) && addr < 0x401F
}

pub struct Bus {
    pub cpu: CPU,
    pub ppu: PPU,
    pub memory: Memory,
    pub registers: Registers,
    pub rom: Rom,
    pub nmi_flag: bool,
    pub dma_clk: u16,
}

/// Where the OAM write index lands after `j` steps from `idx0`: the sum,
/// wrapped once past the end of OAM.
proof fn lemma_oam_slot(idx0: int, j: int)
    requires
        0 <= idx0 < 256,
        0 <= j <= 256,
    ensures
        (idx0 + j) % 256 == (if idx0 + j < 256 {
            idx0 + j
        } else {
            idx0 + j - 256
        }),
{
    if idx0 + j < 256 {
        vstd::arithmetic::div_mod::lemma_small_mod((idx0 + j) as nat, 256);
    } else {
        vstd::arithmetic::div_mod::lemma_mod_sub_multiples_vanish(idx0 + j, 256);
        vstd::arithmetic::div_mod::lemma_small_mod((idx0 + j - 256) as nat, 256);
    }
}

/// A 16-bit addition that wraps around the address space.
fn word_add(a: u16, b: u16) -> (r: u16)
    ensures
        r == (a + b) % 0x10000,
{
    let s: u32 = a as u32 + b as u32;
    (s % 0x10000) as u16
}

impl Bus {
    pub open spec fn wf(&self) -> bool {
        &&& self.cpu.wf()
        &&& self.ppu.wf()
        &&& self.memory.wf()
        &&& self.registers.wf()
        &&& self.rom.wf()
    }

    /// Assemble the system around a parsed cartridge and load the program
    /// counter from the reset vector at 0xFFFC/0xFFFD.
    pub fn new(rom: Rom) -> (r: Bus)
        requires
            rom.wf(),
            rom.mirroring is Some,
        ensures
            r.wf(),
            r.cpu.PC == prg_byte(rom.mapper, 0xFFFC) + 0x100 * prg_byte(rom.mapper, 0xFFFD),
            r.cpu.A == 0 && r.cpu.X == 0 && r.cpu.Y == 0 && r.cpu.S == 0xFD,
            !r.nmi_flag,
            r.dma_clk == 0,
            r.rom == rom,
            r.ppu.wait_cpu,
            !r.ppu.ppu_status.vertical_blank && !r.ppu.ppu_ctrl.nmi,
            r.ppu.phrase == 0 && r.ppu.clk_counter == 0,
            forall|i: int| 0 <= i < 2048 ==> r.memory.values@[i] == 0u8,
    {
        let ppu = PPU::new(&rom);
        let pc_low = rom.mapper().prg_read(0xFFFC);
        let pc_high = rom.mapper().prg_read(0xFFFD);
        let mut cpu = CPU::new();
        cpu.goto(pc_low as u16 | ((pc_high as u16) << 8));
        proof {
            let lo = pc_low;
            let hi = pc_high;
            assert((lo as u16) | ((hi as u16) << 8) == lo + 0x100 * (hi as u16)) by (bit_vector);
        }
        Bus {
            cpu,
            ppu,
            memory: Memory::new(),
            registers: Registers::new(),
            rom,
            nmi_flag: false,
            dma_clk: 0,
        }
    }

    /// Read one byte over the bus. RAM, the register block and the
    /// cartridge respond without side effects; a PPU register read has
    /// the register file's documented effects, and reading a write-only
    /// register is an invalid access.
    pub fn read(&mut self, addr: u16) -> (r: Result<u8, Message>)
        requires
            old(self).wf(),
        ensures
            final(self).wf(),
            (r matches Err(m) ==> m is InvalidPpuRegisterAccess),
            final(self).ppu.clock() == old(self).ppu.clock(),
            final(self).cpu == old(self).cpu,
            final(self).memory == old(self).memory,
            final(self).registers == old(self).registers,
            final(self).rom == old(self).rom,
            final(self).nmi_flag == old(self).nmi_flag,
            final(self).dma_clk == old(self).dma_clk,
            (if ram_region(addr) {
                r == Ok::<u8, Message>(old(self).memory.values@[(addr & 0x07FF) as int])
                    && final(self).ppu == old(self).ppu
            } else if ppu_region(addr) {
                let index = addr & 0x07;
                if index == 2 {
                    &&& r == Ok::<u8, Message>(old(self).ppu.ppu_status.value)
                    &&& !final(self).ppu.ppu_status.vertical_blank
                    &&& final(self).ppu.ppu_addr == (PPUAddress {
                        high: true,
                        ..old(self).ppu.ppu_addr
                    })
                    &&& *final(self) == (Bus { ppu: final(self).ppu, ..*old(self) })
                    &&& final(self).ppu == (PPU {
                        ppu_status: final(self).ppu.ppu_status,
                        ppu_addr: final(self).ppu.ppu_addr,
                        ..old(self).ppu
                    })
                } else if index == 4 {
                    &&& r == Ok::<u8, Message>(
                        if old(self).ppu.oam_clear {
                            0xFFu8
                        } else {
                            old(self).ppu.oam@[old(self).ppu.oam_addr as int]
                        },
                    )
                    &&& final(self).ppu == old(self).ppu
                } else if index == 7 {
                    let a = old(self).ppu.ppu_addr.addr;
                    let v = ppu_read_value(old(self).ppu, old(self).rom, a);
                    &&& r == Ok::<u8, Message>(
                        if a >= 0x3F00 {
                            v
                        } else {
                            old(self).ppu.data_buffer
                        },
                    )
                    &&& final(self).ppu.data_buffer == v
                    &&& final(self).ppu == (PPU {
                        data_buffer: final(self).ppu.data_buffer,
                        ppu_addr: final(self).ppu.ppu_addr,
                        ..old(self).ppu
                    })
                } else {
                    r == Err::<u8, Message>(Message::InvalidPpuRegisterAccess) && final(self).ppu
                        == old(self).ppu
                }
            } else if io_region(addr) {
                &&& r == Ok::<u8, Message>(old(self).registers.values@[(addr & 0xFF) as int])
                &&& final(self).ppu == old(self).ppu
            } else {
                r == Ok::<u8, Message>(prg_byte(old(self).rom.mapper, addr)) && final(self).ppu
                    == old(self).ppu
            }),
    {
        let mark = addr & 0xF000;
        if mark == 0 || mark == 0x1000 {
            Ok(self.memory.read(addr))
        } else if mark == 0x2000 || mark == 0x3000 {
            proof {
                assert(((addr & 0x07) & 0x07) == (addr & 0x07)) by (bit_vector);
            }
            self.ppu.read_register(addr & 0x07, &self.rom)
        } else if addr < 0x401F {
            proof {
                assert((addr & 0xFF) < 32) by (bit_vector)
                    requires
                        addr & 0xF000 != 0 && addr & 0xF000 != 0x1000 && addr & 0xF000 != 0x2000
                            && addr & 0xF000 != 0x3000 && addr < 0x401F,
                ;
            }
            Ok(self.registers.read(addr))
        } else {
            Ok(self.rom.mapper().prg_read(addr))
        }
    }

    /// An OAM DMA burst: copy 256 bytes starting at `base` into the PPU's
    /// OAM through its write index, then arm the 513-cycle stall. When the
    /// source range lies in RAM the copied bytes are pinned exactly; a
    /// source overlapping the PPU registers can fault like any bus read.
    fn dma(&mut self, base: u16) -> (r: Result<(), Message>)
        requires
            old(self).wf(),
            base % 0x100 == 0,
            base <= 0xFF00,
        ensures
            final(self).wf(),
            final(self).cpu == old(self).cpu,
            final(self).memory == old(self).memory,
            final(self).registers == old(self).registers,
            final(self).rom == old(self).rom,
            final(self).nmi_flag == old(self).nmi_flag,
            (r matches Err(m) ==> m is InvalidPpuRegisterAccess),
            final(self).ppu.clock() == old(self).ppu.clock(),
            (r is Ok ==> final(self).dma_clk == 513),
            ram_region(base) ==> {
                &&& r is Ok
                &&& final(self).ppu.oam_index == old(self).ppu.oam_index
                &&& forall|j: int|
                    0 <= j < 256 ==> #[trigger] final(self).ppu.oam@[(old(self).ppu.oam_index + j) % 256]
                        == old(self).memory.values@[(((base + j) as u16) & 0x07FF) as int]
                &&& final(self).ppu == (PPU {
                    oam: final(self).ppu.oam,
                    ..old(self).ppu
                })
            },
    {
        let mut i: u16 = 0;
        while i < 256
            invariant
                self.wf(),
                i <= 256,
                base % 0x100 == 0,
                self.cpu == old(self).cpu,
                self.memory == old(self).memory,
                self.registers == old(self).registers,
                self.rom == old(self).rom,
                self.nmi_flag == old(self).nmi_flag,
                self.dma_clk == old(self).dma_clk,
                self.ppu.clock() == old(self).ppu.clock(),
                ram_region(base) ==> {
                    &&& self.ppu.oam_index == (old(self).ppu.oam_index + i) % 256
                    &&& forall|j: int|
                        0 <= j < i ==> #[trigger] self.ppu.oam@[(old(self).ppu.oam_index + j) % 256] == old(
                            self,
                        ).memory.values@[(((base + j) as u16) & 0x07FF) as int]
                    &&& forall|j: int|
                        i <= j < 256 ==> #[trigger] self.ppu.oam@[(old(self).ppu.oam_index + j) % 256] == old(
                            self,
                        ).ppu.oam@[(old(self).ppu.oam_index + j) % 256]
                    &&& self.ppu == (PPU {
                        oam: self.ppu.oam,
                        oam_index: self.ppu.oam_index,
                        ..old(self).ppu
                    })
                },
            decreases 256 - i,
        {
            proof {
                assert(((base + i) as u16) & 0xF000 == base & 0xF000 && ((base + i) as u16)
                    & 0x07FF == (((base + i) as u16) & 0x07FF)) by (bit_vector)
                    requires
                        base % 0x100 == 0 && i < 256 && base <= 0xFF00,
                ;
            }
            let v = match self.read(base + i) {
                Ok(x) => x,
                Err(e) => {
                    return Err(e);
                },
            };
            self.ppu.fill_oam(v);
            proof {
                let idx0 = old(self).ppu.oam_index as int;
                assert forall|j: int| 0 <= j <= 256 implies #[trigger] ((idx0 + j) % 256) == (if
                    idx0 + j < 256 {
                    idx0 + j
                } else {
                    idx0 + j - 256
                }) by {
                    lemma_oam_slot(idx0, j);
                };
            }
            i += 1;
        }
        proof {
            let idx0 = old(self).ppu.oam_index as int;
            lemma_oam_slot(idx0, 256);
        }
        self.dma_clk = 513;
        Ok(())
    }

    /// Write one byte over the bus. RAM, the register block and the
    /// cartridge accept it without further effect; a PPU register write
    /// follows the register file's documented behaviour and may latch the
    /// NMI; a write to 0x4014 triggers an OAM DMA burst.
    pub fn write(&mut self, addr: u16, v: u8) -> (r: Result<(), Message>)
        requires
            old(self).wf(),
        ensures
            final(self).wf(),
            final(self).cpu == old(self).cpu,
            (r matches Err(m) ==> m is InvalidPpuRegisterAccess),
            final(self).ppu.clock() == old(self).ppu.clock(),
            (if ram_region(addr) {
                &&& r is Ok
                &&& *final(self) == (Bus { memory: final(self).memory, ..*old(self) })
                &&& final(self).memory.values@ == old(self).memory.values@.update(
                    (addr & 0x07FF) as int,
                    v,
                )
            } else if ppu_region(addr) {
                let index = addr & 0x07;
                &&& final(self).memory == old(self).memory
                &&& final(self).registers == old(self).registers
                &&& final(self).rom == old(self).rom
                &&& final(self).dma_clk == old(self).dma_clk
                &&& (r is Err) == (index == 2)
                &&& (index == 0 && !old(self).ppu.wait_cpu ==> final(self).ppu == (PPU {
                    ppu_ctrl: crate::ppu_registers::control_after(old(self).ppu.ppu_ctrl, v),
                    ..old(self).ppu
                }) && final(self).nmi_flag == (old(self).nmi_flag || (
                old(self).ppu.ppu_status.vertical_blank && !old(self).ppu.ppu_ctrl.nmi && (v & 0x80
                    > 0))))
                &&& (!(index == 0 && !old(self).ppu.wait_cpu) ==> final(self).nmi_flag == old(
                    self,
                ).nmi_flag)
                &&& (index == 2 ==> final(self).ppu == old(self).ppu)
                &&& (index == 3 ==> final(self).ppu == (PPU {
                    oam_addr: v,
                    oam_index: v,
                    ..old(self).ppu
                }))
                &&& (index == 5 && !old(self).ppu.wait_cpu ==> final(self).ppu == (PPU {
                    ppu_scroll: crate::ppu_registers::scroll_after(old(self).ppu.ppu_scroll, v),
                    ..old(self).ppu
                }))
                &&& (index == 6 && !old(self).ppu.wait_cpu ==> final(self).ppu == (PPU {
                    ppu_addr: crate::ppu_registers::address_after(old(self).ppu.ppu_addr, v),
                    ..old(self).ppu
                }))
            } else if addr == 0x4014 {
                &&& final(self).memory == old(self).memory
                &&& final(self).registers == old(self).registers
                &&& final(self).rom == old(self).rom
                &&& final(self).nmi_flag == old(self).nmi_flag
                &&& (r is Ok ==> final(self).dma_clk == 513)
                &&& (v < 0x20 ==> {
                    &&& r is Ok
                    &&& final(self).ppu.oam_index == old(self).ppu.oam_index
                    &&& forall|j: int|
                        0 <= j < 256 ==> #[trigger] final(self).ppu.oam@[(old(self).ppu.oam_index + j) % 256]
                            == old(self).memory.values@[(((v * 0x100 + j) as u16) & 0x07FF) as int]
                    &&& final(self).ppu == (PPU {
                        oam: final(self).ppu.oam,
                        ..old(self).ppu
                    })
                })
            } else if io_region(addr) {
                &&& r is Ok
                &&& *final(self) == (Bus { registers: final(self).registers, ..*old(self) })
                &&& final(self).registers.values@ == old(self).registers.values@.update(
                    (addr & 0xFF) as int,
                    v,
                )
            } else {
                &&& r is Ok
                &&& *final(self) == (Bus { rom: final(self).rom, ..*old(self) })
                &&& final(self).rom.mapper.bank == (v & 0x03)
            }),
    {
        let mark = addr & 0xF000;
        if mark == 0 || mark == 0x1000 {
            self.memory.write(addr, v);
            Ok(())
        } else if mark == 0x2000 || mark == 0x3000 {
            proof {
                assert(((addr & 0x07) & 0x07) == (addr & 0x07)) by (bit_vector);
            }
            let raise = match self.ppu.write_register(addr & 0x07, v, &mut self.rom) {
                Ok(x) => x,
                Err(e) => {
                    return Err(e);
                },
            };
            if raise {
                self.nmi_flag = true;
            }
            Ok(())
        } else if addr < 0x401F {
            if addr == 0x4014 {
                let base: u16 = (v as u16) * 0x100;
                proof {
                    assert(v < 0x20 ==> (base & 0xF000 == 0 || base & 0xF000 == 0x1000))
                        by (bit_vector)
                        requires
                            base == (v as u16) * 0x100,
                    ;
                    assert(base % 0x100 == 0 && base <= 0xFF00) by (bit_vector)
                        requires
                            base == (v as u16) * 0x100,
                    ;
                }
                self.dma(base)
            } else {
                proof {
                    assert((addr & 0xFF) < 32) by (bit_vector)
                        requires
                            addr & 0xF000 != 0 && addr & 0xF000 != 0x1000 && addr & 0xF000 != 0x2000
                                && addr & 0xF000 != 0x3000 && addr < 0x401F,
                    ;
                }
                self.registers.write(addr, v);
                Ok(())
            }
        } else {
            self.rom.mapper_mut().prg_write(addr, v);
            Ok(())
        }
    }

    /// Read a zero-page cell directly.
    pub fn read_memory(&self, addr: u8) -> (r: u8)
        requires
            self.wf(),
        ensures
            r == self.memory.values@[addr as int],
    {
        self.memory.read_zero_page(addr)
    }

    /// Write a zero-page cell directly.
    pub fn write_memory(&mut self, addr: u8, v: u8)
        requires
            old(self).wf(),
        ensures
            final(self).wf(),
            *final(self) == (Bus { memory: final(self).memory, ..*old(self) }),
            final(self).memory.values@ == old(self).memory.values@.update(addr as int, v),
    {
        self.memory.write_zero_page(addr, v);
    }

    /// Fetch the opcode at the program counter.
    pub fn current_instruction(&mut self) -> (r: Result<u8, Message>)
        requires
            old(self).wf(),
        ensures
            final(self).wf(),
            (r matches Err(m) ==> m is InvalidPpuRegisterAccess),
            final(self).ppu.clock() == old(self).ppu.clock(),
            final(self).cpu == old(self).cpu,
            final(self).memory == old(self).memory,
            final(self).registers == old(self).registers,
            final(self).rom == old(self).rom,
            final(self).nmi_flag == old(self).nmi_flag,
            final(self).dma_clk == old(self).dma_clk,
            ram_region(old(self).cpu.PC) ==> (r == Ok::<u8, Message>(
                old(self).memory.values@[(old(self).cpu.PC & 0x07FF) as int],
            ) && *final(self) == *old(self)),
            (!ram_region(old(self).cpu.PC) && !ppu_region(old(self).cpu.PC) && !io_region(
                old(self).cpu.PC,
            )) ==> (r == Ok::<u8, Message>(prg_byte(old(self).rom.mapper, old(self).cpu.PC))
                && *final(self) == *old(self)),
    {
        let pc = self.cpu.pc();
        self.read(pc)
    }

    /// The operand byte after the opcode.
    pub fn immediate_map(&mut self) -> (r: Result<u8, Message>)
        requires
            old(self).wf(),
        ensures
            final(self).wf(),
            (r matches Err(m) ==> m is InvalidPpuRegisterAccess),
            final(self).ppu.clock() == old(self).ppu.clock(),
            final(self).cpu == old(self).cpu,
            final(self).memory == old(self).memory,
            final(self).registers == old(self).registers,
            final(self).rom == old(self).rom,
            final(self).nmi_flag == old(self).nmi_flag,
            final(self).dma_clk == old(self).dma_clk,
            ram_region(((old(self).cpu.PC + 1) % 0x10000) as u16) ==> (r == Ok::<u8, Message>(
                old(self).memory.values@[((((old(self).cpu.PC + 1) % 0x10000) as u16)
                    & 0x07FF) as int],
            ) && *final(self) == *old(self)),
    {
        let pc = self.cpu.pc();
        self.read(word_add(pc, 1))
    }

    /// The zero-page operand address.
    pub fn zero_page_map(&mut self) -> (r: Result<u8, Message>)
        requires
            old(self).wf(),
        ensures
            final(self).wf(),
            (r matches Err(m) ==> m is InvalidPpuRegisterAccess),
            final(self).ppu.clock() == old(self).ppu.clock(),
            final(self).cpu == old(self).cpu,
            final(self).memory == old(self).memory,
            final(self).registers == old(self).registers,
            final(self).rom == old(self).rom,
            final(self).nmi_flag == old(self).nmi_flag,
            final(self).dma_clk == old(self).dma_clk,
            ram_region(((old(self).cpu.PC + 1) % 0x10000) as u16) ==> (r == Ok::<u8, Message>(
                old(self).memory.values@[((((old(self).cpu.PC + 1) % 0x10000) as u16)
                    & 0x07FF) as int],
            ) && *final(self) == *old(self)),
    {
        self.immediate_map()
    }

    /// The zero-page operand address indexed by X, wrapping in the page.
    pub fn zero_page_x_map(&mut self) -> (r: Result<u8, Message>)
        requires
            old(self).wf(),
        ensures
            final(self).wf(),
            (r matches Err(m) ==> m is InvalidPpuRegisterAccess),
            final(self).ppu.clock() == old(self).ppu.clock(),
            final(self).cpu == old(self).cpu,
            final(self).memory == old(self).memory,
            final(self).registers == old(self).registers,
            final(self).rom == old(self).rom,
            final(self).nmi_flag == old(self).nmi_flag,
            final(self).dma_clk == old(self).dma_clk,
            ram_region(((old(self).cpu.PC + 1) % 0x10000) as u16) ==> (r == Ok::<u8, Message>(
                ((old(self).memory.values@[((((old(self).cpu.PC + 1) % 0x10000) as u16)
                    & 0x07FF) as int] + old(self).cpu.X) % 256) as u8,
            ) && *final(self) == *old(self)),
    {
        let operand = match self.immediate_map() {
            Ok(x) => x,
            Err(e) => {
                return Err(e);
            },
        };
        let sum: u16 = operand as u16 + self.cpu.x() as u16;
        Ok((sum % 0x100) as u8)
    }

    /// The zero-page operand address indexed by Y, wrapping in the page.
    pub fn zero_page_y_map(&mut self) -> (r: Result<u8, Message>)
        requires
            old(self).wf(),
        ensures
            final(self).wf(),
            (r matches Err(m) ==> m is InvalidPpuRegisterAccess),
            final(self).ppu.clock() == old(self).ppu.clock(),
            final(self).cpu == old(self).cpu,
            final(self).memory == old(self).memory,
            final(self).registers == old(self).registers,
            final(self).rom == old(self).rom,
            final(self).nmi_flag == old(self).nmi_flag,
            final(self).dma_clk == old(self).dma_clk,
            ram_region(((old(self).cpu.PC + 1) % 0x10000) as u16) ==> (r == Ok::<u8, Message>(
                ((old(self).memory.values@[((((old(self).cpu.PC + 1) % 0x10000) as u16)
                    & 0x07FF) as int] + old(self).cpu.Y) % 256) as u8,
            ) && *final(self) == *old(self)),
    {
        let operand = match self.immediate_map() {
            Ok(x) => x,
            Err(e) => {
                return Err(e);
            },
        };
        let sum: u16 = operand as u16 + self.cpu.y() as u16;
        Ok((sum % 0x100) as u8)
    }

    /// The two-byte absolute operand address, low byte first.
    pub fn absolute_map(&mut self) -> (r: Result<u16, Message>)
        requires
            old(self).wf(),
        ensures
            final(self).wf(),
            (r matches Err(m) ==> m is InvalidPpuRegisterAccess),
            final(self).ppu.clock() == old(self).ppu.clock(),
            final(self).cpu == old(self).cpu,
            final(self).memory == old(self).memory,
            final(self).registers == old(self).registers,
            final(self).rom == old(self).rom,
            final(self).nmi_flag == old(self).nmi_flag,
            final(self).dma_clk == old(self).dma_clk,
            (ram_region(((old(self).cpu.PC + 1) % 0x10000) as u16) && ram_region(
                ((old(self).cpu.PC + 2) % 0x10000) as u16,
            )) ==> (r == Ok::<u16, Message>(
                (old(self).memory.values@[((((old(self).cpu.PC + 1) % 0x10000) as u16)
                    & 0x07FF) as int] + 0x100 * old(self).memory.values@[((((old(self).cpu.PC + 2)
                    % 0x10000) as u16) & 0x07FF) as int]) as u16,
            ) && *final(self) == *old(self)),
    {
        let pc = self.cpu.pc();
        let low = match self.read(word_add(pc, 1)) {
            Ok(x) => x,
            Err(e) => {
                return Err(e);
            },
        };
        let high = match self.read(word_add(pc, 2)) {
            Ok(x) => x,
            Err(e) => {
                return Err(e);
            },
        };
        Ok(low as u16 + 0x100 * high as u16)
    }

    /// The absolute operand address indexed by X, with the page-cross
    /// flag: set when the low byte's indexing carried into the high byte.
    pub fn absolute_x_map(&mut self) -> (r: Result<(u16, bool), Message>)
        requires
            old(self).wf(),
        ensures
            final(self).wf(),
            (r matches Err(m) ==> m is InvalidPpuRegisterAccess),
            final(self).ppu.clock() == old(self).ppu.clock(),
            final(self).cpu == old(self).cpu,
            final(self).memory == old(self).memory,
            final(self).registers == old(self).registers,
            final(self).rom == old(self).rom,
            final(self).nmi_flag == old(self).nmi_flag,
            final(self).dma_clk == old(self).dma_clk,
            (ram_region(((old(self).cpu.PC + 1) % 0x10000) as u16) && ram_region(
                ((old(self).cpu.PC + 2) % 0x10000) as u16,
            )) ==> ({
                let low = old(self).memory.values@[((((old(self).cpu.PC + 1) % 0x10000) as u16)
                    & 0x07FF) as int];
                let high = old(self).memory.values@[((((old(self).cpu.PC + 2) % 0x10000) as u16)
                    & 0x07FF) as int];
                &&& r == Ok::<(u16, bool), Message>(
                    (
                        ((low + old(self).cpu.X + 0x100 * high) % 0x10000) as u16,
                        low + old(self).cpu.X >= 0x100,
                    ),
                )
                &&& *final(self) == *old(self)
            }),
    {
        let pc = self.cpu.pc();
        let low = match self.read(word_add(pc, 1)) {
            Ok(x) => x,
            Err(e) => {
                return Err(e);
            },
        };
        let temp: u16 = low as u16 + self.cpu.x() as u16;
        let high = match self.read(word_add(pc, 2)) {
            Ok(x) => x,
            Err(e) => {
                return Err(e);
            },
        };
        let addr: u32 = temp as u32 + 0x100 * high as u32;
        Ok(((addr % 0x10000) as u16, temp >= 0x100))
    }

    /// The absolute operand address indexed by Y, with the page-cross flag.
    pub fn absolute_y_map(&mut self) -> (r: Result<(u16, bool), Message>)
        requires
            old(self).wf(),
        ensures
            final(self).wf(),
            (r matches Err(m) ==> m is InvalidPpuRegisterAccess),
            final(self).ppu.clock() == old(self).ppu.clock(),
            final(self).cpu == old(self).cpu,
            final(self).memory == old(self).memory,
            final(self).registers == old(self).registers,
            final(self).rom == old(self).rom,
            final(self).nmi_flag == old(self).nmi_flag,
            final(self).dma_clk == old(self).dma_clk,
            (ram_region(((old(self).cpu.PC + 1) % 0x10000) as u16) && ram_region(
                ((old(self).cpu.PC + 2) % 0x10000) as u16,
            )) ==> ({
                let low = old(self).memory.values@[((((old(self).cpu.PC + 1) % 0x10000) as u16)
                    & 0x07FF) as int];
                let high = old(self).memory.values@[((((old(self).cpu.PC + 2) % 0x10000) as u16)
                    & 0x07FF) as int];
                &&& r == Ok::<(u16, bool), Message>(
                    (
                        ((low + old(self).cpu.Y + 0x100 * high) % 0x10000) as u16,
                        low + old(self).cpu.Y >= 0x100,
                    ),
                )
                &&& *final(self) == *old(self)
            }),
    {
        let pc = self.cpu.pc();
        let low = match self.read(word_add(pc, 1)) {
            Ok(x) => x,
            Err(e) => {
                return Err(e);
            },
        };
        let temp: u16 = low as u16 + self.cpu.y() as u16;
        let high = match self.read(word_add(pc, 2)) {
            Ok(x) => x,
            Err(e) => {
                return Err(e);
            },
        };
        let addr: u32 = temp as u32 + 0x100 * high as u32;
        Ok(((addr % 0x10000) as u16, temp >= 0x100))
    }

    /// The (indirect,X) operand address: the zero-page pointer at operand
    /// plus X, its bytes read with zero-page wraparound.
    pub fn indexed_indirect_map(&mut self) -> (r: Result<u16, Message>)
        requires
            old(self).wf(),
        ensures
            final(self).wf(),
            (r matches Err(m) ==> m is InvalidPpuRegisterAccess),
            final(self).ppu.clock() == old(self).ppu.clock(),
            final(self).cpu == old(self).cpu,
            final(self).memory == old(self).memory,
            final(self).registers == old(self).registers,
            final(self).rom == old(self).rom,
            final(self).nmi_flag == old(self).nmi_flag,
            final(self).dma_clk == old(self).dma_clk,
            (ram_region(((old(self).cpu.PC + 1) % 0x10000) as u16)) ==> ({
                let arg = old(self).memory.values@[((((old(self).cpu.PC + 1) % 0x10000) as u16)
                    & 0x07FF) as int] + old(self).cpu.X;
                let low = old(self).memory.values@[arg % 256];
                let high = old(self).memory.values@[(arg + 1) % 256];
                &&& r == Ok::<u16, Message>((low + 0x100 * high) as u16)
                &&& *final(self) == *old(self)
            }),
    {
        let operand = match self.immediate_map() {
            Ok(x) => x,
            Err(e) => {
                return Err(e);
            },
        };
        let arg: u16 = operand as u16 + self.cpu.x() as u16;
        let low = self.memory.read_zero_page((arg % 0x100) as u8);
        let high = self.memory.read_zero_page(((arg + 1) % 0x100) as u8);
        Ok(low as u16 + 0x100 * high as u16)
    }

    /// The (indirect),Y operand address: the zero-page pointer at the
    /// operand, indexed by Y after the fetch, with the page-cross flag.
    pub fn indirect_indexed_map(&mut self) -> (r: Result<(u16, bool), Message>)
        requires
            old(self).wf(),
        ensures
            final(self).wf(),
            (r matches Err(m) ==> m is InvalidPpuRegisterAccess),
            final(self).ppu.clock() == old(self).ppu.clock(),
            final(self).cpu == old(self).cpu,
            final(self).memory == old(self).memory,
            final(self).registers == old(self).registers,
            final(self).rom == old(self).rom,
            final(self).nmi_flag == old(self).nmi_flag,
            final(self).dma_clk == old(self).dma_clk,
            (ram_region(((old(self).cpu.PC + 1) % 0x10000) as u16)) ==> ({
                let arg = old(self).memory.values@[((((old(self).cpu.PC + 1) % 0x10000) as u16)
                    & 0x07FF) as int];
                let low = old(self).memory.values@[arg as int];
                let high = old(self).memory.values@[(arg + 1) % 256];
                &&& r == Ok::<(u16, bool), Message>(
                    (
                        ((low + old(self).cpu.Y + 0x100 * high) % 0x10000) as u16,
                        low + old(self).cpu.Y >= 0x100,
                    ),
                )
                &&& *final(self) == *old(self)
            }),
    {
        let arg = match self.immediate_map() {
            Ok(x) => x,
            Err(e) => {
                return Err(e);
            },
        };
        let low = self.memory.read_zero_page(arg);
        let high = self.memory.read_zero_page(((arg as u16 + 1) % 0x100) as u8);
        let temp: u16 = low as u16 + self.cpu.y() as u16;
        let addr: u32 = temp as u32 + 0x100 * high as u32;
        Ok(((addr % 0x10000) as u16, temp >= 0x100))
    }

    /// The signed relative branch operand.
    pub fn relative_map(&mut self) -> (r: Result<i8, Message>)
        requires
            old(self).wf(),
        ensures
            final(self).wf(),
            (r matches Err(m) ==> m is InvalidPpuRegisterAccess),
            final(self).ppu.clock() == old(self).ppu.clock(),
            final(self).cpu == old(self).cpu,
            final(self).memory == old(self).memory,
            final(self).registers == old(self).registers,
            final(self).rom == old(self).rom,
            final(self).nmi_flag == old(self).nmi_flag,
            final(self).dma_clk == old(self).dma_clk,
            (ram_region(((old(self).cpu.PC + 1) % 0x10000) as u16)) ==> ({
                let n = old(self).memory.values@[((((old(self).cpu.PC + 1) % 0x10000) as u16)
                    & 0x07FF) as int];
                &&& r == Ok::<i8, Message>(
                    (if n < 0x80 {
                        n as i8
                    } else {
                        (n - 0x100) as i8
                    }),
                )
                &&& *final(self) == *old(self)
            }),
    {
        let n = match self.immediate_map() {
            Ok(x) => x,
            Err(e) => {
                return Err(e);
            },
        };
        if n < 0x80 {
            Ok(n as i8)
        } else {
            Ok((n as i16 - 0x100) as i8)
        }
    }

    /// Push one byte onto the stack in RAM page one.
    pub fn push(&mut self, num: u8)
        requires
            old(self).wf(),
        ensures
            final(self).wf(),
            final(self).memory.values@ == old(self).memory.values@.update(
                0x0100 + old(self).cpu.S as int,
                num,
            ),
            final(self).cpu == (CPU { S: final(self).cpu.S, ..old(self).cpu }),
            final(self).cpu.S == (if old(self).cpu.S == 0 {
                0xFFint
            } else {
                old(self).cpu.S - 1
            }),
            *final(self) == (Bus {
                cpu: final(self).cpu,
                memory: final(self).memory,
                ..*old(self)
            }),
    {
        let addr = self.cpu.push();
        self.memory.write_stack(addr, num);
    }

    /// Push a word onto the stack, high byte first.
    pub fn push_word(&mut self, num: u16)
        requires
            old(self).wf(),
        ensures
            final(self).wf(),
            final(self).memory.values@ == old(self).memory.values@.update(
                0x0100 + old(self).cpu.S as int,
                (num / 0x100) as u8,
            ).update(
                0x0100 + (if old(self).cpu.S == 0 {
                    0xFFint
                } else {
                    old(self).cpu.S - 1
                }),
                (num % 0x100) as u8,
            ),
            final(self).cpu == (CPU { S: final(self).cpu.S, ..old(self).cpu }),
            final(self).cpu.S == (if old(self).cpu.S == 1 {
                0xFFint
            } else if old(self).cpu.S == 0 {
                0xFEint
            } else {
                old(self).cpu.S - 2
            }),
            *final(self) == (Bus {
                cpu: final(self).cpu,
                memory: final(self).memory,
                ..*old(self)
            }),
    {
        self.push((num / 0x100) as u8);
        self.push((num % 0x100) as u8);
    }

    /// Pop one byte off the stack.
    pub fn pop(&mut self) -> (r: u8)
        requires
            old(self).wf(),
        ensures
            final(self).wf(),
            final(self).cpu == (CPU { S: final(self).cpu.S, ..old(self).cpu }),
            final(self).cpu.S == (if old(self).cpu.S == 0xFF {
                0int
            } else {
                old(self).cpu.S + 1
            }),
            r == old(self).memory.values@[0x0100 + final(self).cpu.S as int],
            *final(self) == (Bus { cpu: final(self).cpu, ..*old(self) }),
    {
        let addr = self.cpu.pop();
        self.memory.read_stack(addr)
    }

    /// Pop a word off the stack, low byte first.
    pub fn pop_word(&mut self) -> (r: u16)
        requires
            old(self).wf(),
        ensures
            final(self).wf(),
            final(self).cpu == (CPU { S: final(self).cpu.S, ..old(self).cpu }),
            final(self).cpu.S == (if old(self).cpu.S == 0xFE {
                0int
            } else if old(self).cpu.S == 0xFF {
                1int
            } else {
                old(self).cpu.S + 2
            }),
            r == old(self).memory.values@[0x0100 + (if old(self).cpu.S == 0xFF {
                0int
            } else {
                old(self).cpu.S + 1
            })] + 0x100 * old(self).memory.values@[0x0100 + final(self).cpu.S as int],
            *final(self) == (Bus { cpu: final(self).cpu, ..*old(self) }),
    {
        let low = self.pop();
        let high = self.pop();
        low as u16 + 0x100 * high as u16
    }

    /// Advance the PPU by `t` dots and latch the NMI it may raise. The
    /// return reports a completed frame.
    pub fn ppu_ticks(&mut self, t: u16) -> (r: bool)
        requires
            old(self).wf(),
        ensures
            final(self).wf(),
            final(self).cpu == old(self).cpu,
            final(self).memory == old(self).memory,
            final(self).registers == old(self).registers,
            final(self).rom == old(self).rom,
            final(self).dma_clk == old(self).dma_clk,
            final(self).ppu.clock() == advance(old(self).ppu.clock(), t as nat),
            r == (count_ends(old(self).ppu.clock(), t as nat) > 0),
            final(self).nmi_flag == (old(self).nmi_flag || (old(self).ppu.ppu_ctrl.nmi
                && count_vbl(old(self).ppu.clock(), t as nat) > 0)),
            final(self).ppu.ppu_status.vertical_blank == vblank_after(
                old(self).ppu.clock(),
                t as nat,
                old(self).ppu.ppu_status.vertical_blank,
            ),
            final(self).ppu.oam == old(self).ppu.oam,
            final(self).ppu.memory == old(self).ppu.memory,
            final(self).ppu.palette == old(self).ppu.palette,
            final(self).ppu.data_buffer == old(self).ppu.data_buffer,
            final(self).ppu.oam_addr == old(self).ppu.oam_addr,
            final(self).ppu.oam_index == old(self).ppu.oam_index,
            final(self).ppu.wait_cpu == old(self).ppu.wait_cpu,
            final(self).ppu.ppu_ctrl == old(self).ppu.ppu_ctrl,
            final(self).ppu.ppu_mask == old(self).ppu.ppu_mask,
            final(self).ppu.ppu_scroll == old(self).ppu.ppu_scroll,
            final(self).ppu.ppu_addr == old(self).ppu.ppu_addr,
            final(self).ppu.mirroring == old(self).ppu.mirroring,
    {
        let result = self.ppu.ticks(t, &self.rom);
        if result.1 {
            self.nmi_flag = true;
        }
        result.0
    }

    /// Service a pending non-maskable interrupt: push the program counter
    /// and the status byte, clear the latch and jump through the vector
    /// at 0xFFFA/0xFFFB.
    pub fn nmi(&mut self)
        requires
            old(self).wf(),
        ensures
            final(self).wf(),
            !final(self).nmi_flag,
            final(self).cpu.PC == prg_byte(old(self).rom.mapper, 0xFFFA) + 0x100 * prg_byte(
                old(self).rom.mapper,
                0xFFFB,
            ),
            final(self).cpu == (CPU {
                S: final(self).cpu.S,
                PC: final(self).cpu.PC,
                ..old(self).cpu
            }),
            final(self).cpu.S == (if old(self).cpu.S == 2 {
                0xFFint
            } else if old(self).cpu.S == 1 {
                0xFEint
            } else if old(self).cpu.S == 0 {
                0xFDint
            } else {
                old(self).cpu.S - 3
            }),
            final(self).memory.values@ == old(self).memory.values@.update(
                0x0100 + old(self).cpu.S as int,
                ((old(self).cpu.PC as int) / 0x100) as u8,
            ).update(
                0x0100 + (if old(self).cpu.S == 0 {
                    0xFFint
                } else {
                    old(self).cpu.S - 1
                }),
                ((old(self).cpu.PC as int) % 0x100) as u8,
            ).update(
                0x0100 + (if old(self).cpu.S == 1 {
                    0xFFint
                } else if old(self).cpu.S == 0 {
                    0xFEint
                } else {
                    old(self).cpu.S - 2
                }),
                flags_byte(old(self).cpu.P) as u8,
            ),
            *final(self) == (Bus {
                cpu: final(self).cpu,
                memory: final(self).memory,
                nmi_flag: false,
                ..*old(self)
            }),
    {
        let pc = self.cpu.pc();
        self.push_word(pc);
        let p = self.cpu.p();
        self.push(p);
        let low = self.rom.mapper().prg_read(0xFFFA);
        let high = self.rom.mapper().prg_read(0xFFFB);
        self.cpu.goto(low as u16 + 0x100 * high as u16);
        self.nmi_flag = false;
    }

    /// Between instructions: service the NMI when its latch is set, with
    /// exactly the service sequence of `nmi`; otherwise change nothing.
    pub fn check_interrupt(&mut self)
        requires
            old(self).wf(),
        ensures
            final(self).wf(),
            !final(self).nmi_flag,
            !old(self).nmi_flag ==> *final(self) == *old(self),
            old(self).nmi_flag ==> ({
                &&& final(self).cpu.PC == prg_byte(old(self).rom.mapper, 0xFFFA) + 0x100
                    * prg_byte(old(self).rom.mapper, 0xFFFB)
                &&& final(self).cpu == (CPU {
                    S: final(self).cpu.S,
                    PC: final(self).cpu.PC,
                    ..old(self).cpu
                })
                &&& final(self).cpu.S == (if old(self).cpu.S == 2 {
                    0xFFint
                } else if old(self).cpu.S == 1 {
                    0xFEint
                } else if old(self).cpu.S == 0 {
                    0xFDint
                } else {
                    old(self).cpu.S - 3
                })
                &&& final(self).memory.values@ == old(self).memory.values@.update(
                    0x0100 + old(self).cpu.S as int,
                    ((old(self).cpu.PC as int) / 0x100) as u8,
                ).update(
                    0x0100 + (if old(self).cpu.S == 0 {
                        0xFFint
                    } else {
                        old(self).cpu.S - 1
                    }),
                    ((old(self).cpu.PC as int) % 0x100) as u8,
                ).update(
                    0x0100 + (if old(self).cpu.S == 1 {
                        0xFFint
                    } else if old(self).cpu.S == 0 {
                        0xFEint
                    } else {
                        old(self).cpu.S - 2
                    }),
                    flags_byte(old(self).cpu.P) as u8,
                )
                &&& *final(self) == (Bus {
                    cpu: final(self).cpu,
                    memory: final(self).memory,
                    nmi_flag: false,
                    ..*old(self)
                })
            }),
    {
        if self.nmi_flag {
            self.nmi();
        }
    }

    /// Drain up to 110 cycles of the OAM DMA stall, returning how many
    /// were consumed.
    pub fn check_dma(&mut self) -> (r: u8)
        ensures
            r == (if old(self).dma_clk >= 110 {
                110int
            } else {
                old(self).dma_clk as int
            }),
            final(self).dma_clk == old(self).dma_clk - r,
            *final(self) == (Bus { dma_clk: final(self).dma_clk, ..*old(self) }),
    {
        if self.dma_clk >= 110 {
            self.dma_clk = self.dma_clk - 110;
            110
        } else {
            let clk = self.dma_clk;
            self.dma_clk = 0;
            clk as u8
        }
    }

    pub fn cpu(&self) -> (r: &CPU)
        ensures
            r == &self.cpu,
    {
        &self.cpu
    }

    pub fn cpu_mut(&mut self) -> (r: &mut CPU)
        ensures
            *r == old(self).cpu,
            *final(self) == (Bus { cpu: *final(r), ..*old(self) }),
    {
        &mut self.cpu
    }

    pub fn ppu(&self) -> (r: &PPU)
        ensures
            r == &self.ppu,
    {
        &self.ppu
    }

    pub fn ppu_mut(&mut self) -> (r: &mut PPU)
        ensures
            *r == old(self).ppu,
            *final(self) == (Bus { ppu: *final(r), ..*old(self) }),
    {
        &mut self.ppu
    }
}

} // verus!

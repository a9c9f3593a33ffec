//! The frame driver: runs the CPU and the PPU in lockstep, three dots a
//! cycle, until one frame completes. The host installs this loop behind
//! its periodic tick source and blits the finished frame afterwards.

use vstd::prelude::*;
use crate::bus::Bus;
use crate::i18n::Message;
use crate::instruction::Instruction;
use crate::instruction::InstructionSet;
use crate::ppu::advance;
use crate::ppu::count_ends;
use crate::ppu::dots_to_end;
use crate::ppu::lemma_advance_add;
use crate::ppu::lemma_count_ends_add;
use crate::ppu::lemma_count_ends_zero;
use crate::ppu::lemma_ends_le_one;

verus! {

/// The table entry for the opcode at the program counter.
pub fn current_instruction(bus: &mut Bus, instructions: &InstructionSet) -> (r: Result<
    Instruction,
    Message,
>)
    requires
        old(bus).wf(),
    ensures
        final(bus).wf(),
        final(bus).cpu == old(bus).cpu,
        final(bus).memory == old(bus).memory,
        final(bus).registers == old(bus).registers,
        final(bus).rom == old(bus).rom,
        final(bus).ppu.clock() == old(bus).ppu.clock(),
        final(bus).nmi_flag == old(bus).nmi_flag,
        final(bus).dma_clk == old(bus).dma_clk,
        (r matches Err(m) ==> m is InvalidPpuRegisterAccess),
        crate::bus::ram_region(old(bus).cpu.PC) ==> (r == Ok::<Instruction, Message>(
            Instruction { code: old(bus).memory.values@[(old(bus).cpu.PC & 0x07FF) as int] },
        ) && *final(bus) == *old(bus)),
        (!crate::bus::ram_region(old(bus).cpu.PC) && !crate::bus::ppu_region(old(bus).cpu.PC)
            && !crate::bus::io_region(old(bus).cpu.PC)) ==> (r == Ok::<Instruction, Message>(
            Instruction {
                code: crate::rom::mappers::mapper003::prg_byte(
                    old(bus).rom.mapper,
                    old(bus).cpu.PC,
                ),
            },
        ) && *final(bus) == *old(bus)),
{
    let code = match bus.current_instruction() {
        Ok(x) => x,
        Err(e) => {
            return Err(e);
        },
    };
    Ok(instructions.find_instruction(code))
}

/// Run instructions until the PPU's cold-start wait has elapsed (at
/// least 29,658 CPU cycles), advancing the PPU three dots a cycle, then
/// lift the wait latch. Returns the cycles run.
pub fn wait_ppu(bus: &mut Bus, instructions: &InstructionSet) -> (r: Result<u32, Message>)
    requires
        old(bus).wf(),
    ensures
        final(bus).wf(),
        (r matches Ok(n) ==> {
            &&& n >= 29658
            &&& !final(bus).ppu.wait_cpu
            &&& final(bus).ppu.clock() == advance(old(bus).ppu.clock(), (3 * n) as nat)
        }),
        (r matches Err(m) ==> (m is InvalidInstruction || m is InvalidPpuRegisterAccess)),
{
    let ghost start_clock = old(bus).ppu.clock();
    let mut c: u32 = 29658;
    let mut total: u32 = 0;
    while c > 0
        invariant
            bus.wf(),
            start_clock == old(bus).ppu.clock(),
            total + c >= 29658,
            c > 0 ==> total <= 29658 - c,
            total <= 29913,
            c <= 29658,
            bus.ppu.clock() == advance(start_clock, (3 * total) as nat),
        decreases c,
    {
        let inst = match current_instruction(bus, instructions) {
            Ok(x) => x,
            Err(e) => {
                return Err(e);
            },
        };
        let cycles = match inst.apply(bus) {
            Ok(x) => x,
            Err(e) => {
                return Err(e);
            },
        };
        if cycles == 0 {
            return Err(Message::InvalidInstruction);
        }
        bus.ppu_ticks(3 * cycles as u16);
        proof {
            lemma_advance_add(start_clock, (3 * total) as nat, (3 * cycles) as nat);
        }
        total = total + cycles as u32;
        c = if cycles as u32 >= c {
            0
        } else {
            c - cycles as u32
        };
    }
    bus.ppu_mut().stop_waiting();
    Ok(total)
}

/// Produce one frame: drain any OAM DMA stall at up to 110 cycles a step,
/// otherwise service a pending NMI, dispatch the instruction at the
/// program counter, and advance the PPU three dots for every cycle
/// charged, until the PPU reports the frame complete. Returns the dots
/// consumed: they cross exactly one frame boundary.
pub fn run_frame(bus: &mut Bus, instructions: &InstructionSet) -> (r: Result<u32, Message>)
    requires
        old(bus).wf(),
    ensures
        final(bus).wf(),
        (r matches Ok(d) ==> {
            &&& final(bus).ppu.clock() == advance(old(bus).ppu.clock(), d as nat)
            &&& count_ends(old(bus).ppu.clock(), d as nat) == 1
        }),
        (r matches Err(m) ==> (m is InvalidInstruction || m is InvalidPpuRegisterAccess)),
{
    let ghost start_clock = old(bus).ppu.clock();
    let mut consumed: u32 = 0;
    loop
        invariant
            bus.wf(),
            start_clock == old(bus).ppu.clock(),
            bus.ppu.clock() == advance(start_clock, consumed as nat),
            count_ends(start_clock, consumed as nat) == 0,
            dots_to_end(bus.ppu.clock()) == dots_to_end(start_clock) - consumed,
            dots_to_end(start_clock) <= 89342,
            consumed <= 89342,
        decreases dots_to_end(bus.ppu.clock()),
    {
        let ghost pre_clock = bus.ppu.clock();
        let dma_clk = bus.check_dma();
        let finish: bool;
        let dots: u16;
        if dma_clk > 0 {
            dots = 3 * dma_clk as u16;
            finish = bus.ppu_ticks(dots);
        } else {
            bus.check_interrupt();
            let inst = match current_instruction(bus, instructions) {
                Ok(x) => x,
                Err(e) => {
                    return Err(e);
                },
            };
            let cycles = match inst.apply(bus) {
                Ok(x) => x,
                Err(e) => {
                    return Err(e);
                },
            };
            if cycles == 0 {
                return Err(Message::InvalidInstruction);
            }
            dots = 3 * cycles as u16;
            finish = bus.ppu_ticks(dots);
        }
        proof {
            lemma_advance_add(start_clock, consumed as nat, dots as nat);
            lemma_count_ends_add(start_clock, consumed as nat, dots as nat);
            lemma_ends_le_one(pre_clock, dots as nat);
            if !finish {
                lemma_count_ends_zero(pre_clock, dots as nat);
            }
        }
        if finish {
            return Ok(consumed + dots as u32);
        }
        consumed = consumed + dots as u32;
    }
}

} // verus!

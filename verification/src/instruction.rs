//! The instruction table: all 151 documented opcodes, each dispatching
//! through the bus's operand fetch helpers to the CPU primitives,
//! advancing the program counter and reporting its cycle cost. The cost
//! is the opcode's base cycles plus the extra cycles from page crossing
//! or a taken branch; dispatching an undefined opcode is fatal.

use vstd::prelude::*;
use crate::bus::Bus;
use crate::bus::ram_region;
use crate::cpu::CPU;
use crate::cpu::Flags;
use crate::cpu::adc_post;
use crate::cpu::and_post;
use crate::cpu::asl_post;
use crate::cpu::asl_result;
use crate::cpu::bit_post;
use crate::cpu::cmp_post;
use crate::cpu::dec_result;
use crate::cpu::eor_post;
use crate::cpu::flags_byte;
use crate::cpu::inc_result;
use crate::cpu::lda_post;
use crate::cpu::ldx_post;
use crate::cpu::ldy_post;
use crate::cpu::lsr_post;
use crate::cpu::lsr_result;
use crate::cpu::nz;
use crate::cpu::ora_post;
use crate::cpu::pc_plus;
use crate::cpu::pop_s;
use crate::cpu::push_s;
use crate::cpu::rol_post;
use crate::cpu::rol_result;
use crate::cpu::ror_post;
use crate::cpu::ror_result;
use crate::cpu::setp_post;
use crate::i18n::Message;
use crate::rom::mappers::mapper003::prg_byte;

verus! {

/// The address one past the program counter.
pub open spec fn p1(b: Bus) -> u16 {
    (((b.cpu.PC + 1) % 0x10000) as u16)
}

/// The address two past the program counter.
pub open spec fn p2(b: Bus) -> u16 {
    (((b.cpu.PC + 2) % 0x10000) as u16)
}

/// The byte RAM holds at a mirrored address.
pub open spec fn ram_at(b: Bus, a: u16) -> u8 {
    b.memory.values@[(a & 0x07FF) as int]
}

/// The operand byte after the opcode, when it lies in RAM.
pub open spec fn m1(b: Bus) -> u8 {
    ram_at(b, p1(b))
}

/// The second operand byte, when it lies in RAM.
pub open spec fn m2(b: Bus) -> u8 {
    ram_at(b, p2(b))
}

/// A zero-page cell.
pub open spec fn zpv(b: Bus, i: int) -> u8 {
    b.memory.values@[i]
}

/// The one-byte operand lies in RAM.
pub open spec fn ram1(b: Bus) -> bool {
    ram_region(p1(b))
}

/// Both operand bytes lie in RAM.
pub open spec fn ram2(b: Bus) -> bool {
    ram_region(p1(b)) && ram_region(p2(b))
}

/// The zero-page-indexed-by-X effective cell.
pub open spec fn ea_zpx(b: Bus) -> int {
    (m1(b) + b.cpu.X) % 256
}

/// The zero-page-indexed-by-Y effective cell.
pub open spec fn ea_zpy(b: Bus) -> int {
    (m1(b) + b.cpu.Y) % 256
}

/// The absolute effective address.
pub open spec fn ea_abs(b: Bus) -> u16 {
    (m1(b) + 0x100 * m2(b)) as u16
}

/// The absolute-indexed-by-X effective address.
pub open spec fn ea_absx(b: Bus) -> u16 {
    (((m1(b) + b.cpu.X + 0x100 * m2(b)) % 0x10000) as u16)
}

/// Whether indexing by X carried out of the low byte.
pub open spec fn crossed_absx(b: Bus) -> bool {
    m1(b) + b.cpu.X >= 0x100
}

/// The absolute-indexed-by-Y effective address.
pub open spec fn ea_absy(b: Bus) -> u16 {
    (((m1(b) + b.cpu.Y + 0x100 * m2(b)) % 0x10000) as u16)
}

/// Whether indexing by Y carried out of the low byte.
pub open spec fn crossed_absy(b: Bus) -> bool {
    m1(b) + b.cpu.Y >= 0x100
}

/// The (indirect,X) effective address: the zero-page pointer at operand
/// plus X, read with zero-page wraparound.
pub open spec fn ea_izx(b: Bus) -> u16 {
    (zpv(b, (m1(b) + b.cpu.X) % 256) + 0x100 * zpv(b, (m1(b) + b.cpu.X + 1) % 256)) as u16
}

/// The (indirect),Y effective address: the zero-page pointer at the
/// operand, indexed by Y after the fetch.
pub open spec fn ea_izy(b: Bus) -> u16 {
    (((zpv(b, m1(b) as int) + b.cpu.Y + 0x100 * zpv(b, (m1(b) + 1) % 256)) % 0x10000) as u16)
}

/// Whether the (indirect),Y indexing carried out of the low byte.
pub open spec fn crossed_izy(b: Bus) -> bool {
    zpv(b, m1(b) as int) + b.cpu.Y >= 0x100
}

/// The signed value of a relative branch operand.
pub open spec fn rel_off(n: u8) -> int {
    if n < 0x80 {
        n as int
    } else {
        n - 0x100
    }
}

/// The second pointer byte of an indirect jump, wrapping inside the page.
pub open spec fn ind_high(b: Bus) -> u16 {
    if ea_abs(b) % 0x100 == 0xFF {
        (ea_abs(b) - 0xFF) as u16
    } else {
        (ea_abs(b) + 1) as u16
    }
}

/// Everything on the bus but the CPU is untouched.
pub open spec fn same_but_cpu(pre: Bus, post: Bus) -> bool {
    post == (Bus { cpu: post.cpu, ..pre })
}

/// One RAM cell was stored; the CPU may have moved, nothing else did.
pub open spec fn ram_stored(pre: Bus, post: Bus, idx: int, v: u8) -> bool {
    &&& post == (Bus { cpu: post.cpu, memory: post.memory, ..pre })
    &&& post.memory.values@ == pre.memory.values@.update(idx, v)
}


/// The exact effect of each opcode in 0x00-0x1F: under the
/// hypothesis that its operand fetches and memory accesses land in RAM,
/// the result is Ok with the exact cycle count, the CPU is the
/// primitive's post-state with the program counter advanced, and nothing
/// else on the bus moves.
pub open spec fn apply_spec_00(code: u8, pre: Bus, post: Bus, r: Result<u8, Message>) -> bool {
    &&& (code == 0x00) ==> ({
        let ret = (pre.cpu.PC + 2) % 0x10000;
        let pushed = pre.memory.values@.update(
            0x0100 + pre.cpu.S as int,
            (ret / 0x100) as u8,
        ).update(0x0100 + push_s(pre.cpu.S) as int, (ret % 0x100) as u8).update(
            0x0100 + push_s(push_s(pre.cpu.S)) as int,
            ((flags_byte(pre.cpu.P) as u8) | 0x10) as u8,
        );
        &&& r == Ok::<u8, Message>(7u8)
        &&& post.memory.values@ == pushed
        &&& post.cpu == (CPU {
            S: push_s(push_s(push_s(pre.cpu.S))),
            PC: (prg_byte(pre.rom.mapper, 0xFFFE) + 0x100 * prg_byte(
                pre.rom.mapper,
                0xFFFF,
            )) as u16,
            P: Flags { I: true, ..pre.cpu.P },
            ..pre.cpu
        })
        &&& post == (Bus { cpu: post.cpu, memory: post.memory, ..pre })
    })
    &&& (code == 0x01 && ram1(pre) && ram_region(ea_izx(pre))) ==> (r == Ok::<u8, Message>(6u8) && post.cpu == pc_plus(
        ora_post(pre.cpu, ram_at(pre, ea_izx(pre))),
        2,
    ) && same_but_cpu(pre, post))
    &&& (code == 0x05 && ram1(pre)) ==> (r == Ok::<u8, Message>(3u8) && post.cpu == pc_plus(
        ora_post(pre.cpu, zpv(pre, m1(pre) as int)),
        2,
    ) && same_but_cpu(pre, post))
    &&& (code == 0x06 && ram1(pre)) ==> (r == Ok::<u8, Message>(5u8)
        && post.cpu == pc_plus(asl_post(pre.cpu, zpv(pre, m1(pre) as int)), 2) && ram_stored(
        pre,
        post,
        m1(pre) as int,
        asl_result(zpv(pre, m1(pre) as int)),
    ))
    &&& (code == 0x08) ==> (r == Ok::<u8, Message>(3u8) && post.cpu == pc_plus(
        (CPU { S: push_s(pre.cpu.S), ..pre.cpu }),
        1,
    ) && ram_stored(
        pre,
        post,
        0x0100 + pre.cpu.S as int,
        ((flags_byte(pre.cpu.P) as u8) | 0x10) as u8,
    ))
    &&& (code == 0x09 && ram1(pre)) ==> (r == Ok::<u8, Message>(2u8) && post.cpu == pc_plus(
        ora_post(pre.cpu, m1(pre)),
        2,
    ) && same_but_cpu(pre, post))
    &&& (code == 0x0A) ==> (r == Ok::<u8, Message>(2u8) && post.cpu == pc_plus(
        (CPU { A: asl_result(pre.cpu.A), ..asl_post(pre.cpu, pre.cpu.A) }),
        1,
    ) && same_but_cpu(pre, post))
    &&& (code == 0x0D && ram2(pre) && ram_region(ea_abs(pre))) ==> (r == Ok::<u8, Message>(4u8) && post.cpu == pc_plus(
        ora_post(pre.cpu, ram_at(pre, ea_abs(pre))),
        3,
    ) && same_but_cpu(pre, post))
    &&& (code == 0x0E && ram2(pre) && ram_region(ea_abs(pre))) ==> (r == Ok::<u8, Message>(6u8)
        && post.cpu == pc_plus(asl_post(pre.cpu, ram_at(pre, ea_abs(pre))), 3) && ram_stored(
        pre,
        post,
        (ea_abs(pre) & 0x07FF) as int,
        asl_result(ram_at(pre, ea_abs(pre))),
    ))
    &&& (code == 0x10 && !(!pre.cpu.P.N)) ==> (r == Ok::<u8, Message>(2u8) && post.cpu == pc_plus(
        pre.cpu,
        2,
    ) && same_but_cpu(pre, post))
    &&& (code == 0x10 && (!pre.cpu.P.N) && ram1(pre)) ==> ({
        let target = (((pre.cpu.PC + 2) + rel_off(m1(pre))) % 0x10000) as u16;
        &&& r == Ok::<u8, Message>(
            if pre.cpu.PC & 0xFF00 == target & 0xFF00 {
                3u8
            } else {
                4u8
            },
        )
        &&& post.cpu == (CPU { PC: target, ..pre.cpu })
        &&& same_but_cpu(pre, post)
    })
    &&& (code == 0x11 && ram1(pre) && ram_region(ea_izy(pre))) ==> (r == Ok::<u8, Message>(
        if crossed_izy(pre) {
            6u8
        } else {
            5u8
        },
    ) && post.cpu == pc_plus(
        ora_post(pre.cpu, ram_at(pre, ea_izy(pre))),
        2,
    ) && same_but_cpu(pre, post))
    &&& (code == 0x15 && ram1(pre)) ==> (r == Ok::<u8, Message>(4u8) && post.cpu == pc_plus(
        ora_post(pre.cpu, zpv(pre, ea_zpx(pre))),
        2,
    ) && same_but_cpu(pre, post))
    &&& (code == 0x16 && ram1(pre)) ==> (r == Ok::<u8, Message>(6u8)
        && post.cpu == pc_plus(asl_post(pre.cpu, zpv(pre, ea_zpx(pre))), 2) && ram_stored(
        pre,
        post,
        ea_zpx(pre),
        asl_result(zpv(pre, ea_zpx(pre))),
    ))
    &&& (code == 0x18) ==> (r == Ok::<u8, Message>(2u8) && post.cpu == pc_plus(
        (CPU { P: Flags { C: 0u8, ..pre.cpu.P }, ..pre.cpu }),
        1,
    ) && same_but_cpu(pre, post))
    &&& (code == 0x19 && ram2(pre) && ram_region(ea_absy(pre))) ==> (r == Ok::<u8, Message>(
        if crossed_absy(pre) {
            5u8
        } else {
            4u8
        },
    ) && post.cpu == pc_plus(
        ora_post(pre.cpu, ram_at(pre, ea_absy(pre))),
        3,
    ) && same_but_cpu(pre, post))
    &&& (code == 0x1D && ram2(pre) && ram_region(ea_absx(pre))) ==> (r == Ok::<u8, Message>(
        if crossed_absx(pre) {
            5u8
        } else {
            4u8
        },
    ) && post.cpu == pc_plus(
        ora_post(pre.cpu, ram_at(pre, ea_absx(pre))),
        3,
    ) && same_but_cpu(pre, post))
    &&& (code == 0x1E && ram2(pre) && ram_region(ea_absx(pre))) ==> (r == Ok::<u8, Message>(7u8)
        && post.cpu == pc_plus(asl_post(pre.cpu, ram_at(pre, ea_absx(pre))), 3) && ram_stored(
        pre,
        post,
        (ea_absx(pre) & 0x07FF) as int,
        asl_result(ram_at(pre, ea_absx(pre))),
    ))
}

/// The exact effect of each opcode in 0x20-0x3F: under the
/// hypothesis that its operand fetches and memory accesses land in RAM,
/// the result is Ok with the exact cycle count, the CPU is the
/// primitive's post-state with the program counter advanced, and nothing
/// else on the bus moves.
pub open spec fn apply_spec_20(code: u8, pre: Bus, post: Bus, r: Result<u8, Message>) -> bool {
    &&& (code == 0x20 && ram2(pre)) ==> ({
        let ret = (pre.cpu.PC + 2) % 0x10000;
        let pushed = pre.memory.values@.update(
            0x0100 + pre.cpu.S as int,
            (ret / 0x100) as u8,
        ).update(0x0100 + push_s(pre.cpu.S) as int, (ret % 0x100) as u8);
        let target = (pushed[(p1(pre) & 0x07FF) as int] + 0x100 * pushed[(p2(pre)
            & 0x07FF) as int]) as u16;
        &&& r == Ok::<u8, Message>(6u8)
        &&& post.memory.values@ == pushed
        &&& post.cpu == (CPU { S: push_s(push_s(pre.cpu.S)), PC: target, ..pre.cpu })
        &&& post == (Bus { cpu: post.cpu, memory: post.memory, ..pre })
    })
    &&& (code == 0x21 && ram1(pre) && ram_region(ea_izx(pre))) ==> (r == Ok::<u8, Message>(6u8) && post.cpu == pc_plus(
        and_post(pre.cpu, ram_at(pre, ea_izx(pre))),
        2,
    ) && same_but_cpu(pre, post))
    &&& (code == 0x24 && ram1(pre)) ==> (r == Ok::<u8, Message>(3u8) && post.cpu == pc_plus(
        bit_post(pre.cpu, zpv(pre, m1(pre) as int)),
        2,
    ) && same_but_cpu(pre, post))
    &&& (code == 0x25 && ram1(pre)) ==> (r == Ok::<u8, Message>(3u8) && post.cpu == pc_plus(
        and_post(pre.cpu, zpv(pre, m1(pre) as int)),
        2,
    ) && same_but_cpu(pre, post))
    &&& (code == 0x26 && ram1(pre)) ==> (r == Ok::<u8, Message>(5u8)
        && post.cpu == pc_plus(rol_post(pre.cpu, zpv(pre, m1(pre) as int)), 2) && ram_stored(
        pre,
        post,
        m1(pre) as int,
        rol_result(zpv(pre, m1(pre) as int), pre.cpu.P.C),
    ))
    &&& (code == 0x28) ==> (r == Ok::<u8, Message>(4u8) && post.cpu == pc_plus(
        setp_post(
            (CPU { S: pop_s(pre.cpu.S), ..pre.cpu }),
            pre.memory.values@[0x0100 + pop_s(pre.cpu.S) as int],
        ),
        1,
    ) && same_but_cpu(pre, post))
    &&& (code == 0x29 && ram1(pre)) ==> (r == Ok::<u8, Message>(2u8) && post.cpu == pc_plus(
        and_post(pre.cpu, m1(pre)),
        2,
    ) && same_but_cpu(pre, post))
    &&& (code == 0x2A) ==> (r == Ok::<u8, Message>(2u8) && post.cpu == pc_plus(
        (CPU { A: rol_result(pre.cpu.A, pre.cpu.P.C), ..rol_post(pre.cpu, pre.cpu.A) }),
        1,
    ) && same_but_cpu(pre, post))
    &&& (code == 0x2C && ram2(pre) && ram_region(ea_abs(pre))) ==> (r == Ok::<u8, Message>(4u8) && post.cpu == pc_plus(
        bit_post(pre.cpu, ram_at(pre, ea_abs(pre))),
        3,
    ) && same_but_cpu(pre, post))
    &&& (code == 0x2D && ram2(pre) && ram_region(ea_abs(pre))) ==> (r == Ok::<u8, Message>(4u8) && post.cpu == pc_plus(
        and_post(pre.cpu, ram_at(pre, ea_abs(pre))),
        3,
    ) && same_but_cpu(pre, post))
    &&& (code == 0x2E && ram2(pre) && ram_region(ea_abs(pre))) ==> (r == Ok::<u8, Message>(6u8)
        && post.cpu == pc_plus(rol_post(pre.cpu, ram_at(pre, ea_abs(pre))), 3) && ram_stored(
        pre,
        post,
        (ea_abs(pre) & 0x07FF) as int,
        rol_result(ram_at(pre, ea_abs(pre)), pre.cpu.P.C),
    ))
    &&& (code == 0x30 && !(pre.cpu.P.N)) ==> (r == Ok::<u8, Message>(2u8) && post.cpu == pc_plus(
        pre.cpu,
        2,
    ) && same_but_cpu(pre, post))
    &&& (code == 0x30 && (pre.cpu.P.N) && ram1(pre)) ==> ({
        let target = (((pre.cpu.PC + 2) + rel_off(m1(pre))) % 0x10000) as u16;
        &&& r == Ok::<u8, Message>(
            if pre.cpu.PC & 0xFF00 == target & 0xFF00 {
                3u8
            } else {
                4u8
            },
        )
        &&& post.cpu == (CPU { PC: target, ..pre.cpu })
        &&& same_but_cpu(pre, post)
    })
    &&& (code == 0x31 && ram1(pre) && ram_region(ea_izy(pre))) ==> (r == Ok::<u8, Message>(
        if crossed_izy(pre) {
            6u8
        } else {
            5u8
        },
    ) && post.cpu == pc_plus(
        and_post(pre.cpu, ram_at(pre, ea_izy(pre))),
        2,
    ) && same_but_cpu(pre, post))
    &&& (code == 0x35 && ram1(pre)) ==> (r == Ok::<u8, Message>(4u8) && post.cpu == pc_plus(
        and_post(pre.cpu, zpv(pre, ea_zpx(pre))),
        2,
    ) && same_but_cpu(pre, post))
    &&& (code == 0x36 && ram1(pre)) ==> (r == Ok::<u8, Message>(6u8)
        && post.cpu == pc_plus(rol_post(pre.cpu, zpv(pre, ea_zpx(pre))), 2) && ram_stored(
        pre,
        post,
        ea_zpx(pre),
        rol_result(zpv(pre, ea_zpx(pre)), pre.cpu.P.C),
    ))
    &&& (code == 0x38) ==> (r == Ok::<u8, Message>(2u8) && post.cpu == pc_plus(
        (CPU { P: Flags { C: 1u8, ..pre.cpu.P }, ..pre.cpu }),
        1,
    ) && same_but_cpu(pre, post))
    &&& (code == 0x39 && ram2(pre) && ram_region(ea_absy(pre))) ==> (r == Ok::<u8, Message>(
        if crossed_absy(pre) {
            5u8
        } else {
            4u8
        },
    ) && post.cpu == pc_plus(
        and_post(pre.cpu, ram_at(pre, ea_absy(pre))),
        3,
    ) && same_but_cpu(pre, post))
    &&& (code == 0x3D && ram2(pre) && ram_region(ea_absx(pre))) ==> (r == Ok::<u8, Message>(
        if crossed_absx(pre) {
            5u8
        } else {
            4u8
        },
    ) && post.cpu == pc_plus(
        and_post(pre.cpu, ram_at(pre, ea_absx(pre))),
        3,
    ) && same_but_cpu(pre, post))
    &&& (code == 0x3E && ram2(pre) && ram_region(ea_absx(pre))) ==> (r == Ok::<u8, Message>(7u8)
        && post.cpu == pc_plus(rol_post(pre.cpu, ram_at(pre, ea_absx(pre))), 3) && ram_stored(
        pre,
        post,
        (ea_absx(pre) & 0x07FF) as int,
        rol_result(ram_at(pre, ea_absx(pre)), pre.cpu.P.C),
    ))
}

/// The exact effect of each opcode in 0x40-0x5F: under the
/// hypothesis that its operand fetches and memory accesses land in RAM,
/// the result is Ok with the exact cycle count, the CPU is the
/// primitive's post-state with the program counter advanced, and nothing
/// else on the bus moves.
pub open spec fn apply_spec_40(code: u8, pre: Bus, post: Bus, r: Result<u8, Message>) -> bool {
    &&& (code == 0x40) ==> ({
        let p = pre.memory.values@[0x0100 + pop_s(pre.cpu.S) as int];
        let lo = pre.memory.values@[0x0100 + pop_s(pop_s(pre.cpu.S)) as int];
        let hi = pre.memory.values@[0x0100 + pop_s(pop_s(pop_s(pre.cpu.S))) as int];
        &&& r == Ok::<u8, Message>(6u8)
        &&& post.cpu == (CPU {
            PC: (lo + 0x100 * hi) as u16,
            ..setp_post((CPU { S: pop_s(pop_s(pop_s(pre.cpu.S))), ..pre.cpu }), p)
        })
        &&& same_but_cpu(pre, post)
    })
    &&& (code == 0x41 && ram1(pre) && ram_region(ea_izx(pre))) ==> (r == Ok::<u8, Message>(6u8) && post.cpu == pc_plus(
        eor_post(pre.cpu, ram_at(pre, ea_izx(pre))),
        2,
    ) && same_but_cpu(pre, post))
    &&& (code == 0x45 && ram1(pre)) ==> (r == Ok::<u8, Message>(3u8) && post.cpu == pc_plus(
        eor_post(pre.cpu, zpv(pre, m1(pre) as int)),
        2,
    ) && same_but_cpu(pre, post))
    &&& (code == 0x46 && ram1(pre)) ==> (r == Ok::<u8, Message>(5u8)
        && post.cpu == pc_plus(lsr_post(pre.cpu, zpv(pre, m1(pre) as int)), 2) && ram_stored(
        pre,
        post,
        m1(pre) as int,
        lsr_result(zpv(pre, m1(pre) as int)),
    ))
    &&& (code == 0x48) ==> (r == Ok::<u8, Message>(3u8) && post.cpu == pc_plus(
        (CPU { S: push_s(pre.cpu.S), ..pre.cpu }),
        1,
    ) && ram_stored(pre, post, 0x0100 + pre.cpu.S as int, pre.cpu.A))
    &&& (code == 0x49 && ram1(pre)) ==> (r == Ok::<u8, Message>(2u8) && post.cpu == pc_plus(
        eor_post(pre.cpu, m1(pre)),
        2,
    ) && same_but_cpu(pre, post))
    &&& (code == 0x4A) ==> (r == Ok::<u8, Message>(2u8) && post.cpu == pc_plus(
        (CPU { A: lsr_result(pre.cpu.A), ..lsr_post(pre.cpu, pre.cpu.A) }),
        1,
    ) && same_but_cpu(pre, post))
    &&& (code == 0x4C && ram2(pre)) ==> (r == Ok::<u8, Message>(3u8) && post.cpu == (CPU {
        PC: ea_abs(pre),
        ..pre.cpu
    }) && same_but_cpu(pre, post))
    &&& (code == 0x4D && ram2(pre) && ram_region(ea_abs(pre))) ==> (r == Ok::<u8, Message>(4u8) && post.cpu == pc_plus(
        eor_post(pre.cpu, ram_at(pre, ea_abs(pre))),
        3,
    ) && same_but_cpu(pre, post))
    &&& (code == 0x4E && ram2(pre) && ram_region(ea_abs(pre))) ==> (r == Ok::<u8, Message>(6u8)
        && post.cpu == pc_plus(lsr_post(pre.cpu, ram_at(pre, ea_abs(pre))), 3) && ram_stored(
        pre,
        post,
        (ea_abs(pre) & 0x07FF) as int,
        lsr_result(ram_at(pre, ea_abs(pre))),
    ))
    &&& (code == 0x50 && !(!pre.cpu.P.V)) ==> (r == Ok::<u8, Message>(2u8) && post.cpu == pc_plus(
        pre.cpu,
        2,
    ) && same_but_cpu(pre, post))
    &&& (code == 0x50 && (!pre.cpu.P.V) && ram1(pre)) ==> ({
        let target = (((pre.cpu.PC + 2) + rel_off(m1(pre))) % 0x10000) as u16;
        &&& r == Ok::<u8, Message>(
            if pre.cpu.PC & 0xFF00 == target & 0xFF00 {
                3u8
            } else {
                4u8
            },
        )
        &&& post.cpu == (CPU { PC: target, ..pre.cpu })
        &&& same_but_cpu(pre, post)
    })
    &&& (code == 0x51 && ram1(pre) && ram_region(ea_izy(pre))) ==> (r == Ok::<u8, Message>(
        if crossed_izy(pre) {
            6u8
        } else {
            5u8
        },
    ) && post.cpu == pc_plus(
        eor_post(pre.cpu, ram_at(pre, ea_izy(pre))),
        2,
    ) && same_but_cpu(pre, post))
    &&& (code == 0x55 && ram1(pre)) ==> (r == Ok::<u8, Message>(4u8) && post.cpu == pc_plus(
        eor_post(pre.cpu, zpv(pre, ea_zpx(pre))),
        2,
    ) && same_but_cpu(pre, post))
    &&& (code == 0x56 && ram1(pre)) ==> (r == Ok::<u8, Message>(6u8)
        && post.cpu == pc_plus(lsr_post(pre.cpu, zpv(pre, ea_zpx(pre))), 2) && ram_stored(
        pre,
        post,
        ea_zpx(pre),
        lsr_result(zpv(pre, ea_zpx(pre))),
    ))
    &&& (code == 0x58) ==> (r == Ok::<u8, Message>(2u8) && post.cpu == pc_plus(
        (CPU { P: Flags { I: false, ..pre.cpu.P }, ..pre.cpu }),
        1,
    ) && same_but_cpu(pre, post))
    &&& (code == 0x59 && ram2(pre) && ram_region(ea_absy(pre))) ==> (r == Ok::<u8, Message>(
        if crossed_absy(pre) {
            5u8
        } else {
            4u8
        },
    ) && post.cpu == pc_plus(
        eor_post(pre.cpu, ram_at(pre, ea_absy(pre))),
        3,
    ) && same_but_cpu(pre, post))
    &&& (code == 0x5D && ram2(pre) && ram_region(ea_absx(pre))) ==> (r == Ok::<u8, Message>(
        if crossed_absx(pre) {
            5u8
        } else {
            4u8
        },
    ) && post.cpu == pc_plus(
        eor_post(pre.cpu, ram_at(pre, ea_absx(pre))),
        3,
    ) && same_but_cpu(pre, post))
    &&& (code == 0x5E && ram2(pre) && ram_region(ea_absx(pre))) ==> (r == Ok::<u8, Message>(7u8)
        && post.cpu == pc_plus(lsr_post(pre.cpu, ram_at(pre, ea_absx(pre))), 3) && ram_stored(
        pre,
        post,
        (ea_absx(pre) & 0x07FF) as int,
        lsr_result(ram_at(pre, ea_absx(pre))),
    ))
}

/// The exact effect of each opcode in 0x60-0x7F: under the
/// hypothesis that its operand fetches and memory accesses land in RAM,
/// the result is Ok with the exact cycle count, the CPU is the
/// primitive's post-state with the program counter advanced, and nothing
/// else on the bus moves.
pub open spec fn apply_spec_60(code: u8, pre: Bus, post: Bus, r: Result<u8, Message>) -> bool {
    &&& (code == 0x60) ==> ({
        let lo = pre.memory.values@[0x0100 + pop_s(pre.cpu.S) as int];
        let hi = pre.memory.values@[0x0100 + pop_s(pop_s(pre.cpu.S)) as int];
        &&& r == Ok::<u8, Message>(6u8)
        &&& post.cpu == (CPU {
            PC: (((lo + 0x100 * hi) + 1) % 0x10000) as u16,
            S: pop_s(pop_s(pre.cpu.S)),
            ..pre.cpu
        })
        &&& same_but_cpu(pre, post)
    })
    &&& (code == 0x61 && ram1(pre) && ram_region(ea_izx(pre))) ==> (r == Ok::<u8, Message>(6u8) && post.cpu == pc_plus(
        adc_post(pre.cpu, ram_at(pre, ea_izx(pre))),
        2,
    ) && same_but_cpu(pre, post))
    &&& (code == 0x65 && ram1(pre)) ==> (r == Ok::<u8, Message>(3u8) && post.cpu == pc_plus(
        adc_post(pre.cpu, zpv(pre, m1(pre) as int)),
        2,
    ) && same_but_cpu(pre, post))
    &&& (code == 0x66 && ram1(pre)) ==> (r == Ok::<u8, Message>(5u8)
        && post.cpu == pc_plus(ror_post(pre.cpu, zpv(pre, m1(pre) as int)), 2) && ram_stored(
        pre,
        post,
        m1(pre) as int,
        ror_result(zpv(pre, m1(pre) as int), pre.cpu.P.C),
    ))
    &&& (code == 0x68) ==> (r == Ok::<u8, Message>(4u8) && post.cpu == pc_plus(
        lda_post(
            (CPU { S: pop_s(pre.cpu.S), ..pre.cpu }),
            pre.memory.values@[0x0100 + pop_s(pre.cpu.S) as int],
        ),
        1,
    ) && same_but_cpu(pre, post))
    &&& (code == 0x69 && ram1(pre)) ==> (r == Ok::<u8, Message>(2u8) && post.cpu == pc_plus(
        adc_post(pre.cpu, m1(pre)),
        2,
    ) && same_but_cpu(pre, post))
    &&& (code == 0x6A) ==> (r == Ok::<u8, Message>(2u8) && post.cpu == pc_plus(
        (CPU { A: ror_result(pre.cpu.A, pre.cpu.P.C), ..ror_post(pre.cpu, pre.cpu.A) }),
        1,
    ) && same_but_cpu(pre, post))
    &&& (code == 0x6C && ram2(pre) && ram_region(ea_abs(pre)) && ram_region(ind_high(pre))) ==> (r
        == Ok::<u8, Message>(5u8) && post.cpu == (CPU {
        PC: (ram_at(pre, ea_abs(pre)) + 0x100 * ram_at(pre, ind_high(pre))) as u16,
        ..pre.cpu
    }) && same_but_cpu(pre, post))
    &&& (code == 0x6D && ram2(pre) && ram_region(ea_abs(pre))) ==> (r == Ok::<u8, Message>(4u8) && post.cpu == pc_plus(
        adc_post(pre.cpu, ram_at(pre, ea_abs(pre))),
        3,
    ) && same_but_cpu(pre, post))
    &&& (code == 0x6E && ram2(pre) && ram_region(ea_abs(pre))) ==> (r == Ok::<u8, Message>(6u8)
        && post.cpu == pc_plus(ror_post(pre.cpu, ram_at(pre, ea_abs(pre))), 3) && ram_stored(
        pre,
        post,
        (ea_abs(pre) & 0x07FF) as int,
        ror_result(ram_at(pre, ea_abs(pre)), pre.cpu.P.C),
    ))
    &&& (code == 0x70 && !(pre.cpu.P.V)) ==> (r == Ok::<u8, Message>(2u8) && post.cpu == pc_plus(
        pre.cpu,
        2,
    ) && same_but_cpu(pre, post))
    &&& (code == 0x70 && (pre.cpu.P.V) && ram1(pre)) ==> ({
        let target = (((pre.cpu.PC + 2) + rel_off(m1(pre))) % 0x10000) as u16;
        &&& r == Ok::<u8, Message>(
            if pre.cpu.PC & 0xFF00 == target & 0xFF00 {
                3u8
            } else {
                4u8
            },
        )
        &&& post.cpu == (CPU { PC: target, ..pre.cpu })
        &&& same_but_cpu(pre, post)
    })
    &&& (code == 0x71 && ram1(pre) && ram_region(ea_izy(pre))) ==> (r == Ok::<u8, Message>(
        if crossed_izy(pre) {
            6u8
        } else {
            5u8
        },
    ) && post.cpu == pc_plus(
        adc_post(pre.cpu, ram_at(pre, ea_izy(pre))),
        2,
    ) && same_but_cpu(pre, post))
    &&& (code == 0x75 && ram1(pre)) ==> (r == Ok::<u8, Message>(4u8) && post.cpu == pc_plus(
        adc_post(pre.cpu, zpv(pre, ea_zpx(pre))),
        2,
    ) && same_but_cpu(pre, post))
    &&& (code == 0x76 && ram1(pre)) ==> (r == Ok::<u8, Message>(6u8)
        && post.cpu == pc_plus(ror_post(pre.cpu, zpv(pre, ea_zpx(pre))), 2) && ram_stored(
        pre,
        post,
        ea_zpx(pre),
        ror_result(zpv(pre, ea_zpx(pre)), pre.cpu.P.C),
    ))
    &&& (code == 0x78) ==> (r == Ok::<u8, Message>(2u8) && post.cpu == pc_plus(
        (CPU { P: Flags { I: true, ..pre.cpu.P }, ..pre.cpu }),
        1,
    ) && same_but_cpu(pre, post))
    &&& (code == 0x79 && ram2(pre) && ram_region(ea_absy(pre))) ==> (r == Ok::<u8, Message>(
        if crossed_absy(pre) {
            5u8
        } else {
            4u8
        },
    ) && post.cpu == pc_plus(
        adc_post(pre.cpu, ram_at(pre, ea_absy(pre))),
        3,
    ) && same_but_cpu(pre, post))
    &&& (code == 0x7D && ram2(pre) && ram_region(ea_absx(pre))) ==> (r == Ok::<u8, Message>(
        if crossed_absx(pre) {
            5u8
        } else {
            4u8
        },
    ) && post.cpu == pc_plus(
        adc_post(pre.cpu, ram_at(pre, ea_absx(pre))),
        3,
    ) && same_but_cpu(pre, post))
    &&& (code == 0x7E && ram2(pre) && ram_region(ea_absx(pre))) ==> (r == Ok::<u8, Message>(7u8)
        && post.cpu == pc_plus(ror_post(pre.cpu, ram_at(pre, ea_absx(pre))), 3) && ram_stored(
        pre,
        post,
        (ea_absx(pre) & 0x07FF) as int,
        ror_result(ram_at(pre, ea_absx(pre)), pre.cpu.P.C),
    ))
}

/// The exact effect of each opcode in 0x80-0x9F: under the
/// hypothesis that its operand fetches and memory accesses land in RAM,
/// the result is Ok with the exact cycle count, the CPU is the
/// primitive's post-state with the program counter advanced, and nothing
/// else on the bus moves.
pub open spec fn apply_spec_80(code: u8, pre: Bus, post: Bus, r: Result<u8, Message>) -> bool {
    &&& (code == 0x81 && ram1(pre) && ram_region(ea_izx(pre))) ==> (r == Ok::<u8, Message>(6u8)
        && post.cpu == pc_plus(pre.cpu, 2) && ram_stored(pre, post, (ea_izx(pre) & 0x07FF) as int, pre.cpu.A))
    &&& (code == 0x84 && ram1(pre)) ==> (r == Ok::<u8, Message>(3u8)
        && post.cpu == pc_plus(pre.cpu, 2) && ram_stored(pre, post, m1(pre) as int, pre.cpu.Y))
    &&& (code == 0x85 && ram1(pre)) ==> (r == Ok::<u8, Message>(3u8)
        && post.cpu == pc_plus(pre.cpu, 2) && ram_stored(pre, post, m1(pre) as int, pre.cpu.A))
    &&& (code == 0x86 && ram1(pre)) ==> (r == Ok::<u8, Message>(3u8)
        && post.cpu == pc_plus(pre.cpu, 2) && ram_stored(pre, post, m1(pre) as int, pre.cpu.X))
    &&& (code == 0x88) ==> (r == Ok::<u8, Message>(2u8) && post.cpu == pc_plus(
        (CPU { Y: dec_result(pre.cpu.Y), P: nz(pre.cpu.P, dec_result(pre.cpu.Y)), ..pre.cpu }),
        1,
    ) && same_but_cpu(pre, post))
    &&& (code == 0x8A) ==> (r == Ok::<u8, Message>(2u8) && post.cpu == pc_plus(
        (CPU { A: pre.cpu.X, P: nz(pre.cpu.P, pre.cpu.X), ..pre.cpu }),
        1,
    ) && same_but_cpu(pre, post))
    &&& (code == 0x8C && ram2(pre) && ram_region(ea_abs(pre))) ==> (r == Ok::<u8, Message>(4u8)
        && post.cpu == pc_plus(pre.cpu, 3) && ram_stored(pre, post, (ea_abs(pre) & 0x07FF) as int, pre.cpu.Y))
    &&& (code == 0x8D && ram2(pre) && ram_region(ea_abs(pre))) ==> (r == Ok::<u8, Message>(4u8)
        && post.cpu == pc_plus(pre.cpu, 3) && ram_stored(pre, post, (ea_abs(pre) & 0x07FF) as int, pre.cpu.A))
    &&& (code == 0x8E && ram2(pre) && ram_region(ea_abs(pre))) ==> (r == Ok::<u8, Message>(4u8)
        && post.cpu == pc_plus(pre.cpu, 3) && ram_stored(pre, post, (ea_abs(pre) & 0x07FF) as int, pre.cpu.X))
    &&& (code == 0x90 && !(pre.cpu.P.C == 0)) ==> (r == Ok::<u8, Message>(2u8) && post.cpu == pc_plus(
        pre.cpu,
        2,
    ) && same_but_cpu(pre, post))
    &&& (code == 0x90 && (pre.cpu.P.C == 0) && ram1(pre)) ==> ({
        let target = (((pre.cpu.PC + 2) + rel_off(m1(pre))) % 0x10000) as u16;
        &&& r == Ok::<u8, Message>(
            if pre.cpu.PC & 0xFF00 == target & 0xFF00 {
                3u8
            } else {
                4u8
            },
        )
        &&& post.cpu == (CPU { PC: target, ..pre.cpu })
        &&& same_but_cpu(pre, post)
    })
    &&& (code == 0x91 && ram1(pre) && ram_region(ea_izy(pre))) ==> (r == Ok::<u8, Message>(6u8)
        && post.cpu == pc_plus(pre.cpu, 2) && ram_stored(pre, post, (ea_izy(pre) & 0x07FF) as int, pre.cpu.A))
    &&& (code == 0x94 && ram1(pre)) ==> (r == Ok::<u8, Message>(4u8)
        && post.cpu == pc_plus(pre.cpu, 2) && ram_stored(pre, post, ea_zpx(pre), pre.cpu.Y))
    &&& (code == 0x95 && ram1(pre)) ==> (r == Ok::<u8, Message>(4u8)
        && post.cpu == pc_plus(pre.cpu, 2) && ram_stored(pre, post, ea_zpx(pre), pre.cpu.A))
    &&& (code == 0x96 && ram1(pre)) ==> (r == Ok::<u8, Message>(4u8)
        && post.cpu == pc_plus(pre.cpu, 2) && ram_stored(pre, post, ea_zpy(pre), pre.cpu.X))
    &&& (code == 0x98) ==> (r == Ok::<u8, Message>(2u8) && post.cpu == pc_plus(
        (CPU { A: pre.cpu.Y, P: nz(pre.cpu.P, pre.cpu.Y), ..pre.cpu }),
        1,
    ) && same_but_cpu(pre, post))
    &&& (code == 0x99 && ram2(pre) && ram_region(ea_absy(pre))) ==> (r == Ok::<u8, Message>(5u8)
        && post.cpu == pc_plus(pre.cpu, 3) && ram_stored(pre, post, (ea_absy(pre) & 0x07FF) as int, pre.cpu.A))
    &&& (code == 0x9A) ==> (r == Ok::<u8, Message>(2u8) && post.cpu == pc_plus(
        (CPU { S: pre.cpu.X, ..pre.cpu }),
        1,
    ) && same_but_cpu(pre, post))
    &&& (code == 0x9D && ram2(pre) && ram_region(ea_absx(pre))) ==> (r == Ok::<u8, Message>(5u8)
        && post.cpu == pc_plus(pre.cpu, 3) && ram_stored(pre, post, (ea_absx(pre) & 0x07FF) as int, pre.cpu.A))
}

/// The exact effect of each opcode in 0xA0-0xBF: under the
/// hypothesis that its operand fetches and memory accesses land in RAM,
/// the result is Ok with the exact cycle count, the CPU is the
/// primitive's post-state with the program counter advanced, and nothing
/// else on the bus moves.
pub open spec fn apply_spec_a0(code: u8, pre: Bus, post: Bus, r: Result<u8, Message>) -> bool {
    &&& (code == 0xA0 && ram1(pre)) ==> (r == Ok::<u8, Message>(2u8) && post.cpu == pc_plus(
        ldy_post(pre.cpu, m1(pre)),
        2,
    ) && same_but_cpu(pre, post))
    &&& (code == 0xA1 && ram1(pre) && ram_region(ea_izx(pre))) ==> (r == Ok::<u8, Message>(6u8) && post.cpu == pc_plus(
        lda_post(pre.cpu, ram_at(pre, ea_izx(pre))),
        2,
    ) && same_but_cpu(pre, post))
    &&& (code == 0xA2 && ram1(pre)) ==> (r == Ok::<u8, Message>(2u8) && post.cpu == pc_plus(
        ldx_post(pre.cpu, m1(pre)),
        2,
    ) && same_but_cpu(pre, post))
    &&& (code == 0xA4 && ram1(pre)) ==> (r == Ok::<u8, Message>(3u8) && post.cpu == pc_plus(
        ldy_post(pre.cpu, zpv(pre, m1(pre) as int)),
        2,
    ) && same_but_cpu(pre, post))
    &&& (code == 0xA5 && ram1(pre)) ==> (r == Ok::<u8, Message>(3u8) && post.cpu == pc_plus(
        lda_post(pre.cpu, zpv(pre, m1(pre) as int)),
        2,
    ) && same_but_cpu(pre, post))
    &&& (code == 0xA6 && ram1(pre)) ==> (r == Ok::<u8, Message>(3u8) && post.cpu == pc_plus(
        ldx_post(pre.cpu, zpv(pre, m1(pre) as int)),
        2,
    ) && same_but_cpu(pre, post))
    &&& (code == 0xA8) ==> (r == Ok::<u8, Message>(2u8) && post.cpu == pc_plus(
        (CPU { Y: pre.cpu.A, P: nz(pre.cpu.P, pre.cpu.A), ..pre.cpu }),
        1,
    ) && same_but_cpu(pre, post))
    &&& (code == 0xA9 && ram1(pre)) ==> (r == Ok::<u8, Message>(2u8) && post.cpu == pc_plus(
        lda_post(pre.cpu, m1(pre)),
        2,
    ) && same_but_cpu(pre, post))
    &&& (code == 0xAA) ==> (r == Ok::<u8, Message>(2u8) && post.cpu == pc_plus(
        (CPU { X: pre.cpu.A, P: nz(pre.cpu.P, pre.cpu.A), ..pre.cpu }),
        1,
    ) && same_but_cpu(pre, post))
    &&& (code == 0xAC && ram2(pre) && ram_region(ea_abs(pre))) ==> (r == Ok::<u8, Message>(4u8) && post.cpu == pc_plus(
        ldy_post(pre.cpu, ram_at(pre, ea_abs(pre))),
        3,
    ) && same_but_cpu(pre, post))
    &&& (code == 0xAD && ram2(pre) && ram_region(ea_abs(pre))) ==> (r == Ok::<u8, Message>(4u8) && post.cpu == pc_plus(
        lda_post(pre.cpu, ram_at(pre, ea_abs(pre))),
        3,
    ) && same_but_cpu(pre, post))
    &&& (code == 0xAE && ram2(pre) && ram_region(ea_abs(pre))) ==> (r == Ok::<u8, Message>(4u8) && post.cpu == pc_plus(
        ldx_post(pre.cpu, ram_at(pre, ea_abs(pre))),
        3,
    ) && same_but_cpu(pre, post))
    &&& (code == 0xB0 && !(pre.cpu.P.C != 0)) ==> (r == Ok::<u8, Message>(2u8) && post.cpu == pc_plus(
        pre.cpu,
        2,
    ) && same_but_cpu(pre, post))
    &&& (code == 0xB0 && (pre.cpu.P.C != 0) && ram1(pre)) ==> ({
        let target = (((pre.cpu.PC + 2) + rel_off(m1(pre))) % 0x10000) as u16;
        &&& r == Ok::<u8, Message>(
            if pre.cpu.PC & 0xFF00 == target & 0xFF00 {
                3u8
            } else {
                4u8
            },
        )
        &&& post.cpu == (CPU { PC: target, ..pre.cpu })
        &&& same_but_cpu(pre, post)
    })
    &&& (code == 0xB1 && ram1(pre) && ram_region(ea_izy(pre))) ==> (r == Ok::<u8, Message>(
        if crossed_izy(pre) {
            6u8
        } else {
            5u8
        },
    ) && post.cpu == pc_plus(
        lda_post(pre.cpu, ram_at(pre, ea_izy(pre))),
        2,
    ) && same_but_cpu(pre, post))
    &&& (code == 0xB4 && ram1(pre)) ==> (r == Ok::<u8, Message>(4u8) && post.cpu == pc_plus(
        ldy_post(pre.cpu, zpv(pre, ea_zpx(pre))),
        2,
    ) && same_but_cpu(pre, post))
    &&& (code == 0xB5 && ram1(pre)) ==> (r == Ok::<u8, Message>(4u8) && post.cpu == pc_plus(
        lda_post(pre.cpu, zpv(pre, ea_zpx(pre))),
        2,
    ) && same_but_cpu(pre, post))
    &&& (code == 0xB6 && ram1(pre)) ==> (r == Ok::<u8, Message>(4u8) && post.cpu == pc_plus(
        ldx_post(pre.cpu, zpv(pre, ea_zpy(pre))),
        2,
    ) && same_but_cpu(pre, post))
    &&& (code == 0xB8) ==> (r == Ok::<u8, Message>(2u8) && post.cpu == pc_plus(
        (CPU { P: Flags { V: false, ..pre.cpu.P }, ..pre.cpu }),
        1,
    ) && same_but_cpu(pre, post))
    &&& (code == 0xB9 && ram2(pre) && ram_region(ea_absy(pre))) ==> (r == Ok::<u8, Message>(
        if crossed_absy(pre) {
            5u8
        } else {
            4u8
        },
    ) && post.cpu == pc_plus(
        lda_post(pre.cpu, ram_at(pre, ea_absy(pre))),
        3,
    ) && same_but_cpu(pre, post))
    &&& (code == 0xBA) ==> (r == Ok::<u8, Message>(2u8) && post.cpu == pc_plus(
        (CPU { X: pre.cpu.S, P: nz(pre.cpu.P, pre.cpu.S), ..pre.cpu }),
        1,
    ) && same_but_cpu(pre, post))
    &&& (code == 0xBC && ram2(pre) && ram_region(ea_absx(pre))) ==> (r == Ok::<u8, Message>(
        if crossed_absx(pre) {
            5u8
        } else {
            4u8
        },
    ) && post.cpu == pc_plus(
        ldy_post(pre.cpu, ram_at(pre, ea_absx(pre))),
        3,
    ) && same_but_cpu(pre, post))
    &&& (code == 0xBD && ram2(pre) && ram_region(ea_absx(pre))) ==> (r == Ok::<u8, Message>(
        if crossed_absx(pre) {
            5u8
        } else {
            4u8
        },
    ) && post.cpu == pc_plus(
        lda_post(pre.cpu, ram_at(pre, ea_absx(pre))),
        3,
    ) && same_but_cpu(pre, post))
    &&& (code == 0xBE && ram2(pre) && ram_region(ea_absy(pre))) ==> (r == Ok::<u8, Message>(
        if crossed_absy(pre) {
            5u8
        } else {
            4u8
        },
    ) && post.cpu == pc_plus(
        ldx_post(pre.cpu, ram_at(pre, ea_absy(pre))),
        3,
    ) && same_but_cpu(pre, post))
}

/// The exact effect of each opcode in 0xC0-0xDF: under the
/// hypothesis that its operand fetches and memory accesses land in RAM,
/// the result is Ok with the exact cycle count, the CPU is the
/// primitive's post-state with the program counter advanced, and nothing
/// else on the bus moves.
pub open spec fn apply_spec_c0(code: u8, pre: Bus, post: Bus, r: Result<u8, Message>) -> bool {
    &&& (code == 0xC0 && ram1(pre)) ==> (r == Ok::<u8, Message>(2u8) && post.cpu == pc_plus(
        cmp_post(pre.cpu, pre.cpu.Y, m1(pre)),
        2,
    ) && same_but_cpu(pre, post))
    &&& (code == 0xC1 && ram1(pre) && ram_region(ea_izx(pre))) ==> (r == Ok::<u8, Message>(6u8) && post.cpu == pc_plus(
        cmp_post(pre.cpu, pre.cpu.A, ram_at(pre, ea_izx(pre))),
        2,
    ) && same_but_cpu(pre, post))
    &&& (code == 0xC4 && ram1(pre)) ==> (r == Ok::<u8, Message>(3u8) && post.cpu == pc_plus(
        cmp_post(pre.cpu, pre.cpu.Y, zpv(pre, m1(pre) as int)),
        2,
    ) && same_but_cpu(pre, post))
    &&& (code == 0xC5 && ram1(pre)) ==> (r == Ok::<u8, Message>(3u8) && post.cpu == pc_plus(
        cmp_post(pre.cpu, pre.cpu.A, zpv(pre, m1(pre) as int)),
        2,
    ) && same_but_cpu(pre, post))
    &&& (code == 0xC6 && ram1(pre)) ==> (r == Ok::<u8, Message>(5u8)
        && post.cpu == pc_plus((CPU { P: nz(pre.cpu.P, dec_result(zpv(pre, m1(pre) as int))), ..pre.cpu }), 2) && ram_stored(
        pre,
        post,
        m1(pre) as int,
        dec_result(zpv(pre, m1(pre) as int)),
    ))
    &&& (code == 0xC8) ==> (r == Ok::<u8, Message>(2u8) && post.cpu == pc_plus(
        (CPU { Y: inc_result(pre.cpu.Y), P: nz(pre.cpu.P, inc_result(pre.cpu.Y)), ..pre.cpu }),
        1,
    ) && same_but_cpu(pre, post))
    &&& (code == 0xC9 && ram1(pre)) ==> (r == Ok::<u8, Message>(2u8) && post.cpu == pc_plus(
        cmp_post(pre.cpu, pre.cpu.A, m1(pre)),
        2,
    ) && same_but_cpu(pre, post))
    &&& (code == 0xCA) ==> (r == Ok::<u8, Message>(2u8) && post.cpu == pc_plus(
        (CPU { X: dec_result(pre.cpu.X), P: nz(pre.cpu.P, dec_result(pre.cpu.X)), ..pre.cpu }),
        1,
    ) && same_but_cpu(pre, post))
    &&& (code == 0xCC && ram2(pre) && ram_region(ea_abs(pre))) ==> (r == Ok::<u8, Message>(4u8) && post.cpu == pc_plus(
        cmp_post(pre.cpu, pre.cpu.Y, ram_at(pre, ea_abs(pre))),
        3,
    ) && same_but_cpu(pre, post))
    &&& (code == 0xCD && ram2(pre) && ram_region(ea_abs(pre))) ==> (r == Ok::<u8, Message>(4u8) && post.cpu == pc_plus(
        cmp_post(pre.cpu, pre.cpu.A, ram_at(pre, ea_abs(pre))),
        3,
    ) && same_but_cpu(pre, post))
    &&& (code == 0xCE && ram2(pre) && ram_region(ea_abs(pre))) ==> (r == Ok::<u8, Message>(6u8)
        && post.cpu == pc_plus((CPU { P: nz(pre.cpu.P, dec_result(ram_at(pre, ea_abs(pre)))), ..pre.cpu }), 3) && ram_stored(
        pre,
        post,
        (ea_abs(pre) & 0x07FF) as int,
        dec_result(ram_at(pre, ea_abs(pre))),
    ))
    &&& (code == 0xD0 && !(!pre.cpu.P.Z)) ==> (r == Ok::<u8, Message>(2u8) && post.cpu == pc_plus(
        pre.cpu,
        2,
    ) && same_but_cpu(pre, post))
    &&& (code == 0xD0 && (!pre.cpu.P.Z) && ram1(pre)) ==> ({
        let target = (((pre.cpu.PC + 2) + rel_off(m1(pre))) % 0x10000) as u16;
        &&& r == Ok::<u8, Message>(
            if pre.cpu.PC & 0xFF00 == target & 0xFF00 {
                3u8
            } else {
                4u8
            },
        )
        &&& post.cpu == (CPU { PC: target, ..pre.cpu })
        &&& same_but_cpu(pre, post)
    })
    &&& (code == 0xD1 && ram1(pre) && ram_region(ea_izy(pre))) ==> (r == Ok::<u8, Message>(
        if crossed_izy(pre) {
            6u8
        } else {
            5u8
        },
    ) && post.cpu == pc_plus(
        cmp_post(pre.cpu, pre.cpu.A, ram_at(pre, ea_izy(pre))),
        2,
    ) && same_but_cpu(pre, post))
    &&& (code == 0xD5 && ram1(pre)) ==> (r == Ok::<u8, Message>(4u8) && post.cpu == pc_plus(
        cmp_post(pre.cpu, pre.cpu.A, zpv(pre, ea_zpx(pre))),
        2,
    ) && same_but_cpu(pre, post))
    &&& (code == 0xD6 && ram1(pre)) ==> (r == Ok::<u8, Message>(6u8)
        && post.cpu == pc_plus((CPU { P: nz(pre.cpu.P, dec_result(zpv(pre, ea_zpx(pre)))), ..pre.cpu }), 2) && ram_stored(
        pre,
        post,
        ea_zpx(pre),
        dec_result(zpv(pre, ea_zpx(pre))),
    ))
    &&& (code == 0xD8) ==> (r == Ok::<u8, Message>(2u8) && post.cpu == pc_plus(
        (CPU { P: Flags { D: false, ..pre.cpu.P }, ..pre.cpu }),
        1,
    ) && same_but_cpu(pre, post))
    &&& (code == 0xD9 && ram2(pre) && ram_region(ea_absy(pre))) ==> (r == Ok::<u8, Message>(
        if crossed_absy(pre) {
            5u8
        } else {
            4u8
        },
    ) && post.cpu == pc_plus(
        cmp_post(pre.cpu, pre.cpu.A, ram_at(pre, ea_absy(pre))),
        3,
    ) && same_but_cpu(pre, post))
    &&& (code == 0xDD && ram2(pre) && ram_region(ea_absx(pre))) ==> (r == Ok::<u8, Message>(
        if crossed_absx(pre) {
            5u8
        } else {
            4u8
        },
    ) && post.cpu == pc_plus(
        cmp_post(pre.cpu, pre.cpu.A, ram_at(pre, ea_absx(pre))),
        3,
    ) && same_but_cpu(pre, post))
    &&& (code == 0xDE && ram2(pre) && ram_region(ea_absx(pre))) ==> (r == Ok::<u8, Message>(7u8)
        && post.cpu == pc_plus((CPU { P: nz(pre.cpu.P, dec_result(ram_at(pre, ea_absx(pre)))), ..pre.cpu }), 3) && ram_stored(
        pre,
        post,
        (ea_absx(pre) & 0x07FF) as int,
        dec_result(ram_at(pre, ea_absx(pre))),
    ))
}

/// The exact effect of each opcode in 0xE0-0xFF: under the
/// hypothesis that its operand fetches and memory accesses land in RAM,
/// the result is Ok with the exact cycle count, the CPU is the
/// primitive's post-state with the program counter advanced, and nothing
/// else on the bus moves.
pub open spec fn apply_spec_e0(code: u8, pre: Bus, post: Bus, r: Result<u8, Message>) -> bool {
    &&& (code == 0xE0 && ram1(pre)) ==> (r == Ok::<u8, Message>(2u8) && post.cpu == pc_plus(
        cmp_post(pre.cpu, pre.cpu.X, m1(pre)),
        2,
    ) && same_but_cpu(pre, post))
    &&& (code == 0xE1 && ram1(pre) && ram_region(ea_izx(pre))) ==> (r == Ok::<u8, Message>(6u8) && post.cpu == pc_plus(
        adc_post(pre.cpu, (ram_at(pre, ea_izx(pre))) ^ 0xFF),
        2,
    ) && same_but_cpu(pre, post))
    &&& (code == 0xE4 && ram1(pre)) ==> (r == Ok::<u8, Message>(3u8) && post.cpu == pc_plus(
        cmp_post(pre.cpu, pre.cpu.X, zpv(pre, m1(pre) as int)),
        2,
    ) && same_but_cpu(pre, post))
    &&& (code == 0xE5 && ram1(pre)) ==> (r == Ok::<u8, Message>(3u8) && post.cpu == pc_plus(
        adc_post(pre.cpu, (zpv(pre, m1(pre) as int)) ^ 0xFF),
        2,
    ) && same_but_cpu(pre, post))
    &&& (code == 0xE6 && ram1(pre)) ==> (r == Ok::<u8, Message>(5u8)
        && post.cpu == pc_plus((CPU { P: nz(pre.cpu.P, inc_result(zpv(pre, m1(pre) as int))), ..pre.cpu }), 2) && ram_stored(
        pre,
        post,
        m1(pre) as int,
        inc_result(zpv(pre, m1(pre) as int)),
    ))
    &&& (code == 0xE8) ==> (r == Ok::<u8, Message>(2u8) && post.cpu == pc_plus(
        (CPU { X: inc_result(pre.cpu.X), P: nz(pre.cpu.P, inc_result(pre.cpu.X)), ..pre.cpu }),
        1,
    ) && same_but_cpu(pre, post))
    &&& (code == 0xE9 && ram1(pre)) ==> (r == Ok::<u8, Message>(2u8) && post.cpu == pc_plus(
        adc_post(pre.cpu, (m1(pre)) ^ 0xFF),
        2,
    ) && same_but_cpu(pre, post))
    &&& (code == 0xEA) ==> (r == Ok::<u8, Message>(2u8) && post.cpu == pc_plus(pre.cpu, 1)
        && same_but_cpu(pre, post))
    &&& (code == 0xEC && ram2(pre) && ram_region(ea_abs(pre))) ==> (r == Ok::<u8, Message>(4u8) && post.cpu == pc_plus(
        cmp_post(pre.cpu, pre.cpu.X, ram_at(pre, ea_abs(pre))),
        3,
    ) && same_but_cpu(pre, post))
    &&& (code == 0xED && ram2(pre) && ram_region(ea_abs(pre))) ==> (r == Ok::<u8, Message>(4u8) && post.cpu == pc_plus(
        adc_post(pre.cpu, (ram_at(pre, ea_abs(pre))) ^ 0xFF),
        3,
    ) && same_but_cpu(pre, post))
    &&& (code == 0xEE && ram2(pre) && ram_region(ea_abs(pre))) ==> (r == Ok::<u8, Message>(6u8)
        && post.cpu == pc_plus((CPU { P: nz(pre.cpu.P, inc_result(ram_at(pre, ea_abs(pre)))), ..pre.cpu }), 3) && ram_stored(
        pre,
        post,
        (ea_abs(pre) & 0x07FF) as int,
        inc_result(ram_at(pre, ea_abs(pre))),
    ))
    &&& (code == 0xF0 && !(pre.cpu.P.Z)) ==> (r == Ok::<u8, Message>(2u8) && post.cpu == pc_plus(
        pre.cpu,
        2,
    ) && same_but_cpu(pre, post))
    &&& (code == 0xF0 && (pre.cpu.P.Z) && ram1(pre)) ==> ({
        let target = (((pre.cpu.PC + 2) + rel_off(m1(pre))) % 0x10000) as u16;
        &&& r == Ok::<u8, Message>(
            if pre.cpu.PC & 0xFF00 == target & 0xFF00 {
                3u8
            } else {
                4u8
            },
        )
        &&& post.cpu == (CPU { PC: target, ..pre.cpu })
        &&& same_but_cpu(pre, post)
    })
    &&& (code == 0xF1 && ram1(pre) && ram_region(ea_izy(pre))) ==> (r == Ok::<u8, Message>(
        if crossed_izy(pre) {
            7u8
        } else {
            6u8
        },
    ) && post.cpu == pc_plus(
        adc_post(pre.cpu, (ram_at(pre, ea_izy(pre))) ^ 0xFF),
        2,
    ) && same_but_cpu(pre, post))
    &&& (code == 0xF5 && ram1(pre)) ==> (r == Ok::<u8, Message>(4u8) && post.cpu == pc_plus(
        adc_post(pre.cpu, (zpv(pre, ea_zpx(pre))) ^ 0xFF),
        2,
    ) && same_but_cpu(pre, post))
    &&& (code == 0xF6 && ram1(pre)) ==> (r == Ok::<u8, Message>(6u8)
        && post.cpu == pc_plus((CPU { P: nz(pre.cpu.P, inc_result(zpv(pre, ea_zpx(pre)))), ..pre.cpu }), 2) && ram_stored(
        pre,
        post,
        ea_zpx(pre),
        inc_result(zpv(pre, ea_zpx(pre))),
    ))
    &&& (code == 0xF8) ==> (r == Ok::<u8, Message>(2u8) && post.cpu == pc_plus(
        (CPU { P: Flags { D: true, ..pre.cpu.P }, ..pre.cpu }),
        1,
    ) && same_but_cpu(pre, post))
    &&& (code == 0xF9 && ram2(pre) && ram_region(ea_absy(pre))) ==> (r == Ok::<u8, Message>(
        if crossed_absy(pre) {
            5u8
        } else {
            4u8
        },
    ) && post.cpu == pc_plus(
        adc_post(pre.cpu, (ram_at(pre, ea_absy(pre))) ^ 0xFF),
        3,
    ) && same_but_cpu(pre, post))
    &&& (code == 0xFD && ram2(pre) && ram_region(ea_absx(pre))) ==> (r == Ok::<u8, Message>(
        if crossed_absx(pre) {
            5u8
        } else {
            4u8
        },
    ) && post.cpu == pc_plus(
        adc_post(pre.cpu, (ram_at(pre, ea_absx(pre))) ^ 0xFF),
        3,
    ) && same_but_cpu(pre, post))
    &&& (code == 0xFE && ram2(pre) && ram_region(ea_absx(pre))) ==> (r == Ok::<u8, Message>(7u8)
        && post.cpu == pc_plus((CPU { P: nz(pre.cpu.P, inc_result(ram_at(pre, ea_absx(pre)))), ..pre.cpu }), 3) && ram_stored(
        pre,
        post,
        (ea_absx(pre) & 0x07FF) as int,
        inc_result(ram_at(pre, ea_absx(pre))),
    ))
}

/// The base cycle count of every opcode; zero marks an undefined one.
pub open spec fn base_cycles(code: u8) -> int {
    if false {
        0int
    } else if code == 0x00 {
        7int
    } else if code == 0x01 {
        6int
    } else if code == 0x05 {
        3int
    } else if code == 0x06 {
        5int
    } else if code == 0x08 {
        3int
    } else if code == 0x09 {
        2int
    } else if code == 0x0A {
        2int
    } else if code == 0x0D {
        4int
    } else if code == 0x0E {
        6int
    } else if code == 0x10 {
        2int
    } else if code == 0x11 {
        5int
    } else if code == 0x15 {
        4int
    } else if code == 0x16 {
        6int
    } else if code == 0x18 {
        2int
    } else if code == 0x19 {
        4int
    } else if code == 0x1D {
        4int
    } else if code == 0x1E {
        7int
    } else if code == 0x20 {
        6int
    } else if code == 0x21 {
        6int
    } else if code == 0x24 {
        3int
    } else if code == 0x25 {
        3int
    } else if code == 0x26 {
        5int
    } else if code == 0x28 {
        4int
    } else if code == 0x29 {
        2int
    } else if code == 0x2A {
        2int
    } else if code == 0x2C {
        4int
    } else if code == 0x2D {
        4int
    } else if code == 0x2E {
        6int
    } else if code == 0x30 {
        2int
    } else if code == 0x31 {
        5int
    } else if code == 0x35 {
        4int
    } else if code == 0x36 {
        6int
    } else if code == 0x38 {
        2int
    } else if code == 0x39 {
        4int
    } else if code == 0x3D {
        4int
    } else if code == 0x3E {
        7int
    } else if code == 0x40 {
        6int
    } else if code == 0x41 {
        6int
    } else if code == 0x45 {
        3int
    } else if code == 0x46 {
        5int
    } else if code == 0x48 {
        3int
    } else if code == 0x49 {
        2int
    } else if code == 0x4A {
        2int
    } else if code == 0x4C {
        3int
    } else if code == 0x4D {
        4int
    } else if code == 0x4E {
        6int
    } else if code == 0x50 {
        2int
    } else if code == 0x51 {
        5int
    } else if code == 0x55 {
        4int
    } else if code == 0x56 {
        6int
    } else if code == 0x58 {
        2int
    } else if code == 0x59 {
        4int
    } else if code == 0x5D {
        4int
    } else if code == 0x5E {
        7int
    } else if code == 0x60 {
        6int
    } else if code == 0x61 {
        6int
    } else if code == 0x65 {
        3int
    } else if code == 0x66 {
        5int
    } else if code == 0x68 {
        4int
    } else if code == 0x69 {
        2int
    } else if code == 0x6A {
        2int
    } else if code == 0x6C {
        5int
    } else if code == 0x6D {
        4int
    } else if code == 0x6E {
        6int
    } else if code == 0x70 {
        2int
    } else if code == 0x71 {
        5int
    } else if code == 0x75 {
        4int
    } else if code == 0x76 {
        6int
    } else if code == 0x78 {
        2int
    } else if code == 0x79 {
        4int
    } else if code == 0x7D {
        4int
    } else if code == 0x7E {
        7int
    } else if code == 0x81 {
        6int
    } else if code == 0x84 {
        3int
    } else if code == 0x85 {
        3int
    } else if code == 0x86 {
        3int
    } else if code == 0x88 {
        2int
    } else if code == 0x8A {
        2int
    } else if code == 0x8C {
        4int
    } else if code == 0x8D {
        4int
    } else if code == 0x8E {
        4int
    } else if code == 0x90 {
        2int
    } else if code == 0x91 {
        6int
    } else if code == 0x94 {
        4int
    } else if code == 0x95 {
        4int
    } else if code == 0x96 {
        4int
    } else if code == 0x98 {
        2int
    } else if code == 0x99 {
        5int
    } else if code == 0x9A {
        2int
    } else if code == 0x9D {
        5int
    } else if code == 0xA0 {
        2int
    } else if code == 0xA1 {
        6int
    } else if code == 0xA2 {
        2int
    } else if code == 0xA4 {
        3int
    } else if code == 0xA5 {
        3int
    } else if code == 0xA6 {
        3int
    } else if code == 0xA8 {
        2int
    } else if code == 0xA9 {
        2int
    } else if code == 0xAA {
        2int
    } else if code == 0xAC {
        4int
    } else if code == 0xAD {
        4int
    } else if code == 0xAE {
        4int
    } else if code == 0xB0 {
        2int
    } else if code == 0xB1 {
        5int
    } else if code == 0xB4 {
        4int
    } else if code == 0xB5 {
        4int
    } else if code == 0xB6 {
        4int
    } else if code == 0xB8 {
        2int
    } else if code == 0xB9 {
        4int
    } else if code == 0xBA {
        2int
    } else if code == 0xBC {
        4int
    } else if code == 0xBD {
        4int
    } else if code == 0xBE {
        4int
    } else if code == 0xC0 {
        2int
    } else if code == 0xC1 {
        6int
    } else if code == 0xC4 {
        3int
    } else if code == 0xC5 {
        3int
    } else if code == 0xC6 {
        5int
    } else if code == 0xC8 {
        2int
    } else if code == 0xC9 {
        2int
    } else if code == 0xCA {
        2int
    } else if code == 0xCC {
        4int
    } else if code == 0xCD {
        4int
    } else if code == 0xCE {
        6int
    } else if code == 0xD0 {
        2int
    } else if code == 0xD1 {
        5int
    } else if code == 0xD5 {
        4int
    } else if code == 0xD6 {
        6int
    } else if code == 0xD8 {
        2int
    } else if code == 0xD9 {
        4int
    } else if code == 0xDD {
        4int
    } else if code == 0xDE {
        7int
    } else if code == 0xE0 {
        2int
    } else if code == 0xE1 {
        6int
    } else if code == 0xE4 {
        3int
    } else if code == 0xE5 {
        3int
    } else if code == 0xE6 {
        5int
    } else if code == 0xE8 {
        2int
    } else if code == 0xE9 {
        2int
    } else if code == 0xEA {
        2int
    } else if code == 0xEC {
        4int
    } else if code == 0xED {
        4int
    } else if code == 0xEE {
        6int
    } else if code == 0xF0 {
        2int
    } else if code == 0xF1 {
        6int
    } else if code == 0xF5 {
        4int
    } else if code == 0xF6 {
        6int
    } else if code == 0xF8 {
        2int
    } else if code == 0xF9 {
        4int
    } else if code == 0xFD {
        4int
    } else if code == 0xFE {
        7int
    } else {
        0int
    }
}

/// The most extra cycles an opcode can add to its base: two for a taken
/// branch across a page, one for an indexed read that crosses a page,
/// none otherwise.
pub open spec fn max_extra(code: u8) -> int {
    if false {
        0int
    } else if code == 0x00 {
        0int
    } else if code == 0x01 {
        0int
    } else if code == 0x05 {
        0int
    } else if code == 0x06 {
        0int
    } else if code == 0x08 {
        0int
    } else if code == 0x09 {
        0int
    } else if code == 0x0A {
        0int
    } else if code == 0x0D {
        0int
    } else if code == 0x0E {
        0int
    } else if code == 0x10 {
        2int
    } else if code == 0x11 {
        1int
    } else if code == 0x15 {
        0int
    } else if code == 0x16 {
        0int
    } else if code == 0x18 {
        0int
    } else if code == 0x19 {
        1int
    } else if code == 0x1D {
        1int
    } else if code == 0x1E {
        0int
    } else if code == 0x20 {
        0int
    } else if code == 0x21 {
        0int
    } else if code == 0x24 {
        0int
    } else if code == 0x25 {
        0int
    } else if code == 0x26 {
        0int
    } else if code == 0x28 {
        0int
    } else if code == 0x29 {
        0int
    } else if code == 0x2A {
        0int
    } else if code == 0x2C {
        0int
    } else if code == 0x2D {
        0int
    } else if code == 0x2E {
        0int
    } else if code == 0x30 {
        2int
    } else if code == 0x31 {
        1int
    } else if code == 0x35 {
        0int
    } else if code == 0x36 {
        0int
    } else if code == 0x38 {
        0int
    } else if code == 0x39 {
        1int
    } else if code == 0x3D {
        1int
    } else if code == 0x3E {
        0int
    } else if code == 0x40 {
        0int
    } else if code == 0x41 {
        0int
    } else if code == 0x45 {
        0int
    } else if code == 0x46 {
        0int
    } else if code == 0x48 {
        0int
    } else if code == 0x49 {
        0int
    } else if code == 0x4A {
        0int
    } else if code == 0x4C {
        0int
    } else if code == 0x4D {
        0int
    } else if code == 0x4E {
        0int
    } else if code == 0x50 {
        2int
    } else if code == 0x51 {
        1int
    } else if code == 0x55 {
        0int
    } else if code == 0x56 {
        0int
    } else if code == 0x58 {
        0int
    } else if code == 0x59 {
        1int
    } else if code == 0x5D {
        1int
    } else if code == 0x5E {
        0int
    } else if code == 0x60 {
        0int
    } else if code == 0x61 {
        0int
    } else if code == 0x65 {
        0int
    } else if code == 0x66 {
        0int
    } else if code == 0x68 {
        0int
    } else if code == 0x69 {
        0int
    } else if code == 0x6A {
        0int
    } else if code == 0x6C {
        0int
    } else if code == 0x6D {
        0int
    } else if code == 0x6E {
        0int
    } else if code == 0x70 {
        2int
    } else if code == 0x71 {
        1int
    } else if code == 0x75 {
        0int
    } else if code == 0x76 {
        0int
    } else if code == 0x78 {
        0int
    } else if code == 0x79 {
        1int
    } else if code == 0x7D {
        1int
    } else if code == 0x7E {
        0int
    } else if code == 0x81 {
        0int
    } else if code == 0x84 {
        0int
    } else if code == 0x85 {
        0int
    } else if code == 0x86 {
        0int
    } else if code == 0x88 {
        0int
    } else if code == 0x8A {
        0int
    } else if code == 0x8C {
        0int
    } else if code == 0x8D {
        0int
    } else if code == 0x8E {
        0int
    } else if code == 0x90 {
        2int
    } else if code == 0x91 {
        0int
    } else if code == 0x94 {
        0int
    } else if code == 0x95 {
        0int
    } else if code == 0x96 {
        0int
    } else if code == 0x98 {
        0int
    } else if code == 0x99 {
        0int
    } else if code == 0x9A {
        0int
    } else if code == 0x9D {
        0int
    } else if code == 0xA0 {
        0int
    } else if code == 0xA1 {
        0int
    } else if code == 0xA2 {
        0int
    } else if code == 0xA4 {
        0int
    } else if code == 0xA5 {
        0int
    } else if code == 0xA6 {
        0int
    } else if code == 0xA8 {
        0int
    } else if code == 0xA9 {
        0int
    } else if code == 0xAA {
        0int
    } else if code == 0xAC {
        0int
    } else if code == 0xAD {
        0int
    } else if code == 0xAE {
        0int
    } else if code == 0xB0 {
        2int
    } else if code == 0xB1 {
        1int
    } else if code == 0xB4 {
        0int
    } else if code == 0xB5 {
        0int
    } else if code == 0xB6 {
        0int
    } else if code == 0xB8 {
        0int
    } else if code == 0xB9 {
        1int
    } else if code == 0xBA {
        0int
    } else if code == 0xBC {
        1int
    } else if code == 0xBD {
        1int
    } else if code == 0xBE {
        1int
    } else if code == 0xC0 {
        0int
    } else if code == 0xC1 {
        0int
    } else if code == 0xC4 {
        0int
    } else if code == 0xC5 {
        0int
    } else if code == 0xC6 {
        0int
    } else if code == 0xC8 {
        0int
    } else if code == 0xC9 {
        0int
    } else if code == 0xCA {
        0int
    } else if code == 0xCC {
        0int
    } else if code == 0xCD {
        0int
    } else if code == 0xCE {
        0int
    } else if code == 0xD0 {
        2int
    } else if code == 0xD1 {
        1int
    } else if code == 0xD5 {
        0int
    } else if code == 0xD6 {
        0int
    } else if code == 0xD8 {
        0int
    } else if code == 0xD9 {
        1int
    } else if code == 0xDD {
        1int
    } else if code == 0xDE {
        0int
    } else if code == 0xE0 {
        0int
    } else if code == 0xE1 {
        0int
    } else if code == 0xE4 {
        0int
    } else if code == 0xE5 {
        0int
    } else if code == 0xE6 {
        0int
    } else if code == 0xE8 {
        0int
    } else if code == 0xE9 {
        0int
    } else if code == 0xEA {
        0int
    } else if code == 0xEC {
        0int
    } else if code == 0xED {
        0int
    } else if code == 0xEE {
        0int
    } else if code == 0xF0 {
        2int
    } else if code == 0xF1 {
        1int
    } else if code == 0xF5 {
        0int
    } else if code == 0xF6 {
        0int
    } else if code == 0xF8 {
        0int
    } else if code == 0xF9 {
        1int
    } else if code == 0xFD {
        1int
    } else if code == 0xFE {
        0int
    } else {
        0int
    }
}

/// A defined opcode has a base cost.
pub open spec fn is_defined(code: u8) -> bool {
    base_cycles(code) > 0
}

/// One slot of the instruction table, identified by its opcode.
#[derive(Copy, Clone)]
pub struct Instruction {
    pub code: u8,
}

impl Instruction {
    pub fn new(code: u8) -> (r: Instruction)
        ensures
            r.code == code,
    {
        Instruction { code }
    }

    /// Execute this instruction against the bus: fetch operands, apply
    /// the CPU primitive, advance the program counter, and report the
    /// cycles charged. An undefined opcode is fatal; an operand fetch
    /// that reads a write-only PPU register faults like any bus read. The
    /// `apply_spec` family pins each opcode's exact effect.
    #[verifier::rlimit(100)]
    #[verifier::spinoff_prover]
    pub fn apply(&self, bus: &mut Bus) -> (r: Result<u8, Message>)
        requires
            old(bus).wf(),
        ensures
            final(bus).wf(),
            (r matches Ok(c) ==> is_defined(self.code) && base_cycles(self.code) <= c
                <= base_cycles(self.code) + max_extra(self.code)),
            (!is_defined(self.code) ==> r == Err::<u8, Message>(Message::InvalidInstruction)),
            (is_defined(self.code) && r is Err ==> r == Err::<u8, Message>(
                Message::InvalidPpuRegisterAccess,
            )),
            (r matches Err(m) ==> (m is InvalidInstruction || m is InvalidPpuRegisterAccess)),
            final(bus).ppu.clock() == old(bus).ppu.clock(),
            apply_spec_00(self.code, *old(bus), *final(bus), r),
            apply_spec_20(self.code, *old(bus), *final(bus), r),
            apply_spec_40(self.code, *old(bus), *final(bus), r),
            apply_spec_60(self.code, *old(bus), *final(bus), r),
            apply_spec_80(self.code, *old(bus), *final(bus), r),
            apply_spec_a0(self.code, *old(bus), *final(bus), r),
            apply_spec_c0(self.code, *old(bus), *final(bus), r),
            apply_spec_e0(self.code, *old(bus), *final(bus), r),
    {
        let code = self.code;
        if false {
            Err(Message::InvalidInstruction)
        } else if code < 8 {
            Instruction::apply_00(bus, code)
        } else if code < 16 {
            Instruction::apply_08(bus, code)
        } else if code < 24 {
            Instruction::apply_10(bus, code)
        } else if code < 32 {
            Instruction::apply_18(bus, code)
        } else if code < 40 {
            Instruction::apply_20(bus, code)
        } else if code < 48 {
            Instruction::apply_28(bus, code)
        } else if code < 56 {
            Instruction::apply_30(bus, code)
        } else if code < 64 {
            Instruction::apply_38(bus, code)
        } else if code < 72 {
            Instruction::apply_40(bus, code)
        } else if code < 80 {
            Instruction::apply_48(bus, code)
        } else if code < 88 {
            Instruction::apply_50(bus, code)
        } else if code < 96 {
            Instruction::apply_58(bus, code)
        } else if code < 104 {
            Instruction::apply_60(bus, code)
        } else if code < 112 {
            Instruction::apply_68(bus, code)
        } else if code < 120 {
            Instruction::apply_70(bus, code)
        } else if code < 128 {
            Instruction::apply_78(bus, code)
        } else if code < 136 {
            Instruction::apply_80(bus, code)
        } else if code < 144 {
            Instruction::apply_88(bus, code)
        } else if code < 152 {
            Instruction::apply_90(bus, code)
        } else if code < 160 {
            Instruction::apply_98(bus, code)
        } else if code < 168 {
            Instruction::apply_a0(bus, code)
        } else if code < 176 {
            Instruction::apply_a8(bus, code)
        } else if code < 184 {
            Instruction::apply_b0(bus, code)
        } else if code < 192 {
            Instruction::apply_b8(bus, code)
        } else if code < 200 {
            Instruction::apply_c0(bus, code)
        } else if code < 208 {
            Instruction::apply_c8(bus, code)
        } else if code < 216 {
            Instruction::apply_d0(bus, code)
        } else if code < 224 {
            Instruction::apply_d8(bus, code)
        } else if code < 232 {
            Instruction::apply_e0(bus, code)
        } else if code < 240 {
            Instruction::apply_e8(bus, code)
        } else if code < 248 {
            Instruction::apply_f0(bus, code)
        } else {
            Instruction::apply_f8(bus, code)
        }
    }

    /// Dispatch for opcodes 0x00 through 0x07.
    #[verifier::rlimit(100)]
    #[verifier::spinoff_prover]
    fn apply_00(bus: &mut Bus, code: u8) -> (r: Result<u8, Message>)
        requires
            old(bus).wf(),
            0 <= code < 8,
        ensures
            final(bus).wf(),
            (r matches Ok(c) ==> is_defined(code) && base_cycles(code) <= c <= base_cycles(code)
                + max_extra(code)),
            (!is_defined(code) ==> r == Err::<u8, Message>(Message::InvalidInstruction)),
            (is_defined(code) && r is Err ==> r == Err::<u8, Message>(
                Message::InvalidPpuRegisterAccess,
            )),
            (r matches Err(m) ==> (m is InvalidInstruction || m is InvalidPpuRegisterAccess)),
            final(bus).ppu.clock() == old(bus).ppu.clock(),
            apply_spec_00(code, *old(bus), *final(bus), r),
    {
        if false {
            Err(Message::InvalidInstruction)
        } else if code == 0x00 {
            // BRK
            let pc = bus.cpu().pc();
            let ret: u32 = pc as u32 + 2;
            bus.push_word((ret % 0x10000) as u16);
            let p = bus.cpu().p();
            bus.push(p | 0x10);
            proof {
                assert(0xFFFEu16 & 0xF000 == 0xF000 && 0xFFFFu16 & 0xF000 == 0xF000)
                    by (bit_vector);
            }
            let low = bus.read(0xFFFE)?;
            let high = bus.read(0xFFFF)?;
            bus.cpu_mut().goto(low as u16 + 0x100 * high as u16);
            bus.cpu_mut().sei();
            Ok(7)
        } else if code == 0x01 {
            // ORA (d,X)
            let addr = bus.indexed_indirect_map()?;
            let num = bus.read(addr)?;
            bus.cpu_mut().or(num);
            bus.cpu_mut().go_forward(2);
            Ok(6)
        } else if code == 0x05 {
            // ORA d
            let addr = bus.zero_page_map()?;
            let num = bus.read_memory(addr);
            bus.cpu_mut().or(num);
            bus.cpu_mut().go_forward(2);
            Ok(3)
        } else if code == 0x06 {
            // ASL d
            let addr = bus.zero_page_map()?;
            let num = bus.read_memory(addr);
            let result = bus.cpu_mut().asl(num);
            bus.write_memory(addr, result);
            bus.cpu_mut().go_forward(2);
            Ok(5)
        } else {
            Err(Message::InvalidInstruction)
        }
    }

    /// Dispatch for opcodes 0x08 through 0x0F.
    #[verifier::rlimit(100)]
    #[verifier::spinoff_prover]
    fn apply_08(bus: &mut Bus, code: u8) -> (r: Result<u8, Message>)
        requires
            old(bus).wf(),
            8 <= code < 16,
        ensures
            final(bus).wf(),
            (r matches Ok(c) ==> is_defined(code) && base_cycles(code) <= c <= base_cycles(code)
                + max_extra(code)),
            (!is_defined(code) ==> r == Err::<u8, Message>(Message::InvalidInstruction)),
            (is_defined(code) && r is Err ==> r == Err::<u8, Message>(
                Message::InvalidPpuRegisterAccess,
            )),
            (r matches Err(m) ==> (m is InvalidInstruction || m is InvalidPpuRegisterAccess)),
            final(bus).ppu.clock() == old(bus).ppu.clock(),
            apply_spec_00(code, *old(bus), *final(bus), r),
    {
        if false {
            Err(Message::InvalidInstruction)
        } else if code == 0x08 {
            // PHP
            let p = bus.cpu().p();
            bus.push(p | 0x10);
            bus.cpu_mut().go_forward(1);
            Ok(3)
        } else if code == 0x09 {
            // ORA #v
            let num = bus.immediate_map()?;
            bus.cpu_mut().or(num);
            bus.cpu_mut().go_forward(2);
            Ok(2)
        } else if code == 0x0A {
            // ASL A
            bus.cpu_mut().asl_set_a();
            bus.cpu_mut().go_forward(1);
            Ok(2)
        } else if code == 0x0D {
            // ORA a
            let addr = bus.absolute_map()?;
            let num = bus.read(addr)?;
            bus.cpu_mut().or(num);
            bus.cpu_mut().go_forward(3);
            Ok(4)
        } else if code == 0x0E {
            // ASL a
            let addr = bus.absolute_map()?;
            let num = bus.read(addr)?;
            let result = bus.cpu_mut().asl(num);
            bus.write(addr, result)?;
            bus.cpu_mut().go_forward(3);
            Ok(6)
        } else {
            Err(Message::InvalidInstruction)
        }
    }

    /// Dispatch for opcodes 0x10 through 0x17.
    #[verifier::rlimit(100)]
    #[verifier::spinoff_prover]
    fn apply_10(bus: &mut Bus, code: u8) -> (r: Result<u8, Message>)
        requires
            old(bus).wf(),
            16 <= code < 24,
        ensures
            final(bus).wf(),
            (r matches Ok(c) ==> is_defined(code) && base_cycles(code) <= c <= base_cycles(code)
                + max_extra(code)),
            (!is_defined(code) ==> r == Err::<u8, Message>(Message::InvalidInstruction)),
            (is_defined(code) && r is Err ==> r == Err::<u8, Message>(
                Message::InvalidPpuRegisterAccess,
            )),
            (r matches Err(m) ==> (m is InvalidInstruction || m is InvalidPpuRegisterAccess)),
            final(bus).ppu.clock() == old(bus).ppu.clock(),
            apply_spec_00(code, *old(bus), *final(bus), r),
    {
        if false {
            Err(Message::InvalidInstruction)
        } else if code == 0x10 {
            // BPL
            if !bus.cpu().test_n_set() {
                let offset = bus.relative_map()?;
                Ok(2 + bus.cpu_mut().branch(offset))
            } else {
                bus.cpu_mut().go_forward(2);
                Ok(2)
            }
        } else if code == 0x11 {
            // ORA (d),Y
            let addr = bus.indirect_indexed_map()?;
            let num = bus.read(addr.0)?;
            bus.cpu_mut().or(num);
            bus.cpu_mut().go_forward(2);
            Ok(if addr.1 {
                6
            } else {
                5
            })
        } else if code == 0x15 {
            // ORA d,X
            let addr = bus.zero_page_x_map()?;
            let num = bus.read_memory(addr);
            bus.cpu_mut().or(num);
            bus.cpu_mut().go_forward(2);
            Ok(4)
        } else if code == 0x16 {
            // ASL d,X
            let addr = bus.zero_page_x_map()?;
            let num = bus.read_memory(addr);
            let result = bus.cpu_mut().asl(num);
            bus.write_memory(addr, result);
            bus.cpu_mut().go_forward(2);
            Ok(6)
        } else {
            Err(Message::InvalidInstruction)
        }
    }

    /// Dispatch for opcodes 0x18 through 0x1F.
    #[verifier::rlimit(100)]
    #[verifier::spinoff_prover]
    fn apply_18(bus: &mut Bus, code: u8) -> (r: Result<u8, Message>)
        requires
            old(bus).wf(),
            24 <= code < 32,
        ensures
            final(bus).wf(),
            (r matches Ok(c) ==> is_defined(code) && base_cycles(code) <= c <= base_cycles(code)
                + max_extra(code)),
            (!is_defined(code) ==> r == Err::<u8, Message>(Message::InvalidInstruction)),
            (is_defined(code) && r is Err ==> r == Err::<u8, Message>(
                Message::InvalidPpuRegisterAccess,
            )),
            (r matches Err(m) ==> (m is InvalidInstruction || m is InvalidPpuRegisterAccess)),
            final(bus).ppu.clock() == old(bus).ppu.clock(),
            apply_spec_00(code, *old(bus), *final(bus), r),
    {
        if false {
            Err(Message::InvalidInstruction)
        } else if code == 0x18 {
            // CLC
            bus.cpu_mut().clc();
            bus.cpu_mut().go_forward(1);
            Ok(2)
        } else if code == 0x19 {
            // ORA a,Y
            let addr = bus.absolute_y_map()?;
            let num = bus.read(addr.0)?;
            bus.cpu_mut().or(num);
            bus.cpu_mut().go_forward(3);
            Ok(if addr.1 {
                5
            } else {
                4
            })
        } else if code == 0x1D {
            // ORA a,X
            let addr = bus.absolute_x_map()?;
            let num = bus.read(addr.0)?;
            bus.cpu_mut().or(num);
            bus.cpu_mut().go_forward(3);
            Ok(if addr.1 {
                5
            } else {
                4
            })
        } else if code == 0x1E {
            // ASL a,X
            let addr = bus.absolute_x_map()?;
            let num = bus.read(addr.0)?;
            let result = bus.cpu_mut().asl(num);
            bus.write(addr.0, result)?;
            bus.cpu_mut().go_forward(3);
            Ok(7)
        } else {
            Err(Message::InvalidInstruction)
        }
    }

    /// Dispatch for opcodes 0x20 through 0x27.
    #[verifier::rlimit(100)]
    #[verifier::spinoff_prover]
    fn apply_20(bus: &mut Bus, code: u8) -> (r: Result<u8, Message>)
        requires
            old(bus).wf(),
            32 <= code < 40,
        ensures
            final(bus).wf(),
            (r matches Ok(c) ==> is_defined(code) && base_cycles(code) <= c <= base_cycles(code)
                + max_extra(code)),
            (!is_defined(code) ==> r == Err::<u8, Message>(Message::InvalidInstruction)),
            (is_defined(code) && r is Err ==> r == Err::<u8, Message>(
                Message::InvalidPpuRegisterAccess,
            )),
            (r matches Err(m) ==> (m is InvalidInstruction || m is InvalidPpuRegisterAccess)),
            final(bus).ppu.clock() == old(bus).ppu.clock(),
            apply_spec_20(code, *old(bus), *final(bus), r),
    {
        if false {
            Err(Message::InvalidInstruction)
        } else if code == 0x20 {
            // JSR
            let pc = bus.cpu().pc();
            let ret: u32 = pc as u32 + 2;
            bus.push_word((ret % 0x10000) as u16);
            let addr = bus.absolute_map()?;
            bus.cpu_mut().goto(addr);
            Ok(6)
        } else if code == 0x21 {
            // AND (d,X)
            let addr = bus.indexed_indirect_map()?;
            let num = bus.read(addr)?;
            bus.cpu_mut().and(num);
            bus.cpu_mut().go_forward(2);
            Ok(6)
        } else if code == 0x24 {
            // BIT d
            let index = bus.zero_page_map()?;
            let num = bus.read_memory(index);
            bus.cpu_mut().test(num);
            bus.cpu_mut().go_forward(2);
            Ok(3)
        } else if code == 0x25 {
            // AND d
            let addr = bus.zero_page_map()?;
            let num = bus.read_memory(addr);
            bus.cpu_mut().and(num);
            bus.cpu_mut().go_forward(2);
            Ok(3)
        } else if code == 0x26 {
            // ROL d
            let addr = bus.zero_page_map()?;
            let num = bus.read_memory(addr);
            let result = bus.cpu_mut().rol(num);
            bus.write_memory(addr, result);
            bus.cpu_mut().go_forward(2);
            Ok(5)
        } else {
            Err(Message::InvalidInstruction)
        }
    }

    /// Dispatch for opcodes 0x28 through 0x2F.
    #[verifier::rlimit(100)]
    #[verifier::spinoff_prover]
    fn apply_28(bus: &mut Bus, code: u8) -> (r: Result<u8, Message>)
        requires
            old(bus).wf(),
            40 <= code < 48,
        ensures
            final(bus).wf(),
            (r matches Ok(c) ==> is_defined(code) && base_cycles(code) <= c <= base_cycles(code)
                + max_extra(code)),
            (!is_defined(code) ==> r == Err::<u8, Message>(Message::InvalidInstruction)),
            (is_defined(code) && r is Err ==> r == Err::<u8, Message>(
                Message::InvalidPpuRegisterAccess,
            )),
            (r matches Err(m) ==> (m is InvalidInstruction || m is InvalidPpuRegisterAccess)),
            final(bus).ppu.clock() == old(bus).ppu.clock(),
            apply_spec_20(code, *old(bus), *final(bus), r),
    {
        if false {
            Err(Message::InvalidInstruction)
        } else if code == 0x28 {
            // PLP
            let p = bus.pop();
            bus.cpu_mut().set_p(p);
            bus.cpu_mut().go_forward(1);
            Ok(4)
        } else if code == 0x29 {
            // AND #v
            let num = bus.immediate_map()?;
            bus.cpu_mut().and(num);
            bus.cpu_mut().go_forward(2);
            Ok(2)
        } else if code == 0x2A {
            // ROL A
            bus.cpu_mut().rol_a();
            bus.cpu_mut().go_forward(1);
            Ok(2)
        } else if code == 0x2C {
            // BIT a
            let index = bus.absolute_map()?;
            let num = bus.read(index)?;
            bus.cpu_mut().test(num);
            bus.cpu_mut().go_forward(3);
            Ok(4)
        } else if code == 0x2D {
            // AND a
            let addr = bus.absolute_map()?;
            let num = bus.read(addr)?;
            bus.cpu_mut().and(num);
            bus.cpu_mut().go_forward(3);
            Ok(4)
        } else if code == 0x2E {
            // ROL a
            let addr = bus.absolute_map()?;
            let num = bus.read(addr)?;
            let result = bus.cpu_mut().rol(num);
            bus.write(addr, result)?;
            bus.cpu_mut().go_forward(3);
            Ok(6)
        } else {
            Err(Message::InvalidInstruction)
        }
    }

    /// Dispatch for opcodes 0x30 through 0x37.
    #[verifier::rlimit(100)]
    #[verifier::spinoff_prover]
    fn apply_30(bus: &mut Bus, code: u8) -> (r: Result<u8, Message>)
        requires
            old(bus).wf(),
            48 <= code < 56,
        ensures
            final(bus).wf(),
            (r matches Ok(c) ==> is_defined(code) && base_cycles(code) <= c <= base_cycles(code)
                + max_extra(code)),
            (!is_defined(code) ==> r == Err::<u8, Message>(Message::InvalidInstruction)),
            (is_defined(code) && r is Err ==> r == Err::<u8, Message>(
                Message::InvalidPpuRegisterAccess,
            )),
            (r matches Err(m) ==> (m is InvalidInstruction || m is InvalidPpuRegisterAccess)),
            final(bus).ppu.clock() == old(bus).ppu.clock(),
            apply_spec_20(code, *old(bus), *final(bus), r),
    {
        if false {
            Err(Message::InvalidInstruction)
        } else if code == 0x30 {
            // BMI
            if bus.cpu().test_n_set() {
                let offset = bus.relative_map()?;
                Ok(2 + bus.cpu_mut().branch(offset))
            } else {
                bus.cpu_mut().go_forward(2);
                Ok(2)
            }
        } else if code == 0x31 {
            // AND (d),Y
            let addr = bus.indirect_indexed_map()?;
            let num = bus.read(addr.0)?;
            bus.cpu_mut().and(num);
            bus.cpu_mut().go_forward(2);
            Ok(if addr.1 {
                6
            } else {
                5
            })
        } else if code == 0x35 {
            // AND d,X
            let addr = bus.zero_page_x_map()?;
            let num = bus.read_memory(addr);
            bus.cpu_mut().and(num);
            bus.cpu_mut().go_forward(2);
            Ok(4)
        } else if code == 0x36 {
            // ROL d,X
            let addr = bus.zero_page_x_map()?;
            let num = bus.read_memory(addr);
            let result = bus.cpu_mut().rol(num);
            bus.write_memory(addr, result);
            bus.cpu_mut().go_forward(2);
            Ok(6)
        } else {
            Err(Message::InvalidInstruction)
        }
    }

    /// Dispatch for opcodes 0x38 through 0x3F.
    #[verifier::rlimit(100)]
    #[verifier::spinoff_prover]
    fn apply_38(bus: &mut Bus, code: u8) -> (r: Result<u8, Message>)
        requires
            old(bus).wf(),
            56 <= code < 64,
        ensures
            final(bus).wf(),
            (r matches Ok(c) ==> is_defined(code) && base_cycles(code) <= c <= base_cycles(code)
                + max_extra(code)),
            (!is_defined(code) ==> r == Err::<u8, Message>(Message::InvalidInstruction)),
            (is_defined(code) && r is Err ==> r == Err::<u8, Message>(
                Message::InvalidPpuRegisterAccess,
            )),
            (r matches Err(m) ==> (m is InvalidInstruction || m is InvalidPpuRegisterAccess)),
            final(bus).ppu.clock() == old(bus).ppu.clock(),
            apply_spec_20(code, *old(bus), *final(bus), r),
    {
        if false {
            Err(Message::InvalidInstruction)
        } else if code == 0x38 {
            // SEC
            bus.cpu_mut().sec();
            bus.cpu_mut().go_forward(1);
            Ok(2)
        } else if code == 0x39 {
            // AND a,Y
            let addr = bus.absolute_y_map()?;
            let num = bus.read(addr.0)?;
            bus.cpu_mut().and(num);
            bus.cpu_mut().go_forward(3);
            Ok(if addr.1 {
                5
            } else {
                4
            })
        } else if code == 0x3D {
            // AND a,X
            let addr = bus.absolute_x_map()?;
            let num = bus.read(addr.0)?;
            bus.cpu_mut().and(num);
            bus.cpu_mut().go_forward(3);
            Ok(if addr.1 {
                5
            } else {
                4
            })
        } else if code == 0x3E {
            // ROL a,X
            let addr = bus.absolute_x_map()?;
            let num = bus.read(addr.0)?;
            let result = bus.cpu_mut().rol(num);
            bus.write(addr.0, result)?;
            bus.cpu_mut().go_forward(3);
            Ok(7)
        } else {
            Err(Message::InvalidInstruction)
        }
    }

    /// Dispatch for opcodes 0x40 through 0x47.
    #[verifier::rlimit(100)]
    #[verifier::spinoff_prover]
    fn apply_40(bus: &mut Bus, code: u8) -> (r: Result<u8, Message>)
        requires
            old(bus).wf(),
            64 <= code < 72,
        ensures
            final(bus).wf(),
            (r matches Ok(c) ==> is_defined(code) && base_cycles(code) <= c <= base_cycles(code)
                + max_extra(code)),
            (!is_defined(code) ==> r == Err::<u8, Message>(Message::InvalidInstruction)),
            (is_defined(code) && r is Err ==> r == Err::<u8, Message>(
                Message::InvalidPpuRegisterAccess,
            )),
            (r matches Err(m) ==> (m is InvalidInstruction || m is InvalidPpuRegisterAccess)),
            final(bus).ppu.clock() == old(bus).ppu.clock(),
            apply_spec_40(code, *old(bus), *final(bus), r),
    {
        if false {
            Err(Message::InvalidInstruction)
        } else if code == 0x40 {
            // RTI
            let p = bus.pop();
            bus.cpu_mut().set_p(p);
            let pc = bus.pop_word();
            bus.cpu_mut().goto(pc);
            Ok(6)
        } else if code == 0x41 {
            // EOR (d,X)
            let addr = bus.indexed_indirect_map()?;
            let num = bus.read(addr)?;
            bus.cpu_mut().eor(num);
            bus.cpu_mut().go_forward(2);
            Ok(6)
        } else if code == 0x45 {
            // EOR d
            let addr = bus.zero_page_map()?;
            let num = bus.read_memory(addr);
            bus.cpu_mut().eor(num);
            bus.cpu_mut().go_forward(2);
            Ok(3)
        } else if code == 0x46 {
            // LSR d
            let addr = bus.zero_page_map()?;
            let num = bus.read_memory(addr);
            let result = bus.cpu_mut().lsr(num);
            bus.write_memory(addr, result);
            bus.cpu_mut().go_forward(2);
            Ok(5)
        } else {
            Err(Message::InvalidInstruction)
        }
    }

    /// Dispatch for opcodes 0x48 through 0x4F.
    #[verifier::rlimit(100)]
    #[verifier::spinoff_prover]
    fn apply_48(bus: &mut Bus, code: u8) -> (r: Result<u8, Message>)
        requires
            old(bus).wf(),
            72 <= code < 80,
        ensures
            final(bus).wf(),
            (r matches Ok(c) ==> is_defined(code) && base_cycles(code) <= c <= base_cycles(code)
                + max_extra(code)),
            (!is_defined(code) ==> r == Err::<u8, Message>(Message::InvalidInstruction)),
            (is_defined(code) && r is Err ==> r == Err::<u8, Message>(
                Message::InvalidPpuRegisterAccess,
            )),
            (r matches Err(m) ==> (m is InvalidInstruction || m is InvalidPpuRegisterAccess)),
            final(bus).ppu.clock() == old(bus).ppu.clock(),
            apply_spec_40(code, *old(bus), *final(bus), r),
    {
        if false {
            Err(Message::InvalidInstruction)
        } else if code == 0x48 {
            // PHA
            let a = bus.cpu().a();
            bus.push(a);
            bus.cpu_mut().go_forward(1);
            Ok(3)
        } else if code == 0x49 {
            // EOR #v
            let num = bus.immediate_map()?;
            bus.cpu_mut().eor(num);
            bus.cpu_mut().go_forward(2);
            Ok(2)
        } else if code == 0x4A {
            // LSR A
            bus.cpu_mut().lsr_a();
            bus.cpu_mut().go_forward(1);
            Ok(2)
        } else if code == 0x4C {
            // JMP a
            let addr = bus.absolute_map()?;
            bus.cpu_mut().goto(addr);
            Ok(3)
        } else if code == 0x4D {
            // EOR a
            let addr = bus.absolute_map()?;
            let num = bus.read(addr)?;
            bus.cpu_mut().eor(num);
            bus.cpu_mut().go_forward(3);
            Ok(4)
        } else if code == 0x4E {
            // LSR a
            let addr = bus.absolute_map()?;
            let num = bus.read(addr)?;
            let result = bus.cpu_mut().lsr(num);
            bus.write(addr, result)?;
            bus.cpu_mut().go_forward(3);
            Ok(6)
        } else {
            Err(Message::InvalidInstruction)
        }
    }

    /// Dispatch for opcodes 0x50 through 0x57.
    #[verifier::rlimit(100)]
    #[verifier::spinoff_prover]
    fn apply_50(bus: &mut Bus, code: u8) -> (r: Result<u8, Message>)
        requires
            old(bus).wf(),
            80 <= code < 88,
        ensures
            final(bus).wf(),
            (r matches Ok(c) ==> is_defined(code) && base_cycles(code) <= c <= base_cycles(code)
                + max_extra(code)),
            (!is_defined(code) ==> r == Err::<u8, Message>(Message::InvalidInstruction)),
            (is_defined(code) && r is Err ==> r == Err::<u8, Message>(
                Message::InvalidPpuRegisterAccess,
            )),
            (r matches Err(m) ==> (m is InvalidInstruction || m is InvalidPpuRegisterAccess)),
            final(bus).ppu.clock() == old(bus).ppu.clock(),
            apply_spec_40(code, *old(bus), *final(bus), r),
    {
        if false {
            Err(Message::InvalidInstruction)
        } else if code == 0x50 {
            // BVC
            if !bus.cpu().test_v_set() {
                let offset = bus.relative_map()?;
                Ok(2 + bus.cpu_mut().branch(offset))
            } else {
                bus.cpu_mut().go_forward(2);
                Ok(2)
            }
        } else if code == 0x51 {
            // EOR (d,X)
            let addr = bus.indirect_indexed_map()?;
            let num = bus.read(addr.0)?;
            bus.cpu_mut().eor(num);
            bus.cpu_mut().go_forward(2);
            Ok(if addr.1 {
                6
            } else {
                5
            })
        } else if code == 0x55 {
            // EOR d,X
            let addr = bus.zero_page_x_map()?;
            let num = bus.read_memory(addr);
            bus.cpu_mut().eor(num);
            bus.cpu_mut().go_forward(2);
            Ok(4)
        } else if code == 0x56 {
            // LSR d,X
            let addr = bus.zero_page_x_map()?;
            let num = bus.read_memory(addr);
            let result = bus.cpu_mut().lsr(num);
            bus.write_memory(addr, result);
            bus.cpu_mut().go_forward(2);
            Ok(6)
        } else {
            Err(Message::InvalidInstruction)
        }
    }

    /// Dispatch for opcodes 0x58 through 0x5F.
    #[verifier::rlimit(100)]
    #[verifier::spinoff_prover]
    fn apply_58(bus: &mut Bus, code: u8) -> (r: Result<u8, Message>)
        requires
            old(bus).wf(),
            88 <= code < 96,
        ensures
            final(bus).wf(),
            (r matches Ok(c) ==> is_defined(code) && base_cycles(code) <= c <= base_cycles(code)
                + max_extra(code)),
            (!is_defined(code) ==> r == Err::<u8, Message>(Message::InvalidInstruction)),
            (is_defined(code) && r is Err ==> r == Err::<u8, Message>(
                Message::InvalidPpuRegisterAccess,
            )),
            (r matches Err(m) ==> (m is InvalidInstruction || m is InvalidPpuRegisterAccess)),
            final(bus).ppu.clock() == old(bus).ppu.clock(),
            apply_spec_40(code, *old(bus), *final(bus), r),
    {
        if false {
            Err(Message::InvalidInstruction)
        } else if code == 0x58 {
            // CLI
            bus.cpu_mut().cli();
            bus.cpu_mut().go_forward(1);
            Ok(2)
        } else if code == 0x59 {
            // EOR a,Y
            let addr = bus.absolute_y_map()?;
            let num = bus.read(addr.0)?;
            bus.cpu_mut().eor(num);
            bus.cpu_mut().go_forward(3);
            Ok(if addr.1 {
                5
            } else {
                4
            })
        } else if code == 0x5D {
            // EOR a,X
            let addr = bus.absolute_x_map()?;
            let num = bus.read(addr.0)?;
            bus.cpu_mut().eor(num);
            bus.cpu_mut().go_forward(3);
            Ok(if addr.1 {
                5
            } else {
                4
            })
        } else if code == 0x5E {
            // LSR a,X
            let addr = bus.absolute_x_map()?;
            let num = bus.read(addr.0)?;
            let result = bus.cpu_mut().lsr(num);
            bus.write(addr.0, result)?;
            bus.cpu_mut().go_forward(3);
            Ok(7)
        } else {
            Err(Message::InvalidInstruction)
        }
    }

    /// Dispatch for opcodes 0x60 through 0x67.
    #[verifier::rlimit(100)]
    #[verifier::spinoff_prover]
    fn apply_60(bus: &mut Bus, code: u8) -> (r: Result<u8, Message>)
        requires
            old(bus).wf(),
            96 <= code < 104,
        ensures
            final(bus).wf(),
            (r matches Ok(c) ==> is_defined(code) && base_cycles(code) <= c <= base_cycles(code)
                + max_extra(code)),
            (!is_defined(code) ==> r == Err::<u8, Message>(Message::InvalidInstruction)),
            (is_defined(code) && r is Err ==> r == Err::<u8, Message>(
                Message::InvalidPpuRegisterAccess,
            )),
            (r matches Err(m) ==> (m is InvalidInstruction || m is InvalidPpuRegisterAccess)),
            final(bus).ppu.clock() == old(bus).ppu.clock(),
            apply_spec_60(code, *old(bus), *final(bus), r),
    {
        if false {
            Err(Message::InvalidInstruction)
        } else if code == 0x60 {
            // RTS
            let pc = bus.pop_word();
            let next: u32 = pc as u32 + 1;
            bus.cpu_mut().goto((next % 0x10000) as u16);
            Ok(6)
        } else if code == 0x61 {
            // ADC (d,X)
            let addr = bus.indexed_indirect_map()?;
            let num = bus.read(addr)?;
            bus.cpu_mut().adc(num);
            bus.cpu_mut().go_forward(2);
            Ok(6)
        } else if code == 0x65 {
            // ADC d
            let addr = bus.zero_page_map()?;
            let num = bus.read_memory(addr);
            bus.cpu_mut().adc(num);
            bus.cpu_mut().go_forward(2);
            Ok(3)
        } else if code == 0x66 {
            // ROR d
            let addr = bus.zero_page_map()?;
            let num = bus.read_memory(addr);
            let result = bus.cpu_mut().ror(num);
            bus.write_memory(addr, result);
            bus.cpu_mut().go_forward(2);
            Ok(5)
        } else {
            Err(Message::InvalidInstruction)
        }
    }

    /// Dispatch for opcodes 0x68 through 0x6F.
    #[verifier::rlimit(100)]
    #[verifier::spinoff_prover]
    fn apply_68(bus: &mut Bus, code: u8) -> (r: Result<u8, Message>)
        requires
            old(bus).wf(),
            104 <= code < 112,
        ensures
            final(bus).wf(),
            (r matches Ok(c) ==> is_defined(code) && base_cycles(code) <= c <= base_cycles(code)
                + max_extra(code)),
            (!is_defined(code) ==> r == Err::<u8, Message>(Message::InvalidInstruction)),
            (is_defined(code) && r is Err ==> r == Err::<u8, Message>(
                Message::InvalidPpuRegisterAccess,
            )),
            (r matches Err(m) ==> (m is InvalidInstruction || m is InvalidPpuRegisterAccess)),
            final(bus).ppu.clock() == old(bus).ppu.clock(),
            apply_spec_60(code, *old(bus), *final(bus), r),
    {
        if false {
            Err(Message::InvalidInstruction)
        } else if code == 0x68 {
            // PLA
            let a = bus.pop();
            bus.cpu_mut().lda(a);
            bus.cpu_mut().go_forward(1);
            Ok(4)
        } else if code == 0x69 {
            // ADC #v
            let num = bus.immediate_map()?;
            bus.cpu_mut().adc(num);
            bus.cpu_mut().go_forward(2);
            Ok(2)
        } else if code == 0x6A {
            // ROR A
            bus.cpu_mut().ror_a();
            bus.cpu_mut().go_forward(1);
            Ok(2)
        } else if code == 0x6C {
            // JMP (a)
            let addr = bus.absolute_map()?;
            let low = bus.read(addr)?;
            let high_addr: u16 = if addr % 0x100 == 0xFF {
                addr - 0xFF
            } else {
                addr + 1
            };
            let high = bus.read(high_addr)?;
            bus.cpu_mut().goto(low as u16 + 0x100 * high as u16);
            Ok(5)
        } else if code == 0x6D {
            // ADC a
            let addr = bus.absolute_map()?;
            let num = bus.read(addr)?;
            bus.cpu_mut().adc(num);
            bus.cpu_mut().go_forward(3);
            Ok(4)
        } else if code == 0x6E {
            // ROR a
            let addr = bus.absolute_map()?;
            let num = bus.read(addr)?;
            let result = bus.cpu_mut().ror(num);
            bus.write(addr, result)?;
            bus.cpu_mut().go_forward(3);
            Ok(6)
        } else {
            Err(Message::InvalidInstruction)
        }
    }

    /// Dispatch for opcodes 0x70 through 0x77.
    #[verifier::rlimit(100)]
    #[verifier::spinoff_prover]
    fn apply_70(bus: &mut Bus, code: u8) -> (r: Result<u8, Message>)
        requires
            old(bus).wf(),
            112 <= code < 120,
        ensures
            final(bus).wf(),
            (r matches Ok(c) ==> is_defined(code) && base_cycles(code) <= c <= base_cycles(code)
                + max_extra(code)),
            (!is_defined(code) ==> r == Err::<u8, Message>(Message::InvalidInstruction)),
            (is_defined(code) && r is Err ==> r == Err::<u8, Message>(
                Message::InvalidPpuRegisterAccess,
            )),
            (r matches Err(m) ==> (m is InvalidInstruction || m is InvalidPpuRegisterAccess)),
            final(bus).ppu.clock() == old(bus).ppu.clock(),
            apply_spec_60(code, *old(bus), *final(bus), r),
    {
        if false {
            Err(Message::InvalidInstruction)
        } else if code == 0x70 {
            // BVS
            if bus.cpu().test_v_set() {
                let offset = bus.relative_map()?;
                Ok(2 + bus.cpu_mut().branch(offset))
            } else {
                bus.cpu_mut().go_forward(2);
                Ok(2)
            }
        } else if code == 0x71 {
            // ADC (d),Y
            let addr = bus.indirect_indexed_map()?;
            let num = bus.read(addr.0)?;
            bus.cpu_mut().adc(num);
            bus.cpu_mut().go_forward(2);
            Ok(if addr.1 {
                6
            } else {
                5
            })
        } else if code == 0x75 {
            // ADC d,X
            let addr = bus.zero_page_x_map()?;
            let num = bus.read_memory(addr);
            bus.cpu_mut().adc(num);
            bus.cpu_mut().go_forward(2);
            Ok(4)
        } else if code == 0x76 {
            // ROR d,X
            let addr = bus.zero_page_x_map()?;
            let num = bus.read_memory(addr);
            let result = bus.cpu_mut().ror(num);
            bus.write_memory(addr, result);
            bus.cpu_mut().go_forward(2);
            Ok(6)
        } else {
            Err(Message::InvalidInstruction)
        }
    }

    /// Dispatch for opcodes 0x78 through 0x7F.
    #[verifier::rlimit(100)]
    #[verifier::spinoff_prover]
    fn apply_78(bus: &mut Bus, code: u8) -> (r: Result<u8, Message>)
        requires
            old(bus).wf(),
            120 <= code < 128,
        ensures
            final(bus).wf(),
            (r matches Ok(c) ==> is_defined(code) && base_cycles(code) <= c <= base_cycles(code)
                + max_extra(code)),
            (!is_defined(code) ==> r == Err::<u8, Message>(Message::InvalidInstruction)),
            (is_defined(code) && r is Err ==> r == Err::<u8, Message>(
                Message::InvalidPpuRegisterAccess,
            )),
            (r matches Err(m) ==> (m is InvalidInstruction || m is InvalidPpuRegisterAccess)),
            final(bus).ppu.clock() == old(bus).ppu.clock(),
            apply_spec_60(code, *old(bus), *final(bus), r),
    {
        if false {
            Err(Message::InvalidInstruction)
        } else if code == 0x78 {
            // SEI
            bus.cpu_mut().sei();
            bus.cpu_mut().go_forward(1);
            Ok(2)
        } else if code == 0x79 {
            // ADC a,Y
            let addr = bus.absolute_y_map()?;
            let num = bus.read(addr.0)?;
            bus.cpu_mut().adc(num);
            bus.cpu_mut().go_forward(3);
            Ok(if addr.1 {
                5
            } else {
                4
            })
        } else if code == 0x7D {
            // ADC a,X
            let addr = bus.absolute_x_map()?;
            let num = bus.read(addr.0)?;
            bus.cpu_mut().adc(num);
            bus.cpu_mut().go_forward(3);
            Ok(if addr.1 {
                5
            } else {
                4
            })
        } else if code == 0x7E {
            // ROR a,X
            let addr = bus.absolute_x_map()?;
            let num = bus.read(addr.0)?;
            let result = bus.cpu_mut().ror(num);
            bus.write(addr.0, result)?;
            bus.cpu_mut().go_forward(3);
            Ok(7)
        } else {
            Err(Message::InvalidInstruction)
        }
    }

    /// Dispatch for opcodes 0x80 through 0x87.
    #[verifier::rlimit(100)]
    #[verifier::spinoff_prover]
    fn apply_80(bus: &mut Bus, code: u8) -> (r: Result<u8, Message>)
        requires
            old(bus).wf(),
            128 <= code < 136,
        ensures
            final(bus).wf(),
            (r matches Ok(c) ==> is_defined(code) && base_cycles(code) <= c <= base_cycles(code)
                + max_extra(code)),
            (!is_defined(code) ==> r == Err::<u8, Message>(Message::InvalidInstruction)),
            (is_defined(code) && r is Err ==> r == Err::<u8, Message>(
                Message::InvalidPpuRegisterAccess,
            )),
            (r matches Err(m) ==> (m is InvalidInstruction || m is InvalidPpuRegisterAccess)),
            final(bus).ppu.clock() == old(bus).ppu.clock(),
            apply_spec_80(code, *old(bus), *final(bus), r),
    {
        if false {
            Err(Message::InvalidInstruction)
        } else if code == 0x81 {
            // STA (d,X)
            let addr = bus.indexed_indirect_map()?;
            let a = bus.cpu().a();
            bus.write(addr, a)?;
            bus.cpu_mut().go_forward(2);
            Ok(6)
        } else if code == 0x84 {
            // STY d
            let addr = bus.zero_page_map()?;
            let y = bus.cpu().y();
            bus.write_memory(addr, y);
            bus.cpu_mut().go_forward(2);
            Ok(3)
        } else if code == 0x85 {
            // STA d
            let addr = bus.zero_page_map()?;
            let a = bus.cpu().a();
            bus.write_memory(addr, a);
            bus.cpu_mut().go_forward(2);
            Ok(3)
        } else if code == 0x86 {
            // STX d
            let addr = bus.zero_page_map()?;
            let x = bus.cpu().x();
            bus.write_memory(addr, x);
            bus.cpu_mut().go_forward(2);
            Ok(3)
        } else {
            Err(Message::InvalidInstruction)
        }
    }

    /// Dispatch for opcodes 0x88 through 0x8F.
    #[verifier::rlimit(100)]
    #[verifier::spinoff_prover]
    fn apply_88(bus: &mut Bus, code: u8) -> (r: Result<u8, Message>)
        requires
            old(bus).wf(),
            136 <= code < 144,
        ensures
            final(bus).wf(),
            (r matches Ok(c) ==> is_defined(code) && base_cycles(code) <= c <= base_cycles(code)
                + max_extra(code)),
            (!is_defined(code) ==> r == Err::<u8, Message>(Message::InvalidInstruction)),
            (is_defined(code) && r is Err ==> r == Err::<u8, Message>(
                Message::InvalidPpuRegisterAccess,
            )),
            (r matches Err(m) ==> (m is InvalidInstruction || m is InvalidPpuRegisterAccess)),
            final(bus).ppu.clock() == old(bus).ppu.clock(),
            apply_spec_80(code, *old(bus), *final(bus), r),
    {
        if false {
            Err(Message::InvalidInstruction)
        } else if code == 0x88 {
            // DEY
            bus.cpu_mut().dey();
            bus.cpu_mut().go_forward(1);
            Ok(2)
        } else if code == 0x8A {
            // TXA
            bus.cpu_mut().txa();
            bus.cpu_mut().go_forward(1);
            Ok(2)
        } else if code == 0x8C {
            // STY a
            let addr = bus.absolute_map()?;
            let y = bus.cpu().y();
            bus.write(addr, y)?;
            bus.cpu_mut().go_forward(3);
            Ok(4)
        } else if code == 0x8D {
            // STA a
            let addr = bus.absolute_map()?;
            let a = bus.cpu().a();
            bus.write(addr, a)?;
            bus.cpu_mut().go_forward(3);
            Ok(4)
        } else if code == 0x8E {
            // STX a
            let addr = bus.absolute_map()?;
            let x = bus.cpu().x();
            bus.write(addr, x)?;
            bus.cpu_mut().go_forward(3);
            Ok(4)
        } else {
            Err(Message::InvalidInstruction)
        }
    }

    /// Dispatch for opcodes 0x90 through 0x97.
    #[verifier::rlimit(100)]
    #[verifier::spinoff_prover]
    fn apply_90(bus: &mut Bus, code: u8) -> (r: Result<u8, Message>)
        requires
            old(bus).wf(),
            144 <= code < 152,
        ensures
            final(bus).wf(),
            (r matches Ok(c) ==> is_defined(code) && base_cycles(code) <= c <= base_cycles(code)
                + max_extra(code)),
            (!is_defined(code) ==> r == Err::<u8, Message>(Message::InvalidInstruction)),
            (is_defined(code) && r is Err ==> r == Err::<u8, Message>(
                Message::InvalidPpuRegisterAccess,
            )),
            (r matches Err(m) ==> (m is InvalidInstruction || m is InvalidPpuRegisterAccess)),
            final(bus).ppu.clock() == old(bus).ppu.clock(),
            apply_spec_80(code, *old(bus), *final(bus), r),
    {
        if false {
            Err(Message::InvalidInstruction)
        } else if code == 0x90 {
            // BCC
            if bus.cpu().test_c_clear() {
                let offset = bus.relative_map()?;
                Ok(2 + bus.cpu_mut().branch(offset))
            } else {
                bus.cpu_mut().go_forward(2);
                Ok(2)
            }
        } else if code == 0x91 {
            // STA (d),Y
            let addr = bus.indirect_indexed_map()?;
            let a = bus.cpu().a();
            bus.write(addr.0, a)?;
            bus.cpu_mut().go_forward(2);
            Ok(6)
        } else if code == 0x94 {
            // STY d,X
            let addr = bus.zero_page_x_map()?;
            let y = bus.cpu().y();
            bus.write_memory(addr, y);
            bus.cpu_mut().go_forward(2);
            Ok(4)
        } else if code == 0x95 {
            // STA d,X
            let addr = bus.zero_page_x_map()?;
            let a = bus.cpu().a();
            bus.write_memory(addr, a);
            bus.cpu_mut().go_forward(2);
            Ok(4)
        } else if code == 0x96 {
            // STX d,Y
            let addr = bus.zero_page_y_map()?;
            let x = bus.cpu().x();
            bus.write_memory(addr, x);
            bus.cpu_mut().go_forward(2);
            Ok(4)
        } else {
            Err(Message::InvalidInstruction)
        }
    }

    /// Dispatch for opcodes 0x98 through 0x9F.
    #[verifier::rlimit(100)]
    #[verifier::spinoff_prover]
    fn apply_98(bus: &mut Bus, code: u8) -> (r: Result<u8, Message>)
        requires
            old(bus).wf(),
            152 <= code < 160,
        ensures
            final(bus).wf(),
            (r matches Ok(c) ==> is_defined(code) && base_cycles(code) <= c <= base_cycles(code)
                + max_extra(code)),
            (!is_defined(code) ==> r == Err::<u8, Message>(Message::InvalidInstruction)),
            (is_defined(code) && r is Err ==> r == Err::<u8, Message>(
                Message::InvalidPpuRegisterAccess,
            )),
            (r matches Err(m) ==> (m is InvalidInstruction || m is InvalidPpuRegisterAccess)),
            final(bus).ppu.clock() == old(bus).ppu.clock(),
            apply_spec_80(code, *old(bus), *final(bus), r),
    {
        if false {
            Err(Message::InvalidInstruction)
        } else if code == 0x98 {
            // TYA
            bus.cpu_mut().tya();
            bus.cpu_mut().go_forward(1);
            Ok(2)
        } else if code == 0x99 {
            // STA a,Y
            let addr = bus.absolute_y_map()?;
            let a = bus.cpu().a();
            bus.write(addr.0, a)?;
            bus.cpu_mut().go_forward(3);
            Ok(5)
        } else if code == 0x9A {
            // TXS
            bus.cpu_mut().txs();
            bus.cpu_mut().go_forward(1);
            Ok(2)
        } else if code == 0x9D {
            // STA a,X
            let addr = bus.absolute_x_map()?;
            let a = bus.cpu().a();
            bus.write(addr.0, a)?;
            bus.cpu_mut().go_forward(3);
            Ok(5)
        } else {
            Err(Message::InvalidInstruction)
        }
    }

    /// Dispatch for opcodes 0xA0 through 0xA7.
    #[verifier::rlimit(100)]
    #[verifier::spinoff_prover]
    fn apply_a0(bus: &mut Bus, code: u8) -> (r: Result<u8, Message>)
        requires
            old(bus).wf(),
            160 <= code < 168,
        ensures
            final(bus).wf(),
            (r matches Ok(c) ==> is_defined(code) && base_cycles(code) <= c <= base_cycles(code)
                + max_extra(code)),
            (!is_defined(code) ==> r == Err::<u8, Message>(Message::InvalidInstruction)),
            (is_defined(code) && r is Err ==> r == Err::<u8, Message>(
                Message::InvalidPpuRegisterAccess,
            )),
            (r matches Err(m) ==> (m is InvalidInstruction || m is InvalidPpuRegisterAccess)),
            final(bus).ppu.clock() == old(bus).ppu.clock(),
            apply_spec_a0(code, *old(bus), *final(bus), r),
    {
        if false {
            Err(Message::InvalidInstruction)
        } else if code == 0xA0 {
            // LDY #v
            let num = bus.immediate_map()?;
            bus.cpu_mut().ldy(num);
            bus.cpu_mut().go_forward(2);
            Ok(2)
        } else if code == 0xA1 {
            // LDA (d,X)
            let addr = bus.indexed_indirect_map()?;
            let num = bus.read(addr)?;
            bus.cpu_mut().lda(num);
            bus.cpu_mut().go_forward(2);
            Ok(6)
        } else if code == 0xA2 {
            // LDX #v
            let num = bus.immediate_map()?;
            bus.cpu_mut().ldx(num);
            bus.cpu_mut().go_forward(2);
            Ok(2)
        } else if code == 0xA4 {
            // LDY d
            let addr = bus.zero_page_map()?;
            let num = bus.read_memory(addr);
            bus.cpu_mut().ldy(num);
            bus.cpu_mut().go_forward(2);
            Ok(3)
        } else if code == 0xA5 {
            // LDA d
            let addr = bus.zero_page_map()?;
            let num = bus.read_memory(addr);
            bus.cpu_mut().lda(num);
            bus.cpu_mut().go_forward(2);
            Ok(3)
        } else if code == 0xA6 {
            // LDX d
            let addr = bus.zero_page_map()?;
            let num = bus.read_memory(addr);
            bus.cpu_mut().ldx(num);
            bus.cpu_mut().go_forward(2);
            Ok(3)
        } else {
            Err(Message::InvalidInstruction)
        }
    }

    /// Dispatch for opcodes 0xA8 through 0xAF.
    #[verifier::rlimit(100)]
    #[verifier::spinoff_prover]
    fn apply_a8(bus: &mut Bus, code: u8) -> (r: Result<u8, Message>)
        requires
            old(bus).wf(),
            168 <= code < 176,
        ensures
            final(bus).wf(),
            (r matches Ok(c) ==> is_defined(code) && base_cycles(code) <= c <= base_cycles(code)
                + max_extra(code)),
            (!is_defined(code) ==> r == Err::<u8, Message>(Message::InvalidInstruction)),
            (is_defined(code) && r is Err ==> r == Err::<u8, Message>(
                Message::InvalidPpuRegisterAccess,
            )),
            (r matches Err(m) ==> (m is InvalidInstruction || m is InvalidPpuRegisterAccess)),
            final(bus).ppu.clock() == old(bus).ppu.clock(),
            apply_spec_a0(code, *old(bus), *final(bus), r),
    {
        if false {
            Err(Message::InvalidInstruction)
        } else if code == 0xA8 {
            // TAY
            bus.cpu_mut().tay();
            bus.cpu_mut().go_forward(1);
            Ok(2)
        } else if code == 0xA9 {
            // LDA #v
            let num = bus.immediate_map()?;
            bus.cpu_mut().lda(num);
            bus.cpu_mut().go_forward(2);
            Ok(2)
        } else if code == 0xAA {
            // TAX
            bus.cpu_mut().tax();
            bus.cpu_mut().go_forward(1);
            Ok(2)
        } else if code == 0xAC {
            // LDY a
            let addr = bus.absolute_map()?;
            let num = bus.read(addr)?;
            bus.cpu_mut().ldy(num);
            bus.cpu_mut().go_forward(3);
            Ok(4)
        } else if code == 0xAD {
            // LDA a
            let addr = bus.absolute_map()?;
            let num = bus.read(addr)?;
            bus.cpu_mut().lda(num);
            bus.cpu_mut().go_forward(3);
            Ok(4)
        } else if code == 0xAE {
            // LDX a
            let addr = bus.absolute_map()?;
            let num = bus.read(addr)?;
            bus.cpu_mut().ldx(num);
            bus.cpu_mut().go_forward(3);
            Ok(4)
        } else {
            Err(Message::InvalidInstruction)
        }
    }

    /// Dispatch for opcodes 0xB0 through 0xB7.
    #[verifier::rlimit(100)]
    #[verifier::spinoff_prover]
    fn apply_b0(bus: &mut Bus, code: u8) -> (r: Result<u8, Message>)
        requires
            old(bus).wf(),
            176 <= code < 184,
        ensures
            final(bus).wf(),
            (r matches Ok(c) ==> is_defined(code) && base_cycles(code) <= c <= base_cycles(code)
                + max_extra(code)),
            (!is_defined(code) ==> r == Err::<u8, Message>(Message::InvalidInstruction)),
            (is_defined(code) && r is Err ==> r == Err::<u8, Message>(
                Message::InvalidPpuRegisterAccess,
            )),
            (r matches Err(m) ==> (m is InvalidInstruction || m is InvalidPpuRegisterAccess)),
            final(bus).ppu.clock() == old(bus).ppu.clock(),
            apply_spec_a0(code, *old(bus), *final(bus), r),
    {
        if false {
            Err(Message::InvalidInstruction)
        } else if code == 0xB0 {
            // BCS
            if !bus.cpu().test_c_clear() {
                let offset = bus.relative_map()?;
                Ok(2 + bus.cpu_mut().branch(offset))
            } else {
                bus.cpu_mut().go_forward(2);
                Ok(2)
            }
        } else if code == 0xB1 {
            // LDA (d),Y
            let addr = bus.indirect_indexed_map()?;
            let num = bus.read(addr.0)?;
            bus.cpu_mut().lda(num);
            bus.cpu_mut().go_forward(2);
            Ok(if addr.1 {
                6
            } else {
                5
            })
        } else if code == 0xB4 {
            // LDY d,X
            let addr = bus.zero_page_x_map()?;
            let num = bus.read_memory(addr);
            bus.cpu_mut().ldy(num);
            bus.cpu_mut().go_forward(2);
            Ok(4)
        } else if code == 0xB5 {
            // LDA d,X
            let addr = bus.zero_page_x_map()?;
            let num = bus.read_memory(addr);
            bus.cpu_mut().lda(num);
            bus.cpu_mut().go_forward(2);
            Ok(4)
        } else if code == 0xB6 {
            // LDX d,Y
            let addr = bus.zero_page_y_map()?;
            let num = bus.read_memory(addr);
            bus.cpu_mut().ldx(num);
            bus.cpu_mut().go_forward(2);
            Ok(4)
        } else {
            Err(Message::InvalidInstruction)
        }
    }

    /// Dispatch for opcodes 0xB8 through 0xBF.
    #[verifier::rlimit(100)]
    #[verifier::spinoff_prover]
    fn apply_b8(bus: &mut Bus, code: u8) -> (r: Result<u8, Message>)
        requires
            old(bus).wf(),
            184 <= code < 192,
        ensures
            final(bus).wf(),
            (r matches Ok(c) ==> is_defined(code) && base_cycles(code) <= c <= base_cycles(code)
                + max_extra(code)),
            (!is_defined(code) ==> r == Err::<u8, Message>(Message::InvalidInstruction)),
            (is_defined(code) && r is Err ==> r == Err::<u8, Message>(
                Message::InvalidPpuRegisterAccess,
            )),
            (r matches Err(m) ==> (m is InvalidInstruction || m is InvalidPpuRegisterAccess)),
            final(bus).ppu.clock() == old(bus).ppu.clock(),
            apply_spec_a0(code, *old(bus), *final(bus), r),
    {
        if false {
            Err(Message::InvalidInstruction)
        } else if code == 0xB8 {
            // CLV
            bus.cpu_mut().clv();
            bus.cpu_mut().go_forward(1);
            Ok(2)
        } else if code == 0xB9 {
            // LDA a,Y
            let addr = bus.absolute_y_map()?;
            let num = bus.read(addr.0)?;
            bus.cpu_mut().lda(num);
            bus.cpu_mut().go_forward(3);
            Ok(if addr.1 {
                5
            } else {
                4
            })
        } else if code == 0xBA {
            // TSX
            bus.cpu_mut().tsx();
            bus.cpu_mut().go_forward(1);
            Ok(2)
        } else if code == 0xBC {
            // LDY a,X
            let addr = bus.absolute_x_map()?;
            let num = bus.read(addr.0)?;
            bus.cpu_mut().ldy(num);
            bus.cpu_mut().go_forward(3);
            Ok(if addr.1 {
                5
            } else {
                4
            })
        } else if code == 0xBD {
            // LDA a,X
            let addr = bus.absolute_x_map()?;
            let num = bus.read(addr.0)?;
            bus.cpu_mut().lda(num);
            bus.cpu_mut().go_forward(3);
            Ok(if addr.1 {
                5
            } else {
                4
            })
        } else if code == 0xBE {
            // LDX a,Y
            let addr = bus.absolute_y_map()?;
            let num = bus.read(addr.0)?;
            bus.cpu_mut().ldx(num);
            bus.cpu_mut().go_forward(3);
            Ok(if addr.1 {
                5
            } else {
                4
            })
        } else {
            Err(Message::InvalidInstruction)
        }
    }

    /// Dispatch for opcodes 0xC0 through 0xC7.
    #[verifier::rlimit(100)]
    #[verifier::spinoff_prover]
    fn apply_c0(bus: &mut Bus, code: u8) -> (r: Result<u8, Message>)
        requires
            old(bus).wf(),
            192 <= code < 200,
        ensures
            final(bus).wf(),
            (r matches Ok(c) ==> is_defined(code) && base_cycles(code) <= c <= base_cycles(code)
                + max_extra(code)),
            (!is_defined(code) ==> r == Err::<u8, Message>(Message::InvalidInstruction)),
            (is_defined(code) && r is Err ==> r == Err::<u8, Message>(
                Message::InvalidPpuRegisterAccess,
            )),
            (r matches Err(m) ==> (m is InvalidInstruction || m is InvalidPpuRegisterAccess)),
            final(bus).ppu.clock() == old(bus).ppu.clock(),
            apply_spec_c0(code, *old(bus), *final(bus), r),
    {
        if false {
            Err(Message::InvalidInstruction)
        } else if code == 0xC0 {
            // CMY #v
            let num = bus.immediate_map()?;
            bus.cpu_mut().cpy(num);
            bus.cpu_mut().go_forward(2);
            Ok(2)
        } else if code == 0xC1 {
            // CMP (d,X)
            let addr = bus.indexed_indirect_map()?;
            let num = bus.read(addr)?;
            bus.cpu_mut().cmp(num);
            bus.cpu_mut().go_forward(2);
            Ok(6)
        } else if code == 0xC4 {
            // CMY d
            let addr = bus.zero_page_map()?;
            let num = bus.read_memory(addr);
            bus.cpu_mut().cpy(num);
            bus.cpu_mut().go_forward(2);
            Ok(3)
        } else if code == 0xC5 {
            // CMP d
            let addr = bus.zero_page_map()?;
            let num = bus.read_memory(addr);
            bus.cpu_mut().cmp(num);
            bus.cpu_mut().go_forward(2);
            Ok(3)
        } else if code == 0xC6 {
            // DEC d
            let addr = bus.zero_page_map()?;
            let num = bus.read_memory(addr);
            let result = bus.cpu_mut().dec(num);
            bus.write_memory(addr, result);
            bus.cpu_mut().go_forward(2);
            Ok(5)
        } else {
            Err(Message::InvalidInstruction)
        }
    }

    /// Dispatch for opcodes 0xC8 through 0xCF.
    #[verifier::rlimit(100)]
    #[verifier::spinoff_prover]
    fn apply_c8(bus: &mut Bus, code: u8) -> (r: Result<u8, Message>)
        requires
            old(bus).wf(),
            200 <= code < 208,
        ensures
            final(bus).wf(),
            (r matches Ok(c) ==> is_defined(code) && base_cycles(code) <= c <= base_cycles(code)
                + max_extra(code)),
            (!is_defined(code) ==> r == Err::<u8, Message>(Message::InvalidInstruction)),
            (is_defined(code) && r is Err ==> r == Err::<u8, Message>(
                Message::InvalidPpuRegisterAccess,
            )),
            (r matches Err(m) ==> (m is InvalidInstruction || m is InvalidPpuRegisterAccess)),
            final(bus).ppu.clock() == old(bus).ppu.clock(),
            apply_spec_c0(code, *old(bus), *final(bus), r),
    {
        if false {
            Err(Message::InvalidInstruction)
        } else if code == 0xC8 {
            // INY
            bus.cpu_mut().iny();
            bus.cpu_mut().go_forward(1);
            Ok(2)
        } else if code == 0xC9 {
            // CMP #v
            let num = bus.immediate_map()?;
            bus.cpu_mut().cmp(num);
            bus.cpu_mut().go_forward(2);
            Ok(2)
        } else if code == 0xCA {
            // DEX
            bus.cpu_mut().dex();
            bus.cpu_mut().go_forward(1);
            Ok(2)
        } else if code == 0xCC {
            // CMY a
            let addr = bus.absolute_map()?;
            let num = bus.read(addr)?;
            bus.cpu_mut().cpy(num);
            bus.cpu_mut().go_forward(3);
            Ok(4)
        } else if code == 0xCD {
            // CMP a
            let addr = bus.absolute_map()?;
            let num = bus.read(addr)?;
            bus.cpu_mut().cmp(num);
            bus.cpu_mut().go_forward(3);
            Ok(4)
        } else if code == 0xCE {
            // DEC a
            let addr = bus.absolute_map()?;
            let num = bus.read(addr)?;
            let result = bus.cpu_mut().dec(num);
            bus.write(addr, result)?;
            bus.cpu_mut().go_forward(3);
            Ok(6)
        } else {
            Err(Message::InvalidInstruction)
        }
    }

    /// Dispatch for opcodes 0xD0 through 0xD7.
    #[verifier::rlimit(100)]
    #[verifier::spinoff_prover]
    fn apply_d0(bus: &mut Bus, code: u8) -> (r: Result<u8, Message>)
        requires
            old(bus).wf(),
            208 <= code < 216,
        ensures
            final(bus).wf(),
            (r matches Ok(c) ==> is_defined(code) && base_cycles(code) <= c <= base_cycles(code)
                + max_extra(code)),
            (!is_defined(code) ==> r == Err::<u8, Message>(Message::InvalidInstruction)),
            (is_defined(code) && r is Err ==> r == Err::<u8, Message>(
                Message::InvalidPpuRegisterAccess,
            )),
            (r matches Err(m) ==> (m is InvalidInstruction || m is InvalidPpuRegisterAccess)),
            final(bus).ppu.clock() == old(bus).ppu.clock(),
            apply_spec_c0(code, *old(bus), *final(bus), r),
    {
        if false {
            Err(Message::InvalidInstruction)
        } else if code == 0xD0 {
            // BNE
            if !bus.cpu().test_z_set() {
                let offset = bus.relative_map()?;
                Ok(2 + bus.cpu_mut().branch(offset))
            } else {
                bus.cpu_mut().go_forward(2);
                Ok(2)
            }
        } else if code == 0xD1 {
            // CMP (d),Y
            let addr = bus.indirect_indexed_map()?;
            let num = bus.read(addr.0)?;
            bus.cpu_mut().cmp(num);
            bus.cpu_mut().go_forward(2);
            Ok(if addr.1 {
                6
            } else {
                5
            })
        } else if code == 0xD5 {
            // CMP d,X
            let addr = bus.zero_page_x_map()?;
            let num = bus.read_memory(addr);
            bus.cpu_mut().cmp(num);
            bus.cpu_mut().go_forward(2);
            Ok(4)
        } else if code == 0xD6 {
            // DEC d,X
            let addr = bus.zero_page_x_map()?;
            let num = bus.read_memory(addr);
            let result = bus.cpu_mut().dec(num);
            bus.write_memory(addr, result);
            bus.cpu_mut().go_forward(2);
            Ok(6)
        } else {
            Err(Message::InvalidInstruction)
        }
    }

    /// Dispatch for opcodes 0xD8 through 0xDF.
    #[verifier::rlimit(100)]
    #[verifier::spinoff_prover]
    fn apply_d8(bus: &mut Bus, code: u8) -> (r: Result<u8, Message>)
        requires
            old(bus).wf(),
            216 <= code < 224,
        ensures
            final(bus).wf(),
            (r matches Ok(c) ==> is_defined(code) && base_cycles(code) <= c <= base_cycles(code)
                + max_extra(code)),
            (!is_defined(code) ==> r == Err::<u8, Message>(Message::InvalidInstruction)),
            (is_defined(code) && r is Err ==> r == Err::<u8, Message>(
                Message::InvalidPpuRegisterAccess,
            )),
            (r matches Err(m) ==> (m is InvalidInstruction || m is InvalidPpuRegisterAccess)),
            final(bus).ppu.clock() == old(bus).ppu.clock(),
            apply_spec_c0(code, *old(bus), *final(bus), r),
    {
        if false {
            Err(Message::InvalidInstruction)
        } else if code == 0xD8 {
            // CLD
            bus.cpu_mut().cld();
            bus.cpu_mut().go_forward(1);
            Ok(2)
        } else if code == 0xD9 {
            // CMP a,Y
            let addr = bus.absolute_y_map()?;
            let num = bus.read(addr.0)?;
            bus.cpu_mut().cmp(num);
            bus.cpu_mut().go_forward(3);
            Ok(if addr.1 {
                5
            } else {
                4
            })
        } else if code == 0xDD {
            // CMP a,X
            let addr = bus.absolute_x_map()?;
            let num = bus.read(addr.0)?;
            bus.cpu_mut().cmp(num);
            bus.cpu_mut().go_forward(3);
            Ok(if addr.1 {
                5
            } else {
                4
            })
        } else if code == 0xDE {
            // DEC a,X
            let addr = bus.absolute_x_map()?;
            let num = bus.read(addr.0)?;
            let result = bus.cpu_mut().dec(num);
            bus.write(addr.0, result)?;
            bus.cpu_mut().go_forward(3);
            Ok(7)
        } else {
            Err(Message::InvalidInstruction)
        }
    }

    /// Dispatch for opcodes 0xE0 through 0xE7.
    #[verifier::rlimit(100)]
    #[verifier::spinoff_prover]
    fn apply_e0(bus: &mut Bus, code: u8) -> (r: Result<u8, Message>)
        requires
            old(bus).wf(),
            224 <= code < 232,
        ensures
            final(bus).wf(),
            (r matches Ok(c) ==> is_defined(code) && base_cycles(code) <= c <= base_cycles(code)
                + max_extra(code)),
            (!is_defined(code) ==> r == Err::<u8, Message>(Message::InvalidInstruction)),
            (is_defined(code) && r is Err ==> r == Err::<u8, Message>(
                Message::InvalidPpuRegisterAccess,
            )),
            (r matches Err(m) ==> (m is InvalidInstruction || m is InvalidPpuRegisterAccess)),
            final(bus).ppu.clock() == old(bus).ppu.clock(),
            apply_spec_e0(code, *old(bus), *final(bus), r),
    {
        if false {
            Err(Message::InvalidInstruction)
        } else if code == 0xE0 {
            // CMX #v
            let num = bus.immediate_map()?;
            bus.cpu_mut().cpx(num);
            bus.cpu_mut().go_forward(2);
            Ok(2)
        } else if code == 0xE1 {
            // SBC (d,X)
            let addr = bus.indexed_indirect_map()?;
            let num = bus.read(addr)?;
            bus.cpu_mut().adc(num ^ 0xFF);
            bus.cpu_mut().go_forward(2);
            Ok(6)
        } else if code == 0xE4 {
            // CMX d
            let addr = bus.zero_page_map()?;
            let num = bus.read_memory(addr);
            bus.cpu_mut().cpx(num);
            bus.cpu_mut().go_forward(2);
            Ok(3)
        } else if code == 0xE5 {
            // SBC d
            let addr = bus.zero_page_map()?;
            let num = bus.read_memory(addr);
            bus.cpu_mut().adc(num ^ 0xFF);
            bus.cpu_mut().go_forward(2);
            Ok(3)
        } else if code == 0xE6 {
            // INC d
            let addr = bus.zero_page_map()?;
            let num = bus.read_memory(addr);
            let result = bus.cpu_mut().inc(num);
            bus.write_memory(addr, result);
            bus.cpu_mut().go_forward(2);
            Ok(5)
        } else {
            Err(Message::InvalidInstruction)
        }
    }

    /// Dispatch for opcodes 0xE8 through 0xEF.
    #[verifier::rlimit(100)]
    #[verifier::spinoff_prover]
    fn apply_e8(bus: &mut Bus, code: u8) -> (r: Result<u8, Message>)
        requires
            old(bus).wf(),
            232 <= code < 240,
        ensures
            final(bus).wf(),
            (r matches Ok(c) ==> is_defined(code) && base_cycles(code) <= c <= base_cycles(code)
                + max_extra(code)),
            (!is_defined(code) ==> r == Err::<u8, Message>(Message::InvalidInstruction)),
            (is_defined(code) && r is Err ==> r == Err::<u8, Message>(
                Message::InvalidPpuRegisterAccess,
            )),
            (r matches Err(m) ==> (m is InvalidInstruction || m is InvalidPpuRegisterAccess)),
            final(bus).ppu.clock() == old(bus).ppu.clock(),
            apply_spec_e0(code, *old(bus), *final(bus), r),
    {
        if false {
            Err(Message::InvalidInstruction)
        } else if code == 0xE8 {
            // INX
            bus.cpu_mut().inx();
            bus.cpu_mut().go_forward(1);
            Ok(2)
        } else if code == 0xE9 {
            // SBC #v
            let num = bus.immediate_map()?;
            bus.cpu_mut().adc(num ^ 0xFF);
            bus.cpu_mut().go_forward(2);
            Ok(2)
        } else if code == 0xEA {
            // NOP
            bus.cpu_mut().go_forward(1);
            Ok(2)
        } else if code == 0xEC {
            // CMX a
            let addr = bus.absolute_map()?;
            let num = bus.read(addr)?;
            bus.cpu_mut().cpx(num);
            bus.cpu_mut().go_forward(3);
            Ok(4)
        } else if code == 0xED {
            // SBC a
            let addr = bus.absolute_map()?;
            let num = bus.read(addr)?;
            bus.cpu_mut().adc(num ^ 0xFF);
            bus.cpu_mut().go_forward(3);
            Ok(4)
        } else if code == 0xEE {
            // INC a
            let addr = bus.absolute_map()?;
            let num = bus.read(addr)?;
            let result = bus.cpu_mut().inc(num);
            bus.write(addr, result)?;
            bus.cpu_mut().go_forward(3);
            Ok(6)
        } else {
            Err(Message::InvalidInstruction)
        }
    }

    /// Dispatch for opcodes 0xF0 through 0xF7.
    #[verifier::rlimit(100)]
    #[verifier::spinoff_prover]
    fn apply_f0(bus: &mut Bus, code: u8) -> (r: Result<u8, Message>)
        requires
            old(bus).wf(),
            240 <= code < 248,
        ensures
            final(bus).wf(),
            (r matches Ok(c) ==> is_defined(code) && base_cycles(code) <= c <= base_cycles(code)
                + max_extra(code)),
            (!is_defined(code) ==> r == Err::<u8, Message>(Message::InvalidInstruction)),
            (is_defined(code) && r is Err ==> r == Err::<u8, Message>(
                Message::InvalidPpuRegisterAccess,
            )),
            (r matches Err(m) ==> (m is InvalidInstruction || m is InvalidPpuRegisterAccess)),
            final(bus).ppu.clock() == old(bus).ppu.clock(),
            apply_spec_e0(code, *old(bus), *final(bus), r),
    {
        if false {
            Err(Message::InvalidInstruction)
        } else if code == 0xF0 {
            // BEQ
            if bus.cpu().test_z_set() {
                let offset = bus.relative_map()?;
                Ok(2 + bus.cpu_mut().branch(offset))
            } else {
                bus.cpu_mut().go_forward(2);
                Ok(2)
            }
        } else if code == 0xF1 {
            // SBC (d),Y
            let addr = bus.indirect_indexed_map()?;
            let num = bus.read(addr.0)?;
            bus.cpu_mut().adc(num ^ 0xFF);
            bus.cpu_mut().go_forward(2);
            Ok(if addr.1 {
                7
            } else {
                6
            })
        } else if code == 0xF5 {
            // SBC d,X
            let addr = bus.zero_page_x_map()?;
            let num = bus.read_memory(addr);
            bus.cpu_mut().adc(num ^ 0xFF);
            bus.cpu_mut().go_forward(2);
            Ok(4)
        } else if code == 0xF6 {
            // INC d,X
            let addr = bus.zero_page_x_map()?;
            let num = bus.read_memory(addr);
            let result = bus.cpu_mut().inc(num);
            bus.write_memory(addr, result);
            bus.cpu_mut().go_forward(2);
            Ok(6)
        } else {
            Err(Message::InvalidInstruction)
        }
    }

    /// Dispatch for opcodes 0xF8 through 0xFF.
    #[verifier::rlimit(100)]
    #[verifier::spinoff_prover]
    fn apply_f8(bus: &mut Bus, code: u8) -> (r: Result<u8, Message>)
        requires
            old(bus).wf(),
            248 <= code,
        ensures
            final(bus).wf(),
            (r matches Ok(c) ==> is_defined(code) && base_cycles(code) <= c <= base_cycles(code)
                + max_extra(code)),
            (!is_defined(code) ==> r == Err::<u8, Message>(Message::InvalidInstruction)),
            (is_defined(code) && r is Err ==> r == Err::<u8, Message>(
                Message::InvalidPpuRegisterAccess,
            )),
            (r matches Err(m) ==> (m is InvalidInstruction || m is InvalidPpuRegisterAccess)),
            final(bus).ppu.clock() == old(bus).ppu.clock(),
            apply_spec_e0(code, *old(bus), *final(bus), r),
    {
        if false {
            Err(Message::InvalidInstruction)
        } else if code == 0xF8 {
            // SED
            bus.cpu_mut().sed();
            bus.cpu_mut().go_forward(1);
            Ok(2)
        } else if code == 0xF9 {
            // SBC a,Y
            let addr = bus.absolute_y_map()?;
            let num = bus.read(addr.0)?;
            bus.cpu_mut().adc(num ^ 0xFF);
            bus.cpu_mut().go_forward(3);
            Ok(if addr.1 {
                5
            } else {
                4
            })
        } else if code == 0xFD {
            // SBC a,X
            let addr = bus.absolute_x_map()?;
            let num = bus.read(addr.0)?;
            bus.cpu_mut().adc(num ^ 0xFF);
            bus.cpu_mut().go_forward(3);
            Ok(if addr.1 {
                5
            } else {
                4
            })
        } else if code == 0xFE {
            // INC a,X
            let addr = bus.absolute_x_map()?;
            let num = bus.read(addr.0)?;
            let result = bus.cpu_mut().inc(num);
            bus.write(addr.0, result)?;
            bus.cpu_mut().go_forward(3);
            Ok(7)
        } else {
            Err(Message::InvalidInstruction)
        }
    }
}

/// The dispatch table over the whole opcode space; undefined entries
/// fault on execution.
pub struct InstructionSet {
    pub size: u16,
}

impl InstructionSet {
    pub fn new() -> (r: InstructionSet)
        ensures
            r.size == 256,
    {
        InstructionSet { size: 256 }
    }

    /// The table entry for an opcode.
    pub fn find_instruction(&self, code: u8) -> (r: Instruction)
        ensures
            r.code == code,
    {
        Instruction::new(code)
    }
}

} // verus!

//! The 6502-family CPU core: registers, flags, and the primitive
//! operations the instruction table composes. Every primitive states its
//! exact effect on the accumulator, the index registers, the stack
//! pointer, the program counter and the flag bits. Decimal mode is absent
//! on the simulated part, so the D flag is latched but never consulted.

use vstd::prelude::*;

verus! {

/// The processor status word, kept as individual flag latches.
/// Bit positions in the packed byte: N 0x80, V 0x40, unused 0x20 (reads
/// as one), B 0x10, D 0x08, I 0x04, Z 0x02, C 0x01.
#[allow(non_snake_case)]
pub struct Flags {
    pub N: bool,
    pub V: bool,
    pub B: bool,
    pub D: bool,
    pub I: bool,
    pub Z: bool,
    pub C: u8,
}

/// The packed status byte: each latched flag at its position, with the
/// unused bit 0x20 always reading as one.
pub open spec fn flags_byte(f: Flags) -> int {
    (if f.N { 0x80int } else { 0 }) + (if f.V { 0x40int } else { 0 }) + 0x20int + (if f.B {
        0x10int
    } else {
        0
    }) + (if f.D { 0x08int } else { 0 }) + (if f.I { 0x04int } else { 0 }) + (if f.Z {
        0x02int
    } else {
        0
    }) + f.C
}

impl Flags {
    /// The carry latch holds a single bit.
    pub open spec fn wf(&self) -> bool {
        self.C <= 1
    }

    pub fn new() -> (r: Flags)
        ensures
            r.wf(),
            !r.N && !r.V && !r.B && !r.D && !r.I && !r.Z && r.C == 0,
    {
        Flags { N: false, V: false, B: false, D: false, I: false, Z: false, C: 0 }
    }

    pub fn from_byte(flag: u8) -> (r: Flags)
        ensures
            r.wf(),
            r.N == ((flag & 0x80) != 0),
            r.V == ((flag & 0x40) != 0),
            r.B == ((flag & 0x10) != 0),
            r.D == ((flag & 0x08) != 0),
            r.I == ((flag & 0x04) != 0),
            r.Z == ((flag & 0x02) != 0),
            r.C == (flag & 0x01),
    {
        let mut f = Flags::new();
        f.set(flag);
        f
    }

    /// Unpack a status byte into the latches; the unused bit is ignored.
    pub fn set(&mut self, flags: u8)
        ensures
            final(self).wf(),
            final(self).N == ((flags & 0x80) != 0),
            final(self).V == ((flags & 0x40) != 0),
            final(self).B == ((flags & 0x10) != 0),
            final(self).D == ((flags & 0x08) != 0),
            final(self).I == ((flags & 0x04) != 0),
            final(self).Z == ((flags & 0x02) != 0),
            final(self).C == (flags & 0x01),
    {
        self.N = (flags & 0x80) != 0;
        self.V = (flags & 0x40) != 0;
        self.B = (flags & 0x10) != 0;
        self.D = (flags & 0x08) != 0;
        self.I = (flags & 0x04) != 0;
        self.Z = (flags & 0x02) != 0;
        self.C = flags & 0x01;
        proof {
            crate::bits::lemma_u8_and_le(flags, 0x01);
        }
    }

    /// Pack the latches into the status byte.
    pub fn get(&self) -> (r: u8)
        requires
            self.wf(),
        ensures
            r == flags_byte(*self),
    {
        let mut result: u8 = self.C;
        result += 0x20;
        if self.Z {
            result += 0x02;
        }
        if self.I {
            result += 0x04;
        }
        if self.D {
            result += 0x08;
        }
        if self.B {
            result += 0x10;
        }
        if self.V {
            result += 0x40;
        }
        if self.N {
            result += 0x80;
        }
        result
    }
}

/// CPU registers: accumulator, index registers, stack pointer, program
/// counter and status flags. The stack lives in RAM page one; pushes and
/// pops move the 8-bit pointer with wraparound.
#[allow(non_snake_case)]
pub struct CPU {
    pub A: u8,
    pub X: u8,
    pub Y: u8,
    pub S: u8,
    pub PC: u16,
    pub P: Flags,
}

/// The overflow rule for an 8-bit add: set when both addends share their
/// sign bit and the result's sign bit differs from it.
pub open spec fn adc_overflow(a: u8, m: u8, r: u8) -> bool {
    &&& (a ^ m) & 0x80 == 0
    &&& (a ^ r) & 0x80 != 0
}

impl CPU {
    pub open spec fn wf(&self) -> bool {
        self.P.wf()
    }

    /// Everything but the flags is unchanged.
    pub open spec fn same_but_flags(pre: CPU, post: CPU) -> bool {
        &&& post.A == pre.A
        &&& post.X == pre.X
        &&& post.Y == pre.Y
        &&& post.S == pre.S
        &&& post.PC == pre.PC
    }

    /// Power-on state: registers clear, stack pointer at 0xFD, interrupt
    /// disable and break latched.
    pub fn new() -> (r: CPU)
        ensures
            r.wf(),
            r.A == 0 && r.X == 0 && r.Y == 0 && r.S == 0xFD && r.PC == 0,
            !r.P.N && !r.P.V && r.P.B && !r.P.D && r.P.I && !r.P.Z && r.P.C == 0,
    {
        proof {
            assert(0x34u8 & 0x80 == 0 && 0x34u8 & 0x40 == 0 && 0x34u8 & 0x10 != 0 && 0x34u8
                & 0x08 == 0 && 0x34u8 & 0x04 != 0 && 0x34u8 & 0x02 == 0 && 0x34u8 & 0x01 == 0)
                by (bit_vector);
        }
        CPU { A: 0, X: 0, Y: 0, S: 0xFD, PC: 0, P: Flags::from_byte(0x34) }
    }

    pub fn pc(&self) -> (r: u16)
        ensures
            r == self.PC,
    {
        self.PC
    }

    pub fn goto(&mut self, pc: u16)
        ensures
            *final(self) == (CPU { PC: pc, ..*old(self) }),
    {
        self.PC = pc;
    }

    /// Move the program counter by a signed step, wrapping modulo 2^16.
    pub fn go_forward(&mut self, steps: i16)
        ensures
            *final(self) == (CPU {
                PC: (((old(self).PC + steps) % 0x10000) as u16),
                ..*old(self)
            }),
    {
        let new: i32 = self.PC as i32 + steps as i32;
        let wrapped: i32 = if new < 0 {
            new + 0x10000
        } else if new >= 0x10000 {
            new - 0x10000
        } else {
            new
        };
        self.PC = wrapped as u16;
    }

    pub fn a(&self) -> (r: u8)
        ensures
            r == self.A,
    {
        self.A
    }

    pub fn set_a(&mut self, a: u8)
        ensures
            *final(self) == (CPU { A: a, ..*old(self) }),
    {
        self.A = a;
    }

    pub fn x(&self) -> (r: u8)
        ensures
            r == self.X,
    {
        self.X
    }

    pub fn y(&self) -> (r: u8)
        ensures
            r == self.Y,
    {
        self.Y
    }

    pub fn p(&self) -> (r: u8)
        requires
            self.wf(),
        ensures
            r == flags_byte(self.P),
    {
        self.P.get()
    }

    pub fn set_p(&mut self, p: u8)
        ensures
            final(self).wf(),
            CPU::same_but_flags(*old(self), *final(self)),
            final(self).P.N == ((p & 0x80) != 0),
            final(self).P.V == ((p & 0x40) != 0),
            final(self).P.B == ((p & 0x10) != 0),
            final(self).P.D == ((p & 0x08) != 0),
            final(self).P.I == ((p & 0x04) != 0),
            final(self).P.Z == ((p & 0x02) != 0),
            final(self).P.C == (p & 0x01),
    {
        self.P.set(p);
    }

    /// Add with carry: A := A + operand + C modulo 256; C is the carry out
    /// of bit 7; N and Z follow the 8-bit result; V follows the
    /// signed-overflow rule.
    pub fn adc(&mut self, num: u8)
        requires
            old(self).wf(),
        ensures
            final(self).wf(),
            final(self).A == (old(self).A + num + old(self).P.C) % 256,
            final(self).P.C == (old(self).A + num + old(self).P.C) / 256,
            final(self).P.N == (final(self).A >= 0x80),
            final(self).P.Z == (final(self).A == 0),
            final(self).P.V == adc_overflow(old(self).A, num, final(self).A),
            final(self).X == old(self).X && final(self).Y == old(self).Y,
            final(self).S == old(self).S && final(self).PC == old(self).PC,
            final(self).P.B == old(self).P.B && final(self).P.D == old(self).P.D
                && final(self).P.I == old(self).P.I,
    {
        let a0 = self.A;
        let result: u16 = a0 as u16 + num as u16 + self.P.C as u16;
        let a: u8 = (result % 256) as u8;
        self.P.C = (result / 256) as u8;
        self.P.N = a >= 0x80;
        self.P.Z = a == 0;
        self.P.V = (a0 ^ num) & 0x80 == 0 && (a0 ^ a) & 0x80 != 0;
        self.A = a;
    }

    /// Subtract with borrow, defined as an add-with-carry of the operand's
    /// ones' complement.
    pub fn sbc(&mut self, num: u8)
        requires
            old(self).wf(),
        ensures
            final(self).wf(),
            final(self).A == (old(self).A + (num ^ 0xFF) + old(self).P.C) % 256,
            final(self).P.C == (old(self).A + (num ^ 0xFF) + old(self).P.C) / 256,
            final(self).P.N == (final(self).A >= 0x80),
            final(self).P.Z == (final(self).A == 0),
            final(self).P.V == adc_overflow(old(self).A, (num ^ 0xFF) as u8, final(self).A),
            final(self).X == old(self).X && final(self).Y == old(self).Y,
            final(self).S == old(self).S && final(self).PC == old(self).PC,
            final(self).P.B == old(self).P.B && final(self).P.D == old(self).P.D
                && final(self).P.I == old(self).P.I,
    {
        self.adc(num ^ 0xFF);
    }

    /// Bitwise and into the accumulator; N and Z follow the result.
    pub fn and(&mut self, num: u8)
        requires
            old(self).wf(),
        ensures
            final(self).wf(),
            final(self).A == (old(self).A & num),
            final(self).P.N == (final(self).A >= 0x80),
            final(self).P.Z == (final(self).A == 0),
            final(self).X == old(self).X && final(self).Y == old(self).Y,
            final(self).S == old(self).S && final(self).PC == old(self).PC,
            final(self).P.V == old(self).P.V && final(self).P.B == old(self).P.B,
            final(self).P.D == old(self).P.D && final(self).P.I == old(self).P.I,
            final(self).P.C == old(self).P.C,
    {
        self.A &= num;
        self.P.N = self.A >= 0x80;
        self.P.Z = self.A == 0;
    }

    /// Bitwise or into the accumulator; N and Z follow the result.
    pub fn or(&mut self, num: u8)
        requires
            old(self).wf(),
        ensures
            final(self).wf(),
            final(self).A == (old(self).A | num),
            final(self).P.N == (final(self).A >= 0x80),
            final(self).P.Z == (final(self).A == 0),
            final(self).X == old(self).X && final(self).Y == old(self).Y,
            final(self).S == old(self).S && final(self).PC == old(self).PC,
            final(self).P.V == old(self).P.V && final(self).P.B == old(self).P.B,
            final(self).P.D == old(self).P.D && final(self).P.I == old(self).P.I,
            final(self).P.C == old(self).P.C,
    {
        self.A |= num;
        self.P.N = self.A >= 0x80;
        self.P.Z = self.A == 0;
    }

    /// Bitwise exclusive-or into the accumulator; N and Z follow the result.
    pub fn eor(&mut self, num: u8)
        requires
            old(self).wf(),
        ensures
            final(self).wf(),
            final(self).A == (old(self).A ^ num),
            final(self).P.N == (final(self).A >= 0x80),
            final(self).P.Z == (final(self).A == 0),
            final(self).X == old(self).X && final(self).Y == old(self).Y,
            final(self).S == old(self).S && final(self).PC == old(self).PC,
            final(self).P.V == old(self).P.V && final(self).P.B == old(self).P.B,
            final(self).P.D == old(self).P.D && final(self).P.I == old(self).P.I,
            final(self).P.C == old(self).P.C,
    {
        let result = self.A ^ num;
        self.P.Z = result == 0;
        self.P.N = result >= 0x80;
        self.A = result;
    }

    /// Arithmetic shift left of an operand: C receives the ejected bit 7,
    /// N and Z follow the shifted result. The accumulator itself is not
    /// touched; `asl_set_a` applies the shift to A.
    pub fn asl(&mut self, num: u8) -> (r: u8)
        requires
            old(self).wf(),
        ensures
            final(self).wf(),
            r == (num * 2) % 256,
            final(self).P.C == num / 128,
            final(self).P.N == (r >= 0x80),
            final(self).P.Z == (r == 0),
            CPU::same_but_flags(*old(self), *final(self)),
            final(self).P.V == old(self).P.V && final(self).P.B == old(self).P.B,
            final(self).P.D == old(self).P.D && final(self).P.I == old(self).P.I,
    {
        let result: u8 = ((num as u16 * 2) % 256) as u8;
        self.P.C = num / 128;
        self.P.N = result >= 0x80;
        self.P.Z = result == 0;
        result
    }

    pub fn asl_set_a(&mut self)
        requires
            old(self).wf(),
        ensures
            final(self).wf(),
            final(self).A == (old(self).A * 2) % 256,
            final(self).P.C == old(self).A / 128,
            final(self).P.N == (final(self).A >= 0x80),
            final(self).P.Z == (final(self).A == 0),
            final(self).X == old(self).X && final(self).Y == old(self).Y,
            final(self).S == old(self).S && final(self).PC == old(self).PC,
            final(self).P.V == old(self).P.V && final(self).P.B == old(self).P.B,
            final(self).P.D == old(self).P.D && final(self).P.I == old(self).P.I,
    {
        let result = self.asl(self.A);
        self.A = result;
    }

    /// Logical shift right: C receives the ejected bit 0, N clears.
    pub fn lsr(&mut self, num: u8) -> (r: u8)
        requires
            old(self).wf(),
        ensures
            final(self).wf(),
            r == num / 2,
            final(self).P.C == num % 2,
            final(self).P.N == false,
            final(self).P.Z == (r == 0),
            CPU::same_but_flags(*old(self), *final(self)),
            final(self).P.V == old(self).P.V && final(self).P.B == old(self).P.B,
            final(self).P.D == old(self).P.D && final(self).P.I == old(self).P.I,
    {
        let result = num / 2;
        self.P.N = false;
        self.P.Z = result == 0;
        self.P.C = num % 2;
        result
    }

    pub fn lsr_a(&mut self)
        requires
            old(self).wf(),
        ensures
            final(self).wf(),
            final(self).A == old(self).A / 2,
            final(self).P.C == old(self).A % 2,
            final(self).P.N == false,
            final(self).P.Z == (final(self).A == 0),
            final(self).X == old(self).X && final(self).Y == old(self).Y,
            final(self).S == old(self).S && final(self).PC == old(self).PC,
            final(self).P.V == old(self).P.V && final(self).P.B == old(self).P.B,
            final(self).P.D == old(self).P.D && final(self).P.I == old(self).P.I,
    {
        let result = self.lsr(self.A);
        self.A = result;
    }

    /// Rotate left through carry: the old C enters at bit 0, the old bit 7
    /// leaves into C.
    pub fn rol(&mut self, num: u8) -> (r: u8)
        requires
            old(self).wf(),
        ensures
            final(self).wf(),
            r == (num * 2) % 256 + old(self).P.C,
            final(self).P.C == num / 128,
            final(self).P.N == (r >= 0x80),
            final(self).P.Z == (r == 0),
            CPU::same_but_flags(*old(self), *final(self)),
            final(self).P.V == old(self).P.V && final(self).P.B == old(self).P.B,
            final(self).P.D == old(self).P.D && final(self).P.I == old(self).P.I,
    {
        let result: u8 = ((num as u16 * 2) % 256) as u8 + self.P.C;
        self.P.C = num / 128;
        self.P.N = result >= 0x80;
        self.P.Z = result == 0;
        result
    }

    pub fn rol_a(&mut self)
        requires
            old(self).wf(),
        ensures
            final(self).wf(),
            final(self).A == (old(self).A * 2) % 256 + old(self).P.C,
            final(self).P.C == old(self).A / 128,
            final(self).P.N == (final(self).A >= 0x80),
            final(self).P.Z == (final(self).A == 0),
            final(self).X == old(self).X && final(self).Y == old(self).Y,
            final(self).S == old(self).S && final(self).PC == old(self).PC,
            final(self).P.V == old(self).P.V && final(self).P.B == old(self).P.B,
            final(self).P.D == old(self).P.D && final(self).P.I == old(self).P.I,
    {
        let a = self.rol(self.A);
        self.A = a;
    }

    /// Rotate right through carry: the old C enters at bit 7, the old bit 0
    /// leaves into C; N receives the old C.
    pub fn ror(&mut self, num: u8) -> (r: u8)
        requires
            old(self).wf(),
        ensures
            final(self).wf(),
            r == num / 2 + 128 * old(self).P.C,
            final(self).P.C == num % 2,
            final(self).P.N == (old(self).P.C == 1),
            final(self).P.Z == (r == 0),
            CPU::same_but_flags(*old(self), *final(self)),
            final(self).P.V == old(self).P.V && final(self).P.B == old(self).P.B,
            final(self).P.D == old(self).P.D && final(self).P.I == old(self).P.I,
    {
        let result: u8 = num / 2 + 128 * self.P.C;
        self.P.N = self.P.C == 1;
        self.P.Z = result == 0;
        self.P.C = num % 2;
        result
    }

    pub fn ror_a(&mut self)
        requires
            old(self).wf(),
        ensures
            final(self).wf(),
            final(self).A == old(self).A / 2 + 128 * old(self).P.C,
            final(self).P.C == old(self).A % 2,
            final(self).P.N == (old(self).P.C == 1),
            final(self).P.Z == (final(self).A == 0),
            final(self).X == old(self).X && final(self).Y == old(self).Y,
            final(self).S == old(self).S && final(self).PC == old(self).PC,
            final(self).P.V == old(self).P.V && final(self).P.B == old(self).P.B,
            final(self).P.D == old(self).P.D && final(self).P.I == old(self).P.I,
    {
        let a = self.ror(self.A);
        self.A = a;
    }

    /// Relative branch: the program counter moves past the two-byte
    /// instruction and then by the signed offset. Returns the extra cycle
    /// cost: one when the new program counter stays in the old one's page,
    /// two when the page changes.
    pub fn branch(&mut self, offset: i8) -> (r: u8)
        ensures
            final(self).PC == (old(self).PC + 2 + offset) % 0x10000,
            (r == 1 || r == 2),
            (r == 1) == ((old(self).PC & 0xFF00) == (final(self).PC & 0xFF00)),
            *final(self) == (CPU { PC: final(self).PC, ..*old(self) }),
    {
        let pc = self.PC;
        self.go_forward(offset as i16 + 2);
        let new_pc = self.PC;
        if (pc & 0xFF00) == (new_pc & 0xFF00) {
            1
        } else {
            2
        }
    }

    pub fn test_c_clear(&self) -> (r: bool)
        ensures
            r == (self.P.C == 0),
    {
        self.P.C == 0
    }

    pub fn test_z_set(&self) -> (r: bool)
        ensures
            r == self.P.Z,
    {
        self.P.Z
    }

    pub fn test_n_set(&self) -> (r: bool)
        ensures
            r == self.P.N,
    {
        self.P.N
    }

    pub fn test_v_set(&self) -> (r: bool)
        ensures
            r == self.P.V,
    {
        self.P.V
    }

    /// The bit-test instruction: flags only. N receives the operand's bit
    /// 7, V the operand's bit 6, and Z is set when the accumulator and the
    /// operand share no set bit.
    pub fn test(&mut self, num: u8)
        requires
            old(self).wf(),
        ensures
            final(self).wf(),
            final(self).P.N == (num >= 0x80),
            final(self).P.V == ((num & 0x40) != 0),
            final(self).P.Z == ((old(self).A & num) == 0),
            CPU::same_but_flags(*old(self), *final(self)),
            final(self).P.B == old(self).P.B && final(self).P.D == old(self).P.D,
            final(self).P.I == old(self).P.I && final(self).P.C == old(self).P.C,
    {
        self.P.N = num >= 0x80;
        self.P.V = (num & 0x40) != 0;
        self.P.Z = (self.A & num) == 0;
    }

    /// Yield the current stack slot and move the pointer down, wrapping
    /// from 0 to 0xFF.
    pub fn push(&mut self) -> (r: u8)
        ensures
            r == old(self).S,
            final(self).S == (if old(self).S == 0 { 0xFFint } else { old(self).S - 1 }),
            *final(self) == (CPU { S: final(self).S, ..*old(self) }),
    {
        let s = self.S;
        self.S = if s == 0 {
            0xFF
        } else {
            s - 1
        };
        s
    }

    /// Move the pointer up, wrapping from 0xFF to 0, and yield the new slot.
    pub fn pop(&mut self) -> (r: u8)
        ensures
            final(self).S == (if old(self).S == 0xFF { 0int } else { old(self).S + 1 }),
            r == final(self).S,
            *final(self) == (CPU { S: final(self).S, ..*old(self) }),
    {
        self.S = if self.S == 0xFF {
            0
        } else {
            self.S + 1
        };
        self.S
    }

    pub fn clc(&mut self)
        ensures
            *final(self) == (CPU { P: final(self).P, ..*old(self) }),
            final(self).P == (Flags { C: 0u8, ..old(self).P }),
    {
        self.P.C = 0;
    }

    pub fn cld(&mut self)
        ensures
            *final(self) == (CPU { P: final(self).P, ..*old(self) }),
            final(self).P == (Flags { D: false, ..old(self).P }),
    {
        self.P.D = false;
    }

    pub fn cli(&mut self)
        ensures
            *final(self) == (CPU { P: final(self).P, ..*old(self) }),
            final(self).P == (Flags { I: false, ..old(self).P }),
    {
        self.P.I = false;
    }

    pub fn clv(&mut self)
        ensures
            *final(self) == (CPU { P: final(self).P, ..*old(self) }),
            final(self).P == (Flags { V: false, ..old(self).P }),
    {
        self.P.V = false;
    }

    pub fn sec(&mut self)
        ensures
            final(self).wf(),
            *final(self) == (CPU { P: final(self).P, ..*old(self) }),
            final(self).P == (Flags { C: 1u8, ..old(self).P }),
    {
        self.P.C = 1;
    }

    pub fn sed(&mut self)
        ensures
            *final(self) == (CPU { P: final(self).P, ..*old(self) }),
            final(self).P == (Flags { D: true, ..old(self).P }),
    {
        self.P.D = true;
    }

    pub fn sei(&mut self)
        ensures
            *final(self) == (CPU { P: final(self).P, ..*old(self) }),
            final(self).P == (Flags { I: true, ..old(self).P }),
    {
        self.P.I = true;
    }

    /// Compare the accumulator with the operand.
    pub fn cmp(&mut self, num: u8)
        requires
            old(self).wf(),
        ensures
            final(self).wf(),
            final(self).P.C == (if old(self).A >= num { 1int } else { 0 }),
            final(self).P.Z == (old(self).A == num),
            final(self).P.N == ((old(self).A - num) % 256 >= 128),
            CPU::same_but_flags(*old(self), *final(self)),
            final(self).P.V == old(self).P.V && final(self).P.B == old(self).P.B,
            final(self).P.D == old(self).P.D && final(self).P.I == old(self).P.I,
    {
        let a = self.A;
        self.compare(a, num);
    }

    /// Compare the X register with the operand.
    pub fn cpx(&mut self, num: u8)
        requires
            old(self).wf(),
        ensures
            final(self).wf(),
            final(self).P.C == (if old(self).X >= num { 1int } else { 0 }),
            final(self).P.Z == (old(self).X == num),
            final(self).P.N == ((old(self).X - num) % 256 >= 128),
            CPU::same_but_flags(*old(self), *final(self)),
            final(self).P.V == old(self).P.V && final(self).P.B == old(self).P.B,
            final(self).P.D == old(self).P.D && final(self).P.I == old(self).P.I,
    {
        let x = self.X;
        self.compare(x, num);
    }

    /// Compare the Y register with the operand.
    pub fn cpy(&mut self, num: u8)
        requires
            old(self).wf(),
        ensures
            final(self).wf(),
            final(self).P.C == (if old(self).Y >= num { 1int } else { 0 }),
            final(self).P.Z == (old(self).Y == num),
            final(self).P.N == ((old(self).Y - num) % 256 >= 128),
            CPU::same_but_flags(*old(self), *final(self)),
            final(self).P.V == old(self).P.V && final(self).P.B == old(self).P.B,
            final(self).P.D == old(self).P.D && final(self).P.I == old(self).P.I,
    {
        let y = self.Y;
        self.compare(y, num);
    }

    /// The shared compare rule: C is set when the register is not below
    /// the operand, Z when they are equal, and N follows bit 7 of the
    /// 8-bit difference.
    pub fn compare(&mut self, n1: u8, n2: u8)
        requires
            old(self).wf(),
        ensures
            final(self).wf(),
            final(self).P.C == (if n1 >= n2 { 1int } else { 0 }),
            final(self).P.Z == (n1 == n2),
            final(self).P.N == ((n1 - n2) % 256 >= 128),
            CPU::same_but_flags(*old(self), *final(self)),
            final(self).P.V == old(self).P.V && final(self).P.B == old(self).P.B,
            final(self).P.D == old(self).P.D && final(self).P.I == old(self).P.I,
    {
        let diff: u8 = (((n1 as u16 + 256) - n2 as u16) % 256) as u8;
        self.P.C = if n1 >= n2 {
            1
        } else {
            0
        };
        self.P.Z = n1 == n2;
        self.P.N = diff >= 128;
    }

    /// Decrement an operand modulo 256; N and Z follow the result.
    pub fn dec(&mut self, num: u8) -> (r: u8)
        requires
            old(self).wf(),
        ensures
            final(self).wf(),
            r == (num - 1) % 256,
            final(self).P.N == (r >= 0x80),
            final(self).P.Z == (r == 0),
            CPU::same_but_flags(*old(self), *final(self)),
            final(self).P.V == old(self).P.V && final(self).P.B == old(self).P.B,
            final(self).P.D == old(self).P.D && final(self).P.I == old(self).P.I,
            final(self).P.C == old(self).P.C,
    {
        let result = if num > 0 {
            num - 1
        } else {
            255
        };
        self.P.N = result >= 0x80;
        self.P.Z = result == 0;
        result
    }

    pub fn dex(&mut self)
        requires
            old(self).wf(),
        ensures
            final(self).wf(),
            final(self).X == (old(self).X - 1) % 256,
            final(self).P.N == (final(self).X >= 0x80),
            final(self).P.Z == (final(self).X == 0),
            final(self).A == old(self).A && final(self).Y == old(self).Y,
            final(self).S == old(self).S && final(self).PC == old(self).PC,
            final(self).P.V == old(self).P.V && final(self).P.B == old(self).P.B,
            final(self).P.D == old(self).P.D && final(self).P.I == old(self).P.I,
            final(self).P.C == old(self).P.C,
    {
        let x = self.X;
        let x2 = self.dec(x);
        self.X = x2;
    }

    pub fn dey(&mut self)
        requires
            old(self).wf(),
        ensures
            final(self).wf(),
            final(self).Y == (old(self).Y - 1) % 256,
            final(self).P.N == (final(self).Y >= 0x80),
            final(self).P.Z == (final(self).Y == 0),
            final(self).A == old(self).A && final(self).X == old(self).X,
            final(self).S == old(self).S && final(self).PC == old(self).PC,
            final(self).P.V == old(self).P.V && final(self).P.B == old(self).P.B,
            final(self).P.D == old(self).P.D && final(self).P.I == old(self).P.I,
            final(self).P.C == old(self).P.C,
    {
        let y = self.Y;
        let y2 = self.dec(y);
        self.Y = y2;
    }

    /// Increment an operand modulo 256; N and Z follow the result.
    pub fn inc(&mut self, num: u8) -> (r: u8)
        requires
            old(self).wf(),
        ensures
            final(self).wf(),
            r == (num + 1) % 256,
            final(self).P.N == (r >= 0x80),
            final(self).P.Z == (r == 0),
            CPU::same_but_flags(*old(self), *final(self)),
            final(self).P.V == old(self).P.V && final(self).P.B == old(self).P.B,
            final(self).P.D == old(self).P.D && final(self).P.I == old(self).P.I,
            final(self).P.C == old(self).P.C,
    {
        let result = if num < 255 {
            num + 1
        } else {
            0
        };
        self.P.Z = result == 0;
        self.P.N = result >= 0x80;
        result
    }

    pub fn inx(&mut self)
        requires
            old(self).wf(),
        ensures
            final(self).wf(),
            final(self).X == (old(self).X + 1) % 256,
            final(self).P.N == (final(self).X >= 0x80),
            final(self).P.Z == (final(self).X == 0),
            final(self).A == old(self).A && final(self).Y == old(self).Y,
            final(self).S == old(self).S && final(self).PC == old(self).PC,
            final(self).P.V == old(self).P.V && final(self).P.B == old(self).P.B,
            final(self).P.D == old(self).P.D && final(self).P.I == old(self).P.I,
            final(self).P.C == old(self).P.C,
    {
        let x = self.X;
        let x2 = self.inc(x);
        self.X = x2;
    }

    pub fn iny(&mut self)
        requires
            old(self).wf(),
        ensures
            final(self).wf(),
            final(self).Y == (old(self).Y + 1) % 256,
            final(self).P.N == (final(self).Y >= 0x80),
            final(self).P.Z == (final(self).Y == 0),
            final(self).A == old(self).A && final(self).X == old(self).X,
            final(self).S == old(self).S && final(self).PC == old(self).PC,
            final(self).P.V == old(self).P.V && final(self).P.B == old(self).P.B,
            final(self).P.D == old(self).P.D && final(self).P.I == old(self).P.I,
            final(self).P.C == old(self).P.C,
    {
        let y = self.Y;
        let y2 = self.inc(y);
        self.Y = y2;
    }

    /// Load the accumulator; N and Z follow the value.
    pub fn lda(&mut self, num: u8)
        requires
            old(self).wf(),
        ensures
            final(self).wf(),
            final(self).A == num,
            final(self).P.N == (num >= 0x80),
            final(self).P.Z == (num == 0),
            final(self).X == old(self).X && final(self).Y == old(self).Y,
            final(self).S == old(self).S && final(self).PC == old(self).PC,
            final(self).P.V == old(self).P.V && final(self).P.B == old(self).P.B,
            final(self).P.D == old(self).P.D && final(self).P.I == old(self).P.I,
            final(self).P.C == old(self).P.C,
    {
        self.A = num;
        self.P.N = num >= 0x80;
        self.P.Z = num == 0;
    }

    /// Load the X register; N and Z follow the value.
    pub fn ldx(&mut self, num: u8)
        requires
            old(self).wf(),
        ensures
            final(self).wf(),
            final(self).X == num,
            final(self).P.N == (num >= 0x80),
            final(self).P.Z == (num == 0),
            final(self).A == old(self).A && final(self).Y == old(self).Y,
            final(self).S == old(self).S && final(self).PC == old(self).PC,
            final(self).P.V == old(self).P.V && final(self).P.B == old(self).P.B,
            final(self).P.D == old(self).P.D && final(self).P.I == old(self).P.I,
            final(self).P.C == old(self).P.C,
    {
        self.X = num;
        self.P.N = num >= 0x80;
        self.P.Z = num == 0;
    }

    /// Load the Y register; N and Z follow the value.
    pub fn ldy(&mut self, num: u8)
        requires
            old(self).wf(),
        ensures
            final(self).wf(),
            final(self).Y == num,
            final(self).P.N == (num >= 0x80),
            final(self).P.Z == (num == 0),
            final(self).A == old(self).A && final(self).X == old(self).X,
            final(self).S == old(self).S && final(self).PC == old(self).PC,
            final(self).P.V == old(self).P.V && final(self).P.B == old(self).P.B,
            final(self).P.D == old(self).P.D && final(self).P.I == old(self).P.I,
            final(self).P.C == old(self).P.C,
    {
        self.Y = num;
        self.P.N = num >= 0x80;
        self.P.Z = num == 0;
    }

    pub fn tax(&mut self)
        requires
            old(self).wf(),
        ensures
            final(self).wf(),
            final(self).X == old(self).A,
            final(self).P.N == (final(self).X >= 0x80),
            final(self).P.Z == (final(self).X == 0),
            final(self).A == old(self).A && final(self).Y == old(self).Y,
            final(self).S == old(self).S && final(self).PC == old(self).PC,
            final(self).P.V == old(self).P.V && final(self).P.B == old(self).P.B,
            final(self).P.D == old(self).P.D && final(self).P.I == old(self).P.I,
            final(self).P.C == old(self).P.C,
    {
        self.X = self.A;
        self.P.N = self.X >= 0x80;
        self.P.Z = self.X == 0;
    }

    pub fn tay(&mut self)
        requires
            old(self).wf(),
        ensures
            final(self).wf(),
            final(self).Y == old(self).A,
            final(self).P.N == (final(self).Y >= 0x80),
            final(self).P.Z == (final(self).Y == 0),
            final(self).A == old(self).A && final(self).X == old(self).X,
            final(self).S == old(self).S && final(self).PC == old(self).PC,
            final(self).P.V == old(self).P.V && final(self).P.B == old(self).P.B,
            final(self).P.D == old(self).P.D && final(self).P.I == old(self).P.I,
            final(self).P.C == old(self).P.C,
    {
        self.Y = self.A;
        self.P.N = self.Y >= 0x80;
        self.P.Z = self.Y == 0;
    }

    pub fn tya(&mut self)
        requires
            old(self).wf(),
        ensures
            final(self).wf(),
            final(self).A == old(self).Y,
            final(self).P.N == (final(self).A >= 0x80),
            final(self).P.Z == (final(self).A == 0),
            final(self).X == old(self).X && final(self).Y == old(self).Y,
            final(self).S == old(self).S && final(self).PC == old(self).PC,
            final(self).P.V == old(self).P.V && final(self).P.B == old(self).P.B,
            final(self).P.D == old(self).P.D && final(self).P.I == old(self).P.I,
            final(self).P.C == old(self).P.C,
    {
        self.A = self.Y;
        self.P.N = self.A >= 0x80;
        self.P.Z = self.A == 0;
    }

    pub fn tsx(&mut self)
        requires
            old(self).wf(),
        ensures
            final(self).wf(),
            final(self).X == old(self).S,
            final(self).P.N == (final(self).X >= 0x80),
            final(self).P.Z == (final(self).X == 0),
            final(self).A == old(self).A && final(self).Y == old(self).Y,
            final(self).S == old(self).S && final(self).PC == old(self).PC,
            final(self).P.V == old(self).P.V && final(self).P.B == old(self).P.B,
            final(self).P.D == old(self).P.D && final(self).P.I == old(self).P.I,
            final(self).P.C == old(self).P.C,
    {
        self.X = self.S;
        self.P.N = self.X >= 0x80;
        self.P.Z = self.X == 0;
    }

    pub fn txa(&mut self)
        requires
            old(self).wf(),
        ensures
            final(self).wf(),
            final(self).A == old(self).X,
            final(self).P.N == (final(self).A >= 0x80),
            final(self).P.Z == (final(self).A == 0),
            final(self).X == old(self).X && final(self).Y == old(self).Y,
            final(self).S == old(self).S && final(self).PC == old(self).PC,
            final(self).P.V == old(self).P.V && final(self).P.B == old(self).P.B,
            final(self).P.D == old(self).P.D && final(self).P.I == old(self).P.I,
            final(self).P.C == old(self).P.C,
    {
        self.A = self.X;
        self.P.N = self.A >= 0x80;
        self.P.Z = self.A == 0;
    }

    /// Transfer X to the stack pointer. Unlike the other transfers, this
    /// one updates no flags.
    pub fn txs(&mut self)
        ensures
            *final(self) == (CPU { S: old(self).X, ..*old(self) }),
    {
        self.S = self.X;
    }
}

/// The flag word with N and Z latched from a result byte.
pub open spec fn nz(p: Flags, v: u8) -> Flags {
    Flags { N: v >= 0x80, Z: v == 0, ..p }
}

/// A CPU with the program counter moved by `n`, wrapping modulo 2^16.
pub open spec fn pc_plus(c: CPU, n: int) -> CPU {
    CPU { PC: ((c.PC + n) % 0x10000) as u16, ..c }
}

/// The CPU after an add-with-carry of `m`.
pub open spec fn adc_post(c: CPU, m: u8) -> CPU {
    let sum = c.A + m + c.P.C;
    let a = (sum % 256) as u8;
    CPU {
        A: a,
        P: Flags {
            N: a >= 0x80,
            Z: a == 0,
            C: (sum / 256) as u8,
            V: adc_overflow(c.A, m, a),
            ..c.P
        },
        ..c
    }
}

/// The CPU after a bitwise and into the accumulator.
pub open spec fn and_post(c: CPU, m: u8) -> CPU {
    CPU { A: (c.A & m) as u8, P: nz(c.P, (c.A & m) as u8), ..c }
}

/// The CPU after a bitwise or into the accumulator.
pub open spec fn ora_post(c: CPU, m: u8) -> CPU {
    CPU { A: (c.A | m) as u8, P: nz(c.P, (c.A | m) as u8), ..c }
}

/// The CPU after a bitwise exclusive-or into the accumulator.
pub open spec fn eor_post(c: CPU, m: u8) -> CPU {
    CPU { A: (c.A ^ m) as u8, P: nz(c.P, (c.A ^ m) as u8), ..c }
}

/// The CPU after the bit-test of `m`.
pub open spec fn bit_post(c: CPU, m: u8) -> CPU {
    CPU { P: Flags { N: m >= 0x80, V: m & 0x40 != 0, Z: c.A & m == 0, ..c.P }, ..c }
}

/// The CPU after loading the accumulator.
pub open spec fn lda_post(c: CPU, m: u8) -> CPU {
    CPU { A: m, P: nz(c.P, m), ..c }
}

/// The CPU after loading the X register.
pub open spec fn ldx_post(c: CPU, m: u8) -> CPU {
    CPU { X: m, P: nz(c.P, m), ..c }
}

/// The CPU after loading the Y register.
pub open spec fn ldy_post(c: CPU, m: u8) -> CPU {
    CPU { Y: m, P: nz(c.P, m), ..c }
}

/// The CPU after comparing a register value with `m`.
pub open spec fn cmp_post(c: CPU, reg: u8, m: u8) -> CPU {
    CPU {
        P: Flags {
            C: if reg >= m {
                1u8
            } else {
                0u8
            },
            Z: reg == m,
            N: (reg - m) % 256 >= 128,
            ..c.P
        },
        ..c
    }
}

/// An arithmetic shift left's result byte.
pub open spec fn asl_result(v: u8) -> u8 {
    ((v * 2) % 256) as u8
}

/// The CPU flags after an arithmetic shift left of `v`.
pub open spec fn asl_post(c: CPU, v: u8) -> CPU {
    CPU { P: Flags { C: (v / 128) as u8, ..nz(c.P, asl_result(v)) }, ..c }
}

/// A logical shift right's result byte.
pub open spec fn lsr_result(v: u8) -> u8 {
    v / 2
}

/// The CPU flags after a logical shift right of `v`.
pub open spec fn lsr_post(c: CPU, v: u8) -> CPU {
    CPU { P: Flags { N: false, Z: lsr_result(v) == 0, C: (v % 2) as u8, ..c.P }, ..c }
}

/// A rotate left's result byte, with the carry entering at bit zero.
pub open spec fn rol_result(v: u8, carry: u8) -> u8 {
    ((v * 2) % 256 + carry) as u8
}

/// The CPU flags after a rotate left of `v`.
pub open spec fn rol_post(c: CPU, v: u8) -> CPU {
    CPU { P: Flags { C: (v / 128) as u8, ..nz(c.P, rol_result(v, c.P.C)) }, ..c }
}

/// A rotate right's result byte, with the carry entering at bit seven.
pub open spec fn ror_result(v: u8, carry: u8) -> u8 {
    (v / 2 + 128 * carry) as u8
}

/// The CPU flags after a rotate right of `v`.
pub open spec fn ror_post(c: CPU, v: u8) -> CPU {
    CPU {
        P: Flags { N: c.P.C == 1, Z: ror_result(v, c.P.C) == 0, C: (v % 2) as u8, ..c.P },
        ..c
    }
}

/// An increment's result byte.
pub open spec fn inc_result(v: u8) -> u8 {
    ((v + 1) % 256) as u8
}

/// A decrement's result byte.
pub open spec fn dec_result(v: u8) -> u8 {
    ((v - 1) % 256) as u8
}

/// The CPU after unpacking a status byte.
pub open spec fn setp_post(c: CPU, p: u8) -> CPU {
    CPU {
        P: Flags {
            N: p & 0x80 != 0,
            V: p & 0x40 != 0,
            B: p & 0x10 != 0,
            D: p & 0x08 != 0,
            I: p & 0x04 != 0,
            Z: p & 0x02 != 0,
            C: (p & 0x01) as u8,
        },
        ..c
    }
}

/// The stack pointer after a push.
pub open spec fn push_s(s: u8) -> u8 {
    if s == 0 {
        0xFFu8
    } else {
        (s - 1) as u8
    }
}

/// The stack pointer after a pop.
pub open spec fn pop_s(s: u8) -> u8 {
    if s == 0xFF {
        0u8
    } else {
        (s + 1) as u8
    }
}

} // verus!

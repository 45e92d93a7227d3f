use vstd::prelude::*;
use crate::bus::{Bus, BusModel, timing};

verus! {

/// How an instruction finds its operand.
#[derive(Debug, Clone, Copy, PartialEq, Eq, Structural)]
pub enum AddressingMode {
    Implicit,
    Accumulator,
    Immediate,
    ZeroPage,
    ZeroPageX,
    ZeroPageY,
    Relative,
    Absolute,
    AbsoluteX,
    AbsoluteY,
    Indirect,
    IndirectX,
    IndirectY,
}

/// The 56 official 6502 instructions.
#[derive(Debug, Clone, Copy, PartialEq, Eq, Structural)]
pub enum Instruction {
    Adc, And, Asl, Bcc, Bcs, Beq, Bit, Bmi, Bne, Bpl, Brk, Bvc, Bvs, Clc,
    Cld, Cli, Clv, Cmp, Cpx, Cpy, Dec, Dex, Dey, Eor, Inc, Inx, Iny, Jmp,
    Jsr, Lda, Ldx, Ldy, Lsr, Nop, Ora, Pha, Php, Pla, Plp, Rol, Ror, Rti,
    Rts, Sbc, Sec, Sed, Sei, Sta, Stx, Sty, Tax, Tay, Tsx, Txa, Txs, Tya,
}

/// Status register flag bits (NV-BDIZC).
pub const CARRY: u8 = 0x01;
pub const ZERO: u8 = 0x02;
pub const INTERRUPT_DISABLE: u8 = 0x04;
pub const DECIMAL: u8 = 0x08;
pub const BREAK: u8 = 0x10;
pub const UNUSED: u8 = 0x20;
pub const OVERFLOW: u8 = 0x40;
pub const NEGATIVE: u8 = 0x80;

/// The 6502 registers and the count of cycles run.
#[derive(Clone, Copy)]
pub struct Cpu {
    pub a: u8,
    pub x: u8,
    pub y: u8,
    pub sp: u8,
    pub pc: u16,
    pub status: u8,
    pub cycles: u64,
}

/// The 16-bit little-endian word made of two bytes.
pub open spec fn word(lo: u8, hi: u8) -> u16 {
    ((hi as u16) << 8u16) | (lo as u16)
}

/// A branch offset sign-extended to 16 bits.
pub open spec fn sign_extend(off: u8) -> u16 {
    if off < 128 {
        off as u16
    } else {
        (off as u16) | 0xFF00
    }
}

/// The stack address for a stack pointer value (page one).
pub open spec fn stack_addr(sp: u8) -> u16 {
    0x0100 | (sp as u16)
}

/// Whether two addresses lie on different 256-byte pages.
pub open spec fn page_crossed(a: u16, b: u16) -> bool {
    (a & 0xFF00) != (b & 0xFF00)
}

/// The opcode table: instruction, addressing mode and base cycle count of each
/// of the 151 official opcodes; `None` for the others.
pub open spec fn decode_spec(opcode: u8) -> Option<(Instruction, AddressingMode, u8)> {
    match opcode {
        0xA9 => Some((Instruction::Lda, AddressingMode::Immediate, 2u8)),
        0xA5 => Some((Instruction::Lda, AddressingMode::ZeroPage, 3u8)),
        0xB5 => Some((Instruction::Lda, AddressingMode::ZeroPageX, 4u8)),
        0xAD => Some((Instruction::Lda, AddressingMode::Absolute, 4u8)),
        0xBD => Some((Instruction::Lda, AddressingMode::AbsoluteX, 4u8)),
        0xB9 => Some((Instruction::Lda, AddressingMode::AbsoluteY, 4u8)),
        0xA1 => Some((Instruction::Lda, AddressingMode::IndirectX, 6u8)),
        0xB1 => Some((Instruction::Lda, AddressingMode::IndirectY, 5u8)),
        0xA2 => Some((Instruction::Ldx, AddressingMode::Immediate, 2u8)),
        0xA6 => Some((Instruction::Ldx, AddressingMode::ZeroPage, 3u8)),
        0xB6 => Some((Instruction::Ldx, AddressingMode::ZeroPageY, 4u8)),
        0xAE => Some((Instruction::Ldx, AddressingMode::Absolute, 4u8)),
        0xBE => Some((Instruction::Ldx, AddressingMode::AbsoluteY, 4u8)),
        0xA0 => Some((Instruction::Ldy, AddressingMode::Immediate, 2u8)),
        0xA4 => Some((Instruction::Ldy, AddressingMode::ZeroPage, 3u8)),
        0xB4 => Some((Instruction::Ldy, AddressingMode::ZeroPageX, 4u8)),
        0xAC => Some((Instruction::Ldy, AddressingMode::Absolute, 4u8)),
        0xBC => Some((Instruction::Ldy, AddressingMode::AbsoluteX, 4u8)),
        0x85 => Some((Instruction::Sta, AddressingMode::ZeroPage, 3u8)),
        0x95 => Some((Instruction::Sta, AddressingMode::ZeroPageX, 4u8)),
        0x8D => Some((Instruction::Sta, AddressingMode::Absolute, 4u8)),
        0x9D => Some((Instruction::Sta, AddressingMode::AbsoluteX, 5u8)),
        0x99 => Some((Instruction::Sta, AddressingMode::AbsoluteY, 5u8)),
        0x81 => Some((Instruction::Sta, AddressingMode::IndirectX, 6u8)),
        0x91 => Some((Instruction::Sta, AddressingMode::IndirectY, 6u8)),
        0x86 => Some((Instruction::Stx, AddressingMode::ZeroPage, 3u8)),
        0x96 => Some((Instruction::Stx, AddressingMode::ZeroPageY, 4u8)),
        0x8E => Some((Instruction::Stx, AddressingMode::Absolute, 4u8)),
        0x84 => Some((Instruction::Sty, AddressingMode::ZeroPage, 3u8)),
        0x94 => Some((Instruction::Sty, AddressingMode::ZeroPageX, 4u8)),
        0x8C => Some((Instruction::Sty, AddressingMode::Absolute, 4u8)),
        0x69 => Some((Instruction::Adc, AddressingMode::Immediate, 2u8)),
        0x65 => Some((Instruction::Adc, AddressingMode::ZeroPage, 3u8)),
        0x75 => Some((Instruction::Adc, AddressingMode::ZeroPageX, 4u8)),
        0x6D => Some((Instruction::Adc, AddressingMode::Absolute, 4u8)),
        0x7D => Some((Instruction::Adc, AddressingMode::AbsoluteX, 4u8)),
        0x79 => Some((Instruction::Adc, AddressingMode::AbsoluteY, 4u8)),
        0x61 => Some((Instruction::Adc, AddressingMode::IndirectX, 6u8)),
        0x71 => Some((Instruction::Adc, AddressingMode::IndirectY, 5u8)),
        0xE9 => Some((Instruction::Sbc, AddressingMode::Immediate, 2u8)),
        0xE5 => Some((Instruction::Sbc, AddressingMode::ZeroPage, 3u8)),
        0xF5 => Some((Instruction::Sbc, AddressingMode::ZeroPageX, 4u8)),
        0xED => Some((Instruction::Sbc, AddressingMode::Absolute, 4u8)),
        0xFD => Some((Instruction::Sbc, AddressingMode::AbsoluteX, 4u8)),
        0xF9 => Some((Instruction::Sbc, AddressingMode::AbsoluteY, 4u8)),
        0xE1 => Some((Instruction::Sbc, AddressingMode::IndirectX, 6u8)),
        0xF1 => Some((Instruction::Sbc, AddressingMode::IndirectY, 5u8)),
        0xC9 => Some((Instruction::Cmp, AddressingMode::Immediate, 2u8)),
        0xC5 => Some((Instruction::Cmp, AddressingMode::ZeroPage, 3u8)),
        0xD5 => Some((Instruction::Cmp, AddressingMode::ZeroPageX, 4u8)),
        0xCD => Some((Instruction::Cmp, AddressingMode::Absolute, 4u8)),
        0xDD => Some((Instruction::Cmp, AddressingMode::AbsoluteX, 4u8)),
        0xD9 => Some((Instruction::Cmp, AddressingMode::AbsoluteY, 4u8)),
        0xC1 => Some((Instruction::Cmp, AddressingMode::IndirectX, 6u8)),
        0xD1 => Some((Instruction::Cmp, AddressingMode::IndirectY, 5u8)),
        0xE0 => Some((Instruction::Cpx, AddressingMode::Immediate, 2u8)),
        0xE4 => Some((Instruction::Cpx, AddressingMode::ZeroPage, 3u8)),
        0xEC => Some((Instruction::Cpx, AddressingMode::Absolute, 4u8)),
        0xC0 => Some((Instruction::Cpy, AddressingMode::Immediate, 2u8)),
        0xC4 => Some((Instruction::Cpy, AddressingMode::ZeroPage, 3u8)),
        0xCC => Some((Instruction::Cpy, AddressingMode::Absolute, 4u8)),
        0x29 => Some((Instruction::And, AddressingMode::Immediate, 2u8)),
        0x25 => Some((Instruction::And, AddressingMode::ZeroPage, 3u8)),
        0x35 => Some((Instruction::And, AddressingMode::ZeroPageX, 4u8)),
        0x2D => Some((Instruction::And, AddressingMode::Absolute, 4u8)),
        0x3D => Some((Instruction::And, AddressingMode::AbsoluteX, 4u8)),
        0x39 => Some((Instruction::And, AddressingMode::AbsoluteY, 4u8)),
        0x21 => Some((Instruction::And, AddressingMode::IndirectX, 6u8)),
        0x31 => Some((Instruction::And, AddressingMode::IndirectY, 5u8)),
        0x09 => Some((Instruction::Ora, AddressingMode::Immediate, 2u8)),
        0x05 => Some((Instruction::Ora, AddressingMode::ZeroPage, 3u8)),
        0x15 => Some((Instruction::Ora, AddressingMode::ZeroPageX, 4u8)),
        0x0D => Some((Instruction::Ora, AddressingMode::Absolute, 4u8)),
        0x1D => Some((Instruction::Ora, AddressingMode::AbsoluteX, 4u8)),
        0x19 => Some((Instruction::Ora, AddressingMode::AbsoluteY, 4u8)),
        0x01 => Some((Instruction::Ora, AddressingMode::IndirectX, 6u8)),
        0x11 => Some((Instruction::Ora, AddressingMode::IndirectY, 5u8)),
        0x49 => Some((Instruction::Eor, AddressingMode::Immediate, 2u8)),
        0x45 => Some((Instruction::Eor, AddressingMode::ZeroPage, 3u8)),
        0x55 => Some((Instruction::Eor, AddressingMode::ZeroPageX, 4u8)),
        0x4D => Some((Instruction::Eor, AddressingMode::Absolute, 4u8)),
        0x5D => Some((Instruction::Eor, AddressingMode::AbsoluteX, 4u8)),
        0x59 => Some((Instruction::Eor, AddressingMode::AbsoluteY, 4u8)),
        0x41 => Some((Instruction::Eor, AddressingMode::IndirectX, 6u8)),
        0x51 => Some((Instruction::Eor, AddressingMode::IndirectY, 5u8)),
        0x24 => Some((Instruction::Bit, AddressingMode::ZeroPage, 3u8)),
        0x2C => Some((Instruction::Bit, AddressingMode::Absolute, 4u8)),
        0x0A => Some((Instruction::Asl, AddressingMode::Accumulator, 2u8)),
        0x06 => Some((Instruction::Asl, AddressingMode::ZeroPage, 5u8)),
        0x16 => Some((Instruction::Asl, AddressingMode::ZeroPageX, 6u8)),
        0x0E => Some((Instruction::Asl, AddressingMode::Absolute, 6u8)),
        0x1E => Some((Instruction::Asl, AddressingMode::AbsoluteX, 7u8)),
        0x4A => Some((Instruction::Lsr, AddressingMode::Accumulator, 2u8)),
        0x46 => Some((Instruction::Lsr, AddressingMode::ZeroPage, 5u8)),
        0x56 => Some((Instruction::Lsr, AddressingMode::ZeroPageX, 6u8)),
        0x4E => Some((Instruction::Lsr, AddressingMode::Absolute, 6u8)),
        0x5E => Some((Instruction::Lsr, AddressingMode::AbsoluteX, 7u8)),
        0x2A => Some((Instruction::Rol, AddressingMode::Accumulator, 2u8)),
        0x26 => Some((Instruction::Rol, AddressingMode::ZeroPage, 5u8)),
        0x36 => Some((Instruction::Rol, AddressingMode::ZeroPageX, 6u8)),
        0x2E => Some((Instruction::Rol, AddressingMode::Absolute, 6u8)),
        0x3E => Some((Instruction::Rol, AddressingMode::AbsoluteX, 7u8)),
        0x6A => Some((Instruction::Ror, AddressingMode::Accumulator, 2u8)),
        0x66 => Some((Instruction::Ror, AddressingMode::ZeroPage, 5u8)),
        0x76 => Some((Instruction::Ror, AddressingMode::ZeroPageX, 6u8)),
        0x6E => Some((Instruction::Ror, AddressingMode::Absolute, 6u8)),
        0x7E => Some((Instruction::Ror, AddressingMode::AbsoluteX, 7u8)),
        0xE6 => Some((Instruction::Inc, AddressingMode::ZeroPage, 5u8)),
        0xF6 => Some((Instruction::Inc, AddressingMode::ZeroPageX, 6u8)),
        0xEE => Some((Instruction::Inc, AddressingMode::Absolute, 6u8)),
        0xFE => Some((Instruction::Inc, AddressingMode::AbsoluteX, 7u8)),
        0xC6 => Some((Instruction::Dec, AddressingMode::ZeroPage, 5u8)),
        0xD6 => Some((Instruction::Dec, AddressingMode::ZeroPageX, 6u8)),
        0xCE => Some((Instruction::Dec, AddressingMode::Absolute, 6u8)),
        0xDE => Some((Instruction::Dec, AddressingMode::AbsoluteX, 7u8)),
        0xE8 => Some((Instruction::Inx, AddressingMode::Implicit, 2u8)),
        0xC8 => Some((Instruction::Iny, AddressingMode::Implicit, 2u8)),
        0xCA => Some((Instruction::Dex, AddressingMode::Implicit, 2u8)),
        0x88 => Some((Instruction::Dey, AddressingMode::Implicit, 2u8)),
        0xAA => Some((Instruction::Tax, AddressingMode::Implicit, 2u8)),
        0xA8 => Some((Instruction::Tay, AddressingMode::Implicit, 2u8)),
        0x8A => Some((Instruction::Txa, AddressingMode::Implicit, 2u8)),
        0x98 => Some((Instruction::Tya, AddressingMode::Implicit, 2u8)),
        0xBA => Some((Instruction::Tsx, AddressingMode::Implicit, 2u8)),
        0x9A => Some((Instruction::Txs, AddressingMode::Implicit, 2u8)),
        0x90 => Some((Instruction::Bcc, AddressingMode::Relative, 2u8)),
        0xB0 => Some((Instruction::Bcs, AddressingMode::Relative, 2u8)),
        0xF0 => Some((Instruction::Beq, AddressingMode::Relative, 2u8)),
        0xD0 => Some((Instruction::Bne, AddressingMode::Relative, 2u8)),
        0x30 => Some((Instruction::Bmi, AddressingMode::Relative, 2u8)),
        0x10 => Some((Instruction::Bpl, AddressingMode::Relative, 2u8)),
        0x50 => Some((Instruction::Bvc, AddressingMode::Relative, 2u8)),
        0x70 => Some((Instruction::Bvs, AddressingMode::Relative, 2u8)),
        0x4C => Some((Instruction::Jmp, AddressingMode::Absolute, 3u8)),
        0x6C => Some((Instruction::Jmp, AddressingMode::Indirect, 5u8)),
        0x20 => Some((Instruction::Jsr, AddressingMode::Absolute, 6u8)),
        0x60 => Some((Instruction::Rts, AddressingMode::Implicit, 6u8)),
        0x40 => Some((Instruction::Rti, AddressingMode::Implicit, 6u8)),
        0x48 => Some((Instruction::Pha, AddressingMode::Implicit, 3u8)),
        0x08 => Some((Instruction::Php, AddressingMode::Implicit, 3u8)),
        0x68 => Some((Instruction::Pla, AddressingMode::Implicit, 4u8)),
        0x28 => Some((Instruction::Plp, AddressingMode::Implicit, 4u8)),
        0x18 => Some((Instruction::Clc, AddressingMode::Implicit, 2u8)),
        0x38 => Some((Instruction::Sec, AddressingMode::Implicit, 2u8)),
        0x58 => Some((Instruction::Cli, AddressingMode::Implicit, 2u8)),
        0x78 => Some((Instruction::Sei, AddressingMode::Implicit, 2u8)),
        0xD8 => Some((Instruction::Cld, AddressingMode::Implicit, 2u8)),
        0xF8 => Some((Instruction::Sed, AddressingMode::Implicit, 2u8)),
        0xB8 => Some((Instruction::Clv, AddressingMode::Implicit, 2u8)),
        0x00 => Some((Instruction::Brk, AddressingMode::Implicit, 7u8)),
        0xEA => Some((Instruction::Nop, AddressingMode::Implicit, 2u8)),
        _ => None,
    }
}

impl Cpu {
    /// Whether a status flag is set.
    pub open spec fn flag(self, f: u8) -> bool {
        self.status & f != 0
    }

    /// The registers with a status flag set or cleared.
    pub open spec fn with_flag(self, f: u8, v: bool) -> Cpu {
        Cpu { status: if v { self.status | f } else { self.status & !f }, ..self }
    }

    /// The registers with Z and N set from a result.
    pub open spec fn with_zn(self, v: u8) -> Cpu {
        self.with_flag(ZERO, v == 0).with_flag(NEGATIVE, v & 0x80 != 0)
    }

    /// Add with carry: A + M + C into A, setting C, Z, V and N.
    pub open spec fn adc_spec(self, m: u8) -> Cpu {
        let a = self.a as u16;
        let mm = m as u16;
        let c: u16 = if self.flag(CARRY) { 1 } else { 0 };
        let sum = (a + mm + c) as u16;
        let result = sum as u8;
        Cpu {
            a: result,
            ..self.with_flag(CARRY, sum > 0xFF).with_flag(ZERO, result == 0).with_flag(
                OVERFLOW,
                (!(a ^ mm) & (a ^ sum)) & 0x80 != 0,
            ).with_flag(NEGATIVE, result & 0x80 != 0)
        }
    }

    /// Compare: C when reg >= m, Z when equal, N from bit 7 of reg - m.
    pub open spec fn compare_spec(self, reg: u8, m: u8) -> Cpu {
        self.with_flag(CARRY, reg >= m).with_flag(ZERO, reg == m).with_flag(
            NEGATIVE,
            reg.wrapping_sub(m) & 0x80 != 0,
        )
    }

    /// Shifts and rotates of one byte: the result and the carry out.
    pub open spec fn shift_value(ins: Instruction, v: u8, carry_in: bool) -> (u8, bool) {
        let c: u8 = if carry_in { 1 } else { 0 };
        match ins {
            Instruction::Asl => (v << 1u8, v & 0x80 != 0),
            Instruction::Lsr => (v >> 1u8, v & 0x01 != 0),
            Instruction::Rol => ((v << 1u8) | c, v & 0x80 != 0),
            _ => ((v >> 1u8) | (c << 7u8), v & 0x01 != 0),
        }
    }

    /// The register-only instructions (transfers, increments, flag changes, NOP).
    pub open spec fn implied_spec(self, ins: Instruction) -> Cpu {
        match ins {
            Instruction::Inx => Cpu { x: self.x.wrapping_add(1), ..self }.with_zn(self.x.wrapping_add(1)),
            Instruction::Iny => Cpu { y: self.y.wrapping_add(1), ..self }.with_zn(self.y.wrapping_add(1)),
            Instruction::Dex => Cpu { x: self.x.wrapping_sub(1), ..self }.with_zn(self.x.wrapping_sub(1)),
            Instruction::Dey => Cpu { y: self.y.wrapping_sub(1), ..self }.with_zn(self.y.wrapping_sub(1)),
            Instruction::Tax => Cpu { x: self.a, ..self }.with_zn(self.a),
            Instruction::Tay => Cpu { y: self.a, ..self }.with_zn(self.a),
            Instruction::Txa => Cpu { a: self.x, ..self }.with_zn(self.x),
            Instruction::Tya => Cpu { a: self.y, ..self }.with_zn(self.y),
            Instruction::Tsx => Cpu { x: self.sp, ..self }.with_zn(self.sp),
            Instruction::Txs => Cpu { sp: self.x, ..self },
            Instruction::Clc => self.with_flag(CARRY, false),
            Instruction::Sec => self.with_flag(CARRY, true),
            Instruction::Cli => self.with_flag(INTERRUPT_DISABLE, false),
            Instruction::Sei => self.with_flag(INTERRUPT_DISABLE, true),
            Instruction::Cld => self.with_flag(DECIMAL, false),
            Instruction::Sed => self.with_flag(DECIMAL, true),
            Instruction::Clv => self.with_flag(OVERFLOW, false),
            _ => self,
        }
    }

    /// The branch condition of a branch instruction.
    pub open spec fn branch_taken(self, ins: Instruction) -> bool {
        match ins {
            Instruction::Bcc => !self.flag(CARRY),
            Instruction::Bcs => self.flag(CARRY),
            Instruction::Beq => self.flag(ZERO),
            Instruction::Bne => !self.flag(ZERO),
            Instruction::Bmi => self.flag(NEGATIVE),
            Instruction::Bpl => !self.flag(NEGATIVE),
            Instruction::Bvc => !self.flag(OVERFLOW),
            _ => self.flag(OVERFLOW),
        }
    }

    /// The operand instructions applied to a byte read from memory.
    pub open spec fn operate_spec(self, ins: Instruction, m: u8) -> Cpu {
        match ins {
            Instruction::Lda => Cpu { a: m, ..self }.with_zn(m),
            Instruction::Ldx => Cpu { x: m, ..self }.with_zn(m),
            Instruction::Ldy => Cpu { y: m, ..self }.with_zn(m),
            Instruction::Adc => self.adc_spec(m),
            Instruction::Sbc => self.adc_spec(!m),
            Instruction::And => Cpu { a: self.a & m, ..self }.with_zn(self.a & m),
            Instruction::Ora => Cpu { a: self.a | m, ..self }.with_zn(self.a | m),
            Instruction::Eor => Cpu { a: self.a ^ m, ..self }.with_zn(self.a ^ m),
            Instruction::Cmp => self.compare_spec(self.a, m),
            Instruction::Cpx => self.compare_spec(self.x, m),
            Instruction::Cpy => self.compare_spec(self.y, m),
            _ => self.with_flag(ZERO, self.a & m == 0).with_flag(NEGATIVE, m & 0x80 != 0).with_flag(
                OVERFLOW,
                m & 0x40 != 0,
            ),
        }
    }

    /// The register a store instruction writes.
    pub open spec fn store_value(self, ins: Instruction) -> u8 {
        match ins {
            Instruction::Sta => self.a,
            Instruction::Stx => self.x,
            _ => self.y,
        }
    }
}

/// The CPU together with the bus it drives. `ok` records that every bus access made so
/// far was defined (a read outside a cartridge's ROM, for one, is not).
pub ghost struct Machine {
    pub cpu: Cpu,
    pub bus: BusModel,
    pub ok: bool,
}

/// A machine whose accesses so far were all defined.
pub open spec fn machine(cpu: Cpu, bus: BusModel) -> Machine {
    Machine { cpu, bus, ok: true }
}

impl Machine {
    /// The machine with its registers replaced.
    pub open spec fn with_cpu(self, cpu: Cpu) -> Machine {
        Machine { cpu, ..self }
    }

    /// The machine with its program counter replaced.
    pub open spec fn with_pc(self, pc: u16) -> Machine {
        Machine { cpu: Cpu { pc, ..self.cpu }, ..self }
    }

    /// A bus read.
    pub open spec fn read(self, addr: u16) -> (Machine, u8) {
        (Machine { bus: self.bus.read(addr).0, ok: self.ok && self.bus.read_ok(addr), ..self }, self.bus.read(addr).1)
    }

    /// A bus write.
    pub open spec fn write(self, addr: u16, v: u8) -> Machine {
        Machine { bus: self.bus.write(addr, v), ok: self.ok && self.bus.write_ok(addr, v), ..self }
    }

    /// Reads the byte at PC and advances PC.
    pub open spec fn fetch(self) -> (Machine, u8) {
        let (m, v) = self.read(self.cpu.pc);
        (m.with_pc(self.cpu.pc.wrapping_add(1)), v)
    }

    /// Reads the little-endian word at PC and advances PC by two.
    pub open spec fn fetch16(self) -> (Machine, u16) {
        let (m1, lo) = self.fetch();
        let (m2, hi) = m1.fetch();
        (m2, word(lo, hi))
    }

    /// Pushes a byte: written at the stack pointer, which then moves down.
    pub open spec fn push(self, v: u8) -> Machine {
        let m = self.write(stack_addr(self.cpu.sp), v);
        m.with_cpu(Cpu { sp: self.cpu.sp.wrapping_sub(1), ..m.cpu })
    }

    /// Pulls a byte: the stack pointer moves up, then the byte there is read.
    pub open spec fn pull(self) -> (Machine, u8) {
        let sp = self.cpu.sp.wrapping_add(1);
        let m = self.with_cpu(Cpu { sp, ..self.cpu });
        m.read(stack_addr(sp))
    }

    /// Pushes a word, high byte first.
    pub open spec fn push16(self, v: u16) -> Machine {
        self.push((v >> 8u16) as u8).push(v as u8)
    }

    /// Pulls a word, low byte first.
    pub open spec fn pull16(self) -> (Machine, u16) {
        let (m1, lo) = self.pull();
        let (m2, hi) = m1.pull();
        (m2, word(lo, hi))
    }

    /// Reads a word whose high byte comes from the same page as the low byte
    /// (the 6502's indirect-jump page wrap).
    pub open spec fn read16_wrap(self, addr: u16) -> (Machine, u16) {
        let (m1, lo) = self.read(addr);
        let hi_addr = (addr & 0xFF00) | (addr.wrapping_add(1) & 0x00FF);
        let (m2, hi) = m1.read(hi_addr);
        (m2, word(lo, hi))
    }

    /// The effective address of an operand, and whether indexing crossed a page.
    pub open spec fn resolve(self, mode: AddressingMode) -> (Machine, u16, bool) {
        match mode {
            AddressingMode::Implicit | AddressingMode::Accumulator => (self, 0, false),
            AddressingMode::Immediate => (self.with_pc(self.cpu.pc.wrapping_add(1)), self.cpu.pc, false),
            AddressingMode::ZeroPage => {
                let (m, b) = self.fetch();
                (m, b as u16, false)
            },
            AddressingMode::ZeroPageX => {
                let (m, b) = self.fetch();
                (m, b.wrapping_add(m.cpu.x) as u16, false)
            },
            AddressingMode::ZeroPageY => {
                let (m, b) = self.fetch();
                (m, b.wrapping_add(m.cpu.y) as u16, false)
            },
            AddressingMode::Relative => {
                let (m, off) = self.fetch();
                (m, m.cpu.pc.wrapping_add(sign_extend(off)), false)
            },
            AddressingMode::Absolute => {
                let (m, a) = self.fetch16();
                (m, a, false)
            },
            AddressingMode::AbsoluteX => {
                let (m, base) = self.fetch16();
                let a = base.wrapping_add(m.cpu.x as u16);
                (m, a, page_crossed(base, a))
            },
            AddressingMode::AbsoluteY => {
                let (m, base) = self.fetch16();
                let a = base.wrapping_add(m.cpu.y as u16);
                (m, a, page_crossed(base, a))
            },
            AddressingMode::Indirect => {
                let (m1, ptr) = self.fetch16();
                let (m2, a) = m1.read16_wrap(ptr);
                (m2, a, false)
            },
            AddressingMode::IndirectX => {
                let (m1, b) = self.fetch();
                let ptr = b.wrapping_add(m1.cpu.x);
                let (m2, lo) = m1.read(ptr as u16);
                let (m3, hi) = m2.read(ptr.wrapping_add(1) as u16);
                (m3, word(lo, hi), false)
            },
            AddressingMode::IndirectY => {
                let (m1, ptr) = self.fetch();
                let (m2, lo) = m1.read(ptr as u16);
                let (m3, hi) = m2.read(ptr.wrapping_add(1) as u16);
                let base = word(lo, hi);
                let a = base.wrapping_add(m3.cpu.y as u16);
                (m3, a, page_crossed(base, a))
            },
        }
    }

    /// A conditional branch: the offset byte is always fetched; a taken branch costs one
    /// extra cycle, two when it lands on another page.
    pub open spec fn branch(self, cond: bool) -> (Machine, u8) {
        let (m, off) = self.fetch();
        if cond {
            let old_pc = m.cpu.pc;
            let new_pc = old_pc.wrapping_add(sign_extend(off));
            (m.with_pc(new_pc), if page_crossed(old_pc, new_pc) { 2u8 } else { 1u8 })
        } else {
            (m, 0)
        }
    }

    /// Interrupt entry: PC and the given status byte are pushed, I is set and PC is
    /// loaded from the vector.
    pub open spec fn interrupt(self, vector: u16, pushed_status: u8) -> Machine {
        let m1 = self.push16(self.cpu.pc).push(pushed_status);
        let m2 = m1.with_cpu(m1.cpu.with_flag(INTERRUPT_DISABLE, true));
        let (m3, lo) = m2.read(vector);
        let (m4, hi) = m3.read((vector + 1) as u16);
        m4.with_pc(word(lo, hi))
    }

    /// Adds cycles to the count (defined while the count does not overflow).
    pub open spec fn add_cycles(self, n: u8) -> Machine {
        Machine {
            cpu: Cpu { cycles: (self.cpu.cycles + n) as u64, ..self.cpu },
            ok: self.ok && self.cpu.cycles + n <= u64::MAX,
            ..self
        }
    }

    /// STA, STX, STY: the register is written at the effective address.
    pub open spec fn store_op(self, ins: Instruction, mode: AddressingMode, base: u8) -> (Machine, u8) {
        let (m1, a, _) = self.resolve(mode);
        (m1.write(a, m1.cpu.store_value(ins)), base)
    }

    /// ASL, LSR, ROL, ROR: on A in accumulator mode, else read-modify-write of memory;
    /// the bit shifted out goes to C, and Z and N follow the result.
    pub open spec fn shift_op(self, ins: Instruction, mode: AddressingMode, base: u8) -> (Machine, u8) {
        if mode == AddressingMode::Accumulator {
            let (r, c) = Cpu::shift_value(ins, self.cpu.a, self.cpu.flag(CARRY));
            (self.with_cpu(Cpu { a: r, ..self.cpu.with_flag(CARRY, c) }.with_zn(r)), base)
        } else {
            let (m1, a, _) = self.resolve(mode);
            let (m2, v) = m1.read(a);
            let (r, c) = Cpu::shift_value(ins, v, m2.cpu.flag(CARRY));
            let m3 = m2.with_cpu(m2.cpu.with_flag(CARRY, c));
            (m3.write(a, r).with_cpu(m3.cpu.with_zn(r)), base)
        }
    }

    /// INC, DEC: read-modify-write of memory, wrapping, with Z and N from the result.
    pub open spec fn inc_dec_op(self, ins: Instruction, mode: AddressingMode, base: u8) -> (Machine, u8) {
        let (m1, a, _) = self.resolve(mode);
        let (m2, v) = m1.read(a);
        let r = if ins == Instruction::Inc { v.wrapping_add(1) } else { v.wrapping_sub(1) };
        (m2.write(a, r).with_cpu(m2.cpu.with_zn(r)), base)
    }

    /// The eight conditional branches.
    pub open spec fn branch_op(self, ins: Instruction, base: u8) -> (Machine, u8) {
        let (m1, extra) = self.branch(self.cpu.branch_taken(ins));
        (m1, (base + extra) as u8)
    }

    /// JMP, JSR (pushes the address of its last byte), RTS, RTI (restores status with B
    /// clear and U set) and BRK (skips a padding byte, pushes status with B set).
    pub open spec fn control_op(self, ins: Instruction, mode: AddressingMode, base: u8) -> (Machine, u8) {
        match ins {
            Instruction::Jmp => {
                let (m1, a, _) = self.resolve(mode);
                (m1.with_pc(a), base)
            },
            Instruction::Jsr => {
                let (m1, a) = self.fetch16();
                (m1.push16(m1.cpu.pc.wrapping_sub(1)).with_pc(a), base)
            },
            Instruction::Rts => {
                let (m1, a) = self.pull16();
                (m1.with_pc(a.wrapping_add(1)), base)
            },
            Instruction::Rti => {
                let (m1, s) = self.pull();
                let m2 = m1.with_cpu(Cpu { status: (s & !BREAK) | UNUSED, ..m1.cpu });
                let (m3, pc) = m2.pull16();
                (m3.with_pc(pc), base)
            },
            _ => {
                let m1 = self.with_pc(self.cpu.pc.wrapping_add(1));
                (m1.interrupt(0xFFFE, m1.cpu.status | BREAK | UNUSED), base)
            },
        }
    }

    /// PHA, PHP (pushes status with B and U set), PLA, PLP (B clear, U set).
    pub open spec fn stack_op(self, ins: Instruction, base: u8) -> (Machine, u8) {
        match ins {
            Instruction::Pha => (self.push(self.cpu.a), base),
            Instruction::Php => (self.push(self.cpu.status | BREAK | UNUSED), base),
            Instruction::Pla => {
                let (m1, v) = self.pull();
                (m1.with_cpu(Cpu { a: v, ..m1.cpu }.with_zn(v)), base)
            },
            _ => {
                let (m1, v) = self.pull();
                (m1.with_cpu(Cpu { status: (v & !BREAK) | UNUSED, ..m1.cpu }), base)
            },
        }
    }

    /// Instructions that read one operand; one more cycle when indexing crossed a page.
    pub open spec fn operand_op(self, ins: Instruction, mode: AddressingMode, base: u8) -> (Machine, u8) {
        let (m1, a, crossed) = self.resolve(mode);
        let (m2, v) = m1.read(a);
        (m2.with_cpu(m2.cpu.operate_spec(ins, v)), if crossed { (base + 1) as u8 } else { base })
    }

    /// Executes one decoded instruction; returns the machine and the cycles taken.
    pub open spec fn execute(self, ins: Instruction, mode: AddressingMode, base: u8) -> (Machine, u8) {
        match ins {
            Instruction::Sta | Instruction::Stx | Instruction::Sty => self.store_op(ins, mode, base),
            Instruction::Asl | Instruction::Lsr | Instruction::Rol | Instruction::Ror => self.shift_op(ins, mode, base),
            Instruction::Inc | Instruction::Dec => self.inc_dec_op(ins, mode, base),
            Instruction::Bcc | Instruction::Bcs | Instruction::Beq | Instruction::Bne | Instruction::Bmi
            | Instruction::Bpl | Instruction::Bvc | Instruction::Bvs => self.branch_op(ins, base),
            Instruction::Jmp | Instruction::Jsr | Instruction::Rts | Instruction::Rti | Instruction::Brk => {
                self.control_op(ins, mode, base)
            },
            Instruction::Pha | Instruction::Php | Instruction::Pla | Instruction::Plp => self.stack_op(ins, base),
            Instruction::Lda | Instruction::Ldx | Instruction::Ldy | Instruction::Adc | Instruction::Sbc
            | Instruction::And | Instruction::Ora | Instruction::Eor | Instruction::Cmp | Instruction::Cpx
            | Instruction::Cpy | Instruction::Bit => self.operand_op(ins, mode, base),
            _ => (self.with_cpu(self.cpu.implied_spec(ins)), base),
        }
    }

    /// One instruction: fetch the opcode, execute it and count its cycles. An unofficial
    /// opcode has no defined effect: the machine afterwards is no longer `ok`, so the
    /// executable step is never run on one.
    #[verifier::opaque]
    pub open spec fn step(self) -> (Machine, u8) {
        let (m1, opcode) = self.fetch();
        let (m2, cycles) = match decode_spec(opcode) {
            Some((ins, mode, base)) => m1.execute(ins, mode, base),
            None => (Machine { ok: false, ..m1 }, 2u8),
        };
        (m2.add_cycles(cycles), cycles)
    }

    /// Non-maskable interrupt: vector $FFFA, B clear in the pushed status, seven cycles.
    #[verifier::opaque]
    pub open spec fn nmi(self) -> Machine {
        self.interrupt(0xFFFA, (self.cpu.status | UNUSED) & !BREAK).add_cycles(7)
    }

    /// Maskable interrupt: taken only when I is clear, through vector $FFFE.
    #[verifier::opaque]
    pub open spec fn irq(self) -> Machine {
        if !self.cpu.flag(INTERRUPT_DISABLE) {
            self.interrupt(0xFFFE, (self.cpu.status | UNUSED) & !BREAK).add_cycles(7)
        } else {
            self
        }
    }

    /// Reset: registers cleared, SP = $FD, status = I|U, PC from $FFFC, cycle count 7.
    #[verifier::opaque]
    pub open spec fn reset(self) -> Machine {
        let m1 = self.with_cpu(Cpu { a: 0, x: 0, y: 0, sp: 0xFD, status: UNUSED | INTERRUPT_DISABLE, ..self.cpu });
        let (m2, lo) = m1.read(0xFFFC);
        let (m3, hi) = m2.read(0xFFFD);
        m3.with_cpu(Cpu { pc: word(lo, hi), cycles: 7, ..m3.cpu })
    }
}


/// `after` has the PPU at the same frame position as `before`, and is defined only if
/// `before` was.
pub open spec fn frame_neutral(after: Machine, before: Machine) -> bool {
    &&& timing(after.bus) == timing(before.bus)
    &&& (after.ok ==> before.ok)
}

proof fn lemma_resolve_neutral(m: Machine, mode: AddressingMode)
    ensures
        frame_neutral(m.resolve(mode).0, m),
        m.resolve(mode).0.cpu.cycles == m.cpu.cycles,
{
    broadcast use {crate::bus::lemma_read_keeps_timing, crate::bus::lemma_write_keeps_timing};
}

proof fn lemma_store_neutral(m: Machine, ins: Instruction, mode: AddressingMode, base: u8)
    ensures
        frame_neutral(m.store_op(ins, mode, base).0, m),
        m.store_op(ins, mode, base).0.cpu.cycles == m.cpu.cycles,
{
    broadcast use {crate::bus::lemma_read_keeps_timing, crate::bus::lemma_write_keeps_timing};
    lemma_resolve_neutral(m, mode);
}

proof fn lemma_shift_neutral(m: Machine, ins: Instruction, mode: AddressingMode, base: u8)
    ensures
        frame_neutral(m.shift_op(ins, mode, base).0, m),
        m.shift_op(ins, mode, base).0.cpu.cycles == m.cpu.cycles,
{
    broadcast use {crate::bus::lemma_read_keeps_timing, crate::bus::lemma_write_keeps_timing};
    lemma_resolve_neutral(m, mode);
}

proof fn lemma_inc_dec_neutral(m: Machine, ins: Instruction, mode: AddressingMode, base: u8)
    ensures
        frame_neutral(m.inc_dec_op(ins, mode, base).0, m),
        m.inc_dec_op(ins, mode, base).0.cpu.cycles == m.cpu.cycles,
{
    broadcast use {crate::bus::lemma_read_keeps_timing, crate::bus::lemma_write_keeps_timing};
    lemma_resolve_neutral(m, mode);
}

proof fn lemma_branch_neutral(m: Machine, ins: Instruction, mode: AddressingMode, base: u8)
    ensures
        frame_neutral(m.branch_op(ins, base).0, m),
        m.branch_op(ins, base).0.cpu.cycles == m.cpu.cycles,
{
    broadcast use {crate::bus::lemma_read_keeps_timing, crate::bus::lemma_write_keeps_timing};
    lemma_resolve_neutral(m, mode);
}

proof fn lemma_control_neutral(m: Machine, ins: Instruction, mode: AddressingMode, base: u8)
    ensures
        frame_neutral(m.control_op(ins, mode, base).0, m),
        m.control_op(ins, mode, base).0.cpu.cycles == m.cpu.cycles,
{
    broadcast use {crate::bus::lemma_read_keeps_timing, crate::bus::lemma_write_keeps_timing};
    lemma_resolve_neutral(m, mode);
}

proof fn lemma_stack_neutral(m: Machine, ins: Instruction, mode: AddressingMode, base: u8)
    ensures
        frame_neutral(m.stack_op(ins, base).0, m),
        m.stack_op(ins, base).0.cpu.cycles == m.cpu.cycles,
{
    broadcast use {crate::bus::lemma_read_keeps_timing, crate::bus::lemma_write_keeps_timing};
    lemma_resolve_neutral(m, mode);
}

proof fn lemma_operand_neutral(m: Machine, ins: Instruction, mode: AddressingMode, base: u8)
    ensures
        frame_neutral(m.operand_op(ins, mode, base).0, m),
        m.operand_op(ins, mode, base).0.cpu.cycles == m.cpu.cycles,
{
    broadcast use {crate::bus::lemma_read_keeps_timing, crate::bus::lemma_write_keeps_timing};
    lemma_resolve_neutral(m, mode);
}

proof fn lemma_execute_neutral(m: Machine, ins: Instruction, mode: AddressingMode, base: u8)
    ensures
        frame_neutral(m.execute(ins, mode, base).0, m),
        m.execute(ins, mode, base).0.cpu.cycles == m.cpu.cycles,
{
    lemma_store_neutral(m, ins, mode, base);
    lemma_shift_neutral(m, ins, mode, base);
    lemma_inc_dec_neutral(m, ins, mode, base);
    lemma_branch_neutral(m, ins, mode, base);
    lemma_control_neutral(m, ins, mode, base);
    lemma_stack_neutral(m, ins, mode, base);
    lemma_operand_neutral(m, ins, mode, base);
}

/// An instruction never moves the PPU's frame position, and is defined only if the
/// machine was.
pub proof fn lemma_step_frame_neutral(m: Machine)
    ensures
        frame_neutral(m.step().0, m),
{
    reveal(Machine::step);
    broadcast use {crate::bus::lemma_read_keeps_timing, crate::bus::lemma_write_keeps_timing};
    let (m1, opcode) = m.fetch();
    match decode_spec(opcode) {
        Some((ins, mode, base)) => lemma_execute_neutral(m1, ins, mode, base),
        None => {},
    }
}

/// Interrupt entry never moves the PPU's frame position, is defined only if the machine
/// was, and adds seven cycles when the interrupt is taken.
pub proof fn lemma_interrupts_frame_neutral(m: Machine)
    ensures
        frame_neutral(m.nmi(), m),
        frame_neutral(m.irq(), m),
        m.nmi().ok ==> m.nmi().cpu.cycles == m.cpu.cycles + 7,
        m.irq().ok ==> m.irq().cpu.cycles == m.cpu.cycles + if m.cpu.flag(INTERRUPT_DISABLE) { 0int } else { 7int },
{
    reveal(Machine::nmi);
    reveal(Machine::irq);
    broadcast use {crate::bus::lemma_read_keeps_timing, crate::bus::lemma_write_keeps_timing};
}

/// Every opcode in the table takes between two and seven base cycles.
pub proof fn lemma_decode_base(opcode: u8)
    ensures
        decode_spec(opcode) matches Some((_, _, b)) ==> 2 <= b <= 7,
{
}

/// An unofficial opcode has no defined effect: a step that fetches one is never defined,
/// so the executable step, which requires a defined step, is never run on one.
pub proof fn lemma_unofficial_opcode_undefined(m: Machine)
    requires
        decode_spec(m.bus.read(m.cpu.pc).1) is None,
    ensures
        !m.step().0.ok,
{
    reveal(Machine::step);
}

/// Every instruction takes at least two cycles, and a defined instruction adds exactly
/// its cycles to the cycle count.
pub proof fn lemma_step_cycles(m: Machine)
    ensures
        m.step().1 >= 2,
        m.step().0.ok ==> m.step().0.cpu.cycles == m.cpu.cycles + m.step().1,
{
    reveal(Machine::step);
    let (m1, opcode) = m.fetch();
    lemma_decode_base(opcode);
    match decode_spec(opcode) {
        Some((ins, mode, base)) => lemma_execute_neutral(m1, ins, mode, base),
        None => {},
    }
}

/// Looks up an opcode in the opcode table.
pub fn decode(opcode: u8) -> (r: Option<(Instruction, AddressingMode, u8)>)
    ensures
        r == decode_spec(opcode),
        r matches Some((_, _, b)) ==> 2 <= b <= 7,
{
    match opcode {
        0xA9 => Some((Instruction::Lda, AddressingMode::Immediate, 2u8)),
        0xA5 => Some((Instruction::Lda, AddressingMode::ZeroPage, 3u8)),
        0xB5 => Some((Instruction::Lda, AddressingMode::ZeroPageX, 4u8)),
        0xAD => Some((Instruction::Lda, AddressingMode::Absolute, 4u8)),
        0xBD => Some((Instruction::Lda, AddressingMode::AbsoluteX, 4u8)),
        0xB9 => Some((Instruction::Lda, AddressingMode::AbsoluteY, 4u8)),
        0xA1 => Some((Instruction::Lda, AddressingMode::IndirectX, 6u8)),
        0xB1 => Some((Instruction::Lda, AddressingMode::IndirectY, 5u8)),
        0xA2 => Some((Instruction::Ldx, AddressingMode::Immediate, 2u8)),
        0xA6 => Some((Instruction::Ldx, AddressingMode::ZeroPage, 3u8)),
        0xB6 => Some((Instruction::Ldx, AddressingMode::ZeroPageY, 4u8)),
        0xAE => Some((Instruction::Ldx, AddressingMode::Absolute, 4u8)),
        0xBE => Some((Instruction::Ldx, AddressingMode::AbsoluteY, 4u8)),
        0xA0 => Some((Instruction::Ldy, AddressingMode::Immediate, 2u8)),
        0xA4 => Some((Instruction::Ldy, AddressingMode::ZeroPage, 3u8)),
        0xB4 => Some((Instruction::Ldy, AddressingMode::ZeroPageX, 4u8)),
        0xAC => Some((Instruction::Ldy, AddressingMode::Absolute, 4u8)),
        0xBC => Some((Instruction::Ldy, AddressingMode::AbsoluteX, 4u8)),
        0x85 => Some((Instruction::Sta, AddressingMode::ZeroPage, 3u8)),
        0x95 => Some((Instruction::Sta, AddressingMode::ZeroPageX, 4u8)),
        0x8D => Some((Instruction::Sta, AddressingMode::Absolute, 4u8)),
        0x9D => Some((Instruction::Sta, AddressingMode::AbsoluteX, 5u8)),
        0x99 => Some((Instruction::Sta, AddressingMode::AbsoluteY, 5u8)),
        0x81 => Some((Instruction::Sta, AddressingMode::IndirectX, 6u8)),
        0x91 => Some((Instruction::Sta, AddressingMode::IndirectY, 6u8)),
        0x86 => Some((Instruction::Stx, AddressingMode::ZeroPage, 3u8)),
        0x96 => Some((Instruction::Stx, AddressingMode::ZeroPageY, 4u8)),
        0x8E => Some((Instruction::Stx, AddressingMode::Absolute, 4u8)),
        0x84 => Some((Instruction::Sty, AddressingMode::ZeroPage, 3u8)),
        0x94 => Some((Instruction::Sty, AddressingMode::ZeroPageX, 4u8)),
        0x8C => Some((Instruction::Sty, AddressingMode::Absolute, 4u8)),
        0x69 => Some((Instruction::Adc, AddressingMode::Immediate, 2u8)),
        0x65 => Some((Instruction::Adc, AddressingMode::ZeroPage, 3u8)),
        0x75 => Some((Instruction::Adc, AddressingMode::ZeroPageX, 4u8)),
        0x6D => Some((Instruction::Adc, AddressingMode::Absolute, 4u8)),
        0x7D => Some((Instruction::Adc, AddressingMode::AbsoluteX, 4u8)),
        0x79 => Some((Instruction::Adc, AddressingMode::AbsoluteY, 4u8)),
        0x61 => Some((Instruction::Adc, AddressingMode::IndirectX, 6u8)),
        0x71 => Some((Instruction::Adc, AddressingMode::IndirectY, 5u8)),
        0xE9 => Some((Instruction::Sbc, AddressingMode::Immediate, 2u8)),
        0xE5 => Some((Instruction::Sbc, AddressingMode::ZeroPage, 3u8)),
        0xF5 => Some((Instruction::Sbc, AddressingMode::ZeroPageX, 4u8)),
        0xED => Some((Instruction::Sbc, AddressingMode::Absolute, 4u8)),
        0xFD => Some((Instruction::Sbc, AddressingMode::AbsoluteX, 4u8)),
        0xF9 => Some((Instruction::Sbc, AddressingMode::AbsoluteY, 4u8)),
        0xE1 => Some((Instruction::Sbc, AddressingMode::IndirectX, 6u8)),
        0xF1 => Some((Instruction::Sbc, AddressingMode::IndirectY, 5u8)),
        0xC9 => Some((Instruction::Cmp, AddressingMode::Immediate, 2u8)),
        0xC5 => Some((Instruction::Cmp, AddressingMode::ZeroPage, 3u8)),
        0xD5 => Some((Instruction::Cmp, AddressingMode::ZeroPageX, 4u8)),
        0xCD => Some((Instruction::Cmp, AddressingMode::Absolute, 4u8)),
        0xDD => Some((Instruction::Cmp, AddressingMode::AbsoluteX, 4u8)),
        0xD9 => Some((Instruction::Cmp, AddressingMode::AbsoluteY, 4u8)),
        0xC1 => Some((Instruction::Cmp, AddressingMode::IndirectX, 6u8)),
        0xD1 => Some((Instruction::Cmp, AddressingMode::IndirectY, 5u8)),
        0xE0 => Some((Instruction::Cpx, AddressingMode::Immediate, 2u8)),
        0xE4 => Some((Instruction::Cpx, AddressingMode::ZeroPage, 3u8)),
        0xEC => Some((Instruction::Cpx, AddressingMode::Absolute, 4u8)),
        0xC0 => Some((Instruction::Cpy, AddressingMode::Immediate, 2u8)),
        0xC4 => Some((Instruction::Cpy, AddressingMode::ZeroPage, 3u8)),
        0xCC => Some((Instruction::Cpy, AddressingMode::Absolute, 4u8)),
        0x29 => Some((Instruction::And, AddressingMode::Immediate, 2u8)),
        0x25 => Some((Instruction::And, AddressingMode::ZeroPage, 3u8)),
        0x35 => Some((Instruction::And, AddressingMode::ZeroPageX, 4u8)),
        0x2D => Some((Instruction::And, AddressingMode::Absolute, 4u8)),
        0x3D => Some((Instruction::And, AddressingMode::AbsoluteX, 4u8)),
        0x39 => Some((Instruction::And, AddressingMode::AbsoluteY, 4u8)),
        0x21 => Some((Instruction::And, AddressingMode::IndirectX, 6u8)),
        0x31 => Some((Instruction::And, AddressingMode::IndirectY, 5u8)),
        0x09 => Some((Instruction::Ora, AddressingMode::Immediate, 2u8)),
        0x05 => Some((Instruction::Ora, AddressingMode::ZeroPage, 3u8)),
        0x15 => Some((Instruction::Ora, AddressingMode::ZeroPageX, 4u8)),
        0x0D => Some((Instruction::Ora, AddressingMode::Absolute, 4u8)),
        0x1D => Some((Instruction::Ora, AddressingMode::AbsoluteX, 4u8)),
        0x19 => Some((Instruction::Ora, AddressingMode::AbsoluteY, 4u8)),
        0x01 => Some((Instruction::Ora, AddressingMode::IndirectX, 6u8)),
        0x11 => Some((Instruction::Ora, AddressingMode::IndirectY, 5u8)),
        0x49 => Some((Instruction::Eor, AddressingMode::Immediate, 2u8)),
        0x45 => Some((Instruction::Eor, AddressingMode::ZeroPage, 3u8)),
        0x55 => Some((Instruction::Eor, AddressingMode::ZeroPageX, 4u8)),
        0x4D => Some((Instruction::Eor, AddressingMode::Absolute, 4u8)),
        0x5D => Some((Instruction::Eor, AddressingMode::AbsoluteX, 4u8)),
        0x59 => Some((Instruction::Eor, AddressingMode::AbsoluteY, 4u8)),
        0x41 => Some((Instruction::Eor, AddressingMode::IndirectX, 6u8)),
        0x51 => Some((Instruction::Eor, AddressingMode::IndirectY, 5u8)),
        0x24 => Some((Instruction::Bit, AddressingMode::ZeroPage, 3u8)),
        0x2C => Some((Instruction::Bit, AddressingMode::Absolute, 4u8)),
        0x0A => Some((Instruction::Asl, AddressingMode::Accumulator, 2u8)),
        0x06 => Some((Instruction::Asl, AddressingMode::ZeroPage, 5u8)),
        0x16 => Some((Instruction::Asl, AddressingMode::ZeroPageX, 6u8)),
        0x0E => Some((Instruction::Asl, AddressingMode::Absolute, 6u8)),
        0x1E => Some((Instruction::Asl, AddressingMode::AbsoluteX, 7u8)),
        0x4A => Some((Instruction::Lsr, AddressingMode::Accumulator, 2u8)),
        0x46 => Some((Instruction::Lsr, AddressingMode::ZeroPage, 5u8)),
        0x56 => Some((Instruction::Lsr, AddressingMode::ZeroPageX, 6u8)),
        0x4E => Some((Instruction::Lsr, AddressingMode::Absolute, 6u8)),
        0x5E => Some((Instruction::Lsr, AddressingMode::AbsoluteX, 7u8)),
        0x2A => Some((Instruction::Rol, AddressingMode::Accumulator, 2u8)),
        0x26 => Some((Instruction::Rol, AddressingMode::ZeroPage, 5u8)),
        0x36 => Some((Instruction::Rol, AddressingMode::ZeroPageX, 6u8)),
        0x2E => Some((Instruction::Rol, AddressingMode::Absolute, 6u8)),
        0x3E => Some((Instruction::Rol, AddressingMode::AbsoluteX, 7u8)),
        0x6A => Some((Instruction::Ror, AddressingMode::Accumulator, 2u8)),
        0x66 => Some((Instruction::Ror, AddressingMode::ZeroPage, 5u8)),
        0x76 => Some((Instruction::Ror, AddressingMode::ZeroPageX, 6u8)),
        0x6E => Some((Instruction::Ror, AddressingMode::Absolute, 6u8)),
        0x7E => Some((Instruction::Ror, AddressingMode::AbsoluteX, 7u8)),
        0xE6 => Some((Instruction::Inc, AddressingMode::ZeroPage, 5u8)),
        0xF6 => Some((Instruction::Inc, AddressingMode::ZeroPageX, 6u8)),
        0xEE => Some((Instruction::Inc, AddressingMode::Absolute, 6u8)),
        0xFE => Some((Instruction::Inc, AddressingMode::AbsoluteX, 7u8)),
        0xC6 => Some((Instruction::Dec, AddressingMode::ZeroPage, 5u8)),
        0xD6 => Some((Instruction::Dec, AddressingMode::ZeroPageX, 6u8)),
        0xCE => Some((Instruction::Dec, AddressingMode::Absolute, 6u8)),
        0xDE => Some((Instruction::Dec, AddressingMode::AbsoluteX, 7u8)),
        0xE8 => Some((Instruction::Inx, AddressingMode::Implicit, 2u8)),
        0xC8 => Some((Instruction::Iny, AddressingMode::Implicit, 2u8)),
        0xCA => Some((Instruction::Dex, AddressingMode::Implicit, 2u8)),
        0x88 => Some((Instruction::Dey, AddressingMode::Implicit, 2u8)),
        0xAA => Some((Instruction::Tax, AddressingMode::Implicit, 2u8)),
        0xA8 => Some((Instruction::Tay, AddressingMode::Implicit, 2u8)),
        0x8A => Some((Instruction::Txa, AddressingMode::Implicit, 2u8)),
        0x98 => Some((Instruction::Tya, AddressingMode::Implicit, 2u8)),
        0xBA => Some((Instruction::Tsx, AddressingMode::Implicit, 2u8)),
        0x9A => Some((Instruction::Txs, AddressingMode::Implicit, 2u8)),
        0x90 => Some((Instruction::Bcc, AddressingMode::Relative, 2u8)),
        0xB0 => Some((Instruction::Bcs, AddressingMode::Relative, 2u8)),
        0xF0 => Some((Instruction::Beq, AddressingMode::Relative, 2u8)),
        0xD0 => Some((Instruction::Bne, AddressingMode::Relative, 2u8)),
        0x30 => Some((Instruction::Bmi, AddressingMode::Relative, 2u8)),
        0x10 => Some((Instruction::Bpl, AddressingMode::Relative, 2u8)),
        0x50 => Some((Instruction::Bvc, AddressingMode::Relative, 2u8)),
        0x70 => Some((Instruction::Bvs, AddressingMode::Relative, 2u8)),
        0x4C => Some((Instruction::Jmp, AddressingMode::Absolute, 3u8)),
        0x6C => Some((Instruction::Jmp, AddressingMode::Indirect, 5u8)),
        0x20 => Some((Instruction::Jsr, AddressingMode::Absolute, 6u8)),
        0x60 => Some((Instruction::Rts, AddressingMode::Implicit, 6u8)),
        0x40 => Some((Instruction::Rti, AddressingMode::Implicit, 6u8)),
        0x48 => Some((Instruction::Pha, AddressingMode::Implicit, 3u8)),
        0x08 => Some((Instruction::Php, AddressingMode::Implicit, 3u8)),
        0x68 => Some((Instruction::Pla, AddressingMode::Implicit, 4u8)),
        0x28 => Some((Instruction::Plp, AddressingMode::Implicit, 4u8)),
        0x18 => Some((Instruction::Clc, AddressingMode::Implicit, 2u8)),
        0x38 => Some((Instruction::Sec, AddressingMode::Implicit, 2u8)),
        0x58 => Some((Instruction::Cli, AddressingMode::Implicit, 2u8)),
        0x78 => Some((Instruction::Sei, AddressingMode::Implicit, 2u8)),
        0xD8 => Some((Instruction::Cld, AddressingMode::Implicit, 2u8)),
        0xF8 => Some((Instruction::Sed, AddressingMode::Implicit, 2u8)),
        0xB8 => Some((Instruction::Clv, AddressingMode::Implicit, 2u8)),
        0x00 => Some((Instruction::Brk, AddressingMode::Implicit, 7u8)),
        0xEA => Some((Instruction::Nop, AddressingMode::Implicit, 2u8)),
        _ => None,
    }
}

proof fn lemma_stack_addr(sp: u8)
    ensures
        0x0100 <= stack_addr(sp) <= 0x01FF,
{
    assert(0x0100 <= 0x0100 | (sp as u16) <= 0x01FF) by (bit_vector);
}

proof fn lemma_word_split(v: u16)
    by (bit_vector)
    ensures
        word(v as u8, (v >> 8u16) as u8) == v,
{
}

proof fn lemma_stack_addr_distinct(a: u8, b: u8)
    requires
        a != b,
    ensures
        stack_addr(a) != stack_addr(b),
        stack_addr(a) % 0x800 != stack_addr(b) % 0x800,
{
    assert(a != b ==> (0x0100 | (a as u16)) != (0x0100 | (b as u16))) by (bit_vector);
    lemma_stack_addr(a);
    lemma_stack_addr(b);
}

/// Pulling right after a push gives the pushed byte back and restores the stack pointer
/// and every other register.
pub proof fn lemma_push_pull(m: Machine, v: u8)
    requires
        m.bus.inv(),
    ensures
        m.push(v).pull().1 == v,
        m.push(v).pull().0.cpu == m.cpu,
        m.push(v).pull().0.bus == m.push(v).bus,
        m.push(v).pull().0.ok == m.ok,
{
    let a = stack_addr(m.cpu.sp);
    lemma_stack_addr(m.cpu.sp);
    crate::bus::lemma_ram_access_ok(m.bus, a, v);
    crate::bus::lemma_ram_access_ok(m.bus.write(a, v), a, v);
    crate::bus::lemma_ram_read_after_write(m.bus, a, a, v);
    assert(m.cpu.sp.wrapping_sub(1).wrapping_add(1) == m.cpu.sp);
}

/// Pulling a word right after pushing it gives the word back and restores the stack
/// pointer and every other register.
pub proof fn lemma_push16_pull16(m: Machine, v: u16)
    requires
        m.bus.inv(),
    ensures
        m.push16(v).pull16().1 == v,
        m.push16(v).pull16().0.cpu == m.cpu,
        m.push16(v).pull16().0.ok == m.ok,
{
    let hi = (v >> 8u16) as u8;
    let lo = v as u8;
    let sp0 = m.cpu.sp;
    let sp1 = sp0.wrapping_sub(1);
    let a0 = stack_addr(sp0);
    let a1 = stack_addr(sp1);
    lemma_stack_addr(sp0);
    lemma_stack_addr(sp1);
    lemma_stack_addr_distinct(sp0, sp1);
    let m1 = m.push(hi);
    crate::bus::lemma_ram_access_ok(m.bus, a0, hi);
    crate::bus::lemma_ram_access_ok(m1.bus, a1, lo);
    let m2 = m1.push(lo);
    crate::bus::lemma_ram_write_keeps_inv(m.bus, a0, hi);
    crate::bus::lemma_ram_write_keeps_inv(m1.bus, a1, lo);
    // first pull reads the low byte at a1
    crate::bus::lemma_ram_read_after_write(m1.bus, a1, a1, lo);
    crate::bus::lemma_ram_access_ok(m2.bus, a1, 0);
    let (p1, x1) = m2.pull();
    assert(x1 == lo);
    assert(p1.bus == m2.bus);
    // second pull reads the high byte at a0
    crate::bus::lemma_ram_read_after_write(m.bus, a0, a0, hi);
    crate::bus::lemma_ram_write_keeps_others(m1.bus, a1, a0, lo);
    crate::bus::lemma_ram_mirrors(m2.bus, a0);
    crate::bus::lemma_ram_mirrors(m1.bus, a0);
    crate::bus::lemma_ram_access_ok(p1.bus, a0, 0);
    let (p2, x2) = p1.pull();
    assert(sp1.wrapping_add(1) == sp0);
    assert(x2 == hi);
    lemma_word_split(v);
}

proof fn lemma_pull16_ignores_pc(m: Machine, pc: u16)
    ensures
        m.with_pc(pc).pull16().1 == m.pull16().1,
        m.with_pc(pc).pull16().0.cpu.sp == m.pull16().0.cpu.sp,
{
}

proof fn lemma_jsr_effect(m: Machine, mode: AddressingMode, c: u8)
    ensures
        m.control_op(Instruction::Jsr, mode, c) == (
            m.fetch16().0.push16(m.fetch16().0.cpu.pc.wrapping_sub(1)).with_pc(m.fetch16().1),
            c,
        ),
{
}

proof fn lemma_rts_effect(m: Machine, mode: AddressingMode, c: u8)
    ensures
        m.control_op(Instruction::Rts, mode, c) == (
            m.pull16().0.with_pc(m.pull16().1.wrapping_add(1)),
            c,
        ),
{
}

/// JSR followed by RTS returns to the instruction after the JSR (its opcode and two
/// operand bytes), with the stack pointer as before.
#[verifier::spinoff_prover]
pub proof fn lemma_jsr_rts(m: Machine, jsr_mode: AddressingMode, rts_mode: AddressingMode, c1: u8, c2: u8)
    requires
        m.bus.inv(),
    ensures
        ({
            let (m1, _) = m.control_op(Instruction::Jsr, jsr_mode, c1);
            let (m2, _) = m1.control_op(Instruction::Rts, rts_mode, c2);
            &&& m2.cpu.pc == m.cpu.pc.wrapping_add(2)
            &&& m2.cpu.sp == m.cpu.sp
        }),
{
    let f = m.fetch16();
    let f2 = f.0;
    assert(f2.cpu.pc == m.cpu.pc.wrapping_add(1).wrapping_add(1));
    assert(f2.bus.inv()) by {
        crate::bus::lemma_read_keeps_inv(m.bus, m.cpu.pc);
        crate::bus::lemma_read_keeps_inv(m.fetch().0.bus, m.fetch().0.cpu.pc);
    }
    let ret = f2.cpu.pc.wrapping_sub(1);
    let pushed = f2.push16(ret);
    lemma_jsr_effect(m, jsr_mode, c1);
    let m1 = pushed.with_pc(f.1);
    lemma_push16_pull16(f2, ret);
    lemma_pull16_ignores_pc(pushed, f.1);
    lemma_rts_effect(m1, rts_mode, c2);
    assert(m.cpu.pc.wrapping_add(1).wrapping_add(1).wrapping_sub(1).wrapping_add(1) == m.cpu.pc.wrapping_add(2));
}

proof fn lemma_pull_ram(m: Machine, sp: u8)
    requires
        m.cpu.sp.wrapping_add(1) == sp,
    ensures
        m.pull().1 == m.bus.ram[(stack_addr(sp) % 0x800) as int],
        m.pull().0.bus == m.bus,
        m.pull().0.cpu == (Cpu { sp, ..m.cpu }),
        m.pull().0.ok == m.ok,
{
    lemma_stack_addr(sp);
    crate::bus::lemma_ram_mirrors(m.bus, stack_addr(sp));
    crate::bus::lemma_ram_access_ok(m.bus, stack_addr(sp), 0);
}

/// Returning from an interrupt with RTI resumes where the interrupt struck: the program
/// counter and stack pointer are restored, and the status is the one the interrupt
/// pushed, with B clear and the unused bit set.
pub proof fn lemma_interrupt_rti(m: Machine, vector: u16, pushed_status: u8, mode: AddressingMode, c: u8)
    requires
        m.bus.inv(),
    ensures
        ({
            let (r, _) = m.interrupt(vector, pushed_status).control_op(Instruction::Rti, mode, c);
            &&& r.cpu.pc == m.cpu.pc
            &&& r.cpu.sp == m.cpu.sp
            &&& r.cpu.status == (pushed_status & !BREAK) | UNUSED
        }),
{
    let sp0 = m.cpu.sp;
    let sp1 = sp0.wrapping_sub(1);
    let sp2 = sp1.wrapping_sub(1);
    let a0 = stack_addr(sp0);
    let a1 = stack_addr(sp1);
    let a2 = stack_addr(sp2);
    lemma_stack_addr(sp0);
    lemma_stack_addr(sp1);
    lemma_stack_addr(sp2);
    lemma_stack_addr_distinct(sp0, sp1);
    lemma_stack_addr_distinct(sp1, sp2);
    lemma_stack_addr_distinct(sp0, sp2);
    let pc = m.cpu.pc;
    let hi = (pc >> 8u16) as u8;
    let lo = pc as u8;
    let p1 = m.push(hi);
    crate::bus::lemma_ram_write_updates(m.bus, a0, hi);
    let p2 = p1.push(lo);
    crate::bus::lemma_ram_write_updates(p1.bus, a1, lo);
    let p3 = p2.push(pushed_status);
    crate::bus::lemma_ram_write_updates(p2.bus, a2, pushed_status);
    let ram = p3.bus.ram;
    assert(ram[(a0 % 0x800) as int] == hi);
    assert(ram[(a1 % 0x800) as int] == lo);
    assert(ram[(a2 % 0x800) as int] == pushed_status);
    let q = p3.with_cpu(p3.cpu.with_flag(INTERRUPT_DISABLE, true));
    let (q1, vlo) = q.read(vector);
    crate::bus::lemma_read_keeps_ram(q.bus, vector);
    let (q2, vhi) = q1.read((vector + 1) as u16);
    crate::bus::lemma_read_keeps_ram(q1.bus, (vector + 1) as u16);
    let i = q2.with_pc(word(vlo, vhi));
    assert(m.interrupt(vector, pushed_status) == i);
    assert(i.bus.ram == ram);
    assert(sp2.wrapping_sub(1).wrapping_add(1) == sp2);
    assert(sp2.wrapping_add(1) == sp1);
    assert(sp1.wrapping_add(1) == sp0);
    lemma_pull_ram(i, sp2);
    let (r1, s) = i.pull();
    let r2 = r1.with_cpu(Cpu { status: (s & !BREAK) | UNUSED, ..r1.cpu });
    lemma_pull_ram(r2, sp1);
    let (r3, x) = r2.pull();
    lemma_pull_ram(r3, sp0);
    let (r4, y) = r3.pull();
    lemma_word_split(pc);
    assert(r2.pull16() == (r4, word(x, y)));
}

proof fn lemma_flag_bits()
    by (bit_vector)
    ensures
        forall|s: u8, f: u8, g: u8| f & g == 0 ==> #[trigger] ((s | f) & g) == s & g,
        forall|s: u8, f: u8, g: u8| f & g == 0 ==> #[trigger] ((s & !f) & g) == s & g,
        forall|s: u8, f: u8| f != 0 ==> #[trigger] ((s | f) & f) != 0,
        forall|s: u8, f: u8| #[trigger] ((s & !f) & f) == 0,
{
}

proof fn lemma_adc_overflow(a: u8, m: u8, c: u16)
    by (bit_vector)
    requires
        c <= 1,
    ensures
        ((!((a as u16) ^ (m as u16)) & ((a as u16) ^ ((a as u16 + m as u16 + c) as u16))) & 0x80 != 0) == ((a
            ^ (((a as u16 + m as u16 + c) as u16) as u8)) & (m ^ (((a as u16 + m as u16 + c) as u16) as u8))
            & 0x80 != 0),
        ((a as u16 + m as u16 + c) as u16) as u8 == (a as u16 + m as u16 + c) % 256,
        ((a as u16 + m as u16 + c) as u16) == a as u16 + m as u16 + c,
{
}

/// Add with carry: A becomes A + M + C modulo 256; C tells whether the sum exceeded
/// $FF, Z whether the result is 0, N its bit 7, and V whether A and M had the same
/// sign and the result another; I, D, B and the unused bit, and every other register,
/// are kept.
pub proof fn lemma_adc(cpu: Cpu, m: u8)
    ensures
        ({
            let s = cpu.a + m + (cpu.status & 0x01);
            let r = cpu.adc_spec(m);
            &&& r.a == s % 256
            &&& (r.status & 0x01 != 0) == (s > 0xFF)
            &&& (r.status & 0x02 != 0) == (r.a == 0)
            &&& (r.status & 0x80 != 0) == (r.a & 0x80 != 0)
            &&& (r.status & 0x40 != 0) == ((cpu.a ^ r.a) & (m ^ r.a) & 0x80 != 0)
            &&& r.status & 0x3C == cpu.status & 0x3C
            &&& r.x == cpu.x && r.y == cpu.y && r.sp == cpu.sp && r.pc == cpu.pc && r.cycles == cpu.cycles
        }),
{
    lemma_flag_bits();
    let c: u16 = if cpu.flag(CARRY) { 1 } else { 0 };
    let st = cpu.status;
    assert((st & 0x01 != 0) ==> st & 0x01 == 1) by (bit_vector);
    lemma_adc_overflow(cpu.a, m, c);
    let sum = (cpu.a as u16 + m as u16 + c) as u16;
    let s1 = cpu.with_flag(CARRY, sum > 0xFF);
    let s2 = s1.with_flag(ZERO, (sum as u8) == 0);
    let s3 = s2.with_flag(OVERFLOW, (!((cpu.a as u16) ^ (m as u16)) & ((cpu.a as u16) ^ sum)) & 0x80 != 0);
    let s4 = s3.with_flag(NEGATIVE, (sum as u8) & 0x80 != 0);
    assert(0x01u8 & 0x02u8 == 0 && 0x01u8 & 0x40u8 == 0 && 0x01u8 & 0x80u8 == 0 && 0x02u8 & 0x40u8 == 0
        && 0x02u8 & 0x80u8 == 0 && 0x40u8 & 0x80u8 == 0 && 0x01u8 & 0x3Cu8 == 0 && 0x02u8 & 0x3Cu8 == 0
        && 0x40u8 & 0x3Cu8 == 0 && 0x80u8 & 0x3Cu8 == 0 && 0x02u8 & 0x01u8 == 0 && 0x40u8 & 0x01u8 == 0
        && 0x80u8 & 0x01u8 == 0 && 0x40u8 & 0x02u8 == 0 && 0x80u8 & 0x02u8 == 0 && 0x80u8 & 0x40u8 == 0) by (bit_vector);
}

/// Compare (CMP, CPX, CPY): C tells whether the compared register is at least the
/// operand as unsigned bytes, Z whether the two are equal, and N is bit 7 of their
/// difference modulo 256; so comparing equal values sets both C and Z. V, I, D, B and
/// the unused bit, and every register, are kept.
pub proof fn lemma_compare(cpu: Cpu, ins: Instruction, m: u8)
    requires
        ins == Instruction::Cmp || ins == Instruction::Cpx || ins == Instruction::Cpy,
    ensures
        ({
            let reg = if ins == Instruction::Cmp {
                cpu.a
            } else if ins == Instruction::Cpx {
                cpu.x
            } else {
                cpu.y
            };
            let r = cpu.operate_spec(ins, m);
            &&& (r.status & 0x01 != 0) == (reg >= m)
            &&& (r.status & 0x02 != 0) == (reg == m)
            &&& (r.status & 0x80 != 0) == ((reg - m) % 256 >= 128)
            &&& r.status & 0x7C == cpu.status & 0x7C
            &&& r.a == cpu.a && r.x == cpu.x && r.y == cpu.y && r.sp == cpu.sp && r.pc == cpu.pc
            &&& r.cycles == cpu.cycles
        }),
        cpu.a == m ==> cpu.operate_spec(Instruction::Cmp, m).status & 0x03 == 0x03,
{
    lemma_flag_bits();
    let reg = if ins == Instruction::Cmp {
        cpu.a
    } else if ins == Instruction::Cpx {
        cpu.x
    } else {
        cpu.y
    };
    let d = reg.wrapping_sub(m);
    assert(d as int == (reg - m) % 256);
    let s = cpu.operate_spec(Instruction::Cmp, m).status;
    assert((d & 0x80 != 0) == (d >= 128) && ((s & 0x01 != 0 && s & 0x02 != 0) ==> s & 0x03 == 0x03)
        && 0x01u8 & 0x02u8 == 0 && 0x01u8 & 0x80u8 == 0 && 0x02u8 & 0x80u8 == 0 && 0x02u8 & 0x01u8 == 0
        && 0x80u8 & 0x01u8 == 0 && 0x80u8 & 0x02u8 == 0 && 0x01u8 & 0x7Cu8 == 0 && 0x02u8 & 0x7Cu8 == 0
        && 0x80u8 & 0x7Cu8 == 0) by (bit_vector);
}

/// Subtract with borrow: A becomes A - M - (1 - C) modulo 256; C is set when no borrow
/// was needed (the difference is not negative), Z and N follow the result, and V tells
/// whether A and M had different signs and the result's sign differs from A's. I, D, B
/// and the unused bit, and every other register, are kept.
pub proof fn lemma_sbc(cpu: Cpu, m: u8)
    ensures
        ({
            let s = cpu.a - m - (1 - (cpu.status & 0x01));
            let r = cpu.operate_spec(Instruction::Sbc, m);
            &&& r.a == s % 256
            &&& (r.status & 0x01 != 0) == (s >= 0)
            &&& (r.status & 0x02 != 0) == (r.a == 0)
            &&& (r.status & 0x80 != 0) == (r.a >= 128)
            &&& (r.status & 0x40 != 0) == ((cpu.a ^ m) & (cpu.a ^ r.a) & 0x80 != 0)
            &&& r.status & 0x3C == cpu.status & 0x3C
            &&& r.x == cpu.x && r.y == cpu.y && r.sp == cpu.sp && r.pc == cpu.pc && r.cycles == cpu.cycles
        }),
{
    lemma_adc(cpu, !m);
    let nm = !m;
    let ra = cpu.adc_spec(nm).a;
    let a = cpu.a;
    let st = cpu.status;
    assert(nm == 255 - m && (((a ^ ra) & (nm ^ ra) & 0x80 != 0) == ((a ^ m) & (a ^ ra) & 0x80 != 0)) && ((ra
        & 0x80 != 0) == (ra >= 128)) && st & 0x01 <= 1) by (bit_vector)
        requires
            nm == !m,
    ;
}

/// Shifts and rotates of a byte `v` with carry `c`: ASL gives 2v modulo 256 and LSR
/// v / 2; ROL gives 2v + c modulo 256 and ROR v / 2 + 128c. ASL and ROL shift bit 7 out
/// into the carry, LSR and ROR bit 0.
pub proof fn lemma_shifts(v: u8, c: bool)
    ensures
        ({
            let ci: int = if c { 1 } else { 0 };
            let asl = Cpu::shift_value(Instruction::Asl, v, c);
            let lsr = Cpu::shift_value(Instruction::Lsr, v, c);
            let rol = Cpu::shift_value(Instruction::Rol, v, c);
            let ror = Cpu::shift_value(Instruction::Ror, v, c);
            &&& asl.0 == (2 * v) % 256 && asl.1 == (v >= 128)
            &&& lsr.0 == v / 2 && lsr.1 == (v % 2 == 1)
            &&& rol.0 == (2 * v + ci) % 256 && rol.1 == (v >= 128)
            &&& ror.0 == v / 2 + 128 * ci && ror.1 == (v % 2 == 1)
        }),
{
    let c8: u8 = if c { 1 } else { 0 };
    assert((v << 1u8) == (2 * v) % 256 && (v >> 1u8) == v / 2 && ((v << 1u8) | c8) == (2 * v + c8) % 256
        && ((v >> 1u8) | (c8 << 7u8)) == v / 2 + 128 * c8 && (v & 0x80 != 0) == (v >= 128) && (v & 0x01 != 0)
        == (v % 2 == 1)) by (bit_vector)
        requires
            c8 <= 1,
    ;
}

proof fn lemma_byte_word_bits()
    by (bit_vector)
    ensures
        forall|off: u8| #[trigger] ((off as u16) | 0xFF00) == (off as u16) + 0xFF00,
        forall|a: u16, b: u16| #![trigger a & 0xFF00, b & 0xFF00] ((a & 0xFF00) != (b & 0xFF00)) == (a / 256 != b / 256),
        forall|lo: u8, hi: u8| #[trigger] word(lo, hi) == lo + 256 * hi,
        forall|v: u8| (#[trigger] (v & 0x80) != 0) == (v >= 128),
        0x02u8 & 0x80u8 == 0 && 0x80u8 & 0x02u8 == 0 && 0x40u8 & 0x02u8 == 0 && 0x02u8 & 0x40u8 == 0
            && 0x40u8 & 0x80u8 == 0 && 0x80u8 & 0x40u8 == 0 && 0x02u8 & 0x7Du8 == 0 && 0x80u8 & 0x7Du8 == 0
            && 0x02u8 & 0x3Du8 == 0 && 0x80u8 & 0x3Du8 == 0 && 0x40u8 & 0x3Du8 == 0,
        forall|a: u16| #[trigger] ((a & 0xFF00) | ((((a + 1) % 0x10000) as u16) & 0x00FF)) == (a / 256) * 256 + (a
            + 1) % 256,
{
}

/// A branch fetches its offset byte; when taken, PC moves from the byte after the offset
/// by the offset read as a signed byte (-128 to 127), modulo 65536, at the cost of one
/// extra cycle, or two when the target lies on another page. An untaken branch only
/// steps over the offset and costs nothing extra.
pub proof fn lemma_branch_target(m: Machine)
    ensures
        ({
            let (m1, off) = m.fetch();
            let d: int = if off < 128 { off as int } else { off - 256 };
            let target = (m1.cpu.pc + d) % 65536;
            &&& m1.cpu.pc == (m.cpu.pc + 1) % 65536
            &&& m.branch(true).0 == m1.with_pc(target as u16)
            &&& m.branch(true).1 == if m1.cpu.pc / 256 == target / 256 { 1u8 } else { 2u8 }
            &&& m.branch(false) == (m1, 0u8)
        }),
{
    let (m1, off) = m.fetch();
    let p = m1.cpu.pc;
    let e = sign_extend(off);
    let q = p.wrapping_add(e);
    lemma_byte_word_bits();
}

/// Effective addresses. Zero-page indexing wraps within page zero; absolute indexing
/// wraps at 64 KB and reports a page crossing when the indexed address lies on another
/// page than the base. (zp,X) reads its pointer from page zero at zp + X and the byte
/// after it, both modulo 256; (zp),Y reads its pointer at zp and zp + 1 modulo 256 and
/// adds Y. JMP's indirect pointer takes its high byte from the same page as its low byte,
/// so a pointer at $xxFF reads its high byte from $xx00.
#[verifier::rlimit(60)]
pub proof fn lemma_addressing(m: Machine)
    ensures
        ({
            let (m1, b) = m.fetch();
            let (m2, base) = m.fetch16();
            let x = m.cpu.x;
            let y = m.cpu.y;
            let ax = m.resolve(AddressingMode::AbsoluteX);
            let ay = m.resolve(AddressingMode::AbsoluteY);
            let px = (b + x) % 256;
            let (m3, lo) = m1.read(px as u16);
            let (m4, hi) = m3.read(((px + 1) % 256) as u16);
            let (n3, lo2) = m1.read(b as u16);
            let (n4, hi2) = n3.read(((b + 1) % 256) as u16);
            let zbase = lo2 + 256 * hi2;
            let (k3, lo3) = m2.read(base);
            let (k4, hi3) = k3.read(((base / 256) * 256 + (base + 1) % 256) as u16);
            let iy = m.resolve(AddressingMode::IndirectY);
            &&& m.resolve(AddressingMode::ZeroPageX) == (m1, ((b + x) % 256) as u16, false)
            &&& m.resolve(AddressingMode::ZeroPageY) == (m1, ((b + y) % 256) as u16, false)
            &&& ax.0 == m2 && ax.1 == (base + x) % 65536 && ax.2 == (base / 256 != ax.1 / 256)
            &&& ay.0 == m2 && ay.1 == (base + y) % 65536 && ay.2 == (base / 256 != ay.1 / 256)
            &&& m.resolve(AddressingMode::IndirectX) == (m4, (lo + 256 * hi) as u16, false)
            &&& iy.0 == n4 && iy.1 == (zbase + y) % 65536 && iy.2 == (zbase / 256 != iy.1 / 256)
            &&& m.resolve(AddressingMode::Indirect) == (k4, (lo3 + 256 * hi3) as u16, false)
        }),
{
    let (m1, b) = m.fetch();
    let (m2, base) = m.fetch16();
    let x = m.cpu.x;
    let y = m.cpu.y;
    let px = b.wrapping_add(x);
    let (m3, lo) = m1.read(px as u16);
    let (m4, hi) = m3.read(px.wrapping_add(1) as u16);
    let (n3, lo2) = m1.read(b as u16);
    let (n4, hi2) = n3.read(b.wrapping_add(1) as u16);
    let zb = word(lo2, hi2);
    let (k3, lo3) = m2.read(base);
    let q = base.wrapping_add(1);
    let ax = base.wrapping_add(x as u16);
    let ay = base.wrapping_add(y as u16);
    let az = zb.wrapping_add(y as u16);
    let (k4, hi3) = k3.read(((base / 256) * 256 + (base + 1) % 256) as u16);
    lemma_byte_word_bits();
    assert(q == (base + 1) % 65536);
}

/// Loads and logic set Z and N from their result: LDA, LDX and LDY load M into their
/// register, AND, ORA and EOR combine it into A; Z tells whether the result is 0 and N
/// whether it is at least $80, and C, I, D, B, V and the unused bit are kept. BIT leaves
/// every register alone: Z tells whether A AND M is 0, N whether M is at least $80, and V
/// copies bit 6 of M.
pub proof fn lemma_load_logic(cpu: Cpu, ins: Instruction, m: u8)
    requires
        ins == Instruction::Lda || ins == Instruction::Ldx || ins == Instruction::Ldy || ins == Instruction::And
            || ins == Instruction::Ora || ins == Instruction::Eor,
    ensures
        ({
            let r = cpu.operate_spec(ins, m);
            let res = if ins == Instruction::And {
                cpu.a & m
            } else if ins == Instruction::Ora {
                cpu.a | m
            } else if ins == Instruction::Eor {
                cpu.a ^ m
            } else {
                m
            };
            &&& ins == Instruction::Ldx ==> r.x == res && r.a == cpu.a && r.y == cpu.y
            &&& ins == Instruction::Ldy ==> r.y == res && r.a == cpu.a && r.x == cpu.x
            &&& ins != Instruction::Ldx && ins != Instruction::Ldy ==> r.a == res && r.x == cpu.x && r.y == cpu.y
            &&& (r.status & 0x02 != 0) == (res == 0)
            &&& (r.status & 0x80 != 0) == (res >= 128)
            &&& r.status & 0x7D == cpu.status & 0x7D
            &&& r.sp == cpu.sp && r.pc == cpu.pc && r.cycles == cpu.cycles
        }),
        ({
            let r = cpu.operate_spec(Instruction::Bit, m);
            &&& (r.status & 0x02 != 0) == (cpu.a & m == 0)
            &&& (r.status & 0x80 != 0) == (m >= 128)
            &&& (r.status & 0x40 != 0) == (m & 0x40 != 0)
            &&& r.status & 0x3D == cpu.status & 0x3D
            &&& r.a == cpu.a && r.x == cpu.x && r.y == cpu.y && r.sp == cpu.sp && r.pc == cpu.pc
            &&& r.cycles == cpu.cycles
        }),
{
    lemma_flag_bits();
    lemma_byte_word_bits();
}

impl Cpu {
    /// Power-up registers: A = X = Y = 0, SP = $FD, PC = 0, status I|U, no cycles run.
    pub open spec fn power_on() -> Cpu {
        Cpu { a: 0, x: 0, y: 0, sp: 0xFD, pc: 0, status: UNUSED | INTERRUPT_DISABLE, cycles: 0 }
    }

    /// A CPU in its power-up state.
    pub fn new() -> (r: Self)
        ensures
            r == Cpu::power_on(),
    {
        Self { a: 0, x: 0, y: 0, sp: 0xFD, pc: 0, status: UNUSED | INTERRUPT_DISABLE, cycles: 0 }
    }

    /// Resets the registers and loads PC from the reset vector (see `Machine::reset`).
    pub fn reset(&mut self, bus: &mut Bus)
        requires
            old(bus)@.inv(),
            machine(*old(self), old(bus)@).reset().ok,
        ensures
            final(bus)@.inv(),
            machine(*final(self), final(bus)@) == machine(*old(self), old(bus)@).reset(),
    {
        proof {
            reveal(Machine::reset);
        }
        self.a = 0;
        self.x = 0;
        self.y = 0;
        self.sp = 0xFD;
        self.status = UNUSED | INTERRUPT_DISABLE;
        let lo = bus.read(0xFFFC) as u16;
        let hi = bus.read(0xFFFD) as u16;
        self.pc = (hi << 8u16) | lo;
        self.cycles = 7;
    }

    /// Whether a status flag is set.
    pub fn get_flag(&self, flag: u8) -> (r: bool)
        ensures
            r == self.flag(flag),
    {
        self.status & flag != 0
    }

    /// Sets or clears a status flag.
    pub fn set_flag(&mut self, flag: u8, value: bool)
        ensures
            *final(self) == old(self).with_flag(flag, value),
    {
        if value {
            self.status = self.status | flag;
        } else {
            self.status = self.status & !flag;
        }
    }

    /// Sets Z and N from a result.
    pub fn update_zero_and_negative(&mut self, value: u8)
        ensures
            *final(self) == old(self).with_zn(value),
    {
        self.set_flag(ZERO, value == 0);
        self.set_flag(NEGATIVE, value & 0x80 != 0);
    }

    /// Pushes a byte onto the stack in page one.
    pub fn push(&mut self, bus: &mut Bus, data: u8)
        requires
            old(bus)@.inv(),
        ensures
            final(bus)@.inv(),
            machine(*final(self), final(bus)@) == machine(*old(self), old(bus)@).push(data),
    {
        proof {
            lemma_stack_addr(self.sp);
            crate::bus::lemma_ram_access_ok(bus@, stack_addr(self.sp), data);
        }
        bus.write(0x0100 | self.sp as u16, data);
        self.sp = self.sp.wrapping_sub(1);
    }

    /// Pulls a byte from the stack in page one.
    pub fn pull(&mut self, bus: &mut Bus) -> (r: u8)
        requires
            old(bus)@.inv(),
        ensures
            final(bus)@.inv(),
            (machine(*final(self), final(bus)@), r) == machine(*old(self), old(bus)@).pull(),
    {
        self.sp = self.sp.wrapping_add(1);
        proof {
            lemma_stack_addr(self.sp);
            crate::bus::lemma_ram_access_ok(bus@, stack_addr(self.sp), 0);
        }
        bus.read(0x0100 | self.sp as u16)
    }

    /// Pushes a word, high byte first.
    pub fn push16(&mut self, bus: &mut Bus, data: u16)
        requires
            old(bus)@.inv(),
        ensures
            final(bus)@.inv(),
            machine(*final(self), final(bus)@) == machine(*old(self), old(bus)@).push16(data),
    {
        self.push(bus, (data >> 8u16) as u8);
        self.push(bus, data as u8);
    }

    /// Pulls a word, low byte first.
    pub fn pull16(&mut self, bus: &mut Bus) -> (r: u16)
        requires
            old(bus)@.inv(),
        ensures
            final(bus)@.inv(),
            (machine(*final(self), final(bus)@), r) == machine(*old(self), old(bus)@).pull16(),
    {
        let lo = self.pull(bus) as u16;
        let hi = self.pull(bus) as u16;
        (hi << 8u16) | lo
    }

    /// Reads the byte at PC and advances PC.
    fn fetch(&mut self, bus: &mut Bus) -> (r: u8)
        requires
            old(bus)@.inv(),
            machine(*old(self), old(bus)@).fetch().0.ok,
        ensures
            final(bus)@.inv(),
            (machine(*final(self), final(bus)@), r) == machine(*old(self), old(bus)@).fetch(),
    {
        let data = bus.read(self.pc);
        self.pc = self.pc.wrapping_add(1);
        data
    }

    /// Reads the little-endian word at PC and advances PC by two.
    fn fetch16(&mut self, bus: &mut Bus) -> (r: u16)
        requires
            old(bus)@.inv(),
            machine(*old(self), old(bus)@).fetch16().0.ok,
        ensures
            final(bus)@.inv(),
            (machine(*final(self), final(bus)@), r) == machine(*old(self), old(bus)@).fetch16(),
    {
        let lo = self.fetch(bus) as u16;
        let hi = self.fetch(bus) as u16;
        (hi << 8u16) | lo
    }

    /// Reads a word at `addr` with the high byte taken from the same page.
    fn read16_wrap(&self, bus: &mut Bus, addr: u16) -> (r: u16)
        requires
            old(bus)@.inv(),
            machine(*self, old(bus)@).read16_wrap(addr).0.ok,
        ensures
            final(bus)@.inv(),
            (machine(*self, final(bus)@), r) == machine(*self, old(bus)@).read16_wrap(addr),
    {
        let lo = bus.read(addr) as u16;
        let hi_addr = (addr & 0xFF00) | (addr.wrapping_add(1) & 0x00FF);
        let hi = bus.read(hi_addr) as u16;
        (hi << 8u16) | lo
    }

    /// Add with carry into A.
    fn adc(&mut self, operand: u8)
        ensures
            *final(self) == old(self).adc_spec(operand),
    {
        let a = self.a as u16;
        let m = operand as u16;
        let c: u16 = if self.get_flag(CARRY) { 1 } else { 0 };
        let sum = a + m + c;
        let result = sum as u8;
        self.set_flag(CARRY, sum > 0xFF);
        self.set_flag(ZERO, result == 0);
        self.set_flag(OVERFLOW, (!(a ^ m) & (a ^ sum)) & 0x80 != 0);
        self.set_flag(NEGATIVE, result & 0x80 != 0);
        self.a = result;
    }

    /// Compares a register with an operand.
    fn compare(&mut self, reg: u8, operand: u8)
        ensures
            *final(self) == old(self).compare_spec(reg, operand),
    {
        let result = reg.wrapping_sub(operand);
        self.set_flag(CARRY, reg >= operand);
        self.set_flag(ZERO, reg == operand);
        self.set_flag(NEGATIVE, result & 0x80 != 0);
    }

    /// Fetches a branch offset and branches when `condition` holds; returns the extra cycles.
    fn branch(&mut self, bus: &mut Bus, condition: bool) -> (r: u8)
        requires
            old(bus)@.inv(),
            machine(*old(self), old(bus)@).branch(condition).0.ok,
        ensures
            final(bus)@.inv(),
            (machine(*final(self), final(bus)@), r) == machine(*old(self), old(bus)@).branch(condition),
    {
        let offset = self.fetch(bus);
        if condition {
            let old_pc = self.pc;
            let delta: u16 = if offset < 128 { offset as u16 } else { (offset as u16) | 0xFF00 };
            self.pc = self.pc.wrapping_add(delta);
            let mut extra: u8 = 1;
            if (old_pc & 0xFF00) != (self.pc & 0xFF00) {
                extra = extra + 1;
            }
            extra
        } else {
            0
        }
    }

    /// Executes one instruction and returns the cycles it took (see `Machine::step`).
    pub fn step(&mut self, bus: &mut Bus) -> (r: u8)
        requires
            old(bus)@.inv(),
            machine(*old(self), old(bus)@).step().0.ok,
        ensures
            final(bus)@.inv(),
            (machine(*final(self), final(bus)@), r) == machine(*old(self), old(bus)@).step(),
    {
        proof {
            reveal(Machine::step);
        }
        let opcode = self.fetch(bus);
        let cycles = match decode(opcode) {
            Some((ins, mode, base)) => self.execute(bus, ins, mode, base),
            None => 2,
        };
        self.cycles = self.cycles + cycles as u64;
        cycles
    }

    /// Takes a non-maskable interrupt (see `Machine::nmi`).
    pub fn nmi(&mut self, bus: &mut Bus)
        requires
            old(bus)@.inv(),
            machine(*old(self), old(bus)@).nmi().ok,
        ensures
            final(bus)@.inv(),
            machine(*final(self), final(bus)@) == machine(*old(self), old(bus)@).nmi(),
    {
        proof {
            reveal(Machine::nmi);
        }
        self.push16(bus, self.pc);
        self.push(bus, (self.status | UNUSED) & !BREAK);
        self.set_flag(INTERRUPT_DISABLE, true);
        let lo = bus.read(0xFFFA) as u16;
        let hi = bus.read(0xFFFB) as u16;
        self.pc = (hi << 8u16) | lo;
        self.cycles = self.cycles + 7;
    }

    /// Takes a maskable interrupt unless I is set (see `Machine::irq`).
    pub fn irq(&mut self, bus: &mut Bus)
        requires
            old(bus)@.inv(),
            machine(*old(self), old(bus)@).irq().ok,
        ensures
            final(bus)@.inv(),
            machine(*final(self), final(bus)@) == machine(*old(self), old(bus)@).irq(),
    {
        proof {
            reveal(Machine::irq);
        }
        if !self.get_flag(INTERRUPT_DISABLE) {
            self.push16(bus, self.pc);
            self.push(bus, (self.status | UNUSED) & !BREAK);
            self.set_flag(INTERRUPT_DISABLE, true);
            let lo = bus.read(0xFFFE) as u16;
            let hi = bus.read(0xFFFF) as u16;
            self.pc = (hi << 8u16) | lo;
            self.cycles = self.cycles + 7;
        }
    }

    /// Resolves an addressing mode to the effective address and whether indexing crossed a
    /// page (see `Machine::resolve`).
    pub fn resolve_address(&mut self, bus: &mut Bus, mode: AddressingMode) -> (r: (u16, bool))
        requires
            old(bus)@.inv(),
            machine(*old(self), old(bus)@).resolve(mode).0.ok,
        ensures
            final(bus)@.inv(),
            (machine(*final(self), final(bus)@), r.0, r.1) == machine(*old(self), old(bus)@).resolve(mode),
    {
        match mode {
            AddressingMode::Implicit | AddressingMode::Accumulator => (0, false),
            AddressingMode::Immediate => {
                let addr = self.pc;
                self.pc = self.pc.wrapping_add(1);
                (addr, false)
            },
            AddressingMode::ZeroPage => {
                let addr = self.fetch(bus) as u16;
                (addr, false)
            },
            AddressingMode::ZeroPageX => {
                let base = self.fetch(bus);
                (base.wrapping_add(self.x) as u16, false)
            },
            AddressingMode::ZeroPageY => {
                let base = self.fetch(bus);
                (base.wrapping_add(self.y) as u16, false)
            },
            AddressingMode::Relative => {
                let offset = self.fetch(bus);
                let delta: u16 = if offset < 128 { offset as u16 } else { (offset as u16) | 0xFF00 };
                let addr = self.pc.wrapping_add(delta);
                (addr, false)
            },
            AddressingMode::Absolute => {
                let addr = self.fetch16(bus);
                (addr, false)
            },
            AddressingMode::AbsoluteX => {
                let base = self.fetch16(bus);
                let addr = base.wrapping_add(self.x as u16);
                let page_crossed = (base & 0xFF00) != (addr & 0xFF00);
                (addr, page_crossed)
            },
            AddressingMode::AbsoluteY => {
                let base = self.fetch16(bus);
                let addr = base.wrapping_add(self.y as u16);
                let page_crossed = (base & 0xFF00) != (addr & 0xFF00);
                (addr, page_crossed)
            },
            AddressingMode::Indirect => {
                let ptr = self.fetch16(bus);
                let addr = self.read16_wrap(bus, ptr);
                (addr, false)
            },
            AddressingMode::IndirectX => {
                let base = self.fetch(bus);
                let ptr = base.wrapping_add(self.x);
                let lo = bus.read(ptr as u16) as u16;
                let hi = bus.read(ptr.wrapping_add(1) as u16) as u16;
                ((hi << 8u16) | lo, false)
            },
            AddressingMode::IndirectY => {
                let ptr = self.fetch(bus);
                let lo = bus.read(ptr as u16) as u16;
                let hi = bus.read(ptr.wrapping_add(1) as u16) as u16;
                let base = (hi << 8u16) | lo;
                let addr = base.wrapping_add(self.y as u16);
                let page_crossed = (base & 0xFF00) != (addr & 0xFF00);
                (addr, page_crossed)
            },
        }
    }

    /// Executes one decoded instruction and returns its cycles (see `Machine::execute`).
    fn execute(&mut self, bus: &mut Bus, ins: Instruction, mode: AddressingMode, base: u8) -> (r: u8)
        requires
            old(bus)@.inv(),
            2 <= base <= 7,
            machine(*old(self), old(bus)@).execute(ins, mode, base).0.ok,
        ensures
            final(bus)@.inv(),
            (machine(*final(self), final(bus)@), r) == machine(*old(self), old(bus)@).execute(ins, mode, base),
    {
        match ins {
            Instruction::Sta | Instruction::Stx | Instruction::Sty => self.store(bus, ins, mode, base),
            Instruction::Asl | Instruction::Lsr | Instruction::Rol | Instruction::Ror => self.shift(bus, ins, mode, base),
            Instruction::Inc | Instruction::Dec => self.inc_dec(bus, ins, mode, base),
            Instruction::Bcc | Instruction::Bcs | Instruction::Beq | Instruction::Bne | Instruction::Bmi
            | Instruction::Bpl | Instruction::Bvc | Instruction::Bvs => {
                let cond = self.branch_condition(ins);
                base + self.branch(bus, cond)
            },
            Instruction::Jmp | Instruction::Jsr | Instruction::Rts | Instruction::Rti | Instruction::Brk => {
                self.control(bus, ins, mode, base)
            },
            Instruction::Pha | Instruction::Php | Instruction::Pla | Instruction::Plp => self.stack_op(bus, ins, base),
            Instruction::Lda | Instruction::Ldx | Instruction::Ldy | Instruction::Adc | Instruction::Sbc
            | Instruction::And | Instruction::Ora | Instruction::Eor | Instruction::Cmp | Instruction::Cpx
            | Instruction::Cpy | Instruction::Bit => self.operate(bus, ins, mode, base),
            _ => {
                self.implied(ins);
                base
            },
        }
    }

    /// The branch condition of a branch instruction.
    fn branch_condition(&self, ins: Instruction) -> (r: bool)
        ensures
            r == self.branch_taken(ins),
    {
        match ins {
            Instruction::Bcc => !self.get_flag(CARRY),
            Instruction::Bcs => self.get_flag(CARRY),
            Instruction::Beq => self.get_flag(ZERO),
            Instruction::Bne => !self.get_flag(ZERO),
            Instruction::Bmi => self.get_flag(NEGATIVE),
            Instruction::Bpl => !self.get_flag(NEGATIVE),
            Instruction::Bvc => !self.get_flag(OVERFLOW),
            _ => self.get_flag(OVERFLOW),
        }
    }

    /// STA, STX, STY.
    fn store(&mut self, bus: &mut Bus, ins: Instruction, mode: AddressingMode, base: u8) -> (r: u8)
        requires
            old(bus)@.inv(),
            ins == Instruction::Sta || ins == Instruction::Stx || ins == Instruction::Sty,
            machine(*old(self), old(bus)@).store_op(ins, mode, base).0.ok,
        ensures
            final(bus)@.inv(),
            (machine(*final(self), final(bus)@), r) == machine(*old(self), old(bus)@).store_op(ins, mode, base),
    {
        let (addr, _) = self.resolve_address(bus, mode);
        let value = match ins {
            Instruction::Sta => self.a,
            Instruction::Stx => self.x,
            _ => self.y,
        };
        bus.write(addr, value);
        base
    }

    /// ASL, LSR, ROL, ROR on A or on memory.
    fn shift(&mut self, bus: &mut Bus, ins: Instruction, mode: AddressingMode, base: u8) -> (r: u8)
        requires
            old(bus)@.inv(),
            ins == Instruction::Asl || ins == Instruction::Lsr || ins == Instruction::Rol || ins == Instruction::Ror,
            machine(*old(self), old(bus)@).shift_op(ins, mode, base).0.ok,
        ensures
            final(bus)@.inv(),
            (machine(*final(self), final(bus)@), r) == machine(*old(self), old(bus)@).shift_op(ins, mode, base),
    {
        if mode == AddressingMode::Accumulator {
            let old_carry: u8 = if self.get_flag(CARRY) { 1 } else { 0 };
            let a = self.a;
            let result = match ins {
                Instruction::Asl => {
                    self.set_flag(CARRY, a & 0x80 != 0);
                    a << 1u8
                },
                Instruction::Lsr => {
                    self.set_flag(CARRY, a & 0x01 != 0);
                    a >> 1u8
                },
                Instruction::Rol => {
                    self.set_flag(CARRY, a & 0x80 != 0);
                    (a << 1u8) | old_carry
                },
                _ => {
                    self.set_flag(CARRY, a & 0x01 != 0);
                    (a >> 1u8) | (old_carry << 7u8)
                },
            };
            self.a = result;
            self.update_zero_and_negative(result);
        } else {
            let (addr, _) = self.resolve_address(bus, mode);
            let m = bus.read(addr);
            let old_carry: u8 = if self.get_flag(CARRY) { 1 } else { 0 };
            let result = match ins {
                Instruction::Asl => {
                    self.set_flag(CARRY, m & 0x80 != 0);
                    m << 1u8
                },
                Instruction::Lsr => {
                    self.set_flag(CARRY, m & 0x01 != 0);
                    m >> 1u8
                },
                Instruction::Rol => {
                    self.set_flag(CARRY, m & 0x80 != 0);
                    (m << 1u8) | old_carry
                },
                _ => {
                    self.set_flag(CARRY, m & 0x01 != 0);
                    (m >> 1u8) | (old_carry << 7u8)
                },
            };
            bus.write(addr, result);
            self.update_zero_and_negative(result);
        }
        base
    }

    /// INC and DEC on memory.
    fn inc_dec(&mut self, bus: &mut Bus, ins: Instruction, mode: AddressingMode, base: u8) -> (r: u8)
        requires
            old(bus)@.inv(),
            ins == Instruction::Inc || ins == Instruction::Dec,
            machine(*old(self), old(bus)@).inc_dec_op(ins, mode, base).0.ok,
        ensures
            final(bus)@.inv(),
            (machine(*final(self), final(bus)@), r) == machine(*old(self), old(bus)@).inc_dec_op(ins, mode, base),
    {
        let (addr, _) = self.resolve_address(bus, mode);
        let v = bus.read(addr);
        let m = if ins == Instruction::Inc { v.wrapping_add(1) } else { v.wrapping_sub(1) };
        bus.write(addr, m);
        self.update_zero_and_negative(m);
        base
    }

    /// Loads, arithmetic, logic, compares and BIT: instructions that read one operand.
    fn operate(&mut self, bus: &mut Bus, ins: Instruction, mode: AddressingMode, base: u8) -> (r: u8)
        requires
            old(bus)@.inv(),
            base <= 7,
            ins == Instruction::Lda || ins == Instruction::Ldx || ins == Instruction::Ldy
                || ins == Instruction::Adc || ins == Instruction::Sbc || ins == Instruction::And
                || ins == Instruction::Ora || ins == Instruction::Eor || ins == Instruction::Cmp
                || ins == Instruction::Cpx || ins == Instruction::Cpy || ins == Instruction::Bit,
            machine(*old(self), old(bus)@).operand_op(ins, mode, base).0.ok,
        ensures
            final(bus)@.inv(),
            (machine(*final(self), final(bus)@), r) == machine(*old(self), old(bus)@).operand_op(ins, mode, base),
    {
        let (addr, crossed) = self.resolve_address(bus, mode);
        let m = bus.read(addr);
        match ins {
            Instruction::Lda => {
                self.a = m;
                self.update_zero_and_negative(m);
            },
            Instruction::Ldx => {
                self.x = m;
                self.update_zero_and_negative(m);
            },
            Instruction::Ldy => {
                self.y = m;
                self.update_zero_and_negative(m);
            },
            Instruction::Adc => self.adc(m),
            Instruction::Sbc => self.adc(!m),
            Instruction::And => {
                self.a = self.a & m;
                self.update_zero_and_negative(self.a);
            },
            Instruction::Ora => {
                self.a = self.a | m;
                self.update_zero_and_negative(self.a);
            },
            Instruction::Eor => {
                self.a = self.a ^ m;
                self.update_zero_and_negative(self.a);
            },
            Instruction::Cmp => self.compare(self.a, m),
            Instruction::Cpx => self.compare(self.x, m),
            Instruction::Cpy => self.compare(self.y, m),
            _ => {
                self.set_flag(ZERO, self.a & m == 0);
                self.set_flag(NEGATIVE, m & 0x80 != 0);
                self.set_flag(OVERFLOW, m & 0x40 != 0);
            },
        }
        if crossed {
            base + 1
        } else {
            base
        }
    }

    /// Register transfers, increments and decrements, flag instructions and NOP.
    fn implied(&mut self, ins: Instruction)
        ensures
            *final(self) == old(self).implied_spec(ins),
    {
        match ins {
            Instruction::Inx => {
                self.x = self.x.wrapping_add(1);
                self.update_zero_and_negative(self.x);
            },
            Instruction::Iny => {
                self.y = self.y.wrapping_add(1);
                self.update_zero_and_negative(self.y);
            },
            Instruction::Dex => {
                self.x = self.x.wrapping_sub(1);
                self.update_zero_and_negative(self.x);
            },
            Instruction::Dey => {
                self.y = self.y.wrapping_sub(1);
                self.update_zero_and_negative(self.y);
            },
            Instruction::Tax => {
                self.x = self.a;
                self.update_zero_and_negative(self.x);
            },
            Instruction::Tay => {
                self.y = self.a;
                self.update_zero_and_negative(self.y);
            },
            Instruction::Txa => {
                self.a = self.x;
                self.update_zero_and_negative(self.a);
            },
            Instruction::Tya => {
                self.a = self.y;
                self.update_zero_and_negative(self.a);
            },
            Instruction::Tsx => {
                self.x = self.sp;
                self.update_zero_and_negative(self.x);
            },
            Instruction::Txs => {
                self.sp = self.x;
            },
            Instruction::Clc => self.set_flag(CARRY, false),
            Instruction::Sec => self.set_flag(CARRY, true),
            Instruction::Cli => self.set_flag(INTERRUPT_DISABLE, false),
            Instruction::Sei => self.set_flag(INTERRUPT_DISABLE, true),
            Instruction::Cld => self.set_flag(DECIMAL, false),
            Instruction::Sed => self.set_flag(DECIMAL, true),
            Instruction::Clv => self.set_flag(OVERFLOW, false),
            _ => {},
        }
    }

    /// JMP, JSR, RTS, RTI and BRK.
    fn control(&mut self, bus: &mut Bus, ins: Instruction, mode: AddressingMode, base: u8) -> (r: u8)
        requires
            old(bus)@.inv(),
            ins == Instruction::Jmp || ins == Instruction::Jsr || ins == Instruction::Rts
                || ins == Instruction::Rti || ins == Instruction::Brk,
            machine(*old(self), old(bus)@).control_op(ins, mode, base).0.ok,
        ensures
            final(bus)@.inv(),
            (machine(*final(self), final(bus)@), r) == machine(*old(self), old(bus)@).control_op(ins, mode, base),
    {
        match ins {
            Instruction::Jmp => {
                let (addr, _) = self.resolve_address(bus, mode);
                self.pc = addr;
            },
            Instruction::Jsr => {
                let addr = self.fetch16(bus);
                self.push16(bus, self.pc.wrapping_sub(1));
                self.pc = addr;
            },
            Instruction::Rts => {
                let addr = self.pull16(bus);
                self.pc = addr.wrapping_add(1);
            },
            Instruction::Rti => {
                let status = self.pull(bus);
                self.status = (status & !BREAK) | UNUSED;
                self.pc = self.pull16(bus);
            },
            _ => {
                self.pc = self.pc.wrapping_add(1);
                self.push16(bus, self.pc);
                self.push(bus, self.status | BREAK | UNUSED);
                self.set_flag(INTERRUPT_DISABLE, true);
                let lo = bus.read(0xFFFE) as u16;
                let hi = bus.read(0xFFFF) as u16;
                self.pc = (hi << 8u16) | lo;
            },
        }
        base
    }

    /// PHA, PHP, PLA and PLP.
    fn stack_op(&mut self, bus: &mut Bus, ins: Instruction, base: u8) -> (r: u8)
        requires
            old(bus)@.inv(),
            ins == Instruction::Pha || ins == Instruction::Php || ins == Instruction::Pla || ins == Instruction::Plp,
        ensures
            final(bus)@.inv(),
            (machine(*final(self), final(bus)@), r) == machine(*old(self), old(bus)@).stack_op(ins, base),
    {
        match ins {
            Instruction::Pha => self.push(bus, self.a),
            Instruction::Php => self.push(bus, self.status | BREAK | UNUSED),
            Instruction::Pla => {
                self.a = self.pull(bus);
                self.update_zero_and_negative(self.a);
            },
            _ => {
                let val = self.pull(bus);
                self.status = (val & !BREAK) | UNUSED;
            },
        }
        base
    }
}

} // verus!

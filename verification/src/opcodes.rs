//! The instruction set: what each opcode does, how it names its operand,
//! and how many cycles it costs.

use vstd::prelude::*;

verus! {

/// What an instruction does.
#[derive(Clone, Copy, Debug)]
pub enum Operation {
    /// Does nothing but skip the given number of bytes after the opcode.
    Nop(u8),
    Tax,
    Txa,
    Dex,
    Inx,
    Tay,
    Tya,
    Dey,
    Iny,
    Txs,
    Tsx,
    Rol,
    Ror,
    Asl,
    Lsr,
    And,
    Eor,
    Ora,
    Clc,
    Sec,
    Cli,
    Sei,
    Clv,
    Cld,
    Sed,
    Bpl,
    Bmi,
    Bvc,
    Bvs,
    Bcc,
    Bcs,
    Bne,
    Beq,
    /// Compares the accumulator with the operand.
    Compare,
    Cpx,
    Cpy,
    Bit,
    Jmp,
    JmpIndirect,
    Jsr,
    Php,
    Plp,
    Pha,
    Pla,
    Dec,
    Inc,
    Adc,
    Sbc,
    Lda,
    Ldx,
    Ldy,
    Sta,
    Stx,
    Sty,
    Brk,
    Rti,
    Rts,
}

/// How an instruction names its operand.
#[derive(Clone, Copy, Debug)]
pub enum Operand {
    /// The instruction has no operand, or fetches it itself.
    Implied,
    /// The accumulator.
    Accumulator,
    /// The byte after the opcode.
    Immediate,
    /// The byte in page zero at the address after the opcode.
    ZeroPage,
    /// As `ZeroPage`, with X added to the address within the page.
    ZeroPageX,
    /// As `ZeroPage`, with Y added to the address within the page.
    ZeroPageY,
    /// The byte at the 16-bit address after the opcode.
    Absolute,
    /// As `Absolute`, with X added to the address.
    AbsoluteX,
    /// As `Absolute`, with Y added to the address.
    AbsoluteY,
    /// The byte at the address that is stored in page zero at the address
    /// after the opcode plus X.
    IndirectX,
    /// The byte at the address that is stored in page zero at the address
    /// after the opcode, plus Y.
    IndirectY,
}

impl Operation {
    /// Whether the instruction takes its operand through an addressing
    /// mode.
    pub open spec fn takes_operand(self) -> bool {
        match self {
            Operation::Rol
            | Operation::Ror
            | Operation::Asl
            | Operation::Lsr
            | Operation::And
            | Operation::Eor
            | Operation::Ora
            | Operation::Compare
            | Operation::Cpx
            | Operation::Cpy
            | Operation::Bit
            | Operation::Dec
            | Operation::Inc
            | Operation::Adc
            | Operation::Sbc
            | Operation::Lda
            | Operation::Ldx
            | Operation::Ldy
            | Operation::Sta
            | Operation::Stx
            | Operation::Sty => true,
            _ => false,
        }
    }

    /// Whether the instruction writes to its operand.
    pub open spec fn writes_operand(self) -> bool {
        match self {
            Operation::Rol
            | Operation::Ror
            | Operation::Asl
            | Operation::Lsr
            | Operation::Dec
            | Operation::Inc
            | Operation::Sta
            | Operation::Stx
            | Operation::Sty => true,
            _ => false,
        }
    }

    /// Whether the instruction can be carried out with this operand: one
    /// that takes an operand has one, and one that writes to it does not have
    /// an immediate one.
    pub open spec fn accepts(self, operand: Operand) -> bool {
        &&& self.takes_operand() ==> !(operand is Implied)
        &&& self.writes_operand() ==> !(operand is Immediate)
    }
}

/// The number of cycles that each opcode costs. Crossing a page or taking
/// a branch costs nothing more.
pub const CYCLES_PER_INSTRUCTION: [u8; 256] = [
    7, 6, 2, 8, 3, 3, 5, 5, 3, 2, 2, 2, 4, 4, 6, 6,
    2, 5, 2, 8, 4, 4, 6, 6, 2, 4, 2, 7, 4, 4, 7, 7,
    6, 6, 2, 8, 3, 3, 5, 5, 4, 2, 2, 2, 4, 4, 6, 6,
    2, 5, 2, 8, 4, 4, 6, 6, 2, 4, 2, 7, 4, 4, 7, 7,
    6, 6, 2, 8, 3, 3, 5, 5, 3, 2, 2, 2, 3, 4, 6, 6,
    2, 5, 2, 8, 4, 4, 6, 6, 2, 4, 2, 7, 4, 4, 7, 7,
    6, 6, 2, 8, 3, 3, 5, 5, 4, 2, 2, 2, 5, 4, 6, 6,
    2, 5, 2, 8, 4, 4, 6, 6, 2, 4, 2, 7, 4, 4, 7, 7,
    2, 6, 2, 6, 3, 3, 3, 3, 2, 2, 2, 2, 4, 4, 4, 4,
    2, 6, 2, 6, 4, 4, 4, 4, 2, 5, 2, 5, 5, 5, 5, 5,
    2, 6, 2, 6, 3, 3, 3, 3, 2, 2, 2, 2, 4, 4, 4, 4,
    2, 5, 2, 5, 4, 4, 4, 4, 2, 4, 2, 4, 4, 4, 4, 4,
    2, 6, 2, 8, 3, 3, 5, 5, 2, 2, 2, 2, 4, 4, 6, 6,
    2, 5, 2, 8, 4, 4, 6, 6, 2, 4, 2, 7, 4, 4, 7, 7,
    2, 6, 3, 8, 3, 3, 5, 5, 2, 2, 2, 2, 4, 4, 6, 6,
    2, 5, 2, 8, 4, 4, 6, 6, 2, 4, 2, 7, 4, 4, 7, 7,
];

/// The instruction that an opcode stands for, if it stands for one.
pub open spec fn spec_decode(opcode: u8) -> Option<(Operation, Operand)> {
    match opcode {
        0x00 => Some((Operation::Brk, Operand::Implied)),
        0x01 => Some((Operation::Ora, Operand::IndirectX)),
        0x04 => Some((Operation::Nop(1), Operand::Implied)),
        0x05 => Some((Operation::Ora, Operand::ZeroPage)),
        0x06 => Some((Operation::Asl, Operand::ZeroPage)),
        0x08 => Some((Operation::Php, Operand::Implied)),
        0x09 => Some((Operation::Ora, Operand::Immediate)),
        0x0A => Some((Operation::Asl, Operand::Accumulator)),
        0x0C => Some((Operation::Nop(1), Operand::Implied)),
        0x0D => Some((Operation::Ora, Operand::Absolute)),
        0x0E => Some((Operation::Asl, Operand::Absolute)),
        0x10 => Some((Operation::Bpl, Operand::Implied)),
        0x11 => Some((Operation::Ora, Operand::IndirectY)),
        0x14 => Some((Operation::Nop(2), Operand::Implied)),
        0x15 => Some((Operation::Ora, Operand::ZeroPageX)),
        0x16 => Some((Operation::Asl, Operand::ZeroPageX)),
        0x18 => Some((Operation::Clc, Operand::Implied)),
        0x19 => Some((Operation::Ora, Operand::AbsoluteY)),
        0x1A => Some((Operation::Nop(0), Operand::Implied)),
        0x1C => Some((Operation::Nop(2), Operand::Implied)),
        0x1D => Some((Operation::Ora, Operand::AbsoluteX)),
        0x1E => Some((Operation::Asl, Operand::AbsoluteX)),
        0x20 => Some((Operation::Jsr, Operand::Implied)),
        0x21 => Some((Operation::And, Operand::IndirectX)),
        0x24 => Some((Operation::Bit, Operand::ZeroPage)),
        0x25 => Some((Operation::And, Operand::ZeroPage)),
        0x26 => Some((Operation::Rol, Operand::ZeroPage)),
        0x28 => Some((Operation::Plp, Operand::Implied)),
        0x29 => Some((Operation::And, Operand::Immediate)),
        0x2A => Some((Operation::Rol, Operand::Accumulator)),
        0x2C => Some((Operation::Bit, Operand::Absolute)),
        0x2D => Some((Operation::And, Operand::Absolute)),
        0x2E => Some((Operation::Rol, Operand::Absolute)),
        0x30 => Some((Operation::Bmi, Operand::Implied)),
        0x31 => Some((Operation::And, Operand::IndirectY)),
        0x35 => Some((Operation::And, Operand::ZeroPageX)),
        0x36 => Some((Operation::Rol, Operand::ZeroPageX)),
        0x38 => Some((Operation::Sec, Operand::Implied)),
        0x39 => Some((Operation::And, Operand::AbsoluteY)),
        0x3A => Some((Operation::Nop(0), Operand::Implied)),
        0x3C => Some((Operation::Nop(2), Operand::Implied)),
        0x3D => Some((Operation::And, Operand::AbsoluteX)),
        0x3E => Some((Operation::Rol, Operand::AbsoluteX)),
        0x40 => Some((Operation::Rti, Operand::Implied)),
        0x41 => Some((Operation::Eor, Operand::IndirectX)),
        0x44 => Some((Operation::Nop(1), Operand::Implied)),
        0x45 => Some((Operation::Eor, Operand::ZeroPage)),
        0x46 => Some((Operation::Lsr, Operand::ZeroPage)),
        0x48 => Some((Operation::Pha, Operand::Implied)),
        0x49 => Some((Operation::Eor, Operand::Immediate)),
        0x4A => Some((Operation::Lsr, Operand::Accumulator)),
        0x4C => Some((Operation::Jmp, Operand::Implied)),
        0x4D => Some((Operation::Eor, Operand::Absolute)),
        0x4E => Some((Operation::Lsr, Operand::Absolute)),
        0x50 => Some((Operation::Bvc, Operand::Implied)),
        0x51 => Some((Operation::Eor, Operand::IndirectY)),
        0x55 => Some((Operation::Eor, Operand::ZeroPageX)),
        0x56 => Some((Operation::Lsr, Operand::ZeroPageX)),
        0x58 => Some((Operation::Cli, Operand::Implied)),
        0x59 => Some((Operation::Eor, Operand::AbsoluteY)),
        0x5A => Some((Operation::Nop(0), Operand::Implied)),
        0x5C => Some((Operation::Nop(2), Operand::Implied)),
        0x5D => Some((Operation::Eor, Operand::AbsoluteX)),
        0x5E => Some((Operation::Lsr, Operand::AbsoluteX)),
        0x60 => Some((Operation::Rts, Operand::Implied)),
        0x61 => Some((Operation::Adc, Operand::IndirectX)),
        0x64 => Some((Operation::Nop(1), Operand::Implied)),
        0x65 => Some((Operation::Adc, Operand::ZeroPage)),
        0x66 => Some((Operation::Ror, Operand::ZeroPage)),
        0x68 => Some((Operation::Pla, Operand::Implied)),
        0x69 => Some((Operation::Adc, Operand::Immediate)),
        0x6A => Some((Operation::Ror, Operand::Accumulator)),
        0x6C => Some((Operation::JmpIndirect, Operand::Implied)),
        0x6D => Some((Operation::Adc, Operand::Absolute)),
        0x6E => Some((Operation::Ror, Operand::Absolute)),
        0x70 => Some((Operation::Bvs, Operand::Implied)),
        0x71 => Some((Operation::Adc, Operand::IndirectY)),
        0x75 => Some((Operation::Adc, Operand::ZeroPageX)),
        0x76 => Some((Operation::Ror, Operand::ZeroPageX)),
        0x78 => Some((Operation::Sei, Operand::Implied)),
        0x79 => Some((Operation::Adc, Operand::AbsoluteY)),
        0x7A => Some((Operation::Nop(0), Operand::Implied)),
        0x7C => Some((Operation::Nop(2), Operand::Implied)),
        0x7D => Some((Operation::Adc, Operand::AbsoluteX)),
        0x7E => Some((Operation::Ror, Operand::AbsoluteX)),
        0x80 => Some((Operation::Nop(2), Operand::Implied)),
        0x81 => Some((Operation::Sta, Operand::IndirectX)),
        0x84 => Some((Operation::Sty, Operand::ZeroPage)),
        0x85 => Some((Operation::Sta, Operand::ZeroPage)),
        0x86 => Some((Operation::Stx, Operand::ZeroPage)),
        0x88 => Some((Operation::Dey, Operand::Implied)),
        0x8A => Some((Operation::Txa, Operand::Implied)),
        0x8C => Some((Operation::Sty, Operand::Absolute)),
        0x8D => Some((Operation::Sta, Operand::Absolute)),
        0x8E => Some((Operation::Stx, Operand::Absolute)),
        0x90 => Some((Operation::Bcc, Operand::Implied)),
        0x91 => Some((Operation::Sta, Operand::IndirectY)),
        0x94 => Some((Operation::Sty, Operand::ZeroPageX)),
        0x95 => Some((Operation::Sta, Operand::ZeroPageX)),
        0x96 => Some((Operation::Stx, Operand::ZeroPageY)),
        0x98 => Some((Operation::Tya, Operand::Implied)),
        0x99 => Some((Operation::Sta, Operand::AbsoluteY)),
        0x9A => Some((Operation::Txs, Operand::Implied)),
        0x9D => Some((Operation::Sta, Operand::AbsoluteX)),
        0xA0 => Some((Operation::Ldy, Operand::Immediate)),
        0xA1 => Some((Operation::Lda, Operand::IndirectX)),
        0xA2 => Some((Operation::Ldx, Operand::Immediate)),
        0xA4 => Some((Operation::Ldy, Operand::ZeroPage)),
        0xA5 => Some((Operation::Lda, Operand::ZeroPage)),
        0xA6 => Some((Operation::Ldx, Operand::ZeroPage)),
        0xA8 => Some((Operation::Tay, Operand::Implied)),
        0xA9 => Some((Operation::Lda, Operand::Immediate)),
        0xAA => Some((Operation::Tax, Operand::Implied)),
        0xAC => Some((Operation::Ldy, Operand::Absolute)),
        0xAD => Some((Operation::Lda, Operand::Absolute)),
        0xAE => Some((Operation::Ldx, Operand::Absolute)),
        0xB0 => Some((Operation::Bcs, Operand::Implied)),
        0xB1 => Some((Operation::Lda, Operand::IndirectY)),
        0xB4 => Some((Operation::Ldy, Operand::ZeroPageX)),
        0xB5 => Some((Operation::Lda, Operand::ZeroPageX)),
        0xB6 => Some((Operation::Ldx, Operand::ZeroPageY)),
        0xB8 => Some((Operation::Clv, Operand::Implied)),
        0xB9 => Some((Operation::Lda, Operand::AbsoluteY)),
        0xBA => Some((Operation::Tsx, Operand::Implied)),
        0xBC => Some((Operation::Ldy, Operand::AbsoluteX)),
        0xBD => Some((Operation::Lda, Operand::AbsoluteX)),
        0xBE => Some((Operation::Ldx, Operand::AbsoluteY)),
        0xC0 => Some((Operation::Cpy, Operand::Immediate)),
        0xC1 => Some((Operation::Compare, Operand::IndirectX)),
        0xC4 => Some((Operation::Cpy, Operand::ZeroPage)),
        0xC5 => Some((Operation::Compare, Operand::ZeroPage)),
        0xC6 => Some((Operation::Dec, Operand::ZeroPage)),
        0xC8 => Some((Operation::Iny, Operand::Implied)),
        0xC9 => Some((Operation::Compare, Operand::Immediate)),
        0xCA => Some((Operation::Dex, Operand::Implied)),
        0xCC => Some((Operation::Cpy, Operand::Absolute)),
        0xCD => Some((Operation::Compare, Operand::Absolute)),
        0xCE => Some((Operation::Dec, Operand::Absolute)),
        0xD0 => Some((Operation::Bne, Operand::Implied)),
        0xD1 => Some((Operation::Compare, Operand::IndirectY)),
        0xD5 => Some((Operation::Compare, Operand::ZeroPageX)),
        0xD6 => Some((Operation::Dec, Operand::ZeroPageX)),
        0xD8 => Some((Operation::Cld, Operand::Implied)),
        0xD9 => Some((Operation::Compare, Operand::AbsoluteY)),
        0xDA => Some((Operation::Nop(0), Operand::Implied)),
        0xDC => Some((Operation::Nop(2), Operand::Implied)),
        0xDD => Some((Operation::Compare, Operand::AbsoluteX)),
        0xDE => Some((Operation::Dec, Operand::AbsoluteX)),
        0xE0 => Some((Operation::Cpx, Operand::Immediate)),
        0xE1 => Some((Operation::Sbc, Operand::IndirectX)),
        0xE4 => Some((Operation::Cpx, Operand::ZeroPage)),
        0xE5 => Some((Operation::Sbc, Operand::ZeroPage)),
        0xE6 => Some((Operation::Inc, Operand::ZeroPage)),
        0xE8 => Some((Operation::Inx, Operand::Implied)),
        0xE9 => Some((Operation::Sbc, Operand::Immediate)),
        0xEA => Some((Operation::Nop(0), Operand::Implied)),
        0xEC => Some((Operation::Cpx, Operand::Absolute)),
        0xED => Some((Operation::Sbc, Operand::Absolute)),
        0xEE => Some((Operation::Inc, Operand::Absolute)),
        0xF0 => Some((Operation::Beq, Operand::Implied)),
        0xF1 => Some((Operation::Sbc, Operand::IndirectY)),
        0xF5 => Some((Operation::Sbc, Operand::ZeroPageX)),
        0xF6 => Some((Operation::Inc, Operand::ZeroPageX)),
        0xF8 => Some((Operation::Sed, Operand::Implied)),
        0xF9 => Some((Operation::Sbc, Operand::AbsoluteY)),
        0xFA => Some((Operation::Nop(0), Operand::Implied)),
        0xFC => Some((Operation::Nop(2), Operand::Implied)),
        0xFD => Some((Operation::Sbc, Operand::AbsoluteX)),
        0xFE => Some((Operation::Inc, Operand::AbsoluteX)),
        _ => None,
    }
}

/// Whether an opcode stands for an instruction.
pub open spec fn is_supported(opcode: u8) -> bool {
    spec_decode(opcode) is Some
}

/// Looks an opcode up in the table of instructions.
#[verifier::when_used_as_spec(spec_decode)]
pub fn decode(opcode: u8) -> (instruction: Option<(Operation, Operand)>)
    ensures
        instruction == spec_decode(opcode),
        instruction matches Some((operation, operand)) ==> operation.accepts(operand),
{
    match opcode {
        0x00 => Some((Operation::Brk, Operand::Implied)),
        0x01 => Some((Operation::Ora, Operand::IndirectX)),
        0x04 => Some((Operation::Nop(1), Operand::Implied)),
        0x05 => Some((Operation::Ora, Operand::ZeroPage)),
        0x06 => Some((Operation::Asl, Operand::ZeroPage)),
        0x08 => Some((Operation::Php, Operand::Implied)),
        0x09 => Some((Operation::Ora, Operand::Immediate)),
        0x0A => Some((Operation::Asl, Operand::Accumulator)),
        0x0C => Some((Operation::Nop(1), Operand::Implied)),
        0x0D => Some((Operation::Ora, Operand::Absolute)),
        0x0E => Some((Operation::Asl, Operand::Absolute)),
        0x10 => Some((Operation::Bpl, Operand::Implied)),
        0x11 => Some((Operation::Ora, Operand::IndirectY)),
        0x14 => Some((Operation::Nop(2), Operand::Implied)),
        0x15 => Some((Operation::Ora, Operand::ZeroPageX)),
        0x16 => Some((Operation::Asl, Operand::ZeroPageX)),
        0x18 => Some((Operation::Clc, Operand::Implied)),
        0x19 => Some((Operation::Ora, Operand::AbsoluteY)),
        0x1A => Some((Operation::Nop(0), Operand::Implied)),
        0x1C => Some((Operation::Nop(2), Operand::Implied)),
        0x1D => Some((Operation::Ora, Operand::AbsoluteX)),
        0x1E => Some((Operation::Asl, Operand::AbsoluteX)),
        0x20 => Some((Operation::Jsr, Operand::Implied)),
        0x21 => Some((Operation::And, Operand::IndirectX)),
        0x24 => Some((Operation::Bit, Operand::ZeroPage)),
        0x25 => Some((Operation::And, Operand::ZeroPage)),
        0x26 => Some((Operation::Rol, Operand::ZeroPage)),
        0x28 => Some((Operation::Plp, Operand::Implied)),
        0x29 => Some((Operation::And, Operand::Immediate)),
        0x2A => Some((Operation::Rol, Operand::Accumulator)),
        0x2C => Some((Operation::Bit, Operand::Absolute)),
        0x2D => Some((Operation::And, Operand::Absolute)),
        0x2E => Some((Operation::Rol, Operand::Absolute)),
        0x30 => Some((Operation::Bmi, Operand::Implied)),
        0x31 => Some((Operation::And, Operand::IndirectY)),
        0x35 => Some((Operation::And, Operand::ZeroPageX)),
        0x36 => Some((Operation::Rol, Operand::ZeroPageX)),
        0x38 => Some((Operation::Sec, Operand::Implied)),
        0x39 => Some((Operation::And, Operand::AbsoluteY)),
        0x3A => Some((Operation::Nop(0), Operand::Implied)),
        0x3C => Some((Operation::Nop(2), Operand::Implied)),
        0x3D => Some((Operation::And, Operand::AbsoluteX)),
        0x3E => Some((Operation::Rol, Operand::AbsoluteX)),
        0x40 => Some((Operation::Rti, Operand::Implied)),
        0x41 => Some((Operation::Eor, Operand::IndirectX)),
        0x44 => Some((Operation::Nop(1), Operand::Implied)),
        0x45 => Some((Operation::Eor, Operand::ZeroPage)),
        0x46 => Some((Operation::Lsr, Operand::ZeroPage)),
        0x48 => Some((Operation::Pha, Operand::Implied)),
        0x49 => Some((Operation::Eor, Operand::Immediate)),
        0x4A => Some((Operation::Lsr, Operand::Accumulator)),
        0x4C => Some((Operation::Jmp, Operand::Implied)),
        0x4D => Some((Operation::Eor, Operand::Absolute)),
        0x4E => Some((Operation::Lsr, Operand::Absolute)),
        0x50 => Some((Operation::Bvc, Operand::Implied)),
        0x51 => Some((Operation::Eor, Operand::IndirectY)),
        0x55 => Some((Operation::Eor, Operand::ZeroPageX)),
        0x56 => Some((Operation::Lsr, Operand::ZeroPageX)),
        0x58 => Some((Operation::Cli, Operand::Implied)),
        0x59 => Some((Operation::Eor, Operand::AbsoluteY)),
        0x5A => Some((Operation::Nop(0), Operand::Implied)),
        0x5C => Some((Operation::Nop(2), Operand::Implied)),
        0x5D => Some((Operation::Eor, Operand::AbsoluteX)),
        0x5E => Some((Operation::Lsr, Operand::AbsoluteX)),
        0x60 => Some((Operation::Rts, Operand::Implied)),
        0x61 => Some((Operation::Adc, Operand::IndirectX)),
        0x64 => Some((Operation::Nop(1), Operand::Implied)),
        0x65 => Some((Operation::Adc, Operand::ZeroPage)),
        0x66 => Some((Operation::Ror, Operand::ZeroPage)),
        0x68 => Some((Operation::Pla, Operand::Implied)),
        0x69 => Some((Operation::Adc, Operand::Immediate)),
        0x6A => Some((Operation::Ror, Operand::Accumulator)),
        0x6C => Some((Operation::JmpIndirect, Operand::Implied)),
        0x6D => Some((Operation::Adc, Operand::Absolute)),
        0x6E => Some((Operation::Ror, Operand::Absolute)),
        0x70 => Some((Operation::Bvs, Operand::Implied)),
        0x71 => Some((Operation::Adc, Operand::IndirectY)),
        0x75 => Some((Operation::Adc, Operand::ZeroPageX)),
        0x76 => Some((Operation::Ror, Operand::ZeroPageX)),
        0x78 => Some((Operation::Sei, Operand::Implied)),
        0x79 => Some((Operation::Adc, Operand::AbsoluteY)),
        0x7A => Some((Operation::Nop(0), Operand::Implied)),
        0x7C => Some((Operation::Nop(2), Operand::Implied)),
        0x7D => Some((Operation::Adc, Operand::AbsoluteX)),
        0x7E => Some((Operation::Ror, Operand::AbsoluteX)),
        0x80 => Some((Operation::Nop(2), Operand::Implied)),
        0x81 => Some((Operation::Sta, Operand::IndirectX)),
        0x84 => Some((Operation::Sty, Operand::ZeroPage)),
        0x85 => Some((Operation::Sta, Operand::ZeroPage)),
        0x86 => Some((Operation::Stx, Operand::ZeroPage)),
        0x88 => Some((Operation::Dey, Operand::Implied)),
        0x8A => Some((Operation::Txa, Operand::Implied)),
        0x8C => Some((Operation::Sty, Operand::Absolute)),
        0x8D => Some((Operation::Sta, Operand::Absolute)),
        0x8E => Some((Operation::Stx, Operand::Absolute)),
        0x90 => Some((Operation::Bcc, Operand::Implied)),
        0x91 => Some((Operation::Sta, Operand::IndirectY)),
        0x94 => Some((Operation::Sty, Operand::ZeroPageX)),
        0x95 => Some((Operation::Sta, Operand::ZeroPageX)),
        0x96 => Some((Operation::Stx, Operand::ZeroPageY)),
        0x98 => Some((Operation::Tya, Operand::Implied)),
        0x99 => Some((Operation::Sta, Operand::AbsoluteY)),
        0x9A => Some((Operation::Txs, Operand::Implied)),
        0x9D => Some((Operation::Sta, Operand::AbsoluteX)),
        0xA0 => Some((Operation::Ldy, Operand::Immediate)),
        0xA1 => Some((Operation::Lda, Operand::IndirectX)),
        0xA2 => Some((Operation::Ldx, Operand::Immediate)),
        0xA4 => Some((Operation::Ldy, Operand::ZeroPage)),
        0xA5 => Some((Operation::Lda, Operand::ZeroPage)),
        0xA6 => Some((Operation::Ldx, Operand::ZeroPage)),
        0xA8 => Some((Operation::Tay, Operand::Implied)),
        0xA9 => Some((Operation::Lda, Operand::Immediate)),
        0xAA => Some((Operation::Tax, Operand::Implied)),
        0xAC => Some((Operation::Ldy, Operand::Absolute)),
        0xAD => Some((Operation::Lda, Operand::Absolute)),
        0xAE => Some((Operation::Ldx, Operand::Absolute)),
        0xB0 => Some((Operation::Bcs, Operand::Implied)),
        0xB1 => Some((Operation::Lda, Operand::IndirectY)),
        0xB4 => Some((Operation::Ldy, Operand::ZeroPageX)),
        0xB5 => Some((Operation::Lda, Operand::ZeroPageX)),
        0xB6 => Some((Operation::Ldx, Operand::ZeroPageY)),
        0xB8 => Some((Operation::Clv, Operand::Implied)),
        0xB9 => Some((Operation::Lda, Operand::AbsoluteY)),
        0xBA => Some((Operation::Tsx, Operand::Implied)),
        0xBC => Some((Operation::Ldy, Operand::AbsoluteX)),
        0xBD => Some((Operation::Lda, Operand::AbsoluteX)),
        0xBE => Some((Operation::Ldx, Operand::AbsoluteY)),
        0xC0 => Some((Operation::Cpy, Operand::Immediate)),
        0xC1 => Some((Operation::Compare, Operand::IndirectX)),
        0xC4 => Some((Operation::Cpy, Operand::ZeroPage)),
        0xC5 => Some((Operation::Compare, Operand::ZeroPage)),
        0xC6 => Some((Operation::Dec, Operand::ZeroPage)),
        0xC8 => Some((Operation::Iny, Operand::Implied)),
        0xC9 => Some((Operation::Compare, Operand::Immediate)),
        0xCA => Some((Operation::Dex, Operand::Implied)),
        0xCC => Some((Operation::Cpy, Operand::Absolute)),
        0xCD => Some((Operation::Compare, Operand::Absolute)),
        0xCE => Some((Operation::Dec, Operand::Absolute)),
        0xD0 => Some((Operation::Bne, Operand::Implied)),
        0xD1 => Some((Operation::Compare, Operand::IndirectY)),
        0xD5 => Some((Operation::Compare, Operand::ZeroPageX)),
        0xD6 => Some((Operation::Dec, Operand::ZeroPageX)),
        0xD8 => Some((Operation::Cld, Operand::Implied)),
        0xD9 => Some((Operation::Compare, Operand::AbsoluteY)),
        0xDA => Some((Operation::Nop(0), Operand::Implied)),
        0xDC => Some((Operation::Nop(2), Operand::Implied)),
        0xDD => Some((Operation::Compare, Operand::AbsoluteX)),
        0xDE => Some((Operation::Dec, Operand::AbsoluteX)),
        0xE0 => Some((Operation::Cpx, Operand::Immediate)),
        0xE1 => Some((Operation::Sbc, Operand::IndirectX)),
        0xE4 => Some((Operation::Cpx, Operand::ZeroPage)),
        0xE5 => Some((Operation::Sbc, Operand::ZeroPage)),
        0xE6 => Some((Operation::Inc, Operand::ZeroPage)),
        0xE8 => Some((Operation::Inx, Operand::Implied)),
        0xE9 => Some((Operation::Sbc, Operand::Immediate)),
        0xEA => Some((Operation::Nop(0), Operand::Implied)),
        0xEC => Some((Operation::Cpx, Operand::Absolute)),
        0xED => Some((Operation::Sbc, Operand::Absolute)),
        0xEE => Some((Operation::Inc, Operand::Absolute)),
        0xF0 => Some((Operation::Beq, Operand::Implied)),
        0xF1 => Some((Operation::Sbc, Operand::IndirectY)),
        0xF5 => Some((Operation::Sbc, Operand::ZeroPageX)),
        0xF6 => Some((Operation::Inc, Operand::ZeroPageX)),
        0xF8 => Some((Operation::Sed, Operand::Implied)),
        0xF9 => Some((Operation::Sbc, Operand::AbsoluteY)),
        0xFA => Some((Operation::Nop(0), Operand::Implied)),
        0xFC => Some((Operation::Nop(2), Operand::Implied)),
        0xFD => Some((Operation::Sbc, Operand::AbsoluteX)),
        0xFE => Some((Operation::Inc, Operand::AbsoluteX)),
        _ => None,
    }
}

/// The number of cycles that an opcode costs.
pub fn cycles(opcode: u8) -> (cost: u8)
    ensures
        cost == CYCLES_PER_INSTRUCTION[opcode as int],
        2 <= cost <= 8,
{
    CYCLES_PER_INSTRUCTION[opcode as usize]
}

} // verus!

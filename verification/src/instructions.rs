//! What each instruction does to the processor.

use vstd::prelude::*;
use crate::bits::lemma_add_with_carry;
use crate::bits::lemma_byte_bits;
use crate::bits::lemma_byte_shifts;
use crate::bits::lemma_same_page_successor;
use crate::bits::lemma_subtract_with_borrow;
use crate::bits::lemma_word_bytes;
use crate::cpu::AddressingMode;
use crate::cpu::Cpu;
use crate::cpu::CpuView;
use crate::cpu::Registers;
use crate::cpu::lemma_fetch_keeps_wf;
use crate::cpu::lemma_nz_flags;
use crate::cpu::lemma_push_pop_word;
use crate::cpu::word;
use crate::cpu::BREAK_FLAG;
use crate::cpu::BREAK_VECTOR;
use crate::cpu::NMI_VECTOR;

verus! {

/// A byte read as a signed number, from -128 to 127.
pub open spec fn signed(offset: u8) -> int {
    if offset < 128 {
        offset as int
    } else {
        offset - 256
    }
}

/// Where a branch taken at `pc` with the signed `offset` leads; the sum
/// wraps at 16 bits.
pub open spec fn branch_target(pc: u16, offset: u8) -> u16 {
    ((pc + signed(offset)) % 0x10000) as u16
}

/// The address from which an indirect jump through `pointer` takes the
/// high byte of its target. It is the address after `pointer`, unless
/// `pointer` is the last byte of a page: then it is the first byte of the
/// same page, not of the next.
pub open spec fn indirect_high_address(pointer: u16) -> u16 {
    if pointer % 256 == 255 {
        (pointer - 255) as u16
    } else {
        (pointer + 1) as u16
    }
}

/// The sum of accumulator, operand and carry, before it wraps.
pub open spec fn sum_with_carry(a: u8, value: u8, carry: bool) -> int {
    a + value + if carry {
        1int
    } else {
        0int
    }
}

/// The accumulator less the operand, and less one more when the carry is
/// clear, before it wraps. It is negative when there is a borrow.
pub open spec fn difference_with_borrow(a: u8, value: u8, carry: bool) -> int {
    a - value - if carry {
        0int
    } else {
        1int
    }
}

/// The overflow rule of addition and subtraction: accumulator and operand
/// have the same sign, and the result has the other one.
pub open spec fn signed_overflow(a: u8, value: u8, result: u8) -> bool {
    (a >= 128) == (value >= 128) && (result >= 128) != (a >= 128)
}

/// A byte shifted left by one place, the top bit dropped.
pub open spec fn shifted_left(value: u8) -> u8 {
    ((value * 2) % 256) as u8
}

/// A byte shifted right by one place, the low bit dropped.
pub open spec fn shifted_right(value: u8) -> u8 {
    value / 2
}

/// A byte shifted left by one place, with the carry in bit 0.
pub open spec fn rotated_left(value: u8, carry: bool) -> u8 {
    ((value * 2) % 256 + if carry {
        1int
    } else {
        0int
    }) as u8
}

/// A byte shifted right by one place, with the carry in bit 7.
pub open spec fn rotated_right(value: u8, carry: bool) -> u8 {
    (value / 2 + if carry {
        128int
    } else {
        0int
    }) as u8
}

/// Adds two bytes and a carry. Gives the sum modulo 256, the carry out of
/// bit 7, and the overflow.
pub fn add_with_carry(a: u8, value: u8, carry: bool) -> (out: (u8, bool, bool))
    ensures
        out.0 == sum_with_carry(a, value, carry) % 256,
        out.1 == (sum_with_carry(a, value, carry) >= 256),
        out.2 == signed_overflow(a, value, out.0),
{
    let carry_in: u16 = if carry {
        1
    } else {
        0
    };
    let result: u16 = value as u16 + a as u16 + carry_in;
    proof {
        lemma_add_with_carry(a, value, carry_in, result);
    }
    (
        result as u8,
        (result & 0x100) != 0,
        (a ^ value) & 0x80 == 0 && (a ^ (result as u8)) & 0x80 == 0x80,
    )
}

/// Subtracts a byte from a byte, and one more when `carry` is clear.
/// Gives the difference modulo 256, the carry, which is set when there was
/// no borrow, and the overflow.
pub fn subtract_with_borrow(a: u8, value: u8, carry: bool) -> (out: (u8, bool, bool))
    ensures
        out.0 == difference_with_borrow(a, value, carry) % 256,
        out.1 == (difference_with_borrow(a, value, carry) >= 0),
        out.2 == signed_overflow(a, value, out.0),
{
    let borrow: u16 = if carry {
        0
    } else {
        1
    };
    let result: u16 = (a as u16).wrapping_sub(value as u16).wrapping_sub(borrow);
    proof {
        lemma_subtract_with_borrow(a, value, borrow, result);
    }
    (
        result as u8,
        (result & 0x100) == 0,
        (a ^ value) & 0x80 == 0 && (a ^ (result as u8)) & 0x80 == 0x80,
    )
}

/// Shifts a byte left by one place. Gives the result and the bit that
/// dropped out.
pub fn shift_left(value: u8) -> (out: (u8, bool))
    ensures
        out.0 == shifted_left(value),
        out.1 == (value >= 128),
{
    proof {
        lemma_byte_bits(value);
        lemma_byte_shifts(value);
    }
    (value << 1, (value & 0x80) != 0)
}

/// Shifts a byte right by one place. Gives the result and the bit that
/// dropped out.
pub fn shift_right(value: u8) -> (out: (u8, bool))
    ensures
        out.0 == shifted_right(value),
        out.1 == (value % 2 == 1),
{
    proof {
        lemma_byte_bits(value);
        lemma_byte_shifts(value);
    }
    (value >> 1, (value & 1) != 0)
}

/// Rotates a byte left by one place through the carry. Gives the result
/// and the bit that dropped out.
pub fn rotate_left(value: u8, carry: bool) -> (out: (u8, bool))
    ensures
        out.0 == rotated_left(value, carry),
        out.1 == (value >= 128),
{
    proof {
        lemma_byte_bits(value);
        lemma_byte_shifts(value);
    }
    let shifted: u8 = value << 1;
    let result: u8 = if carry {
        shifted | 1
    } else {
        shifted
    };
    (result, (value & 0x80) != 0)
}

/// Rotates a byte right by one place through the carry. Gives the result
/// and the bit that dropped out.
pub fn rotate_right(value: u8, carry: bool) -> (out: (u8, bool))
    ensures
        out.0 == rotated_right(value, carry),
        out.1 == (value % 2 == 1),
{
    proof {
        lemma_byte_bits(value);
        lemma_byte_shifts(value);
    }
    let shifted: u8 = value >> 1;
    let result: u8 = if carry {
        shifted | 0x80
    } else {
        shifted
    };
    (result, (value & 1) != 0)
}

impl CpuView {
    /// Skips `to_skip` bytes.
    pub open spec fn nop(self, to_skip: u8) -> CpuView {
        self.jump(self.regs.pc.wrapping_add(to_skip as u16))
    }

    /// Adds the operand and the carry to the accumulator. The carry flag is
    /// the carry out of bit 7. The overflow flag is set when accumulator and
    /// operand have the same sign and the result has the other one.
    pub open spec fn adc(self, am: AddressingMode) -> CpuView {
        let value = self.am_load_value(am);
        let loaded = self.am_load(am);
        let a = loaded.regs.a;
        let sum = sum_with_carry(a, value, loaded.regs.carry);
        let result = (sum % 256) as u8;
        loaded.with_regs(
            Registers {
                a: result,
                carry: sum >= 256,
                overflow: signed_overflow(a, value, result),
                ..loaded.regs.with_nz(result)
            },
        )
    }

    /// Subtracts the operand from the accumulator, and one more when the
    /// carry flag is clear. The carry flag is set afterwards when there was
    /// no borrow, and clear when there was one. The overflow flag follows the
    /// same rule as for `adc`.
    pub open spec fn sbc(self, am: AddressingMode) -> CpuView {
        let value = self.am_load_value(am);
        let loaded = self.am_load(am);
        let a = loaded.regs.a;
        let difference = difference_with_borrow(a, value, loaded.regs.carry);
        let result = (difference % 256) as u8;
        loaded.with_regs(
            Registers {
                a: result,
                carry: difference >= 0,
                overflow: signed_overflow(a, value, result),
                ..loaded.regs.with_nz(result)
            },
        )
    }

    /// Adds one to the operand, wrapping from 0xFF to 0x00.
    pub open spec fn inc(self, am: AddressingMode) -> CpuView {
        let value = self.am_load_value(am).wrapping_add(1);
        self.am_load(am).set_nz_flags(value).am_store(am, value)
    }

    /// Takes one from the operand, wrapping from 0x00 to 0xFF.
    pub open spec fn dec(self, am: AddressingMode) -> CpuView {
        let value = self.am_load_value(am).wrapping_sub(1);
        self.am_load(am).set_nz_flags(value).am_store(am, value)
    }

    /// Loads the accumulator.
    pub open spec fn lda(self, am: AddressingMode) -> CpuView {
        let value = self.am_load_value(am);
        let loaded = self.am_load(am);
        loaded.with_regs(Registers { a: value, ..loaded.regs.with_nz(value) })
    }

    /// Loads X.
    pub open spec fn ldx(self, am: AddressingMode) -> CpuView {
        let value = self.am_load_value(am);
        let loaded = self.am_load(am);
        loaded.with_regs(Registers { x: value, ..loaded.regs.with_nz(value) })
    }

    /// Loads Y.
    pub open spec fn ldy(self, am: AddressingMode) -> CpuView {
        let value = self.am_load_value(am);
        let loaded = self.am_load(am);
        loaded.with_regs(Registers { y: value, ..loaded.regs.with_nz(value) })
    }

    /// Stores the accumulator.
    pub open spec fn sta(self, am: AddressingMode) -> CpuView {
        self.am_store(am, self.regs.a)
    }

    /// Stores X.
    pub open spec fn stx(self, am: AddressingMode) -> CpuView {
        self.am_store(am, self.regs.x)
    }

    /// Stores Y.
    pub open spec fn sty(self, am: AddressingMode) -> CpuView {
        self.am_store(am, self.regs.y)
    }

    /// Copies the accumulator to X.
    pub open spec fn tax(self) -> CpuView {
        self.with_regs(Registers { x: self.regs.a, ..self.regs.with_nz(self.regs.a) })
    }

    /// Copies X to the accumulator.
    pub open spec fn txa(self) -> CpuView {
        self.with_regs(Registers { a: self.regs.x, ..self.regs.with_nz(self.regs.x) })
    }

    /// Takes one from X, wrapping from 0x00 to 0xFF.
    pub open spec fn dex(self) -> CpuView {
        let x = self.regs.x.wrapping_sub(1);
        self.with_regs(Registers { x, ..self.regs.with_nz(x) })
    }

    /// Adds one to X, wrapping from 0xFF to 0x00.
    pub open spec fn inx(self) -> CpuView {
        let x = self.regs.x.wrapping_add(1);
        self.with_regs(Registers { x, ..self.regs.with_nz(x) })
    }

    /// Copies the accumulator to Y.
    pub open spec fn tay(self) -> CpuView {
        self.with_regs(Registers { y: self.regs.a, ..self.regs.with_nz(self.regs.a) })
    }

    /// Copies Y to the accumulator.
    pub open spec fn tya(self) -> CpuView {
        self.with_regs(Registers { a: self.regs.y, ..self.regs.with_nz(self.regs.y) })
    }

    /// Takes one from Y, wrapping from 0x00 to 0xFF.
    pub open spec fn dey(self) -> CpuView {
        let y = self.regs.y.wrapping_sub(1);
        self.with_regs(Registers { y, ..self.regs.with_nz(y) })
    }

    /// Adds one to Y, wrapping from 0xFF to 0x00.
    pub open spec fn iny(self) -> CpuView {
        let y = self.regs.y.wrapping_add(1);
        self.with_regs(Registers { y, ..self.regs.with_nz(y) })
    }

    /// Copies X to the stack pointer. No flag changes.
    pub open spec fn txs(self) -> CpuView {
        self.with_regs(Registers { s: self.regs.x, ..self.regs })
    }

    /// Copies the stack pointer to X.
    pub open spec fn tsx(self) -> CpuView {
        self.with_regs(Registers { x: self.regs.s, ..self.regs.with_nz(self.regs.s) })
    }

    /// Rotates the operand left through the carry: the old carry enters
    /// bit 0, and bit 7, which drops out, is the new carry. Zero and sign
    /// follow the result, which is written once.
    pub open spec fn rol(self, am: AddressingMode) -> CpuView {
        let value = self.am_load_value(am);
        let loaded = self.am_load(am);
        let result = rotated_left(value, loaded.regs.carry);
        loaded.with_regs(Registers { carry: value >= 128, ..loaded.regs.with_nz(result) }).am_store(
            am,
            result,
        )
    }

    /// Rotates the operand right through the carry: the old carry enters
    /// bit 7, and bit 0, which drops out, is the new carry. Zero and sign
    /// follow the result, which is written once.
    pub open spec fn ror(self, am: AddressingMode) -> CpuView {
        let value = self.am_load_value(am);
        let loaded = self.am_load(am);
        let result = rotated_right(value, loaded.regs.carry);
        loaded.with_regs(
            Registers { carry: value % 2 == 1, ..loaded.regs.with_nz(result) },
        ).am_store(am, result)
    }

    /// Ands the operand into the accumulator.
    pub open spec fn and(self, am: AddressingMode) -> CpuView {
        let loaded = self.am_load(am);
        let value = self.am_load_value(am) & self.regs.a;
        loaded.with_regs(Registers { a: value, ..loaded.regs.with_nz(value) })
    }

    /// Exclusive-ors the operand into the accumulator.
    pub open spec fn eor(self, am: AddressingMode) -> CpuView {
        let loaded = self.am_load(am);
        let value = self.am_load_value(am) ^ self.regs.a;
        loaded.with_regs(Registers { a: value, ..loaded.regs.with_nz(value) })
    }

    /// Ors the operand into the accumulator.
    pub open spec fn ora(self, am: AddressingMode) -> CpuView {
        let loaded = self.am_load(am);
        let value = self.regs.a | self.am_load_value(am);
        loaded.with_regs(Registers { a: value, ..loaded.regs.with_nz(value) })
    }

    /// Shifts the operand left; bit 7 goes to the carry flag.
    pub open spec fn asl(self, am: AddressingMode) -> CpuView {
        let value = self.am_load_value(am);
        let loaded = self.am_load(am);
        let result = shifted_left(value);
        loaded.with_regs(Registers { carry: value >= 128, ..loaded.regs.with_nz(result) }).am_store(
            am,
            result,
        )
    }

    /// Shifts the operand right; bit 0 goes to the carry flag.
    pub open spec fn lsr(self, am: AddressingMode) -> CpuView {
        let value = self.am_load_value(am);
        let loaded = self.am_load(am);
        let result = shifted_right(value);
        loaded.with_regs(
            Registers { carry: value % 2 == 1, ..loaded.regs.with_nz(result) },
        ).am_store(am, result)
    }

    /// Jumps to the address after the opcode.
    pub open spec fn jmp(self) -> CpuView {
        self.fetch_word().jump(self.fetch_word_value())
    }

    /// Jumps to the address that the pointer after the opcode holds. The
    /// high byte of the target comes from the page of the pointer, also when
    /// the pointer is the last byte of its page.
    pub open spec fn jmp_indirect(self) -> CpuView {
        let pointer = self.fetch_word_value();
        let fetched = self.fetch_word();
        let low = fetched.load_byte_value(pointer);
        let after_low = fetched.load_byte(pointer);
        let high = after_low.load_byte_value(indirect_high_address(pointer));
        after_low.load_byte(indirect_high_address(pointer)).jump(word(low, high))
    }

    /// Calls the subroutine at the address after the opcode: pushes the
    /// address of the last byte of the instruction and jumps.
    pub open spec fn jsr(self) -> CpuView {
        let fetched = self.fetch_word();
        fetched.push_word(fetched.regs.pc.wrapping_sub(1)).jump(self.fetch_word_value())
    }

    /// Pushes the accumulator.
    pub open spec fn pha(self) -> CpuView {
        self.push_byte(self.regs.a)
    }

    /// Pushes the flags, with the break bit set in the byte that goes to
    /// the stack.
    pub open spec fn php(self) -> CpuView {
        self.push_byte(self.regs.flags() | BREAK_FLAG)
    }

    /// Pops the flags.
    pub open spec fn plp(self) -> CpuView {
        self.pop_byte().set_flags(self.pop_byte_value())
    }

    /// Pops the accumulator. No flag changes.
    pub open spec fn pla(self) -> CpuView {
        let popped = self.pop_byte();
        popped.with_regs(Registers { a: self.pop_byte_value(), ..popped.regs })
    }

    /// Clears the carry flag.
    pub open spec fn clc(self) -> CpuView {
        self.with_regs(Registers { carry: false, ..self.regs })
    }

    /// Sets the carry flag.
    pub open spec fn sec(self) -> CpuView {
        self.with_regs(Registers { carry: true, ..self.regs })
    }

    /// Clears the interrupt-disable flag.
    pub open spec fn cli(self) -> CpuView {
        self.with_regs(Registers { interrupt: false, ..self.regs })
    }

    /// Sets the interrupt-disable flag.
    pub open spec fn sei(self) -> CpuView {
        self.with_regs(Registers { interrupt: true, ..self.regs })
    }

    /// Clears the overflow flag.
    pub open spec fn clv(self) -> CpuView {
        self.with_regs(Registers { overflow: false, ..self.regs })
    }

    /// Clears the decimal flag.
    pub open spec fn cld(self) -> CpuView {
        self.with_regs(Registers { decimal: false, ..self.regs })
    }

    /// Sets the decimal flag.
    pub open spec fn sed(self) -> CpuView {
        self.with_regs(Registers { decimal: true, ..self.regs })
    }

    /// Reads the signed offset after the opcode, whether the branch is
    /// taken or not, and adds it to the program counter if `go` holds.
    pub open spec fn generic_branching(self, go: bool) -> CpuView {
        let fetched = self.fetch();
        if go {
            fetched.jump(branch_target(fetched.regs.pc, self.fetch_value()))
        } else {
            fetched
        }
    }

    /// Branches when the sign flag is clear.
    pub open spec fn bpl(self) -> CpuView {
        self.generic_branching(!self.regs.sign)
    }

    /// Branches when the sign flag is set.
    pub open spec fn bmi(self) -> CpuView {
        self.generic_branching(self.regs.sign)
    }

    /// Branches when the overflow flag is clear.
    pub open spec fn bvc(self) -> CpuView {
        self.generic_branching(!self.regs.overflow)
    }

    /// Branches when the overflow flag is set.
    pub open spec fn bvs(self) -> CpuView {
        self.generic_branching(self.regs.overflow)
    }

    /// Branches when the carry flag is clear.
    pub open spec fn bcc(self) -> CpuView {
        self.generic_branching(!self.regs.carry)
    }

    /// Branches when the carry flag is set.
    pub open spec fn bcs(self) -> CpuView {
        self.generic_branching(self.regs.carry)
    }

    /// Branches when the zero flag is clear.
    pub open spec fn bne(self) -> CpuView {
        self.generic_branching(!self.regs.zero)
    }

    /// Branches when the zero flag is set.
    pub open spec fn beq(self) -> CpuView {
        self.generic_branching(self.regs.zero)
    }

    /// Compares `reg` with the operand: zero and sign follow the
    /// difference, which wraps, and the carry flag is set when `reg` is not
    /// less than the operand.
    pub open spec fn generic_comparison(self, am: AddressingMode, reg: u8) -> CpuView {
        let byte = self.am_load_value(am);
        let loaded = self.am_load(am);
        loaded.with_regs(
            Registers { carry: reg >= byte, ..loaded.regs.with_nz(reg.wrapping_sub(byte)) },
        )
    }

    /// Compares the accumulator with the operand.
    pub open spec fn compare(self, am: AddressingMode) -> CpuView {
        self.generic_comparison(am, self.regs.a)
    }

    /// Compares X with the operand.
    pub open spec fn cpx(self, am: AddressingMode) -> CpuView {
        self.generic_comparison(am, self.regs.x)
    }

    /// Compares Y with the operand.
    pub open spec fn cpy(self, am: AddressingMode) -> CpuView {
        self.generic_comparison(am, self.regs.y)
    }

    /// Tests the bits that accumulator and operand share: zero and sign
    /// follow the conjunction of the two, and the overflow flag is its bit 6.
    pub open spec fn bit(self, am: AddressingMode) -> CpuView {
        let loaded = self.am_load(am);
        let result = self.regs.a & self.am_load_value(am);
        loaded.with_regs(Registers { overflow: result & 0x40 != 0, ..loaded.regs.with_nz(result) })
    }

    /// Breaks: pushes the address of the byte after the next, pushes the
    /// flags, disables interrupts and jumps through the break vector.
    pub open spec fn brk(self) -> CpuView {
        let pushed = self.push_word(self.regs.pc.wrapping_add(1));
        let saved = pushed.push_byte(pushed.regs.flags()).sei();
        saved.load_word(BREAK_VECTOR).jump(saved.load_word_value(BREAK_VECTOR))
    }

    /// Returns from an interrupt: pops the flags, then the program counter.
    pub open spec fn rti(self) -> CpuView {
        let restored = self.plp();
        restored.pop_word().jump(restored.pop_word_value())
    }

    /// Returns from a subroutine: pops the program counter and adds one.
    pub open spec fn rts(self) -> CpuView {
        self.pop_word().jump(self.pop_word_value().wrapping_add(1))
    }

    /// Takes a non-maskable interrupt: pushes the program counter and the
    /// flags, with the break bit set in the pushed byte, and jumps through
    /// the interrupt's vector. The flags themselves stay as they are.
    pub open spec fn nmi(self) -> CpuView {
        let saved = self.push_word(self.regs.pc).php();
        saved.load_word(NMI_VECTOR).jump(saved.load_word_value(NMI_VECTOR))
    }
}

impl Cpu {
    /// Skips `to_skip` bytes.
    pub fn nop(&mut self, to_skip: u8)
        ensures
            final(self)@ == old(self)@.nop(to_skip),
    {
        self.regs.pc = self.regs.pc.wrapping_add(to_skip as u16);
    }

    /// Adds the operand and the carry to the accumulator.
    pub fn adc(&mut self, am: AddressingMode)
        requires
            old(self).wf(),
        ensures
            final(self).wf(),
            final(self)@ == old(self)@.adc(am),
    {
        let value = self.am_load(am);
        let (result, carry, overflow) = add_with_carry(self.regs.a, value, self.regs.carry);
        self.regs.carry = carry;
        self.set_nz_flags(result);
        self.regs.overflow = overflow;
        self.regs.a = result;
    }

    /// Subtracts the operand and the borrow from the accumulator.
    pub fn sbc(&mut self, am: AddressingMode)
        requires
            old(self).wf(),
        ensures
            final(self).wf(),
            final(self)@ == old(self)@.sbc(am),
    {
        let value = self.am_load(am);
        let (result, carry, overflow) = subtract_with_borrow(self.regs.a, value, self.regs.carry);
        self.regs.carry = carry;
        self.set_nz_flags(result);
        self.regs.overflow = overflow;
        self.regs.a = result;
    }

    /// Adds one to the operand.
    pub fn inc(&mut self, am: AddressingMode)
        requires
            old(self).wf(),
            !(am is Immediate),
        ensures
            final(self).wf(),
            final(self)@ == old(self)@.inc(am),
    {
        let val = self.am_load(am).wrapping_add(1);
        self.set_nz_flags(val);
        self.am_store(am, val);
    }

    /// Takes one from the operand.
    pub fn dec(&mut self, am: AddressingMode)
        requires
            old(self).wf(),
            !(am is Immediate),
        ensures
            final(self).wf(),
            final(self)@ == old(self)@.dec(am),
    {
        let val = self.am_load(am).wrapping_sub(1);
        self.set_nz_flags(val);
        self.am_store(am, val);
    }

    /// Loads the accumulator.
    pub fn lda(&mut self, am: AddressingMode)
        requires
            old(self).wf(),
        ensures
            final(self).wf(),
            final(self)@ == old(self)@.lda(am),
    {
        let val = self.am_load(am);
        self.regs.a = val;
        self.set_nz_flags(val)
    }

    /// Loads X.
    pub fn ldx(&mut self, am: AddressingMode)
        requires
            old(self).wf(),
        ensures
            final(self).wf(),
            final(self)@ == old(self)@.ldx(am),
    {
        let val = self.am_load(am);
        self.regs.x = val;
        self.set_nz_flags(val)
    }

    /// Loads Y.
    pub fn ldy(&mut self, am: AddressingMode)
        requires
            old(self).wf(),
        ensures
            final(self).wf(),
            final(self)@ == old(self)@.ldy(am),
    {
        let val = self.am_load(am);
        self.regs.y = val;
        self.set_nz_flags(val)
    }

    /// Stores the accumulator.
    pub fn sta(&mut self, am: AddressingMode)
        requires
            old(self).wf(),
            !(am is Immediate),
        ensures
            final(self).wf(),
            final(self)@ == old(self)@.sta(am),
    {
        let a = self.regs.a;
        self.am_store(am, a)
    }

    /// Stores X.
    pub fn stx(&mut self, am: AddressingMode)
        requires
            old(self).wf(),
            !(am is Immediate),
        ensures
            final(self).wf(),
            final(self)@ == old(self)@.stx(am),
    {
        let x = self.regs.x;
        self.am_store(am, x)
    }

    /// Stores Y.
    pub fn sty(&mut self, am: AddressingMode)
        requires
            old(self).wf(),
            !(am is Immediate),
        ensures
            final(self).wf(),
            final(self)@ == old(self)@.sty(am),
    {
        let y = self.regs.y;
        self.am_store(am, y)
    }

    /// Copies the accumulator to X.
    pub fn tax(&mut self)
        ensures
            final(self)@ == old(self)@.tax(),
    {
        let a = self.regs.a;
        self.set_nz_flags(a);
        self.regs.x = a;
    }

    /// Copies X to the accumulator.
    pub fn txa(&mut self)
        ensures
            final(self)@ == old(self)@.txa(),
    {
        let x = self.regs.x;
        self.set_nz_flags(x);
        self.regs.a = x;
    }

    /// Takes one from X.
    pub fn dex(&mut self)
        ensures
            final(self)@ == old(self)@.dex(),
    {
        let x = self.regs.x.wrapping_sub(1);
        self.regs.x = x;
        self.set_nz_flags(x);
    }

    /// Adds one to X.
    pub fn inx(&mut self)
        ensures
            final(self)@ == old(self)@.inx(),
    {
        let x = self.regs.x.wrapping_add(1);
        self.regs.x = x;
        self.set_nz_flags(x);
    }

    /// Copies the accumulator to Y.
    pub fn tay(&mut self)
        ensures
            final(self)@ == old(self)@.tay(),
    {
        let a = self.regs.a;
        self.set_nz_flags(a);
        self.regs.y = a;
    }

    /// Copies Y to the accumulator.
    pub fn tya(&mut self)
        ensures
            final(self)@ == old(self)@.tya(),
    {
        let y = self.regs.y;
        self.set_nz_flags(y);
        self.regs.a = y;
    }

    /// Takes one from Y.
    pub fn dey(&mut self)
        ensures
            final(self)@ == old(self)@.dey(),
    {
        let y = self.regs.y.wrapping_sub(1);
        self.regs.y = y;
        self.set_nz_flags(y);
    }

    /// Adds one to Y.
    pub fn iny(&mut self)
        ensures
            final(self)@ == old(self)@.iny(),
    {
        let y = self.regs.y.wrapping_add(1);
        self.regs.y = y;
        self.set_nz_flags(y);
    }

    /// Copies X to the stack pointer.
    pub fn txs(&mut self)
        ensures
            final(self)@ == old(self)@.txs(),
    {
        self.regs.s = self.regs.x;
    }

    /// Copies the stack pointer to X.
    pub fn tsx(&mut self)
        ensures
            final(self)@ == old(self)@.tsx(),
    {
        let s = self.regs.s;
        self.regs.x = s;
        self.set_nz_flags(s);
    }

    /// Rotates the operand left through the carry.
    pub fn rol(&mut self, am: AddressingMode)
        requires
            old(self).wf(),
            !(am is Immediate),
        ensures
            final(self).wf(),
            final(self)@ == old(self)@.rol(am),
    {
        let value = self.am_load(am);
        let (result, carry) = rotate_left(value, self.regs.carry);
        self.regs.carry = carry;
        self.set_nz_flags(result);
        self.am_store(am, result)
    }

    /// Rotates the operand right through the carry.
    pub fn ror(&mut self, am: AddressingMode)
        requires
            old(self).wf(),
            !(am is Immediate),
        ensures
            final(self).wf(),
            final(self)@ == old(self)@.ror(am),
    {
        let value = self.am_load(am);
        let (result, carry) = rotate_right(value, self.regs.carry);
        self.regs.carry = carry;
        self.set_nz_flags(result);
        self.am_store(am, result)
    }

    /// Ands the operand into the accumulator.
    pub fn and(&mut self, am: AddressingMode)
        requires
            old(self).wf(),
        ensures
            final(self).wf(),
            final(self)@ == old(self)@.and(am),
    {
        let a = self.regs.a;
        let value = self.am_load(am) & a;
        self.set_nz_flags(value);
        self.regs.a = value;
    }

    /// Exclusive-ors the operand into the accumulator.
    pub fn eor(&mut self, am: AddressingMode)
        requires
            old(self).wf(),
        ensures
            final(self).wf(),
            final(self)@ == old(self)@.eor(am),
    {
        let a = self.regs.a;
        let value = self.am_load(am) ^ a;
        self.set_nz_flags(value);
        self.regs.a = value;
    }

    /// Shifts the operand left.
    pub fn asl(&mut self, am: AddressingMode)
        requires
            old(self).wf(),
            !(am is Immediate),
        ensures
            final(self).wf(),
            final(self)@ == old(self)@.asl(am),
    {
        let value = self.am_load(am);
        let (result, carry) = shift_left(value);
        self.regs.carry = carry;
        self.set_nz_flags(result);
        self.am_store(am, result)
    }

    /// Shifts the operand right.
    pub fn lsr(&mut self, am: AddressingMode)
        requires
            old(self).wf(),
            !(am is Immediate),
        ensures
            final(self).wf(),
            final(self)@ == old(self)@.lsr(am),
    {
        let value = self.am_load(am);
        let (result, carry) = shift_right(value);
        self.regs.carry = carry;
        self.set_nz_flags(result);
        self.am_store(am, result)
    }

    /// Ors the operand into the accumulator.
    pub fn ora(&mut self, am: AddressingMode)
        requires
            old(self).wf(),
        ensures
            final(self).wf(),
            final(self)@ == old(self)@.ora(am),
    {
        let a = self.regs.a;
        let result = a | self.am_load(am);
        self.set_nz_flags(result);
        self.regs.a = result;
    }

    /// Jumps to the address after the opcode.
    pub fn jmp(&mut self)
        requires
            old(self).wf(),
        ensures
            final(self).wf(),
            final(self)@ == old(self)@.jmp(),
    {
        let address = self.load_word_and_inc_pc();
        self.regs.pc = address;
    }

    /// Jumps to the address that the pointer after the opcode holds.
    pub fn jmp_indirect(&mut self)
        requires
            old(self).wf(),
        ensures
            final(self).wf(),
            final(self)@ == old(self)@.jmp_indirect(),
    {
        let indirect = self.load_word_and_inc_pc();

        let low = self.load_byte(indirect);
        proof {
            lemma_same_page_successor(indirect, indirect.wrapping_add(1));
        }
        let high = self.load_byte((indirect & 0xFF00) | (indirect.wrapping_add(1) & 0x00FF));
        proof {
            lemma_word_bytes(0, low, high);
        }
        self.regs.pc = ((high as u16) << 8) | low as u16;
    }

    /// Calls the subroutine at the address after the opcode.
    pub fn jsr(&mut self)
        requires
            old(self).wf(),
        ensures
            final(self).wf(),
            final(self)@ == old(self)@.jsr(),
    {
        let address = self.load_word_and_inc_pc();
        let pc = self.regs.pc.wrapping_sub(1);
        self.push_word(pc);
        self.regs.pc = address;
    }

    /// Pushes the accumulator.
    pub fn pha(&mut self)
        requires
            old(self).wf(),
        ensures
            final(self).wf(),
            final(self)@ == old(self)@.pha(),
    {
        let a = self.regs.a;
        self.push_byte(a)
    }

    /// Pushes the flags.
    pub fn php(&mut self)
        requires
            old(self).wf(),
        ensures
            final(self).wf(),
            final(self)@ == old(self)@.php(),
    {
        let flags = self.get_flags() | BREAK_FLAG;
        self.push_byte(flags);
    }

    /// Pops the flags.
    pub fn plp(&mut self)
        requires
            old(self).wf(),
        ensures
            final(self).wf(),
            final(self)@ == old(self)@.plp(),
    {
        let p = self.pop_byte();
        self.set_flags(p);
    }

    /// Pops the accumulator.
    pub fn pla(&mut self)
        requires
            old(self).wf(),
        ensures
            final(self).wf(),
            final(self)@ == old(self)@.pla(),
    {
        self.regs.a = self.pop_byte()
    }

    /// Clears the carry flag.
    pub fn clc(&mut self)
        ensures
            final(self)@ == old(self)@.clc(),
    {
        self.regs.carry = false;
    }

    /// Sets the carry flag.
    pub fn sec(&mut self)
        ensures
            final(self)@ == old(self)@.sec(),
    {
        self.regs.carry = true;
    }

    /// Clears the interrupt-disable flag.
    pub fn cli(&mut self)
        ensures
            final(self)@ == old(self)@.cli(),
    {
        self.regs.interrupt = false;
    }

    /// Sets the interrupt-disable flag.
    pub fn sei(&mut self)
        ensures
            final(self)@ == old(self)@.sei(),
    {
        self.regs.interrupt = true;
    }

    /// Clears the overflow flag.
    pub fn clv(&mut self)
        ensures
            final(self)@ == old(self)@.clv(),
    {
        self.regs.overflow = false;
    }

    /// Clears the decimal flag.
    pub fn cld(&mut self)
        ensures
            final(self)@ == old(self)@.cld(),
    {
        self.regs.decimal = false;
    }

    /// Sets the decimal flag.
    pub fn sed(&mut self)
        ensures
            final(self)@ == old(self)@.sed(),
    {
        self.regs.decimal = true;
    }

    /// Branches when the sign flag is clear.
    pub fn bpl(&mut self)
        requires
            old(self).wf(),
        ensures
            final(self).wf(),
            final(self)@ == old(self)@.bpl(),
    {
        let sign = self.regs.sign;
        self.generic_branching(!sign)
    }

    /// Branches when the sign flag is set.
    pub fn bmi(&mut self)
        requires
            old(self).wf(),
        ensures
            final(self).wf(),
            final(self)@ == old(self)@.bmi(),
    {
        let sign = self.regs.sign;
        self.generic_branching(sign)
    }

    /// Branches when the overflow flag is clear.
    pub fn bvc(&mut self)
        requires
            old(self).wf(),
        ensures
            final(self).wf(),
            final(self)@ == old(self)@.bvc(),
    {
        let overflow = self.regs.overflow;
        self.generic_branching(!overflow);
    }

    /// Branches when the overflow flag is set.
    pub fn bvs(&mut self)
        requires
            old(self).wf(),
        ensures
            final(self).wf(),
            final(self)@ == old(self)@.bvs(),
    {
        let overflow = self.regs.overflow;
        self.generic_branching(overflow);
    }

    /// Branches when the carry flag is clear.
    pub fn bcc(&mut self)
        requires
            old(self).wf(),
        ensures
            final(self).wf(),
            final(self)@ == old(self)@.bcc(),
    {
        let carry = self.regs.carry;
        self.generic_branching(!carry)
    }

    /// Branches when the carry flag is set.
    pub fn bcs(&mut self)
        requires
            old(self).wf(),
        ensures
            final(self).wf(),
            final(self)@ == old(self)@.bcs(),
    {
        let carry = self.regs.carry;
        self.generic_branching(carry)
    }

    /// Branches when the zero flag is clear.
    pub fn bne(&mut self)
        requires
            old(self).wf(),
        ensures
            final(self).wf(),
            final(self)@ == old(self)@.bne(),
    {
        let zero = self.regs.zero;
        self.generic_branching(!zero);
    }

    /// Branches when the zero flag is set.
    pub fn beq(&mut self)
        requires
            old(self).wf(),
        ensures
            final(self).wf(),
            final(self)@ == old(self)@.beq(),
    {
        let zero = self.regs.zero;
        self.generic_branching(zero);
    }

    /// Reads the offset of a branch and takes the branch if `go` holds.
    pub fn generic_branching(&mut self, go: bool)
        requires
            old(self).wf(),
        ensures
            final(self).wf(),
            final(self)@ == old(self)@.generic_branching(go),
    {
        let byte = self.load_byte_and_inc_pc();
        if go {
            if byte < 0x80 {
                self.regs.pc = self.regs.pc.wrapping_add(byte as u16);
            } else {
                self.regs.pc = self.regs.pc.wrapping_sub(0x100 - byte as u16);
            }
        }
    }

    /// Compares the accumulator with the operand.
    pub fn cmp(&mut self, am: AddressingMode)
        requires
            old(self).wf(),
        ensures
            final(self).wf(),
            final(self)@ == old(self)@.compare(am),
    {
        let a = self.regs.a;
        self.generic_comparison(am, a);
    }

    /// Compares X with the operand.
    pub fn cpx(&mut self, am: AddressingMode)
        requires
            old(self).wf(),
        ensures
            final(self).wf(),
            final(self)@ == old(self)@.cpx(am),
    {
        let x = self.regs.x;
        self.generic_comparison(am, x);
    }

    /// Compares Y with the operand.
    pub fn cpy(&mut self, am: AddressingMode)
        requires
            old(self).wf(),
        ensures
            final(self).wf(),
            final(self)@ == old(self)@.cpy(am),
    {
        let y = self.regs.y;
        self.generic_comparison(am, y);
    }

    /// Tests the bits that accumulator and operand share.
    pub fn bit(&mut self, am: AddressingMode)
        requires
            old(self).wf(),
        ensures
            final(self).wf(),
            final(self)@ == old(self)@.bit(am),
    {
        let a = self.regs.a;
        let byte = self.am_load(am);
        let result = a & byte;
        proof {
            lemma_byte_bits(result);
        }
        let overflow = (result >> 6) & 1;
        self.regs.overflow = overflow != 0;
        self.set_nz_flags(result);
    }

    /// Compares `reg` with the operand.
    pub fn generic_comparison(&mut self, am: AddressingMode, reg: u8)
        requires
            old(self).wf(),
        ensures
            final(self).wf(),
            final(self)@ == old(self)@.generic_comparison(am, reg),
    {
        let byte = self.am_load(am);
        let value = reg.wrapping_sub(byte);
        self.set_nz_flags(value);
        self.regs.carry = reg >= byte;
    }

    /// Breaks.
    pub fn brk(&mut self)
        requires
            old(self).wf(),
        ensures
            final(self).wf(),
            final(self)@ == old(self)@.brk(),
    {
        let pc = self.regs.pc;
        self.push_word(pc.wrapping_add(1));
        let flags = self.get_flags();
        self.push_byte(flags);
        self.sei();
        self.regs.pc = self.load_word(BREAK_VECTOR);
    }

    /// Returns from an interrupt.
    pub fn rti(&mut self)
        requires
            old(self).wf(),
        ensures
            final(self).wf(),
            final(self)@ == old(self)@.rti(),
    {
        let flags = self.pop_byte();
        self.set_flags(flags);
        let pc = self.pop_word();
        self.regs.pc = pc;
    }

    /// Returns from a subroutine.
    pub fn rts(&mut self)
        requires
            old(self).wf(),
        ensures
            final(self).wf(),
            final(self)@ == old(self)@.rts(),
    {
        let pc = self.pop_word();
        self.regs.pc = pc.wrapping_add(1);
    }

    /// Takes a non-maskable interrupt.
    pub fn nmi(&mut self)
        requires
            old(self).wf(),
        ensures
            final(self).wf(),
            final(self)@ == old(self)@.nmi(),
    {
        let pc = self.regs.pc;
        self.push_word(pc);
        self.php();
        self.regs.pc = self.load_word(NMI_VECTOR);
    }
}

/// Adding one to a byte and taking one from it, wrapping, is adding and
/// subtracting modulo 256.
pub proof fn lemma_wrap_by_one(value: u8)
    ensures
        value.wrapping_add(1) == (value + 1) % 256,
        value.wrapping_sub(1) == (value - 1) % 256,
{
}

/// Arithmetic on the index registers wraps modulo 256, and zero and sign
/// follow the wrapped result. So one more than 0xFF is 0x00, with the zero
/// flag set and the sign flag clear.
pub proof fn lemma_index_arithmetic_wraps(cpu: CpuView)
    ensures
        cpu.inx().regs.x == (cpu.regs.x + 1) % 256,
        cpu.dex().regs.x == (cpu.regs.x - 1) % 256,
        cpu.iny().regs.y == (cpu.regs.y + 1) % 256,
        cpu.dey().regs.y == (cpu.regs.y - 1) % 256,
        cpu.inx().regs.zero == (cpu.inx().regs.x == 0),
        cpu.inx().regs.sign == (cpu.inx().regs.x >= 128),
        cpu.dex().regs.zero == (cpu.dex().regs.x == 0),
        cpu.dex().regs.sign == (cpu.dex().regs.x >= 128),
        cpu.iny().regs.zero == (cpu.iny().regs.y == 0),
        cpu.iny().regs.sign == (cpu.iny().regs.y >= 128),
        cpu.dey().regs.zero == (cpu.dey().regs.y == 0),
        cpu.dey().regs.sign == (cpu.dey().regs.y >= 128),
        cpu.regs.x == 0xFF ==> cpu.inx().regs.x == 0 && cpu.inx().regs.zero && !cpu.inx().regs.sign,
{
    lemma_wrap_by_one(cpu.regs.x);
    lemma_wrap_by_one(cpu.regs.y);
    lemma_nz_flags(cpu.regs, cpu.regs.x.wrapping_add(1));
    lemma_nz_flags(cpu.regs, cpu.regs.x.wrapping_sub(1));
    lemma_nz_flags(cpu.regs, cpu.regs.y.wrapping_add(1));
    lemma_nz_flags(cpu.regs, cpu.regs.y.wrapping_sub(1));
}

/// Arithmetic on the accumulator wraps modulo 256, and zero and sign
/// follow the wrapped result: the sum of accumulator, operand and carry for
/// `adc`, the accumulator less the operand and the borrow for `sbc`.
pub proof fn lemma_accumulator_arithmetic_wraps(cpu: CpuView, am: AddressingMode)
    ensures
        cpu.adc(am).regs.a == sum_with_carry(cpu.regs.a, cpu.am_load_value(am), cpu.regs.carry)
            % 256,
        cpu.sbc(am).regs.a == difference_with_borrow(
            cpu.regs.a,
            cpu.am_load_value(am),
            cpu.regs.carry,
        ) % 256,
        cpu.sbc(am).regs.carry == (cpu.regs.a >= cpu.am_load_value(am) + if cpu.regs.carry {
            0int
        } else {
            1int
        }),
        cpu.adc(am).regs.zero == (cpu.adc(am).regs.a == 0),
        cpu.adc(am).regs.sign == (cpu.adc(am).regs.a >= 128),
        cpu.sbc(am).regs.zero == (cpu.sbc(am).regs.a == 0),
        cpu.sbc(am).regs.sign == (cpu.sbc(am).regs.a >= 128),
{
    lemma_nz_flags(cpu.am_load(am).regs, cpu.adc(am).regs.a);
    lemma_nz_flags(cpu.am_load(am).regs, cpu.sbc(am).regs.a);
}

/// A rotate to the left followed by a rotate to the right gives the byte
/// and the carry back, and so does a rotate to the right followed by one to
/// the left: the nine bits of byte and carry only go round.
pub proof fn lemma_rotates_undo_each_other(value: u8, carry: bool)
    ensures
        rotated_right(rotated_left(value, carry), value >= 128) == value,
        rotated_left(value, carry) % 2 == 1 <==> carry,
        rotated_left(rotated_right(value, carry), value % 2 == 1) == value,
        rotated_right(value, carry) >= 128 <==> carry,
{
}

/// Adding one to an operand and taking one from it wrap modulo 256: the
/// byte that is written back is the wrapped result, and zero and sign
/// follow it.
pub proof fn lemma_operand_arithmetic_wraps(cpu: CpuView, am: AddressingMode)
    ensures
        cpu.inc(am) == cpu.am_load(am).set_nz_flags(
            ((cpu.am_load_value(am) + 1) % 256) as u8,
        ).am_store(am, ((cpu.am_load_value(am) + 1) % 256) as u8),
        cpu.dec(am) == cpu.am_load(am).set_nz_flags(
            ((cpu.am_load_value(am) - 1) % 256) as u8,
        ).am_store(am, ((cpu.am_load_value(am) - 1) % 256) as u8),
        cpu.regs.a == 0xFF ==> cpu.inc(AddressingMode::Accumulator).regs.a == 0,
        cpu.regs.a == 0xFF ==> cpu.inc(AddressingMode::Accumulator).regs.zero,
        cpu.regs.a == 0xFF ==> !cpu.inc(AddressingMode::Accumulator).regs.sign,
{
    lemma_wrap_by_one(cpu.am_load_value(am));
    lemma_nz_flags(cpu.regs, 0);
}

/// A load leaves the operand in its register, with the zero flag set for
/// 0 and the sign flag set for 128 and more.
pub proof fn lemma_load_sets_flags(cpu: CpuView, am: AddressingMode)
    ensures
        cpu.lda(am).regs.a == cpu.am_load_value(am),
        cpu.lda(am).regs.zero == (cpu.am_load_value(am) == 0),
        cpu.lda(am).regs.sign == (cpu.am_load_value(am) >= 128),
        cpu.ldx(am).regs.x == cpu.am_load_value(am),
        cpu.ldx(am).regs.zero == (cpu.am_load_value(am) == 0),
        cpu.ldx(am).regs.sign == (cpu.am_load_value(am) >= 128),
        cpu.ldy(am).regs.y == cpu.am_load_value(am),
        cpu.ldy(am).regs.zero == (cpu.am_load_value(am) == 0),
        cpu.ldy(am).regs.sign == (cpu.am_load_value(am) >= 128),
{
    lemma_nz_flags(cpu.am_load(am).regs, cpu.am_load_value(am));
}

/// An indirect jump never leaves the page of its pointer for the high
/// byte of its target. When the pointer is the last byte of a page, the
/// high byte comes from the first byte of that page; otherwise from the
/// byte after the pointer.
pub proof fn lemma_indirect_jump_stays_in_page(pointer: u16)
    ensures
        indirect_high_address(pointer) / 256 == pointer / 256,
        pointer % 256 == 255 ==> indirect_high_address(pointer) % 256 == 0,
        pointer % 256 != 255 ==> indirect_high_address(pointer) == pointer + 1,
{
}

/// The target of an indirect jump through a pointer that is the last byte
/// of a page: the low byte comes from the pointer, the high byte from the
/// first byte of the pointer's own page, 255 bytes before the pointer.
pub proof fn lemma_indirect_jump_at_page_end(cpu: CpuView)
    requires
        cpu.fetch_word_value() % 256 == 255,
    ensures
        cpu.jmp_indirect().regs.pc == word(
            cpu.fetch_word().load_byte_value(cpu.fetch_word_value()),
            cpu.fetch_word().load_byte(cpu.fetch_word_value()).load_byte_value(
                (cpu.fetch_word_value() - 255) as u16,
            ),
        ),
{
}

/// A subroutine call followed by a return goes on right after the call:
/// the program counter is where it was after the three bytes of the call,
/// and the stack pointer is where it was before.
pub proof fn lemma_call_and_return(cpu: CpuView)
    requires
        cpu.wf(),
    ensures
        cpu.jsr().rts().regs.pc == cpu.fetch_word().regs.pc,
        cpu.jsr().rts().regs.s == cpu.regs.s,
{
    let fetched = cpu.fetch_word();
    assert(fetched.wf()) by {
        lemma_fetch_keeps_wf(cpu);
        lemma_fetch_keeps_wf(cpu.fetch());
    }
    lemma_push_pop_word(fetched, fetched.regs.pc.wrapping_sub(1));
}

} // verus!

//! The processor: its registers and flags, its access to the bus, the
//! stack, the addressing modes, and the execution of one instruction at a
//! time.

use vstd::prelude::*;
use crate::bits::lemma_byte_bits;
use crate::bits::lemma_word_bytes;
use crate::memory::CpuMemory;
use crate::memory::lemma_load_keeps_wf;
use crate::memory::lemma_store_keeps_wf;
use crate::memory::CpuMemoryView;
use crate::memory::OAM_DMA;
use crate::opcodes::Operand;
use crate::ppu::PpuView;

verus! {

/// The bit of the carry flag in the packed flags.
pub const CARRY_FLAG: u8 = 0x01;

/// The bit of the zero flag in the packed flags.
pub const ZERO_FLAG: u8 = 0x02;

/// The bit of the interrupt-disable flag in the packed flags.
pub const INTERRUPT_FLAG: u8 = 0x04;

/// The bit of the decimal flag in the packed flags.
pub const DECIMAL_FLAG: u8 = 0x08;

/// The bit of the break flag in the packed flags.
pub const BREAK_FLAG: u8 = 0x10;

/// The bit of the overflow flag in the packed flags.
pub const OVERFLOW_FLAG: u8 = 0x40;

/// The bit of the sign flag in the packed flags.
pub const NEGATIVE_FLAG: u8 = 0x80;

/// The page that holds the stack.
pub const STACK_PAGE: u16 = 0x0100;

/// The stack pointer at power-on.
pub const POWER_ON_STACK_POINTER: u8 = 0xFD;

/// Where the address of the handler of the non-maskable interrupt is kept.
pub const NMI_VECTOR: u16 = 0xFFFA;

/// Where the address at which execution starts is kept.
pub const RESET_VECTOR: u16 = 0xFFFC;

/// Where the address of the handler of `brk` is kept.
pub const BREAK_VECTOR: u16 = 0xFFFE;

/// The registers of the processor. The seven flags are kept apart and are
/// packed into one byte only where they go to the stack.
#[derive(Clone, Copy, Debug)]
pub struct Registers {
    pub a: u8,
    pub x: u8,
    pub y: u8,
    /// The stack pointer: the low byte of the next free address in the
    /// stack page.
    pub s: u8,
    pub pc: u16,
    pub carry: bool,
    pub zero: bool,
    pub interrupt: bool,
    pub decimal: bool,
    pub brk: bool,
    pub overflow: bool,
    pub sign: bool,
}

/// The value of a flag's bit in the packed byte: the bit itself if the
/// flag is set, else nothing.
pub open spec fn flag_bit(flag: bool, bit: u8) -> u8 {
    if flag {
        bit
    } else {
        0
    }
}

impl Registers {
    /// The registers with the stack pointer and the flags at their
    /// power-on values: the stack pointer at 0xFD, interrupts disabled and
    /// the break flag set, every other flag clear.
    pub open spec fn with_power_on_state(self) -> Registers {
        Registers {
            s: POWER_ON_STACK_POINTER,
            carry: false,
            zero: false,
            interrupt: true,
            decimal: false,
            brk: true,
            overflow: false,
            sign: false,
            ..self
        }
    }

    /// The registers at power-on: accumulator, index registers and program
    /// counter clear, stack pointer and flags at their power-on values.
    pub open spec fn power_on() -> Registers {
        Registers {
            a: 0,
            x: 0,
            y: 0,
            s: POWER_ON_STACK_POINTER,
            pc: 0,
            carry: false,
            zero: false,
            interrupt: true,
            decimal: false,
            brk: true,
            overflow: false,
            sign: false,
        }
    }

    /// The registers at power-on.
    pub fn new() -> (regs: Registers)
        ensures
            regs == Registers::power_on(),
    {
        Registers {
            a: 0,
            x: 0,
            y: 0,
            s: POWER_ON_STACK_POINTER,
            pc: 0,
            carry: false,
            zero: false,
            interrupt: true,
            decimal: false,
            brk: true,
            overflow: false,
            sign: false,
        }
    }

    /// The flags, packed into a byte. Bit 5 is always clear.
    pub open spec fn flags(self) -> u8 {
        (flag_bit(self.sign, NEGATIVE_FLAG) + flag_bit(self.overflow, OVERFLOW_FLAG) + flag_bit(
            self.brk,
            BREAK_FLAG,
        ) + flag_bit(self.decimal, DECIMAL_FLAG) + flag_bit(self.interrupt, INTERRUPT_FLAG)
            + flag_bit(self.zero, ZERO_FLAG) + flag_bit(self.carry, CARRY_FLAG)) as u8
    }

    /// The registers with the flags taken from a packed byte.
    pub open spec fn with_flags(self, flags: u8) -> Registers {
        Registers {
            sign: flags & NEGATIVE_FLAG != 0,
            overflow: flags & OVERFLOW_FLAG != 0,
            brk: flags & BREAK_FLAG != 0,
            decimal: flags & DECIMAL_FLAG != 0,
            interrupt: flags & INTERRUPT_FLAG != 0,
            zero: flags & ZERO_FLAG != 0,
            carry: flags & CARRY_FLAG != 0,
            ..self
        }
    }

    /// The registers with the zero and sign flags set after `value`: zero
    /// when it is 0, sign when its bit 7 is set.
    pub open spec fn with_nz(self, value: u8) -> Registers {
        Registers { zero: value == 0, sign: value & 0x80 != 0, ..self }
    }
}

/// Where the operand of an instruction is, once its address is worked
/// out.
#[derive(Clone, Copy, Debug)]
pub enum AddressingMode {
    /// In the accumulator.
    Accumulator,
    /// In the byte at the program counter.
    Immediate,
    /// On the bus, at this address.
    Memory(u16),
}

/// The processor, with the bus that it owns.
pub struct Cpu {
    pub regs: Registers,
    pub ram: CpuMemory,
    pub cycle: u64,
}

/// The mathematical content of the processor and of all that it reaches.
pub struct CpuView {
    pub regs: Registers,
    pub ram: CpuMemoryView,
    pub cycle: u64,
}

impl View for Cpu {
    type V = CpuView;

    open spec fn view(&self) -> CpuView {
        CpuView { regs: self.regs, ram: self.ram@, cycle: self.cycle }
    }
}

/// The address in the stack page whose low byte is `s`.
pub open spec fn stack_address(s: u8) -> u16 {
    (STACK_PAGE + s) as u16
}

/// The 16-bit word with the given low and high byte.
pub open spec fn word(low: u8, high: u8) -> u16 {
    (low + 256 * high) as u16
}

impl CpuView {
    /// The bus is well formed.
    pub open spec fn wf(self) -> bool {
        self.ram.wf()
    }

    /// The processor with other registers.
    pub open spec fn with_regs(self, regs: Registers) -> CpuView {
        CpuView { regs, ..self }
    }

    /// The byte that a read at `address` returns.
    pub open spec fn load_byte_value(self, address: u16) -> u8 {
        self.ram.load_value(address)
    }

    /// The processor after a read at `address`.
    pub open spec fn load_byte(self, address: u16) -> CpuView {
        CpuView { ram: self.ram.load(address), ..self }
    }

    /// The word that is read at `address`: the low byte there, the high
    /// byte at the next address, read in this order.
    pub open spec fn load_word_value(self, address: u16) -> u16 {
        word(
            self.load_byte_value(address),
            self.load_byte(address).load_byte_value(address.wrapping_add(1)),
        )
    }

    /// The processor after a word was read at `address`.
    pub open spec fn load_word(self, address: u16) -> CpuView {
        self.load_byte(address).load_byte(address.wrapping_add(1))
    }

    /// The cycles that a copy to object-attribute memory costs: 513, and
    /// one more when it starts on an odd cycle.
    pub open spec fn dma_cycles(self) -> u64 {
        if self.cycle % 2 == 1 {
            514
        } else {
            513
        }
    }

    /// The processor after a write of `value` at `address`. A write to
    /// 0x4014 also costs the cycles of the copy that it starts.
    pub open spec fn store_byte(self, address: u16, value: u8) -> CpuView {
        CpuView {
            ram: self.ram.store(address, value),
            cycle: if address == OAM_DMA {
                self.cycle.wrapping_add(self.dma_cycles())
            } else {
                self.cycle
            },
            ..self
        }
    }

    /// The processor after a write of a word at `address`: the low byte
    /// there, then the high byte at the next address.
    pub open spec fn store_word(self, address: u16, value: u16) -> CpuView {
        self.store_byte(address, (value % 256) as u8).store_byte(
            address.wrapping_add(1),
            (value / 256) as u8,
        )
    }

    /// The byte at the program counter.
    pub open spec fn fetch_value(self) -> u8 {
        self.load_byte_value(self.regs.pc)
    }

    /// The processor after the byte at the program counter was read: the
    /// program counter has moved on by one.
    pub open spec fn fetch(self) -> CpuView {
        CpuView {
            regs: Registers { pc: self.regs.pc.wrapping_add(1), ..self.regs },
            ..self.load_byte(self.regs.pc)
        }
    }

    /// The word at the program counter, low byte first.
    pub open spec fn fetch_word_value(self) -> u16 {
        word(self.fetch_value(), self.fetch().fetch_value())
    }

    /// The processor after the word at the program counter was read.
    pub open spec fn fetch_word(self) -> CpuView {
        self.fetch().fetch()
    }

    /// The processor after `value` was pushed: the byte is in the stack
    /// page where the stack pointer pointed, and the stack pointer is one
    /// less, wrapping from 0x00 to 0xFF.
    pub open spec fn push_byte(self, value: u8) -> CpuView {
        CpuView {
            regs: Registers { s: self.regs.s.wrapping_sub(1), ..self.regs },
            ..self.store_byte(stack_address(self.regs.s), value)
        }
    }

    /// The processor after a word was pushed: the high byte, then the low
    /// byte.
    pub open spec fn push_word(self, value: u16) -> CpuView {
        self.push_byte((value / 256) as u8).push_byte((value % 256) as u8)
    }

    /// The byte on top of the stack: the one in the stack page just above
    /// the stack pointer, wrapping from 0xFF to 0x00.
    pub open spec fn pop_byte_value(self) -> u8 {
        self.load_byte_value(stack_address(self.regs.s.wrapping_add(1)))
    }

    /// The processor after a byte was popped: the stack pointer is one
    /// more.
    pub open spec fn pop_byte(self) -> CpuView {
        CpuView {
            regs: Registers { s: self.regs.s.wrapping_add(1), ..self.regs },
            ..self.load_byte(stack_address(self.regs.s.wrapping_add(1)))
        }
    }

    /// The word on top of the stack, low byte on top.
    pub open spec fn pop_word_value(self) -> u16 {
        word(self.pop_byte_value(), self.pop_byte().pop_byte_value())
    }

    /// The processor after a word was popped.
    pub open spec fn pop_word(self) -> CpuView {
        self.pop_byte().pop_byte()
    }

    /// The processor with the zero and sign flags set after `value`.
    pub open spec fn set_nz_flags(self, value: u8) -> CpuView {
        self.with_regs(self.regs.with_nz(value))
    }

    /// The processor with the flags taken from a packed byte.
    pub open spec fn set_flags(self, flags: u8) -> CpuView {
        self.with_regs(self.regs.with_flags(flags))
    }

    /// The processor with another program counter.
    pub open spec fn jump(self, address: u16) -> CpuView {
        self.with_regs(Registers { pc: address, ..self.regs })
    }

    /// The address in page zero that the byte at the program counter
    /// names.
    pub open spec fn zero_page_address(self) -> u16 {
        self.fetch_value() as u16
    }

    /// The address in page zero that the byte at the program counter plus
    /// X names; the sum wraps within the page.
    pub open spec fn zero_page_x_address(self) -> u16 {
        self.fetch_value().wrapping_add(self.regs.x) as u16
    }

    /// The address in page zero that the byte at the program counter plus
    /// Y names; the sum wraps within the page.
    pub open spec fn zero_page_y_address(self) -> u16 {
        self.fetch_value().wrapping_add(self.regs.y) as u16
    }

    /// The address that the word at the program counter names.
    pub open spec fn absolute_address(self) -> u16 {
        self.fetch_word_value()
    }

    /// The word at the program counter plus X, wrapping at 16 bits.
    pub open spec fn absolute_x_address(self) -> u16 {
        self.fetch_word_value().wrapping_add(self.regs.x as u16)
    }

    /// The word at the program counter plus Y, wrapping at 16 bits.
    pub open spec fn absolute_y_address(self) -> u16 {
        self.fetch_word_value().wrapping_add(self.regs.y as u16)
    }

    /// The address in page zero where the pointer of an indirect
    /// addressing with X is kept.
    pub open spec fn indirect_x_pointer(self) -> u16 {
        self.fetch_value().wrapping_add(self.regs.x) as u16
    }

    /// The address that the pointer in page zero at the byte at the program
    /// counter plus X holds.
    pub open spec fn indirect_x_address(self) -> u16 {
        self.fetch().load_word_value(self.indirect_x_pointer())
    }

    /// The address that the pointer in page zero at the byte at the program
    /// counter holds, plus Y, wrapping at 16 bits.
    pub open spec fn indirect_y_address(self) -> u16 {
        self.fetch().load_word_value(self.fetch_value() as u16).wrapping_add(self.regs.y as u16)
    }

    /// Where the operand of an instruction is, for each way of naming it.
    pub open spec fn operand_mode(self, operand: Operand) -> AddressingMode
        recommends
            !(operand is Implied),
    {
        match operand {
            Operand::Implied => AddressingMode::Accumulator,
            Operand::Accumulator => AddressingMode::Accumulator,
            Operand::Immediate => AddressingMode::Immediate,
            Operand::ZeroPage => AddressingMode::Memory(self.zero_page_address()),
            Operand::ZeroPageX => AddressingMode::Memory(self.zero_page_x_address()),
            Operand::ZeroPageY => AddressingMode::Memory(self.zero_page_y_address()),
            Operand::Absolute => AddressingMode::Memory(self.absolute_address()),
            Operand::AbsoluteX => AddressingMode::Memory(self.absolute_x_address()),
            Operand::AbsoluteY => AddressingMode::Memory(self.absolute_y_address()),
            Operand::IndirectX => AddressingMode::Memory(self.indirect_x_address()),
            Operand::IndirectY => AddressingMode::Memory(self.indirect_y_address()),
        }
    }

    /// The processor after the address of an operand was worked out: the
    /// bytes that name the address are consumed, and a pointer in page zero
    /// was read. An immediate operand is consumed only when it is loaded.
    pub open spec fn resolve(self, operand: Operand) -> CpuView {
        match operand {
            Operand::Implied => self,
            Operand::Accumulator => self,
            Operand::Immediate => self,
            Operand::ZeroPage => self.fetch(),
            Operand::ZeroPageX => self.fetch(),
            Operand::ZeroPageY => self.fetch(),
            Operand::Absolute => self.fetch_word(),
            Operand::AbsoluteX => self.fetch_word(),
            Operand::AbsoluteY => self.fetch_word(),
            Operand::IndirectX => self.fetch().load_word(self.indirect_x_pointer()),
            Operand::IndirectY => self.fetch().load_word(self.fetch_value() as u16),
        }
    }

    /// The operand that is loaded through an addressing mode.
    pub open spec fn am_load_value(self, am: AddressingMode) -> u8 {
        match am {
            AddressingMode::Accumulator => self.regs.a,
            AddressingMode::Immediate => self.fetch_value(),
            AddressingMode::Memory(address) => self.load_byte_value(address),
        }
    }

    /// The processor after an operand was loaded through an addressing
    /// mode.
    pub open spec fn am_load(self, am: AddressingMode) -> CpuView {
        match am {
            AddressingMode::Accumulator => self,
            AddressingMode::Immediate => self.fetch(),
            AddressingMode::Memory(address) => self.load_byte(address),
        }
    }

    /// The processor after `value` was stored through an addressing mode.
    /// Nothing can be stored through the immediate mode.
    pub open spec fn am_store(self, am: AddressingMode, value: u8) -> CpuView
        recommends
            !(am is Immediate),
    {
        match am {
            AddressingMode::Accumulator => self.with_regs(Registers { a: value, ..self.regs }),
            AddressingMode::Immediate => self,
            AddressingMode::Memory(address) => self.store_byte(address, value),
        }
    }

    /// The processor after a reset: the program counter comes from the
    /// reset vector, the stack pointer and the flags have their power-on
    /// values, and the other registers are as they were.
    pub open spec fn reset(self) -> CpuView {
        self.load_word(RESET_VECTOR).with_regs(
            Registers { pc: self.load_word_value(RESET_VECTOR), ..self.regs.with_power_on_state() },
        )
    }
}

impl Cpu {
    /// See [`CpuView::wf`].
    pub open spec fn wf(&self) -> bool {
        self@.wf()
    }

    /// Whether the bus of the processor is well formed.
    pub fn is_well_formed(&self) -> (ok: bool)
        ensures
            ok == self.wf(),
    {
        self.ram.is_well_formed()
    }

    /// A processor at power-on that owns the bus `memory`.
    pub fn new(memory: CpuMemory) -> (cpu: Cpu)
        requires
            memory.wf(),
        ensures
            cpu.wf(),
            cpu@ == (CpuView { regs: Registers::power_on(), ram: memory@, cycle: 0 }),
    {
        Cpu { ram: memory, cycle: 0, regs: Registers::new() }
    }

    /// Resets the processor: loads the program counter from the reset
    /// vector and puts the stack pointer and the flags back to their power-on
    /// values.
    pub fn reset(&mut self)
        requires
            old(self).wf(),
        ensures
            final(self).wf(),
            final(self)@ == old(self)@.reset(),
            final(self)@.ram == old(self)@.ram,
    {
        let start = self.load_word(RESET_VECTOR);
        self.regs.pc = start;
        self.regs.s = POWER_ON_STACK_POINTER;
        self.regs.carry = false;
        self.regs.zero = false;
        self.regs.interrupt = true;
        self.regs.decimal = false;
        self.regs.brk = true;
        self.regs.overflow = false;
        self.regs.sign = false;
    }

    /// Reads the byte at `address` from the bus.
    pub fn load_byte(&mut self, address: u16) -> (value: u8)
        requires
            old(self).wf(),
        ensures
            final(self).wf(),
            value == old(self)@.load_byte_value(address),
            final(self)@ == old(self)@.load_byte(address),
    {
        self.ram.load(address)
    }

    /// Reads the word at `address` from the bus, low byte first. After
    /// 0xFFFF comes 0x0000.
    pub fn load_word(&mut self, address: u16) -> (value: u16)
        requires
            old(self).wf(),
        ensures
            final(self).wf(),
            value == old(self)@.load_word_value(address),
            final(self)@ == old(self)@.load_word(address),
    {
        let low = self.ram.load(address);
        let high = self.ram.load(address.wrapping_add(1));
        proof {
            lemma_word_bytes(0, low, high);
        }
        (low as u16) | ((high as u16) << 8)
    }

    /// Reads the word that a pointer in page zero holds. The high byte is
    /// read at the address after `address`, also when that is 0x0100.
    pub fn load_word_zero_page(&mut self, address: u16) -> (value: u16)
        requires
            old(self).wf(),
        ensures
            final(self).wf(),
            value == old(self)@.load_word_value(address),
            final(self)@ == old(self)@.load_word(address),
    {
        self.load_word(address)
    }

    /// Writes `value` at `address` to the bus. A write to 0x4014 starts a
    /// copy to object-attribute memory and costs 513 cycles, or 514 when the
    /// cycle count is odd.
    pub fn store_byte(&mut self, address: u16, value: u8)
        requires
            old(self).wf(),
        ensures
            final(self).wf(),
            final(self)@ == old(self)@.store_byte(address, value),
    {
        if address == OAM_DMA {
            let cost: u64 = if self.cycle % 2 == 1 {
                514
            } else {
                513
            };
            self.cycle = self.cycle.wrapping_add(cost);
        }
        self.ram.store(address, value)
    }

    /// Writes a word at `address` to the bus, low byte first.
    pub fn store_word(&mut self, address: u16, value: u16)
        requires
            old(self).wf(),
        ensures
            final(self).wf(),
            final(self)@ == old(self)@.store_word(address, value),
    {
        proof {
            lemma_word_bytes(value, 0, 0);
        }
        let low: u16 = value & 0xFF;
        let high: u16 = (value >> 8) & 0xFF;
        self.store_byte(address, low as u8);
        self.store_byte(address.wrapping_add(1), high as u8);
    }

    /// Reads the byte at the program counter and moves the program counter
    /// on.
    pub fn load_byte_and_inc_pc(&mut self) -> (value: u8)
        requires
            old(self).wf(),
        ensures
            final(self).wf(),
            value == old(self)@.fetch_value(),
            final(self)@ == old(self)@.fetch(),
    {
        let pc = self.regs.pc;
        let byte = self.load_byte(pc);
        self.regs.pc = self.regs.pc.wrapping_add(1);
        byte
    }

    /// Reads the word at the program counter and moves the program counter
    /// on.
    pub fn load_word_and_inc_pc(&mut self) -> (value: u16)
        requires
            old(self).wf(),
        ensures
            final(self).wf(),
            value == old(self)@.fetch_word_value(),
            final(self)@ == old(self)@.fetch_word(),
    {
        let low = self.load_byte_and_inc_pc();
        let high = self.load_byte_and_inc_pc();
        proof {
            lemma_word_bytes(0, low, high);
        }
        (low as u16) | ((high as u16) << 8)
    }

    /// Pushes a byte on the stack.
    pub fn push_byte(&mut self, value: u8)
        requires
            old(self).wf(),
        ensures
            final(self).wf(),
            final(self)@ == old(self)@.push_byte(value),
    {
        let stack_pointer = self.regs.s;
        self.store_byte(STACK_PAGE + stack_pointer as u16, value);
        self.regs.s = self.regs.s.wrapping_sub(1);
    }

    /// Pushes a word on the stack, high byte first.
    pub fn push_word(&mut self, value: u16)
        requires
            old(self).wf(),
        ensures
            final(self).wf(),
            final(self)@ == old(self)@.push_word(value),
    {
        proof {
            lemma_word_bytes(value, 0, 0);
        }
        let low: u16 = value & 0xFF;
        let high: u16 = (value >> 8) & 0xFF;
        self.push_byte(high as u8);
        self.push_byte(low as u8);
    }

    /// Pops a byte off the stack.
    pub fn pop_byte(&mut self) -> (value: u8)
        requires
            old(self).wf(),
        ensures
            final(self).wf(),
            value == old(self)@.pop_byte_value(),
            final(self)@ == old(self)@.pop_byte(),
    {
        let stack_pointer = self.regs.s.wrapping_add(1);
        let byte = self.load_byte(STACK_PAGE + stack_pointer as u16);
        self.regs.s = stack_pointer;
        byte
    }

    /// Pops a word off the stack, low byte first.
    pub fn pop_word(&mut self) -> (value: u16)
        requires
            old(self).wf(),
        ensures
            final(self).wf(),
            value == old(self)@.pop_word_value(),
            final(self)@ == old(self)@.pop_word(),
    {
        let low = self.pop_byte();
        let high = self.pop_byte();
        proof {
            lemma_word_bytes(0, low, high);
        }
        (low as u16) | ((high as u16) << 8)
    }

    /// Sets the zero and sign flags after `value`.
    pub fn set_nz_flags(&mut self, value: u8)
        ensures
            final(self)@ == old(self)@.set_nz_flags(value),
    {
        self.regs.zero = value == 0;
        self.regs.sign = (value & 0x80) != 0;
    }

    /// Works out a zero-page address.
    pub fn zero_page(&mut self) -> (am: AddressingMode)
        requires
            old(self).wf(),
        ensures
            final(self).wf(),
            am == AddressingMode::Memory(old(self)@.zero_page_address()),
            final(self)@ == old(self)@.fetch(),
    {
        let address = self.load_byte_and_inc_pc();
        AddressingMode::Memory(address as u16)
    }

    /// Works out a zero-page address indexed by X.
    pub fn zero_page_x(&mut self) -> (am: AddressingMode)
        requires
            old(self).wf(),
        ensures
            final(self).wf(),
            am == AddressingMode::Memory(old(self)@.zero_page_x_address()),
            final(self)@ == old(self)@.fetch(),
    {
        let address = self.load_byte_and_inc_pc().wrapping_add(self.regs.x);
        AddressingMode::Memory(address as u16)
    }

    /// Works out a zero-page address indexed by Y.
    pub fn zero_page_y(&mut self) -> (am: AddressingMode)
        requires
            old(self).wf(),
        ensures
            final(self).wf(),
            am == AddressingMode::Memory(old(self)@.zero_page_y_address()),
            final(self)@ == old(self)@.fetch(),
    {
        let address = self.load_byte_and_inc_pc().wrapping_add(self.regs.y);
        AddressingMode::Memory(address as u16)
    }

    /// Works out an absolute address.
    pub fn absolute(&mut self) -> (am: AddressingMode)
        requires
            old(self).wf(),
        ensures
            final(self).wf(),
            am == AddressingMode::Memory(old(self)@.absolute_address()),
            final(self)@ == old(self)@.fetch_word(),
    {
        let address = self.load_word_and_inc_pc();
        AddressingMode::Memory(address)
    }

    /// Works out an absolute address indexed by X.
    pub fn absolute_x(&mut self) -> (am: AddressingMode)
        requires
            old(self).wf(),
        ensures
            final(self).wf(),
            am == AddressingMode::Memory(old(self)@.absolute_x_address()),
            final(self)@ == old(self)@.fetch_word(),
    {
        let address = self.load_word_and_inc_pc().wrapping_add(self.regs.x as u16);
        AddressingMode::Memory(address)
    }

    /// Works out an absolute address indexed by Y.
    pub fn absolute_y(&mut self) -> (am: AddressingMode)
        requires
            old(self).wf(),
        ensures
            final(self).wf(),
            am == AddressingMode::Memory(old(self)@.absolute_y_address()),
            final(self)@ == old(self)@.fetch_word(),
    {
        let address = self.load_word_and_inc_pc().wrapping_add(self.regs.y as u16);
        AddressingMode::Memory(address)
    }

    /// Works out the address that a pointer in page zero, indexed by X,
    /// holds.
    pub fn indirect_x(&mut self) -> (am: AddressingMode)
        requires
            old(self).wf(),
        ensures
            final(self).wf(),
            am == AddressingMode::Memory(old(self)@.indirect_x_address()),
            final(self)@ == old(self)@.resolve(Operand::IndirectX),
    {
        let target = self.load_byte_and_inc_pc().wrapping_add(self.regs.x);
        let address = self.load_word_zero_page(target as u16);
        AddressingMode::Memory(address)
    }

    /// Works out the address that a pointer in page zero holds, indexed by
    /// Y.
    pub fn indirect_y(&mut self) -> (am: AddressingMode)
        requires
            old(self).wf(),
        ensures
            final(self).wf(),
            am == AddressingMode::Memory(old(self)@.indirect_y_address()),
            final(self)@ == old(self)@.resolve(Operand::IndirectY),
    {
        let target = self.load_byte_and_inc_pc();
        let address = self.load_word_zero_page(target as u16).wrapping_add(self.regs.y as u16);
        AddressingMode::Memory(address)
    }

    /// Works out where the operand of an instruction is.
    pub fn resolve(&mut self, operand: Operand) -> (am: AddressingMode)
        requires
            old(self).wf(),
            !(operand is Implied),
        ensures
            final(self).wf(),
            am == old(self)@.operand_mode(operand),
            final(self)@ == old(self)@.resolve(operand),
            operand is Immediate <==> am is Immediate,
    {
        match operand {
            Operand::Implied => AddressingMode::Accumulator,
            Operand::Accumulator => AddressingMode::Accumulator,
            Operand::Immediate => AddressingMode::Immediate,
            Operand::ZeroPage => self.zero_page(),
            Operand::ZeroPageX => self.zero_page_x(),
            Operand::ZeroPageY => self.zero_page_y(),
            Operand::Absolute => self.absolute(),
            Operand::AbsoluteX => self.absolute_x(),
            Operand::AbsoluteY => self.absolute_y(),
            Operand::IndirectX => self.indirect_x(),
            Operand::IndirectY => self.indirect_y(),
        }
    }

    /// Loads the operand through an addressing mode.
    pub fn am_load(&mut self, am: AddressingMode) -> (value: u8)
        requires
            old(self).wf(),
        ensures
            final(self).wf(),
            value == old(self)@.am_load_value(am),
            final(self)@ == old(self)@.am_load(am),
    {
        match am {
            AddressingMode::Accumulator => self.regs.a,
            AddressingMode::Immediate => self.load_byte_and_inc_pc(),
            AddressingMode::Memory(address) => self.load_byte(address),
        }
    }

    /// Stores `value` through an addressing mode, which is not the
    /// immediate one.
    pub fn am_store(&mut self, am: AddressingMode, value: u8)
        requires
            old(self).wf(),
            !(am is Immediate),
        ensures
            final(self).wf(),
            final(self)@ == old(self)@.am_store(am, value),
    {
        match am {
            AddressingMode::Accumulator => {
                self.regs.a = value;
            },
            AddressingMode::Immediate => {},
            AddressingMode::Memory(address) => {
                self.store_byte(address, value);
            },
        }
    }

    /// The flags, packed into a byte.
    pub fn get_flags(&self) -> (flags: u8)
        ensures
            flags == self.regs.flags(),
    {
        let mut p: u8 = 0;
        if self.regs.sign {
            p += NEGATIVE_FLAG;
        }
        if self.regs.overflow {
            p += OVERFLOW_FLAG;
        }
        if self.regs.brk {
            p += BREAK_FLAG;
        }
        if self.regs.decimal {
            p += DECIMAL_FLAG;
        }
        if self.regs.interrupt {
            p += INTERRUPT_FLAG;
        }
        if self.regs.zero {
            p += ZERO_FLAG;
        }
        if self.regs.carry {
            p += CARRY_FLAG;
        }
        p
    }

    /// Takes the flags from a packed byte.
    pub fn set_flags(&mut self, flags: u8)
        ensures
            final(self)@ == old(self)@.set_flags(flags),
    {
        self.regs.sign = (flags & NEGATIVE_FLAG) != 0;
        self.regs.overflow = (flags & OVERFLOW_FLAG) != 0;
        self.regs.brk = (flags & BREAK_FLAG) != 0;
        self.regs.decimal = (flags & DECIMAL_FLAG) != 0;
        self.regs.interrupt = (flags & INTERRUPT_FLAG) != 0;
        self.regs.zero = (flags & ZERO_FLAG) != 0;
        self.regs.carry = (flags & CARRY_FLAG) != 0;
    }
}

/// Zero and sign, read as numbers: the zero flag is set for 0 and for
/// nothing else, the sign flag for 128 and more.
pub proof fn lemma_nz_flags(regs: Registers, value: u8)
    ensures
        regs.with_nz(value).zero == (value == 0),
        regs.with_nz(value).sign == (value >= 128),
{
    lemma_byte_bits(value);
}

/// Packing the flags into a byte and taking them from that byte again
/// gives the same flags.
pub proof fn lemma_flags_round_trip(regs: Registers)
    ensures
        regs.with_flags(regs.flags()) == regs,
{
    lemma_byte_bits(regs.flags());
}

/// A write to the stack page lands in work RAM, and a read from the same
/// place gives the byte back.
pub proof fn lemma_stack_store_load(cpu: CpuView, s: u8, value: u8)
    requires
        cpu.wf(),
    ensures
        cpu.store_byte(stack_address(s), value).wf(),
        cpu.store_byte(stack_address(s), value).load_byte_value(stack_address(s)) == value,
        cpu.store_byte(stack_address(s), value).regs == cpu.regs,
        cpu.store_byte(stack_address(s), value).cycle == cpu.cycle,
        forall|other: u8|
            other != s ==> cpu.store_byte(stack_address(s), value).load_byte_value(
                #[trigger] stack_address(other),
            ) == cpu.load_byte_value(stack_address(other)),
        forall|other: u8|
            cpu.load_byte(#[trigger] stack_address(other)) == cpu,
{
}

/// A byte that was pushed is the byte that is popped next, and the pop
/// leaves the registers, the stack pointer among them, as they were before
/// the push. This holds wherever the stack pointer is, also where push or
/// pop wrap around the end of the stack page.
pub proof fn lemma_push_pop_byte(cpu: CpuView, value: u8)
    requires
        cpu.wf(),
    ensures
        cpu.push_byte(value).pop_byte_value() == value,
        cpu.push_byte(value).pop_byte().regs == cpu.regs,
        cpu.push_byte(value).pop_byte() == cpu.store_byte(stack_address(cpu.regs.s), value),
{
    lemma_stack_store_load(cpu, cpu.regs.s, value);
}

/// A word that was pushed is the word that is popped next, and the pop
/// leaves the registers, the stack pointer among them, as they were before
/// the push. This holds wherever the stack pointer is, also where the word
/// lies across the end of the stack page.
pub proof fn lemma_push_pop_word(cpu: CpuView, value: u16)
    requires
        cpu.wf(),
    ensures
        cpu.push_word(value).pop_word_value() == value,
        cpu.push_word(value).pop_word().regs == cpu.regs,
{
    let high = (value / 256) as u8;
    let low = (value % 256) as u8;
    let first = cpu.push_byte(high);
    lemma_stack_store_load(cpu, cpu.regs.s, high);
    lemma_push_pop_byte(first, low);
    lemma_stack_store_load(first, first.regs.s, low);
}

/// What a write to 0x4014 does: object-attribute memory holds the 256
/// bytes of the page of work RAM that the written byte names, the cycle
/// count has grown by 513, or by 514 if it was odd, and nothing else has
/// changed.
pub proof fn lemma_dma_store(cpu: CpuView, page: u8)
    requires
        cpu.wf(),
    ensures
        cpu.store_byte(OAM_DMA, page).ram.ppu.oam.len() == 256,
        forall|i: int|
            0 <= i < 256 ==> #[trigger] cpu.store_byte(OAM_DMA, page).ram.ppu.oam[i]
                == cpu.ram.ram[(256 * page + i) % 0x800],
        cpu.cycle % 2 == 0 ==> cpu.store_byte(OAM_DMA, page).cycle == (cpu.cycle + 513)
            % 0x1_0000_0000_0000_0000,
        cpu.cycle % 2 == 1 ==> cpu.store_byte(OAM_DMA, page).cycle == (cpu.cycle + 514)
            % 0x1_0000_0000_0000_0000,
        cpu.store_byte(OAM_DMA, page).regs == cpu.regs,
        cpu.store_byte(OAM_DMA, page).ram.ram == cpu.ram.ram,
        cpu.store_byte(OAM_DMA, page).ram.cartridge == cpu.ram.cartridge,
        cpu.store_byte(OAM_DMA, page).ram.controller == cpu.ram.controller,
        cpu.store_byte(OAM_DMA, page).ram.ppu == (PpuView {
            oam: cpu.store_byte(OAM_DMA, page).ram.ppu.oam,
            ..cpu.ram.ppu
        }),
{
}

/// An address in page zero is the operand byte itself, with or without an
/// index: the high byte of the address is always 0.
pub proof fn lemma_zero_page_addresses(cpu: CpuView)
    ensures
        cpu.zero_page_address() == cpu.fetch_value(),
        cpu.zero_page_x_address() == (cpu.fetch_value() + cpu.regs.x) % 256,
        cpu.zero_page_y_address() == (cpu.fetch_value() + cpu.regs.y) % 256,
        cpu.operand_mode(Operand::ZeroPage) == AddressingMode::Memory(cpu.fetch_value() as u16),
{
}

/// Reads, writes, pushes and pops leave the machine well formed, and so
/// does the working out of an operand's address.
pub proof fn lemma_access_keeps_wf(cpu: CpuView)
    requires
        cpu.wf(),
    ensures
        forall|address: u16| (#[trigger] cpu.load_byte(address)).wf(),
        forall|address: u16| (#[trigger] cpu.load_word(address)).wf(),
        forall|address: u16, value: u8| (#[trigger] cpu.store_byte(address, value)).wf(),
        forall|address: u16, value: u16| (#[trigger] cpu.store_word(address, value)).wf(),
        cpu.fetch().wf(),
        cpu.fetch_word().wf(),
        forall|value: u8| (#[trigger] cpu.push_byte(value)).wf(),
        forall|value: u16| (#[trigger] cpu.push_word(value)).wf(),
        cpu.pop_byte().wf(),
        cpu.pop_word().wf(),
        forall|operand: Operand| (#[trigger] cpu.resolve(operand)).wf(),
        forall|am: AddressingMode| (#[trigger] cpu.am_load(am)).wf(),
        forall|am: AddressingMode, value: u8| (#[trigger] cpu.am_store(am, value)).wf(),
{
    assert forall|address: u16| (#[trigger] cpu.load_byte(address)).wf() by {
        lemma_load_keeps_wf(cpu.ram, address);
    }
    assert forall|address: u16| (#[trigger] cpu.load_word(address)).wf() by {
        lemma_load_keeps_wf(cpu.ram, address);
        lemma_load_keeps_wf(cpu.ram.load(address), address.wrapping_add(1));
    }
    assert forall|address: u16, value: u8| (#[trigger] cpu.store_byte(address, value)).wf() by {
        lemma_store_keeps_wf(cpu.ram, address, value);
    }
    assert forall|address: u16, value: u16| (#[trigger] cpu.store_word(address, value)).wf() by {
        let low = (value % 256) as u8;
        lemma_store_keeps_wf(cpu.ram, address, low);
        lemma_store_keeps_wf(cpu.ram.store(address, low), address.wrapping_add(1), (value / 256) as u8);
    }
    lemma_load_keeps_wf(cpu.ram, cpu.regs.pc);
    lemma_load_keeps_wf(cpu.fetch().ram, cpu.fetch().regs.pc);
    assert forall|value: u8| (#[trigger] cpu.push_byte(value)).wf() by {
        lemma_store_keeps_wf(cpu.ram, stack_address(cpu.regs.s), value);
    }
    assert forall|value: u16| (#[trigger] cpu.push_word(value)).wf() by {
        let high = (value / 256) as u8;
        lemma_store_keeps_wf(cpu.ram, stack_address(cpu.regs.s), high);
        lemma_store_keeps_wf(
            cpu.push_byte(high).ram,
            stack_address(cpu.push_byte(high).regs.s),
            (value % 256) as u8,
        );
    }
    lemma_load_keeps_wf(cpu.ram, stack_address(cpu.regs.s.wrapping_add(1)));
    lemma_load_keeps_wf(cpu.pop_byte().ram, stack_address(cpu.pop_byte().regs.s.wrapping_add(1)));
    assert forall|operand: Operand| (#[trigger] cpu.resolve(operand)).wf() by {
        lemma_load_keeps_wf(cpu.fetch().ram, cpu.indirect_x_pointer());
        lemma_load_keeps_wf(
            cpu.fetch().ram.load(cpu.indirect_x_pointer()),
            cpu.indirect_x_pointer().wrapping_add(1),
        );
        let pointer = cpu.fetch_value() as u16;
        lemma_load_keeps_wf(cpu.fetch().ram, pointer);
        lemma_load_keeps_wf(cpu.fetch().ram.load(pointer), pointer.wrapping_add(1));
    }
    assert forall|am: AddressingMode, value: u8| (#[trigger] cpu.am_store(am, value)).wf() by {
        match am {
            AddressingMode::Memory(address) => {
                lemma_store_keeps_wf(cpu.ram, address, value);
            },
            _ => {},
        }
    }
}

/// Reading the byte at the program counter leaves the bus well formed.
pub proof fn lemma_fetch_keeps_wf(cpu: CpuView)
    requires
        cpu.wf(),
    ensures
        cpu.fetch().wf(),
{
    lemma_load_keeps_wf(cpu.ram, cpu.regs.pc);
}

} // verus!

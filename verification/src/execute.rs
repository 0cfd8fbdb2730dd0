//! Carrying out instructions: from an opcode to its effect, and the
//! processor's step.

use vstd::prelude::*;
use crate::cpu::Cpu;
use crate::cpu::CpuView;
use crate::opcodes::cycles;
use crate::opcodes::decode;
use crate::opcodes::is_supported;
use crate::opcodes::spec_decode;
use crate::opcodes::Operand;
use crate::opcodes::Operation;
use crate::opcodes::CYCLES_PER_INSTRUCTION;

verus! {

/// An opcode that stands for no instruction, and where it was met.
#[derive(Clone, Copy, Debug)]
pub struct UnknownOpcode {
    pub opcode: u8,
    /// The address from which the opcode was read.
    pub address: u16,
}

impl CpuView {
    /// The processor after it has carried out `operation` on `operand`,
    /// the opcode already consumed.
    pub open spec fn apply(self, operation: Operation, operand: Operand) -> CpuView
        recommends
            operation.accepts(operand),
    {
        match operation {
            Operation::Nop(to_skip) => self.nop(to_skip),
            Operation::Tax => self.tax(),
            Operation::Txa => self.txa(),
            Operation::Dex => self.dex(),
            Operation::Inx => self.inx(),
            Operation::Tay => self.tay(),
            Operation::Tya => self.tya(),
            Operation::Dey => self.dey(),
            Operation::Iny => self.iny(),
            Operation::Txs => self.txs(),
            Operation::Tsx => self.tsx(),
            Operation::Rol => self.resolve(operand).rol(self.operand_mode(operand)),
            Operation::Ror => self.resolve(operand).ror(self.operand_mode(operand)),
            Operation::Asl => self.resolve(operand).asl(self.operand_mode(operand)),
            Operation::Lsr => self.resolve(operand).lsr(self.operand_mode(operand)),
            Operation::And => self.resolve(operand).and(self.operand_mode(operand)),
            Operation::Eor => self.resolve(operand).eor(self.operand_mode(operand)),
            Operation::Ora => self.resolve(operand).ora(self.operand_mode(operand)),
            Operation::Clc => self.clc(),
            Operation::Sec => self.sec(),
            Operation::Cli => self.cli(),
            Operation::Sei => self.sei(),
            Operation::Clv => self.clv(),
            Operation::Cld => self.cld(),
            Operation::Sed => self.sed(),
            Operation::Bpl => self.bpl(),
            Operation::Bmi => self.bmi(),
            Operation::Bvc => self.bvc(),
            Operation::Bvs => self.bvs(),
            Operation::Bcc => self.bcc(),
            Operation::Bcs => self.bcs(),
            Operation::Bne => self.bne(),
            Operation::Beq => self.beq(),
            Operation::Compare => self.resolve(operand).compare(self.operand_mode(operand)),
            Operation::Cpx => self.resolve(operand).cpx(self.operand_mode(operand)),
            Operation::Cpy => self.resolve(operand).cpy(self.operand_mode(operand)),
            Operation::Bit => self.resolve(operand).bit(self.operand_mode(operand)),
            Operation::Jmp => self.jmp(),
            Operation::JmpIndirect => self.jmp_indirect(),
            Operation::Jsr => self.jsr(),
            Operation::Php => self.php(),
            Operation::Plp => self.plp(),
            Operation::Pha => self.pha(),
            Operation::Pla => self.pla(),
            Operation::Dec => self.resolve(operand).dec(self.operand_mode(operand)),
            Operation::Inc => self.resolve(operand).inc(self.operand_mode(operand)),
            Operation::Adc => self.resolve(operand).adc(self.operand_mode(operand)),
            Operation::Sbc => self.resolve(operand).sbc(self.operand_mode(operand)),
            Operation::Lda => self.resolve(operand).lda(self.operand_mode(operand)),
            Operation::Ldx => self.resolve(operand).ldx(self.operand_mode(operand)),
            Operation::Ldy => self.resolve(operand).ldy(self.operand_mode(operand)),
            Operation::Sta => self.resolve(operand).sta(self.operand_mode(operand)),
            Operation::Stx => self.resolve(operand).stx(self.operand_mode(operand)),
            Operation::Sty => self.resolve(operand).sty(self.operand_mode(operand)),
            Operation::Brk => self.brk(),
            Operation::Rti => self.rti(),
            Operation::Rts => self.rts(),
        }
    }

    /// The processor after it has carried out the instruction that
    /// `instruction` stands for, the opcode already consumed.
    pub open spec fn execute_instruction(self, instruction: u8) -> CpuView
        recommends
            is_supported(instruction),
    {
        match spec_decode(instruction) {
            Some((operation, operand)) => self.apply(operation, operand),
            None => self,
        }
    }

    /// Whether the byte at the program counter stands for an instruction.
    pub open spec fn next_opcode_supported(self) -> bool {
        is_supported(self.fetch_value())
    }

    /// The processor with `cost` more cycles on its count.
    pub open spec fn spend(self, cost: u8) -> CpuView {
        CpuView { cycle: self.cycle.wrapping_add(cost as u64), ..self }
    }

    /// The processor one instruction later: the opcode at the program
    /// counter is consumed, its instruction is carried out, and the cycle
    /// count has grown by what the opcode costs.
    pub open spec fn step(self) -> CpuView
        recommends
            self.next_opcode_supported(),
    {
        self.fetch().execute_instruction(self.fetch_value()).spend(
            CYCLES_PER_INSTRUCTION[self.fetch_value() as int],
        )
    }
}

impl Cpu {
    /// Carries out `operation` on `operand`, the opcode already consumed.
    pub fn apply(&mut self, operation: Operation, operand: Operand)
        requires
            old(self).wf(),
            operation.accepts(operand),
        ensures
            final(self).wf(),
            final(self)@ == old(self)@.apply(operation, operand),
    {
        match operation {
            Operation::Nop(to_skip) => self.nop(to_skip),
            Operation::Tax => self.tax(),
            Operation::Txa => self.txa(),
            Operation::Dex => self.dex(),
            Operation::Inx => self.inx(),
            Operation::Tay => self.tay(),
            Operation::Tya => self.tya(),
            Operation::Dey => self.dey(),
            Operation::Iny => self.iny(),
            Operation::Txs => self.txs(),
            Operation::Tsx => self.tsx(),
            Operation::Rol => {
                let am = self.resolve(operand);
                self.rol(am)
            },
            Operation::Ror => {
                let am = self.resolve(operand);
                self.ror(am)
            },
            Operation::Asl => {
                let am = self.resolve(operand);
                self.asl(am)
            },
            Operation::Lsr => {
                let am = self.resolve(operand);
                self.lsr(am)
            },
            Operation::And => {
                let am = self.resolve(operand);
                self.and(am)
            },
            Operation::Eor => {
                let am = self.resolve(operand);
                self.eor(am)
            },
            Operation::Ora => {
                let am = self.resolve(operand);
                self.ora(am)
            },
            Operation::Clc => self.clc(),
            Operation::Sec => self.sec(),
            Operation::Cli => self.cli(),
            Operation::Sei => self.sei(),
            Operation::Clv => self.clv(),
            Operation::Cld => self.cld(),
            Operation::Sed => self.sed(),
            Operation::Bpl => self.bpl(),
            Operation::Bmi => self.bmi(),
            Operation::Bvc => self.bvc(),
            Operation::Bvs => self.bvs(),
            Operation::Bcc => self.bcc(),
            Operation::Bcs => self.bcs(),
            Operation::Bne => self.bne(),
            Operation::Beq => self.beq(),
            Operation::Compare => {
                let am = self.resolve(operand);
                self.cmp(am)
            },
            Operation::Cpx => {
                let am = self.resolve(operand);
                self.cpx(am)
            },
            Operation::Cpy => {
                let am = self.resolve(operand);
                self.cpy(am)
            },
            Operation::Bit => {
                let am = self.resolve(operand);
                self.bit(am)
            },
            Operation::Jmp => self.jmp(),
            Operation::JmpIndirect => self.jmp_indirect(),
            Operation::Jsr => self.jsr(),
            Operation::Php => self.php(),
            Operation::Plp => self.plp(),
            Operation::Pha => self.pha(),
            Operation::Pla => self.pla(),
            Operation::Dec => {
                let am = self.resolve(operand);
                self.dec(am)
            },
            Operation::Inc => {
                let am = self.resolve(operand);
                self.inc(am)
            },
            Operation::Adc => {
                let am = self.resolve(operand);
                self.adc(am)
            },
            Operation::Sbc => {
                let am = self.resolve(operand);
                self.sbc(am)
            },
            Operation::Lda => {
                let am = self.resolve(operand);
                self.lda(am)
            },
            Operation::Ldx => {
                let am = self.resolve(operand);
                self.ldx(am)
            },
            Operation::Ldy => {
                let am = self.resolve(operand);
                self.ldy(am)
            },
            Operation::Sta => {
                let am = self.resolve(operand);
                self.sta(am)
            },
            Operation::Stx => {
                let am = self.resolve(operand);
                self.stx(am)
            },
            Operation::Sty => {
                let am = self.resolve(operand);
                self.sty(am)
            },
            Operation::Brk => self.brk(),
            Operation::Rti => self.rti(),
            Operation::Rts => self.rts(),
        }
    }

    /// Carries out the instruction that `instruction` stands for, the
    /// opcode already consumed. The opcode must stand for an instruction.
    pub fn execute_instruction(&mut self, instruction: u8)
        requires
            old(self).wf(),
            is_supported(instruction),
        ensures
            final(self).wf(),
            final(self)@ == old(self)@.execute_instruction(instruction),
    {
        match decode(instruction) {
            Some((operation, operand)) => self.apply(operation, operand),
            None => {},
        }
    }

    /// Carries out one instruction: reads the opcode at the program
    /// counter, does what it stands for, and adds its cost to the cycle
    /// count. The opcode must stand for an instruction; [`Cpu::try_step`]
    /// is for a caller who cannot know.
    pub fn step(&mut self)
        requires
            old(self).wf(),
            old(self)@.next_opcode_supported(),
        ensures
            final(self).wf(),
            final(self)@ == old(self)@.step(),
    {
        let instruction = self.load_byte_and_inc_pc();
        self.execute_instruction(instruction);
        self.cycle = self.cycle.wrapping_add(cycles(instruction) as u64);
    }

    /// Carries out one instruction if the opcode at the program counter
    /// stands for one. If it does not, the opcode is consumed, nothing else
    /// happens, and the opcode comes back with the address it was read from.
    pub fn try_step(&mut self) -> (outcome: Result<(), UnknownOpcode>)
        requires
            old(self).wf(),
        ensures
            final(self).wf(),
            outcome is Ok <==> old(self)@.next_opcode_supported(),
            outcome is Ok ==> final(self)@ == old(self)@.step(),
            outcome matches Err(unknown) ==> unknown.opcode == old(self)@.fetch_value(),
            outcome matches Err(unknown) ==> unknown.address == old(self).regs.pc,
            outcome is Err ==> final(self)@ == old(self)@.fetch(),
    {
        let address = self.regs.pc;
        let instruction = self.load_byte_and_inc_pc();
        match decode(instruction) {
            Some((operation, operand)) => {
                self.apply(operation, operand);
                self.cycle = self.cycle.wrapping_add(cycles(instruction) as u64);
                Ok(())
            },
            None => Err(UnknownOpcode { opcode: instruction, address: address }),
        }
    }
}

} // verus!

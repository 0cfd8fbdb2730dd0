use sen::cartridge::Cartridge;
use sen::controller::Controller;
use sen::cpu::AddressingMode;
use sen::cpu::Cpu;
use sen::cpu::Registers;
use sen::execute::UnknownOpcode;
use sen::instructions::add_with_carry;
use sen::instructions::rotate_left;
use sen::instructions::rotate_right;
use sen::instructions::shift_left;
use sen::instructions::shift_right;
use sen::instructions::subtract_with_borrow;
use sen::memory::CpuMemory;
use sen::opcodes::cycles;
use sen::opcodes::decode;
use sen::opcodes::Operand;
use sen::opcodes::Operation;
use sen::ppu::Ppu;

fn machine_image() -> Vec<u8> {
    let mut image = vec![0u8; 16 + 0x4000 + 0x2000];
    image[4] = 1;
    image[5] = 1;
    // The three vectors, at the end of the one bank of program memory.
    image[16 + 0x3FFA] = 0x00;
    image[16 + 0x3FFB] = 0x90;
    image[16 + 0x3FFC] = 0x00;
    image[16 + 0x3FFD] = 0x80;
    image[16 + 0x3FFE] = 0x00;
    image[16 + 0x3FFF] = 0xA0;
    image
}

fn machine() -> Cpu {
    let image = machine_image();
    let cartridge = Cartridge::load(&image).unwrap();
    let ppu = Ppu::new(Cartridge::load(&image).unwrap());
    let mut cpu = Cpu::new(CpuMemory::new(cartridge, ppu, Controller::new()));
    cpu.regs.pc = 0x0100;
    cpu
}

fn program(cpu: &mut Cpu, at: u16, bytes: &[u8]) {
    for (i, byte) in bytes.iter().enumerate() {
        cpu.store_byte(at + i as u16, *byte);
    }
}

#[test]
fn power_on_values() {
    let cpu = machine();
    assert_eq!(cpu.regs.a, 0);
    assert_eq!(cpu.regs.x, 0);
    assert_eq!(cpu.regs.y, 0);
    assert_eq!(cpu.regs.s, 0xFD);
    assert_eq!(cpu.cycle, 0);
    assert!(cpu.regs.interrupt);
    assert!(cpu.regs.brk);
    assert!(!cpu.regs.carry);
    assert!(!cpu.regs.zero);
    assert!(!cpu.regs.decimal);
    assert!(!cpu.regs.overflow);
    assert!(!cpu.regs.sign);
    assert_eq!(cpu.get_flags(), 0x14);
    assert!(cpu.is_well_formed());
}

#[test]
fn processor_registers_at_power_on() {
    let regs = Registers::new();
    assert_eq!((regs.a, regs.x, regs.y, regs.s, regs.pc), (0, 0, 0, 0xFD, 0));
    assert!(regs.interrupt && regs.brk);
    assert!(!regs.carry && !regs.zero && !regs.decimal && !regs.overflow && !regs.sign);
}

#[test]
fn reset_loads_the_vector_and_power_on_state() {
    let mut cpu = machine();
    cpu.regs.a = 0x11;
    cpu.regs.x = 0x22;
    cpu.regs.y = 0x33;
    cpu.regs.s = 0x40;
    cpu.regs.carry = true;
    cpu.regs.interrupt = false;
    cpu.regs.brk = false;
    cpu.regs.sign = true;
    cpu.reset();
    assert_eq!(cpu.regs.pc, 0x8000);
    assert_eq!(cpu.regs.s, 0xFD);
    assert_eq!(cpu.get_flags(), 0x14);
    assert_eq!(cpu.regs.a, 0x11);
    assert_eq!(cpu.regs.x, 0x22);
    assert_eq!(cpu.regs.y, 0x33);
    assert_eq!(cpu.cycle, 0);
}

#[test]
fn inx_wraps_to_zero() {
    let mut cpu = machine();
    cpu.regs.x = 0xFF;
    program(&mut cpu, 0x0100, &[0xE8]);
    cpu.step();
    assert_eq!(cpu.regs.x, 0x00);
    assert!(cpu.regs.zero);
    assert!(!cpu.regs.sign);
    assert_eq!(cpu.regs.pc, 0x0101);
    assert_eq!(cpu.cycle, 2);
}

#[test]
fn dex_dey_iny_wrap() {
    let mut cpu = machine();
    cpu.regs.x = 0x00;
    cpu.regs.y = 0xFF;
    program(&mut cpu, 0x0100, &[0xCA, 0xC8, 0x88, 0x88]);
    cpu.step();
    assert_eq!(cpu.regs.x, 0xFF);
    assert!(cpu.regs.sign);
    assert!(!cpu.regs.zero);
    cpu.step();
    assert_eq!(cpu.regs.y, 0x00);
    assert!(cpu.regs.zero);
    cpu.step();
    assert_eq!(cpu.regs.y, 0xFF);
    cpu.step();
    assert_eq!(cpu.regs.y, 0xFE);
    assert_eq!(cpu.cycle, 8);
}

#[test]
fn inc_and_dec_wrap_in_memory() {
    let mut cpu = machine();
    cpu.store_byte(0x0010, 0xFF);
    program(&mut cpu, 0x0100, &[0xE6, 0x10, 0xC6, 0x10]);
    cpu.step();
    assert_eq!(cpu.load_byte(0x0010), 0x00);
    assert!(cpu.regs.zero);
    assert!(!cpu.regs.sign);
    cpu.step();
    assert_eq!(cpu.load_byte(0x0010), 0xFF);
    assert!(!cpu.regs.zero);
    assert!(cpu.regs.sign);
    assert_eq!(cpu.cycle, 10);
}

#[test]
fn adc_carry_and_overflow() {
    let mut cpu = machine();
    cpu.regs.a = 0x7F;
    cpu.regs.carry = true;
    program(&mut cpu, 0x0100, &[0x69, 0x00, 0x69, 0x80, 0x69, 0xFF]);
    cpu.step();
    assert_eq!(cpu.regs.a, 0x80);
    assert!(!cpu.regs.carry);
    assert!(cpu.regs.overflow);
    assert!(cpu.regs.sign);
    assert!(!cpu.regs.zero);
    // 0x80 + 0x80 = 0x100
    cpu.step();
    assert_eq!(cpu.regs.a, 0x00);
    assert!(cpu.regs.carry);
    assert!(cpu.regs.overflow);
    assert!(cpu.regs.zero);
    assert!(!cpu.regs.sign);
    // 0x00 + 0xFF + 1 = 0x100
    cpu.step();
    assert_eq!(cpu.regs.a, 0x00);
    assert!(cpu.regs.carry);
    assert!(!cpu.regs.overflow);
    assert!(cpu.regs.zero);
}

#[test]
fn sbc_takes_the_operand_from_the_accumulator() {
    let mut cpu = machine();
    cpu.regs.a = 0x05;
    cpu.regs.carry = true;
    program(&mut cpu, 0x0100, &[0xE9, 0x03, 0xE9, 0x03, 0xE9, 0xFF, 0xE9, 0x01]);
    // 5 - 3 = 2, no borrow
    cpu.step();
    assert_eq!(cpu.regs.a, 0x02);
    assert!(cpu.regs.carry);
    assert!(!cpu.regs.zero);
    assert!(!cpu.regs.sign);
    assert!(!cpu.regs.overflow);
    // 2 - 3 = -1: a borrow
    cpu.step();
    assert_eq!(cpu.regs.a, 0xFF);
    assert!(!cpu.regs.carry);
    assert!(!cpu.regs.zero);
    assert!(cpu.regs.sign);
    // 0xFF - 0xFF - 1 = -1: the borrow of the last step is taken too
    cpu.step();
    assert_eq!(cpu.regs.a, 0xFF);
    assert!(!cpu.regs.carry);
    assert!(cpu.regs.sign);
    assert!(!cpu.regs.overflow);
    // 0xFF - 0x01 - 1 = 0xFD
    cpu.step();
    assert_eq!(cpu.regs.a, 0xFD);
    assert!(cpu.regs.carry);
    assert_eq!(cpu.cycle, 8);
}

#[test]
fn sbc_to_zero_and_its_overflow() {
    let mut cpu = machine();
    cpu.regs.a = 0x40;
    cpu.regs.carry = true;
    cpu.store_byte(0x0010, 0x40);
    program(&mut cpu, 0x0100, &[0xE5, 0x10, 0xE9, 0x01]);
    cpu.step();
    assert_eq!(cpu.regs.a, 0x00);
    assert!(cpu.regs.carry);
    assert!(cpu.regs.zero);
    assert!(!cpu.regs.sign);
    assert!(!cpu.regs.overflow);
    // 0 - 1 = 0xFF: accumulator and operand are both positive, the result is not
    cpu.step();
    assert_eq!(cpu.regs.a, 0xFF);
    assert!(!cpu.regs.carry);
    assert!(cpu.regs.sign);
    assert!(cpu.regs.overflow);
}

#[test]
fn push_then_pop_byte_at_every_stack_pointer() {
    let mut cpu = machine();
    for s in 0..=255u8 {
        cpu.regs.s = s;
        cpu.push_byte(s ^ 0xA5);
        assert_eq!(cpu.regs.s, s.wrapping_sub(1));
        assert_eq!(cpu.pop_byte(), s ^ 0xA5);
        assert_eq!(cpu.regs.s, s);
    }
}

#[test]
fn push_byte_wraps_within_the_stack_page() {
    let mut cpu = machine();
    cpu.regs.s = 0x00;
    cpu.push_byte(0xAB);
    assert_eq!(cpu.regs.s, 0xFF);
    assert_eq!(cpu.load_byte(0x0100), 0xAB);
    cpu.regs.s = 0xFF;
    cpu.store_byte(0x0100, 0x77);
    cpu.store_byte(0x0200, 0x11);
    assert_eq!(cpu.pop_byte(), 0x77);
    assert_eq!(cpu.regs.s, 0x00);
}

#[test]
fn push_then_pop_word_at_every_stack_pointer() {
    let mut cpu = machine();
    for s in 0..=255u8 {
        cpu.regs.s = s;
        let value = 0xBE00 | s as u16;
        cpu.push_word(value);
        assert_eq!(cpu.regs.s, s.wrapping_sub(2));
        assert_eq!(cpu.pop_word(), value);
        assert_eq!(cpu.regs.s, s);
    }
}

#[test]
fn push_word_puts_the_high_byte_first() {
    let mut cpu = machine();
    cpu.regs.s = 0xFD;
    cpu.push_word(0x1234);
    assert_eq!(cpu.load_byte(0x01FD), 0x12);
    assert_eq!(cpu.load_byte(0x01FC), 0x34);
    assert_eq!(cpu.regs.s, 0xFB);
    cpu.regs.s = 0x00;
    cpu.push_word(0xCAFE);
    assert_eq!(cpu.load_byte(0x0100), 0xCA);
    assert_eq!(cpu.load_byte(0x01FF), 0xFE);
    assert_eq!(cpu.regs.s, 0xFE);
}

#[test]
fn lda_immediate_ff_sets_sign() {
    let mut cpu = machine();
    program(&mut cpu, 0x0100, &[0xA9, 0xFF]);
    cpu.step();
    assert_eq!(cpu.regs.a, 0xFF);
    assert!(cpu.regs.sign);
    assert!(!cpu.regs.zero);
    assert_eq!(cpu.regs.pc, 0x0102);
    assert_eq!(cpu.cycle, 2);
}

#[test]
fn lda_immediate_zero_sets_zero() {
    let mut cpu = machine();
    cpu.regs.a = 0x55;
    program(&mut cpu, 0x0100, &[0xA9, 0x00]);
    cpu.step();
    assert_eq!(cpu.regs.a, 0x00);
    assert!(cpu.regs.zero);
    assert!(!cpu.regs.sign);
}

#[test]
fn sta_absolute_round_trips_through_work_ram() {
    let mut cpu = machine();
    cpu.regs.a = 0xF9;
    program(&mut cpu, 0x0100, &[0x8D, 0x34, 0x12]);
    cpu.step();
    assert_eq!(cpu.load_word(0x1234), 0x00F9);
    assert_eq!(cpu.load_byte(0x0234), 0xF9);
    assert_eq!(cpu.regs.pc, 0x0103);
    assert_eq!(cpu.cycle, 4);
}

#[test]
fn zero_page_uses_the_operand_as_the_address() {
    let mut cpu = machine();
    cpu.store_byte(0x0088, 0xF9);
    cpu.store_byte(0x0188, 0x11);
    program(&mut cpu, 0x0100, &[0xA5, 0x88, 0xA9, 0x42, 0x85, 0x88, 0x88]);
    cpu.step();
    assert_eq!(cpu.regs.a, 0xF9);
    cpu.step();
    cpu.step();
    assert_eq!(cpu.load_byte(0x0088), 0x42);
    assert_eq!(cpu.load_byte(0x0188), 0x11);
    match cpu.zero_page() {
        AddressingMode::Memory(address) => assert_eq!(address, 0x0088),
        _ => panic!("a zero-page operand is in memory"),
    }
    assert_eq!(cpu.regs.pc, 0x0107);
}

#[test]
fn indexed_zero_page_wraps_within_the_page() {
    let mut cpu = machine();
    cpu.regs.x = 0xFF;
    cpu.regs.y = 0x02;
    cpu.store_byte(0x007F, 0x33);
    cpu.store_byte(0x0001, 0x44);
    program(&mut cpu, 0x0100, &[0xB5, 0x80, 0xB6, 0xFF]);
    cpu.step();
    assert_eq!(cpu.regs.a, 0x33);
    cpu.step();
    assert_eq!(cpu.regs.x, 0x44);
    assert_eq!(cpu.cycle, 8);
}

#[test]
fn indexed_absolute_adds_the_index() {
    let mut cpu = machine();
    cpu.regs.x = 0x10;
    cpu.regs.y = 0x20;
    cpu.store_byte(0x0310, 0x66);
    cpu.store_byte(0x0320, 0x77);
    program(&mut cpu, 0x0100, &[0xBD, 0x00, 0x03, 0xB9, 0x00, 0x03]);
    cpu.step();
    assert_eq!(cpu.regs.a, 0x66);
    cpu.step();
    assert_eq!(cpu.regs.a, 0x77);
}

#[test]
fn indirect_addressing_reads_the_pointer_from_page_zero() {
    let mut cpu = machine();
    cpu.regs.x = 0x04;
    cpu.regs.y = 0x03;
    cpu.store_word(0x0024, 0x0300);
    cpu.store_byte(0x0300, 0x5A);
    cpu.store_byte(0x0303, 0x6B);
    program(&mut cpu, 0x0100, &[0xA1, 0x20, 0xB1, 0x24]);
    cpu.step();
    assert_eq!(cpu.regs.a, 0x5A);
    cpu.step();
    assert_eq!(cpu.regs.a, 0x6B);
    assert_eq!(cpu.cycle, 11);
}

#[test]
fn jmp_indirect_takes_the_high_byte_from_the_same_page() {
    let mut cpu = machine();
    cpu.store_byte(0x02FF, 0x34);
    cpu.store_byte(0x0200, 0x12);
    cpu.store_byte(0x0300, 0x56);
    program(&mut cpu, 0x0100, &[0x6C, 0xFF, 0x02]);
    cpu.step();
    assert_eq!(cpu.regs.pc, 0x1234);
    assert_eq!(cpu.cycle, 5);
}

#[test]
fn jmp_indirect_inside_a_page() {
    let mut cpu = machine();
    cpu.store_byte(0x0280, 0x34);
    cpu.store_byte(0x0281, 0x12);
    program(&mut cpu, 0x0100, &[0x6C, 0x80, 0x02]);
    cpu.step();
    assert_eq!(cpu.regs.pc, 0x1234);
}

#[test]
fn jmp_absolute() {
    let mut cpu = machine();
    program(&mut cpu, 0x0100, &[0x4C, 0xCD, 0xAB]);
    cpu.step();
    assert_eq!(cpu.regs.pc, 0xABCD);
    assert_eq!(cpu.cycle, 3);
}

#[test]
fn dma_copies_a_page_and_costs_cycles() {
    let mut cpu = machine();
    for i in 0..256u16 {
        cpu.store_byte(0x0200 + i, (i as u8) ^ 0x5A);
    }
    assert_eq!(cpu.cycle, 0);
    cpu.store_byte(0x4014, 0x02);
    assert_eq!(cpu.cycle, 513);
    for i in 0..256usize {
        assert_eq!(cpu.ram.ppu.oam_data[i], (i as u8) ^ 0x5A);
    }
    // The count is odd now: the next copy costs one cycle more.
    cpu.store_byte(0x4014, 0x00);
    assert_eq!(cpu.cycle, 513 + 514);
    for i in 0..256u16 {
        let expected = cpu.load_byte(i);
        assert_eq!(cpu.ram.ppu.oam_data[i as usize], expected);
    }
}

#[test]
fn dma_reads_mirrored_work_ram() {
    let mut cpu = machine();
    for i in 0..256u16 {
        cpu.store_byte(0x0700 + i, i as u8);
    }
    // Page 0x0F is work RAM page 0x07 seen again.
    cpu.store_byte(0x4014, 0x0F);
    for i in 0..256usize {
        assert_eq!(cpu.ram.ppu.oam_data[i], i as u8);
    }
}

#[test]
fn sta_to_the_dma_port_adds_the_penalty_to_the_cost() {
    let mut cpu = machine();
    cpu.regs.a = 0x03;
    cpu.store_byte(0x0300, 0xEE);
    program(&mut cpu, 0x0100, &[0x8D, 0x14, 0x40]);
    cpu.step();
    assert_eq!(cpu.ram.ppu.oam_data[0], 0xEE);
    assert_eq!(cpu.cycle, 513 + 4);
}

#[test]
fn try_step_reports_an_unknown_opcode() {
    let mut cpu = machine();
    program(&mut cpu, 0x0100, &[0x02]);
    match cpu.try_step() {
        Err(UnknownOpcode { opcode, address }) => {
            assert_eq!(opcode, 0x02);
            assert_eq!(address, 0x0100);
        }
        Ok(()) => panic!("0x02 stands for no instruction"),
    }
    assert_eq!(cpu.regs.pc, 0x0101);
    assert_eq!(cpu.cycle, 0);
}

#[test]
fn try_step_carries_out_a_known_opcode() {
    let mut cpu = machine();
    program(&mut cpu, 0x0100, &[0xA9, 0x07]);
    assert!(cpu.try_step().is_ok());
    assert_eq!(cpu.regs.a, 0x07);
    assert_eq!(cpu.regs.pc, 0x0102);
    assert_eq!(cpu.cycle, 2);
}

#[test]
fn decode_knows_the_table() {
    assert!(matches!(decode(0xA9), Some((Operation::Lda, Operand::Immediate))));
    assert!(matches!(decode(0x8D), Some((Operation::Sta, Operand::Absolute))));
    assert!(matches!(decode(0x6C), Some((Operation::JmpIndirect, Operand::Implied))));
    assert!(matches!(decode(0x6A), Some((Operation::Ror, Operand::Accumulator))));
    assert!(matches!(decode(0x66), Some((Operation::Ror, Operand::ZeroPage))));
    assert!(matches!(decode(0x76), Some((Operation::Ror, Operand::ZeroPageX))));
    assert!(matches!(decode(0x6E), Some((Operation::Ror, Operand::Absolute))));
    assert!(matches!(decode(0x7E), Some((Operation::Ror, Operand::AbsoluteX))));
    assert!(matches!(decode(0x26), Some((Operation::Rol, Operand::ZeroPage))));
    assert!(matches!(decode(0x36), Some((Operation::Rol, Operand::ZeroPageX))));
    assert!(matches!(decode(0x2E), Some((Operation::Rol, Operand::Absolute))));
    assert!(matches!(decode(0x3E), Some((Operation::Rol, Operand::AbsoluteX))));
    assert!(matches!(decode(0x2A), Some((Operation::Rol, Operand::Accumulator))));
    assert!(matches!(decode(0x0C), Some((Operation::Nop(1), Operand::Implied))));
    assert!(matches!(decode(0xFC), Some((Operation::Nop(2), Operand::Implied))));
    assert!(matches!(decode(0xB6), Some((Operation::Ldx, Operand::ZeroPageY))));
    assert!(decode(0x02).is_none());
    assert!(decode(0xFF).is_none());
    let known = (0..=255u8).filter(|opcode| decode(*opcode).is_some()).count();
    assert_eq!(known, 169);
}

#[test]
fn cycles_follow_the_table() {
    assert_eq!(cycles(0x00), 7);
    assert_eq!(cycles(0xA9), 2);
    assert_eq!(cycles(0x8D), 4);
    assert_eq!(cycles(0x6C), 5);
    assert_eq!(cycles(0x20), 6);
    assert_eq!(cycles(0xFF), 7);
}

#[test]
fn branches_read_the_offset_and_add_it_when_taken() {
    let mut cpu = machine();
    // bne, taken, two bytes back
    cpu.regs.zero = false;
    program(&mut cpu, 0x0100, &[0xD0, 0xFE]);
    cpu.step();
    assert_eq!(cpu.regs.pc, 0x0100);
    // bne, not taken
    cpu.regs.zero = true;
    cpu.step();
    assert_eq!(cpu.regs.pc, 0x0102);
    // beq, taken, as far forward as it goes
    program(&mut cpu, 0x0102, &[0xF0, 0x7F]);
    cpu.step();
    assert_eq!(cpu.regs.pc, 0x0104 + 0x7F);
    assert_eq!(cpu.cycle, 6);
}

#[test]
fn branch_wraps_around_the_address_space() {
    let mut cpu = machine();
    cpu.regs.pc = 0x0000;
    cpu.regs.carry = false;
    program(&mut cpu, 0x0000, &[0x90, 0xFD]);
    cpu.step();
    assert_eq!(cpu.regs.pc, 0xFFFF);
}

#[test]
fn every_branch_follows_its_flag() {
    // The opcode, and whether sign, overflow, carry and zero are set when it is taken.
    let cases: [(u8, bool, bool, bool, bool); 8] = [
        (0x10, false, false, false, false),
        (0x30, true, false, false, false),
        (0x50, false, false, false, false),
        (0x70, false, true, false, false),
        (0x90, false, false, false, false),
        (0xB0, false, false, true, false),
        (0xD0, false, false, false, false),
        (0xF0, false, false, false, true),
    ];
    for (opcode, sign, overflow, carry, zero) in cases.iter() {
        let mut cpu = machine();
        cpu.regs.sign = *sign;
        cpu.regs.overflow = *overflow;
        cpu.regs.carry = *carry;
        cpu.regs.zero = *zero;
        program(&mut cpu, 0x0100, &[*opcode, 0x10]);
        cpu.step();
        assert_eq!(cpu.regs.pc, 0x0112);
        assert_eq!(cpu.cycle, 2);

        // With the flag that the branch looks at turned over, it is not taken.
        let mut cpu = machine();
        cpu.regs.sign = *sign;
        cpu.regs.overflow = *overflow;
        cpu.regs.carry = *carry;
        cpu.regs.zero = *zero;
        match *opcode {
            0x10 | 0x30 => cpu.regs.sign = !*sign,
            0x50 | 0x70 => cpu.regs.overflow = !*overflow,
            0x90 | 0xB0 => cpu.regs.carry = !*carry,
            _ => cpu.regs.zero = !*zero,
        }
        program(&mut cpu, 0x0100, &[*opcode, 0x10]);
        cpu.step();
        assert_eq!(cpu.regs.pc, 0x0102);
    }
}

#[test]
fn jsr_and_rts() {
    let mut cpu = machine();
    program(&mut cpu, 0x0100, &[0x20, 0x00, 0x02]);
    program(&mut cpu, 0x0200, &[0x60]);
    cpu.step();
    assert_eq!(cpu.regs.pc, 0x0200);
    assert_eq!(cpu.regs.s, 0xFB);
    assert_eq!(cpu.load_byte(0x01FD), 0x01);
    assert_eq!(cpu.load_byte(0x01FC), 0x02);
    cpu.step();
    assert_eq!(cpu.regs.pc, 0x0103);
    assert_eq!(cpu.regs.s, 0xFD);
    assert_eq!(cpu.cycle, 12);
}

#[test]
fn brk_and_rti() {
    let mut cpu = machine();
    cpu.regs.interrupt = false;
    cpu.regs.carry = true;
    program(&mut cpu, 0x0100, &[0x00]);
    cpu.step();
    assert_eq!(cpu.regs.pc, 0xA000);
    assert!(cpu.regs.interrupt);
    assert_eq!(cpu.regs.s, 0xFA);
    assert_eq!(cpu.load_byte(0x01FD), 0x01);
    assert_eq!(cpu.load_byte(0x01FC), 0x02);
    // break and carry
    assert_eq!(cpu.load_byte(0x01FB), 0x11);
    assert_eq!(cpu.cycle, 7);

    cpu.regs.pc = 0x0300;
    cpu.regs.carry = false;
    program(&mut cpu, 0x0300, &[0x40]);
    cpu.step();
    assert_eq!(cpu.regs.pc, 0x0102);
    assert_eq!(cpu.regs.s, 0xFD);
    assert!(cpu.regs.carry);
    assert!(!cpu.regs.interrupt);
    assert!(cpu.regs.brk);
}

#[test]
fn nmi_pushes_state_and_jumps_through_its_vector() {
    let mut cpu = machine();
    cpu.regs.pc = 0x1234;
    cpu.regs.brk = false;
    cpu.regs.interrupt = false;
    cpu.regs.zero = true;
    cpu.nmi();
    assert_eq!(cpu.regs.pc, 0x9000);
    assert_eq!(cpu.regs.s, 0xFA);
    assert_eq!(cpu.load_byte(0x01FD), 0x12);
    assert_eq!(cpu.load_byte(0x01FC), 0x34);
    // zero, and the break bit that the pushed byte always has
    assert_eq!(cpu.load_byte(0x01FB), 0x12);
    assert!(!cpu.regs.interrupt);
    assert!(!cpu.regs.brk);
    assert_eq!(cpu.cycle, 0);
}

#[test]
fn php_plp_pha_pla() {
    let mut cpu = machine();
    cpu.regs.a = 0x80;
    cpu.regs.brk = false;
    cpu.regs.interrupt = false;
    cpu.regs.carry = true;
    cpu.regs.overflow = true;
    program(&mut cpu, 0x0100, &[0x08, 0x48, 0x68, 0x28]);
    cpu.step();
    assert_eq!(cpu.load_byte(0x01FD), 0x51);
    cpu.step();
    assert_eq!(cpu.load_byte(0x01FC), 0x80);
    cpu.regs.a = 0x00;
    cpu.regs.zero = false;
    cpu.regs.sign = false;
    cpu.step();
    assert_eq!(cpu.regs.a, 0x80);
    // pla leaves the flags alone
    assert!(!cpu.regs.sign);
    assert!(!cpu.regs.zero);
    cpu.regs.carry = false;
    cpu.regs.overflow = false;
    cpu.step();
    assert!(cpu.regs.carry);
    assert!(cpu.regs.overflow);
    assert!(cpu.regs.brk);
    assert_eq!(cpu.regs.s, 0xFD);
    assert_eq!(cpu.cycle, 3 + 3 + 4 + 4);
}

#[test]
fn flags_pack_and_unpack() {
    let mut cpu = machine();
    cpu.set_flags(0xFF);
    assert!(cpu.regs.carry && cpu.regs.zero && cpu.regs.interrupt && cpu.regs.decimal);
    assert!(cpu.regs.brk && cpu.regs.overflow && cpu.regs.sign);
    assert_eq!(cpu.get_flags(), 0xDF);
    cpu.set_flags(0x00);
    assert_eq!(cpu.get_flags(), 0x00);
    for flags in 0..=255u8 {
        cpu.set_flags(flags);
        assert_eq!(cpu.get_flags(), flags & 0xDF);
    }
    cpu.set_flags(0x81);
    assert!(cpu.regs.sign && cpu.regs.carry && !cpu.regs.zero && !cpu.regs.overflow);
}

#[test]
fn flag_instructions() {
    let mut cpu = machine();
    program(&mut cpu, 0x0100, &[0x38, 0xF8, 0x78, 0x18, 0xD8, 0x58, 0xB8]);
    cpu.regs.interrupt = false;
    cpu.regs.overflow = true;
    cpu.step();
    assert!(cpu.regs.carry);
    cpu.step();
    assert!(cpu.regs.decimal);
    cpu.step();
    assert!(cpu.regs.interrupt);
    cpu.step();
    assert!(!cpu.regs.carry);
    cpu.step();
    assert!(!cpu.regs.decimal);
    cpu.step();
    assert!(!cpu.regs.interrupt);
    cpu.step();
    assert!(!cpu.regs.overflow);
    assert_eq!(cpu.cycle, 14);
}

#[test]
fn rotates_go_through_the_carry() {
    let mut cpu = machine();
    cpu.regs.a = 0x80;
    cpu.regs.carry = true;
    program(&mut cpu, 0x0100, &[0x2A, 0x2A, 0x6A, 0x6A, 0x6A]);
    // rol: the carry enters bit 0, bit 7 is the new carry
    cpu.step();
    assert_eq!(cpu.regs.a, 0x01);
    assert!(cpu.regs.carry);
    assert!(!cpu.regs.zero);
    assert!(!cpu.regs.sign);
    cpu.step();
    assert_eq!(cpu.regs.a, 0x03);
    assert!(!cpu.regs.carry);
    // ror: the carry enters bit 7, bit 0 is the new carry
    cpu.step();
    assert_eq!(cpu.regs.a, 0x01);
    assert!(cpu.regs.carry);
    assert!(!cpu.regs.sign);
    cpu.step();
    assert_eq!(cpu.regs.a, 0x80);
    assert!(cpu.regs.carry);
    assert!(cpu.regs.sign);
    assert!(!cpu.regs.zero);
    cpu.step();
    assert_eq!(cpu.regs.a, 0xC0);
    assert!(!cpu.regs.carry);
    assert_eq!(cpu.cycle, 10);
}

#[test]
fn rotates_to_zero() {
    let mut cpu = machine();
    cpu.regs.a = 0x80;
    cpu.regs.carry = false;
    program(&mut cpu, 0x0100, &[0x2A, 0x6A, 0x6A]);
    cpu.step();
    assert_eq!(cpu.regs.a, 0x00);
    assert!(cpu.regs.carry);
    assert!(cpu.regs.zero);
    cpu.step();
    assert_eq!(cpu.regs.a, 0x80);
    assert!(!cpu.regs.carry);
    assert!(!cpu.regs.zero);
    cpu.regs.a = 0x01;
    cpu.step();
    assert_eq!(cpu.regs.a, 0x00);
    assert!(cpu.regs.carry);
    assert!(cpu.regs.zero);
    assert!(!cpu.regs.sign);
}

#[test]
fn rotates_in_memory() {
    let mut cpu = machine();
    cpu.regs.a = 0x5A;
    cpu.regs.x = 0x01;
    cpu.regs.pc = 0x0200;
    cpu.regs.carry = false;
    cpu.store_byte(0x0010, 0x02);
    cpu.store_byte(0x0011, 0x01);
    cpu.store_byte(0x0300, 0x81);
    cpu.store_byte(0x0301, 0x40);
    program(
        &mut cpu,
        0x0200,
        &[0x66, 0x10, 0x76, 0x10, 0x6E, 0x00, 0x03, 0x7E, 0x00, 0x03, 0x26, 0x10, 0x36, 0x10, 0x2E, 0x00, 0x03, 0x3E, 0x00, 0x03],
    );
    // ror, zero page
    cpu.step();
    assert_eq!(cpu.load_byte(0x0010), 0x01);
    assert!(!cpu.regs.carry);
    assert!(!cpu.regs.zero);
    assert!(!cpu.regs.sign);
    assert_eq!(cpu.regs.pc, 0x0202);
    assert_eq!(cpu.regs.a, 0x5A);
    // ror, zero page indexed by X
    cpu.step();
    assert_eq!(cpu.load_byte(0x0011), 0x00);
    assert!(cpu.regs.carry);
    assert!(cpu.regs.zero);
    // ror, absolute: the carry enters bit 7
    cpu.step();
    assert_eq!(cpu.load_byte(0x0300), 0xC0);
    assert!(cpu.regs.carry);
    assert!(cpu.regs.sign);
    // ror, absolute indexed by X
    cpu.step();
    assert_eq!(cpu.load_byte(0x0301), 0xA0);
    assert!(!cpu.regs.carry);
    // rol, zero page
    cpu.step();
    assert_eq!(cpu.load_byte(0x0010), 0x02);
    assert!(!cpu.regs.carry);
    // rol, zero page indexed by X
    cpu.regs.carry = true;
    cpu.step();
    assert_eq!(cpu.load_byte(0x0011), 0x01);
    assert!(!cpu.regs.carry);
    // rol, absolute
    cpu.step();
    assert_eq!(cpu.load_byte(0x0300), 0x80);
    assert!(cpu.regs.carry);
    assert!(cpu.regs.sign);
    // rol, absolute indexed by X
    cpu.step();
    assert_eq!(cpu.load_byte(0x0301), 0x41);
    assert!(cpu.regs.carry);
    assert!(!cpu.regs.sign);
    assert_eq!(cpu.regs.a, 0x5A);
    assert_eq!(cpu.cycle, 5 + 6 + 6 + 7 + 5 + 6 + 6 + 7);
}

#[test]
fn a_rotate_writes_its_operand_once() {
    let mut cpu = machine();
    // The video address moves on by one for each access to the data register of the picture
    // unit: once for the read of the operand, once for the one write of the result.
    cpu.store_byte(0x2006, 0x20);
    cpu.store_byte(0x2006, 0x00);
    program(&mut cpu, 0x0100, &[0x2E, 0x07, 0x20]);
    cpu.step();
    assert_eq!(cpu.ram.ppu.regs.address, 0x2002);
}

#[test]
fn shifts() {
    let mut cpu = machine();
    cpu.regs.a = 0xC1;
    program(&mut cpu, 0x0100, &[0x0A, 0x4A, 0x4A]);
    cpu.step();
    assert_eq!(cpu.regs.a, 0x82);
    assert!(cpu.regs.carry);
    assert!(cpu.regs.sign);
    cpu.step();
    assert_eq!(cpu.regs.a, 0x41);
    assert!(!cpu.regs.carry);
    assert!(!cpu.regs.sign);
    cpu.step();
    assert_eq!(cpu.regs.a, 0x20);
    assert!(cpu.regs.carry);
}

#[test]
fn bitwise_instructions() {
    let mut cpu = machine();
    cpu.regs.a = 0xF0;
    program(&mut cpu, 0x0100, &[0x29, 0x3C, 0x49, 0xFF, 0x09, 0x01, 0x29, 0x00]);
    cpu.step();
    assert_eq!(cpu.regs.a, 0x30);
    cpu.step();
    assert_eq!(cpu.regs.a, 0xCF);
    assert!(cpu.regs.sign);
    cpu.step();
    assert_eq!(cpu.regs.a, 0xCF);
    cpu.step();
    assert_eq!(cpu.regs.a, 0x00);
    assert!(cpu.regs.zero);
}

#[test]
fn comparisons() {
    let mut cpu = machine();
    cpu.regs.a = 5;
    cpu.regs.x = 4;
    cpu.regs.y = 6;
    program(&mut cpu, 0x0100, &[0xC9, 0x05, 0xE0, 0x05, 0xC0, 0x05]);
    cpu.step();
    assert!(cpu.regs.zero);
    assert!(cpu.regs.carry);
    assert!(!cpu.regs.sign);
    cpu.step();
    assert!(!cpu.regs.zero);
    assert!(!cpu.regs.carry);
    assert!(cpu.regs.sign);
    cpu.step();
    assert!(!cpu.regs.zero);
    assert!(cpu.regs.carry);
    assert!(!cpu.regs.sign);
    assert_eq!(cpu.regs.a, 5);
}

#[test]
fn bit_tests_the_shared_bits() {
    let mut cpu = machine();
    cpu.regs.a = 0xC0;
    cpu.store_byte(0x0010, 0xFF);
    cpu.store_byte(0x0011, 0xC0);
    program(&mut cpu, 0x0100, &[0x24, 0x10, 0x24, 0x11]);
    cpu.step();
    assert!(cpu.regs.overflow);
    assert!(cpu.regs.sign);
    assert!(!cpu.regs.zero);
    cpu.regs.a = 0x01;
    cpu.step();
    assert!(!cpu.regs.overflow);
    assert!(!cpu.regs.sign);
    assert!(cpu.regs.zero);
    assert_eq!(cpu.regs.a, 0x01);
}

#[test]
fn transfers() {
    let mut cpu = machine();
    cpu.regs.a = 0x80;
    program(&mut cpu, 0x0100, &[0xAA, 0xA8, 0x9A, 0xA9, 0x00, 0xBA, 0x8A, 0x98]);
    cpu.step();
    assert_eq!(cpu.regs.x, 0x80);
    assert!(cpu.regs.sign);
    cpu.step();
    assert_eq!(cpu.regs.y, 0x80);
    cpu.regs.zero = true;
    cpu.step();
    assert_eq!(cpu.regs.s, 0x80);
    // txs leaves the flags alone
    assert!(cpu.regs.zero);
    cpu.step();
    cpu.regs.x = 0;
    cpu.step();
    assert_eq!(cpu.regs.x, 0x80);
    assert!(cpu.regs.sign);
    cpu.regs.a = 0;
    cpu.step();
    assert_eq!(cpu.regs.a, 0x80);
    cpu.regs.y = 0;
    cpu.step();
    assert_eq!(cpu.regs.a, 0x00);
    assert!(cpu.regs.zero);
}

#[test]
fn loads_and_stores_of_the_index_registers() {
    let mut cpu = machine();
    program(&mut cpu, 0x0100, &[0xA2, 0x11, 0xA0, 0x91, 0x86, 0x20, 0x84, 0x21]);
    cpu.step();
    assert_eq!(cpu.regs.x, 0x11);
    assert!(!cpu.regs.sign);
    cpu.step();
    assert_eq!(cpu.regs.y, 0x91);
    assert!(cpu.regs.sign);
    cpu.step();
    cpu.step();
    assert_eq!(cpu.load_byte(0x0020), 0x11);
    assert_eq!(cpu.load_byte(0x0021), 0x91);
}

#[test]
fn nops_skip_their_bytes() {
    let mut cpu = machine();
    program(&mut cpu, 0x0100, &[0xEA, 0x04, 0xFF, 0x14, 0xFF, 0xFF, 0xEA]);
    cpu.step();
    assert_eq!(cpu.regs.pc, 0x0101);
    cpu.step();
    assert_eq!(cpu.regs.pc, 0x0103);
    cpu.step();
    assert_eq!(cpu.regs.pc, 0x0106);
    cpu.step();
    assert_eq!(cpu.regs.pc, 0x0107);
    assert_eq!(cpu.cycle, 2 + 3 + 4 + 2);
}

#[test]
fn words_are_little_endian_and_wrap_at_the_top() {
    let mut cpu = machine();
    cpu.store_word(0x0040, 0xABCD);
    assert_eq!(cpu.load_byte(0x0040), 0xCD);
    assert_eq!(cpu.load_byte(0x0041), 0xAB);
    assert_eq!(cpu.load_word(0x0040), 0xABCD);
    assert_eq!(cpu.load_word_zero_page(0x0040), 0xABCD);
    // The low byte is the last of program memory, the high byte the first of work RAM.
    cpu.store_byte(0x0000, 0x77);
    assert_eq!(cpu.load_word(0xFFFF), 0x77A0);
    cpu.store_byte(0x00FF, 0x01);
    cpu.store_byte(0x0100, 0x02);
    assert_eq!(cpu.load_word_zero_page(0x00FF), 0x0201);
}

#[test]
fn the_program_counter_wraps() {
    let mut cpu = machine();
    cpu.regs.pc = 0xFFFF;
    assert_eq!(cpu.load_byte_and_inc_pc(), 0xA0);
    assert_eq!(cpu.regs.pc, 0x0000);
}

#[test]
fn the_cycle_count_wraps() {
    let mut cpu = machine();
    cpu.cycle = u64::MAX;
    program(&mut cpu, 0x0100, &[0xEA]);
    cpu.step();
    assert_eq!(cpu.cycle, 1);
}

#[test]
fn immediate_and_accumulator_operands() {
    let mut cpu = machine();
    cpu.regs.a = 0x21;
    program(&mut cpu, 0x0100, &[0x99]);
    assert_eq!(cpu.am_load(AddressingMode::Accumulator), 0x21);
    assert_eq!(cpu.regs.pc, 0x0100);
    assert_eq!(cpu.am_load(AddressingMode::Immediate), 0x99);
    assert_eq!(cpu.regs.pc, 0x0101);
    cpu.am_store(AddressingMode::Accumulator, 0x55);
    assert_eq!(cpu.regs.a, 0x55);
    cpu.am_store(AddressingMode::Memory(0x0030), 0x66);
    assert_eq!(cpu.am_load(AddressingMode::Memory(0x0030)), 0x66);
    assert!(matches!(cpu.resolve(Operand::Immediate), AddressingMode::Immediate));
    assert!(matches!(cpu.resolve(Operand::Accumulator), AddressingMode::Accumulator));
}

#[test]
fn execute_instruction_rotates_memory_to_the_right() {
    let mut cpu = machine();
    cpu.regs.pc = 0x0200;
    cpu.regs.a = 0x77;
    cpu.regs.carry = false;
    cpu.store_byte(0x0200, 0x10);
    cpu.store_byte(0x0010, 0x02);
    cpu.execute_instruction(0x66);
    assert_eq!(cpu.load_byte(0x0010), 0x01);
    assert!(!cpu.regs.carry);
    assert!(!cpu.regs.zero);
    assert!(!cpu.regs.sign);
    assert_eq!(cpu.regs.pc, 0x0201);
    assert_eq!(cpu.regs.a, 0x77);
    // The cost is added by the step, not here.
    assert_eq!(cpu.cycle, 0);
}

#[test]
fn addition_with_carry() {
    assert_eq!(add_with_carry(0x01, 0x02, false), (0x03, false, false));
    assert_eq!(add_with_carry(0x01, 0x02, true), (0x04, false, false));
    assert_eq!(add_with_carry(0xFF, 0x01, false), (0x00, true, false));
    assert_eq!(add_with_carry(0xFF, 0xFF, true), (0xFF, true, false));
    assert_eq!(add_with_carry(0x7F, 0x01, false), (0x80, false, true));
    assert_eq!(add_with_carry(0x80, 0x80, false), (0x00, true, true));
    assert_eq!(add_with_carry(0x80, 0x7F, false), (0xFF, false, false));
    for a in 0..=255u8 {
        for value in [0x00u8, 0x01, 0x7F, 0x80, 0xFF] {
            for carry in [false, true] {
                let sum = a as u32 + value as u32 + carry as u32;
                let (result, carry_out, _) = add_with_carry(a, value, carry);
                assert_eq!(result as u32, sum % 256);
                assert_eq!(carry_out, sum >= 256);
            }
        }
    }
}

#[test]
fn subtraction_with_borrow() {
    assert_eq!(subtract_with_borrow(0x05, 0x03, true), (0x02, true, false));
    assert_eq!(subtract_with_borrow(0x05, 0x03, false), (0x01, true, false));
    assert_eq!(subtract_with_borrow(0x03, 0x05, true), (0xFE, false, true));
    assert_eq!(subtract_with_borrow(0x00, 0x00, false), (0xFF, false, true));
    assert_eq!(subtract_with_borrow(0x00, 0x00, true), (0x00, true, false));
    assert_eq!(subtract_with_borrow(0x80, 0x01, true), (0x7F, true, false));
    assert_eq!(subtract_with_borrow(0x80, 0x80, true), (0x00, true, true));
    assert_eq!(subtract_with_borrow(0x00, 0xFF, false), (0x00, false, false));
    for a in 0..=255u8 {
        for value in [0x00u8, 0x01, 0x7F, 0x80, 0xFF] {
            for carry in [false, true] {
                let difference = a as i32 - value as i32 - (!carry) as i32;
                let (result, carry_out, _) = subtract_with_borrow(a, value, carry);
                assert_eq!(result as i32, difference.rem_euclid(256));
                assert_eq!(carry_out, difference >= 0);
            }
        }
    }
}

#[test]
fn shifts_and_rotates_of_a_byte() {
    assert_eq!(shift_left(0x81), (0x02, true));
    assert_eq!(shift_left(0x40), (0x80, false));
    assert_eq!(shift_right(0x81), (0x40, true));
    assert_eq!(shift_right(0x02), (0x01, false));
    assert_eq!(rotate_left(0x80, true), (0x01, true));
    assert_eq!(rotate_left(0x80, false), (0x00, true));
    assert_eq!(rotate_left(0x7F, true), (0xFF, false));
    assert_eq!(rotate_right(0x01, true), (0x80, true));
    assert_eq!(rotate_right(0x01, false), (0x00, true));
    assert_eq!(rotate_right(0x02, false), (0x01, false));
    assert_eq!(rotate_right(0xFE, true), (0xFF, false));
    for value in 0..=255u8 {
        for carry in [false, true] {
            let (left, out) = rotate_left(value, carry);
            assert_eq!(rotate_right(left, out), (value, carry));
            let (right, out) = rotate_right(value, carry);
            assert_eq!(rotate_left(right, out), (value, carry));
        }
    }
}

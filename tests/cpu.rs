use nes::bus::FlatMemory;
use nes::cpu::Cpu;
use nes::opcode::{Addressing, Instruction, Opcode, decode};
use nes::registers::{ByteRegister, StatusName};
use nes::semantics::DecodeError;

fn immediate(name: Instruction) -> Opcode {
    Opcode { name, mode: Addressing::Immediate, cycle: 1 }
}

/// A CPU with PC at 0x8000 and a flat memory holding `program` there.
fn with_program(program: &[u8]) -> (Cpu, FlatMemory) {
    let cpu = Cpu::new();
    let mut mem = FlatMemory::new();
    for (i, b) in program.iter().enumerate() {
        mem.set(0x8000 + i as u16, *b);
    }
    (cpu, mem)
}

fn step(cpu: &mut Cpu, mem: &mut FlatMemory) -> Result<u8, DecodeError> {
    let mut nmi = false;
    cpu.run(mem, &mut nmi)
}

#[test]
fn lda_immidiate() {
    let mut cpu = Cpu::new();
    cpu.registers.set_pc(0x0000);
    let mut mem = FlatMemory::new();
    let code = immediate(Instruction::LDA);
    cpu.lda(&code, 255, &mut mem);
    assert!(cpu.registers.get(ByteRegister::A) == 255);
}

#[test]
fn ldx_immidiate() {
    let mut cpu = Cpu::new();
    cpu.registers.set_pc(0x0000);
    let mut mem = FlatMemory::new();
    let code = immediate(Instruction::LDX);
    cpu.ldx(&code, 255, &mut mem);
    assert!(cpu.registers.get(ByteRegister::X) == 255);
}

#[test]
fn sta() {
    let mut cpu = Cpu::new();
    cpu.registers.set_pc(0x0000);
    cpu.registers.set_acc(0xA5);
    let mut mem = FlatMemory::new();
    cpu.sta(0xFF, &mut mem);
    assert!(mem.get(0xFF) == 0xA5);
    assert!(mem.get(0xFE) == 0 && mem.get(0x100) == 0);
}

#[test]
fn stx() {
    let mut cpu = Cpu::new();
    cpu.registers.set_pc(0x0000);
    cpu.registers.set_x(0xA5);
    let mut mem = FlatMemory::new();
    cpu.stx(0xFF, &mut mem);
    assert!(mem.get(0xFF) == 0xA5);
    assert!(mem.get(0xFE) == 0 && mem.get(0x100) == 0);
}

#[test]
fn sty() {
    let mut cpu = Cpu::new();
    cpu.registers.set_pc(0x0000);
    cpu.registers.set_y(0xA5);
    let mut mem = FlatMemory::new();
    cpu.sty(0xFF, &mut mem);
    assert!(mem.get(0xFF) == 0xA5);
    assert!(mem.get(0xFE) == 0 && mem.get(0x100) == 0);
}

#[test]
fn tax() {
    let mut cpu = Cpu::new();
    cpu.registers.set_acc(0xA5);
    cpu.tax();
    assert!(cpu.registers.get(ByteRegister::X) == 0xA5);
}

#[test]
fn tay() {
    let mut cpu = Cpu::new();
    cpu.registers.set_acc(0xA5);
    cpu.tay();
    assert!(cpu.registers.get(ByteRegister::Y) == 0xA5);
}

#[test]
fn txa() {
    let mut cpu = Cpu::new();
    cpu.registers.set_x(0xA5);
    cpu.txa();
    assert!(cpu.registers.get(ByteRegister::A) == 0xA5);
}

#[test]
fn tya() {
    let mut cpu = Cpu::new();
    cpu.registers.set_y(0xA5);
    cpu.tya();
    assert!(cpu.registers.get(ByteRegister::A) == 0xA5);
}

#[test]
fn txs() {
    let mut cpu = Cpu::new();
    cpu.registers.set_x(0xA5);
    cpu.txs();
    assert!(cpu.registers.get(ByteRegister::SP) == 0xA5);
}

#[test]
fn tsx() {
    let mut cpu = Cpu::new();
    cpu.registers.set_sp(0xA5);
    cpu.tsx();
    assert!(cpu.registers.get(ByteRegister::X) == 0xA5);
}

#[test]
fn php() {
    let mut cpu = Cpu::new();
    cpu.registers.set_sp(0xA5);
    let mut mem = FlatMemory::new();
    cpu.php(&mut mem);
    assert!(mem.get(0x01A5) == 0x34);
    assert!(cpu.registers.get(ByteRegister::SP) == 0xA4);
}

#[test]
fn plp() {
    let mut cpu = Cpu::new();
    cpu.registers.set_sp(0xA5);
    let mut mem = FlatMemory::new();
    mem.set(0x01A6, 0xA5);
    cpu.plp(&mut mem);
    assert_eq!(cpu.registers.get(ByteRegister::P), 0xA5);
}

#[test]
fn pha() {
    let mut cpu = Cpu::new();
    cpu.registers.set_sp(0xA5);
    cpu.registers.set_acc(0x5A);
    let mut mem = FlatMemory::new();
    cpu.pha(&mut mem);
    assert!(mem.get(0x01A5) == 0x5A);
}

#[test]
fn adc_immediate() {
    let mut cpu = Cpu::new();
    cpu.registers.set_pc(0x0000);
    cpu.registers.set_acc(0x05);
    let mut mem = FlatMemory::new();
    cpu.adc(&immediate(Instruction::ADC), 0xA5, &mut mem);
    assert!(cpu.registers.get(ByteRegister::A) == 0xAA);
}

#[test]
fn sbc_immediate() {
    let mut cpu = Cpu::new();
    cpu.registers.set_pc(0x0000);
    cpu.registers.set_acc(0x10);
    let mut mem = FlatMemory::new();
    cpu.sbc(&immediate(Instruction::SBC), 0x06, &mut mem);
    assert!(cpu.registers.get(ByteRegister::A) == 0x09);
}

#[test]
fn cpx_immediate() {
    let mut cpu = Cpu::new();
    cpu.registers.set_pc(0x0000);
    cpu.registers.set_x(0x05);
    let mut mem = FlatMemory::new();
    cpu.cpx(&immediate(Instruction::CPX), 0x04, &mut mem);
    assert!(cpu.registers.get_status(StatusName::carry));
}

#[test]
fn adc_signed_overflow() {
    let mut cpu = Cpu::new();
    cpu.registers.set_acc(0x50).set_carry(false);
    let mut mem = FlatMemory::new();
    cpu.adc(&immediate(Instruction::ADC), 0x50, &mut mem);
    assert_eq!(cpu.registers.get(ByteRegister::A), 0xA0);
    assert!(cpu.registers.get_status(StatusName::overflow));
    assert!(cpu.registers.get_status(StatusName::negative));
    assert!(!cpu.registers.get_status(StatusName::carry));
}

#[test]
fn adc_unsigned_carry() {
    let mut cpu = Cpu::new();
    cpu.registers.set_acc(0xFF).set_carry(false);
    let mut mem = FlatMemory::new();
    cpu.adc(&immediate(Instruction::ADC), 0x01, &mut mem);
    assert_eq!(cpu.registers.get(ByteRegister::A), 0x00);
    assert!(cpu.registers.get_status(StatusName::carry));
    assert!(cpu.registers.get_status(StatusName::zero));
}

#[test]
fn sbc_with_carry_set_and_borrow() {
    let mut cpu = Cpu::new();
    cpu.registers.set_acc(0x10).set_carry(true);
    let mut mem = FlatMemory::new();
    cpu.sbc(&immediate(Instruction::SBC), 0x20, &mut mem);
    assert_eq!(cpu.registers.get(ByteRegister::A), 0xF0);
    assert!(!cpu.registers.get_status(StatusName::carry));
    assert!(cpu.registers.get_status(StatusName::negative));
}

#[test]
fn compare_equal_and_less() {
    let mut cpu = Cpu::new();
    let mut mem = FlatMemory::new();
    cpu.registers.set_acc(0x40);
    cpu.cmp(&immediate(Instruction::CMP), 0x40, &mut mem);
    assert!(cpu.registers.get_status(StatusName::zero));
    assert!(cpu.registers.get_status(StatusName::carry));
    cpu.registers.set_y(0x01);
    cpu.cpy(&immediate(Instruction::CPY), 0x02, &mut mem);
    assert!(!cpu.registers.get_status(StatusName::carry));
    assert!(cpu.registers.get_status(StatusName::negative));
    assert!(!cpu.registers.get_status(StatusName::zero));
}

#[test]
fn zero_page_x_wraps_in_page_zero() {
    // LDA $FF,X with X = 1 reads 0x0000, not 0x0100.
    let (mut cpu, mut mem) = with_program(&[0xB5, 0xFF]);
    cpu.registers.set_x(0x01);
    mem.set(0x0000, 0x42);
    mem.set(0x0100, 0x99);
    assert_eq!(step(&mut cpu, &mut mem), Ok(4));
    assert_eq!(cpu.registers.get(ByteRegister::A), 0x42);
    assert_eq!(cpu.registers.get_pc(), 0x8002);
}

#[test]
fn indirect_jump_page_wrap() {
    // JMP ($02FF) takes the high byte from 0x0200, not 0x0300.
    let (mut cpu, mut mem) = with_program(&[0x6C, 0xFF, 0x02]);
    mem.set(0x02FF, 0x34);
    mem.set(0x0200, 0x12);
    mem.set(0x0300, 0x56);
    assert_eq!(step(&mut cpu, &mut mem), Ok(5));
    assert_eq!(cpu.registers.get_pc(), 0x1234);
}

#[test]
fn pre_indexed_indirect_wraps_pointer() {
    // LDA ($FE,X) with X = 1: pointer at 0xFF, high byte from 0x00.
    let (mut cpu, mut mem) = with_program(&[0xA1, 0xFE]);
    cpu.registers.set_x(0x01);
    mem.set(0x00FF, 0x00);
    mem.set(0x0000, 0x03);
    mem.set(0x0300, 0x77);
    assert_eq!(step(&mut cpu, &mut mem), Ok(6));
    assert_eq!(cpu.registers.get(ByteRegister::A), 0x77);
}

#[test]
fn post_indexed_indirect_adds_y() {
    // LDA ($10),Y with Y = 0x10 and pointer 0x03F8 reads 0x0408.
    let (mut cpu, mut mem) = with_program(&[0xB1, 0x10]);
    cpu.registers.set_y(0x10);
    mem.set(0x0010, 0xF8);
    mem.set(0x0011, 0x03);
    mem.set(0x0408, 0x5C);
    assert_eq!(step(&mut cpu, &mut mem), Ok(5));
    assert_eq!(cpu.registers.get(ByteRegister::A), 0x5C);
}

#[test]
fn absolute_x_wraps_address_space() {
    // LDA $FFFF,X with X = 2 reads 0x0001.
    let (mut cpu, mut mem) = with_program(&[0xBD, 0xFF, 0xFF]);
    cpu.registers.set_x(0x02);
    mem.set(0x0001, 0x3C);
    assert_eq!(step(&mut cpu, &mut mem), Ok(4));
    assert_eq!(cpu.registers.get(ByteRegister::A), 0x3C);
    assert_eq!(cpu.registers.get_pc(), 0x8003);
}

#[test]
fn push_then_pull_restores_accumulator() {
    // PHA; LDA #0; PLA
    let (mut cpu, mut mem) = with_program(&[0x48, 0xA9, 0x00, 0x68]);
    cpu.registers.set_acc(0x5A);
    let sp = cpu.registers.get(ByteRegister::SP);
    step(&mut cpu, &mut mem).unwrap();
    assert_eq!(cpu.registers.get(ByteRegister::SP), sp - 1);
    step(&mut cpu, &mut mem).unwrap();
    assert_eq!(cpu.registers.get(ByteRegister::A), 0);
    step(&mut cpu, &mut mem).unwrap();
    assert_eq!(cpu.registers.get(ByteRegister::A), 0x5A);
    assert_eq!(cpu.registers.get(ByteRegister::SP), sp);
}

#[test]
fn branch_costs() {
    // BNE +2 not taken: 2 cycles.
    let (mut cpu, mut mem) = with_program(&[0xD0, 0x02]);
    cpu.registers.set_zero(true);
    assert_eq!(step(&mut cpu, &mut mem), Ok(2));
    assert_eq!(cpu.registers.get_pc(), 0x8002);
    // BNE +2 taken on the same page: 3 cycles.
    let (mut cpu, mut mem) = with_program(&[0xD0, 0x02]);
    cpu.registers.set_zero(false);
    assert_eq!(step(&mut cpu, &mut mem), Ok(3));
    assert_eq!(cpu.registers.get_pc(), 0x8004);
    // BNE -4 taken onto the previous page: 4 cycles.
    let (mut cpu, mut mem) = with_program(&[0xD0, 0xFC]);
    cpu.registers.set_zero(false);
    assert_eq!(step(&mut cpu, &mut mem), Ok(4));
    assert_eq!(cpu.registers.get_pc(), 0x7FFE);
}

#[test]
fn jsr_and_rts() {
    // JSR $9000 ... at $9000: RTS
    let (mut cpu, mut mem) = with_program(&[0x20, 0x00, 0x90]);
    mem.set(0x9000, 0x60);
    let sp = cpu.registers.get(ByteRegister::SP);
    assert_eq!(step(&mut cpu, &mut mem), Ok(6));
    assert_eq!(cpu.registers.get_pc(), 0x9000);
    assert_eq!(mem.get(0x0100 + sp as u16), 0x80);
    assert_eq!(mem.get(0x0100 + sp as u16 - 1), 0x02);
    assert_eq!(step(&mut cpu, &mut mem), Ok(6));
    assert_eq!(cpu.registers.get_pc(), 0x8003);
    assert_eq!(cpu.registers.get(ByteRegister::SP), sp);
}

#[test]
fn brk_jumps_through_vector_when_enabled() {
    let (mut cpu, mut mem) = with_program(&[0x00]);
    mem.set(0xFFFE, 0x00);
    mem.set(0xFFFF, 0xC0);
    cpu.registers.set_interrupt(false).set_break(false);
    let sp = cpu.registers.get(ByteRegister::SP);
    assert_eq!(step(&mut cpu, &mut mem), Ok(7));
    assert_eq!(cpu.registers.get_pc(), 0xC000);
    assert_eq!(mem.get(0x0100 + sp as u16), 0x80);
    assert_eq!(mem.get(0x0100 + sp as u16 - 1), 0x02);
    assert_eq!(mem.get(0x0100 + sp as u16 - 2), 0x30);
    assert!(cpu.registers.get_status(StatusName::interrupt));
}

#[test]
fn brk_ignored_vector_when_disabled() {
    let (mut cpu, mut mem) = with_program(&[0x00]);
    mem.set(0xFFFE, 0x00);
    mem.set(0xFFFF, 0xC0);
    cpu.registers.set_interrupt(true);
    step(&mut cpu, &mut mem).unwrap();
    assert_eq!(cpu.registers.get_pc(), 0x8002);
}

#[test]
fn rti_restores_status_and_pc() {
    let (mut cpu, mut mem) = with_program(&[0x40]);
    cpu.registers.set_sp(0xFA);
    mem.set(0x01FB, 0xC3);
    mem.set(0x01FC, 0x34);
    mem.set(0x01FD, 0x12);
    assert_eq!(step(&mut cpu, &mut mem), Ok(6));
    assert_eq!(cpu.registers.get_pc(), 0x1234);
    assert_eq!(cpu.registers.get(ByteRegister::P), 0xE3);
    assert_eq!(cpu.registers.get(ByteRegister::SP), 0xFD);
}

#[test]
fn shifts_on_accumulator_and_memory() {
    // ASL A; LSR $10; ROL A; ROR $10
    let (mut cpu, mut mem) = with_program(&[0x0A, 0x46, 0x10, 0x2A, 0x66, 0x10]);
    cpu.registers.set_acc(0x81).set_carry(false);
    mem.set(0x0010, 0x03);
    step(&mut cpu, &mut mem).unwrap();
    assert_eq!(cpu.registers.get(ByteRegister::A), 0x02);
    assert!(cpu.registers.get_status(StatusName::carry));
    step(&mut cpu, &mut mem).unwrap();
    assert_eq!(mem.get(0x0010), 0x01);
    assert!(cpu.registers.get_status(StatusName::carry));
    step(&mut cpu, &mut mem).unwrap();
    assert_eq!(cpu.registers.get(ByteRegister::A), 0x05);
    assert!(!cpu.registers.get_status(StatusName::carry));
    step(&mut cpu, &mut mem).unwrap();
    assert_eq!(mem.get(0x0010), 0x00);
    assert!(cpu.registers.get_status(StatusName::carry));
    assert!(cpu.registers.get_status(StatusName::zero));
}

#[test]
fn increments_wrap() {
    // INX; DEY; INC $20; DEC $21
    let (mut cpu, mut mem) = with_program(&[0xE8, 0x88, 0xE6, 0x20, 0xC6, 0x21]);
    cpu.registers.set_x(0xFF).set_y(0x00);
    mem.set(0x0020, 0xFF);
    mem.set(0x0021, 0x00);
    for _ in 0..4 {
        step(&mut cpu, &mut mem).unwrap();
    }
    assert_eq!(cpu.registers.get(ByteRegister::X), 0x00);
    assert_eq!(cpu.registers.get(ByteRegister::Y), 0xFF);
    assert_eq!(mem.get(0x0020), 0x00);
    assert_eq!(mem.get(0x0021), 0xFF);
    assert!(cpu.registers.get_status(StatusName::negative));
}

#[test]
fn logic_and_bit() {
    // AND #$0F; ORA #$30; EOR #$FF; BIT $40
    let (mut cpu, mut mem) = with_program(&[0x29, 0x0F, 0x09, 0x30, 0x49, 0xFF, 0x24, 0x40]);
    cpu.registers.set_acc(0x5A);
    mem.set(0x0040, 0xC0);
    step(&mut cpu, &mut mem).unwrap();
    assert_eq!(cpu.registers.get(ByteRegister::A), 0x0A);
    step(&mut cpu, &mut mem).unwrap();
    assert_eq!(cpu.registers.get(ByteRegister::A), 0x3A);
    step(&mut cpu, &mut mem).unwrap();
    assert_eq!(cpu.registers.get(ByteRegister::A), 0xC5);
    step(&mut cpu, &mut mem).unwrap();
    assert!(cpu.registers.get_status(StatusName::negative));
    assert!(cpu.registers.get_status(StatusName::overflow));
    assert!(!cpu.registers.get_status(StatusName::zero));
}

#[test]
fn flag_instructions() {
    // SEC; SED; SEI; CLC; CLD; CLI; CLV
    let (mut cpu, mut mem) = with_program(&[0x38, 0xF8, 0x78, 0x18, 0xD8, 0x58, 0xB8]);
    cpu.registers.set_overflow(true);
    for _ in 0..3 {
        step(&mut cpu, &mut mem).unwrap();
    }
    assert!(cpu.registers.get_status(StatusName::carry));
    assert!(cpu.registers.get_status(StatusName::decimal_mode));
    assert!(cpu.registers.get_status(StatusName::interrupt));
    for _ in 0..4 {
        step(&mut cpu, &mut mem).unwrap();
    }
    assert!(!cpu.registers.get_status(StatusName::carry));
    assert!(!cpu.registers.get_status(StatusName::decimal_mode));
    assert!(!cpu.registers.get_status(StatusName::interrupt));
    assert!(!cpu.registers.get_status(StatusName::overflow));
}

#[test]
fn undocumented_combinations() {
    // LAX $10; SAX $11; DCP $12; ISB $13; SLO $14; RLA $15; SRE $16; RRA $17
    let program = [0xA7, 0x10, 0x87, 0x11, 0xC7, 0x12, 0xE7, 0x13, 0x07, 0x14, 0x27, 0x15, 0x47, 0x16, 0x67, 0x17];
    let (mut cpu, mut mem) = with_program(&program);
    mem.set(0x10, 0x3C);
    mem.set(0x12, 0x3D);
    mem.set(0x13, 0x00);
    mem.set(0x14, 0x81);
    mem.set(0x15, 0x01);
    mem.set(0x16, 0x02);
    mem.set(0x17, 0x02);
    step(&mut cpu, &mut mem).unwrap();
    assert_eq!(cpu.registers.get(ByteRegister::A), 0x3C);
    assert_eq!(cpu.registers.get(ByteRegister::X), 0x3C);
    step(&mut cpu, &mut mem).unwrap();
    assert_eq!(mem.get(0x11), 0x3C);
    step(&mut cpu, &mut mem).unwrap();
    assert_eq!(mem.get(0x12), 0x3C);
    assert!(cpu.registers.get_status(StatusName::zero));
    assert!(cpu.registers.get_status(StatusName::carry));
    step(&mut cpu, &mut mem).unwrap();
    // INC to 1, then A = 0x3C - 1 with carry set.
    assert_eq!(mem.get(0x13), 0x01);
    assert_eq!(cpu.registers.get(ByteRegister::A), 0x3B);
    step(&mut cpu, &mut mem).unwrap();
    // ASL 0x81 -> 0x02 carry out; A = 0x3B | 0x02.
    assert_eq!(mem.get(0x14), 0x02);
    assert_eq!(cpu.registers.get(ByteRegister::A), 0x3B);
    assert!(cpu.registers.get_status(StatusName::carry));
    step(&mut cpu, &mut mem).unwrap();
    // ROL 0x01 with carry in -> 0x03; A = 0x3B & 0x03.
    assert_eq!(mem.get(0x15), 0x03);
    assert_eq!(cpu.registers.get(ByteRegister::A), 0x03);
    step(&mut cpu, &mut mem).unwrap();
    // LSR 0x02 -> 0x01; A = 0x03 ^ 0x01.
    assert_eq!(mem.get(0x16), 0x01);
    assert_eq!(cpu.registers.get(ByteRegister::A), 0x02);
    step(&mut cpu, &mut mem).unwrap();
    // ROR 0x02 with carry 0 -> 0x01 carry 0; A = 0x02 + 0x01.
    assert_eq!(mem.get(0x17), 0x01);
    assert_eq!(cpu.registers.get(ByteRegister::A), 0x03);
}

#[test]
fn undefined_opcode_is_a_decode_error() {
    let (mut cpu, mut mem) = with_program(&[0x02]);
    assert_eq!(step(&mut cpu, &mut mem), Err(DecodeError { opcode: 0x02, pc: 0x8000 }));
    assert!(decode(0x02).is_none());
    assert!(decode(0xA9).is_some());
}

#[test]
fn reset_loads_vector() {
    let mut cpu = Cpu::new();
    let mut mem = FlatMemory::new();
    mem.set(0xFFFC, 0x34);
    mem.set(0xFFFD, 0x12);
    cpu.registers.set_acc(9);
    cpu.reset(&mut mem);
    assert_eq!(cpu.registers.get_pc(), 0x1234);
    assert_eq!(cpu.registers.get(ByteRegister::A), 0);
    assert_eq!(cpu.registers.get(ByteRegister::P), 0x34);
}

#[test]
fn nmi_is_taken_before_the_next_instruction() {
    let (mut cpu, mut mem) = with_program(&[0xEA]);
    mem.set(0xFFFA, 0x00);
    mem.set(0xFFFB, 0x90);
    mem.set(0x9000, 0xE8);
    let mut nmi = true;
    assert_eq!(cpu.run(&mut mem, &mut nmi), Ok(2));
    assert!(!nmi);
    assert_eq!(cpu.registers.get(ByteRegister::X), 1);
    assert_eq!(cpu.registers.get_pc(), 0x9001);
    assert!(cpu.registers.get_status(StatusName::interrupt));
}

use nes_emu::simple_cpu::{CpuFlags, CPU};

fn run_program(program: &[u8]) -> CPU {
    let mut cpu = CPU::new();
    let mut assembly = program.to_vec();
    assembly.push(0x00);
    cpu.load_program(assembly);
    cpu.run();
    cpu
}

fn loaded(program: &[u8]) -> CPU {
    let mut cpu = CPU::new();
    let mut assembly = program.to_vec();
    assembly.push(0x00);
    cpu.load_program(assembly);
    cpu
}

#[test]
fn test_nth_bit() {
    let value = 0b1010_1010;
    assert_eq!(CPU::nth_bit(value, 0), false);
    assert_eq!(CPU::nth_bit(value, 1), true);
    assert_eq!(CPU::nth_bit(value, 2), false);
    assert_eq!(CPU::nth_bit(value, 3), true);
    assert_eq!(CPU::nth_bit(value, 4), false);
    assert_eq!(CPU::nth_bit(value, 5), true);
    assert_eq!(CPU::nth_bit(value, 6), false);
    assert_eq!(CPU::nth_bit(value, 7), true);
}

#[test]
fn cpu_init() {
    let cpu = CPU::new();
    assert_eq!(cpu.accumulator, 0);
    assert_eq!(cpu.register_x, 0);
    assert_eq!(cpu.register_y, 0);
    assert_eq!(cpu.program_counter, 0);
    assert_eq!(cpu.status, CpuFlags::empty());
}

#[test]
fn jmp_absolute() {
    let cpu = run_program(&[0x4C, 0x00, 0xff]);
    assert_eq!(cpu.program_counter, 0xff01);
}

#[test]
fn jmp_indirect() {
    let mut cpu = loaded(&[0x6C, 0x00, 0xff]);
    cpu.write_byte(0xff00, 0x00);
    cpu.run();
    assert_eq!(cpu.program_counter, 0x0001);
}

#[test]
fn logic_ops() {
    let mut cpu = loaded(&[0x29, 234]);
    cpu.accumulator = 0b1010;
    cpu.run();
    assert_eq!(cpu.accumulator, 0b1010 & 234);
    let mut cpu = loaded(&[0x09, 123]);
    cpu.accumulator = 0b1010;
    cpu.run();
    assert_eq!(cpu.accumulator, 0b1010 | 123);
    let mut cpu = loaded(&[0x49, 123]);
    cpu.accumulator = 0b1010;
    cpu.run();
    assert_eq!(cpu.accumulator, 0b1010 ^ 123);
}

#[test]
fn increments() {
    let mut cpu = loaded(&[0xe8]);
    cpu.register_x = 5;
    cpu.run();
    assert_eq!(cpu.register_x, 6);
    let mut cpu = loaded(&[0xc8]);
    cpu.register_y = 0xff;
    cpu.run();
    assert_eq!(cpu.register_y, 0);
    let mut cpu = loaded(&[0xe6, 0x10]);
    cpu.write_byte(0x10, 1);
    cpu.run();
    assert_eq!(cpu.read_byte(0x10), 2);
    assert!(!cpu.status.contains(CpuFlags::ZERO));
    assert!(!cpu.status.contains(CpuFlags::NEGATIVE));
}

#[test]
fn transfers_and_multiple_ops() {
    let mut cpu = loaded(&[0xaa]);
    cpu.accumulator = 5;
    cpu.run();
    assert_eq!(cpu.register_x, 5);
    let cpu = run_program(&[0xa9, 0xc0, 0xaa, 0xe8]);
    assert_eq!(cpu.register_x, 0xc1);
}

#[test]
fn decrements() {
    let mut cpu = loaded(&[0xc6, 0x10]);
    cpu.write_byte(0x10, 0x1);
    cpu.run();
    assert_eq!(cpu.read_byte(0x10), 0);
    assert!(cpu.status.contains(CpuFlags::ZERO));
    let mut cpu = loaded(&[0x88]);
    cpu.register_y = 10;
    cpu.run();
    assert_eq!(cpu.register_y, 9);
    let mut cpu = loaded(&[0xCA]);
    cpu.register_x = 0;
    cpu.run();
    assert_eq!(cpu.register_x, 0xff);
}

#[test]
fn compares() {
    let mut cpu = loaded(&[0xe0, 10]);
    cpu.register_x = 10;
    cpu.run();
    assert!(cpu.status.contains(CpuFlags::CARRY));
    assert!(cpu.status.contains(CpuFlags::ZERO));
    assert!(!cpu.status.contains(CpuFlags::NEGATIVE));
    let mut cpu = loaded(&[0xc0, 10]);
    cpu.register_y = 9;
    cpu.run();
    assert!(!cpu.status.contains(CpuFlags::CARRY));
    assert!(!cpu.status.contains(CpuFlags::ZERO));
    assert!(cpu.status.contains(CpuFlags::NEGATIVE));
    let mut cpu = loaded(&[0xc5, 0x56]);
    cpu.write_byte(0x56, 10);
    cpu.accumulator = 10;
    cpu.run();
    assert!(cpu.status.contains(CpuFlags::CARRY));
    assert!(cpu.status.contains(CpuFlags::ZERO));
    assert!(!cpu.status.contains(CpuFlags::NEGATIVE));
}

#[test]
fn loads() {
    let cpu = run_program(&[0xa9, 5]);
    assert_eq!(cpu.accumulator, 5);
    assert_eq!(cpu.status, CpuFlags::empty());
    let mut cpu = loaded(&[0xa5, 0x55]);
    cpu.write_byte(0x55, 10);
    cpu.run();
    assert_eq!(cpu.accumulator, 10);
    let cpu = run_program(&[0xa0, 5]);
    assert_eq!(cpu.register_y, 5);
    let cpu = run_program(&[0xa2, 5]);
    assert_eq!(cpu.register_x, 5);
    assert_eq!(cpu.status, CpuFlags::empty());
}

#[test]
fn read_write_word_and_byte() {
    let mut cpu = CPU::new();
    cpu.write_word(0x10, 0x1234);
    assert_eq!(cpu.read_word(0x10), 0x1234);
    cpu.write_word(0xfff, 0x5422);
    assert_eq!(cpu.read_word(0xfff), 0x5422);
    cpu.write_byte(0x10, 0x12);
    assert_eq!(cpu.read_byte(0x10), 0x12);
}

#[test]
fn flag_updates() {
    let mut cpu = CPU::new();
    cpu.update_negative_flag(0b1000_0000);
    assert!(cpu.status.contains(CpuFlags::NEGATIVE));
    cpu.update_negative_flag(0b0111_1111);
    assert!(!cpu.status.contains(CpuFlags::NEGATIVE));
    cpu.update_zero_and_negative_flags(0);
    assert!(cpu.status.contains(CpuFlags::ZERO));
    cpu.update_zero_and_negative_flags(1);
    assert!(!cpu.status.contains(CpuFlags::ZERO));
}

#[test]
fn flag_instructions() {
    assert!(run_program(&[0x38]).status.contains(CpuFlags::CARRY));
    assert!(run_program(&[0xf8]).status.contains(CpuFlags::DECIMAL));
    assert!(run_program(&[0x78]).status.contains(CpuFlags::IRQ));
    for (opcode, flag) in [
        (0xb8u8, CpuFlags::OVERFLOW),
        (0x18, CpuFlags::CARRY),
        (0xd8, CpuFlags::DECIMAL),
        (0x58, CpuFlags::IRQ),
    ] {
        let mut cpu = loaded(&[opcode]);
        cpu.status.insert(flag);
        cpu.run();
        assert!(!cpu.status.contains(flag));
    }
}

#[test]
fn stack_word_comes_back_unchanged() {
    // Words are pushed high byte first and popped low byte first.
    let mut cpu = CPU::new();
    let sp = cpu.stack_pointer;
    cpu.stack_push_word(0x1234);
    assert_eq!(cpu.read_byte(0x0100 + sp as u16), 0x12);
    assert_eq!(cpu.read_byte(0x0100 + sp.wrapping_sub(1) as u16), 0x34);
    assert_eq!(cpu.stack_pop_word(), 0x1234);
    assert_eq!(cpu.stack_pointer, sp);
    cpu.stack_push_byte(0x77);
    assert_eq!(cpu.stack_pop_byte(), 0x77);
}

#[test]
fn adc_stores_the_sum_with_carry() {
    // ADC #$05 with A = 3 and carry clear gives 8.
    let mut cpu = loaded(&[0x69, 0x05]);
    cpu.accumulator = 0x03;
    cpu.run();
    assert_eq!(cpu.accumulator, 0x08);
    assert!(!cpu.status.contains(CpuFlags::CARRY));
    assert!(!cpu.status.contains(CpuFlags::OVERFLOW));
    // $FF + $01 wraps to zero and sets the carry.
    let mut cpu = loaded(&[0x69, 0x01]);
    cpu.accumulator = 0xFF;
    cpu.run();
    assert_eq!(cpu.accumulator, 0x00);
    assert!(cpu.status.contains(CpuFlags::CARRY));
    assert!(cpu.status.contains(CpuFlags::ZERO));
    // $50 + $50 overflows into the sign bit.
    let mut cpu = loaded(&[0x69, 0x50]);
    cpu.accumulator = 0x50;
    cpu.run();
    assert_eq!(cpu.accumulator, 0xA0);
    assert!(cpu.status.contains(CpuFlags::OVERFLOW));
    assert!(cpu.status.contains(CpuFlags::NEGATIVE));
}

#[test]
fn sbc_subtracts_with_borrow() {
    // SEC; SBC #$03 with A = 5 gives 2 and no borrow.
    let mut cpu = loaded(&[0x38, 0xE9, 0x03]);
    cpu.accumulator = 0x05;
    cpu.run();
    assert_eq!(cpu.accumulator, 0x02);
    assert!(cpu.status.contains(CpuFlags::CARRY));
    // With the carry clear one more is subtracted; 2 - 3 borrows.
    let mut cpu = loaded(&[0xE9, 0x02]);
    cpu.accumulator = 0x02;
    cpu.run();
    assert_eq!(cpu.accumulator, 0xFF);
    assert!(!cpu.status.contains(CpuFlags::CARRY));
    assert!(cpu.status.contains(CpuFlags::NEGATIVE));
}

#[test]
fn rotations_go_through_the_carry() {
    // SEC; ROL A: $80 becomes $01 and the carry takes bit 7.
    let mut cpu = loaded(&[0x38, 0x2A]);
    cpu.accumulator = 0x80;
    cpu.run();
    assert_eq!(cpu.accumulator, 0x01);
    assert!(cpu.status.contains(CpuFlags::CARRY));
    // CLC; ROR A: $01 becomes $00 and the carry takes bit 0.
    let mut cpu = loaded(&[0x18, 0x6A]);
    cpu.accumulator = 0x01;
    cpu.run();
    assert_eq!(cpu.accumulator, 0x00);
    assert!(cpu.status.contains(CpuFlags::CARRY));
    assert!(cpu.status.contains(CpuFlags::ZERO));
}

#[test]
fn flat_jsr_then_rts_returns_after_the_call() {
    // $8000: JSR $8006; $8003: LDX #$01; $8005: BRK; $8006: LDA #$07; $8008: RTS
    let cpu = run_program(&[0x20, 0x06, 0x80, 0xA2, 0x01, 0x00, 0xA9, 0x07, 0x60]);
    assert_eq!(cpu.accumulator, 0x07);
    assert_eq!(cpu.register_x, 0x01);
}

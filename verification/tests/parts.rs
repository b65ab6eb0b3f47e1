use nes_emu::apu::frame_counter::{Frame, FrameCounter, SequencerMode};
use nes_emu::apu::length_counter::{LengthCounter, State};
use nes_emu::apu::pulse::PulseChannel;
use nes_emu::apu::sweep::Sweep;
use nes_emu::apu::{Apu, Status};
use nes_emu::bus::{Device, Memory};
use nes_emu::cpu::decode::{AdressingMode, Group, Opcode};
use nes_emu::cpu::flags::CpuFlags;
use nes_emu::glue::{decide, Action, Decision, Events, LoopState, StepState};
use nes_emu::gui::step_state;
use nes_emu::instructions::{
    consume_params, get_params, into_instruction, Adc, AdressingMode as OldMode, Inx,
    Instruction as _, InstructionContainer, Lda, Pla, Rol, Ror, Sbc,
};
use nes_emu::ppu::palette::{palette_color, Color, Palette};
use nes_emu::ppu::registers::{get_register, Control, Mask, Mutability, Register};
use nes_emu::ppu::registers::Status as PpuStatus;
use nes_emu::rom::{Header as RomHeader, Rom};
use nes_emu::simple_cpu::CpuFlags as FlatFlags;
use nes_emu::simple_cpu::CPU;
use nes_emu::util::{combine_bools, expand_array, nth_bit, CircularBuffer};

#[test]
fn decode_regular_opcodes() {
    assert_eq!(Opcode::from(0xA9), Some(Opcode::LDA));
    assert_eq!(Opcode::from(0x0A), Some(Opcode::ASL));
    assert_eq!(Opcode::from(0x6C), Some(Opcode::JMP_ABSOLUTE));
    assert_eq!(Opcode::from(0x03), None);
    assert_eq!(Opcode::from(0x00), None);
    assert_eq!(Group::from(1), Some(Group::One));
    assert_eq!(Group::from(3), None);
    assert_eq!(
        AdressingMode::handle_quirks(Opcode::STX, AdressingMode::ZeroPageX, Group::Two),
        Some(AdressingMode::ZeroPageY)
    );
    assert_eq!(AdressingMode::handle_quirks(Opcode::STA, AdressingMode::Immediate, Group::One), None);
    assert_eq!(
        AdressingMode::from(0b011, Group::Three, Opcode::JMP_INDIRECT),
        Some(AdressingMode::Indirect)
    );
    assert_eq!(AdressingMode::from(0b110, Group::Two, Opcode::ASL), None);
    assert_eq!(Opcode::mask_mode(0b101_110_01), 0b110);
}

#[test]
fn flat_interpreter_instruction_set() {
    let (instr, mode) = into_instruction(0x69).unwrap();
    assert_eq!(instr.name(), "ADC");
    assert_eq!(mode, OldMode::Immediate);
    let (instr, mode) = into_instruction(0xC9).unwrap();
    assert_eq!(instr.name(), "CMP");
    assert_eq!(mode, OldMode::Immediate);
    let (instr, _) = into_instruction(0xE9).unwrap();
    assert_eq!(instr.name(), "SBC");
    let (instr, _) = into_instruction(0xA9).unwrap();
    assert_eq!(instr.name(), "LDA");
    assert!(into_instruction(0xFF).is_none());
    assert!(matches!(into_instruction(0x10), Some((InstructionContainer::Bpl(_), OldMode::Relative))));
    let mut cpu = CPU::new();
    cpu.program_counter = 0x10;
    cpu.write_byte(0x10, 0x42);
    let next = Lda.execute(&mut cpu, &OldMode::Immediate);
    assert_eq!(cpu.accumulator, 0x42);
    assert_eq!(next, 0x11);
    assert_eq!(Lda.opcodes().len(), 8);
    assert_eq!(consume_params(0x10, &OldMode::Absolute), 0x12);
    cpu.write_byte(0x20, 0x34);
    cpu.write_byte(0x21, 0x12);
    cpu.program_counter = 0x20;
    assert_eq!(get_params(&cpu, &OldMode::Absolute), 0x1234);
}

#[test]
fn length_counter_registers() {
    let mut counter = LengthCounter::default();
    counter.set_low(0x10);
    // Bits 0-2 are the high bits of the period, bits 3-7 index the length table.
    counter.set_high(0b0000_1011);
    assert_eq!(counter.timer(), 0x310);
    // Entry 1 of the table is $FE.
    assert_eq!(counter.length_counter(), 0xFE);
    assert!(!counter.active());
    counter.set_state(State::Enabled);
    assert!(counter.active());
    counter.tick();
    assert_eq!(counter.length_counter(), 0xFD);
    counter.set_timer(0x02BC);
    assert_eq!(counter.timer(), 0x02BC);
    // Only the low 11 bits of a period are kept.
    counter.set_timer(0x0ABC);
    assert_eq!(counter.timer(), 0x02BC);
    assert_eq!(State::from(false), State::Disabled);
}

#[test]
fn sweep_target_and_tick() {
    let mut sweep = Sweep::default();
    sweep.write(0b1000_0001);
    assert_eq!(sweep.target_period(100), 150);
    sweep.write(0b1000_1001);
    assert_eq!(sweep.target_period(100), 49);
    sweep.write(0b1010_0001);
    assert_eq!(sweep.tick(100), Some(150));
    assert_eq!(sweep.timer, 2);
    assert_eq!(sweep.tick(100), None);
    assert_eq!(sweep.timer, 1);
}

#[test]
fn sweep_shift_rounds_down() {
    let mut sweep = Sweep::default();
    sweep.write(0b1000_0001);
    // -5 >> 1 is -3.
    assert_eq!(sweep.target_period(-5), -8);
    sweep.write(0b1000_1010);
    // -5 >> 2 is -2, and negation subtracts one more.
    assert_eq!(sweep.target_period(-5), -4);
}

#[test]
fn frame_counter_sequence() {
    let mut counter = FrameCounter::default();
    assert_eq!(counter.sequencer_mode(), SequencerMode::Four);
    counter.cycle_count = 7_459;
    assert_eq!(counter.tick(1), Some(Frame::Quarter));
    counter.cycle_count = 14_915;
    assert_eq!(counter.tick(1), Some(Frame::Half));
    counter.cycle_count = 29_831;
    assert_eq!(counter.tick(5), Some(Frame::Half));
    assert_eq!(counter.cycle_count, 5);
    assert_eq!(counter.tick(1), None);
    counter.write(0b0100_0000);
    assert_eq!(counter.sequencer_mode(), SequencerMode::Five);
    assert_eq!(counter.read(), 0b0100_0000);
    assert_eq!(counter.cycle_count, 0);
}

#[test]
fn pulse_channel_and_apu_registers() {
    let mut apu = Apu::new();
    apu.write_byte(0x4000, 0b1100_0000);
    apu.write_byte(0x4002, 0x20);
    apu.write_byte(0x4003, 0x00);
    apu.write_byte(0x4015, 0x01);
    assert!(apu.pulse_channel.active());
    assert_eq!(apu.pulse_channel.sample(), 1);
    assert_eq!(apu.read_byte(0x4015), 0x01);
    apu.write_byte(0x4017, 0x40);
    assert_eq!(apu.read_byte(0x4017), 0x40);
    assert!(apu.contains(0x4000));
    assert!(!apu.contains(0x4014));
    let mut status = Status(0b0100_0000);
    status.write(0b1000_0001);
    assert_eq!(status.0, 0b0100_0001);
    assert_eq!(status.read(), 0b0000_0001);
    let mut pulse = PulseChannel::default();
    pulse.tick(None);
    assert_eq!(pulse.current_step, 1);
    pulse.set_enabled(true);
    assert_eq!(pulse.target_period(), 0);
    apu.tick_impl(1);
}

#[test]
fn emulation_loop_decisions() {
    let mut state = LoopState::new();
    let events = Events {
        unload_requested: false,
        cartridge_present: false,
        reboot_requested: false,
        step_control: true,
        new_step_state: None,
    };
    assert_eq!(decide(&mut state, events), Decision { resets: 0, action: Action::AwaitCartridge });
    let events = Events { cartridge_present: true, ..events };
    assert_eq!(decide(&mut state, events), Decision { resets: 1, action: Action::Step });
    assert_eq!(decide(&mut state, events), Decision { resets: 0, action: Action::Step });
    let paused = Events { new_step_state: Some(StepState { paused: true, step: true }), ..events };
    assert_eq!(decide(&mut state, paused), Decision { resets: 0, action: Action::Step });
    assert_eq!(decide(&mut state, events), Decision { resets: 0, action: Action::Paused });
    let reboot = Events { reboot_requested: true, ..events };
    assert_eq!(decide(&mut state, reboot).resets, 1);
    let mut s = StepState::default();
    assert!(!s.paused);
    s.toggle_pause();
    assert!(s.paused);
    s.step();
    assert!(s.step && s.paused);
    let gui = step_state::StepState::default();
    assert!(gui.paused && gui.step);
}

#[test]
fn rom_reader_takes_areas_after_the_header() {
    let mut data = vec![0x4E, 0x45, 0x53, 0x1A, 1, 1, 0b0001_0001, 0x20, 0, 0, 0, 0, 0, 0, 0, 0];
    data.resize(16 + 0x4000 + 0x2000, 0);
    data[16] = 0xAB;
    data[16 + 0x4000] = 0xCD;
    let rom = Rom::from_bytes(&data);
    assert_eq!(rom.header.program_rom_size, 0x4000);
    // High nibble from flags 7, low nibble from flags 6.
    assert_eq!(rom.header.mapper, 0x21);
    assert!(rom.header.mirroring_vertical);
    assert!(rom.trainer.is_none());
    assert_eq!(rom.character_rom.as_ref().unwrap()[0], 0xCD);
    assert_eq!(rom.character_rom.as_ref().unwrap().len(), 0x2000);
    assert_eq!(rom.program_rom[0], 0xAB);
    assert_eq!(RomHeader::character_rom_size(2), 16 * 1024);
}

#[test]
fn ppu_register_map() {
    assert_eq!(get_register(0x2002), Some((Register::Status, Mutability::Read)));
    assert_eq!(get_register(0x3FFF), Some((Register::Data, Mutability::ReadWrite)));
    assert_eq!(
        get_register(0x4014),
        Some((Register::ObjectAttributeDirectMemoryAccess, Mutability::Write))
    );
    assert_eq!(get_register(0x4000), None);
    assert!(Mutability::ReadWrite.readable() && !Mutability::Read.writable());
}

#[test]
fn palette_entries() {
    assert_eq!(palette_color(0x00), Color(0x80, 0x80, 0x80));
    assert_eq!(palette_color(0x40 | 0x20), Color(0xFF, 0xFF, 0xFF));
    let mut palette = Palette::default();
    palette.set(0x3F11, 7);
    assert_eq!(palette.index(0x3F11), 7);
    palette.set(0x3F10, 9);
    assert_eq!(palette.index(0x3F00), 9);
    let entry = palette.sprite_entry(0);
    assert_eq!(entry.1, 7);
    assert_eq!(Palette::get(entry, 0), palette_color(9));
}

#[test]
fn utilities() {
    assert!(nth_bit(0b100, 2));
    assert_eq!(combine_bools(true, false), 2);
    let expanded: [Option<u8>; 4] = expand_array(&[1u8, 2]);
    assert_eq!(expanded, [Some(1), Some(2), None, None]);
    let mut buffer: CircularBuffer<u8, 3> = CircularBuffer::new();
    assert_eq!(buffer.len(), 3);
    buffer.push(1);
    buffer.push(2);
    assert_eq!(buffer.last(), Some(&2));
    buffer.push(3);
    buffer.push(4);
    assert_eq!(buffer.last(), Some(&4));
    let items: Vec<u8> = buffer.iter().into_iter().copied().collect();
    assert_eq!(items, vec![2, 3, 4]);
    let flags = CpuFlags::new();
    assert_eq!(flags.to_string(), "--I-BB--");
}

#[test]
fn status_flags_as_text() {
    assert_eq!(PpuStatus(0b1100_0000).to_string(), "VZ-");
    assert_eq!(PpuStatus(0b0010_0000).to_string(), "--O");
    assert_eq!(PpuStatus::default().to_string(), "---");
}

#[test]
fn flat_instruction_set_arithmetic_and_rotations() {
    let mut cpu = CPU::new();
    // ADC #$05 with A = 3 and carry set: 3 + 5 + 1 = 9.
    cpu.write_byte(0x10, 0x05);
    cpu.program_counter = 0x10;
    cpu.accumulator = 3;
    cpu.status.insert(FlatFlags::CARRY);
    Adc.execute(&mut cpu, &OldMode::Immediate);
    assert_eq!(cpu.accumulator, 9);
    assert!(!cpu.status.contains(FlatFlags::CARRY));
    // SBC #$05 with A = 9 and carry clear: 9 - 5 - 1 = 3, no borrow.
    Sbc.execute(&mut cpu, &OldMode::Immediate);
    assert_eq!(cpu.accumulator, 3);
    assert!(cpu.status.contains(FlatFlags::CARRY));
    // ROL A with carry set: $80 becomes $01, carry set from bit 7.
    cpu.accumulator = 0x80;
    Rol.execute(&mut cpu, &OldMode::Accumulator);
    assert_eq!(cpu.accumulator, 0x01);
    assert!(cpu.status.contains(FlatFlags::CARRY));
    // ROR A with carry set: $02 becomes $81, carry cleared from bit 0.
    cpu.accumulator = 0x02;
    Ror.execute(&mut cpu, &OldMode::Accumulator);
    assert_eq!(cpu.accumulator, 0x81);
    assert!(!cpu.status.contains(FlatFlags::CARRY));
    // PLA pulls what was pushed.
    cpu.stack_push_byte(0x44);
    cpu.accumulator = 0;
    Pla.execute(&mut cpu, &OldMode::Implied);
    assert_eq!(cpu.accumulator, 0x44);
    // INX sets the zero flag when X wraps.
    cpu.register_x = 0xFF;
    Inx.execute(&mut cpu, &OldMode::Implied);
    assert!(cpu.status.contains(FlatFlags::ZERO));
}

#[test]
fn ppu_control_and_mask_writes_take_the_value() {
    let mut control = Control(0);
    control.update(0x90);
    assert_eq!(control, Control(0x90));
    let mut mask = Mask(0);
    mask.update(0x1E);
    assert_eq!(mask, Mask(0x1E));
}

#[test]
fn circular_buffer_iterates_the_last_pushes() {
    let mut buffer: CircularBuffer<u8, 3> = CircularBuffer::new();
    for v in 1..=7u8 {
        buffer.push(v);
    }
    let items: Vec<u8> = buffer.iter().into_iter().copied().collect();
    assert_eq!(items, vec![5, 6, 7]);
}

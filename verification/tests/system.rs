use nes_emu::bus::{Bus, Clock, Device, Memory};
use nes_emu::cartridge::mapper::{Mapper, MapperInstance};
use nes_emu::cartridge::{Cartridge, Header, Mirroring};
use nes_emu::cheat::{Cheat, CheatReceiver, CheatRequest};
use nes_emu::controller::{format_button_index, Buttons, Controller};
use nes_emu::cpu::instructions::{Instruction, Operation};
use nes_emu::cpu::{AddressingMode, Cpu, CpuRam};
use nes_emu::glue::StepState;
use nes_emu::gui::cpu_debugger::{CpuDebugger, CPU_STATES};
use nes_emu::gui::frame::Frame;
use nes_emu::gui::input::{Input, Keys};

/// An iNES file: header, then `prg_pages` of program ROM, then `chr_pages` of character ROM.
fn ines(prg_pages: u8, chr_pages: u8, flags6: u8, program: &[u8]) -> Vec<u8> {
    let mut data = vec![0x4E, 0x45, 0x53, 0x1A, prg_pages, chr_pages, flags6, 0, 0, 0, 0, 0, 0, 0, 0, 0];
    let prg_len = prg_pages as usize * 0x4000;
    for i in 0..prg_len {
        data.push(if i < program.len() { program[i] } else { 0xEA });
    }
    for i in 0..(chr_pages as usize * 0x2000) {
        data.push((i % 251) as u8);
    }
    data
}

/// A CPU with a one-page NROM cartridge holding `program` at $8000, started there.
fn machine(program: &[u8]) -> Cpu {
    let cartridge = Cartridge::new(program.to_vec()).unwrap();
    let mut bus = Bus::new(None);
    bus.load_cartridge(cartridge);
    let mut cpu = Cpu::new(bus);
    cpu.reset();
    cpu.program_counter = 0x8000;
    cpu
}

#[test]
fn reset_reads_the_vector_and_sets_power_on_state() {
    let mut program = vec![0xEA; 0x4000];
    program[0x3FFC] = 0x34;
    program[0x3FFD] = 0x92;
    let cartridge = Cartridge::from_bytes(&ines(1, 1, 0, &program)).unwrap();
    let mut bus = Bus::new(None);
    bus.load_cartridge(cartridge);
    let mut cpu = Cpu::new(bus);
    cpu.reset();
    assert_eq!(cpu.program_counter, 0x9234);
    assert_eq!(cpu.stack_pointer, 0xFD);
    assert_eq!(cpu.flags.bits(), 0b0011_0100);
    assert_eq!(cpu.bus.cycles, 7);
}

#[test]
fn step_lda_immediate_and_snapshot() {
    let mut cpu = machine(&[0xA9, 0x05]);
    let state = cpu.step().unwrap();
    assert_eq!(state.instruction, "LDA #$05  ");
    assert_eq!(state.program_counter, 0x8000);
    assert_eq!(cpu.accumulator, 5);
    assert_eq!(cpu.program_counter, 0x8002);
    assert!(!cpu.flags.zero());
    assert!(!cpu.flags.negative());
    assert_eq!(cpu.bus.cycles, 7 + 2);
}

#[test]
fn step_formats_each_mode() {
    let mut cpu = machine(&[0x4C, 0x34, 0x12]);
    assert_eq!(cpu.step().unwrap().instruction, "JMP $1234 ");
    assert_eq!(cpu.program_counter, 0x1234);
    let mut cpu = machine(&[0x0A]);
    assert_eq!(cpu.step().unwrap().instruction, "ASL A     ");
    let mut cpu = machine(&[0xE8]);
    assert_eq!(cpu.step().unwrap().instruction, "INX       ");
    let mut cpu = machine(&[0xA5, 0x10]);
    assert_eq!(cpu.step().unwrap().instruction, "LDA $10   ");
}

#[test]
fn adc_and_sbc_set_carry_and_overflow() {
    let mut cpu = machine(&[0x69, 0x50]);
    cpu.accumulator = 0x50;
    cpu.step();
    assert_eq!(cpu.accumulator, 0xA0);
    assert!(cpu.flags.overflow());
    assert!(!cpu.flags.carry());
    let mut cpu = machine(&[0x69, 0x01]);
    cpu.accumulator = 0xFF;
    cpu.step();
    assert_eq!(cpu.accumulator, 0x00);
    assert!(cpu.flags.carry());
    assert!(cpu.flags.zero());
    let mut cpu = machine(&[0xE9, 0x01]);
    cpu.accumulator = 0x00;
    cpu.flags.set_carry(true);
    cpu.step();
    assert_eq!(cpu.accumulator, 0xFF);
    assert!(!cpu.flags.carry());
    assert!(cpu.flags.negative());
}

#[test]
fn branch_takes_its_offset_from_the_byte_after_the_opcode() {
    // BEQ -4 at $8000: the next instruction is at $8002, so the target is $7FFE, on
    // another page: two cycles more than the two of the instruction.
    let mut cpu = machine(&[0xF0, 0xFC]);
    cpu.flags.set_zero(true);
    cpu.step();
    assert_eq!(cpu.program_counter, 0x7FFE);
    assert_eq!(cpu.bus.cycles, 7 + 2 + 2);
    // BEQ +2 on the same page: one cycle more.
    let mut cpu = machine(&[0xF0, 0x02, 0xEA, 0xEA, 0xFE]);
    cpu.flags.set_zero(true);
    cpu.step();
    assert_eq!(cpu.program_counter, 0x8004);
    assert_eq!(cpu.bus.cycles, 7 + 2 + 1);
    // Not taken: the next instruction, no extra cycle.
    let mut cpu = machine(&[0xF0, 0x02]);
    cpu.flags.set_zero(false);
    cpu.step();
    assert_eq!(cpu.program_counter, 0x8002);
    assert_eq!(cpu.bus.cycles, 7 + 2);
}

#[test]
fn jsr_then_rts_returns_after_the_call() {
    let mut cpu = machine(&[0x20, 0x05, 0x80, 0xEA, 0xEA, 0x60]);
    cpu.step();
    assert_eq!(cpu.program_counter, 0x8005);
    assert_eq!(cpu.stack_pointer, 0xFB);
    cpu.step();
    assert_eq!(cpu.program_counter, 0x8003);
    assert_eq!(cpu.stack_pointer, 0xFD);
}

#[test]
fn push_word_then_pop_word_gives_it_back() {
    let mut cpu = machine(&[]);
    let sp = cpu.stack_pointer;
    cpu.push_word(0xBEEF);
    assert_eq!(cpu.pop_word(), 0xBEEF);
    assert_eq!(cpu.stack_pointer, sp);
    cpu.push_byte(0x42);
    assert_eq!(cpu.pop_byte(), 0x42);
    assert_eq!(cpu.stack_pointer, sp);
}

#[test]
fn unofficial_opcodes() {
    let mut cpu = machine(&[0xA7, 0x10]);
    cpu.bus.write_byte(0x10, 0x99);
    cpu.step();
    assert_eq!(cpu.accumulator, 0x99);
    assert_eq!(cpu.register_x, 0x99);
    let mut cpu = machine(&[0x87, 0x10]);
    cpu.accumulator = 0b1100;
    cpu.register_x = 0b1010;
    cpu.step();
    assert_eq!(cpu.bus.read_byte(0x10), 0b1000);
    let mut cpu = machine(&[0x4B, 0x03]);
    cpu.accumulator = 0x07;
    cpu.step();
    assert_eq!(cpu.accumulator, 0x01);
    assert!(cpu.flags.carry());
}

#[test]
fn decode_table() {
    let (instr, mode, cycles) = Instruction::decode(0xA9).unwrap();
    assert_eq!(instr.name, "LDA");
    assert_eq!(instr.operation, Operation::Lda);
    assert_eq!(mode, AddressingMode::Immediate);
    assert_eq!(cycles, 2);
    let (instr, mode, _) = Instruction::decode(0x89).unwrap();
    assert_eq!(instr.name, "TYA");
    assert_eq!(mode, AddressingMode::Implied);
    assert!(Instruction::decode(0x02).is_none());
    assert_eq!(AddressingMode::ZeroPageY.name(), "zeropageX");
    assert_eq!(AddressingMode::Absolute.len(), 3);
    assert!(!AddressingMode::Accumulator.has_arguments());
}

#[test]
fn nmi_pushes_state_and_jumps_through_the_vector() {
    let mut cpu = machine(&[0xEA]);
    cpu.bus.ppu.trigger_nmi = true;
    cpu.flags.set_break_1(true);
    cpu.step();
    // The NROM test cartridge fills its vectors with NOPs: the NMI handler is at $EAEA.
    assert_eq!(cpu.program_counter, 0xEAEB);
    assert_eq!(cpu.stack_pointer, 0xFA);
    assert!(cpu.flags.interrupts_disabled());
    assert_eq!(cpu.bus.read_byte(0x01FB) & 0b0011_0000, 0b0010_0000);
    assert_eq!(cpu.bus.read_byte(0x01FC), 0x00);
    assert_eq!(cpu.bus.read_byte(0x01FD), 0x80);
    assert!(!cpu.bus.ppu.trigger_nmi);
}

#[test]
fn ram_is_mirrored_every_0x800() {
    let mut bus = Bus::new(None);
    bus.write_byte(0x0005, 7);
    assert_eq!(bus.read_byte(0x0805), 7);
    assert_eq!(bus.read_byte(0x1805), 7);
    let mut ram = CpuRam::default();
    ram.set(0x1FFF, 3);
    assert_eq!(ram.index(0x07FF), 3);
    assert_eq!(ram.len(), 0x800);
    assert!(ram.contains(0x1FFF));
    assert!(!ram.contains(0x2000));
}

#[test]
fn unmapped_reads_are_zero_and_writes_ignored() {
    let mut bus = Bus::new(None);
    assert_eq!(bus.read_byte(0x5000), 0);
    bus.write_byte(0x5000, 1);
    assert_eq!(bus.read_byte(0x2000), 0); // PPUCTRL is write-only
    assert!(!bus.has_cartridge());
}

#[test]
fn cheats_substitute_reads() {
    let mut cheats = CheatReceiver::new();
    cheats.update(CheatRequest::Add(Cheat::from("S:0010:42").unwrap()));
    let mut bus = Bus::new(Some(cheats));
    bus.write_byte(0x10, 1);
    assert_eq!(bus.read_byte(0x10), 0x42);
    assert_eq!(bus.read_byte(0x11), 0);
}

#[test]
fn controller_reports_buttons_in_order() {
    let mut bus = Bus::new(None);
    let mut buttons = Buttons::default();
    buttons.set_a(true);
    buttons.set_start(true);
    buttons.set_right(true);
    bus.controller.update(buttons);
    bus.write_byte(0x4016, 1);
    bus.write_byte(0x4016, 0);
    let reads: Vec<u8> = (0..8).map(|_| bus.read_byte(0x4016)).collect();
    assert_eq!(reads, vec![1, 0, 0, 1, 0, 0, 0, 1]);
    assert_eq!(format_button_index(3), "Start");
    assert_eq!(format_button_index(9), "Unknown");
    let mut c = Controller::new();
    c.write(1);
    assert_eq!(c.index, 0);
    assert!(c.contains(0x4016));
    assert!(!c.contains(0x4017));
}

#[test]
fn oam_dma_copies_a_page() {
    let mut bus = Bus::new(None);
    for i in 0..=255u16 {
        bus.write_byte(0x0200 + i, i as u8);
    }
    bus.write_byte(0x2003, 0);
    bus.write_byte(0x4014, 0x02);
    assert_eq!(bus.ppu.oam.memory[0], 0);
    assert_eq!(bus.ppu.oam.memory[200], 200);
    assert_eq!(bus.ppu.oam.address, 0);
}

#[test]
fn ppu_palette_write_then_read() {
    let mut bus = Bus::new(None);
    bus.write_byte(0x2006, 0x3F);
    bus.write_byte(0x2006, 0x01);
    bus.write_byte(0x2007, 0x21);
    bus.write_byte(0x2006, 0x3F);
    bus.write_byte(0x2006, 0x01);
    assert_eq!(bus.read_byte(0x2007), 0x21);
}

#[test]
fn ppu_oam_write_then_read() {
    let mut bus = Bus::new(None);
    bus.write_byte(0x2003, 0x10);
    bus.write_byte(0x2004, 0x5A);
    assert_eq!(bus.ppu.oam.address, 0x11);
    bus.write_byte(0x2003, 0x10);
    assert_eq!(bus.read_byte(0x2004), 0x5A);
}

#[test]
fn ppu_nametable_reads_are_buffered() {
    let mut cpu = machine(&[]);
    let bus = &mut cpu.bus;
    bus.write_byte(0x2006, 0x20);
    bus.write_byte(0x2006, 0x00);
    bus.write_byte(0x2007, 0x55);
    bus.write_byte(0x2007, 0x66);
    bus.write_byte(0x2006, 0x20);
    bus.write_byte(0x2006, 0x00);
    assert_eq!(bus.read_byte(0x2007), 0x00);
    assert_eq!(bus.read_byte(0x2007), 0x55);
    assert_eq!(bus.read_byte(0x2007), 0x66);
    // horizontal mirroring: $2400 shows $2000
    bus.write_byte(0x2006, 0x24);
    bus.write_byte(0x2006, 0x00);
    bus.read_byte(0x2007);
    assert_eq!(bus.read_byte(0x2007), 0x55);
}

#[test]
fn ppu_reaches_vertical_blank_and_raises_nmi() {
    let mut bus = Bus::new(None);
    bus.write_byte(0x2000, 0x80);
    let mut cycles = 0;
    while !bus.frame_ready {
        bus.tick(1);
        cycles += 1;
    }
    assert_eq!(bus.ppu.scanline, 241);
    assert!(bus.ppu.status.vblank_started());
    assert!(bus.ppu.trigger_nmi);
    assert!(cycles > 241 * 341 / 3 - 1 && cycles <= 241 * 341 / 3 + 1);
    assert_eq!(bus.read_byte(0x2002) & 0x80, 0x80);
    assert!(!bus.ppu.status.vblank_started());
    assert!(bus.present());
    assert!(!bus.frame_ready);
}

#[test]
fn render_blank_background_uses_the_backdrop() {
    let mut cpu = machine(&[]);
    cpu.bus.write_byte(0x2001, 0b0000_1000);
    cpu.bus.frame_ready = true;
    assert!(cpu.bus.present());
    // palette entry 0 is colour $00
    assert_eq!(&cpu.bus.ppu.renderer.pixels[0..3], &[0x80, 0x80, 0x80]);
    assert_eq!(&cpu.bus.ppu.renderer.pixels[184317..184320], &[0x80, 0x80, 0x80]);
}

#[test]
fn header_errors() {
    let mut data = [0u8; 16];
    assert_eq!(Header::new(data), Err("Invalid ROM file".to_string()));
    data[0] = 0x4E;
    data[1] = 0x45;
    data[2] = 0x53;
    data[3] = 0x1A;
    // Bits 2 and 3 of flags 7 equal to 2 mark NES 2.0.
    data[7] = 0b0000_1000;
    assert_eq!(Header::new(data), Err("Unsupported iNES version: 2".to_string()));
    data[7] = 0b0000_0100;
    assert_eq!(Header::new(data), Err("Unsupported iNES version: unknown".to_string()));
    // A mapper number of 16 or more is still iNES 1.
    data[7] = 0b0100_0000;
    assert!(Header::new(data).is_ok());
    data[7] = 0;
    data[6] = 0b0000_0001;
    let header = Header::new(data).unwrap();
    assert_eq!(header.mirroring, Mirroring::Vertical);
}

#[test]
fn uxrom_switches_the_lower_bank() {
    let mut program = vec![0u8; 3 * 0x4000];
    program[0] = 10;
    program[0x4000] = 11;
    program[0x8000] = 12;
    let cartridge = Cartridge::from_bytes(&ines(3, 0, 0x20, &program)).unwrap();
    let mut mapper = MapperInstance::from(cartridge);
    assert_eq!(mapper.read_cpu(0x8000), 10);
    assert_eq!(mapper.read_cpu(0xC000), 12);
    mapper.write_cpu(0x8000, 1);
    assert_eq!(mapper.read_cpu(0x8000), 11);
    assert_eq!(mapper.read_cpu(0xC000), 12);
}

#[test]
fn nrom_mirrors_a_single_page() {
    let mut program = vec![0u8; 0x4000];
    program[5] = 0x77;
    let cartridge = Cartridge::from_bytes(&ines(1, 1, 0, &program)).unwrap();
    let mut mapper = MapperInstance::from(cartridge);
    assert_eq!(mapper.read_cpu(0x8005), 0x77);
    assert_eq!(mapper.read_cpu(0xC005), 0x77);
    assert_eq!(mapper.read_ppu(0x0003), 3);
    assert!(mapper.contains(0x8000));
    assert!(!mapper.contains(0x4020));
    assert_eq!(mapper.mirroring(), Mirroring::Horizontal);
}

#[test]
fn cnrom_switches_character_banks() {
    let cartridge = Cartridge::from_bytes(&ines(1, 2, 0x30, &[])).unwrap();
    let mut mapper = MapperInstance::from(cartridge);
    assert_eq!(mapper.read_ppu(0x0000), 0);
    mapper.write_cpu(0x8000, 1);
    assert_eq!(mapper.read_ppu(0x0000), (0x2000 % 251) as u8);
}

#[test]
fn mmc1_loads_registers_through_the_serial_port() {
    let mut program = vec![0u8; 4 * 0x4000];
    for page in 0..4 {
        program[page * 0x4000] = 20 + page as u8;
    }
    let cartridge = Cartridge::from_bytes(&ines(4, 1, 0x10, &program)).unwrap();
    let mut mapper = MapperInstance::from(cartridge);
    // Program bank = 2, one bit per write, lowest first. At power-on the control
    // register selects 32 KiB switching: banks 2 and 3.
    for bit in [0u8, 1, 0, 0, 0] {
        mapper.write_cpu(0xE000, bit);
    }
    assert_eq!(mapper.read_cpu(0x8000), 22);
    assert_eq!(mapper.read_cpu(0xC000), 23);
    // Control = 0b01100: the last bank fixed at $C000, the program bank at $8000.
    for bit in [0u8, 0, 1, 1, 0] {
        mapper.write_cpu(0x8000, bit);
    }
    assert_eq!(mapper.read_cpu(0x8000), 22);
    assert_eq!(mapper.read_cpu(0xC000), 23);
    // Control = 0b01000: the first bank fixed at $8000, the program bank at $C000.
    for bit in [0u8, 0, 0, 1, 0] {
        mapper.write_cpu(0x8000, bit);
    }
    assert_eq!(mapper.read_cpu(0x8000), 20);
    assert_eq!(mapper.read_cpu(0xC000), 22);
    assert_eq!(mapper.mirroring(), Mirroring::OneScreen);
}

#[test]
fn cpu_state_line() {
    let mut cpu = machine(&[0xA9, 0x80]);
    cpu.step().unwrap();
    // After reset (7 cycles) and LDA #$80 (2 cycles); the negative flag is set.
    assert_eq!(cpu.to_string(), "8002  A:80 X:00 Y:00 P:B4 SP:FD C:9 --I-BB-N");
}

#[test]
fn generated_header_is_one_page_of_program_rom() {
    let header = Header::generate();
    assert_eq!(&header[0..4], &[0x4E, 0x45, 0x53, 0x1A]);
    assert_eq!(header[4], 1);
    assert!(header[5..].iter().all(|b| *b == 0));
    let parsed = Header::new(header).unwrap();
    assert_eq!(parsed.program_rom_pages, 1);
    assert_eq!(parsed.character_rom_pages, 0);
}

fn snapshot(program_counter: u16) -> nes_emu::cpu::CpuState {
    nes_emu::cpu::CpuState {
        instruction: String::from("NOP"),
        accumulator: 0,
        register_x: 0,
        register_y: 0,
        program_counter,
        stack_pointer: 0xFD,
        status: nes_emu::cpu::flags::CpuFlags::new(),
        memory: CpuRam::default(),
    }
}

#[test]
fn debugger_shows_the_last_state_or_the_selected_slot() {
    let mut debugger = CpuDebugger::new();
    assert!(debugger.selected_or_last_cpu_state().is_none());
    debugger.update_buffer(vec![snapshot(0x8000), snapshot(0x8001), snapshot(0x8003)]);
    assert_eq!(debugger.selected_or_last_cpu_state().unwrap().program_counter, 0x8003);
    assert!(debugger.is_highlighted(CPU_STATES - 1));
    debugger.select(1);
    assert_eq!(debugger.selected_or_last_cpu_state().unwrap().program_counter, 0x8001);
    assert!(debugger.is_highlighted(1));
    assert!(!debugger.is_highlighted(CPU_STATES - 1));
    debugger.jump_to_bottom(true);
    assert!(debugger.jump_to_bottom_clicked);
    assert_eq!(debugger.selected_cpu_state_index, None);
    debugger.select(2);
    debugger.clear_states();
    assert!(debugger.selected_or_last_cpu_state().is_none());
}

#[test]
fn debugger_buffer_keeps_the_latest_states() {
    let mut debugger = CpuDebugger::new();
    let states: Vec<_> = (0..(CPU_STATES as u16 + 2)).map(snapshot).collect();
    debugger.update_buffer(states);
    // The two newest overwrote the two oldest.
    assert_eq!(debugger.cpu_states.index(0).as_ref().unwrap().program_counter, CPU_STATES as u16);
    assert_eq!(debugger.cpu_states.index(1).as_ref().unwrap().program_counter, CPU_STATES as u16 + 1);
    assert_eq!(debugger.cpu_states.index(2).as_ref().unwrap().program_counter, 2);
    assert_eq!(debugger.selected_or_last_cpu_state().unwrap().program_counter, CPU_STATES as u16 + 1);
}

#[test]
fn debugger_controls_send_step_states() {
    let mut debugger = CpuDebugger::new();
    assert_eq!(debugger.pause(), StepState { paused: true, step: true });
    assert_eq!(debugger.unpause(), StepState { paused: false, step: true });
    assert_eq!(debugger.toggle_pause(), StepState { paused: true, step: true });
    debugger.select(3);
    assert_eq!(debugger.toggle_clicked(), StepState { paused: false, step: true });
    assert_eq!(debugger.selected_cpu_state_index, None);
    debugger.select(3);
    assert_eq!(debugger.step_clicked(), StepState { paused: true, step: true });
    assert_eq!(debugger.selected_cpu_state_index, None);
    assert_eq!(debugger.step(), StepState { paused: true, step: true });
}

#[test]
fn keys_press_controller_buttons() {
    let input = Input::new();
    let mut keys = Keys {
        z: true,
        x: false,
        space: false,
        enter: true,
        arrow_right: false,
        arrow_left: true,
        arrow_up: false,
        arrow_down: false,
        p_pressed: true,
        o_pressed: false,
    };
    let buttons = input.update(&keys);
    assert_eq!(buttons.bits(), 0b0100_1001);
    assert!(buttons.a() && buttons.start() && buttons.left());
    assert!(input.toggle_pause(&keys));
    assert!(!input.step(&keys));
    keys = Keys { z: false, enter: false, arrow_left: false, ..keys };
    assert_eq!(input.update(&keys).bits(), 0);
}

#[test]
fn frame_pixels_and_test_pattern() {
    assert_eq!(Frame::pixels_len(), 256 * 240 * 3);
    let mut frame = Frame::new();
    frame.update_pixel(2, 1, [1, 2, 3]);
    let i = (1 * 256 + 2) * 3;
    assert_eq!(&frame.pixels[i..i + 3], &[1, 2, 3]);
    frame.update_pixel(256, 0, [9, 9, 9]);
    assert!(frame.pixels[..i].iter().all(|b| *b == 0));
    frame.draw_test_pattern();
    assert_eq!(frame.pixel_index, 1);
    let j = (239 * 256 + 255) * 3;
    assert_eq!(&frame.pixels[j..j + 3], &[255, 239, 230]);
}

#[test]
fn mapper_range_writes() {
    let mut program = vec![0u8; 4 * 0x4000];
    for page in 0..4 {
        program[page * 0x4000] = 30 + page as u8;
    }
    let cartridge = Cartridge::from_bytes(&ines(4, 1, 0x10, &program)).unwrap();
    let mut mapper = MapperInstance::from(cartridge);
    // Five serial writes load program bank 2; the range is longer than the data.
    mapper.write_cpu_range(0xE000, 0xE010, &[0, 1, 0, 0, 0]);
    assert_eq!(mapper.read_cpu(0x8000), 32);
    // Only as many bytes as the range holds are written.
    mapper.write_ppu_range(0x0010, 0x0012, &[7, 8, 9]);
    assert_eq!(mapper.read_ppu_range(0x0010, 0x0013), vec![7, 8, (0x12 % 251) as u8]);
}

#[test]
fn header_mapper_number_takes_its_high_nibble_from_flags_7() {
    let flags = nes_emu::cartridge::Flags::from(u16::from_le_bytes([0x10, 0x40]));
    assert_eq!(flags.mapper_id(), 0x41);
    assert_eq!(flags.mapper_id_low(), 0x1);
    assert_eq!(flags.mapper_id_high(), 0x4);
    assert_eq!(flags.ines_version(), Some(1));
    let flags = nes_emu::cartridge::Flags::from(u16::from_le_bytes([0x00, 0b0000_1011]));
    assert!(flags.vs_unisystem());
    assert!(flags.playchoice_10());
    assert_eq!(flags.ines(), 2);
    assert_eq!(flags.ines_version(), Some(2));
}

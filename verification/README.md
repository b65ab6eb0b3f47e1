# nes_emu

A NES emulator core whose behaviour is stated in Verus contracts and proved.

## Layout

- `src/` — the verified library.
  - `cpu/` — the 2A03 CPU on the bus: addressing modes, the instruction table and
    every instruction as a spec function of the machine state, interrupts, reset,
    and the opcode decoder built from the 6502's opcode groups.
  - `simple_cpu.rs`, `instructions.rs` — a self-contained 6502 interpreter over one
    flat array of memory, and an instruction set over it.
  - `bus.rs` — the CPU address space: RAM mirroring, PPU and APU registers, the
    controller, OAM DMA, read-substitution cheats and the cartridge.
  - `ppu/` — registers, VRAM with nametable mirroring, palette RAM, OAM, timing of
    scanlines and vertical blank, and the renderer (background and sprites).
  - `apu/` — the frame counter, the first pulse channel, its length counter and
    sweep unit.
  - `cartridge/` — iNES headers and the NROM, MMC1, UxROM, CNROM and MMC3 mappers.
  - `cheat.rs`, `controller.rs`, `rom.rs`, `util.rs`.
  - `glue.rs`, `gui/` — the decisions of the emulation loop and of the user
    interface (pausing, stepping, the CPU debugger's state, keyboard mapping).
- `tests/` — tests run against the compiled library.
- `app/` — a headless command-line runner: argument parsing, file reading,
  logging, pacing, and the loop that performs what `glue::decide` decides.

The laws of the library (what a read gives back of a write, what two register
writes set, what the serial port of MMC1 loads, and others) are public proof
functions next to the code they speak of; their names begin with `lemma_`.

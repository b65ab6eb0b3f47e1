//! A NES emulator core: the 6502 CPU, the picture and audio processing units,
//! cartridge mappers and the bus connecting them, with their behaviour stated
//! as contracts.

pub mod apu;
pub mod bus;
pub mod cartridge;
pub mod cheat;
pub mod controller;
pub mod glue;
pub mod gui;
pub mod cpu;
pub mod ppu;
pub mod rom;
pub mod simple_cpu;
pub mod util;
pub mod instructions;

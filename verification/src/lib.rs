//! A NES (Famicom) emulator core: 6502 CPU, bus, PPU registers, APU channels,
//! cartridge mappers, controllers, configuration, the ROM menu and the audio sample
//! ring, with their behaviour stated and proved.

pub mod cartridge;
pub mod joypad;
pub mod mapper;
pub mod ppu;
pub mod apu;
pub mod bus;
pub mod cpu;
pub mod console;
pub mod config;
pub mod audio;
pub mod menu;

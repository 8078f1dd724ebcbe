//! A Nintendo Entertainment System emulator core: the 6502 CPU, the PPU,
//! the APU's register logic, cartridges with their mappers, controllers
//! and the system bus.
pub mod apu;
pub mod bits;
pub mod bus;
pub mod cartridge;
pub mod controller;
pub mod cpu;
pub mod frame;
pub mod nes;
pub mod network;
pub mod ppu;
pub mod state;

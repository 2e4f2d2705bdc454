//! A Game Boy emulator core: CPU, memory map, cartridge controllers, picture
//! processing unit and joypad, each with its contracts.
pub mod cpu;
pub mod frame;
pub mod ppu;
pub mod io;
pub mod memory;
pub mod interrupt;
pub mod decoder;
pub mod text;

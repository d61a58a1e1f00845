//! A cycle-accurate Game Boy (DMG) emulator core: CPU interpreter, bus with
//! per-M-cycle component ticking, pixel-FIFO PPU, timer, joypad and
//! cartridge mappers.
pub mod alu;
pub mod apu;
pub mod components;
pub mod cpu;
pub mod fifo;
pub mod gb;
pub mod joypad;
pub mod ppu;
pub mod rom;
pub mod serial;
pub mod timer;
pub mod util;

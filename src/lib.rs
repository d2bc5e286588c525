//! Instruction-level and cycle-level model of an 8-bit handheld game console:
//! processor core, memory bus, interrupt controller, timer and pixel pipeline.
pub mod ppu;
pub mod apu;
pub mod cartridge;
pub mod joypad;
pub mod cpu;
pub mod memorybus;
pub mod text;
pub mod debug_tools;

//! The processor core and memory bus of an 8-bit handheld console.
pub mod alu;
pub mod cartridge;
pub mod cpu;
pub mod execute;
pub mod interrupt;
pub mod memory;
pub mod registers;

//! Core of a NES-compatible machine: a cycle-stepped 6502-family processor,
//! the memory-mapped bus it reads and writes through, a fixed-mapping
//! cartridge and a minimal picture unit.
//!
//! Every executable function carries a contract over the mathematical model
//! of the machine, and the crate states and proves the laws that tie the
//! functions together (see `cpu::laws`).
pub mod cartridge;
pub mod cpu;
pub mod pacing;
pub mod ppu;
pub mod system;
pub mod word;

//! An interpreter for the 6502-family processor of the NES: a flat address
//! space, a register file, an addressing-mode resolver, an opcode decoder
//! and an executor, each stated over a mathematical model and proved.

pub mod cli;
pub mod cpu;
pub mod memory;
